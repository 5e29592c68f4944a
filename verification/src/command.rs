//! Description of a process pipeline as plain data.

use vstd::prelude::*;

verus! {

/// One of the two stages of a pipeline.
#[derive(Clone, Copy, Debug, PartialEq, Eq, Structural)]
pub enum Stage {
    /// The first stage, which writes the stream.
    A,
    /// The second stage, which reads it.
    B,
}

/// Where a standard stream of a stage is connected.
#[derive(Clone, Copy, Debug, PartialEq, Eq, Structural)]
pub enum Stream {
    /// To whatever the stream of the starting process is connected to.
    Inherited,
    /// To the pipe between the two stages.
    Piped,
}

/// How the standard input and the standard output of a stage are connected.
#[derive(Clone, Copy, Debug, PartialEq, Eq, Structural)]
pub struct Wiring {
    pub stdin: Stream,
    pub stdout: Stream,
}

/// The wiring of a two-stage pipeline: stage A writes into the pipe and
/// stage B reads from it, and the other two streams are left alone.
pub open spec fn wiring_of(stage: Stage) -> Wiring {
    match stage {
        Stage::A => Wiring { stdin: Stream::Inherited, stdout: Stream::Piped },
        Stage::B => Wiring { stdin: Stream::Piped, stdout: Stream::Inherited },
    }
}

/// Tells how the streams of `stage` are to be connected when it is started.
pub fn wiring(stage: Stage) -> (wiring: Wiring)
    ensures
        wiring == wiring_of(stage),
{
    match stage {
        Stage::A => Wiring { stdin: Stream::Inherited, stdout: Stream::Piped },
        Stage::B => Wiring { stdin: Stream::Piped, stdout: Stream::Inherited },
    }
}

/// What one stage of a pipeline is, as mathematical data: the name of its
/// executable and the arguments it is started with, in order.
pub struct StageModel {
    pub program: Seq<char>,
    pub args: Seq<Seq<char>>,
}

/// What a two-stage pipeline is, as mathematical data.
pub struct PipelineModel {
    pub stage_a: StageModel,
    pub stage_b: StageModel,
}

/// The characters of each string of a list, in order.
pub open spec fn texts(items: Seq<String>) -> Seq<Seq<char>> {
    items.map_values(|item: String| item@)
}

/// One stage of a pipeline: an executable, looked up on the command search
/// path when the stage is started, and its ordered argument list.
#[derive(Debug, PartialEq, Eq)]
pub struct StageSpec {
    pub program: String,
    pub args: Vec<String>,
}

impl View for StageSpec {
    type V = StageModel;

    open spec fn view(&self) -> StageModel {
        StageModel { program: self.program@, args: texts(self.args@) }
    }
}

/// A two-stage pipeline: the standard output of stage A feeds the standard
/// input of stage B.
#[derive(Debug, PartialEq, Eq)]
pub struct PipelineSpec {
    pub stage_a: StageSpec,
    pub stage_b: StageSpec,
}

impl View for PipelineSpec {
    type V = PipelineModel;

    open spec fn view(&self) -> PipelineModel {
        PipelineModel { stage_a: self.stage_a@, stage_b: self.stage_b@ }
    }
}

/// Appending one string to a list appends its characters to the list's texts.
pub proof fn lemma_texts_push(items: Seq<String>, item: String)
    ensures
        texts(items.push(item)) == texts(items).push(item@),
{
    assert(texts(items.push(item)) =~= texts(items).push(item@));
}

impl Clone for StageSpec {
    /// The copy holds the same program and the same arguments.
    fn clone(&self) -> (copy: StageSpec)
        ensures
            copy@ == self@,
    {
        let mut args: Vec<String> = Vec::new();
        let mut i: usize = 0;
        while i < self.args.len()
            invariant
                i <= self.args.len(),
                args@.len() == i,
                forall|k: int| 0 <= k < i ==> args@[k]@ == self.args@[k]@,
            decreases self.args.len() - i,
        {
            args.push(self.args[i].clone());
            i = i + 1;
        }
        assert(texts(args@) =~= texts(self.args@));
        StageSpec { program: self.program.clone(), args }
    }
}

impl PipelineModel {
    /// The named stage of the pipeline.
    pub open spec fn stage(self, stage: Stage) -> StageModel {
        match stage {
            Stage::A => self.stage_a,
            Stage::B => self.stage_b,
        }
    }
}

impl PipelineSpec {
    /// The named stage of the pipeline.
    pub fn stage(&self, stage: Stage) -> (found: &StageSpec)
        ensures
            found@ == self@.stage(stage),
    {
        match stage {
            Stage::A => &self.stage_a,
            Stage::B => &self.stage_b,
        }
    }
}

impl Clone for PipelineSpec {
    /// The copy holds the same two stages.
    fn clone(&self) -> (copy: PipelineSpec)
        ensures
            copy@ == self@,
    {
        PipelineSpec { stage_a: self.stage_a.clone(), stage_b: self.stage_b.clone() }
    }
}

} // verus!
