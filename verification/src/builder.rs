//! The pipeline builder: from a destination and a rewind flag to the pipeline
//! that captures onto that destination and shows the stream while it arrives.

use vstd::prelude::*;
use crate::command::{lemma_texts_push, texts, PipelineModel, PipelineSpec, StageModel, StageSpec};

verus! {

/// Executable of stage A, the capture tool.
pub const CAPTURE_COMMAND: &'static str = "dvgrab";

/// Asks the capture tool to rewind the tape before it starts.
pub const REWIND_OPTION: &'static str = "-rewind";

/// Lifts the cap on the size of one file, so that a capture is a single file.
pub const MAX_SIZE_OPTION: &'static str = "-s0";

/// Introduces the buffer depth.
pub const BUFFERS_OPTION: &'static str = "-buffers";

/// The buffer depth, in frames.
pub const BUFFER_DEPTH: &'static str = "1000";

/// Introduces the output format.
pub const FORMAT_OPTION: &'static str = "-f";

/// The output format.
pub const FORMAT_TAG: &'static str = "dv2";

/// Closes stage A's arguments: the stream also goes to standard output.
pub const PIPE_OPTION: &'static str = "-";

/// Executable of stage B, the playback tool.
pub const PLAYER_COMMAND: &'static str = "ffplay";

/// Introduces the playback tool's input.
pub const INPUT_OPTION: &'static str = "-i";

/// Names the playback tool's standard input as its input.
pub const PIPE_INPUT: &'static str = "pipe:";

/// The arguments of stage A that do not depend on the request and stand
/// before the destination.
pub open spec fn fixed_capture_args() -> Seq<Seq<char>> {
    seq![MAX_SIZE_OPTION@, BUFFERS_OPTION@, BUFFER_DEPTH@, FORMAT_OPTION@, FORMAT_TAG@]
}

/// The ordered arguments of stage A: the rewind option if asked for, the
/// fixed options, the destination as given, and the pipe marker last.
pub open spec fn capture_args(destination: Seq<char>, rewind: bool) -> Seq<Seq<char>> {
    let lead: Seq<Seq<char>> = if rewind {
        seq![REWIND_OPTION@]
    } else {
        Seq::empty()
    };
    lead + fixed_capture_args() + seq![destination, PIPE_OPTION@]
}

/// Stage A for a destination and a rewind flag.
pub open spec fn capture_stage(destination: Seq<char>, rewind: bool) -> StageModel {
    StageModel { program: CAPTURE_COMMAND@, args: capture_args(destination, rewind) }
}

/// Stage B: it reads the stream from its standard input. It is the same for
/// every request.
pub open spec fn playback_stage() -> StageModel {
    StageModel { program: PLAYER_COMMAND@, args: seq![INPUT_OPTION@, PIPE_INPUT@] }
}

/// The pipeline for a destination and a rewind flag.
pub open spec fn pipeline_for(destination: Seq<char>, rewind: bool) -> PipelineModel {
    PipelineModel { stage_a: capture_stage(destination, rewind), stage_b: playback_stage() }
}

/// Appends a copy of `text` to `args`.
fn push_text(args: &mut Vec<String>, text: &str)
    ensures
        texts(final(args)@) == texts(old(args)@).push(text@),
{
    let item = text.to_owned();
    proof {
        lemma_texts_push(args@, item);
    }
    args.push(item);
}

/// Builds the pipeline that captures onto `destination`.
///
/// Every destination is accepted, the empty one and one that names nothing
/// included: whether it can be written to is found out when the pipeline runs.
pub fn build(destination: &str, rewind: bool) -> (pipeline: PipelineSpec)
    ensures
        pipeline@ == pipeline_for(destination@, rewind),
{
    let mut capture: Vec<String> = Vec::new();
    assert(texts(capture@) =~= Seq::<Seq<char>>::empty());
    if rewind {
        push_text(&mut capture, REWIND_OPTION);
    }
    push_text(&mut capture, MAX_SIZE_OPTION);
    push_text(&mut capture, BUFFERS_OPTION);
    push_text(&mut capture, BUFFER_DEPTH);
    push_text(&mut capture, FORMAT_OPTION);
    push_text(&mut capture, FORMAT_TAG);
    push_text(&mut capture, destination);
    push_text(&mut capture, PIPE_OPTION);
    assert(texts(capture@) =~= capture_args(destination@, rewind));

    let mut playback: Vec<String> = Vec::new();
    assert(texts(playback@) =~= Seq::<Seq<char>>::empty());
    push_text(&mut playback, INPUT_OPTION);
    push_text(&mut playback, PIPE_INPUT);
    assert(texts(playback@) =~= playback_stage().args);

    PipelineSpec {
        stage_a: StageSpec { program: CAPTURE_COMMAND.to_owned(), args: capture },
        stage_b: StageSpec { program: PLAYER_COMMAND.to_owned(), args: playback },
    }
}

/// A request to capture, as mathematical data.
pub struct RequestModel {
    pub destination: Seq<char>,
    pub rewind: bool,
}

/// A request to capture: where the capture goes, and whether the tape is
/// rewound first. It is made when the user starts a capture and is used up
/// by building its pipeline.
#[derive(Debug, PartialEq, Eq)]
pub struct CaptureRequest {
    pub destination: String,
    pub rewind: bool,
}

impl View for CaptureRequest {
    type V = RequestModel;

    open spec fn view(&self) -> RequestModel {
        RequestModel { destination: self.destination@, rewind: self.rewind }
    }
}

impl CaptureRequest {
    /// Builds the pipeline that serves this request.
    pub fn into_pipeline(self) -> (pipeline: PipelineSpec)
        ensures
            pipeline@ == pipeline_for(self@.destination, self@.rewind),
    {
        build(self.destination.as_str(), self.rewind)
    }
}

/// Building is a function of its inputs: two pipelines built for the same
/// destination and the same rewind flag hold the same data.
pub proof fn lemma_build_deterministic(
    first: PipelineSpec,
    second: PipelineSpec,
    destination: Seq<char>,
    rewind: bool,
)
    requires
        first@ == pipeline_for(destination, rewind),
        second@ == pipeline_for(destination, rewind),
    ensures
        first@ == second@,
{
}

/// Stage A has seven arguments, and the rewind option adds an eighth in front
/// of them. The destination is the last but one, unchanged, and the pipe
/// marker is the last.
pub proof fn lemma_capture_args_layout(destination: Seq<char>, rewind: bool)
    ensures
        capture_args(destination, rewind).len() == if rewind { 8int } else { 7int },
        capture_args(destination, rewind)[capture_args(destination, rewind).len() - 2]
            == destination,
        capture_args(destination, rewind).last() == PIPE_OPTION@,
        capture_args(destination, rewind).contains(destination),
        capture_args(destination, true) == seq![REWIND_OPTION@] + capture_args(
            destination,
            false,
        ),
{
    let args = capture_args(destination, rewind);
    assert(args[args.len() - 2] == destination);
    assert(capture_args(destination, true) =~= seq![REWIND_OPTION@] + capture_args(
        destination,
        false,
    ));
}

/// The rewind option is among stage A's arguments exactly when rewinding was
/// asked for. A destination that is itself spelled like the rewind option is
/// left out: it stands among the arguments whatever the flag says.
pub proof fn lemma_rewind_iff_requested(destination: Seq<char>, rewind: bool)
    requires
        destination != REWIND_OPTION@,
    ensures
        capture_args(destination, rewind).contains(REWIND_OPTION@) <==> rewind,
{
    reveal_strlit("-rewind");
    reveal_strlit("-s0");
    reveal_strlit("-buffers");
    reveal_strlit("1000");
    reveal_strlit("-f");
    reveal_strlit("dv2");
    reveal_strlit("-");
    let args = capture_args(destination, rewind);
    if rewind {
        assert(args[0] == REWIND_OPTION@);
    } else {
        assert(args.len() == 7);
        assert forall|i: int| 0 <= i < args.len() implies args[i] != REWIND_OPTION@ by {
            assert(REWIND_OPTION@.len() == 7);
            assert(args[i].len() != 7 || args[i] == destination);
        }
    }
}

} // verus!
