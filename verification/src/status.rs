//! Termination status of one pipeline stage.

use vstd::prelude::*;
use crate::text::{append_decimal, append_signed_decimal, decimal, signed_decimal};

verus! {

/// How one stage of the pipeline ended.
#[derive(Clone, Copy, Debug, PartialEq, Eq, Structural)]
pub enum StageStatus {
    /// The process left on its own with this exit code.
    Exited(u32),
    /// A signal with this number ended the process.
    Signaled(u8),
    /// The platform reported something that is neither an exit code nor a signal.
    Other(i32),
    /// The process is known to have ended, but its status could not be obtained.
    Undetermined,
}

impl StageStatus {
    /// A stage succeeded exactly when it left on its own with exit code zero.
    pub open spec fn is_success(self) -> bool {
        self == StageStatus::Exited(0)
    }

    /// Tells whether the stage succeeded.
    #[verifier::when_used_as_spec(is_success)]
    pub fn success(self) -> (ok: bool)
        ensures
            ok == self.is_success(),
    {
        match self {
            StageStatus::Exited(code) => code == 0,
            _ => false,
        }
    }

    /// The status as text: the name of its variant and, in brackets, the number
    /// that it carries, if it carries one.
    pub open spec fn text(self) -> Seq<char> {
        match self {
            StageStatus::Exited(code) => "Exited("@ + decimal(code as nat) + ")"@,
            StageStatus::Signaled(signal) => "Signaled("@ + decimal(signal as nat) + ")"@,
            StageStatus::Other(raw) => "Other("@ + signed_decimal(raw as int) + ")"@,
            StageStatus::Undetermined => "Undetermined"@,
        }
    }

    /// Appends the status as text to `out`.
    pub fn append_to(self, out: &mut String)
        ensures
            final(out)@ == old(out)@ + self.text(),
    {
        match self {
            StageStatus::Exited(code) => {
                out.append("Exited(");
                append_decimal(out, code as u64);
                out.append(")");
            },
            StageStatus::Signaled(signal) => {
                out.append("Signaled(");
                append_decimal(out, signal as u64);
                out.append(")");
            },
            StageStatus::Other(raw) => {
                out.append("Other(");
                append_signed_decimal(out, raw);
                out.append(")");
            },
            StageStatus::Undetermined => {
                out.append("Undetermined");
            },
        }
        assert(out@ =~= old(out)@ + self.text());
    }

    /// The status as text.
    pub fn describe(self) -> (text: String)
        ensures
            text@ == self.text(),
    {
        let mut text = String::new();
        self.append_to(&mut text);
        assert(text@ =~= self.text());
        text
    }
}

} // verus!
