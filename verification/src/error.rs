//! The error every fallible operation of the binding reports.

use vstd::prelude::*;
use crate::status::PvStatus;
use crate::text::{decimal, decimal_string, texts};

verus! {

/// What kind of failure an error records.
#[derive(PartialEq, Eq, Clone, Copy, Debug, Structural)]
pub enum PorcupineErrorStatus {
    /// A native call returned a status other than success.
    LibraryError(PvStatus),
    /// The native library or one of its entry points could not be loaded.
    LibraryLoadError,
    /// A frame of the wrong length was submitted.
    FrameLengthError,
    /// A configuration value was rejected before any native call.
    ArgumentError,
}

/// A failure: its kind, a message, and the diagnostics the native side had
/// accumulated when it happened.
#[derive(Clone, Debug)]
pub struct PorcupineError {
    pub status: PorcupineErrorStatus,
    pub message: String,
    pub message_stack: Vec<String>,
}

/// The mathematical content of a [`PorcupineError`].
pub struct PorcupineErrorView {
    pub status: PorcupineErrorStatus,
    pub message: Seq<char>,
    pub message_stack: Seq<Seq<char>>,
}

impl View for PorcupineError {
    type V = PorcupineErrorView;

    open spec fn view(&self) -> PorcupineErrorView {
        PorcupineErrorView {
            status: self.status,
            message: self.message@,
            message_stack: texts(self.message_stack@),
        }
    }
}

impl PorcupineErrorStatus {
    /// How the kind is written in a rendered error.
    pub open spec fn spec_text(self) -> Seq<char> {
        match self {
            PorcupineErrorStatus::LibraryError(status) => "LibraryError("@ + status.spec_name()
                + ")"@,
            PorcupineErrorStatus::LibraryLoadError => "LibraryLoadError"@,
            PorcupineErrorStatus::FrameLengthError => "FrameLengthError"@,
            PorcupineErrorStatus::ArgumentError => "ArgumentError"@,
        }
    }

    /// How the kind is written in a rendered error.
    pub fn text(&self) -> (s: String)
        ensures
            s@ == self.spec_text(),
    {
        match self {
            PorcupineErrorStatus::LibraryError(status) => {
                let mut s = String::from_str("LibraryError(");
                s.append(status.name());
                s.append(")");
                s
            },
            PorcupineErrorStatus::LibraryLoadError => String::from_str("LibraryLoadError"),
            PorcupineErrorStatus::FrameLengthError => String::from_str("FrameLengthError"),
            PorcupineErrorStatus::ArgumentError => String::from_str("ArgumentError"),
        }
    }
}

/// The rendering of the first `count` entries of a diagnostic stack: each
/// entry on a line of its own, preceded by its position in brackets.
pub open spec fn stack_lines(stack: Seq<Seq<char>>, count: nat) -> Seq<char>
    decreases count,
{
    if count == 0 {
        Seq::empty()
    } else {
        stack_lines(stack, (count - 1) as nat) + "  ["@ + decimal((count - 1) as nat) + "] "@
            + stack[count - 1] + "\n"@
    }
}

impl PorcupineErrorView {
    /// The one-string rendering of an error: the message, the kind, and the
    /// diagnostic stack if there is one.
    pub open spec fn rendered(self) -> Seq<char> {
        let head = self.message + " with status '"@ + self.status.spec_text() + "'"@;
        if self.message_stack.len() == 0 {
            head
        } else {
            head + ":"@ + stack_lines(self.message_stack, self.message_stack.len())
        }
    }
}

impl PorcupineError {
    /// An error without diagnostics.
    pub fn new(status: PorcupineErrorStatus, message: &str) -> (e: PorcupineError)
        ensures
            e@.status == status,
            e@.message == message@,
            e@.message_stack == Seq::<Seq<char>>::empty(),
    {
        let e = PorcupineError {
            status,
            message: String::from_str(message),
            message_stack: Vec::new(),
        };
        assert(e@.message_stack =~= Seq::<Seq<char>>::empty());
        e
    }

    /// An error that carries the diagnostics retrieved from the native side.
    pub fn new_with_stack(
        status: PorcupineErrorStatus,
        message: &str,
        message_stack: Vec<String>,
    ) -> (e: PorcupineError)
        ensures
            e@.status == status,
            e@.message == message@,
            e@.message_stack == texts(message_stack@),
            e.message_stack == message_stack,
    {
        PorcupineError { status, message: String::from_str(message), message_stack }
    }

    /// Renders the error as one string.
    pub fn to_string(&self) -> (s: String)
        ensures
            s@ == self@.rendered(),
    {
        let mut s = self.message.clone();
        s.append(" with status '");
        let kind = self.status.text();
        s.append(kind.as_str());
        s.append("'");
        if self.message_stack.len() > 0 {
            s.append(":");
            let ghost head = s@;
            let mut i: usize = 0;
            while i < self.message_stack.len()
                invariant
                    i <= self.message_stack.len(),
                    s@ == head + stack_lines(self@.message_stack, i as nat),
                decreases self.message_stack.len() - i,
            {
                let ghost before = s@;
                s.append("  [");
                let position = decimal_string(i as u64);
                s.append(position.as_str());
                s.append("] ");
                s.append(self.message_stack[i].as_str());
                s.append("\n");
                proof {
                    let lines = stack_lines(self@.message_stack, i as nat);
                    assert(self@.message_stack[i as int] == self.message_stack[i as int]@);
                    assert(s@ =~= head + (lines + "  ["@ + decimal(i as nat) + "] "@
                        + self@.message_stack[i as int] + "\n"@));
                }
                i += 1;
            }
        }
        s
    }
}

} // verus!
