//! Why things fail.
use vstd::prelude::*;
use vstd::string::*;

verus! {

/// Declares `std::io::Error`, which this library only carries.
#[verifier::external_type_specification]
#[verifier::external_body]
pub struct ExIoError(std::io::Error);

/// An error of the operating system, by its number.
#[derive(Clone, Copy, Debug, PartialEq, Eq, Structural)]
pub struct OsError {
    pub code: i32,
}

/// Why a call on a socket fails before anything is submitted for it. Each reason is the
/// `std::io::ErrorKind` of the same name.
#[derive(Clone, Copy, Debug, PartialEq, Eq, Structural)]
pub enum RequestError {
    /// There is no address to connect to or to send to.
    InvalidInput,
    /// The socket is not connected to a remote address.
    NotConnected,
}

/// Why a runtime could not be set up.
#[derive(Debug)]
pub enum InitError {
    /// The ring could not be created.
    IoUringCreationFailed(std::io::Error),
    /// The kernel's io_uring lacks a feature.
    IoUringFeatureNotPresent(&'static str),
    /// The kernel could not be asked which operations it supports.
    IoUringProbeFailed(std::io::Error),
    /// The kernel does not support an operation.
    IoUringOpcodeUnsupported(&'static str),
}

/// `to_string` of a `std::io::Error`. Its text comes from the operating system and may depend
/// on the locale; nothing is stated of it.
#[verifier::external_body]
fn io_error_text(err: &std::io::Error) -> (text: String) {
    err.to_string()
}

impl InitError {
    /// The text of the error, given the text of the error that it is due to, if there is one.
    pub open spec fn text(&self, cause: Seq<char>) -> Seq<char> {
        match self {
            InitError::IoUringCreationFailed(_) => "Failed to create io_uring ("@ + cause + ")"@,
            InitError::IoUringFeatureNotPresent(msg) => "io_uring feature `"@ + msg@
                + "` is required but not supported on current kernel"@,
            InitError::IoUringProbeFailed(_) => "Failed to probe supported io_uring opcodes ("@
                + cause + ")"@,
            InitError::IoUringOpcodeUnsupported(msg) => "io_uring opcode  `"@ + msg@
                + "` is required but not supported on current kernel"@,
        }
    }

    /// The text of the error, given the text of the error that it is due to, if there is one.
    pub fn text_with_cause(&self, cause: &str) -> (text: String)
        ensures
            text@ == self.text(cause@),
    {
        match self {
            InitError::IoUringCreationFailed(_) => between(
                "Failed to create io_uring (",
                cause,
                ")",
            ),
            InitError::IoUringFeatureNotPresent(msg) => between(
                "io_uring feature `",
                msg,
                "` is required but not supported on current kernel",
            ),
            InitError::IoUringProbeFailed(_) => between(
                "Failed to probe supported io_uring opcodes (",
                cause,
                ")",
            ),
            InitError::IoUringOpcodeUnsupported(msg) => between(
                "io_uring opcode  `",
                msg,
                "` is required but not supported on current kernel",
            ),
        }
    }

    /// The text of the error, for people to read.
    pub fn fmt(&self) -> (text: String)
        ensures
            exists|cause: Seq<char>| text@ == #[trigger] self.text(cause),
    {
        let cause = match self {
            InitError::IoUringCreationFailed(err) => io_error_text(err),
            InitError::IoUringProbeFailed(err) => io_error_text(err),
            _ => String::new(),
        };
        self.text_with_cause(cause.as_str())
    }
}

fn between(before: &str, middle: &str, after: &str) -> (text: String)
    ensures
        text@ == before@ + middle@ + after@,
{
    let mut text = before.to_owned();
    text.append(middle);
    text.append(after);
    text
}

/// The text of an error tells what it is due to: it ends in the text of the cause, in brackets, or
/// names the feature or the operation that is missing, in backquotes.
pub proof fn law_text_tells_the_cause(err: InitError, cause: Seq<char>)
    ensures
        match err {
            InitError::IoUringCreationFailed(_) => {
                let n = "Failed to create io_uring ("@.len() as int;
                &&& err.text(cause).len() == n + cause.len() + 1
                &&& err.text(cause).take(n) == "Failed to create io_uring ("@
                &&& err.text(cause).subrange(n, n + cause.len()) == cause
                &&& err.text(cause).skip(n + cause.len()) == ")"@
            },
            InitError::IoUringProbeFailed(_) => {
                let n = "Failed to probe supported io_uring opcodes ("@.len() as int;
                &&& err.text(cause).len() == n + cause.len() + 1
                &&& err.text(cause).take(n) == "Failed to probe supported io_uring opcodes ("@
                &&& err.text(cause).subrange(n, n + cause.len()) == cause
                &&& err.text(cause).skip(n + cause.len()) == ")"@
            },
            InitError::IoUringFeatureNotPresent(msg) => {
                let n = "io_uring feature `"@.len() as int;
                &&& n + msg@.len() <= err.text(cause).len()
                &&& err.text(cause).take(n) == "io_uring feature `"@
                &&& err.text(cause).subrange(n, n + msg@.len()) == msg@
                &&& err.text(cause).skip(n + msg@.len())
                    == "` is required but not supported on current kernel"@
            },
            InitError::IoUringOpcodeUnsupported(msg) => {
                let n = "io_uring opcode  `"@.len() as int;
                &&& n + msg@.len() <= err.text(cause).len()
                &&& err.text(cause).take(n) == "io_uring opcode  `"@
                &&& err.text(cause).subrange(n, n + msg@.len()) == msg@
                &&& err.text(cause).skip(n + msg@.len())
                    == "` is required but not supported on current kernel"@
            },
        },
{
    reveal_strlit(")");
    reveal_strlit("Failed to create io_uring (");
    reveal_strlit("Failed to probe supported io_uring opcodes (");
    reveal_strlit("io_uring feature `");
    reveal_strlit("io_uring opcode  `");
    reveal_strlit("` is required but not supported on current kernel");
}

} // verus!
