//! The outcome of compiling a generated crate, read from the compiler's
//! output and from whether the kernel file was written.
use vstd::prelude::*;
use crate::text::{from_utf8_lossy, lossy_utf8};

verus! {

/// The outcome of a build: the compiler's output with and without colors,
/// and whether the kernel was produced.
#[derive(Debug, Clone)]
pub enum CompilationStatus {
    /// Both outputs exist, but the kernel does not.
    Failed { colored_output: String, colorless_output: String },
    /// Both outputs and the kernel exist.
    Succeeded { colored_output: String, colorless_output: String },
}

impl CompilationStatus {
    /// Whether the build succeeded.
    pub open spec fn succeeded(&self) -> bool {
        self is Succeeded
    }

    /// The colored output, whichever the outcome.
    pub open spec fn colored(&self) -> Seq<char> {
        match *self {
            CompilationStatus::Failed { colored_output, .. } => colored_output@,
            CompilationStatus::Succeeded { colored_output, .. } => colored_output@,
        }
    }

    /// The colorless output, whichever the outcome.
    pub open spec fn colorless(&self) -> Seq<char> {
        match *self {
            CompilationStatus::Failed { colorless_output, .. } => colorless_output@,
            CompilationStatus::Succeeded { colorless_output, .. } => colorless_output@,
        }
    }

    /// The outcome of a build with these outputs: it succeeded exactly when
    /// the kernel file exists.
    pub fn from_outputs(colored_output: String, colorless_output: String, kernel_exists: bool) -> (s:
        CompilationStatus)
        ensures
            s.succeeded() == kernel_exists,
            s.colored() == colored_output@,
            s.colorless() == colorless_output@,
    {
        if kernel_exists {
            CompilationStatus::Succeeded { colored_output, colorless_output }
        } else {
            CompilationStatus::Failed { colored_output, colorless_output }
        }
    }

    /// Whether the build succeeded.
    pub fn is_success(&self) -> (r: bool)
        ensures
            r == self.succeeded(),
    {
        match self {
            CompilationStatus::Failed { .. } => false,
            CompilationStatus::Succeeded { .. } => true,
        }
    }

    /// The output to show the user: the colored one, whichever the outcome.
    pub fn colorful_output(&self) -> (r: &String)
        ensures
            r@ == self.colored(),
    {
        match self {
            CompilationStatus::Failed { colored_output, .. } => colored_output,
            CompilationStatus::Succeeded { colored_output, .. } => colored_output,
        }
    }

    /// The output to report an error with: the colorless one.
    pub fn colorless_output(&self) -> (r: &String)
        ensures
            r@ == self.colorless(),
    {
        match self {
            CompilationStatus::Failed { colorless_output, .. } => colorless_output,
            CompilationStatus::Succeeded { colorless_output, .. } => colorless_output,
        }
    }
}

/// The text of a command's output: its error stream and its output stream,
/// each decoded lossily, the error stream first and a newline between them
/// when both are non-empty.
pub open spec fn spec_output_string(stderr: Seq<u8>, stdout: Seq<u8>) -> Seq<char> {
    if stderr.len() == 0 {
        lossy_utf8(stdout)
    } else if stdout.len() == 0 {
        lossy_utf8(stderr)
    } else {
        lossy_utf8(stderr) + seq!['\n'] + lossy_utf8(stdout)
    }
}

/// The text of a command's output, from its two streams; at least one of
/// them holds something.
pub fn output_string(stderr: &[u8], stdout: &[u8]) -> (r: String)
    requires
        stderr@.len() > 0 || stdout@.len() > 0,
    ensures
        r@ == spec_output_string(stderr@, stdout@),
{
    let lossy_error = from_utf8_lossy(stderr);
    let lossy_output = from_utf8_lossy(stdout);
    if lossy_error.as_str().unicode_len() == 0 {
        lossy_output
    } else if lossy_output.as_str().unicode_len() == 0 {
        lossy_error
    } else {
        let mut text = lossy_error;
        text.append("\n");
        text.append(lossy_output.as_str());
        proof {
            reveal_strlit("\n");
        }
        text
    }
}

/// The same, for any two streams: nothing when both are empty (building a
/// crate always prints something, so an empty pair is a fault of the caller).
pub fn checked_output_string(stderr: &[u8], stdout: &[u8]) -> (r: Option<String>)
    ensures
        r is None <==> stderr@.len() == 0 && stdout@.len() == 0,
        r matches Some(s) ==> s@ == spec_output_string(stderr@, stdout@),
{
    if stderr.len() == 0 && stdout.len() == 0 {
        None
    } else {
        Some(output_string(stderr, stdout))
    }
}

/// The error of a build step.
#[derive(Debug)]
pub enum Error {
    /// Reading, writing or running failed.
    Io(std::io::Error),
}

/// The standard library's I/O error, carried through unread.
#[verifier::external_type_specification]
#[verifier::external_body]
pub struct ExIoError(std::io::Error);

impl From<std::io::Error> for Error {
    /// Wraps an I/O error.
    fn from(value: std::io::Error) -> (r: Self) {
        Error::Io(value)
    }
}

impl vstd::std_specs::convert::FromSpecImpl<std::io::Error> for Error {
    open spec fn obeys_from_spec() -> bool {
        true
    }

    open spec fn from_spec(v: std::io::Error) -> Self {
        Error::Io(v)
    }
}

} // verus!
