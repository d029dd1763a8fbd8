//! What can go wrong with a conversion, and how it is reported.

use vstd::prelude::*;

verus! {

/// Why a piece of outside work did not complete.
#[derive(Clone, Copy, PartialEq, Eq, Structural, Debug)]
pub enum Fault {
    /// The file or program that the work was aimed at does not exist.
    NotFound,
    /// Anything else: permissions, exhausted resources, a short read.
    Other,
}

/// The classified failure of a conversion.
#[derive(Clone, Copy, PartialEq, Eq, Structural, Debug)]
pub enum Failure {
    /// The working area could not be allocated or its inputs not written.
    Resource,
    /// The renderer could not be started.
    Invocation,
    /// The renderer ran but left no output file behind.
    OutputMissing,
    /// The output file exists but could not be read in full.
    Read,
}

/// The status that the caller of the service sees.
#[derive(Clone, Copy, PartialEq, Eq, Structural, Debug)]
pub enum StatusCode {
    /// The conversion succeeded.
    Success,
    /// The conversion failed inside the service.
    Internal,
}

impl Failure {
    /// The status under which this failure is reported. Every failure is an
    /// internal error: the caller is not told the cause in structured form.
    pub open spec fn code(self) -> StatusCode {
        StatusCode::Internal
    }

    /// The status under which this failure is reported.
    pub fn status_code(self) -> (r: StatusCode)
        ensures
            r == self.code(),
            r == StatusCode::Internal,
    {
        StatusCode::Internal
    }

    /// The text that accompanies the status.
    pub open spec fn text(self) -> Seq<char> {
        match self {
            Failure::Resource => "Error preparing working area"@,
            Failure::Invocation => "Error running command"@,
            Failure::OutputMissing => "Renderer produced no output"@,
            Failure::Read => "Error reading result"@,
        }
    }

    /// The text that accompanies the status.
    pub fn message(self) -> (r: &'static str)
        ensures
            r@ == self.text(),
    {
        match self {
            Failure::Resource => "Error preparing working area",
            Failure::Invocation => "Error running command",
            Failure::OutputMissing => "Renderer produced no output",
            Failure::Read => "Error reading result",
        }
    }
}

/// Distinct failures carry distinct texts: a reader of the status message
/// can tell a renderer that could not be started from one that left no
/// output.
pub proof fn texts_are_distinct(a: Failure, b: Failure)
    ensures
        a.text() == b.text() <==> a == b,
{
    reveal_strlit("Error preparing working area");
    reveal_strlit("Error running command");
    reveal_strlit("Renderer produced no output");
    reveal_strlit("Error reading result");
    assert(Failure::Resource.text().len() == 28);
    assert(Failure::Invocation.text().len() == 21);
    assert(Failure::OutputMissing.text().len() == 27);
    assert(Failure::Read.text().len() == 20);
}

} // verus!
