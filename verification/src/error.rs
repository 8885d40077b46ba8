use vstd::prelude::*;

verus! {

/// The error kinds that a run of the pipeline can surface.
///
/// Setup errors (`InputPathNotFound`, `PatternSyntaxError`, `OutputOpenError`)
/// are fatal and abort the run with no partial output. `ContentReadError` is
/// raised when a qualifying file's content cannot be decoded as text and is
/// treated as fatal as well, since a silently truncated aggregation would be
/// worse than an explicit failure. Entries that merely cannot be read during
/// the walk are skipped without surfacing an error at all.
#[derive(Clone, Copy, Debug, PartialEq, Eq, Structural)]
pub enum PipelineError {
    /// The input subtree handed to the run does not exist.
    InputPathNotFound,
    /// An exclusion pattern supplied by the caller could not be parsed.
    PatternSyntaxError,
    /// The output destination could not be created or truncated.
    OutputOpenError,
    /// A qualifying file's content could not be decoded as text.
    ContentReadError,
}

impl PipelineError {
    /// A short description of the error, for the surrounding program to print.
    pub fn message(&self) -> (r: &'static str)
        ensures
            r@ == self.spec_message(),
    {
        match self {
            PipelineError::InputPathNotFound => "input path does not exist",
            PipelineError::PatternSyntaxError => "malformed exclusion pattern",
            PipelineError::OutputOpenError => "cannot open output destination",
            PipelineError::ContentReadError => "file content is not valid text",
        }
    }

    pub open spec fn spec_message(&self) -> Seq<char> {
        match self {
            PipelineError::InputPathNotFound => "input path does not exist"@,
            PipelineError::PatternSyntaxError => "malformed exclusion pattern"@,
            PipelineError::OutputOpenError => "cannot open output destination"@,
            PipelineError::ContentReadError => "file content is not valid text"@,
        }
    }
}

} // verus!
