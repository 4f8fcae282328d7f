//! The error taxonomy of the pipeline.
//!
//! Every failure is fatal: the host reports the error's description on the
//! diagnostic stream and terminates with a non-zero status.  The variants
//! cover each stage: argument parsing, construction of the representation,
//! its validation, compilation, and the lookup of the compiled entry point.

use vstd::prelude::*;

verus! {

/// A fatal error of one pipeline stage.
pub enum RunError {
    /// A command-line value is not a valid floating-point literal: carries
    /// the offending argument and the parser's message.
    ArgumentParse { argument: String, message: String },
    /// The function representation could not be assembled.
    BuildFailure,
    /// Validation of the assembled representation failed.
    MalformedRepresentation,
    /// The representation could not be turned into executable form.
    CompilationFailure,
    /// The compiled entry point is absent after compilation.
    SymbolNotFound,
}

/// The view of an error's diagnostic line: a parse error names the
/// offending literal and the underlying message, the other stages name
/// themselves.
pub open spec fn description_of(e: RunError) -> Seq<char> {
    match e {
        RunError::ArgumentParse { argument, message } => "Error parsing '"@ + argument@ + "': "@
            + message@,
        RunError::BuildFailure => "generate comparison error"@,
        RunError::MalformedRepresentation => "malformed function representation"@,
        RunError::CompilationFailure => "could not compile the function representation"@,
        RunError::SymbolNotFound => "compiled entry point not found"@,
    }
}

impl RunError {
    /// The diagnostic line reported for this error.
    pub fn description(&self) -> (s: String)
        ensures
            s@ == description_of(*self),
    {
        match self {
            RunError::ArgumentParse { argument, message } => {
                let mut s = String::from_str("Error parsing '");
                s.append(argument.as_str());
                s.append("': ");
                s.append(message.as_str());
                s
            },
            RunError::BuildFailure => String::from_str("generate comparison error"),
            RunError::MalformedRepresentation => String::from_str(
                "malformed function representation",
            ),
            RunError::CompilationFailure => String::from_str(
                "could not compile the function representation",
            ),
            RunError::SymbolNotFound => String::from_str("compiled entry point not found"),
        }
    }
}

} // verus!
