use vstd::prelude::*;

verus! {

/// Enumeration of the failures that parameter extraction can report.
///
/// Both conditions abort the enclosing code-generation step: there is no
/// recoverable error path.
#[derive(Clone, Copy, Debug, PartialEq, Eq, Structural)]
pub enum TestsBinErrors {
    /// The macro parameters do not follow the accepted grammar: a quoted path
    /// with an optional quoted module name after a single comma.
    IncorrectParameters,
    /// The manifest-root environment value was not available when the path
    /// literal had to be resolved.
    MissingEnvironment,
}

impl TestsBinErrors {
    /// The message that reports this failure.
    pub open spec fn spec_message(&self) -> Seq<char> {
        match self {
            TestsBinErrors::IncorrectParameters => "Incorrect parameters! Should be \"path\" with optional \"module_name\" separated by comma `,`."@,
            TestsBinErrors::MissingEnvironment => "Env variable `CARGO_MANIFEST_DIR` not set!"@,
        }
    }

    /// Renders the failure as a human-readable message.
    pub fn to_string(&self) -> (r: String)
        ensures
            r@ == self.spec_message(),
    {
        match self {
            TestsBinErrors::IncorrectParameters => String::from_str("Incorrect parameters! Should be \"path\" with optional \"module_name\" separated by comma `,`."),
            TestsBinErrors::MissingEnvironment => String::from_str("Env variable `CARGO_MANIFEST_DIR` not set!"),
        }
    }
}

} // verus!
