use vstd::prelude::*;

verus! {

/// A compile request that cannot be handed to the compiler.
#[derive(Clone, Copy, Debug, PartialEq, Eq, Structural)]
pub enum ConfigError {
    /// The output directory is the empty path.
    OutDirEmpty,
    /// The target language is the empty string.
    LangEmpty,
    /// No input schema file was given.
    InputsEmpty,
}

/// Why the compiler cannot be used, as found by the version query.
#[derive(Clone, Copy, Debug, PartialEq, Eq, Structural)]
pub enum ToolError {
    /// The executable could not be started.
    NotStarted,
    /// The version query exited with a failure status.
    ExitFailure,
    /// What the version query printed is not UTF-8.
    OutputNotUtf8,
    /// The version query printed nothing.
    OutputEmpty,
    /// The first line does not start with `flatc version `.
    MissingPrefix,
    /// Nothing follows `flatc version ` on the first line.
    VersionEmpty,
    /// The version does not start with a decimal digit.
    VersionNotDigit,
}

/// How a compile run failed.
#[derive(Clone, Copy, Debug, PartialEq, Eq, Structural)]
pub enum RunFailure {
    /// The executable could not be started.
    NotStarted,
    /// The compiler exited with a failure status.
    ExitFailure,
}

/// Every failure the library reports.
#[derive(Clone, Copy, Debug, PartialEq, Eq, Structural)]
pub enum Error {
    /// The request is incomplete; nothing was launched for it.
    Config(ConfigError),
    /// The output directory is not valid UTF-8.
    Encoding,
    /// The compiler is missing or does not report a usable version.
    ToolUnavailable(ToolError),
    /// The compile run itself failed.
    Execution(RunFailure),
}

} // verus!
