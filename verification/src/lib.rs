//! A command-line client's core for a campus-management REST API: it
//! captures and validates the persisted OAuth configuration, resolves the
//! authenticated user through two chained lookups, and maps one command
//! word to the profile line(s) it prints. All decisions live in the
//! verified [`program::Program`] state machine and the pure functions it
//! calls; the binary around the library performs the file system, prompt
//! and network actions the machine asks for and reports each outcome back.

use vstd::prelude::*;

pub mod command;
pub mod config_store;
pub mod profile;
pub mod program;
pub mod text;

verus! {

/// Everything that can stop a run, from a missing configuration to a
/// response body that does not carry the expected shape.
#[derive(Clone, Copy, PartialEq, Eq, Structural, Debug)]
pub enum CliError {
    /// The configuration file is absent or was rejected by validation.
    ConfigurationMissing,
    /// The configuration file exists but does not parse as key/value lines.
    ConfigurationInvalid,
    /// The configuration directory or file could not be created or written.
    FileSystem,
    /// The authenticated session could not be opened, or a call through it
    /// failed.
    Session,
    /// A request URL could not be built from its parameters.
    UrlConstruction,
    /// A response body did not deserialize into the expected shape.
    Deserialization,
    /// A blackhole timestamp was absent or did not parse.
    TimestampParse,
    /// The login-filtered user lookup returned no user.
    UserNotFound,
    /// The command word is not one of the known commands.
    UnknownCommand,
}

/// Selection made on the command line: the name of the profile field to
/// report.
pub struct Config {
    pub command: String,
}

} // verus!
