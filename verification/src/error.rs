use vstd::prelude::*;

verus! {

/// The ways loading or reading the configuration can fail.
///
/// Every failure is fatal for the caller: the loader offers no retry and
/// never leaves a partially initialized holder behind.
#[derive(Debug, Clone, Copy, PartialEq, Eq, Structural)]
pub enum ConfigError {
    /// The configuration file could not be read from disk.
    FileRead,
    /// The text is not valid YAML or does not match the configuration schema.
    Parse,
    /// A configuration was already stored; a second load is rejected.
    AlreadyInitialized,
    /// No configuration has been stored yet.
    NotInitialized,
}

impl ConfigError {
    /// A diagnostic message naming the failure condition.
    ///
    /// The message never contains configuration values, so the secret
    /// `auth_token` can never leak through error output.
    pub fn message(&self) -> (r: &'static str)
        ensures
            r@ == match *self {
                ConfigError::FileRead => "failed to read the configuration file"@,
                ConfigError::Parse => "configuration is malformed or does not match the schema"@,
                ConfigError::AlreadyInitialized => "configuration was already initialized"@,
                ConfigError::NotInitialized => "configuration has not been initialized"@,
            },
    {
        match *self {
            ConfigError::FileRead => "failed to read the configuration file",
            ConfigError::Parse => "configuration is malformed or does not match the schema",
            ConfigError::AlreadyInitialized => "configuration was already initialized",
            ConfigError::NotInitialized => "configuration has not been initialized",
        }
    }
}

} // verus!
