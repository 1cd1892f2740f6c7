//! Why a configuration is refused, and why a start-up fails.

use vstd::prelude::*;

verus! {

/// The first rule that a configuration breaks.
#[derive(Debug, Clone, Copy, PartialEq, Eq, Structural)]
pub enum ConfigError {
    /// No root directory was given.
    RootNotSet,
    /// Nothing exists at the root path.
    RootNotExists,
    /// The root path leads to something that is no directory.
    RootNotDirectory,
    /// The path prefix does not both start and end with `/`.
    HttpPathMalformed,
    /// Only one of user and password is set.
    PartialCredentials,
    /// TLS is switched on and no material was given.
    TlsMaterialMissing,
    /// TLS is switched on and the certificate or the key is empty.
    TlsMaterialEmpty,
}

impl ConfigError {
    /// The text that describes the error.
    pub open spec fn text(self) -> Seq<char> {
        match self {
            ConfigError::RootNotSet => "root path not set"@,
            ConfigError::RootNotExists => "root path not exists"@,
            ConfigError::RootNotDirectory => "root path is not a directory"@,
            ConfigError::HttpPathMalformed => "http path must start and end with /"@,
            ConfigError::PartialCredentials => "user and password must be both set or not"@,
            ConfigError::TlsMaterialMissing => "tls cert and key must be set to enable tls"@,
            ConfigError::TlsMaterialEmpty => "tls cert and key must not be empty"@,
        }
    }

    /// The error as a line for the user.
    pub fn message(&self) -> (r: String)
        ensures
            r@ == self.text(),
    {
        match self {
            ConfigError::RootNotSet => "root path not set".to_owned(),
            ConfigError::RootNotExists => "root path not exists".to_owned(),
            ConfigError::RootNotDirectory => "root path is not a directory".to_owned(),
            ConfigError::HttpPathMalformed => "http path must start and end with /".to_owned(),
            ConfigError::PartialCredentials => "user and password must be both set or not".to_owned(),
            ConfigError::TlsMaterialMissing => "tls cert and key must be set to enable tls".to_owned(),
            ConfigError::TlsMaterialEmpty => "tls cert and key must not be empty".to_owned(),
        }
    }

    /// No two errors share their text.
    pub proof fn lemma_texts_differ(a: ConfigError, b: ConfigError)
        requires
            a != b,
        ensures
            a.text() != b.text(),
    {
        reveal_strlit("root path not set");
        reveal_strlit("root path not exists");
        reveal_strlit("root path is not a directory");
        reveal_strlit("http path must start and end with /");
        reveal_strlit("user and password must be both set or not");
        reveal_strlit("tls cert and key must be set to enable tls");
        reveal_strlit("tls cert and key must not be empty");
        assert(a.text().len() != b.text().len());
    }
}

/// Why a server stopped before or while serving.
#[derive(Debug, Clone, Copy, PartialEq, Eq, Structural)]
pub enum ServerError {
    /// The configuration broke a rule; nothing was bound.
    Config(ConfigError),
    /// The TLS material could not be loaded.
    TlsMaterial,
    /// The address could not be bound.
    Bind,
    /// Serving failed.
    Serve,
}

impl ServerError {
    /// The text that describes the error.
    pub open spec fn text(self) -> Seq<char> {
        match self {
            ServerError::Config(e) => e.text(),
            ServerError::TlsMaterial => "failed to load tls cert"@,
            ServerError::Bind => "failed to start dav server"@,
            ServerError::Serve => "failed to start dav server"@,
        }
    }

    /// The error as a line for the user.
    pub fn message(&self) -> (r: String)
        ensures
            r@ == self.text(),
    {
        match self {
            ServerError::Config(e) => e.message(),
            ServerError::TlsMaterial => "failed to load tls cert".to_owned(),
            ServerError::Bind => "failed to start dav server".to_owned(),
            ServerError::Serve => "failed to start dav server".to_owned(),
        }
    }
}

} // verus!
