//! The controller's configuration values and the connection strings built
//! from them. Reading configuration files and the environment happens
//! outside; the values arrive here as plain data.

use vstd::prelude::*;

use crate::text::{ascii_lower, push_decimal, str_eq, to_ascii_lower};

verus! {

/// Where the HTTP API listens.
#[derive(Debug)]
pub struct ApplicationSettings {
    pub port: u16,
    pub host: String,
}

/// The boot defaults used when a VM-create request names no boot source.
#[derive(Debug)]
pub struct VmDefaultsSettings {
    pub kernel: String,
    pub initramfs: Option<String>,
    pub cmdline: String,
}

/// How to reach the relational store.
#[derive(Debug)]
pub struct DatabaseSettings {
    pub username: String,
    pub password: String,
    pub port: u16,
    pub host: String,
    pub name: String,
    pub max_connections: u32,
}

impl DatabaseSettings {
    /// The connection string, database included.
    pub fn connection_string(&self) -> (r: String)
        ensures
            r@ == "postgres://"@ + self.username@ + ":"@ + self.password@ + "@"@ + self.host@
                + ":"@ + crate::text::decimal_rep(self.port as nat) + "/"@ + self.name@,
    {
        let mut s = self.connection_string_without_db();
        s.append("/");
        s.append(self.name.as_str());
        s
    }

    /// The connection string up to the server, for administrative work
    /// before the database exists.
    pub fn connection_string_without_db(&self) -> (r: String)
        ensures
            r@ == "postgres://"@ + self.username@ + ":"@ + self.password@ + "@"@ + self.host@
                + ":"@ + crate::text::decimal_rep(self.port as nat),
    {
        let mut s = String::from_str("postgres://");
        s.append(self.username.as_str());
        s.append(":");
        s.append(self.password.as_str());
        s.append("@");
        s.append(self.host.as_str());
        s.append(":");
        push_decimal(&mut s, self.port as usize);
        s
    }
}

/// The deployment environment a configuration file set belongs to.
#[derive(Clone, Copy, Debug, PartialEq, Eq, Structural)]
pub enum Environment {
    Local,
    Production,
}

impl Environment {
    /// The environment's configuration-file name.
    pub fn as_str(&self) -> (r: &'static str)
        ensures
            self is Local ==> r@ == "local"@,
            self is Production ==> r@ == "production"@,
    {
        match self {
            Environment::Local => "local",
            Environment::Production => "production",
        }
    }

    /// Reads an environment name, ignoring ASCII case; any other name is
    /// rejected.
    pub fn try_from(s: &str) -> (r: Option<Environment>)
        ensures
            r == (if ascii_lower(s@) == "local"@ {
                Some(Environment::Local)
            } else if ascii_lower(s@) == "production"@ {
                Some(Environment::Production)
            } else {
                None
            }),
    {
        proof {
            reveal_strlit("local");
            reveal_strlit("production");
        }
        let lower = to_ascii_lower(s);
        if str_eq(lower.as_str(), "local") {
            Some(Environment::Local)
        } else if str_eq(lower.as_str(), "production") {
            Some(Environment::Production)
        } else {
            None
        }
    }
}

} // verus!
