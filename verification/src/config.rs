//! The configuration: what it holds, what it is when none was written yet,
//! and when it can be used.

use vstd::prelude::*;
use crate::text::{begins_with, push_char, push_text, starts_with};
use crate::theme::{Theme, ThemePreset};

verus! {

/// Number of characters of the secret that a fresh configuration gets.
pub const SECRET_LENGTH: usize = 15;

/// Why a configuration could not be had.
#[derive(Debug)]
pub enum ConfigError {
    /// No file was there; one with the default configuration was written.
    NotFound { path: String },
    /// The file could not be read as a configuration.
    ParseError { path: String, reason: String },
    /// The configuration cannot be used.
    ValidationError(String),
    /// The system names no directory for configurations.
    NoConfigDir,
    /// Reading or writing failed.
    Io(String),
}

/// Where the library is searched.
#[derive(Debug, Clone, Copy, PartialEq, Eq, Structural)]
pub enum SearchMode {
    /// In the tracks that were loaded.
    Local,
    /// On the server.
    Remote,
}

/// How the library is searched.
#[derive(Debug, Clone, Copy)]
pub struct SearchConfig {
    pub mode: SearchMode,
    pub fuzzy_threshold: i64,
}

/// The configuration of the player.
#[derive(Debug)]
pub struct Config {
    pub server_url: String,
    pub username: String,
    pub password: String,
    pub secret: String,
    pub theme: Theme,
    pub search: SearchConfig,
}

/// Where the library is searched unless the configuration says otherwise.
pub fn default_search_mode() -> (m: SearchMode)
    ensures
        m == SearchMode::Local,
{
    SearchMode::Local
}

/// The least score of a search result unless the configuration says
/// otherwise.
pub fn default_search_threshold() -> (t: i64)
    ensures
        t == 30,
{
    30
}

impl Default for SearchConfig {
    fn default() -> (c: SearchConfig)
        ensures
            c.mode == SearchMode::Local,
            c.fuzzy_threshold == 30,
    {
        SearchConfig { mode: default_search_mode(), fuzzy_threshold: default_search_threshold() }
    }
}

/// Whether a character is a letter of the English alphabet or a digit.
pub open spec fn ascii_alphanumeric(c: char) -> bool {
    ('0' <= c <= '9') || ('a' <= c <= 'z') || ('A' <= c <= 'Z')
}

/// `rand::thread_rng()` and `Rng::sample` with the distribution
/// `Alphanumeric`: a character drawn at random from the letters of the
/// English alphabet and the digits. Nothing is said of which one.
#[verifier::external_body]
fn random_alphanumeric() -> (c: char)
    ensures
        ascii_alphanumeric(c),
{
    char::from(rand::Rng::sample(&mut rand::thread_rng(), rand::distributions::Alphanumeric))
}

/// A fresh secret: `SECRET_LENGTH` letters and digits drawn at random.
pub fn randomword() -> (s: String)
    ensures
        s@.len() == SECRET_LENGTH,
        forall|i: int| 0 <= i < s@.len() ==> ascii_alphanumeric(#[trigger] s@[i]),
{
    let mut s = String::new();
    let mut i: usize = 0;
    while i < SECRET_LENGTH
        invariant
            i <= SECRET_LENGTH,
            s@.len() == i,
            forall|j: int| 0 <= j < s@.len() ==> ascii_alphanumeric(#[trigger] s@[j]),
        decreases SECRET_LENGTH - i,
    {
        push_char(&mut s, random_alphanumeric());
        i += 1;
    }
    s
}

/// What is wrong with a configuration, if anything: the first of the
/// following that holds. The server's address is empty; it begins with none
/// of `http://` and `https://`; the user's name is empty; the password is
/// empty; the secret is empty.
pub open spec fn fault(
    server_url: Seq<char>,
    username: Seq<char>,
    password: Seq<char>,
    secret: Seq<char>,
) -> Option<Seq<char>> {
    if server_url.len() == 0 {
        Some("server_url cannot be empty"@)
    } else if !begins_with(server_url, "https://"@) && !begins_with(server_url, "http://"@) {
        Some("server_url must start with http:// or https://, got: "@ + server_url)
    } else if username.len() == 0 {
        Some("username cannot be empty"@)
    } else if password.len() == 0 {
        Some("password cannot be empty"@)
    } else if secret.len() == 0 {
        Some("secret cannot be empty"@)
    } else {
        None
    }
}

/// The message of an error.
pub open spec fn error_text(e: ConfigError) -> Seq<char> {
    match e {
        ConfigError::NotFound { path } => "Configuration file not found at "@ + path@
            + ". A default config has been created"@,
        ConfigError::ParseError { path, reason } => "Failed to parse Configuration file at "@
            + path@ + ": "@ + reason@,
        ConfigError::ValidationError(reason) => "Invalid Configuration: "@ + reason@,
        ConfigError::NoConfigDir => "Could not determine config directory"@,
        ConfigError::Io(reason) => "IO error while handling config: "@ + reason@,
    }
}

impl ConfigError {
    /// Writes the message of the error.
    pub fn to_string(&self) -> (s: String)
        ensures
            s@ == error_text(*self),
    {
        let mut s = String::new();
        match self {
            ConfigError::NotFound { path } => {
                push_text(&mut s, "Configuration file not found at ");
                push_text(&mut s, path.as_str());
                push_text(&mut s, ". A default config has been created");
            },
            ConfigError::ParseError { path, reason } => {
                push_text(&mut s, "Failed to parse Configuration file at ");
                push_text(&mut s, path.as_str());
                push_text(&mut s, ": ");
                push_text(&mut s, reason.as_str());
            },
            ConfigError::ValidationError(reason) => {
                push_text(&mut s, "Invalid Configuration: ");
                push_text(&mut s, reason.as_str());
            },
            ConfigError::NoConfigDir => {
                push_text(&mut s, "Could not determine config directory");
            },
            ConfigError::Io(reason) => {
                push_text(&mut s, "IO error while handling config: ");
                push_text(&mut s, reason.as_str());
            },
        }
        assert(s@ =~= error_text(*self));
        s
    }
}

impl Config {
    /// What is wrong with the configuration, if anything.
    pub open spec fn fault(&self) -> Option<Seq<char>> {
        fault(self.server_url@, self.username@, self.password@, self.secret@)
    }

    /// Checks that the configuration can be used: the server's address is an
    /// `http` or `https` address, and the user's name, the password and the
    /// secret are not empty. The error says what is wrong first.
    pub fn validate(&self) -> (r: Result<(), ConfigError>)
        ensures
            r is Ok <==> self.fault() is None,
            r matches Err(e) ==> e matches ConfigError::ValidationError(reason) && Some(reason@)
                == self.fault(),
    {
        if self.server_url.as_str().is_empty() {
            return Err(ConfigError::ValidationError(String::from_str("server_url cannot be empty")));
        }
        if !starts_with(self.server_url.as_str(), "https://") && !starts_with(
            self.server_url.as_str(),
            "http://",
        ) {
            let mut reason = String::from_str(
                "server_url must start with http:// or https://, got: ",
            );
            reason.append(self.server_url.as_str());
            return Err(ConfigError::ValidationError(reason));
        }
        if self.username.as_str().is_empty() {
            return Err(ConfigError::ValidationError(String::from_str("username cannot be empty")));
        }
        if self.password.as_str().is_empty() {
            return Err(ConfigError::ValidationError(String::from_str("password cannot be empty")));
        }
        if self.secret.as_str().is_empty() {
            return Err(ConfigError::ValidationError(String::from_str("secret cannot be empty")));
        }
        Ok(())
    }
}

impl Default for Config {
    /// The configuration that is written where none was found: a server on
    /// this machine, the user `admin`, and a fresh secret.
    fn default() -> (c: Config)
        ensures
            c.server_url@ == "http://localhost:4533"@,
            c.username@ == "admin"@,
            c.password@ == "admin"@,
            c.secret@.len() == SECRET_LENGTH,
            forall|i: int| 0 <= i < c.secret@.len() ==> ascii_alphanumeric(#[trigger] c.secret@[i]),
            c.theme.preset == ThemePreset::Default,
            c.theme.overrides() == Seq::new(11, |i: int| None::<Seq<char>>),
            c.theme.bold,
            c.search.mode == SearchMode::Local,
            c.search.fuzzy_threshold == 30,
    {
        Config {
            server_url: String::from_str("http://localhost:4533"),
            username: String::from_str("admin"),
            password: String::from_str("admin"),
            secret: randomword(),
            theme: Theme::default(),
            search: SearchConfig::default(),
        }
    }
}

} // verus!
