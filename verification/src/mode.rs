//! The role of a proxy process.

use vstd::prelude::*;
use crate::error::ConfigError;

verus! {

/// The role a proxy process plays.  It is read once at startup and selects
/// both the shape of the configuration and the rules by which the layers are
/// nested.
#[derive(Clone, Copy, Debug, PartialEq, Eq, Structural)]
pub enum ProxyMode {
    /// Terminates the disguise and forwards to the final destination.
    Server,
    /// Accepts local applications through a front end and wraps them.
    Client,
    /// Tunnels connections that the host redirected to it.
    Forward,
}

/// What `str::trim` returns for a text: the text without its leading and
/// trailing white space, in Unicode's sense of the word.
pub uninterp spec fn trimmed(text: Seq<char>) -> Seq<char>;

/// What `str::to_lowercase` returns for a text: its lower-case form under
/// Unicode's case mapping.
pub uninterp spec fn lowercased(text: Seq<char>) -> Seq<char>;

/// `str::trim`.  The result is a function of the text alone; the contract
/// gives it the name [`trimmed`] and claims nothing else.
#[verifier::external_body]
fn trim(text: &str) -> (r: &str)
    ensures
        r@ == trimmed(text@),
{
    text.trim()
}

/// `str::to_lowercase`.  The result is a function of the text alone; the
/// contract gives it the name [`lowercased`] and claims nothing else.
#[verifier::external_body]
fn to_lowercase(text: &str) -> (r: String)
    ensures
        r@ == lowercased(text@),
{
    text.to_lowercase()
}

impl ProxyMode {
    /// The mode that an exact name stands for.
    pub open spec fn named(name: Seq<char>) -> Option<ProxyMode> {
        if name == "server"@ {
            Some(ProxyMode::Server)
        } else if name == "client"@ {
            Some(ProxyMode::Client)
        } else if name == "forward"@ {
            Some(ProxyMode::Forward)
        } else {
            None
        }
    }

    /// The form in which a configured value is compared with the names:
    /// trimmed, then lower-cased.
    pub open spec fn normalized(value: Seq<char>) -> Seq<char> {
        lowercased(trimmed(value))
    }

    /// The mode that a configured value selects, if any.
    pub open spec fn parsed(value: Seq<char>) -> Result<ProxyMode, ConfigError> {
        match Self::named(Self::normalized(value)) {
            Some(mode) => Ok(mode),
            None => Err(ConfigError::UnknownMode),
        }
    }

    /// The name of the mode, as `from_name` reads it.
    pub open spec fn name_text(self) -> Seq<char> {
        match self {
            ProxyMode::Server => "server"@,
            ProxyMode::Client => "client"@,
            ProxyMode::Forward => "forward"@,
        }
    }

    /// The name of the mode.
    pub fn name(self) -> (name: &'static str)
        ensures
            name@ == self.name_text(),
    {
        match self {
            ProxyMode::Server => "server",
            ProxyMode::Client => "client",
            ProxyMode::Forward => "forward",
        }
    }

    /// Reads an exact name: `server`, `client` or `forward`, and nothing
    /// else.
    pub fn from_name(name: &str) -> (mode: Option<ProxyMode>)
        ensures
            mode == Self::named(name@),
    {
        let name = name.to_owned();
        if name == "server".to_owned() {
            Some(ProxyMode::Server)
        } else if name == "client".to_owned() {
            Some(ProxyMode::Client)
        } else if name == "forward".to_owned() {
            Some(ProxyMode::Forward)
        } else {
            None
        }
    }

    /// Reads the value of a `mode` field.  Surrounding white space and the
    /// case of the letters do not matter; a value that names no mode is an
    /// error, never a default.
    pub fn parse(value: &str) -> (mode: Result<ProxyMode, ConfigError>)
        ensures
            mode == Self::parsed(value@),
    {
        let lowered = to_lowercase(trim(value));
        match Self::from_name(lowered.as_str()) {
            Some(mode) => Ok(mode),
            None => Err(ConfigError::UnknownMode),
        }
    }
}

/// Every mode is read back from its own name.
pub proof fn lemma_name_round_trip(mode: ProxyMode)
    ensures
        ProxyMode::named(mode.name_text()) == Some(mode),
{
    reveal_strlit("server");
    reveal_strlit("client");
    reveal_strlit("forward");
    assert("client"@[0] != "server"@[0]);
}

} // verus!
