//! Configuration errors.

use vstd::prelude::*;
use vstd::string::StringExecFns;

verus! {

/// A section of the configuration document, one per transport layer.
#[derive(Clone, Copy, Debug, PartialEq, Eq, Structural)]
pub enum Section {
    /// The disguise protocol; every mode needs it.
    Trojan,
    /// Encryption.
    Tls,
    /// Unencrypted acceptance, the server's alternative to `Tls`.
    Plaintext,
    /// Web-socket framing.
    WebSocket,
    /// Stream multiplexing.
    Mux,
    /// The client's local front end.
    Socks5,
    /// The forwarder's transparent-redirect acceptor.
    Dokodemo,
}

impl Section {
    /// The key under which the section stands in the document.
    pub open spec fn key_text(self) -> Seq<char> {
        match self {
            Section::Trojan => "trojan"@,
            Section::Tls => "tls"@,
            Section::Plaintext => "plaintext"@,
            Section::WebSocket => "websocket"@,
            Section::Mux => "mux"@,
            Section::Socks5 => "socks5"@,
            Section::Dokodemo => "dokodemo"@,
        }
    }

    /// The key under which the section stands in the document.
    pub fn key(self) -> (key: &'static str)
        ensures
            key@ == self.key_text(),
    {
        match self {
            Section::Trojan => "trojan",
            Section::Tls => "tls",
            Section::Plaintext => "plaintext",
            Section::WebSocket => "websocket",
            Section::Mux => "mux",
            Section::Socks5 => "socks5",
            Section::Dokodemo => "dokodemo",
        }
    }
}

/// The parse error of the `toml` crate, carried inside
/// [`ConfigError::Malformed`] and never looked into.
#[verifier::external_type_specification]
#[verifier::external_body]
pub struct ExTomlError(toml::de::Error);

/// Why a configuration cannot be launched.  Each of these is fatal at
/// startup: nothing is served, and no mode is ever assumed by default.
#[derive(Debug, PartialEq, Eq)]
pub enum ConfigError {
    /// The text is not a TOML document.
    Malformed(toml::de::Error),
    /// The document has no `mode` field.
    MissingMode,
    /// The `mode` field names none of the three modes.
    UnknownMode,
    /// A section that the mode cannot do without is absent.
    MissingSection(Section),
    /// A server configuration with neither a `tls` nor a `plaintext` section.
    MissingBase,
}

/// `toml::de::Error::message`: what the parser says went wrong, as owned
/// text.  Nothing is claimed about the wording, which may be empty.
#[verifier::external_body]
fn parser_message(error: &toml::de::Error) -> (text: String) {
    error.message().to_owned()
}

impl ConfigError {
    /// The fixed part of the diagnostic of an error: all of it, but for
    /// `Malformed`, where the words of the parser follow.
    pub open spec fn fixed_text(self) -> Seq<char> {
        match self {
            ConfigError::Malformed(_) => "malformed configuration: "@,
            ConfigError::MissingMode => "mode not found"@,
            ConfigError::UnknownMode => "invalid mode"@,
            ConfigError::MissingSection(section) => section.key_text() + " section not found"@,
            ConfigError::MissingBase => "plaintext/tls section not found"@,
        }
    }

    /// A one-line diagnostic for the error.
    pub fn message(&self) -> (text: String)
        ensures
            self.fixed_text().is_prefix_of(text@),
            !(self is Malformed) ==> text@ == self.fixed_text(),
    {
        match self {
            ConfigError::Malformed(error) => {
                let said = parser_message(error);
                let text = "malformed configuration: ".to_owned().concat(said.as_str());
                assert(text@.subrange(0, self.fixed_text().len() as int) =~= self.fixed_text());
                text
            },
            ConfigError::MissingMode => "mode not found".to_owned(),
            ConfigError::UnknownMode => "invalid mode".to_owned(),
            ConfigError::MissingSection(section) => {
                section.key().to_owned().concat(" section not found")
            },
            ConfigError::MissingBase => "plaintext/tls section not found".to_owned(),
        }
    }
}

} // verus!
