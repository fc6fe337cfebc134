//! The per-mode configuration, reduced to what the launcher branches on.

use vstd::prelude::*;
use crate::error::{ConfigError, Section};

verus! {

/// Which sections a configuration document holds.  What stands inside a
/// section is the business of the layer that it configures; the launcher
/// reads presence alone.
#[derive(Clone, Copy, Debug, PartialEq, Eq, Structural)]
pub struct SectionSet {
    /// Whether `trojan` is present.
    pub trojan: bool,
    /// Whether `tls` is present.
    pub tls: bool,
    /// Whether `plaintext` is present.
    pub plaintext: bool,
    /// Whether `websocket` is present.
    pub websocket: bool,
    /// Whether `mux` is present.
    pub mux: bool,
    /// Whether `socks5` is present.
    pub socks5: bool,
    /// Whether `dokodemo` is present.
    pub dokodemo: bool,
}

impl SectionSet {
    /// Whether the set holds a section.
    pub open spec fn has(self, section: Section) -> bool {
        match section {
            Section::Trojan => self.trojan,
            Section::Tls => self.tls,
            Section::Plaintext => self.plaintext,
            Section::WebSocket => self.websocket,
            Section::Mux => self.mux,
            Section::Socks5 => self.socks5,
            Section::Dokodemo => self.dokodemo,
        }
    }

    /// Whether the set holds a section.
    pub fn contains(&self, section: Section) -> (present: bool)
        ensures
            present == self.has(section),
    {
        match section {
            Section::Trojan => self.trojan,
            Section::Tls => self.tls,
            Section::Plaintext => self.plaintext,
            Section::WebSocket => self.websocket,
            Section::Mux => self.mux,
            Section::Socks5 => self.socks5,
            Section::Dokodemo => self.dokodemo,
        }
    }
}

/// A server's configuration.  The `trojan` section is always there; each
/// field says whether the section of its name is.
#[derive(Clone, Copy, Debug, PartialEq, Eq, Structural)]
pub struct ServerConfig {
    /// Whether the server terminates encryption itself.
    pub tls: bool,
    /// Whether the server accepts unencrypted connections.
    pub plaintext: bool,
    /// Whether web-socket framing is used.
    pub websocket: bool,
    /// Whether multiplexing is used.
    pub mux: bool,
}

/// A client's configuration.  The `socks5`, `trojan` and `tls` sections are
/// always there; each field says whether the section of its name is.
#[derive(Clone, Copy, Debug, PartialEq, Eq, Structural)]
pub struct ClientConfig {
    /// Whether web-socket framing is used.
    pub websocket: bool,
    /// Whether multiplexing is used.
    pub mux: bool,
}

/// A forwarder's configuration.  The `dokodemo`, `trojan` and `tls`
/// sections are always there; each field says whether the section of its
/// name is.
#[derive(Clone, Copy, Debug, PartialEq, Eq, Structural)]
pub struct ForwardConfig {
    /// Whether web-socket framing is used.
    pub websocket: bool,
    /// Whether multiplexing is used.
    pub mux: bool,
}

impl ServerConfig {
    /// The configuration that a set of sections gives a server.
    pub open spec fn read(sections: SectionSet) -> Result<ServerConfig, ConfigError> {
        if !sections.trojan {
            Err(ConfigError::MissingSection(Section::Trojan))
        } else {
            Ok(
                ServerConfig {
                    tls: sections.tls,
                    plaintext: sections.plaintext,
                    websocket: sections.websocket,
                    mux: sections.mux,
                },
            )
        }
    }

    /// Reads a server's configuration off the sections of a document.  It
    /// fails exactly when the `trojan` section is absent.
    pub fn from_sections(sections: &SectionSet) -> (config: Result<ServerConfig, ConfigError>)
        ensures
            config == Self::read(*sections),
    {
        if !sections.trojan {
            Err(ConfigError::MissingSection(Section::Trojan))
        } else {
            Ok(
                ServerConfig {
                    tls: sections.tls,
                    plaintext: sections.plaintext,
                    websocket: sections.websocket,
                    mux: sections.mux,
                },
            )
        }
    }
}

impl ClientConfig {
    /// The configuration that a set of sections gives a client.  Of several
    /// missing sections the first in the order `socks5`, `trojan`, `tls` is
    /// reported.
    pub open spec fn read(sections: SectionSet) -> Result<ClientConfig, ConfigError> {
        if !sections.socks5 {
            Err(ConfigError::MissingSection(Section::Socks5))
        } else if !sections.trojan {
            Err(ConfigError::MissingSection(Section::Trojan))
        } else if !sections.tls {
            Err(ConfigError::MissingSection(Section::Tls))
        } else {
            Ok(ClientConfig { websocket: sections.websocket, mux: sections.mux })
        }
    }

    /// Reads a client's configuration off the sections of a document.  It
    /// fails exactly when one of `socks5`, `trojan` and `tls` is absent.
    pub fn from_sections(sections: &SectionSet) -> (config: Result<ClientConfig, ConfigError>)
        ensures
            config == Self::read(*sections),
    {
        if !sections.socks5 {
            Err(ConfigError::MissingSection(Section::Socks5))
        } else if !sections.trojan {
            Err(ConfigError::MissingSection(Section::Trojan))
        } else if !sections.tls {
            Err(ConfigError::MissingSection(Section::Tls))
        } else {
            Ok(ClientConfig { websocket: sections.websocket, mux: sections.mux })
        }
    }
}

impl ForwardConfig {
    /// The configuration that a set of sections gives a forwarder.  Of
    /// several missing sections the first in the order `dokodemo`, `trojan`,
    /// `tls` is reported.
    pub open spec fn read(sections: SectionSet) -> Result<ForwardConfig, ConfigError> {
        if !sections.dokodemo {
            Err(ConfigError::MissingSection(Section::Dokodemo))
        } else if !sections.trojan {
            Err(ConfigError::MissingSection(Section::Trojan))
        } else if !sections.tls {
            Err(ConfigError::MissingSection(Section::Tls))
        } else {
            Ok(ForwardConfig { websocket: sections.websocket, mux: sections.mux })
        }
    }

    /// Reads a forwarder's configuration off the sections of a document.  It
    /// fails exactly when one of `dokodemo`, `trojan` and `tls` is absent.
    pub fn from_sections(sections: &SectionSet) -> (config: Result<ForwardConfig, ConfigError>)
        ensures
            config == Self::read(*sections),
    {
        if !sections.dokodemo {
            Err(ConfigError::MissingSection(Section::Dokodemo))
        } else if !sections.trojan {
            Err(ConfigError::MissingSection(Section::Trojan))
        } else if !sections.tls {
            Err(ConfigError::MissingSection(Section::Tls))
        } else {
            Ok(ForwardConfig { websocket: sections.websocket, mux: sections.mux })
        }
    }
}

} // verus!
