//! The server: the tunnel comes in, a direct connection goes out.

use vstd::prelude::*;
use crate::config::ServerConfig;
use crate::error::ConfigError;
use crate::pipeline::{build_single, build_tunnel, tunnel, Layer, Pipeline, PipelineView};

verus! {

/// The server role.
#[derive(Clone, Copy, Debug, PartialEq, Eq, Structural)]
pub struct ServerProxy {}

impl ServerProxy {
    /// The layer at the bottom of a server's tunnel: encryption where the
    /// `tls` section is present, whether or not `plaintext` is too;
    /// unencrypted acceptance where only `plaintext` is; none where neither
    /// is.
    pub open spec fn base(config: ServerConfig) -> Option<Layer> {
        if config.tls {
            Some(Layer::Tls)
        } else if config.plaintext {
            Some(Layer::Plaintext)
        } else {
            None
        }
    }

    /// The pipeline of a server.
    pub open spec fn pipeline(config: ServerConfig) -> Result<PipelineView, ConfigError> {
        match Self::base(config) {
            Some(base) => Ok(
                PipelineView {
                    acceptor: tunnel(base, config.websocket, config.mux),
                    connector: seq![Layer::Direct],
                },
            ),
            None => Err(ConfigError::MissingBase),
        }
    }

    /// Plans the pipeline of a server: the tunnel on the inbound side, over
    /// the base that the configuration selects, and a direct connection on
    /// the outbound side.  It fails, with `MissingBase`, exactly when the
    /// configuration has neither a `tls` nor a `plaintext` section.
    pub fn start(config: &ServerConfig) -> (planned: Result<Pipeline, ConfigError>)
        ensures
            match planned {
                Ok(pipeline) => Self::pipeline(*config) == Ok::<PipelineView, ConfigError>(pipeline@),
                Err(error) => Self::pipeline(*config) == Err::<PipelineView, ConfigError>(error),
            },
    {
        let base = if config.tls {
            Layer::Tls
        } else if config.plaintext {
            Layer::Plaintext
        } else {
            return Err(ConfigError::MissingBase);
        };
        Ok(
            Pipeline {
                acceptor: build_tunnel(base, config.websocket, config.mux),
                connector: build_single(Layer::Direct),
            },
        )
    }
}

} // verus!
