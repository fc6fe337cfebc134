//! The client: a local front end comes in, the tunnel goes out.

use vstd::prelude::*;
use crate::config::ClientConfig;
use crate::pipeline::{build_single, build_tunnel, tunnel, Layer, Pipeline, PipelineView};

verus! {

/// The client role.
#[derive(Clone, Copy, Debug, PartialEq, Eq, Structural)]
pub struct ClientProxy {}

impl ClientProxy {
    /// The pipeline of a client.
    pub open spec fn pipeline(config: ClientConfig) -> PipelineView {
        PipelineView {
            acceptor: seq![Layer::Socks5],
            connector: tunnel(Layer::Tls, config.websocket, config.mux),
        }
    }

    /// Plans the pipeline of a client: the local front end on the inbound
    /// side, and on the outbound side the tunnel over encryption.
    pub fn start(config: &ClientConfig) -> (planned: Pipeline)
        ensures
            planned@ == Self::pipeline(*config),
    {
        Pipeline {
            acceptor: build_single(Layer::Socks5),
            connector: build_tunnel(Layer::Tls, config.websocket, config.mux),
        }
    }
}

} // verus!
