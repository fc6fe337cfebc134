//! The forwarder: redirected connections come in, the tunnel goes out.

use vstd::prelude::*;
use crate::config::ForwardConfig;
use crate::pipeline::{build_single, build_tunnel, tunnel, Layer, Pipeline, PipelineView};

verus! {

/// The forwarding role.
#[derive(Clone, Copy, Debug, PartialEq, Eq, Structural)]
pub struct ForwardProxy {}

impl ForwardProxy {
    /// The pipeline of a forwarder.
    pub open spec fn pipeline(config: ForwardConfig) -> PipelineView {
        PipelineView {
            acceptor: seq![Layer::Dokodemo],
            connector: tunnel(Layer::Tls, config.websocket, config.mux),
        }
    }

    /// Plans the pipeline of a forwarder: the transparent-redirect acceptor
    /// on the inbound side, and on the outbound side the tunnel over
    /// encryption.
    pub fn start(config: &ForwardConfig) -> (planned: Pipeline)
        ensures
            planned@ == Self::pipeline(*config),
    {
        Pipeline {
            acceptor: build_single(Layer::Dokodemo),
            connector: build_tunnel(Layer::Tls, config.websocket, config.mux),
        }
    }
}

} // verus!
