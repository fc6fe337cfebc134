//! Transport layers and the order in which they nest.

use vstd::prelude::*;
use crate::error::Section;

verus! {

/// One transport feature.  Every layer wraps the one beneath it and offers
/// the same interface, so a stack of any depth is used like a single layer.
#[derive(Clone, Copy, Debug, PartialEq, Eq, Structural)]
pub enum Layer {
    /// Encryption; a base of the tunnel.
    Tls,
    /// Unencrypted acceptance; the server's other base.
    Plaintext,
    /// Web-socket framing.
    WebSocket,
    /// The disguise protocol, which carries the destination address.
    Trojan,
    /// Many logical sessions over one connection.
    Mux,
    /// The server's outbound side: a direct connection to the destination.
    Direct,
    /// The client's inbound side: the local front end.
    Socks5,
    /// The forwarder's inbound side: connections redirected by the host.
    Dokodemo,
}

impl Layer {
    /// Whether the layer can stand at the bottom of the tunnel.
    pub open spec fn is_base(self) -> bool {
        self == Layer::Tls || self == Layer::Plaintext
    }

    /// The place of the layer in the fixed nesting order, innermost first:
    /// base, web-socket, disguise, multiplexing.  The three layers that face
    /// away from the tunnel stand alone and take the innermost place.
    pub open spec fn depth(self) -> nat {
        match self {
            Layer::WebSocket => 1,
            Layer::Trojan => 2,
            Layer::Mux => 3,
            _ => 0,
        }
    }

    /// The section that configures the layer.  A direct connection needs
    /// none.
    pub open spec fn section_of(self) -> Option<Section> {
        match self {
            Layer::Tls => Some(Section::Tls),
            Layer::Plaintext => Some(Section::Plaintext),
            Layer::WebSocket => Some(Section::WebSocket),
            Layer::Trojan => Some(Section::Trojan),
            Layer::Mux => Some(Section::Mux),
            Layer::Direct => None,
            Layer::Socks5 => Some(Section::Socks5),
            Layer::Dokodemo => Some(Section::Dokodemo),
        }
    }

    /// The section that configures the layer.  A direct connection needs
    /// none.
    pub fn section(self) -> (section: Option<Section>)
        ensures
            section == self.section_of(),
    {
        match self {
            Layer::Tls => Some(Section::Tls),
            Layer::Plaintext => Some(Section::Plaintext),
            Layer::WebSocket => Some(Section::WebSocket),
            Layer::Trojan => Some(Section::Trojan),
            Layer::Mux => Some(Section::Mux),
            Layer::Direct => None,
            Layer::Socks5 => Some(Section::Socks5),
            Layer::Dokodemo => Some(Section::Dokodemo),
        }
    }
}

/// The tunnel side of a pipeline, innermost layer first: the base, then
/// web-socket framing if asked for, then the disguise protocol, always, then
/// multiplexing if asked for.
pub open spec fn tunnel(base: Layer, websocket: bool, mux: bool) -> Seq<Layer> {
    seq![base] + (if websocket {
        seq![Layer::WebSocket]
    } else {
        Seq::<Layer>::empty()
    }) + seq![Layer::Trojan] + (if mux {
        seq![Layer::Mux]
    } else {
        Seq::<Layer>::empty()
    })
}

/// Whether each layer of a stack lies strictly deeper in the fixed order than
/// the one that wraps it.
pub open spec fn nested_in_order(stack: Seq<Layer>) -> bool {
    forall|i: int, j: int| 0 <= i < j < stack.len() ==> stack[i].depth() < stack[j].depth()
}

/// Builds the tunnel side of a pipeline over a base layer.
pub(crate) fn build_tunnel(base: Layer, websocket: bool, mux: bool) -> (stack: Vec<Layer>)
    ensures
        stack@ == tunnel(base, websocket, mux),
{
    let mut stack: Vec<Layer> = Vec::new();
    stack.push(base);
    if websocket {
        stack.push(Layer::WebSocket);
    }
    stack.push(Layer::Trojan);
    if mux {
        stack.push(Layer::Mux);
    }
    stack
}

/// Builds the side of a pipeline that is a single layer.
pub(crate) fn build_single(layer: Layer) -> (stack: Vec<Layer>)
    ensures
        stack@ == seq![layer],
{
    let mut stack: Vec<Layer> = Vec::new();
    stack.push(layer);
    stack
}

/// The two sides of a proxy: the layers through which connections come in
/// and the layers through which they go out.  Each side lists its layers
/// innermost first; to assemble it, build the first layer and wrap each
/// following layer round what is there.
#[derive(Clone, Debug, PartialEq, Eq)]
pub struct Pipeline {
    /// The inbound side.
    pub acceptor: Vec<Layer>,
    /// The outbound side.
    pub connector: Vec<Layer>,
}

/// A pipeline as two sequences of layers.
pub struct PipelineView {
    /// The inbound side, innermost layer first.
    pub acceptor: Seq<Layer>,
    /// The outbound side, innermost layer first.
    pub connector: Seq<Layer>,
}

impl View for Pipeline {
    type V = PipelineView;

    open spec fn view(&self) -> PipelineView {
        PipelineView { acceptor: self.acceptor@, connector: self.connector@ }
    }
}

/// The tunnel has one shape.  Over every base and for every choice of
/// optional layers it begins with the base, holds web-socket framing and
/// multiplexing exactly when asked for, holds the disguise protocol in any
/// case, holds nothing else and nothing twice, ends in multiplexing when
/// asked for and in the disguise protocol otherwise, and nests in the fixed
/// order.
pub proof fn lemma_tunnel_nesting(base: Layer, websocket: bool, mux: bool)
    requires
        base.is_base(),
    ensures
        nested_in_order(tunnel(base, websocket, mux)),
        tunnel(base, websocket, mux).no_duplicates(),
        tunnel(base, websocket, mux).len() == 2 + (if websocket {
            1int
        } else {
            0
        }) + (if mux {
            1int
        } else {
            0
        }),
        tunnel(base, websocket, mux).first() == base,
        tunnel(base, websocket, mux).last() == (if mux {
            Layer::Mux
        } else {
            Layer::Trojan
        }),
        tunnel(base, websocket, mux).contains(Layer::Trojan),
        tunnel(base, websocket, mux).contains(Layer::WebSocket) <==> websocket,
        tunnel(base, websocket, mux).contains(Layer::Mux) <==> mux,
        forall|layer: Layer| #[trigger]
            tunnel(base, websocket, mux).contains(layer) ==> layer == base || layer
                == Layer::WebSocket || layer == Layer::Trojan || layer == Layer::Mux,
{
    let stack = tunnel(base, websocket, mux);
    let trojan: int = if websocket {
        2
    } else {
        1
    };
    assert(stack[0] == base);
    assert(stack[trojan] == Layer::Trojan);
    if websocket {
        assert(stack[1] == Layer::WebSocket);
    }
    if mux {
        assert(stack[trojan + 1] == Layer::Mux);
    }
}

} // verus!
