//! From a configuration to the plan of a proxy.

use vstd::prelude::*;
use crate::client::ClientProxy;
use crate::config::{ClientConfig, ForwardConfig, SectionSet, ServerConfig};
use crate::document::{outline_document, parsed_entries, sections_of, ConfigOutline, Field};
use crate::error::ConfigError;
use crate::forward::ForwardProxy;
use crate::mode::ProxyMode;
use crate::pipeline::{
    lemma_tunnel_nesting, nested_in_order, tunnel, Layer, Pipeline, PipelineView,
};
use crate::server::ServerProxy;

verus! {

/// What to launch: the role of the process and the layers of its two sides.
#[derive(Clone, Debug, PartialEq, Eq)]
pub struct LaunchPlan {
    /// The role.
    pub mode: ProxyMode,
    /// The layers.
    pub pipeline: Pipeline,
}

/// A launch plan with its pipeline as sequences.
pub struct LaunchPlanView {
    /// The role.
    pub mode: ProxyMode,
    /// The layers.
    pub pipeline: PipelineView,
}

impl View for LaunchPlan {
    type V = LaunchPlanView;

    open spec fn view(&self) -> LaunchPlanView {
        LaunchPlanView { mode: self.mode, pipeline: self.pipeline@ }
    }
}

/// Whether an outcome in hand is the outcome that a rule asks for: the same
/// error, or a plan of the same mode and layers.
pub open spec fn meets(
    got: Result<LaunchPlan, ConfigError>,
    asked: Result<LaunchPlanView, ConfigError>,
) -> bool {
    match got {
        Ok(plan) => asked == Ok::<LaunchPlanView, ConfigError>(plan@),
        Err(error) => asked == Err::<LaunchPlanView, ConfigError>(error),
    }
}

impl ProxyMode {
    /// The plan of a mode over the sections of a document: first the
    /// sections that the mode cannot do without are asked for, then the
    /// pipeline is laid out.
    pub open spec fn plan(self, sections: SectionSet) -> Result<LaunchPlanView, ConfigError> {
        match self {
            ProxyMode::Server => match ServerConfig::read(sections) {
                Ok(config) => match ServerProxy::pipeline(config) {
                    Ok(pipeline) => Ok(LaunchPlanView { mode: self, pipeline }),
                    Err(error) => Err(error),
                },
                Err(error) => Err(error),
            },
            ProxyMode::Client => match ClientConfig::read(sections) {
                Ok(config) => Ok(LaunchPlanView { mode: self, pipeline: ClientProxy::pipeline(config) }),
                Err(error) => Err(error),
            },
            ProxyMode::Forward => match ForwardConfig::read(sections) {
                Ok(config) => Ok(
                    LaunchPlanView { mode: self, pipeline: ForwardProxy::pipeline(config) },
                ),
                Err(error) => Err(error),
            },
        }
    }

    /// Plans the proxy of this mode over the sections of a document.
    pub fn init_proxy(self, sections: &SectionSet) -> (planned: Result<LaunchPlan, ConfigError>)
        ensures
            meets(planned, self.plan(*sections)),
    {
        let pipeline = match self {
            ProxyMode::Server => {
                let config = match ServerConfig::from_sections(sections) {
                    Ok(config) => config,
                    Err(error) => {
                        return Err(error);
                    },
                };
                match ServerProxy::start(&config) {
                    Ok(pipeline) => pipeline,
                    Err(error) => {
                        return Err(error);
                    },
                }
            },
            ProxyMode::Client => {
                match ClientConfig::from_sections(sections) {
                    Ok(config) => ClientProxy::start(&config),
                    Err(error) => {
                        return Err(error);
                    },
                }
            },
            ProxyMode::Forward => {
                match ForwardConfig::from_sections(sections) {
                    Ok(config) => ForwardProxy::start(&config),
                    Err(error) => {
                        return Err(error);
                    },
                }
            },
        };
        Ok(LaunchPlan { mode: self, pipeline })
    }
}

/// The plan that the field under `mode` and the sections of a document call
/// for.  A missing `mode` is an error of its own; a `mode` that is no
/// string, or a string that names no mode, is an unknown mode.
pub open spec fn plan_of_fields(mode: Option<Option<Seq<char>>>, sections: SectionSet) -> Result<
    LaunchPlanView,
    ConfigError,
> {
    match mode {
        None => Err(ConfigError::MissingMode),
        Some(None) => Err(ConfigError::UnknownMode),
        Some(Some(text)) => match ProxyMode::parsed(text) {
            Ok(mode) => mode.plan(sections),
            Err(error) => Err(error),
        },
    }
}

/// The plan that an outline calls for.
pub open spec fn plan_of_outline(outline: ConfigOutline) -> Result<LaunchPlanView, ConfigError> {
    plan_of_fields(
        match outline.mode {
            Field::Absent => None,
            Field::Text(text) => Some(Some(text@)),
            Field::Other => Some(None),
        },
        outline.sections,
    )
}

/// The plan that the entries of a document call for.
pub open spec fn plan_of_entries(all: Map<Seq<char>, Option<Seq<char>>>) -> Result<
    LaunchPlanView,
    ConfigError,
> {
    plan_of_fields(
        if all.contains_key("mode"@) {
            Some(all["mode"@])
        } else {
            None
        },
        sections_of(all),
    )
}

/// Plans a proxy from the outline of its configuration.
///
/// The mode is read first: without a `mode` the outcome is `MissingMode`,
/// and with one that names no mode it is `UnknownMode`.  The plan is then
/// that of the mode over the sections.
pub fn launch_from_outline(outline: &ConfigOutline) -> (planned: Result<LaunchPlan, ConfigError>)
    ensures
        meets(planned, plan_of_outline(*outline)),
{
    match &outline.mode {
        Field::Absent => Err(ConfigError::MissingMode),
        Field::Other => Err(ConfigError::UnknownMode),
        Field::Text(text) => match ProxyMode::parse(text.as_str()) {
            Ok(mode) => mode.init_proxy(&outline.sections),
            Err(error) => Err(error),
        },
    }
}

/// Plans a proxy from the text of its configuration.
///
/// A text that is not TOML is `Malformed`, and nothing else is.  Otherwise
/// the outcome is the plan that the entries of the document call for.
pub fn launch_from_config_string(config_string: &str) -> (planned: Result<LaunchPlan, ConfigError>)
    ensures
        planned matches Err(ConfigError::Malformed(_)) <==> parsed_entries(config_string@) is None,
        parsed_entries(config_string@) matches Some(all) ==> meets(planned, plan_of_entries(all)),
{
    match outline_document(config_string) {
        Ok(outline) => {
            let planned = launch_from_outline(&outline);
            proof {
                let all = parsed_entries(config_string@).unwrap();
                assert(plan_of_outline(outline) == plan_of_entries(all));
            }
            planned
        },
        Err(error) => Err(ConfigError::Malformed(error)),
    }
}

impl LaunchPlanView {
    /// The side of the plan that faces the tunnel: the inbound side of a
    /// server, the outbound side of a client or a forwarder.
    pub open spec fn tunnel_side(self) -> Seq<Layer> {
        match self.mode {
            ProxyMode::Server => self.pipeline.acceptor,
            _ => self.pipeline.connector,
        }
    }

    /// The side of the plan that faces away from the tunnel.
    pub open spec fn plain_side(self) -> Seq<Layer> {
        match self.mode {
            ProxyMode::Server => self.pipeline.connector,
            _ => self.pipeline.acceptor,
        }
    }
}

/// The layers of every plan nest in the one fixed order.
///
/// Take any mode and any set of sections.  Where there is a plan, it is for
/// that mode.  Its tunnel side is the base, then web-socket framing exactly
/// if the `websocket` section is present, then the disguise protocol, then
/// multiplexing exactly if the `mux` section is present, and nothing else:
/// presence decides which layers there are and never where they stand.  The
/// base of a client or a forwarder is encryption; that of a server is
/// encryption where `tls` is present and unencrypted acceptance otherwise.
/// The other side is the single layer of the mode.  Where there is no plan,
/// a section that the mode cannot do without is missing, or, for a server,
/// both `tls` and `plaintext` are.
pub proof fn lemma_plans_nest_in_fixed_order(mode: ProxyMode, sections: SectionSet)
    ensures
        match mode.plan(sections) {
            Ok(plan) => {
                &&& plan.mode == mode
                &&& sections.trojan
                &&& nested_in_order(plan.pipeline.acceptor)
                &&& nested_in_order(plan.pipeline.connector)
                &&& plan.tunnel_side() == tunnel(
                    plan.tunnel_side().first(),
                    sections.websocket,
                    sections.mux,
                )
                &&& plan.tunnel_side().first() == (if mode == ProxyMode::Server && !sections.tls {
                    Layer::Plaintext
                } else {
                    Layer::Tls
                })
                &&& plan.plain_side() == seq![
                    match mode {
                        ProxyMode::Server => Layer::Direct,
                        ProxyMode::Client => Layer::Socks5,
                        ProxyMode::Forward => Layer::Dokodemo,
                    },
                ]
            },
            Err(error) => match mode {
                ProxyMode::Server => if sections.trojan {
                    error == ConfigError::MissingBase && !sections.tls && !sections.plaintext
                } else {
                    error == ConfigError::MissingSection(crate::error::Section::Trojan)
                },
                ProxyMode::Client => error is MissingSection && !(sections.socks5 && sections.trojan
                    && sections.tls),
                ProxyMode::Forward => error is MissingSection && !(sections.dokodemo
                    && sections.trojan && sections.tls),
            },
        },
        mode == ProxyMode::Server && !sections.tls && !sections.plaintext ==> mode.plan(
            sections,
        ) is Err,
{
    match mode.plan(sections) {
        Ok(plan) => {
            let base = plan.tunnel_side().first();
            assert(tunnel(Layer::Tls, sections.websocket, sections.mux).first() == Layer::Tls);
            assert(tunnel(Layer::Plaintext, sections.websocket, sections.mux).first()
                == Layer::Plaintext);
            lemma_tunnel_nesting(base, sections.websocket, sections.mux);
            assert(nested_in_order(plan.plain_side()));
        },
        Err(_) => {},
    }
}

} // verus!
