//! A single Lightning node: its configuration, how that configuration is
//! turned into a started node, and the node's operations.

use vstd::prelude::*;
use vstd::std_specs::convert::FromSpecImpl;

use std::sync::Arc;

use ldk_node::bitcoin::secp256k1::PublicKey;
use ldk_node::config::ChannelConfig;
use ldk_node::lightning::ln::msgs::SocketAddress;
use ldk_node::{ChannelDetails, NodeError, UserChannelId};

use crate::ldk::{
    build_failure_display, build_failure_text, builder_build, builder_new,
    builder_set_chain_source_esplora, builder_set_gossip_source_rgs,
    builder_set_listening_addresses, builder_set_network, builder_set_node_alias,
    builder_set_storage_dir_path, hostname_address, node_alias_accepted, node_id,
    node_list_channels, node_onchain_payment, node_start, node_status, onchain_new_address,
    p2wpkh_address_text,
    valid_hostname, BeaconNodeStatus, BuildFailure, BuiltNode, ListeningAddress, Network,
    NodeEvent, NodeLog, NodeSettings,
};

verus! {

/// The Esplora server a node syncs the chain from when its configuration names none.
pub const DEFAULT_CHAIN_SOURCE: &'static str = "https://blockstream.info/testnet/api";

/// The rapid-gossip-sync server a node takes its gossip from when its
/// configuration names none.
pub const DEFAULT_GOSSIP_SOURCE: &'static str = "https://rapidsync.lightningdevkit.org/testnet/snapshot";

/// The alias a node announces when its configuration names none.
pub const DEFAULT_NODE_ALIAS: &'static str = "beaconln-node";

/// Configuration of a node. The sources and the alias are optional; the
/// defaults above stand in for the missing ones.
#[derive(Debug, Clone)]
pub struct BeaconNodeConfig {
    pub network: Network,
    pub chain_source: Option<String>,
    pub gossip_source: Option<String>,
    pub node_alias: Option<String>,
}

/// An optional text, or the default where it is missing.
pub open spec fn or_default(text: Option<String>, default: Seq<char>) -> Seq<char> {
    match text {
        Some(s) => s@,
        None => default,
    }
}

/// The Esplora server of a configuration.
pub open spec fn chain_source_of(config: BeaconNodeConfig) -> Seq<char> {
    or_default(config.chain_source, DEFAULT_CHAIN_SOURCE@)
}

/// The gossip server of a configuration.
pub open spec fn gossip_source_of(config: BeaconNodeConfig) -> Seq<char> {
    or_default(config.gossip_source, DEFAULT_GOSSIP_SOURCE@)
}

/// The alias of a configuration.
pub open spec fn node_alias_of(config: BeaconNodeConfig) -> Seq<char> {
    or_default(config.node_alias, DEFAULT_NODE_ALIAS@)
}

/// The settings a node built from `config` in `storage_dir`, listening on
/// `address` (host and port), is built with: every setting made, the
/// defaults filling in the configuration's gaps, and no Esplora sync tuning.
pub open spec fn settings_for(
    config: BeaconNodeConfig,
    storage_dir: Seq<char>,
    address: (Seq<char>, u16),
) -> NodeSettings {
    NodeSettings {
        network: Some(config.network),
        storage_dir: Some(storage_dir),
        listening_addresses: Some(seq![address]),
        chain_source: Some((chain_source_of(config), None)),
        gossip_source: Some(gossip_source_of(config)),
        node_alias: Some(node_alias_of(config)),
    }
}

/// A request to open a channel, as handed to `ldk_node`.
pub struct ChannelRequest {
    pub counterparty: PublicKey,
    pub address: SocketAddress,
    pub channel_amount_sats: u64,
    pub push_to_counterparty_msat: Option<u64>,
    pub channel_config: Option<ChannelConfig>,
    pub announced: bool,
}

/// A started Lightning node.
pub struct BeaconNode {
    node: Arc<BuiltNode>,
    channel_requests: Ghost<Seq<ChannelRequest>>,
}

/// Why a node could not be created.
#[derive(Debug)]
pub enum BeaconNodeError {
    BuildNodeError(BuildFailure),
    StartNodeError(String),
    DuplicateNodeNameError(String),
}

/// `s` begins with `prefix`.
pub open spec fn starts_with(s: Seq<char>, prefix: Seq<char>) -> bool {
    prefix.len() <= s.len() && s.subrange(0, prefix.len() as int) == prefix
}

/// `text` is the message of `error`: a fixed lead-in, then the error's own text.
pub open spec fn is_message_of(error: BeaconNodeError, text: Seq<char>) -> bool {
    match error {
        BeaconNodeError::BuildNodeError(kind) => text == "Failed to build node: "@
            + build_failure_text(kind),
        BeaconNodeError::StartNodeError(e) => text == "Failed to start node: "@ + e@,
        BeaconNodeError::DuplicateNodeNameError(e) => text == "Duplicate node name error: "@ + e@,
    }
}

impl BeaconNodeError {
    /// The message of the error: a lead-in naming the stage that failed,
    /// then the error's own text.
    pub fn message(&self) -> (r: String)
        ensures
            is_message_of(*self, r@),
    {
        match self {
            BeaconNodeError::BuildNodeError(kind) => {
                let mut s = String::from_str("Failed to build node: ");
                let t = build_failure_display(*kind);
                s.append(t.as_str());
                s
            },
            BeaconNodeError::StartNodeError(e) => {
                let mut s = String::from_str("Failed to start node: ");
                s.append(e.as_str());
                s
            },
            BeaconNodeError::DuplicateNodeNameError(e) => {
                let mut s = String::from_str("Duplicate node name error: ");
                s.append(e.as_str());
                s
            },
        }
    }
}

impl From<BuildFailure> for BeaconNodeError {
    fn from(value: BuildFailure) -> (r: Self) {
        BeaconNodeError::BuildNodeError(value)
    }
}

impl FromSpecImpl<BuildFailure> for BeaconNodeError {
    open spec fn obeys_from_spec() -> bool {
        true
    }

    open spec fn from_spec(v: BuildFailure) -> Self {
        BeaconNodeError::BuildNodeError(v)
    }
}

/// Resolves an optional text against its default.
fn text_or(text: Option<String>, default: &str) -> (r: String)
    ensures
        r@ == or_default(text, default@),
{
    match text {
        Some(s) => s,
        None => String::from_str(default),
    }
}

impl ListeningAddress {
    /// The listening socket at `host` and `port`, or `Err` where `host` is
    /// not a valid host name.
    pub fn hostname(host: String, port: u16) -> (r: Result<ListeningAddress, ()>)
        ensures
            r is Ok <==> valid_hostname(host@),
            r matches Ok(address) ==> address.host() == host@ && address.port() == port,
    {
        hostname_address(host, port)
    }
}

/// `Node::open_channel` with these arguments: opens an unannounced channel.
/// Its outcome depends on the peer and the network, so it is not claimed;
/// the request is recorded.
#[verifier::external_body]
fn node_open_channel(
    node: &mut BeaconNode,
    counterparty: PublicKey,
    address: SocketAddress,
    channel_amount_sats: u64,
    push_to_counterparty_msat: Option<u64>,
    channel_config: Option<ChannelConfig>,
) -> (r: Result<UserChannelId, NodeError>)
    ensures
        final(node).settings() == old(node).settings(),
        final(node).started() == old(node).started(),
        final(node).channel_requests() == old(node).channel_requests().push(
            ChannelRequest {
                counterparty,
                address,
                channel_amount_sats,
                push_to_counterparty_msat,
                channel_config,
                announced: false,
            },
        ),
{
    node.node.node.open_channel(
        counterparty,
        address,
        channel_amount_sats,
        push_to_counterparty_msat,
        channel_config,
    )
}

/// `Node::open_announced_channel` with these arguments. Its outcome depends
/// on the node's configuration, the peer and the network, so it is not
/// claimed; the request is recorded.
#[verifier::external_body]
fn node_open_announced_channel(
    node: &mut BeaconNode,
    counterparty: PublicKey,
    address: SocketAddress,
    channel_amount_sats: u64,
    push_to_counterparty_msat: Option<u64>,
    channel_config: Option<ChannelConfig>,
) -> (r: Result<UserChannelId, NodeError>)
    ensures
        final(node).settings() == old(node).settings(),
        final(node).started() == old(node).started(),
        final(node).channel_requests() == old(node).channel_requests().push(
            ChannelRequest {
                counterparty,
                address,
                channel_amount_sats,
                push_to_counterparty_msat,
                channel_config,
                announced: true,
            },
        ),
{
    node.node.node.open_announced_channel(
        counterparty,
        address,
        channel_amount_sats,
        push_to_counterparty_msat,
        channel_config,
    )
}

/// How creating a node from `settings` went, as `log` (from `before` to
/// `after`) records it: a started node built from them, with a build and a
/// start recorded; a build error, with that failed build recorded; or a
/// start error carrying the start's own text, with the build and the failed
/// start recorded.
pub open spec fn creation_recorded(
    settings: NodeSettings,
    r: Result<BeaconNode, BeaconNodeError>,
    before: Seq<NodeEvent>,
    after: Seq<NodeEvent>,
) -> bool {
    match r {
        Ok(node) => {
            &&& node.settings() == settings
            &&& node.started()
            &&& node.channel_requests().len() == 0
            &&& after == before + seq![NodeEvent::Built(settings), NodeEvent::Started(settings)]
        },
        Err(BeaconNodeError::BuildNodeError(kind)) => after == before.push(
            NodeEvent::BuildFailed(settings, kind),
        ),
        Err(BeaconNodeError::StartNodeError(text)) => after == before + seq![
            NodeEvent::Built(settings),
            NodeEvent::StartFailed(settings, text@),
        ],
        Err(BeaconNodeError::DuplicateNodeNameError(_)) => false,
    }
}

impl BeaconNode {
    /// The settings handed to the builder that built the node.
    pub closed spec fn settings(&self) -> NodeSettings {
        self.node.settings()
    }

    /// `Node::start` returned `Ok` on the node.
    pub closed spec fn started(&self) -> bool {
        self.node.started()
    }

    /// The node's public key.
    pub closed spec fn key(&self) -> PublicKey {
        self.node.key()
    }

    /// The requests to open a channel made on this node so far.
    pub closed spec fn channel_requests(&self) -> Seq<ChannelRequest> {
        self.channel_requests@
    }

    /// Builds and starts a node from `config`, keeping its data in
    /// `storage_dir_path` and listening on `listening_addresses`; the build
    /// and the start are recorded in `log`. A refused setting or a failed
    /// build gives the build error; a failed start gives the start error's
    /// text.
    pub fn new(
        config: BeaconNodeConfig,
        storage_dir_path: String,
        listening_addresses: ListeningAddress,
        log: &mut NodeLog,
    ) -> (r: Result<Self, BeaconNodeError>)
        ensures
            !node_alias_accepted(node_alias_of(config)) ==> r == Err::<Self, BeaconNodeError>(
                BeaconNodeError::BuildNodeError(BuildFailure::InvalidNodeAlias),
            ) && final(log).events() == old(log).events(),
            node_alias_accepted(node_alias_of(config)) ==> creation_recorded(
                settings_for(config, storage_dir_path@, listening_addresses.endpoint()),
                r,
                old(log).events(),
                final(log).events(),
            ),
    {
        let ghost settings = settings_for(config, storage_dir_path@, listening_addresses.endpoint());
        let mut builder = builder_new();
        builder_set_network(&mut builder, config.network);
        builder_set_storage_dir_path(&mut builder, storage_dir_path);
        let mut addresses: Vec<ListeningAddress> = Vec::new();
        addresses.push(listening_addresses);
        let ghost endpoints = addresses@.map_values(|a: ListeningAddress| a.endpoint());
        match builder_set_listening_addresses(&mut builder, addresses) {
            Ok(()) => {},
            Err(e) => {
                return Err(BeaconNodeError::from(e));
            },
        }
        assert(endpoints =~= seq![listening_addresses.endpoint()]);
        let chain_source = text_or(config.chain_source, DEFAULT_CHAIN_SOURCE);
        builder_set_chain_source_esplora(&mut builder, chain_source, None);
        let gossip_source = text_or(config.gossip_source, DEFAULT_GOSSIP_SOURCE);
        builder_set_gossip_source_rgs(&mut builder, gossip_source);
        let node_alias = text_or(config.node_alias, DEFAULT_NODE_ALIAS);
        match builder_set_node_alias(&mut builder, node_alias) {
            Ok(()) => {},
            Err(e) => {
                return Err(BeaconNodeError::from(e));
            },
        }
        assert(builder.settings() == settings);
        let mut node = match builder_build(&builder, log) {
            Ok(node) => node,
            Err(e) => {
                return Err(BeaconNodeError::from(e));
            },
        };
        let ghost built = log.events();
        match node_start(&mut node, log) {
            Ok(()) => {},
            Err(text) => {
                proof {
                    assert(log.events() =~= old(log).events() + seq![
                        NodeEvent::Built(settings),
                        NodeEvent::StartFailed(settings, text@),
                    ]);
                }
                return Err(BeaconNodeError::StartNodeError(text));
            },
        }
        assert(log.events() =~= old(log).events() + seq![
            NodeEvent::Built(settings),
            NodeEvent::Started(settings),
        ]);
        Ok(BeaconNode { node: Arc::new(node), channel_requests: Ghost(Seq::empty()) })
    }

    /// The node's current status. A started node reports that it runs.
    pub fn get_node_status(&self) -> (r: BeaconNodeStatus)
        ensures
            self.started() ==> r.is_running,
    {
        node_status(&self.node)
    }

    /// The node's public key, the same on every call.
    pub fn get_node_id(&self) -> (r: PublicKey)
        ensures
            r == self.key(),
    {
        node_id(&self.node)
    }

    /// A fresh on-chain address to fund the node, as text; where the wallet
    /// cannot give one, its error is returned rather than a panic.
    pub fn get_node_funding_address(&self) -> (r: Result<String, NodeError>)
        ensures
            r matches Ok(address) ==> address@.len() > 0 && p2wpkh_address_text(address@),
    {
        let payment = node_onchain_payment(&self.node);
        onchain_new_address(&payment)
    }

    /// Connects to `node_id` at `address` and opens an unannounced channel
    /// with the default channel configuration.
    pub fn open_unannounced_channel(
        &mut self,
        node_id: PublicKey,
        address: SocketAddress,
        channel_amount_sats: u64,
        push_to_counterparty_msat: Option<u64>,
    ) -> (r: Result<UserChannelId, NodeError>)
        ensures
            final(self).settings() == old(self).settings(),
            final(self).started() == old(self).started(),
            final(self).channel_requests() == old(self).channel_requests().push(
                ChannelRequest {
                    counterparty: node_id,
                    address,
                    channel_amount_sats,
                    push_to_counterparty_msat,
                    channel_config: None,
                    announced: false,
                },
            ),
    {
        node_open_channel(
            self,
            node_id,
            address,
            channel_amount_sats,
            push_to_counterparty_msat,
            None,
        )
    }

    /// Connects to `node_id` at `address` and opens an announced channel
    /// with the default channel configuration.
    pub fn open_announced_channel(
        &mut self,
        node_id: PublicKey,
        address: SocketAddress,
        channel_amount_sats: u64,
        push_to_counterparty_msat: Option<u64>,
    ) -> (r: Result<UserChannelId, NodeError>)
        ensures
            final(self).settings() == old(self).settings(),
            final(self).started() == old(self).started(),
            final(self).channel_requests() == old(self).channel_requests().push(
                ChannelRequest {
                    counterparty: node_id,
                    address,
                    channel_amount_sats,
                    push_to_counterparty_msat,
                    channel_config: None,
                    announced: true,
                },
            ),
    {
        node_open_announced_channel(
            self,
            node_id,
            address,
            channel_amount_sats,
            push_to_counterparty_msat,
            None,
        )
    }

    /// The node's channels.
    pub fn list_node_channels(&self) -> Vec<ChannelDetails> {
        node_list_channels(&self.node)
    }
}

} // verus!
