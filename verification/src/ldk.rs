//! The items of `ldk_node` (and of the `bitcoin` and `lightning` crates it
//! re-exports) that the library uses, declared for the verifier; the
//! library's own records of what is handed to them; and one wrapper per
//! outside function that the library calls.

use vstd::prelude::*;

use ldk_node::bitcoin::secp256k1::PublicKey;
use ldk_node::config::{ChannelConfig, EsploraSyncConfig};
use ldk_node::lightning::ln::msgs::SocketAddress;
use ldk_node::lightning::util::ser::Hostname;
use ldk_node::payment::OnchainPayment;
use ldk_node::{BuildError, Builder, ChannelDetails, Node, NodeError, NodeStatus, UserChannelId};

verus! {

/// A built Lightning node.
#[verifier::external_type_specification]
#[verifier::external_body]
pub struct ExNode(Node);

/// The builder that configures and builds a node.
#[verifier::external_type_specification]
#[verifier::external_body]
pub struct ExBuilder(Builder);

/// Why building a node failed.
#[verifier::external_type_specification]
#[verifier::external_body]
pub struct ExBuildError(BuildError);

/// An error of a running node.
#[verifier::external_type_specification]
#[verifier::external_body]
pub struct ExNodeError(NodeError);

/// A snapshot of a node's status.
#[verifier::external_type_specification]
#[verifier::external_body]
pub struct ExNodeStatus(NodeStatus);

/// A node's public key.
#[verifier::external_type_specification]
#[verifier::external_body]
pub struct ExPublicKey(PublicKey);

/// A network address of a peer or of a listening socket.
#[verifier::external_type_specification]
#[verifier::external_body]
pub struct ExSocketAddress(SocketAddress);

/// The id that the user gives a channel.
#[verifier::external_type_specification]
#[verifier::external_body]
pub struct ExUserChannelId(UserChannelId);

/// What a node reports about one of its channels.
#[verifier::external_type_specification]
#[verifier::external_body]
pub struct ExChannelDetails(ChannelDetails);

/// The on-chain payment handler of a node.
#[verifier::external_type_specification]
#[verifier::external_body]
pub struct ExOnchainPayment(OnchainPayment);

/// Tuning of the Esplora chain sync.
#[verifier::external_type_specification]
#[verifier::external_body]
pub struct ExEsploraSyncConfig(EsploraSyncConfig);

/// Per-channel configuration.
#[verifier::external_type_specification]
#[verifier::external_body]
pub struct ExChannelConfig(ChannelConfig);

/// The Bitcoin network a node runs on: the variants of `bitcoin::Network`.
#[derive(Debug, Clone, Copy, PartialEq, Eq, Structural)]
pub enum Network {
    Bitcoin,
    Testnet,
    Testnet4,
    Signet,
    Regtest,
}

/// Why building a node failed: the variants of `ldk_node::BuildError`.
#[derive(Debug, Clone, Copy, PartialEq, Eq, Structural)]
pub enum BuildFailure {
    InvalidSeedBytes,
    InvalidSeedFile,
    InvalidSystemTime,
    InvalidChannelMonitor,
    InvalidListeningAddresses,
    InvalidAnnouncementAddresses,
    InvalidNodeAlias,
    ReadFailed,
    WriteFailed,
    StoragePathAccessFailed,
    KVStoreSetupFailed,
    WalletSetupFailed,
    LoggerSetupFailed,
    NetworkMismatch,
}

/// The text `BuildError`'s `Display` writes for each kind of failure.
pub open spec fn build_failure_text(kind: BuildFailure) -> Seq<char> {
    match kind {
        BuildFailure::InvalidSeedBytes => "Given seed bytes are invalid."@,
        BuildFailure::InvalidSeedFile => "Given seed file is invalid or could not be read."@,
        BuildFailure::InvalidSystemTime => "System time is invalid. Clocks might have gone back in time."@,
        BuildFailure::InvalidChannelMonitor => "Failed to watch a deserialized ChannelMonitor"@,
        BuildFailure::InvalidListeningAddresses => "Given listening addresses are invalid."@,
        BuildFailure::InvalidAnnouncementAddresses => "Given announcement addresses are invalid."@,
        BuildFailure::InvalidNodeAlias => "Given node alias is invalid."@,
        BuildFailure::ReadFailed => "Failed to read from store."@,
        BuildFailure::WriteFailed => "Failed to write to store."@,
        BuildFailure::StoragePathAccessFailed => "Failed to access the given storage path."@,
        BuildFailure::KVStoreSetupFailed => "Failed to setup KVStore."@,
        BuildFailure::WalletSetupFailed => "Failed to setup onchain wallet."@,
        BuildFailure::LoggerSetupFailed => "Failed to setup the logger."@,
        BuildFailure::NetworkMismatch => "Given network does not match the node's previously configured network."@,
    }
}

/// A listening socket `SocketAddress::Hostname { hostname, port }`, with the
/// host name and port it was made from.
pub struct ListeningAddress {
    pub(crate) inner: SocketAddress,
    host: Ghost<Seq<char>>,
    port: Ghost<u16>,
}

impl ListeningAddress {
    /// The host name the address was made from.
    pub closed spec fn host(&self) -> Seq<char> {
        self.host@
    }

    /// The port the address was made from.
    pub closed spec fn port(&self) -> u16 {
        self.port@
    }

    /// The host and port.
    pub open spec fn endpoint(&self) -> (Seq<char>, u16) {
        (self.host(), self.port())
    }
}

/// What was handed to a node's builder. `None` stands for a setting that
/// was not made, so `ldk_node`'s default applies.
pub struct NodeSettings {
    pub network: Option<Network>,
    pub storage_dir: Option<Seq<char>>,
    pub listening_addresses: Option<Seq<(Seq<char>, u16)>>,
    pub chain_source: Option<(Seq<char>, Option<EsploraSyncConfig>)>,
    pub gossip_source: Option<Seq<char>>,
    pub node_alias: Option<Seq<char>>,
}

/// No setting made yet.
pub open spec fn no_settings() -> NodeSettings {
    NodeSettings {
        network: None,
        storage_dir: None,
        listening_addresses: None,
        chain_source: None,
        gossip_source: None,
        node_alias: None,
    }
}

/// An `ldk_node` builder, with the settings made on it so far.
pub struct NodeBuilder {
    inner: Builder,
    settings: Ghost<NodeSettings>,
}

impl NodeBuilder {
    /// The settings made on the builder so far.
    pub closed spec fn settings(&self) -> NodeSettings {
        self.settings@
    }
}

/// A node built by `ldk_node`, with the settings handed to the builder that
/// built it, its public key, and whether it has been started.
pub struct BuiltNode {
    pub(crate) node: Node,
    settings: Ghost<NodeSettings>,
    key: Ghost<PublicKey>,
    started: Ghost<bool>,
}

impl BuiltNode {
    /// The settings handed to the builder that built the node.
    pub closed spec fn settings(&self) -> NodeSettings {
        self.settings@
    }

    /// The node's public key, fixed when it was built.
    pub closed spec fn key(&self) -> PublicKey {
        self.key@
    }

    /// `Node::start` has returned `Ok` on this node.
    pub closed spec fn started(&self) -> bool {
        self.started@
    }
}

/// One thing `ldk_node` was asked to do when a node was created, and how it
/// went: a build from the given settings that succeeded or failed, or a
/// start of the node built from them that succeeded or failed (with the
/// text of the error).
pub enum NodeEvent {
    Built(NodeSettings),
    BuildFailed(NodeSettings, BuildFailure),
    Started(NodeSettings),
    StartFailed(NodeSettings, Seq<char>),
}

/// The record of the builds and starts asked of `ldk_node`, in order. Only
/// the wrappers that make those calls add to it.
pub struct NodeLog {
    events: Ghost<Seq<NodeEvent>>,
}

impl NodeLog {
    /// The builds and starts recorded so far.
    pub closed spec fn events(&self) -> Seq<NodeEvent> {
        self.events@
    }

    /// An empty record.
    pub fn new() -> (log: NodeLog)
        ensures
            log.events() == Seq::<NodeEvent>::empty(),
    {
        NodeLog { events: Ghost(Seq::empty()) }
    }
}

/// A snapshot of a node's status: whether it runs, and the full snapshot
/// `ldk_node` reports.
pub struct BeaconNodeStatus {
    pub is_running: bool,
    pub status: NodeStatus,
}

/// A character of the Unicode `White_Space` property, which
/// `char::is_whitespace` (and so `str::trim`) tests.
pub open spec fn unicode_space(c: char) -> bool {
    let u = c as u32;
    (0x09 <= u <= 0x0d) || u == 0x20 || u == 0x85 || u == 0xa0 || u == 0x1680 || (0x2000 <= u
        <= 0x200a) || u == 0x2028 || u == 0x2029 || u == 0x202f || u == 0x205f || u == 0x3000
}

/// `s` without its leading white space.
pub open spec fn trim_start(s: Seq<char>) -> Seq<char>
    decreases s.len(),
{
    if s.len() > 0 && unicode_space(s[0]) {
        trim_start(s.drop_first())
    } else {
        s
    }
}

/// `s` without its trailing white space.
pub open spec fn trim_end(s: Seq<char>) -> Seq<char>
    decreases s.len(),
{
    if s.len() > 0 && unicode_space(s.last()) {
        trim_end(s.drop_last())
    } else {
        s
    }
}

/// The number of bytes `c` takes in UTF-8.
pub open spec fn utf8_width(c: char) -> nat {
    let u = c as u32;
    if u < 0x80 {
        1
    } else if u < 0x800 {
        2
    } else if u < 0x10000 {
        3
    } else {
        4
    }
}

/// The number of bytes `s` takes in UTF-8.
pub open spec fn utf8_len(s: Seq<char>) -> nat
    decreases s.len(),
{
    if s.len() == 0 {
        0
    } else {
        utf8_len(s.drop_last()) + utf8_width(s.last())
    }
}

/// Whether `ldk_node` accepts `alias` as a node alias: its `set_node_alias`
/// trims white space from both ends and accepts what is left when it takes
/// at most 32 bytes of UTF-8.
pub open spec fn node_alias_accepted(alias: Seq<char>) -> bool {
    utf8_len(trim_end(trim_start(alias))) <= 32
}

/// A character that a Lightning host name may hold.
pub open spec fn hostname_char(c: char) -> bool {
    ('a' <= c <= 'z') || ('A' <= c <= 'Z') || ('0' <= c <= '9') || c == '.' || c == '_' || c
        == '-'
}

/// A string that `Hostname::try_from` accepts: at most 255 bytes, each an
/// ASCII letter or digit, `.`, `_` or `-` (these characters take one byte).
pub open spec fn valid_hostname(s: Seq<char>) -> bool {
    &&& s.len() <= 255
    &&& forall|i: int| 0 <= i < s.len() ==> hostname_char(#[trigger] s[i])
}

/// The kind of a `BuildError`.
#[verifier::external_body]
fn build_failure_of(error: BuildError) -> BuildFailure {
    match error {
        BuildError::InvalidSeedBytes => BuildFailure::InvalidSeedBytes, BuildError::InvalidSeedFile => BuildFailure::InvalidSeedFile,
        BuildError::InvalidSystemTime => BuildFailure::InvalidSystemTime, BuildError::InvalidChannelMonitor => BuildFailure::InvalidChannelMonitor,
        BuildError::InvalidListeningAddresses => BuildFailure::InvalidListeningAddresses, BuildError::InvalidAnnouncementAddresses => BuildFailure::InvalidAnnouncementAddresses,
        BuildError::InvalidNodeAlias => BuildFailure::InvalidNodeAlias, BuildError::ReadFailed => BuildFailure::ReadFailed,
        BuildError::WriteFailed => BuildFailure::WriteFailed, BuildError::StoragePathAccessFailed => BuildFailure::StoragePathAccessFailed,
        BuildError::KVStoreSetupFailed => BuildFailure::KVStoreSetupFailed, BuildError::WalletSetupFailed => BuildFailure::WalletSetupFailed,
        BuildError::LoggerSetupFailed => BuildFailure::LoggerSetupFailed, BuildError::NetworkMismatch => BuildFailure::NetworkMismatch,
    }
}

/// The `BuildError` of a kind of failure.
#[verifier::external_body]
fn build_error_of(kind: BuildFailure) -> BuildError {
    match kind {
        BuildFailure::InvalidSeedBytes => BuildError::InvalidSeedBytes, BuildFailure::InvalidSeedFile => BuildError::InvalidSeedFile,
        BuildFailure::InvalidSystemTime => BuildError::InvalidSystemTime, BuildFailure::InvalidChannelMonitor => BuildError::InvalidChannelMonitor,
        BuildFailure::InvalidListeningAddresses => BuildError::InvalidListeningAddresses, BuildFailure::InvalidAnnouncementAddresses => BuildError::InvalidAnnouncementAddresses,
        BuildFailure::InvalidNodeAlias => BuildError::InvalidNodeAlias, BuildFailure::ReadFailed => BuildError::ReadFailed,
        BuildFailure::WriteFailed => BuildError::WriteFailed, BuildFailure::StoragePathAccessFailed => BuildError::StoragePathAccessFailed,
        BuildFailure::KVStoreSetupFailed => BuildError::KVStoreSetupFailed, BuildFailure::WalletSetupFailed => BuildError::WalletSetupFailed,
        BuildFailure::LoggerSetupFailed => BuildError::LoggerSetupFailed, BuildFailure::NetworkMismatch => BuildError::NetworkMismatch,
    }
}

/// `BuildError`'s `Display`: its source writes one fixed text per kind.
#[verifier::external_body]
pub(crate) fn build_failure_display(kind: BuildFailure) -> (r: String)
    ensures
        r@ == build_failure_text(kind),
{
    build_error_of(kind).to_string()
}

/// `Hostname::try_from(String)`, made into the listening socket
/// `SocketAddress::Hostname` at `port`. The source accepts exactly the
/// strings of `valid_hostname` and keeps the string as the host name.
#[verifier::external_body]
pub(crate) fn hostname_address(host: String, port: u16) -> (r: Result<ListeningAddress, ()>)
    ensures
        r is Ok <==> valid_hostname(host@),
        r matches Ok(address) ==> address.host() == host@ && address.port() == port,
{
    let ghost text = host@;
    let hostname = Hostname::try_from(host)?;
    Ok(ListeningAddress {
        inner: SocketAddress::Hostname { hostname, port },
        host: Ghost(text),
        port: Ghost(port),
    })
}

/// `Builder::new`: a builder with the default configuration and no setting
/// made.
#[verifier::external_body]
pub(crate) fn builder_new() -> (b: NodeBuilder)
    ensures
        b.settings() == no_settings(),
{
    NodeBuilder { inner: Builder::new(), settings: Ghost(no_settings()) }
}

/// `Builder::set_network`: its source stores the network in the configuration.
#[verifier::external_body]
pub(crate) fn builder_set_network(builder: &mut NodeBuilder, network: Network)
    ensures
        final(builder).settings() == (NodeSettings {
            network: Some(network),
            ..old(builder).settings()
        }),
{
    builder.inner.set_network(match network {
        Network::Bitcoin => ldk_node::bitcoin::Network::Bitcoin,
        Network::Testnet => ldk_node::bitcoin::Network::Testnet,
        Network::Testnet4 => ldk_node::bitcoin::Network::Testnet4,
        Network::Signet => ldk_node::bitcoin::Network::Signet,
        Network::Regtest => ldk_node::bitcoin::Network::Regtest,
    });
}

/// `Builder::set_storage_dir_path`: its source stores the path in the configuration.
#[verifier::external_body]
pub(crate) fn builder_set_storage_dir_path(builder: &mut NodeBuilder, path: String)
    ensures
        final(builder).settings() == (NodeSettings {
            storage_dir: Some(path@),
            ..old(builder).settings()
        }),
{
    builder.inner.set_storage_dir_path(path);
}

/// `Builder::set_listening_addresses`: its source refuses more than 100
/// addresses with `InvalidListeningAddresses`, leaving the builder as it
/// was, and stores any other list.
#[verifier::external_body]
pub(crate) fn builder_set_listening_addresses(
    builder: &mut NodeBuilder,
    addresses: Vec<ListeningAddress>,
) -> (r: Result<(), BuildFailure>)
    ensures
        r is Ok <==> addresses@.len() <= 100,
        r matches Err(kind) ==> kind == BuildFailure::InvalidListeningAddresses,
        r is Err ==> final(builder).settings() == old(builder).settings(),
        r is Ok ==> final(builder).settings() == (NodeSettings {
            listening_addresses: Some(addresses@.map_values(|a: ListeningAddress| a.endpoint())),
            ..old(builder).settings()
        }),
{
    let sockets: Vec<SocketAddress> = addresses.into_iter().map(|a| a.inner).collect();
    match builder.inner.set_listening_addresses(sockets) {
        Ok(_) => Ok(()),
        Err(e) => Err(build_failure_of(e)),
    }
}

/// `Builder::set_chain_source_esplora`: its source stores the server and the
/// sync configuration in the configuration.
#[verifier::external_body]
pub(crate) fn builder_set_chain_source_esplora(
    builder: &mut NodeBuilder,
    server_url: String,
    sync_config: Option<EsploraSyncConfig>,
)
    ensures
        final(builder).settings() == (NodeSettings {
            chain_source: Some((server_url@, sync_config)),
            ..old(builder).settings()
        }),
{
    builder.inner.set_chain_source_esplora(server_url, sync_config);
}

/// `Builder::set_gossip_source_rgs`: its source stores the server in the configuration.
#[verifier::external_body]
pub(crate) fn builder_set_gossip_source_rgs(builder: &mut NodeBuilder, rgs_server_url: String)
    ensures
        final(builder).settings() == (NodeSettings {
            gossip_source: Some(rgs_server_url@),
            ..old(builder).settings()
        }),
{
    builder.inner.set_gossip_source_rgs(rgs_server_url);
}

/// `Builder::set_node_alias`: accepts exactly the aliases of
/// `node_alias_accepted` (it keeps them trimmed; the record keeps the alias
/// as handed); otherwise fails with `InvalidNodeAlias` and leaves the
/// builder as it was.
#[verifier::external_body]
pub(crate) fn builder_set_node_alias(builder: &mut NodeBuilder, alias: String) -> (r: Result<
    (),
    BuildFailure,
>)
    ensures
        r is Ok <==> node_alias_accepted(alias@),
        r matches Err(kind) ==> kind == BuildFailure::InvalidNodeAlias,
        r is Err ==> final(builder).settings() == old(builder).settings(),
        r is Ok ==> final(builder).settings() == (NodeSettings {
            node_alias: Some(alias@),
            ..old(builder).settings()
        }),
{
    match builder.inner.set_node_alias(alias) {
        Ok(_) => Ok(()),
        Err(e) => Err(build_failure_of(e)),
    }
}

/// `Builder::build`: builds a node, with a SQLite store in the storage
/// directory, from the builder's configuration, and records the build in
/// `log`. Whether it succeeds depends on the disk and the clock, so that is
/// not claimed.
#[verifier::external_body]
pub(crate) fn builder_build(builder: &NodeBuilder, log: &mut NodeLog) -> (r: Result<
    BuiltNode,
    BuildFailure,
>)
    ensures
        r matches Ok(node) ==> node.settings() == builder.settings() && !node.started(),
        r is Ok ==> final(log).events() == old(log).events().push(
            NodeEvent::Built(builder.settings()),
        ),
        r matches Err(kind) ==> final(log).events() == old(log).events().push(
            NodeEvent::BuildFailed(builder.settings(), kind),
        ),
{
    match builder.inner.build() {
        Ok(node) => Ok(
            BuiltNode {
                node,
                settings: Ghost(builder.settings()),
                key: Ghost(arbitrary()),
                started: Ghost(false),
            },
        ),
        Err(e) => Err(build_failure_of(e)),
    }
}

/// `Node::start`: starts the node's background tasks, and records the start
/// in `log`; a failure comes back as the text of the `NodeError` (its
/// `Display`). Whether it succeeds depends on the node's state and the
/// machine, so that is not claimed; the node counts as started once it has
/// returned `Ok`.
#[verifier::external_body]
pub(crate) fn node_start(node: &mut BuiltNode, log: &mut NodeLog) -> (r: Result<(), String>)
    ensures
        final(node).settings() == old(node).settings(),
        final(node).key() == old(node).key(),
        r is Ok ==> final(node).started(),
        r is Err ==> final(node).started() == old(node).started(),
        r is Ok ==> final(log).events() == old(log).events().push(
            NodeEvent::Started(old(node).settings()),
        ),
        r matches Err(text) ==> final(log).events() == old(log).events().push(
            NodeEvent::StartFailed(old(node).settings(), text@),
        ),
{
    node.node.start().map_err(|e| e.to_string())
}

/// `Node::status`, with its `is_running` flag read out. Its source reports a
/// node running from a successful `start` until `stop`, which this library
/// never calls; nothing else of the snapshot is claimed.
#[verifier::external_body]
pub(crate) fn node_status(node: &BuiltNode) -> (r: BeaconNodeStatus)
    ensures
        node.started() ==> r.is_running,
{
    let status = node.node.status();
    BeaconNodeStatus { is_running: status.is_running, status }
}

/// `Node::node_id`: the node's public key, which its source reads from the
/// channel manager and which does not change.
#[verifier::external_body]
pub(crate) fn node_id(node: &BuiltNode) -> (r: PublicKey)
    ensures
        r == node.key(),
{
    node.node.node_id()
}

/// `Node::onchain_payment`: the node's on-chain payment handler. Nothing is claimed.
#[verifier::external_body]
pub(crate) fn node_onchain_payment(node: &BuiltNode) -> (r: OnchainPayment) {
    node.node.onchain_payment()
}

/// The value of a character of the bech32 alphabet (BIP173), or -1 for a
/// character outside it.
pub open spec fn bech32_value(c: char) -> int {
    if c == 'q' {
        0
    } else if c == 'p' {
        1
    } else if c == 'z' {
        2
    } else if c == 'r' {
        3
    } else if c == 'y' {
        4
    } else if c == '9' {
        5
    } else if c == 'x' {
        6
    } else if c == '8' {
        7
    } else if c == 'g' {
        8
    } else if c == 'f' {
        9
    } else if c == '2' {
        10
    } else if c == 't' {
        11
    } else if c == 'v' {
        12
    } else if c == 'd' {
        13
    } else if c == 'w' {
        14
    } else if c == '0' {
        15
    } else if c == 's' {
        16
    } else if c == '3' {
        17
    } else if c == 'j' {
        18
    } else if c == 'n' {
        19
    } else if c == '5' {
        20
    } else if c == '4' {
        21
    } else if c == 'k' {
        22
    } else if c == 'h' {
        23
    } else if c == 'c' {
        24
    } else if c == 'e' {
        25
    } else if c == '6' {
        26
    } else if c == 'm' {
        27
    } else if c == 'u' {
        28
    } else if c == 'a' {
        29
    } else if c == '7' {
        30
    } else if c == 'l' {
        31
    } else {
        -1
    }
}

/// One step of the bech32 checksum (BIP173): the 30-bit state `chk` after
/// taking in the 5-bit value `v`.
pub open spec fn bech32_step(chk: u32, v: u32) -> u32 {
    let b = chk >> 25u32;
    let c0 = ((chk & 0x1ffffffu32) << 5u32) ^ v;
    let c1 = if b & 1u32 != 0 { c0 ^ 0x3b6a57b2u32 } else { c0 };
    let c2 = if b & 2u32 != 0 { c1 ^ 0x26508e6du32 } else { c1 };
    let c3 = if b & 4u32 != 0 { c2 ^ 0x1ea119fau32 } else { c2 };
    let c4 = if b & 8u32 != 0 { c3 ^ 0x3d4233ddu32 } else { c3 };
    if b & 16u32 != 0 { c4 ^ 0x2a1462b3u32 } else { c4 }
}

/// The bech32 checksum state after taking in `values` from state `chk`.
pub open spec fn bech32_polymod(chk: u32, values: Seq<u32>) -> u32
    decreases values.len(),
{
    if values.len() == 0 {
        chk
    } else {
        bech32_polymod(bech32_step(chk, values[0]), values.drop_first())
    }
}

/// The human-readable part as the checksum takes it in: the high bits of
/// each character, a zero, then the low bits of each character.
pub open spec fn bech32_hrp_values(hrp: Seq<char>) -> Seq<u32> {
    hrp.map_values(|c: char| (c as u32) >> 5u32).push(0u32) + hrp.map_values(
        |c: char| (c as u32) & 31u32,
    )
}

/// `s` is the lowercase bech32 text (BIP173) of a version-0 witness program
/// of 20 bytes (a P2WPKH address) under the human-readable part `hrp`: the
/// part, the separator `1`, the version character `q`, 32 characters of
/// program and 6 of checksum, all from the bech32 alphabet, with a valid
/// checksum.
pub open spec fn p2wpkh_text_with_hrp(s: Seq<char>, hrp: Seq<char>) -> bool {
    let data = s.subrange(hrp.len() + 1int, s.len() as int);
    &&& s.len() == hrp.len() + 40
    &&& s.subrange(0, hrp.len() as int) == hrp
    &&& s[hrp.len() as int] == '1'
    &&& s[hrp.len() + 1int] == 'q'
    &&& forall|i: int| 0 <= i < data.len() ==> bech32_value(#[trigger] data[i]) >= 0
    &&& bech32_polymod(
        1u32,
        bech32_hrp_values(hrp) + data.map_values(|c: char| bech32_value(c) as u32),
    ) == 1u32
}

/// `s` is the text of a P2WPKH address on one of Bitcoin's networks: `bc`
/// for the main network, `tb` for the test networks and signet, `bcrt` for
/// regtest.
pub open spec fn p2wpkh_address_text(s: Seq<char>) -> bool {
    ||| p2wpkh_text_with_hrp(s, seq!['b', 'c'])
    ||| p2wpkh_text_with_hrp(s, seq!['t', 'b'])
    ||| p2wpkh_text_with_hrp(s, seq!['b', 'c', 'r', 't'])
}

/// `OnchainPayment::new_address`, with the address rendered as text by its
/// `Display`. Which address comes depends on the wallet's state, so it is
/// not claimed; what is claimed is its form: the wallet is a BIP84 one
/// (`Bip84` descriptors in `ldk_node`'s builder), so each external address
/// is a P2WPKH address, which `bitcoin`'s `Address` displays as lowercase
/// bech32 under the network's human-readable part.
#[verifier::external_body]
pub(crate) fn onchain_new_address(payment: &OnchainPayment) -> (r: Result<String, NodeError>)
    ensures
        r matches Ok(address) ==> address@.len() > 0 && p2wpkh_address_text(address@),
{
    payment.new_address().map(|address| address.to_string())
}

/// `Node::list_channels`: the node's current channels. Nothing is claimed.
#[verifier::external_body]
pub(crate) fn node_list_channels(node: &BuiltNode) -> (r: Vec<ChannelDetails>) {
    node.node.list_channels()
}

} // verus!
