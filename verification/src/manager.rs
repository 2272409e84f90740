//! The manager of all nodes: it creates nodes under distinct names, each in
//! the directory of its name under a base directory and listening on the
//! next port, lists them, and answers the commands of the interface.

use vstd::prelude::*;

use crate::ldk::{
    build_failure_text, hostname_address, node_alias_accepted, valid_hostname, BuildFailure,
    Network, NodeEvent, NodeLog, NodeSettings,
};
use crate::node::{
    creation_recorded, node_alias_of, settings_for, BeaconNode, BeaconNodeConfig,
    BeaconNodeError, DEFAULT_CHAIN_SOURCE, DEFAULT_GOSSIP_SOURCE,
};

verus! {

/// The port of the first node; each further node takes the next one.
pub const BASE_LISTENING_PORT: u16 = 9735;

/// The host every node listens on.
pub const LISTENING_HOST: &'static str = "127.0.0.1";

/// The path of `name` inside the directory `base`, as `Path::join` forms it.
/// On Unix targets a name that begins with `/` replaces the base, and
/// otherwise the name follows the base with a `/` between them unless the
/// base is empty or already ends with one; other targets use their own
/// separator, so the rule is not written into the contract.
pub uninterp spec fn joined_path(base: Seq<char>, name: Seq<char>) -> Seq<char>;

/// Calls `Path::join`; the result is named `joined_path`. The joined path of
/// two texts is read back as text, which loses nothing: both are UTF-8.
#[verifier::external_body]
fn join_path(base: &str, name: &str) -> (r: String)
    ensures
        r@ == joined_path(base@, name@),
{
    std::path::Path::new(base).join(name).to_string_lossy().into_owned()
}

/// The storage directory of a node named `node_name` under
/// `base_storage_dir`.
pub fn node_storage_path(base_storage_dir: &String, node_name: &String) -> (r: String)
    ensures
        r@ == joined_path(base_storage_dir@, node_name@),
{
    join_path(base_storage_dir.as_str(), node_name.as_str())
}

/// The view of an optional text.
pub open spec fn text_view(p: Option<String>) -> Option<Seq<char>> {
    match p {
        Some(s) => Some(s@),
        None => None,
    }
}

/// The port the node created when `count` nodes run listens on: the base
/// port plus the count taken as a 16-bit number.
pub open spec fn port_for(count: nat) -> int {
    BASE_LISTENING_PORT + count % 65536
}

/// A node can be created when `count` nodes run without the port leaving
/// the 16-bit range.
pub open spec fn port_fits(count: nat) -> bool {
    port_for(count) <= u16::MAX
}

/// The host and port of the node created when `count` nodes run.
pub open spec fn endpoint_for(count: nat) -> (Seq<char>, u16) {
    (LISTENING_HOST@, port_for(count) as u16)
}

/// One running node as the contracts see it: its name, what it was built
/// with, and whether it was started.
pub struct NodeEntry {
    pub name: Seq<char>,
    pub settings: NodeSettings,
    pub started: bool,
}

/// What the interface is told about one node.
#[derive(Debug, Clone)]
pub struct NodeDetails {
    pub name: String,
    pub is_online: bool,
    pub channels_active: u32,
    pub uptime_hours: u32,
}

impl NodeDetails {
    /// The details of a node named `name` that is running or not and has
    /// `channel_count` channels. The channel count is kept as a 32-bit
    /// number (truncated), and the uptime is not measured yet, so it is 0.
    pub fn observed(name: String, is_online: bool, channel_count: usize) -> (d: NodeDetails)
        ensures
            d.name@ == name@,
            d.is_online == is_online,
            d.channels_active == channel_count as u32,
            d.uptime_hours == 0,
    {
        NodeDetails { name, is_online, channels_active: channel_count as u32, uptime_hours: 0 }
    }
}

/// Commands the interface sends to the manager.
#[derive(Debug)]
pub enum BeaconNodeManagerCommand {
    CreateNode { node_name: String, config: BeaconNodeConfig },
    ListNodes,
}

/// Events the manager sends back to the interface.
#[derive(Debug, Clone)]
pub enum BeaconNodeManagerEvent {
    NodeCreated(String),
    NodeListUpdated(Vec<NodeDetails>),
    Error(String),
}

struct RunningNode {
    name: String,
    node: BeaconNode,
}

/// Creates, tracks and lists the nodes, one per name, and keeps the record
/// of the builds and starts it asked of `ldk_node`.
pub struct BeaconNodeManager {
    base_storage_dir: String,
    running_nodes: Vec<RunningNode>,
    log: NodeLog,
}

/// `details` describes the running nodes `entries`, one for one and in order.
pub open spec fn describes(details: Seq<NodeDetails>, entries: Seq<NodeEntry>) -> bool {
    &&& details.len() == entries.len()
    &&& forall|i: int|
        0 <= i < entries.len() ==> (#[trigger] details[i]).name@ == entries[i].name
            && details[i].uptime_hours == 0 && (entries[i].started ==> details[i].is_online)
}

/// The configuration a node restarted from its directory named `name` gets:
/// the test network, the default sources, and the name as alias.
pub open spec fn restart_config(config: BeaconNodeConfig, name: Seq<char>) -> bool {
    &&& config.network == Network::Testnet
    &&& config.chain_source is None
    &&& config.gossip_source is None
    &&& config.node_alias matches Some(alias) && alias@ == name
}

/// The settings of a node restarted from the directory `name` under `base`,
/// the `position`-th node to run.
pub open spec fn restarted_settings(
    settings: NodeSettings,
    base: Seq<char>,
    name: Seq<char>,
    position: nat,
) -> bool {
    exists|config: BeaconNodeConfig|
        restart_config(config, name) && settings == settings_for(
            config,
            joined_path(base, name),
            endpoint_for(position),
        )
}

/// The outcome of restarting node `j` of `discovered` could have been a
/// node: its directory was prepared and its name is an accepted alias.
pub open spec fn restartable(discovered: Seq<(String, Result<(), String>)>, j: int) -> bool {
    discovered[j].1 is Ok && node_alias_accepted(discovered[j].0@)
}

/// `entries` were restarted from `discovered` under `base`, in order:
/// `from[k]` is the directory that entry `k` came from, the positions rise,
/// each such directory is restartable, and each entry is started and has the
/// settings of a restart.
pub open spec fn restarted_in_order(
    base: Seq<char>,
    discovered: Seq<(String, Result<(), String>)>,
    entries: Seq<NodeEntry>,
    from: Seq<int>,
) -> bool {
    &&& from.len() == entries.len()
    &&& forall|k: int, l: int| 0 <= k < l < from.len() ==> from[k] < from[l]
    &&& forall|k: int|
        0 <= k < from.len() ==> 0 <= #[trigger] from[k] < discovered.len() && discovered[from[k]].0@
            == entries[k].name && restartable(discovered, from[k]) && restarted_settings(
            entries[k].settings,
            base,
            entries[k].name,
            k as nat,
        )
}

/// A created node by value.
pub open spec fn owned(r: Result<&BeaconNode, BeaconNodeError>) -> Result<
    BeaconNode,
    BeaconNodeError,
> {
    match r {
        Ok(node) => Ok(*node),
        Err(e) => Err(e),
    }
}

/// `text` is the message of a creation from `settings` that `ldk_node`
/// refused, as the record (from `before` to `after`) shows it: a failed build
/// with its failure's text, or a failed start with the start's own text.
pub open spec fn refusal_recorded(
    settings: NodeSettings,
    text: Seq<char>,
    before: Seq<NodeEvent>,
    after: Seq<NodeEvent>,
) -> bool {
    ||| exists|kind: BuildFailure|
        after == before.push(NodeEvent::BuildFailed(settings, kind)) && text
            == "Failed to build node: "@ + build_failure_text(kind)
    ||| exists|start_text: Seq<char>|
        after == before + seq![
            NodeEvent::Built(settings),
            NodeEvent::StartFailed(settings, start_text),
        ] && text == "Failed to start node: "@ + start_text
}

/// The names of `entries`, in order.
pub open spec fn names_of(entries: Seq<NodeEntry>) -> Seq<Seq<char>> {
    entries.map_values(|e: NodeEntry| e.name)
}

/// The settings a node restarted from the directory `name` under `base`
/// gets, when `count` nodes already run.
pub open spec fn restart_settings(base: Seq<char>, name: Seq<char>, count: nat) -> NodeSettings {
    NodeSettings {
        network: Some(Network::Testnet),
        storage_dir: Some(joined_path(base, name)),
        listening_addresses: Some(seq![endpoint_for(count)]),
        chain_source: Some((DEFAULT_CHAIN_SOURCE@, None)),
        gossip_source: Some(DEFAULT_GOSSIP_SOURCE@),
        node_alias: Some(name),
    }
}

/// One restart, from running `names` with record `events` to `names2` with
/// `events2`: a directory is skipped when the ports have run out, its
/// preparation failed, a node of its name runs, or its name is no accepted
/// alias; otherwise a node is built from its restart settings and started,
/// and it runs when both succeed, with the build and the start recorded.
pub open spec fn restart_step(
    base: Seq<char>,
    directory: (String, Result<(), String>),
    names: Seq<Seq<char>>,
    events: Seq<NodeEvent>,
    names2: Seq<Seq<char>>,
    events2: Seq<NodeEvent>,
) -> bool {
    let name = directory.0@;
    let settings = restart_settings(base, name, names.len());
    if names.len() >= 55801 || directory.1 is Err || names.contains(name) || !node_alias_accepted(
        name,
    ) {
        names2 == names && events2 == events
    } else {
        ||| names2 == names.push(name) && events2 == events + seq![
            NodeEvent::Built(settings),
            NodeEvent::Started(settings),
        ]
        ||| names2 == names && exists|kind: BuildFailure|
            events2 == events.push(NodeEvent::BuildFailed(settings, kind))
        ||| names2 == names && exists|text: Seq<char>|
            events2 == events + seq![
                NodeEvent::Built(settings),
                NodeEvent::StartFailed(settings, text),
            ]
    }
}

/// `trace` follows the restarts of the first `n` directories of `discovered`
/// under `base`, one after the other: it starts from no running node and an
/// empty record, and each entry is the running names and the record after
/// one more directory.
pub open spec fn restart_trace(
    base: Seq<char>,
    discovered: Seq<(String, Result<(), String>)>,
    n: nat,
    trace: Seq<(Seq<Seq<char>>, Seq<NodeEvent>)>,
) -> bool {
    &&& trace.len() == n + 1
    &&& trace[0].0.len() == 0
    &&& trace[0].1.len() == 0
    &&& forall|j: int|
        0 <= j < n ==> restart_step(
            base,
            discovered[j],
            (#[trigger] trace[j]).0,
            trace[j].1,
            trace[j + 1].0,
            trace[j + 1].1,
        )
}

/// Restarting the first `n` directories of `discovered` under `base`, one
/// after the other from no running node and an empty record, leaves `names`
/// running with record `events`.
pub open spec fn restart_run(
    base: Seq<char>,
    discovered: Seq<(String, Result<(), String>)>,
    n: nat,
    names: Seq<Seq<char>>,
    events: Seq<NodeEvent>,
) -> bool {
    exists|trace: Seq<(Seq<Seq<char>>, Seq<NodeEvent>)>|
        #[trigger] restart_trace(base, discovered, n, trace) && trace[n as int] == (names, events)
}

/// A trace of the first `n` restarts, followed by one more restart step,
/// is a trace of the first `n + 1`.
proof fn lemma_trace_extend(
    base: Seq<char>,
    discovered: Seq<(String, Result<(), String>)>,
    n: nat,
    trace: Seq<(Seq<Seq<char>>, Seq<NodeEvent>)>,
    names: Seq<Seq<char>>,
    events: Seq<NodeEvent>,
)
    requires
        n < discovered.len(),
        restart_trace(base, discovered, n, trace),
        restart_step(base, discovered[n as int], trace[n as int].0, trace[n as int].1, names, events),
    ensures
        restart_trace(base, discovered, n + 1, trace.push((names, events))),
{
    let t = trace.push((names, events));
    assert forall|j: int| 0 <= j < n + 1 implies restart_step(
        base,
        discovered[j],
        (#[trigger] t[j]).0,
        t[j].1,
        t[j + 1].0,
        t[j + 1].1,
    ) by {
        if j < n {
            assert(t[j] == trace[j]);
            assert(t[j + 1] == trace[j + 1]);
        }
    }
}

impl BeaconNodeManager {
    /// The running nodes have distinct names, and each is started and listens
    /// on 127.0.0.1 at `port_for` its position.
    pub closed spec fn well_formed(&self) -> bool {
        &&& forall|i: int, j: int|
            0 <= i < j < self.running_nodes@.len() ==> self.running_nodes@[i].name@
                != self.running_nodes@[j].name@
        &&& forall|i: int|
            0 <= i < self.running_nodes@.len() ==> port_fits(i as nat) && (#[trigger] self.running_nodes@[i]).node.started()
                && self.running_nodes@[i].node.settings().listening_addresses == Some(
                seq![endpoint_for(i as nat)],
            )
    }

    /// The running nodes, in the order they were created.
    pub closed spec fn entries(&self) -> Seq<NodeEntry> {
        self.running_nodes@.map_values(
            |e: RunningNode|
                NodeEntry { name: e.name@, settings: e.node.settings(), started: e.node.started() },
        )
    }

    /// The builds and starts asked of `ldk_node` so far, in order.
    pub closed spec fn log(&self) -> Seq<NodeEvent> {
        self.log.events()
    }

    /// The base directory; a node's storage is the directory of its name under it.
    pub closed spec fn base_dir(&self) -> Seq<char> {
        self.base_storage_dir@
    }

    /// A node named `name` runs.
    pub open spec fn has_node(&self, name: Seq<char>) -> bool {
        exists|i: int| 0 <= i < self.entries().len() && #[trigger] self.entries()[i].name == name
    }

    /// The storage directory of the node `name`.
    pub open spec fn storage_path(&self, name: Seq<char>) -> Seq<char> {
        joined_path(self.base_dir(), name)
    }

    /// What `well_formed` says, over the entries.
    pub proof fn lemma_well_formed(&self)
        requires
            self.well_formed(),
        ensures
            self.entries().len() <= 55801,
            forall|i: int, j: int|
                0 <= i < j < self.entries().len() ==> self.entries()[i].name
                    != self.entries()[j].name,
            forall|i: int|
                0 <= i < self.entries().len() ==> (#[trigger] self.entries()[i]).started
                    && self.entries()[i].settings.listening_addresses == Some(
                    seq![endpoint_for(i as nat)],
                ),
    {
        assert forall|i: int| 0 <= i < self.entries().len() implies (
        #[trigger] self.entries()[i]).started && self.entries()[i].settings.listening_addresses
            == Some(seq![endpoint_for(i as nat)]) by {
            let e = self.running_nodes@[i];
            assert(self.entries()[i] == NodeEntry {
                name: e.name@,
                settings: e.node.settings(),
                started: e.node.started(),
            });
        }
        let n = self.running_nodes@.len();
        if n > 55801 {
            let x = self.running_nodes@[55801int];
            assert(port_fits(55801nat));
        }
    }

    /// A manager of no nodes yet, whose nodes live under `base_storage_dir`.
    fn empty(base_storage_dir: String) -> (m: Self)
        ensures
            m.well_formed(),
            m.base_dir() == base_storage_dir@,
            m.entries().len() == 0,
            m.log().len() == 0,
    {
        let m = BeaconNodeManager { base_storage_dir, running_nodes: Vec::new(), log: NodeLog::new() };
        assert(m.entries() =~= Seq::<NodeEntry>::empty());
        m
    }

    /// The number of running nodes.
    pub fn node_count(&self) -> (n: usize)
        ensures
            n == self.entries().len(),
    {
        self.running_nodes.len()
    }

    /// The position of the node named `name`, if it runs.
    fn position_of(&self, name: &String) -> (r: Option<usize>)
        ensures
            r is Some <==> self.has_node(name@),
            r matches Some(i) ==> i < self.entries().len() && self.entries()[i as int].name == name@,
    {
        let mut i: usize = 0;
        while i < self.running_nodes.len()
            invariant
                i <= self.running_nodes@.len(),
                forall|k: int| 0 <= k < i ==> #[trigger] self.entries()[k].name != name@,
            decreases self.running_nodes@.len() - i,
        {
            if self.running_nodes[i].name == *name {
                assert(self.entries()[i as int].name == name@);
                return Some(i);
            }
            i = i + 1;
        }
        None
    }

    /// Whether a node named `name` runs.
    fn contains_name(&self, name: &String) -> (r: bool)
        ensures
            r == self.has_node(name@),
    {
        self.position_of(name).is_some()
    }

    /// The node named `name`, if it runs.
    pub fn get_node(&self, name: &str) -> (r: Option<&BeaconNode>)
        ensures
            r is Some <==> self.has_node(name@),
            r matches Some(node) ==> exists|i: int|
                0 <= i < self.entries().len() && self.entries()[i].name == name@
                    && #[trigger] self.entries()[i].settings == node.settings()
                    && self.entries()[i].started == node.started(),
    {
        let key = String::from_str(name);
        match self.position_of(&key) {
            Some(i) => {
                let entry = &self.running_nodes[i];
                assert(self.entries()[i as int].settings == entry.node.settings());
                assert(self.entries()[i as int].started == entry.node.started());
                Some(&entry.node)
            },
            None => None,
        }
    }

    /// Creates and starts a node named `node_name` from `config`, in the
    /// storage directory `node_name` under the base directory, listening on
    /// 127.0.0.1 at the next port. `storage_dir` is the outcome of creating
    /// that directory (the text of the I/O error where it failed). A name in
    /// use or a failed directory is refused first; otherwise the outcome of
    /// building and starting the node is passed on as it is recorded.
    pub fn create_node(
        &mut self,
        node_name: String,
        config: BeaconNodeConfig,
        storage_dir: Result<(), String>,
    ) -> (r: Result<&BeaconNode, BeaconNodeError>)
        requires
            old(self).well_formed(),
            !old(self).has_node(node_name@) && storage_dir is Ok ==> port_fits(
                old(self).entries().len(),
            ),
        ensures
            final(self).well_formed(),
            final(self).base_dir() == old(self).base_dir(),
            old(self).has_node(node_name@) ==> (r matches Err(
                BeaconNodeError::DuplicateNodeNameError(m),
            ) && m@ == "Node already exists"@),
            storage_dir matches Err(e) ==> (!old(self).has_node(node_name@) ==> (r matches Err(
                BeaconNodeError::StartNodeError(m),
            ) && m@ == "Failed to create storage dir: "@ + e@)),
            old(self).has_node(node_name@) || storage_dir is Err ==> final(self).log()
                == old(self).log(),
            !old(self).has_node(node_name@) && storage_dir is Ok && !node_alias_accepted(
                node_alias_of(config),
            ) ==> (r matches Err(BeaconNodeError::BuildNodeError(kind)) && kind
                == BuildFailure::InvalidNodeAlias && final(self).log() == old(self).log()),
            !old(self).has_node(node_name@) && storage_dir is Ok && node_alias_accepted(
                node_alias_of(config),
            ) ==> creation_recorded(
                settings_for(
                    config,
                    old(self).storage_path(node_name@),
                    endpoint_for(old(self).entries().len()),
                ),
                owned(r),
                old(self).log(),
                final(self).log(),
            ),
            r matches Err(e) ==> (e is DuplicateNodeNameError <==> old(self).has_node(node_name@)),
            r is Err ==> final(self).entries() == old(self).entries(),
            r matches Ok(node) ==> {
                &&& !old(self).has_node(node_name@)
                &&& storage_dir is Ok
                &&& final(self).entries() == old(self).entries().push(
                    NodeEntry { name: node_name@, settings: node.settings(), started: true },
                )
            },
    {
        if self.contains_name(&node_name) {
            return Err(BeaconNodeError::DuplicateNodeNameError(String::from_str("Node already exists")));
        }
        match storage_dir {
            Ok(()) => {},
            Err(e) => {
                let mut m = String::from_str("Failed to create storage dir: ");
                m.append(e.as_str());
                return Err(BeaconNodeError::StartNodeError(m));
            },
        }
        let storage_path = join_path(self.base_storage_dir.as_str(), node_name.as_str());
        let count = self.running_nodes.len();
        let port: u16 = BASE_LISTENING_PORT + ((count % 65536) as u16);
        let host = String::from_str(LISTENING_HOST);
        proof {
            reveal_strlit("127.0.0.1");
        }
        assert(valid_hostname(host@));
        let listening_address = match hostname_address(host, port) {
            Ok(address) => address,
            Err(()) => {
                return Err(BeaconNodeError::StartNodeError(String::from_str("Invalid hostname: ()")));
            },
        };
        let node = match BeaconNode::new(config, storage_path, listening_address, &mut self.log) {
            Ok(node) => node,
            Err(e) => {
                return Err(e);
            },
        };
        let ghost old_entries = self.entries();
        let ghost old_nodes = self.running_nodes@;
        self.running_nodes.push(RunningNode { name: node_name, node });
        proof {
            assert forall|i: int, j: int|
                0 <= i < j < self.running_nodes@.len() implies self.running_nodes@[i].name@
                != self.running_nodes@[j].name@ by {
                if j == count {
                    assert(old_entries[i].name == old_nodes[i].name@);
                } else {
                    assert(self.running_nodes@[i] == old_nodes[i]);
                    assert(self.running_nodes@[j] == old_nodes[j]);
                }
            }
            assert forall|i: int| 0 <= i < self.running_nodes@.len() implies port_fits(i as nat)
                && (#[trigger] self.running_nodes@[i]).node.started()
                && self.running_nodes@[i].node.settings().listening_addresses == Some(
                seq![endpoint_for(i as nat)],
            ) by {
                if i < count {
                    assert(self.running_nodes@[i] == old_nodes[i]);
                } else {
                    assert(old_entries.len() == count);
                }
            }
            assert(self.entries() =~= old_entries.push(
                NodeEntry {
                    name: self.running_nodes@[count as int].name@,
                    settings: self.running_nodes@[count as int].node.settings(),
                    started: true,
                },
            ));
        }
        Ok(&self.running_nodes[count].node)
    }

    /// The details of every running node, in the order they were created.
    pub fn list_nodes(&self) -> (r: Vec<NodeDetails>)
        ensures
            describes(r@, self.entries()),
    {
        let mut running: Vec<NodeDetails> = Vec::new();
        let mut i: usize = 0;
        while i < self.running_nodes.len()
            invariant
                i <= self.running_nodes@.len(),
                running@.len() == i,
                forall|k: int|
                    0 <= k < i ==> (#[trigger] running@[k]).name@ == self.entries()[k].name
                        && running@[k].uptime_hours == 0 && (self.entries()[k].started
                        ==> running@[k].is_online),
            decreases self.running_nodes@.len() - i,
        {
            let entry = &self.running_nodes[i];
            let status = entry.node.get_node_status();
            let is_online = status.is_running;
            assert(self.entries()[i as int].started == entry.node.started());
            let channels_active = entry.node.list_node_channels().len();
            let details = NodeDetails::observed(entry.name.clone(), is_online, channels_active);
            running.push(details);
            i = i + 1;
        }
        running
    }

    /// The storage directory a node created as `node_name` would get, or
    /// `None` where the name is in use (the creation is then refused before
    /// any directory is made).
    pub fn storage_dir_for_new_node(&self, node_name: &String) -> (r: Option<String>)
        ensures
            self.has_node(node_name@) ==> r is None,
            !self.has_node(node_name@) ==> text_view(r) == Some(self.storage_path(node_name@)),
    {
        if self.contains_name(node_name) {
            None
        } else {
            Some(join_path(self.base_storage_dir.as_str(), node_name.as_str()))
        }
    }

    /// The storage directory that `command` needs before it can run: that of
    /// a new node, for a creation under a name not in use yet.
    pub fn storage_dir_for(&self, command: &BeaconNodeManagerCommand) -> (r: Option<String>)
        ensures
            match command {
                BeaconNodeManagerCommand::CreateNode { node_name, .. } => if self.has_node(
                    node_name@,
                ) {
                    r is None
                } else {
                    text_view(r) == Some(self.storage_path(node_name@))
                },
                BeaconNodeManagerCommand::ListNodes => r is None,
            },
    {
        match command {
            BeaconNodeManagerCommand::CreateNode { node_name, .. } => {
                self.storage_dir_for_new_node(node_name)
            },
            BeaconNodeManagerCommand::ListNodes => None,
        }
    }

    /// Runs one command of the interface and returns the events to send back:
    /// for a created node, `NodeCreated` and then the updated list; for a
    /// refused creation, the message of the refusal; for a listing, the list.
    /// `storage_dir` is the outcome of creating the directory that
    /// `storage_dir_for` named (`Ok` where it named none).
    pub fn handle_command(
        &mut self,
        command: BeaconNodeManagerCommand,
        storage_dir: Result<(), String>,
    ) -> (events: Vec<BeaconNodeManagerEvent>)
        requires
            old(self).well_formed(),
            command matches BeaconNodeManagerCommand::CreateNode { node_name, .. } ==> (!old(
                self,
            ).has_node(node_name@) && storage_dir is Ok ==> port_fits(old(self).entries().len())),
        ensures
            final(self).well_formed(),
            final(self).base_dir() == old(self).base_dir(),
            match command {
                BeaconNodeManagerCommand::ListNodes => {
                    &&& final(self).entries() == old(self).entries()
                    &&& final(self).log() == old(self).log()
                    &&& events@.len() == 1
                    &&& events@[0] matches BeaconNodeManagerEvent::NodeListUpdated(l) && describes(
                        l@,
                        old(self).entries(),
                    )
                },
                BeaconNodeManagerCommand::CreateNode { node_name, config } => {
                    let settings = settings_for(
                        config,
                        old(self).storage_path(node_name@),
                        endpoint_for(old(self).entries().len()),
                    );
                    &&& events@.len() == 1 || events@.len() == 2
                    &&& events@.len() == 1 ==> {
                        &&& final(self).entries() == old(self).entries()
                        &&& events@[0] is Error
                    }
                    &&& events@.len() == 2 ==> {
                        &&& !old(self).has_node(node_name@)
                        &&& storage_dir is Ok
                        &&& node_alias_accepted(node_alias_of(config))
                        &&& final(self).entries() == old(self).entries().push(
                            NodeEntry { name: node_name@, settings: settings, started: true },
                        )
                        &&& final(self).log() == old(self).log() + seq![
                            NodeEvent::Built(settings),
                            NodeEvent::Started(settings),
                        ]
                        &&& events@[0] matches BeaconNodeManagerEvent::NodeCreated(n) && n@
                            == node_name@
                        &&& events@[1] matches BeaconNodeManagerEvent::NodeListUpdated(l)
                            && describes(l@, final(self).entries())
                    }
                    &&& old(self).has_node(node_name@) ==> (events@[0] matches BeaconNodeManagerEvent::Error(m)
                        && m@ == "Duplicate node name error: "@ + "Node already exists"@
                        && final(self).log() == old(self).log())
                    &&& storage_dir matches Err(e) ==> (!old(self).has_node(node_name@) ==> (
                    events@[0] matches BeaconNodeManagerEvent::Error(m) && m@
                        == "Failed to start node: "@ + "Failed to create storage dir: "@ + e@
                        && final(self).log() == old(self).log()))
                    &&& !old(self).has_node(node_name@) && storage_dir is Ok && !node_alias_accepted(
                        node_alias_of(config),
                    ) ==> (events@.len() == 1 && (events@[0] matches BeaconNodeManagerEvent::Error(
                        m,
                    ) && m@ == "Failed to build node: "@ + build_failure_text(
                        BuildFailure::InvalidNodeAlias,
                    ) && final(self).log() == old(self).log()))
                    &&& (events@.len() == 1 && !old(self).has_node(node_name@) && storage_dir is Ok
                        && node_alias_accepted(node_alias_of(config))) ==> (
                    events@[0] matches BeaconNodeManagerEvent::Error(m) && refusal_recorded(
                        settings,
                        m@,
                        old(self).log(),
                        final(self).log(),
                    ))
                },
            },
    {
        let mut events: Vec<BeaconNodeManagerEvent> = Vec::new();
        match command {
            BeaconNodeManagerCommand::CreateNode { node_name, config } => {
                let created_name = node_name.clone();
                let ghost settings = settings_for(
                    config,
                    self.storage_path(node_name@),
                    endpoint_for(self.entries().len()),
                );
                let ghost before = self.log();
                let outcome = self.create_node(node_name, config, storage_dir);
                match outcome {
                    Ok(node) => {
                        proof {
                            assert(node.settings() == settings);
                        }
                        events.push(BeaconNodeManagerEvent::NodeCreated(created_name));
                        let nodes = self.list_nodes();
                        events.push(BeaconNodeManagerEvent::NodeListUpdated(nodes));
                    },
                    Err(e) => {
                        let text = e.message();
                        proof {
                            match e {
                                BeaconNodeError::BuildNodeError(kind) => {
                                    if node_alias_accepted(node_alias_of(config)) && !(
                                    self.has_node(created_name@)) {
                                        assert(refusal_recorded(settings, text@, before, self.log()));
                                    }
                                },
                                BeaconNodeError::StartNodeError(t) => {},
                                BeaconNodeError::DuplicateNodeNameError(_) => {},
                            }
                        }
                        events.push(BeaconNodeManagerEvent::Error(text));
                    },
                }
            },
            BeaconNodeManagerCommand::ListNodes => {
                let nodes = self.list_nodes();
                events.push(BeaconNodeManagerEvent::NodeListUpdated(nodes));
            },
        }
        events
    }

    /// A manager whose nodes live under `base_storage_dir`, with the nodes
    /// found there restarted: `discovered` holds, for each directory found
    /// under the base directory, its name and the outcome of preparing it as
    /// a storage directory. In order, each is restarted as a node of that name
    /// on the test network with the default sources and its name as alias
    /// (`restart_step`); one that fails to restart is skipped, and so is every
    /// one once the ports run out. The record holds every build and start.
    pub fn new(base_storage_dir: String, discovered: Vec<(String, Result<(), String>)>) -> (m: Self)
        ensures
            m.well_formed(),
            m.base_dir() == base_storage_dir@,
            restart_run(
                base_storage_dir@,
                discovered@,
                discovered@.len(),
                names_of(m.entries()),
                m.log(),
            ),
            exists|from: Seq<int>|
                restarted_in_order(base_storage_dir@, discovered@, m.entries(), from),
            forall|name: Seq<char>|
                #[trigger] m.has_node(name) ==> exists|j: int|
                    0 <= j < discovered@.len() && discovered@[j].0@ == name && restartable(
                        discovered@,
                        j,
                    ),
    {
        let mut manager = BeaconNodeManager::empty(base_storage_dir);
        let ghost mut from: Seq<int> = Seq::empty();
        let ghost mut trace: Seq<(Seq<Seq<char>>, Seq<NodeEvent>)> = seq![
            (Seq::empty(), Seq::empty()),
        ];
        proof {
            assert(names_of(manager.entries()) =~= Seq::<Seq<char>>::empty());
            assert(manager.log() =~= Seq::<NodeEvent>::empty());
        }
        let mut i: usize = 0;
        while i < discovered.len()
            invariant
                i <= discovered@.len(),
                manager.well_formed(),
                manager.base_dir() == base_storage_dir@,
                manager.entries().len() <= i,
                restarted_in_order(base_storage_dir@, discovered@, manager.entries(), from),
                forall|k: int| 0 <= k < from.len() ==> #[trigger] from[k] < i,
                restart_trace(base_storage_dir@, discovered@, i as nat, trace),
                trace[i as int] == (names_of(manager.entries()), manager.log()),
            decreases discovered@.len() - i,
        {
            proof {
                manager.lemma_well_formed();
            }
            let ghost names_before = names_of(manager.entries());
            let ghost events_before = manager.log();
            let ghost base = base_storage_dir@;
            let count = manager.node_count();
            if count < 55801 {
                let node_name = discovered[i].0.clone();
                let storage_dir = match &discovered[i].1 {
                    Ok(()) => Ok(()),
                    Err(e) => Err(e.clone()),
                };
                let config = BeaconNodeConfig {
                    network: Network::Testnet,
                    chain_source: None,
                    gossip_source: None,
                    node_alias: Some(node_name.clone()),
                };
                let ghost before = manager.entries();
                let ghost cfg = config;
                let ghost name = node_name@;
                let ghost dir = storage_dir;
                proof {
                    assert(names_before.contains(name) <==> manager.has_node(name)) by {
                        if names_before.contains(name) {
                            let k = choose|k: int| 0 <= k < names_before.len() && names_before[k] == name;
                            assert(manager.entries()[k].name == name);
                        }
                        if manager.has_node(name) {
                            let k = choose|k: int|
                                0 <= k < manager.entries().len() && #[trigger] manager.entries()[k].name == name;
                            assert(names_before[k] == name);
                        }
                    }
                    assert(settings_for(cfg, manager.storage_path(name), endpoint_for(count as nat))
                        == restart_settings(base, name, count as nat));
                }
                let outcome = manager.create_node(node_name, config, storage_dir);
                let created = outcome.is_ok();
                proof {
                    let settings = restart_settings(base, name, count as nat);
                    if created {
                        let new_from = from.push(i as int);
                        assert(restart_config(cfg, name));
                        assert forall|k: int|
                            0 <= k < new_from.len() implies 0 <= #[trigger] new_from[k]
                            < discovered@.len() && discovered@[new_from[k]].0@
                            == manager.entries()[k].name && restartable(discovered@, new_from[k])
                            && restarted_settings(
                            manager.entries()[k].settings,
                            base_storage_dir@,
                            manager.entries()[k].name,
                            k as nat,
                        ) by {
                            if k < from.len() {
                                assert(manager.entries()[k] == before[k]);
                            } else {
                                assert(discovered@[i as int].0@ == name);
                            }
                        }
                        from = new_from;
                        assert(names_of(manager.entries()) =~= names_before.push(name));
                    } else {
                        assert(manager.entries() =~= before);
                        assert(names_of(manager.entries()) =~= names_before);
                    }
                    assert(restart_step(
                        base,
                        discovered@[i as int],
                        names_before,
                        events_before,
                        names_of(manager.entries()),
                        manager.log(),
                    ));
                }
            } else {
                proof {
                    assert(restart_step(
                        base,
                        discovered@[i as int],
                        names_before,
                        events_before,
                        names_of(manager.entries()),
                        manager.log(),
                    ));
                }
            }
            proof {
                lemma_trace_extend(
                    base,
                    discovered@,
                    i as nat,
                    trace,
                    names_of(manager.entries()),
                    manager.log(),
                );
                trace = trace.push((names_of(manager.entries()), manager.log()));
            }
            i = i + 1;
        }
        proof {
            assert(restart_trace(base_storage_dir@, discovered@, discovered@.len(), trace));
            assert forall|name: Seq<char>| #[trigger] manager.has_node(name) implies exists|j: int|
                0 <= j < discovered@.len() && discovered@[j].0@ == name && restartable(
                    discovered@,
                    j,
                ) by {
                let k = choose|k: int|
                    0 <= k < manager.entries().len() && #[trigger] manager.entries()[k].name == name;
                assert(0 <= from[k] < discovered@.len());
            }
        }
        manager
    }
}

} // verus!
