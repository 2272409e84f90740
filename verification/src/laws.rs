//! Properties that relate several operations of the library, proved over
//! their contracts.

use vstd::prelude::*;
use vstd::view::View as _;

use crate::manager::{endpoint_for, BeaconNodeManager, NodeDetails, NodeEntry, BASE_LISTENING_PORT};
use crate::text::{
    ascii_fold, ascii_lower, ascii_upper, decimal, digit_char, has_substring, is_ascii_text,
    lowercase,
};
use crate::ldk::{bech32_value, p2wpkh_address_text, p2wpkh_text_with_hrp, Network, NodeEvent};
use crate::node::{creation_recorded, settings_for, BeaconNode, BeaconNodeConfig};
use crate::ui::{ascii_search, ascii_shown, search_shows, view_name, View};

verus! {

/// Running nodes never share a name: two positions of the node list hold
/// different names.
pub proof fn law_names_distinct(m: BeaconNodeManager, i: int, j: int)
    requires
        m.well_formed(),
        0 <= i < j < m.entries().len(),
    ensures
        m.entries()[i].name != m.entries()[j].name,
{
    m.lemma_well_formed();
}

/// Running nodes listen on different ports: the node at position `i`
/// listens on 127.0.0.1 at 9735 plus `i`, and no more than 55801 nodes run.
pub proof fn law_ports_distinct(m: BeaconNodeManager, i: int, j: int)
    requires
        m.well_formed(),
        0 <= i < j < m.entries().len(),
    ensures
        m.entries()[i].settings.listening_addresses == Some(seq![endpoint_for(i as nat)]),
        m.entries()[j].settings.listening_addresses == Some(seq![endpoint_for(j as nat)]),
        endpoint_for(i as nat).1 == BASE_LISTENING_PORT + i,
        endpoint_for(i as nat).1 != endpoint_for(j as nat).1,
{
    m.lemma_well_formed();
    assert(m.entries()[i].started);
    assert(m.entries()[j].started);
}

/// A name that a creation just took is in use: creating another node under
/// it is refused as a duplicate (see `create_node`).
pub proof fn law_created_name_taken(
    before: BeaconNodeManager,
    after: BeaconNodeManager,
    entry: NodeEntry,
)
    requires
        after.entries() == before.entries().push(entry),
    ensures
        after.has_node(entry.name),
        forall|name: Seq<char>| before.has_node(name) ==> after.has_node(name),
{
    let last = before.entries().len() as int;
    assert(after.entries()[last] == entry);
    assert forall|name: Seq<char>| before.has_node(name) implies after.has_node(name) by {
        let k = choose|k: int|
            0 <= k < before.entries().len() && #[trigger] before.entries()[k].name == name;
        assert(after.entries()[k] == before.entries()[k]);
    }
}

/// An empty search, after case folding, shows every node.
pub proof fn law_empty_search_shows_all(name: Seq<char>, query: Seq<char>)
    requires
        lowercase(query).len() == 0,
    ensures
        search_shows(name, query),
{
    let hay = lowercase(name);
    let needle = lowercase(query);
    assert(hay.subrange(0, 0int + needle.len()) =~= needle);
}

/// A search for a node's own name (up to case) shows that node.
pub proof fn law_search_for_own_name(name: Seq<char>, query: Seq<char>)
    requires
        lowercase(name) == lowercase(query),
    ensures
        search_shows(name, query),
{
    let hay = lowercase(name);
    let needle = lowercase(query);
    assert(hay.subrange(0, 0int + needle.len()) =~= needle);
}

/// Capitalising an ASCII text keeps it ASCII and does not change its
/// lowercase form.
pub proof fn law_uppercase_folds_alike(text: Seq<char>)
    requires
        is_ascii_text(text),
    ensures
        is_ascii_text(text.map_values(|c: char| ascii_upper(c))),
        ascii_fold(text.map_values(|c: char| ascii_upper(c))) == ascii_fold(text),
{
    let upper = text.map_values(|c: char| ascii_upper(c));
    assert forall|i: int| 0 <= i < upper.len() implies (#[trigger] upper[i] as u32) < 128 by {
        let c = text[i];
        assert((c as u32) < 128);
        if 'a' <= c <= 'z' {
            assert((upper[i] as u32) == (c as u32) - 32);
        }
    }
    assert forall|i: int| 0 <= i < text.len() implies #[trigger] ascii_lower(upper[i])
        == ascii_lower(text[i]) by {
        let c = text[i];
        if 'a' <= c <= 'z' {
            assert((upper[i] as u32) == (c as u32) - 32);
            assert('A' <= upper[i] <= 'Z');
            assert(((upper[i] as u32) + 32) as char == c);
        } else if 'A' <= c <= 'Z' {
            assert(upper[i] == c);
        }
    }
    assert(ascii_fold(upper) =~= ascii_fold(text));
}

/// The first `n` nodes a search shows depend on the search only through its
/// lowercase form.
proof fn lemma_shown_by_fold(nodes: Seq<NodeDetails>, q1: Seq<char>, q2: Seq<char>, n: int)
    requires
        ascii_fold(q1) == ascii_fold(q2),
    ensures
        ascii_shown(nodes, q1, n) == ascii_shown(nodes, q2, n),
    decreases n,
{
    if n > 0 {
        lemma_shown_by_fold(nodes, q1, q2, n - 1);
    }
}

/// The node search ignores case: on ASCII text, a search and the same search
/// in capitals show the same nodes in the same order (see `visible_nodes`).
pub proof fn law_search_ignores_case(
    nodes: Seq<NodeDetails>,
    query: Seq<char>,
    capitalised: Seq<char>,
)
    requires
        ascii_search(nodes, query),
        capitalised == query.map_values(|c: char| ascii_upper(c)),
    ensures
        ascii_search(nodes, capitalised),
        ascii_shown(nodes, capitalised, nodes.len() as int) == ascii_shown(
            nodes,
            query,
            nodes.len() as int,
        ),
{
    law_uppercase_folds_alike(query);
    lemma_shown_by_fold(nodes, capitalised, query, nodes.len() as int);
}

/// The number a string of decimal digits stands for.
pub open spec fn digits_value(s: Seq<char>) -> nat
    decreases s.len(),
{
    if s.len() == 0 {
        0
    } else {
        digits_value(s.drop_last()) * 10 + ((s.last() as u32) - 48) as nat
    }
}

/// The decimal rendering of a count reads back as that count, so two
/// different counts never render alike.
pub proof fn law_decimal_reads_back(n: nat)
    ensures
        digits_value(decimal(n)) == n,
        decimal(n).len() > 0,
    decreases n,
{
    let s = decimal(n);
    if n < 10 {
        assert(s.drop_last() =~= Seq::<char>::empty());
        assert(s.last() == digit_char(n));
        assert((digit_char(n) as u32) == 48 + n);
        assert(digits_value(s) == digits_value(s.drop_last()) * 10 + ((s.last() as u32) - 48) as nat);
    } else {
        law_decimal_reads_back(n / 10);
        assert(s.drop_last() =~= decimal(n / 10));
        assert(s.last() == digit_char(n % 10));
        assert((digit_char(n % 10) as u32) == 48 + n % 10);
        assert(digits_value(s) == digits_value(s.drop_last()) * 10 + ((s.last() as u32) - 48) as nat);
        assert(n == (n / 10) * 10 + n % 10) by (nonlinear_arith);
    }
}


/// A node that `BeaconNode::new` built and started from `config` was built
/// exactly as configured: on the configuration's network, in the given
/// storage directory, listening on the given address only, syncing from the
/// configured Esplora server (or the Blockstream testnet one), taking gossip
/// from the configured server (or the LDK testnet snapshot), and announcing
/// the configured alias (or `beaconln-node`).
pub proof fn law_node_built_as_configured(
    config: BeaconNodeConfig,
    storage_dir: Seq<char>,
    address: (Seq<char>, u16),
    node: BeaconNode,
    before: Seq<NodeEvent>,
    after: Seq<NodeEvent>,
)
    requires
        creation_recorded(settings_for(config, storage_dir, address), Ok(node), before, after),
    ensures
        node.started(),
        node.settings().network == Some(config.network),
        node.settings().storage_dir == Some(storage_dir),
        node.settings().listening_addresses == Some(seq![address]),
        node.settings().chain_source matches Some((url, sync)) && sync is None && url == (
        match config.chain_source {
            Some(s) => s@,
            None => "https://blockstream.info/testnet/api"@,
        }),
        node.settings().gossip_source == Some(
            match config.gossip_source {
                Some(s) => s@,
                None => "https://rapidsync.lightningdevkit.org/testnet/snapshot"@,
            },
        ),
        node.settings().node_alias == Some(
            match config.node_alias {
                Some(s) => s@,
                None => "beaconln-node"@,
            },
        ),
{
}

/// Each page is named by its variant, as `{:?}` writes it, so that its
/// heading reads that name followed by " View"; no two pages share a name.
pub proof fn law_page_names()
    ensures
        view_name(View::Dashboard) == "Dashboard"@,
        view_name(View::Channels) == "Channels"@,
        view_name(View::Send) == "Send"@,
        view_name(View::Receive) == "Receive"@,
        view_name(View::Transactions) == "Transactions"@,
        view_name(View::Routing) == "Routing"@,
        view_name(View::Security) == "Security"@,
        view_name(View::Analytics) == "Analytics"@,
        view_name(View::Settings) == "Settings"@,
        forall|a: View, b: View| view_name(a) == view_name(b) ==> a == b,
{
    reveal_strlit("Dashboard");
    reveal_strlit("Channels");
    reveal_strlit("Send");
    reveal_strlit("Receive");
    reveal_strlit("Transactions");
    reveal_strlit("Routing");
    reveal_strlit("Security");
    reveal_strlit("Analytics");
    reveal_strlit("Settings");
    assert forall|a: View, b: View| view_name(a) == view_name(b) implies a == b by {
        let x = view_name(a);
        let y = view_name(b);
        assert(x.len() == y.len());
        assert(x[0] == y[0]);
        assert(x[2] == y[2]);
        assert(x[3] == y[3]);
    }
}


/// A funding address (see `get_node_funding_address`) is the text of a
/// P2WPKH address: 42 characters under `bc` or `tb`, 44 under `bcrt`; it
/// starts with the network's part, `1` and `q`, and every character after
/// the separator is from the bech32 alphabet, so no character can be dropped
/// or added, and none replaced by one outside the alphabet.
pub proof fn law_funding_address_form(s: Seq<char>)
    requires
        p2wpkh_address_text(s),
    ensures
        s.len() == 42 || s.len() == 44,
        s.len() == 42 ==> (s[0] == 'b' && s[1] == 'c' || s[0] == 't' && s[1] == 'b') && s[2]
            == '1' && s[3] == 'q' && forall|i: int| 3 <= i < 42 ==> bech32_value(#[trigger] s[i])
            >= 0,
        s.len() == 44 ==> s[0] == 'b' && s[1] == 'c' && s[2] == 'r' && s[3] == 't' && s[4] == '1'
            && s[5] == 'q' && forall|i: int| 5 <= i < 44 ==> bech32_value(#[trigger] s[i]) >= 0,
{
    let bc = seq!['b', 'c'];
    let tb = seq!['t', 'b'];
    let bcrt = seq!['b', 'c', 'r', 't'];
    let hrp = if p2wpkh_text_with_hrp(s, bc) {
        bc
    } else if p2wpkh_text_with_hrp(s, tb) {
        tb
    } else {
        bcrt
    };
    assert(p2wpkh_text_with_hrp(s, hrp));
    let data = s.subrange(hrp.len() + 1int, s.len() as int);
    assert(s.subrange(0, hrp.len() as int)[0] == hrp[0]);
    assert(s.subrange(0, hrp.len() as int)[1] == hrp[1]);
    if hrp.len() == 4 {
        assert(s.subrange(0, hrp.len() as int)[2] == hrp[2]);
        assert(s.subrange(0, hrp.len() as int)[3] == hrp[3]);
    }
    assert forall|i: int| hrp.len() + 1 <= i < s.len() implies bech32_value(#[trigger] s[i]) >= 0 by {
        assert(data[i - hrp.len() - 1] == s[i]);
    }
}

} // verus!
