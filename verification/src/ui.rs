//! The state of the desktop interface: the nodes shown, which one is
//! selected, which page is open and what the node search holds, and how a
//! message of the interface changes that state.

use vstd::prelude::*;
use vstd::view::View as _;

use crate::manager::NodeDetails;
use crate::text::{
    ascii_fold, contains_text, decimal, decimal_string, has_substring, is_ascii_text, lowercase,
    to_lowercase,
};

verus! {

/// The page shown in the main content area.
#[derive(Debug, Clone, PartialEq, Eq, Structural)]
pub enum View {
    Dashboard,
    Channels,
    Send,
    Receive,
    Transactions,
    Routing,
    Security,
    Analytics,
    Settings,
}

impl Default for View {
    /// The dashboard.
    fn default() -> (r: Self)
        ensures
            r == View::Dashboard,
    {
        View::Dashboard
    }
}

/// The name of a page, as its `Debug` form writes it.
pub open spec fn view_name(view: View) -> Seq<char> {
    match view {
        View::Dashboard => "Dashboard"@,
        View::Channels => "Channels"@,
        View::Send => "Send"@,
        View::Receive => "Receive"@,
        View::Transactions => "Transactions"@,
        View::Routing => "Routing"@,
        View::Security => "Security"@,
        View::Analytics => "Analytics"@,
        View::Settings => "Settings"@,
    }
}

impl View {
    /// The name of the page.
    pub fn name(&self) -> (r: &'static str)
        ensures
            r@ == view_name(*self),
    {
        match self {
            View::Dashboard => "Dashboard",
            View::Channels => "Channels",
            View::Send => "Send",
            View::Receive => "Receive",
            View::Transactions => "Transactions",
            View::Routing => "Routing",
            View::Security => "Security",
            View::Analytics => "Analytics",
            View::Settings => "Settings",
        }
    }

    /// The heading of a page that has no content yet: its name, then " View".
    pub fn title(&self) -> (r: String)
        ensures
            r@ == view_name(*self) + " View"@,
    {
        let mut s = String::from_str(self.name());
        s.append(" View");
        s
    }
}

/// What the interface is told to do.
#[derive(Debug, Clone)]
pub enum Message {
    IcedReady,
    NodeSelected(usize),
    ViewSelected(View),
    SearchChanged(String),
    CreateNodePressed,
}

/// The interface's state.
pub struct BeaconLN {
    pub nodes: Vec<NodeDetails>,
    pub active_node_index: usize,
    pub active_view: View,
    pub search_query: String,
}

impl Default for BeaconLN {
    /// No nodes, the first node selected, the dashboard open, an empty search.
    fn default() -> (r: Self)
        ensures
            r.nodes@.len() == 0,
            r.active_node_index == 0,
            r.active_view == View::Dashboard,
            r.search_query@.len() == 0,
    {
        BeaconLN {
            nodes: Vec::new(),
            active_node_index: 0,
            active_view: View::default(),
            search_query: String::new(),
        }
    }
}

/// `details` is the node `name` that is online or not, with `channels`
/// active channels and `uptime` hours up.
pub open spec fn shows_node(
    details: NodeDetails,
    name: Seq<char>,
    online: bool,
    channels: u32,
    uptime: u32,
) -> bool {
    &&& details.name@ == name
    &&& details.is_online == online
    &&& details.channels_active == channels
    &&& details.uptime_hours == uptime
}

/// Whether the node search `query` shows a node named `name`: the lowercase
/// name holds the lowercase query.
pub open spec fn search_shows(name: Seq<char>, query: Seq<char>) -> bool {
    has_substring(lowercase(name), lowercase(query))
}

/// The positions, in order, of the first `n` of `nodes` whose names hold
/// `query` once the ASCII letters of both are lowercased.
pub open spec fn ascii_shown(nodes: Seq<NodeDetails>, query: Seq<char>, n: int) -> Seq<usize>
    decreases n,
{
    if n <= 0 {
        Seq::empty()
    } else if has_substring(ascii_fold(nodes[n - 1].name@), ascii_fold(query)) {
        ascii_shown(nodes, query, n - 1).push((n - 1) as usize)
    } else {
        ascii_shown(nodes, query, n - 1)
    }
}

/// The search and every node name are ASCII text.
pub open spec fn ascii_search(nodes: Seq<NodeDetails>, query: Seq<char>) -> bool {
    &&& is_ascii_text(query)
    &&& forall|i: int| 0 <= i < nodes.len() ==> is_ascii_text(#[trigger] nodes[i].name@)
}

impl BeaconLN {
    /// The interface as it starts: three example nodes, the first selected,
    /// the dashboard open and an empty search.
    pub fn new() -> (r: Self)
        ensures
            r.nodes@.len() == 3,
            shows_node(r.nodes@[0], "My Main Node"@, true, 12, 24),
            shows_node(r.nodes@[1], "Testnet Node"@, false, 3, 6),
            shows_node(r.nodes@[2], "Development Node"@, false, 0, 0),
            r.active_node_index == 0,
            r.active_view == View::Dashboard,
            r.search_query@.len() == 0,
    {
        let mut nodes: Vec<NodeDetails> = Vec::new();
        nodes.push(
            NodeDetails {
                name: String::from_str("My Main Node"),
                is_online: true,
                channels_active: 12,
                uptime_hours: 24,
            },
        );
        nodes.push(
            NodeDetails {
                name: String::from_str("Testnet Node"),
                is_online: false,
                channels_active: 3,
                uptime_hours: 6,
            },
        );
        nodes.push(
            NodeDetails {
                name: String::from_str("Development Node"),
                is_online: false,
                channels_active: 0,
                uptime_hours: 0,
            },
        );
        BeaconLN {
            nodes,
            active_node_index: 0,
            active_view: View::Dashboard,
            search_query: String::new(),
        }
    }

    /// Applies a message: a selection or a search edit replaces the
    /// corresponding field; the other messages change nothing.
    pub fn update(&mut self, message: Message)
        ensures
            final(self).nodes@ == old(self).nodes@,
            match message {
                Message::NodeSelected(index) => final(self).active_node_index == index
                    && final(self).active_view == old(self).active_view
                    && final(self).search_query@ == old(self).search_query@,
                Message::ViewSelected(view) => final(self).active_view == view
                    && final(self).active_node_index == old(self).active_node_index
                    && final(self).search_query@ == old(self).search_query@,
                Message::SearchChanged(value) => final(self).search_query@ == value@
                    && final(self).active_node_index == old(self).active_node_index
                    && final(self).active_view == old(self).active_view,
                _ => final(self).active_node_index == old(self).active_node_index
                    && final(self).active_view == old(self).active_view
                    && final(self).search_query@ == old(self).search_query@,
            },
    {
        match message {
            Message::IcedReady => {},
            Message::NodeSelected(index) => {
                self.active_node_index = index;
            },
            Message::ViewSelected(view) => {
                self.active_view = view;
            },
            Message::SearchChanged(value) => {
                self.search_query = value;
            },
            Message::CreateNodePressed => {},
        }
    }

    /// The name of the selected node, or the empty text where the selection
    /// is past the end of the list.
    pub fn active_node_name(&self) -> (r: String)
        ensures
            self.active_node_index < self.nodes@.len() ==> r@
                == self.nodes@[self.active_node_index as int].name@,
            self.active_node_index >= self.nodes@.len() ==> r@.len() == 0,
    {
        if self.active_node_index < self.nodes.len() {
            self.nodes[self.active_node_index].name.clone()
        } else {
            String::new()
        }
    }

    /// The positions of the nodes that the search shows, in list order.
    pub fn visible_nodes(&self) -> (r: Vec<usize>)
        ensures
            forall|k: int|
                0 <= k < r@.len() ==> #[trigger] r@[k] < self.nodes@.len() && search_shows(
                    self.nodes@[r@[k] as int].name@,
                    self.search_query@,
                ),
            forall|k: int, l: int| 0 <= k < l < r@.len() ==> r@[k] < r@[l],
            forall|i: int|
                0 <= i < self.nodes@.len() && search_shows(
                    #[trigger] self.nodes@[i].name@,
                    self.search_query@,
                ) ==> r@.contains(i as usize),
            self.search_query@.len() == 0 ==> r@.len() == self.nodes@.len() && forall|k: int|
                0 <= k < r@.len() ==> #[trigger] r@[k] == k,
            ascii_search(self.nodes@, self.search_query@) ==> r@ == ascii_shown(
                self.nodes@,
                self.search_query@,
                self.nodes@.len() as int,
            ),
    {
        let query = to_lowercase(self.search_query.as_str());
        let mut shown: Vec<usize> = Vec::new();
        let mut i: usize = 0;
        while i < self.nodes.len()
            invariant
                i <= self.nodes@.len(),
                query@ == lowercase(self.search_query@),
                forall|k: int|
                    0 <= k < shown@.len() ==> #[trigger] shown@[k] < i && search_shows(
                        self.nodes@[shown@[k] as int].name@,
                        self.search_query@,
                    ),
                forall|k: int, l: int| 0 <= k < l < shown@.len() ==> shown@[k] < shown@[l],
                forall|j: int|
                    0 <= j < i && search_shows(
                        #[trigger] self.nodes@[j].name@,
                        self.search_query@,
                    ) ==> shown@.contains(j as usize),
                self.search_query@.len() == 0 ==> query@.len() == 0 && shown@.len() == i
                    && forall|k: int| 0 <= k < shown@.len() ==> #[trigger] shown@[k] == k,
                is_ascii_text(self.search_query@) ==> query@ == ascii_fold(self.search_query@),
                ascii_search(self.nodes@, self.search_query@) ==> shown@ == ascii_shown(
                    self.nodes@,
                    self.search_query@,
                    i as int,
                ),
            decreases self.nodes@.len() - i,
        {
            let name = to_lowercase(self.nodes[i].name.as_str());
            proof {
                if ascii_search(self.nodes@, self.search_query@) {
                    assert(is_ascii_text(self.nodes@[i as int].name@));
                }
                if query@.len() == 0 {
                    assert(name@.subrange(0, 0int + query@.len()) =~= query@);
                }
            }
            if contains_text(name.as_str(), query.as_str()) {
                let ghost before = shown@;
                shown.push(i);
                proof {
                    assert forall|j: int|
                        0 <= j < i && search_shows(
                            #[trigger] self.nodes@[j].name@,
                            self.search_query@,
                        ) implies shown@.contains(j as usize) by {
                        let k = choose|k: int| 0 <= k < before.len() && before[k] == j as usize;
                        assert(shown@[k] == j as usize);
                    }
                    assert(shown@[before.len() as int] == i);
                }
            }
            i = i + 1;
        }
        shown
    }

    /// The badge over the node list: the number of nodes, then " Active".
    pub fn node_count_label(&self) -> (r: String)
        ensures
            r@ == decimal(self.nodes@.len()) + " Active"@,
    {
        let mut s = decimal_string(self.nodes.len() as u64);
        s.append(" Active");
        s
    }
}

impl NodeDetails {
    /// The status line of the node in the list.
    pub fn status_text(&self) -> (r: &'static str)
        ensures
            r@ == (if self.is_online {
                "\u{25cf} Online"@
            } else {
                "\u{25cf} Offline"@
            }),
    {
        if self.is_online {
            "\u{25cf} Online"
        } else {
            "\u{25cf} Offline"
        }
    }

    /// The channel count of the node in the list: the number, then " Active".
    pub fn channels_label(&self) -> (r: String)
        ensures
            r@ == decimal(self.channels_active as nat) + " Active"@,
    {
        let mut s = decimal_string(self.channels_active as u64);
        s.append(" Active");
        s
    }
}

} // verus!
