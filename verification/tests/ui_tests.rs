use beacon_node::manager::NodeDetails;
use beacon_node::text::{contains_text, decimal_string};
use beacon_node::ui::{BeaconLN, Message, View};

#[test]
fn the_default_view_is_the_dashboard() {
    assert_eq!(View::default(), View::Dashboard);
    let state = BeaconLN::default();
    assert!(state.nodes.is_empty());
    assert_eq!(state.active_node_index, 0);
    assert_eq!(state.active_view, View::Dashboard);
    assert_eq!(state.search_query, "");
}

#[test]
fn the_interface_starts_with_three_example_nodes() {
    let state = BeaconLN::new();
    assert_eq!(state.nodes.len(), 3);
    assert_eq!(state.nodes[0].name, "My Main Node");
    assert!(state.nodes[0].is_online);
    assert_eq!(state.nodes[0].channels_active, 12);
    assert_eq!(state.nodes[0].uptime_hours, 24);
    assert_eq!(state.nodes[1].name, "Testnet Node");
    assert!(!state.nodes[1].is_online);
    assert_eq!(state.nodes[1].channels_active, 3);
    assert_eq!(state.nodes[1].uptime_hours, 6);
    assert_eq!(state.nodes[2].name, "Development Node");
    assert_eq!(state.nodes[2].channels_active, 0);
    assert_eq!(state.active_view, View::Dashboard);
    assert_eq!(state.active_node_index, 0);
}

#[test]
fn messages_change_only_their_field() {
    let mut state = BeaconLN::new();
    state.update(Message::NodeSelected(2));
    assert_eq!(state.active_node_index, 2);
    assert_eq!(state.active_view, View::Dashboard);
    state.update(Message::ViewSelected(View::Routing));
    assert_eq!(state.active_view, View::Routing);
    assert_eq!(state.active_node_index, 2);
    state.update(Message::SearchChanged("dev".to_string()));
    assert_eq!(state.search_query, "dev");
    state.update(Message::IcedReady);
    state.update(Message::CreateNodePressed);
    assert_eq!(state.active_node_index, 2);
    assert_eq!(state.active_view, View::Routing);
    assert_eq!(state.search_query, "dev");
    assert_eq!(state.nodes.len(), 3);
}

#[test]
fn the_active_node_name_follows_the_selection() {
    let mut state = BeaconLN::new();
    assert_eq!(state.active_node_name(), "My Main Node");
    state.update(Message::NodeSelected(1));
    assert_eq!(state.active_node_name(), "Testnet Node");
    state.update(Message::NodeSelected(9));
    assert_eq!(state.active_node_name(), "");
}

#[test]
fn the_search_ignores_case() {
    let mut state = BeaconLN::new();
    assert_eq!(state.visible_nodes(), vec![0, 1, 2]);
    state.update(Message::SearchChanged("TESTNET".to_string()));
    assert_eq!(state.visible_nodes(), vec![1]);
    state.update(Message::SearchChanged("node".to_string()));
    assert_eq!(state.visible_nodes(), vec![0, 1, 2]);
    state.update(Message::SearchChanged("main n".to_string()));
    assert_eq!(state.visible_nodes(), vec![0]);
    state.update(Message::SearchChanged("lightning".to_string()));
    assert!(state.visible_nodes().is_empty());
}

#[test]
fn an_empty_search_shows_every_node() {
    let state = BeaconLN::new();
    assert_eq!(state.search_query, "");
    assert_eq!(state.visible_nodes(), vec![0, 1, 2]);
}

#[test]
fn labels_read_as_counts() {
    let state = BeaconLN::new();
    assert_eq!(state.node_count_label(), "3 Active");
    assert_eq!(state.nodes[0].channels_label(), "12 Active");
    assert_eq!(state.nodes[2].channels_label(), "0 Active");
    assert_eq!(state.nodes[0].status_text(), "\u{25cf} Online");
    assert_eq!(state.nodes[1].status_text(), "\u{25cf} Offline");
}

#[test]
fn page_titles_name_the_page() {
    assert_eq!(View::Channels.title(), "Channels View");
    assert_eq!(View::Settings.title(), "Settings View");
    assert_eq!(View::Transactions.name(), "Transactions");
}

#[test]
fn decimal_rendering_reads_back() {
    assert_eq!(decimal_string(0), "0");
    assert_eq!(decimal_string(7), "7");
    assert_eq!(decimal_string(10), "10");
    assert_eq!(decimal_string(4096), "4096");
    assert_eq!(decimal_string(u64::MAX), "18446744073709551615");
    let details = NodeDetails::observed("n".to_string(), true, 105);
    assert_eq!(details.channels_label(), "105 Active");
}

#[test]
fn substring_search() {
    assert!(contains_text("development node", "ment n"));
    assert!(contains_text("abc", ""));
    assert!(contains_text("abc", "abc"));
    assert!(!contains_text("abc", "abcd"));
    assert!(!contains_text("abc", "ac"));
    assert!(contains_text("\u{25cf} online", "\u{25cf}"));
}

#[test]
fn a_search_in_capitals_shows_the_same_nodes() {
    let mut state = BeaconLN::new();
    for query in ["node", "main node", "test", "dev", "xyz", "e n"] {
        state.update(Message::SearchChanged(query.to_string()));
        let lower = state.visible_nodes();
        state.update(Message::SearchChanged(query.to_uppercase()));
        assert_eq!(state.visible_nodes(), lower, "query {:?}", query);
    }
}
