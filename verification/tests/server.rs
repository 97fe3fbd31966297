use noplacelike::server::{
    address_rank, get_all_ips, network_heading, network_kind, Address, Network,
};
use noplacelike::text::{clone_texts, contains_text, has_prefix};

fn address(text: &str, loopback: bool) -> Address {
    Address { text: String::from(text), loopback }
}

#[test]
fn addresses_rank_by_their_network() {
    assert_eq!(address_rank("192.168.1.20"), 0);
    assert_eq!(address_rank("10.0.0.7"), 1);
    assert_eq!(address_rank("172.16.0.1"), 2);
    assert_eq!(address_rank("127.0.0.1"), 3);
    assert_eq!(address_rank("8.8.8.8"), 3);
    assert_eq!(address_rank("192.16.8.1"), 3);
    assert_eq!(address_rank("100.1.1.1"), 3);
    assert_eq!(address_rank(""), 3);
}

#[test]
fn headings_go_by_the_kind_of_network() {
    assert_eq!(network_kind(&address("127.0.0.1", true)), Network::Localhost);
    assert_eq!(network_kind(&address("192.168.0.2", false)), Network::LocalNetwork);
    assert_eq!(network_kind(&address("10.1.2.3", false)), Network::LocalNetwork);
    assert_eq!(network_kind(&address("172.16.0.1", false)), Network::Other);
    assert_eq!(network_kind(&address("8.8.8.8", false)), Network::Other);
    assert_eq!(network_heading(Network::Localhost), "=== Localhost Access ===");
    assert_eq!(
        network_heading(Network::LocalNetwork),
        "=== Local Network Access (preferred) ==="
    );
    assert_eq!(network_heading(Network::Other), "=== Other Network Access ===");
}

#[test]
fn loopback_alone_is_announced_where_nothing_else_is_known() {
    assert_eq!(get_all_ips(None), vec![address("127.0.0.1", true)]);
    assert_eq!(get_all_ips(Some(address("127.0.0.2", true))), vec![address("127.0.0.1", true)]);
}

#[test]
fn local_network_address_is_announced_first() {
    assert_eq!(
        get_all_ips(Some(address("192.168.1.20", false))),
        vec![address("192.168.1.20", false), address("127.0.0.1", true)]
    );
    assert_eq!(
        get_all_ips(Some(address("172.20.0.3", false))),
        vec![address("172.20.0.3", false), address("127.0.0.1", true)]
    );
}

#[test]
fn other_address_is_announced_after_loopback() {
    assert_eq!(
        get_all_ips(Some(address("8.8.8.8", false))),
        vec![address("127.0.0.1", true), address("8.8.8.8", false)]
    );
}

#[test]
fn prefix_is_found_at_the_start_only() {
    assert!(has_prefix("~/music", "~/"));
    assert!(has_prefix("abc", ""));
    assert!(has_prefix("abc", "abc"));
    assert!(has_prefix("日本語", "日本"));
    assert!(!has_prefix("abc", "abcd"));
    assert!(!has_prefix("a~/", "~/"));
    assert!(!has_prefix("", "a"));
}

#[test]
fn texts_are_found_and_copied() {
    let list = vec![String::from("a"), String::from("b")];
    assert!(contains_text(&list, "b"));
    assert!(!contains_text(&list, "c"));
    assert!(!contains_text(&Vec::new(), ""));
    assert_eq!(clone_texts(&list), list);
}
