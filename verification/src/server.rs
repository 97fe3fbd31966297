//! Starting the server: under which addresses it is announced, in which
//! order, and under which heading.

use crate::text::has_prefix;
use vstd::prelude::*;
use vstd::string::StringExecFns;

verus! {

/// An address of this machine.
#[derive(Debug, Clone, PartialEq, Eq)]
pub struct Address {
    /// The address as text, such as `192.168.1.20`.
    pub text: String,
    /// Whether it is a loopback address.
    pub loopback: bool,
}

/// The rank of an address in the announcement, lower first: addresses of the
/// usual home networks before others.
pub open spec fn rank_of(address: Seq<char>) -> nat {
    if "192.168."@.is_prefix_of(address) {
        0
    } else if "10."@.is_prefix_of(address) {
        1
    } else if "172."@.is_prefix_of(address) {
        2
    } else {
        3
    }
}

/// The rank of an address in the announcement.
pub fn address_rank(address: &str) -> (rank: u8)
    ensures
        rank == rank_of(address@),
{
    if has_prefix(address, "192.168.") {
        0
    } else if has_prefix(address, "10.") {
        1
    } else if has_prefix(address, "172.") {
        2
    } else {
        3
    }
}

/// The heading under which an address is announced.
#[derive(Debug, Clone, Copy, PartialEq, Eq, Structural)]
pub enum Network {
    /// This machine only.
    Localhost,
    /// The local network: the preferred way in.
    LocalNetwork,
    /// Any other network.
    Other,
}

/// The heading for `address`.
pub open spec fn network_of(address: Seq<char>, loopback: bool) -> Network {
    if loopback {
        Network::Localhost
    } else if "192.168."@.is_prefix_of(address) || "10."@.is_prefix_of(address) {
        Network::LocalNetwork
    } else {
        Network::Other
    }
}

/// The heading under which `address` is announced.
pub fn network_kind(address: &Address) -> (kind: Network)
    ensures
        kind == network_of(address.text@, address.loopback),
{
    if address.loopback {
        Network::Localhost
    } else if has_prefix(address.text.as_str(), "192.168.") || has_prefix(
        address.text.as_str(),
        "10.",
    ) {
        Network::LocalNetwork
    } else {
        Network::Other
    }
}

/// The line that heads the announcement of an address.
pub fn network_heading(kind: Network) -> (heading: String)
    ensures
        heading@ == match kind {
            Network::Localhost => "=== Localhost Access ==="@,
            Network::LocalNetwork => "=== Local Network Access (preferred) ==="@,
            Network::Other => "=== Other Network Access ==="@,
        },
{
    match kind {
        Network::Localhost => String::from_str("=== Localhost Access ==="),
        Network::LocalNetwork => String::from_str("=== Local Network Access (preferred) ==="),
        Network::Other => String::from_str("=== Other Network Access ==="),
    }
}

/// The addresses to announce, in order, as mathematics: the loopback address
/// `127.0.0.1` and, where the machine has a local address that is no loopback
/// address, that one too, the one of lower rank first and the loopback
/// address first where the ranks are equal.
pub open spec fn announced(local: Option<Address>) -> Seq<(Seq<char>, bool)> {
    let home = ("127.0.0.1"@, true);
    match local {
        Some(address) => {
            if address.loopback {
                seq![home]
            } else if rank_of(address.text@) < rank_of("127.0.0.1"@) {
                seq![(address.text@, false), home]
            } else {
                seq![home, (address.text@, false)]
            }
        },
        None => seq![home],
    }
}

/// The addresses to announce, in order. `local` is the machine's address in
/// the local network, where it could be found.
pub fn get_all_ips(local: Option<Address>) -> (ips: Vec<Address>)
    ensures
        ips@.map_values(|address: Address| (address.text@, address.loopback)) == announced(local),
{
    let ghost pair = |address: Address| (address.text@, address.loopback);
    let home = Address { text: String::from_str("127.0.0.1"), loopback: true };
    let mut ips: Vec<Address> = Vec::new();
    match local {
        Some(address) => {
            if address.loopback {
                ips.push(home);
                assert(ips@.map_values(pair) =~= announced(local));
            } else if address_rank(address.text.as_str()) < address_rank(home.text.as_str()) {
                ips.push(address);
                ips.push(home);
                assert(ips@.map_values(pair) =~= announced(local));
            } else {
                ips.push(home);
                ips.push(address);
                assert(ips@.map_values(pair) =~= announced(local));
            }
        },
        None => {
            ips.push(home);
            assert(ips@.map_values(pair) =~= announced(local));
        },
    }
    ips
}

/// The announcement is in rank order and never without the loopback
/// address: no address stands before one of lower rank, and `127.0.0.1` is
/// always among them.
pub proof fn lemma_announced_in_rank_order(local: Option<Address>)
    ensures
        announced(local).contains(("127.0.0.1"@, true)),
        forall|i: int, j: int|
            0 <= i < j < announced(local).len() ==> rank_of(announced(local)[i].0) <= rank_of(
                announced(local)[j].0,
            ),
{
    let home = ("127.0.0.1"@, true);
    let list = announced(local);
    if list.len() == 1 {
        assert(list[0] == home);
    } else if list[0] == home {
        assert(list[0] == home);
    } else {
        assert(list[1] == home);
    }
}

} // verus!
