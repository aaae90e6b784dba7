//! The closed set of supported blockchain networks and the total mapping
//! between networks and their command-line names.

use vstd::prelude::*;

verus! {

/// A supported blockchain network. The set is closed: every network the
/// program can target is a variant here, and every other name is rejected
/// when options are parsed.
#[derive(Clone, Copy, Debug, PartialEq, Eq, Structural)]
pub enum Network {
    Mainnet,
    Testnet,
    Regtest,
    Signet,
}

/// The canonical name of a network, as written on the command line or in
/// the environment.
pub open spec fn network_name(n: Network) -> Seq<char> {
    match n {
        Network::Mainnet => "Mainnet"@,
        Network::Testnet => "Testnet"@,
        Network::Regtest => "Regtest"@,
        Network::Signet => "Signet"@,
    }
}

/// The total mapping from names to networks: `Some` exactly on the four
/// canonical names, `None` on every other string.
pub open spec fn network_of_name(s: Seq<char>) -> Option<Network> {
    if s == "Mainnet"@ {
        Some(Network::Mainnet)
    } else if s == "Testnet"@ {
        Some(Network::Testnet)
    } else if s == "Regtest"@ {
        Some(Network::Regtest)
    } else if s == "Signet"@ {
        Some(Network::Signet)
    } else {
        None
    }
}

impl Network {
    /// The canonical name of this network.
    pub fn name(&self) -> (r: &'static str)
        ensures
            r@ == network_name(*self),
    {
        match self {
            Network::Mainnet => "Mainnet",
            Network::Testnet => "Testnet",
            Network::Regtest => "Regtest",
            Network::Signet => "Signet",
        }
    }

    /// Looks a name up in the closed set: `Some` for the four canonical
    /// names, `None` for any other string.
    pub fn from_name(s: &str) -> (r: Option<Network>)
        ensures
            r == network_of_name(s@),
    {
        if str_eq(s, "Mainnet") {
            Some(Network::Mainnet)
        } else if str_eq(s, "Testnet") {
            Some(Network::Testnet)
        } else if str_eq(s, "Regtest") {
            Some(Network::Regtest)
        } else if str_eq(s, "Signet") {
            Some(Network::Signet)
        } else {
            None
        }
    }
}

/// Law: every supported network's canonical name maps back to that same
/// network, so the name round-trips through the lookup.
pub proof fn lemma_network_name_round_trip(n: Network)
    ensures
        network_of_name(network_name(n)) == Some(n),
{
    reveal_strlit("Mainnet");
    reveal_strlit("Testnet");
    reveal_strlit("Regtest");
    reveal_strlit("Signet");
    assert("Mainnet"@[0] == 'M');
    assert("Testnet"@[0] == 'T');
    assert("Regtest"@[0] == 'R');
    assert("Signet"@[0] == 'S');
}

/// Character-for-character equality of two string slices.
fn str_eq(a: &str, b: &str) -> (r: bool)
    ensures
        r == (a@ == b@),
{
    let x: String = a.to_owned();
    let y: String = b.to_owned();
    x == y
}

} // verus!
