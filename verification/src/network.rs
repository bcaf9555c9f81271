//! The networks that a call can go to, and the endpoint of each.

use vstd::prelude::*;

use crate::error::{ConfigurationFault, EthRpcError};
use crate::text::same_text;

verus! {

/// A network with a known JSON-RPC endpoint.
#[derive(Clone, Copy, Debug, PartialEq, Eq, Structural)]
pub enum Network {
    Mainnet,
    Goerli,
    Sepolia,
}

/// The network that `name` identifies, if it identifies one.
pub open spec fn network_named(name: Seq<char>) -> Option<Network> {
    if name == "mainnet"@ {
        Some(Network::Mainnet)
    } else if name == "goerli"@ {
        Some(Network::Goerli)
    } else if name == "sepolia"@ {
        Some(Network::Sepolia)
    } else {
        None
    }
}

/// The URL of the endpoint of `network`.
pub open spec fn endpoint_url(network: Network) -> Seq<char> {
    match network {
        Network::Mainnet => "https://cloudflare-eth.com/v1/mainnet"@,
        Network::Goerli => "https://ethereum-goerli.publicnode.com"@,
        Network::Sepolia => "https://rpc.sepolia.org"@,
    }
}

/// The URL of the endpoint of the network that `name` identifies.
pub open spec fn endpoint_named(name: Seq<char>) -> Option<Seq<char>> {
    match network_named(name) {
        Some(network) => Some(endpoint_url(network)),
        None => None,
    }
}

/// `url` begins with `https://`.
pub open spec fn has_https_scheme(url: Seq<char>) -> bool {
    url.len() >= 8 && url.subrange(0, 8) == "https://"@
}

/// What stands in `url` between `https://` and the next `/`, or the end.
pub open spec fn https_authority(url: Seq<char>) -> Seq<char>
    recommends
        has_https_scheme(url),
{
    let rest = url.skip(8);
    let end = rest.index_of_first('/');
    match end {
        Some(at) => rest.take(at),
        None => rest,
    }
}

impl Network {
    /// The network that `name` identifies: `mainnet`, `goerli` or `sepolia`.
    pub fn parse(name: &str) -> (network: Option<Network>)
        ensures
            network == network_named(name@),
    {
        if same_text(name, "mainnet") {
            Some(Network::Mainnet)
        } else if same_text(name, "goerli") {
            Some(Network::Goerli)
        } else if same_text(name, "sepolia") {
            Some(Network::Sepolia)
        } else {
            None
        }
    }

    /// The URL of the endpoint of this network.
    pub fn endpoint(self) -> (url: &'static str)
        ensures
            url@ == endpoint_url(self),
    {
        match self {
            Network::Mainnet => "https://cloudflare-eth.com/v1/mainnet",
            Network::Goerli => "https://ethereum-goerli.publicnode.com",
            Network::Sepolia => "https://rpc.sepolia.org",
        }
    }
}

/// Resolves a network identifier to the URL of its endpoint.
///
/// An identifier that is not recognized is a configuration error: there is
/// no fallback endpoint.
pub fn get_rpc_endpoint(network: &str) -> (endpoint: Result<&'static str, EthRpcError>)
    ensures
        match endpoint {
            Ok(url) => endpoint_named(network@) == Some(url@),
            Err(error) => endpoint_named(network@) is None && error@
                == crate::error::ErrorView::Configuration(ConfigurationFault::UnsupportedNetwork),
        },
{
    match Network::parse(network) {
        Some(known) => Ok(known.endpoint()),
        None => Err(EthRpcError::Configuration(ConfigurationFault::UnsupportedNetwork)),
    }
}

/// The three identifiers are told apart: each names its own network.
pub proof fn lemma_network_names()
    ensures
        network_named("mainnet"@) == Some(Network::Mainnet),
        network_named("goerli"@) == Some(Network::Goerli),
        network_named("sepolia"@) == Some(Network::Sepolia),
{
    reveal_strlit("mainnet");
    reveal_strlit("goerli");
    reveal_strlit("sepolia");
    assert("goerli"@.len() != "mainnet"@.len());
    assert("sepolia"@[0] != "mainnet"@[0]);
}

/// The endpoint of every network is a non-empty `https` URL in which a
/// non-empty host name follows the scheme.
pub proof fn lemma_endpoints_are_https(network: Network)
    ensures
        endpoint_url(network).len() > 0,
        has_https_scheme(endpoint_url(network)),
        https_authority(endpoint_url(network)).len() > 0,
        https_authority(endpoint_url(network)) == match network {
            Network::Mainnet => "cloudflare-eth.com"@,
            Network::Goerli => "ethereum-goerli.publicnode.com"@,
            Network::Sepolia => "rpc.sepolia.org"@,
        },
{
    reveal_strlit("https://");
    let url = endpoint_url(network);
    match network {
        Network::Mainnet => {
            reveal_strlit("https://cloudflare-eth.com/v1/mainnet");
            reveal_strlit("cloudflare-eth.com");
        },
        Network::Goerli => {
            reveal_strlit("https://ethereum-goerli.publicnode.com");
            reveal_strlit("ethereum-goerli.publicnode.com");
        },
        Network::Sepolia => {
            reveal_strlit("https://rpc.sepolia.org");
            reveal_strlit("rpc.sepolia.org");
        },
    }
    assert(url.subrange(0, 8) =~= "https://"@);
    let rest = url.skip(8);
    rest.index_of_first_ensures('/');
    match network {
        Network::Mainnet => {
            assert(rest[18] == '/');
            assert(rest.contains('/'));
            let at = rest.index_of_first('/')->0;
            assert(at == 18) by {
                if at < 18 {
                    assert(rest[at] == '/');
                    assert(rest[at] == url[at + 8]);
                }
            }
            assert(rest.take(18) =~= "cloudflare-eth.com"@);
        },
        Network::Goerli => {
            assert(!rest.contains('/')) by {
                if rest.contains('/') {
                    let at = choose|i: int| 0 <= i < rest.len() && rest[i] == '/';
                    assert(rest[at] == url[at + 8]);
                }
            }
            assert(rest =~= "ethereum-goerli.publicnode.com"@);
        },
        Network::Sepolia => {
            assert(!rest.contains('/')) by {
                if rest.contains('/') {
                    let at = choose|i: int| 0 <= i < rest.len() && rest[i] == '/';
                    assert(rest[at] == url[at + 8]);
                }
            }
            assert(rest =~= "rpc.sepolia.org"@);
        },
    }
}

/// Every recognized identifier resolves to a non-empty `https` URL with a
/// non-empty host name, and no other identifier resolves at all.
pub proof fn lemma_resolution(name: Seq<char>)
    ensures
        (name == "mainnet"@ || name == "goerli"@ || name == "sepolia"@) <==> endpoint_named(
            name,
        ) is Some,
        endpoint_named(name) matches Some(url) ==> url.len() > 0 && has_https_scheme(url)
            && https_authority(url).len() > 0,
{
    match network_named(name) {
        Some(network) => {
            lemma_endpoints_are_https(network);
        },
        None => {},
    }
}

} // verus!
