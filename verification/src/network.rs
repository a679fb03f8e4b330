//! The closed set of blockchain networks a transaction can be broadcast to,
//! and the pure mapping from a network to its broadcast endpoint base URL.

use vstd::prelude::*;

verus! {

/// The blockchain network a transaction is destined for. The envelope
/// carries one of these so the relay can pick the right broadcast endpoint.
#[derive(Clone, Copy, Debug, PartialEq, Eq, Structural)]
pub enum Network {
    Mainnet,
    Testnet,
}

/// The base URL of the broadcast endpoint that `n` selects, as a pure,
/// total function of the network alone.
pub open spec fn spec_mempool_api_url(n: Network) -> Seq<char> {
    match n {
        Network::Mainnet => "https://mempool.space/api"@,
        Network::Testnet => "https://mempool.space/testnet/api"@,
    }
}

impl Network {
    /// The broadcast endpoint base URL for this network. The result is
    /// determined by the network value alone: repeated calls on equal
    /// inputs return equal strings.
    pub fn mempool_api_url(&self) -> (r: &'static str)
        ensures
            r@ == spec_mempool_api_url(*self),
    {
        match self {
            Network::Mainnet => "https://mempool.space/api",
            Network::Testnet => "https://mempool.space/testnet/api",
        }
    }
}

/// The two networks map to two distinct, non-empty base URLs.
pub proof fn lemma_network_urls_distinct()
    ensures
        spec_mempool_api_url(Network::Mainnet) != spec_mempool_api_url(Network::Testnet),
        spec_mempool_api_url(Network::Mainnet).len() > 0,
        spec_mempool_api_url(Network::Testnet).len() > 0,
{
    reveal_strlit("https://mempool.space/api");
    reveal_strlit("https://mempool.space/testnet/api");
    assert(spec_mempool_api_url(Network::Mainnet).len() == 25);
    assert(spec_mempool_api_url(Network::Testnet).len() == 33);
}

} // verus!
