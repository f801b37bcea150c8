//! Configuration of a peer connection.
use vstd::prelude::*;

verus! {

/// The ICE servers (STUN or TURN urls) that a peer connection is created with.
#[derive(Debug, Clone)]
pub struct RtcConfig {
    ice_servers: Vec<String>,
}

impl View for RtcConfig {
    type V = Seq<Seq<char>>;

    closed spec fn view(&self) -> Seq<Seq<char>> {
        Seq::new(self.ice_servers@.len(), |i: int| self.ice_servers@[i]@)
    }
}

impl RtcConfig {
    /// A configuration naming the given ICE server urls, in order.
    pub fn new(ice_servers: &[&str]) -> (res: Self)
        ensures
            res@.len() == ice_servers@.len(),
            forall|i: int| 0 <= i < ice_servers@.len() ==> #[trigger] res@[i] == ice_servers@[i]@,
    {
        let mut servers: Vec<String> = Vec::new();
        let n = ice_servers.len();
        for k in 0..n
            invariant
                n == ice_servers@.len(),
                servers@.len() == k,
                forall|i: int| 0 <= i < k ==> #[trigger] servers@[i]@ == ice_servers@[i]@,
        {
            servers.push(ice_servers[k].to_owned());
        }
        RtcConfig { ice_servers: servers }
    }

    /// The ICE server urls, in the order they were given.
    pub fn ice_servers(&self) -> (res: &Vec<String>)
        ensures
            res@.len() == self@.len(),
            forall|i: int| 0 <= i < self@.len() ==> #[trigger] res@[i]@ == self@[i],
    {
        &self.ice_servers
    }
}

} // verus!
