//! Reaching the node inspectors over HTTP: their endpoints and URLs.

use vstd::prelude::*;

use crate::utils::text::{dec, owned, push_dec, push_str};

verus! {

/// URL of a node inspector endpoint: `http://<ip>:<port><path>`.
pub fn build_url(ip: &str, port: u16, path: &str) -> (r: String)
    ensures
        r@ == "http://"@ + ip@ + ":"@ + dec(port as nat) + path@,
{
    let mut s = owned("http://");
    push_str(&mut s, ip);
    push_str(&mut s, ":");
    push_dec(&mut s, port as u64);
    push_str(&mut s, path);
    s
}

/// A node inspector pod: the node it runs on, its name, its IP and whether
/// it answered.
#[derive(Debug, Clone)]
pub struct NodeEndpoint {
    pub node_name: String,
    pub pod_name: String,
    pub pod_ip: Option<String>,
    pub alive: bool,
}

} // verus!
