//! What a socket was bound to.
use crate::addr::{IpAddr, SocketAddr};
use vstd::prelude::*;

verus! {

/// What a socket was bound to: one socket address, or every port, of one address or of all.
#[derive(Debug, Clone, Copy, PartialEq, Eq)]
pub enum BindKind {
    Exact(SocketAddr),
    Wildcard(Option<IpAddr>),
}

} // verus!
