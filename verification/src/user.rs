//! Connected users.

use crate::manager::{Id, Item, Manager};
use vstd::prelude::*;

verus! {

/// Where a datagram came from, and where the answer to it goes: what a
/// socket address of either family holds.
#[derive(Clone, Copy, PartialEq, Eq, Debug)]
pub enum NetworkAddress {
    V4 { octets: [u8; 4], port: u16 },
    V6 { segments: [u16; 8], port: u16, flowinfo: u32, scope_id: u32 },
}

/// A user, known by the address that asked for an identity.
#[derive(Debug)]
pub struct User {
    pub id: Id,
    pub addr: NetworkAddress,
}

impl Clone for User {
    fn clone(&self) -> (copy: Self)
        ensures
            copy == *self,
    {
        User { id: self.id, addr: self.addr }
    }
}

impl Item<NetworkAddress> for User {
    fn new(id: &Id, addr: &NetworkAddress) -> (user: Self)
        ensures
            user == (User { id: *id, addr: *addr }),
    {
        User { id: *id, addr: *addr }
    }
}

pub type UserManager = Manager<User, NetworkAddress>;

} // verus!
