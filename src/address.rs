use vstd::prelude::*;

use crate::table::TableKey;

verus! {

/// A remote endpoint: a user name and one of that user's devices.
#[derive(Debug, Clone)]
pub struct ProtocolAddress {
    name: String,
    device_id: u32,
}

impl View for ProtocolAddress {
    type V = (Seq<char>, u32);

    closed spec fn view(&self) -> (Seq<char>, u32) {
        (self.name@, self.device_id)
    }
}

impl ProtocolAddress {
    /// The address of device `device_id` of user `name`.
    pub fn new(name: String, device_id: u32) -> (r: ProtocolAddress)
        ensures
            r@ == (name@, device_id),
    {
        ProtocolAddress { name, device_id }
    }

    /// The user name.
    pub fn name(&self) -> (r: &str)
        ensures
            r@ == self@.0,
    {
        self.name.as_str()
    }

    /// The device id.
    pub fn device_id(&self) -> (r: u32)
        ensures
            r == self@.1,
    {
        self.device_id
    }

    /// Whether two addresses name the same device of the same user.
    pub fn same_address(&self, other: &ProtocolAddress) -> (r: bool)
        ensures
            r == (self@ == other@),
    {
        self.device_id == other.device_id && self.name == other.name
    }

    /// A copy of the address.
    pub fn copy(&self) -> (r: ProtocolAddress)
        ensures
            r@ == self@,
    {
        ProtocolAddress { name: self.name.clone(), device_id: self.device_id }
    }
}

impl TableKey for ProtocolAddress {
    fn same(&self, other: &ProtocolAddress) -> (r: bool) {
        self.same_address(other)
    }
}

} // verus!
