//! The address-listing view of an interface snapshot: the devices that
//! answer an address query, with the same per-device records as the
//! interface snapshot.

use vstd::prelude::*;
use crate::iface::Device;

verus! {

/// The devices answering an address query, in enumeration order.
#[derive(Debug, Clone, PartialEq, Eq)]
pub struct AddressList(pub Vec<Device>);

impl AddressList {
    /// The records of the listing, in enumeration order.
    pub fn get_address_list(&self) -> (r: &Vec<Device>)
        ensures
            r == &self.0,
    {
        &self.0
    }
}

} // verus!
