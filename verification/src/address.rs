//! Addresses of resources and components.
//!
//! An address is the identity of an entity: thirty bytes that the platform
//! hands out. Two addresses name the same entity exactly when their bytes
//! agree.

use vstd::prelude::*;

verus! {

/// The number of bytes in an address.
pub const NODE_ID_LENGTH: usize = 30;

/// Whether two addresses hold the same bytes.
fn same_node_id(left: &[u8; NODE_ID_LENGTH], right: &[u8; NODE_ID_LENGTH]) -> (same: bool)
    ensures
        same == (*left == *right),
{
    let mut index: usize = 0;
    while index < NODE_ID_LENGTH
        invariant
            index <= NODE_ID_LENGTH,
            forall|k: int| 0 <= k < index ==> left[k] == right[k],
        decreases NODE_ID_LENGTH - index,
    {
        if left[index] != right[index] {
            return false;
        }
        index += 1;
    }
    assert(*left =~= *right);
    true
}

/// The address of a resource: a kind of token or badge.
#[derive(Clone, Copy, Debug)]
pub struct ResourceAddress {
    pub node_id: [u8; NODE_ID_LENGTH],
}

impl ResourceAddress {
    /// The resource address with the given bytes.
    pub fn new(node_id: [u8; NODE_ID_LENGTH]) -> (address: ResourceAddress)
        ensures
            address.node_id == node_id,
    {
        ResourceAddress { node_id }
    }
}

impl PartialEq for ResourceAddress {
    fn eq(&self, other: &ResourceAddress) -> (same: bool) {
        same_node_id(&self.node_id, &other.node_id)
    }
}

impl Eq for ResourceAddress {

}

impl vstd::std_specs::cmp::PartialEqSpecImpl for ResourceAddress {
    open spec fn obeys_eq_spec() -> bool {
        true
    }

    open spec fn eq_spec(&self, other: &ResourceAddress) -> bool {
        *self == *other
    }
}

/// The address of a component: a live instance with state and operations.
#[derive(Clone, Copy, Debug)]
pub struct ComponentAddress {
    pub node_id: [u8; NODE_ID_LENGTH],
}

impl ComponentAddress {
    /// The component address with the given bytes.
    pub fn new(node_id: [u8; NODE_ID_LENGTH]) -> (address: ComponentAddress)
        ensures
            address.node_id == node_id,
    {
        ComponentAddress { node_id }
    }
}

impl PartialEq for ComponentAddress {
    fn eq(&self, other: &ComponentAddress) -> (same: bool) {
        same_node_id(&self.node_id, &other.node_id)
    }
}

impl Eq for ComponentAddress {

}

impl vstd::std_specs::cmp::PartialEqSpecImpl for ComponentAddress {
    open spec fn obeys_eq_spec() -> bool {
        true
    }

    open spec fn eq_spec(&self, other: &ComponentAddress) -> bool {
        *self == *other
    }
}

} // verus!
