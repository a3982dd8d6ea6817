//! Access rules: who may use a right.
//!
//! A rule is a predicate on the party that makes a call. The platform
//! evaluates the rule of a right on every call that needs it; this module
//! says what each rule means.

use vstd::prelude::*;
use crate::address::{ComponentAddress, ResourceAddress};

verus! {

/// The party that makes a call, as the rules see it.
#[derive(Clone, Debug, PartialEq, Eq)]
pub struct Actor {
    /// The component from which the call originates, if it comes from one.
    pub global_caller: Option<ComponentAddress>,
    /// The resources of which the party shows a credential.
    pub credentials: Vec<ResourceAddress>,
}

/// A predicate on the party that makes a call.
#[derive(Clone, Copy, Debug, PartialEq, Eq)]
pub enum AccessRule {
    /// Anyone may.
    AllowAll,
    /// Nobody may.
    DenyAll,
    /// The call must originate from the component at this address.
    RequireGlobalCaller(ComponentAddress),
    /// The party must show a credential of this resource.
    RequireResource(ResourceAddress),
}

/// Who owns an entity, and whether the owner can be replaced.
#[derive(Clone, Copy, Debug, PartialEq, Eq)]
pub enum OwnerRole {
    /// The entity has no owner.
    Unowned,
    /// The owner is whoever meets the rule, for good.
    Fixed(AccessRule),
    /// The owner is whoever meets the rule, and may name another.
    Updatable(AccessRule),
}

impl Actor {
    /// A call that originates from the component at `address` and shows no
    /// credential.
    pub fn component(address: ComponentAddress) -> (actor: Actor)
        ensures
            actor.global_caller == Some(address),
            actor.credentials@ == Seq::<ResourceAddress>::empty(),
    {
        Actor { global_caller: Some(address), credentials: Vec::new() }
    }

    /// A call from outside any component, by a party that shows the given
    /// credentials.
    pub fn holder(credentials: Vec<ResourceAddress>) -> (actor: Actor)
        ensures
            actor.global_caller == None::<ComponentAddress>,
            actor.credentials == credentials,
    {
        Actor { global_caller: None, credentials }
    }

    /// Whether the party shows a credential of `resource`.
    pub open spec fn shows(self, resource: ResourceAddress) -> bool {
        self.credentials@.contains(resource)
    }

    /// Whether the party shows a credential of `resource`.
    pub fn has_credential(&self, resource: &ResourceAddress) -> (found: bool)
        ensures
            found == self.shows(*resource),
    {
        let mut index: usize = 0;
        while index < self.credentials.len()
            invariant
                index <= self.credentials.len(),
                forall|k: int| 0 <= k < index ==> self.credentials@[k] != *resource,
            decreases self.credentials.len() - index,
        {
            if self.credentials[index] == *resource {
                return true;
            }
            index += 1;
        }
        false
    }
}

impl AccessRule {
    /// Whether the rule lets `actor` through.
    pub open spec fn permits(self, actor: Actor) -> bool {
        match self {
            AccessRule::AllowAll => true,
            AccessRule::DenyAll => false,
            AccessRule::RequireGlobalCaller(component) => actor.global_caller == Some(component),
            AccessRule::RequireResource(resource) => actor.shows(resource),
        }
    }

    /// Evaluates the rule on the party that makes a call.
    pub fn evaluate(&self, actor: &Actor) -> (allowed: bool)
        ensures
            allowed == self.permits(*actor),
    {
        match self {
            AccessRule::AllowAll => true,
            AccessRule::DenyAll => false,
            AccessRule::RequireGlobalCaller(component) => match &actor.global_caller {
                Some(caller) => *caller == *component,
                None => false,
            },
            AccessRule::RequireResource(resource) => actor.has_credential(resource),
        }
    }
}

} // verus!
