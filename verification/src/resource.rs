//! The registry of badges.
//!
//! A registry is created once, with the rules that say who may mint into it,
//! who may change a badge's data and who may take a badge back. It numbers the
//! badges it mints in the order of minting, so that no two of them share an
//! identifier.

use vstd::prelude::*;
use crate::access::{AccessRule, Actor, OwnerRole};
use crate::hacker::{Hacker, HackerView};

verus! {

/// The rights on a registry, each with the rule that guards it. The rule of
/// a right whose name ends in `updater` guards the changing of the rule
/// named before it.
#[derive(Clone, Copy, Debug, PartialEq, Eq)]
pub struct ResourceRoles {
    pub owner: OwnerRole,
    pub minter: AccessRule,
    pub minter_updater: AccessRule,
    pub non_fungible_data_updater: AccessRule,
    pub non_fungible_data_updater_updater: AccessRule,
    pub recaller: AccessRule,
    pub recaller_updater: AccessRule,
}

/// What a registry shows of itself.
#[derive(Clone, Debug, PartialEq, Eq)]
pub struct ResourceMetadata {
    pub name: String,
    pub symbol: String,
    pub info_url: String,
    pub icon_url: String,
}

/// What a registry shows of itself, as text.
pub struct ResourceMetadataView {
    pub name: Seq<char>,
    pub symbol: Seq<char>,
    pub info_url: Seq<char>,
    pub icon_url: Seq<char>,
}

impl View for ResourceMetadata {
    type V = ResourceMetadataView;

    open spec fn view(&self) -> ResourceMetadataView {
        ResourceMetadataView {
            name: self.name@,
            symbol: self.symbol@,
            info_url: self.info_url@,
            icon_url: self.icon_url@,
        }
    }
}

/// The identifier of a badge within its registry: its place in the order of
/// minting, counted from zero.
#[derive(Clone, Copy, Debug, PartialEq, Eq, Structural)]
pub struct NonFungibleLocalId {
    pub serial: u64,
}

/// A minted badge: its identifier and its data, as text.
pub struct NonFungibleView {
    pub local_id: NonFungibleLocalId,
    pub data: HackerView,
}

/// What a successful mint hands to the caller: the one badge just minted,
/// named by its identifier.
#[derive(Clone, Copy, Debug, PartialEq, Eq, Structural)]
pub struct Bucket {
    pub local_id: NonFungibleLocalId,
}

/// Why a registry refused to mint.
#[derive(Clone, Copy, Debug, PartialEq, Eq, Structural)]
pub enum MintError {
    /// The rule of the mint right does not let the caller through.
    Unauthorized,
}

/// A registry of badges, with its rules.
#[derive(Clone, Debug)]
pub struct ResourceManager {
    roles: ResourceRoles,
    metadata: ResourceMetadata,
    minted: Vec<Hacker>,
}

/// The state of a registry: its rules, what it shows of itself and the
/// badges minted so far, oldest first.
pub struct ResourceManagerView {
    pub roles: ResourceRoles,
    pub metadata: ResourceMetadataView,
    pub minted: Seq<NonFungibleView>,
}

impl View for ResourceManager {
    type V = ResourceManagerView;

    closed spec fn view(&self) -> ResourceManagerView {
        ResourceManagerView {
            roles: self.roles,
            metadata: self.metadata@,
            minted: Seq::new(
                self.minted@.len(),
                |i: int| NonFungibleView {
                    local_id: NonFungibleLocalId { serial: i as u64 },
                    data: self.minted@[i]@,
                },
            ),
        }
    }
}

impl ResourceManagerView {
    /// Each badge carries its place in the order of minting as identifier.
    pub open spec fn numbered_in_order(self) -> bool {
        forall|i: int| 0 <= i < self.minted.len() ==> (#[trigger] self.minted[i]).local_id.serial == i
    }

    /// How many badges have been minted.
    pub open spec fn total_supply(self) -> nat {
        self.minted.len()
    }

    /// The state after one more badge with the given data has been minted.
    pub open spec fn after_mint(self, data: HackerView) -> ResourceManagerView {
        ResourceManagerView {
            roles: self.roles,
            metadata: self.metadata,
            minted: self.minted.push(
                NonFungibleView {
                    local_id: NonFungibleLocalId { serial: self.minted.len() as u64 },
                    data,
                },
            ),
        }
    }
}

impl ResourceManager {
    /// Creates a registry with the given rules and no badge in it.
    pub fn create_with_no_initial_supply(roles: ResourceRoles, metadata: ResourceMetadata) -> (manager:
        ResourceManager)
        ensures
            manager@.roles == roles,
            manager@.metadata == metadata@,
            manager@.minted == Seq::<NonFungibleView>::empty(),
    {
        let manager = ResourceManager { roles, metadata, minted: Vec::new() };
        assert(manager@.minted =~= Seq::<NonFungibleView>::empty());
        manager
    }

    /// Mints one badge with the given data on behalf of `actor`.
    ///
    /// The registry evaluates the rule of its mint right on `actor`. Where
    /// the rule lets the actor through, the badge gets the next identifier and
    /// is handed out; otherwise nothing changes.
    pub fn mint_non_fungible(&mut self, actor: &Actor, data: Hacker) -> (minted: Result<
        Bucket,
        MintError,
    >)
        ensures
            old(self)@.roles.minter.permits(*actor) ==> minted == Ok::<Bucket, MintError>(
                Bucket { local_id: NonFungibleLocalId { serial: old(self)@.minted.len() as u64 } },
            ) && final(self)@ == old(self)@.after_mint(data@),
            !old(self)@.roles.minter.permits(*actor) ==> minted == Err::<Bucket, MintError>(
                MintError::Unauthorized,
            ) && *final(self) == *old(self),
    {
        if !self.roles.minter.evaluate(actor) {
            return Err(MintError::Unauthorized);
        }
        let local_id = NonFungibleLocalId { serial: self.minted.len() as u64 };
        self.minted.push(data);
        assert(self@.minted =~= old(self)@.after_mint(data@).minted);
        Ok(Bucket { local_id })
    }

    /// The rules of the registry.
    pub fn roles(&self) -> (roles: &ResourceRoles)
        ensures
            *roles == self@.roles,
    {
        &self.roles
    }

    /// What the registry shows of itself.
    pub fn metadata(&self) -> (metadata: &ResourceMetadata)
        ensures
            metadata@ == self@.metadata,
    {
        &self.metadata
    }

    /// How many badges have been minted.
    pub fn total_supply(&self) -> (count: u64)
        ensures
            count == self@.total_supply(),
    {
        self.minted.len() as u64
    }

    /// The data of the badge with the given identifier, if it was minted.
    pub fn get_non_fungible_data(&self, local_id: NonFungibleLocalId) -> (data: Option<&Hacker>)
        ensures
            match data {
                Some(found) => local_id.serial < self@.total_supply() && found@
                    == self@.minted[local_id.serial as int].data,
                None => local_id.serial >= self@.total_supply(),
            },
    {
        if local_id.serial < self.minted.len() as u64 {
            Some(&self.minted[local_id.serial as usize])
        } else {
            None
        }
    }
}

/// Every registry numbers its badges in the order of minting.
pub proof fn lemma_badges_are_numbered_in_order(manager: ResourceManager)
    ensures
        manager@.numbered_in_order(),
{
    assert(manager.minted.len() == manager.minted@.len());
}

/// No two badges of one registry share an identifier.
pub proof fn lemma_identifiers_are_unique(manager: ResourceManager, first: int, second: int)
    requires
        0 <= first < manager@.total_supply(),
        0 <= second < manager@.total_supply(),
        first != second,
    ensures
        manager@.minted[first].local_id != manager@.minted[second].local_id,
{
    lemma_badges_are_numbered_in_order(manager);
}

/// A mint gives the new badge an identifier that no badge of the registry
/// had before, and leaves the badges minted before as they were.
pub proof fn lemma_mint_takes_a_fresh_identifier(manager: ResourceManager, data: HackerView, earlier: int)
    requires
        0 <= earlier < manager@.total_supply(),
    ensures
        manager@.after_mint(data).minted[earlier] == manager@.minted[earlier],
        manager@.after_mint(data).minted.last().local_id != manager@.minted[earlier].local_id,
{
    lemma_badges_are_numbered_in_order(manager);
    assert(manager.minted.len() == manager.minted@.len());
}

} // verus!
