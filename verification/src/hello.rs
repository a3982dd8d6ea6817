//! The issuing component.
//!
//! Setup creates the registry of badges with its rules and fixes the deadline
//! seven days later. After that the component does one thing: it hands one
//! badge to whoever claims one in time and names a team.

use vstd::prelude::*;
use crate::access::{AccessRule, Actor, OwnerRole};
use crate::address::{ComponentAddress, ResourceAddress};
use crate::error::BadgeError;
use crate::hacker::{badge_of, Hacker};
use crate::resource::{
    lemma_identifiers_are_unique,
    Bucket,
    NonFungibleLocalId,
    ResourceManager,
    ResourceManagerView,
    ResourceMetadata,
    ResourceMetadataView,
    ResourceRoles,
};
use crate::time::{Instant, TimeComparisonOperator};

verus! {

/// For how many days after setup badges can be claimed.
pub const CLAIM_PERIOD_DAYS: i64 = 7;

/// The display name of the registry.
pub const RESOURCE_NAME: &'static str = "Radix x EBC Hackathon 2024";

/// The symbol of the registry.
pub const RESOURCE_SYMBOL: &'static str = "HACK2024";

/// Where to read more about the registry.
pub const RESOURCE_INFO_URL: &'static str = "https://www.radixdlt.com/";

/// The icon of the registry and of the component.
pub const ICON_URL: &'static str =
    "https://cdn.prod.website-files.com/6053f7fca5bf627283b582c2/6266da24f1cf78c68fb0c215_Radix-Icon-Transparent-400x400.png";

/// The display name of the component.
pub const COMPONENT_NAME: &'static str = "Hackathon Radix x EBC 2024";

/// The description of the component.
pub const COMPONENT_DESCRIPTION: &'static str = "A POA for the Radix x EBC Hackathon 2024";

/// The rights on the component's own metadata, each with the rule that
/// guards it.
#[derive(Clone, Copy, Debug, PartialEq, Eq)]
pub struct ComponentRoles {
    pub owner: OwnerRole,
    pub metadata_setter: AccessRule,
    pub metadata_setter_updater: AccessRule,
    pub metadata_locker: AccessRule,
    pub metadata_locker_updater: AccessRule,
}

/// What the component shows of itself.
#[derive(Clone, Debug, PartialEq, Eq)]
pub struct ComponentMetadata {
    pub name: String,
    pub description: String,
    pub dapp_definition: ComponentAddress,
    pub icon_url: String,
}

/// What the component shows of itself, as text.
pub struct ComponentMetadataView {
    pub name: Seq<char>,
    pub description: Seq<char>,
    pub dapp_definition: ComponentAddress,
    pub icon_url: Seq<char>,
}

impl View for ComponentMetadata {
    type V = ComponentMetadataView;

    open spec fn view(&self) -> ComponentMetadataView {
        ComponentMetadataView {
            name: self.name@,
            description: self.description@,
            dapp_definition: self.dapp_definition,
            icon_url: self.icon_url@,
        }
    }
}

/// The rules of the registry of a component at `component` whose owner is
/// whoever shows a credential of `owner`: only calls that originate from the
/// component mint; everything else is the owner's.
pub open spec fn registry_roles(owner: ResourceAddress, component: ComponentAddress) -> ResourceRoles {
    ResourceRoles {
        owner: OwnerRole::Fixed(AccessRule::RequireResource(owner)),
        minter: AccessRule::RequireGlobalCaller(component),
        minter_updater: AccessRule::RequireResource(owner),
        non_fungible_data_updater: AccessRule::RequireResource(owner),
        non_fungible_data_updater_updater: AccessRule::RequireResource(owner),
        recaller: AccessRule::RequireResource(owner),
        recaller_updater: AccessRule::RequireResource(owner),
    }
}

/// What the registry shows of itself.
pub open spec fn registry_metadata() -> ResourceMetadataView {
    ResourceMetadataView {
        name: RESOURCE_NAME@,
        symbol: RESOURCE_SYMBOL@,
        info_url: RESOURCE_INFO_URL@,
        icon_url: ICON_URL@,
    }
}

/// The rules on the component's own metadata: the owner is fixed, and nobody
/// may set or lock an entry, nor change who may.
pub open spec fn component_roles(owner: ResourceAddress) -> ComponentRoles {
    ComponentRoles {
        owner: OwnerRole::Fixed(AccessRule::RequireResource(owner)),
        metadata_setter: AccessRule::DenyAll,
        metadata_setter_updater: AccessRule::DenyAll,
        metadata_locker: AccessRule::DenyAll,
        metadata_locker_updater: AccessRule::DenyAll,
    }
}

/// What the component shows of itself.
pub open spec fn component_metadata(dapp_def: ComponentAddress) -> ComponentMetadataView {
    ComponentMetadataView {
        name: COMPONENT_NAME@,
        description: COMPONENT_DESCRIPTION@,
        dapp_definition: dapp_def,
        icon_url: ICON_URL@,
    }
}

/// Why a claim that arrives at `current_time` for the team called `team_name`
/// is refused by a component with the deadline `end_date`, if it is. The time
/// is looked at first, the team name second.
pub open spec fn claim_refusal(end_date: Instant, current_time: Instant, team_name: Seq<char>) -> Option<
    BadgeError,
> {
    if current_time.seconds_since_unix_epoch >= end_date.seconds_since_unix_epoch {
        Some(BadgeError::DeadlineExpired)
    } else if team_name.len() == 0 {
        Some(BadgeError::InvalidInput)
    } else {
        None
    }
}

/// The issuing component: its registry and its deadline, with the address it
/// lives at and the rules on its own metadata.
#[derive(Debug)]
pub struct Hello {
    address: ComponentAddress,
    roles: ComponentRoles,
    metadata: ComponentMetadata,
    manager: ResourceManager,
    end_date: Instant,
}

/// The state of the issuing component.
pub struct HelloView {
    pub address: ComponentAddress,
    pub roles: ComponentRoles,
    pub metadata: ComponentMetadataView,
    pub manager: ResourceManagerView,
    pub end_date: Instant,
}

impl View for Hello {
    type V = HelloView;

    closed spec fn view(&self) -> HelloView {
        HelloView {
            address: self.address,
            roles: self.roles,
            metadata: self.metadata@,
            manager: self.manager@,
            end_date: self.end_date,
        }
    }
}

impl HelloView {
    /// The state right after setup.
    pub open spec fn at_setup(
        owner_resource_address: ResourceAddress,
        dapp_def: ComponentAddress,
        component_address: ComponentAddress,
        end_date: Instant,
    ) -> HelloView {
        HelloView {
            address: component_address,
            roles: component_roles(owner_resource_address),
            metadata: component_metadata(dapp_def),
            manager: ResourceManagerView {
                roles: registry_roles(owner_resource_address, component_address),
                metadata: registry_metadata(),
                minted: Seq::empty(),
            },
            end_date,
        }
    }

    /// The state after one more badge has gone to the team called
    /// `team_name`: the registry holds that badge as its newest, and nothing
    /// else has changed.
    pub open spec fn after_claim(self, team_name: Seq<char>) -> HelloView {
        HelloView {
            address: self.address,
            roles: self.roles,
            metadata: self.metadata,
            manager: self.manager.after_mint(badge_of(team_name)),
            end_date: self.end_date,
        }
    }

    /// The mint right of the registry is guarded by the rule that lets
    /// through calls from the component's own address and no others.
    pub open spec fn mints_for_itself_only(self) -> bool {
        self.manager.roles.minter == AccessRule::RequireGlobalCaller(self.address)
    }
}

impl Hello {
    /// What holds of every component: it alone may mint into its registry.
    pub open spec fn well_formed(&self) -> bool {
        self@.mints_for_itself_only()
    }

    /// Sets the component up at the address reserved for it.
    ///
    /// Creates the registry with its rules, fixes the deadline seven days
    /// after `current_time`, and attaches the component's own metadata with
    /// the rules that keep it as it is. Fails, and sets nothing up, where the
    /// deadline would lie beyond the representable time range.
    pub fn instantiate_hello(
        owner_resource_address: ResourceAddress,
        dapp_def: ComponentAddress,
        component_address: ComponentAddress,
        current_time: Instant,
    ) -> (created: Result<Hello, BadgeError>)
        ensures
            match created {
                Ok(hello) => {
                    &&& current_time.seconds_since_unix_epoch + 7 * 86_400 <= i64::MAX
                    &&& hello@.end_date.seconds_since_unix_epoch
                        == current_time.seconds_since_unix_epoch + 7 * 86_400
                    &&& hello@ == HelloView::at_setup(
                        owner_resource_address,
                        dapp_def,
                        component_address,
                        hello@.end_date,
                    )
                    &&& hello.well_formed()
                },
                Err(error) => {
                    &&& current_time.seconds_since_unix_epoch + 7 * 86_400 > i64::MAX
                    &&& error == BadgeError::SetupOverflow
                },
            },
    {
        let global_caller_badge_rule = AccessRule::RequireGlobalCaller(component_address);
        let owner_rule = AccessRule::RequireResource(owner_resource_address);

        let manager = ResourceManager::create_with_no_initial_supply(
            ResourceRoles {
                owner: OwnerRole::Fixed(owner_rule),
                minter: global_caller_badge_rule,
                minter_updater: owner_rule,
                non_fungible_data_updater: owner_rule,
                non_fungible_data_updater_updater: owner_rule,
                recaller: owner_rule,
                recaller_updater: owner_rule,
            },
            ResourceMetadata {
                name: RESOURCE_NAME.to_owned(),
                symbol: RESOURCE_SYMBOL.to_owned(),
                info_url: RESOURCE_INFO_URL.to_owned(),
                icon_url: ICON_URL.to_owned(),
            },
        );

        let end_date = match current_time.add_days(CLAIM_PERIOD_DAYS) {
            Some(end_date) => end_date,
            None => {
                return Err(BadgeError::SetupOverflow);
            },
        };

        Ok(
            Hello {
                address: component_address,
                roles: ComponentRoles {
                    owner: OwnerRole::Fixed(owner_rule),
                    metadata_setter: AccessRule::DenyAll,
                    metadata_setter_updater: AccessRule::DenyAll,
                    metadata_locker: AccessRule::DenyAll,
                    metadata_locker_updater: AccessRule::DenyAll,
                },
                metadata: ComponentMetadata {
                    name: COMPONENT_NAME.to_owned(),
                    description: COMPONENT_DESCRIPTION.to_owned(),
                    dapp_definition: dapp_def,
                    icon_url: ICON_URL.to_owned(),
                },
                manager,
                end_date,
            },
        )
    }

    /// Decides on a claim that arrives at `current_time` for a component
    /// with the deadline `end_date`, and fills in the badge to mint.
    ///
    /// The claim is refused where it does not arrive strictly before the
    /// deadline, and else where the team name is empty.
    pub fn examine_claim(end_date: Instant, current_time: Instant, team_name: String) -> (examined:
        Result<Hacker, BadgeError>)
        ensures
            match claim_refusal(end_date, current_time, team_name@) {
                Some(error) => examined == Err::<Hacker, BadgeError>(error),
                None => examined matches Ok(data) && data@ == badge_of(team_name@),
            },
    {
        if !current_time.compare(end_date, TimeComparisonOperator::Lt) {
            return Err(BadgeError::DeadlineExpired);
        }
        if team_name.as_str().is_empty() {
            return Err(BadgeError::InvalidInput);
        }
        Ok(Hacker::new(team_name))
    }

    /// Hands one badge to the team called `team_name`, for a claim that
    /// arrives at `current_time`.
    ///
    /// A claim in time with a team name mints exactly one badge, which
    /// carries that name and the next identifier. A claim at or after the
    /// deadline is refused as expired, whatever the team name; a claim in
    /// time with an empty team name is refused as invalid. So a claim with
    /// an empty team name is refused at any time. A refused claim changes
    /// nothing. The deadline never changes.
    ///
    /// The mint goes through the registry, which evaluates the rule of its
    /// mint right; the rule lets the call through because it is the
    /// component's own.
    pub fn get_hackathon_badge(&mut self, current_time: Instant, team_name: String) -> (claimed:
        Result<Bucket, BadgeError>)
        requires
            old(self).well_formed(),
        ensures
            final(self).well_formed(),
            final(self)@.end_date == old(self)@.end_date,
            current_time.seconds_since_unix_epoch < old(self)@.end_date.seconds_since_unix_epoch
                && team_name@.len() >= 1 ==> {
                &&& claimed == Ok::<Bucket, BadgeError>(
                    Bucket {
                        local_id: NonFungibleLocalId {
                            serial: old(self)@.manager.total_supply() as u64,
                        },
                    },
                )
                &&& final(self)@ == old(self)@.after_claim(team_name@)
                &&& final(self)@.manager.total_supply() == old(self)@.manager.total_supply() + 1
                &&& final(self)@.manager.minted.last().data.team_name == team_name@
            },
            current_time.seconds_since_unix_epoch >= old(self)@.end_date.seconds_since_unix_epoch
                ==> {
                &&& claimed == Err::<Bucket, BadgeError>(BadgeError::DeadlineExpired)
                &&& *final(self) == *old(self)
            },
            current_time.seconds_since_unix_epoch < old(self)@.end_date.seconds_since_unix_epoch
                && team_name@.len() == 0 ==> {
                &&& claimed == Err::<Bucket, BadgeError>(BadgeError::InvalidInput)
                &&& *final(self) == *old(self)
            },
            team_name@.len() == 0 ==> claimed is Err && *final(self) == *old(self),
    {
        let data = match Hello::examine_claim(self.end_date, current_time, team_name) {
            Ok(data) => data,
            Err(error) => {
                return Err(error);
            },
        };
        let own_call = Actor::component(self.address);
        assert(self@.manager.roles.minter.permits(own_call));
        match self.manager.mint_non_fungible(&own_call, data) {
            Ok(bucket) => Ok(bucket),
            Err(_) => vstd::pervasive::unreached(),
        }
    }

    /// The address the component lives at.
    pub fn address(&self) -> (address: ComponentAddress)
        ensures
            address == self@.address,
    {
        self.address
    }

    /// The rules on the component's own metadata.
    pub fn roles(&self) -> (roles: &ComponentRoles)
        ensures
            *roles == self@.roles,
    {
        &self.roles
    }

    /// What the component shows of itself.
    pub fn metadata(&self) -> (metadata: &ComponentMetadata)
        ensures
            metadata@ == self@.metadata,
    {
        &self.metadata
    }

    /// The registry of badges.
    pub fn manager(&self) -> (manager: &ResourceManager)
        ensures
            manager@ == self@.manager,
    {
        &self.manager
    }

    /// The deadline: claims must arrive strictly before it.
    pub fn end_date(&self) -> (end_date: Instant)
        ensures
            end_date == self@.end_date,
    {
        self.end_date
    }
}

/// No two badges that a component has handed out share an identifier.
pub proof fn lemma_claimed_badges_differ_in_identifier(hello: Hello, first: int, second: int)
    requires
        0 <= first < hello@.manager.total_supply(),
        0 <= second < hello@.manager.total_supply(),
        first != second,
    ensures
        hello@.manager.minted[first].local_id != hello@.manager.minted[second].local_id,
{
    lemma_identifiers_are_unique(hello.manager, first, second);
}

/// Only the component itself can mint into its registry: the rule of the
/// mint right lets a call through exactly when the call originates from the
/// component's own address, whatever credentials the caller shows.
pub proof fn lemma_only_the_component_mints(hello: Hello, actor: Actor)
    requires
        hello.well_formed(),
    ensures
        hello@.manager.roles.minter.permits(actor) <==> actor.global_caller == Some(hello@.address),
{
}

} // verus!
