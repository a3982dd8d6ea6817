use hackathon_badge::access::{AccessRule, Actor};
use hackathon_badge::address::{ComponentAddress, ResourceAddress, NODE_ID_LENGTH};

fn component(tag: u8) -> ComponentAddress {
    let mut node_id = [0u8; NODE_ID_LENGTH];
    node_id[0] = 0xc0;
    node_id[29] = tag;
    ComponentAddress::new(node_id)
}

fn resource(tag: u8) -> ResourceAddress {
    let mut node_id = [0u8; NODE_ID_LENGTH];
    node_id[0] = 0x9a;
    node_id[29] = tag;
    ResourceAddress::new(node_id)
}

#[test]
fn an_address_has_thirty_bytes() {
    assert_eq!(NODE_ID_LENGTH, 30);
    assert_eq!(component(1).node_id.len(), 30);
}

#[test]
fn addresses_are_equal_exactly_when_their_bytes_agree() {
    assert_eq!(component(1), component(1));
    assert_ne!(component(1), component(2));
    assert_eq!(resource(7), resource(7));
    assert_ne!(resource(7), resource(8));

    let mut first_byte_differs = [0u8; NODE_ID_LENGTH];
    first_byte_differs[0] = 1;
    assert_ne!(ResourceAddress::new(first_byte_differs), ResourceAddress::new([0u8; NODE_ID_LENGTH]));
    let mut last_byte_differs = [0u8; NODE_ID_LENGTH];
    last_byte_differs[29] = 1;
    assert_ne!(ComponentAddress::new(last_byte_differs), ComponentAddress::new([0u8; NODE_ID_LENGTH]));
}

#[test]
fn allow_all_lets_everyone_through() {
    assert!(AccessRule::AllowAll.evaluate(&Actor::component(component(1))));
    assert!(AccessRule::AllowAll.evaluate(&Actor::holder(vec![])));
}

#[test]
fn deny_all_lets_nobody_through() {
    assert!(!AccessRule::DenyAll.evaluate(&Actor::component(component(1))));
    assert!(!AccessRule::DenyAll.evaluate(&Actor::holder(vec![resource(1)])));
}

#[test]
fn global_caller_rule_compares_the_origin_of_the_call() {
    let rule = AccessRule::RequireGlobalCaller(component(1));
    assert!(rule.evaluate(&Actor::component(component(1))));
    assert!(!rule.evaluate(&Actor::component(component(2))));
    assert!(!rule.evaluate(&Actor::holder(vec![])));
    assert!(!rule.evaluate(&Actor::holder(vec![resource(1)])));
}

#[test]
fn global_caller_rule_ignores_credentials() {
    let rule = AccessRule::RequireGlobalCaller(component(1));
    let insider = Actor { global_caller: Some(component(1)), credentials: vec![resource(3)] };
    let outsider = Actor { global_caller: Some(component(2)), credentials: vec![resource(3)] };
    assert!(rule.evaluate(&insider));
    assert!(!rule.evaluate(&outsider));
}

#[test]
fn resource_rule_looks_for_the_credential() {
    let rule = AccessRule::RequireResource(resource(5));
    assert!(rule.evaluate(&Actor::holder(vec![resource(5)])));
    assert!(rule.evaluate(&Actor::holder(vec![resource(4), resource(5), resource(6)])));
    assert!(rule.evaluate(&Actor::holder(vec![resource(4), resource(6), resource(5)])));
    assert!(!rule.evaluate(&Actor::holder(vec![resource(4), resource(6)])));
    assert!(!rule.evaluate(&Actor::holder(vec![])));
    assert!(!rule.evaluate(&Actor::component(component(5))));
}

#[test]
fn has_credential_finds_what_is_shown() {
    let actor = Actor::holder(vec![resource(1), resource(2)]);
    assert!(actor.has_credential(&resource(1)));
    assert!(actor.has_credential(&resource(2)));
    assert!(!actor.has_credential(&resource(3)));
}

#[test]
fn actor_constructors_fill_the_fields() {
    let from_component = Actor::component(component(9));
    assert_eq!(from_component.global_caller, Some(component(9)));
    assert!(from_component.credentials.is_empty());
    let holder = Actor::holder(vec![resource(1)]);
    assert_eq!(holder.global_caller, None);
    assert_eq!(holder.credentials, vec![resource(1)]);
}
