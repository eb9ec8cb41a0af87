use agent_registry::address::{
    find_agent_address, find_feedback_address, find_registry_address, Address,
};
use anchor_lang::prelude::Pubkey;

fn filled(byte: u8) -> Address {
    Address::new([byte; 32])
}

#[test]
fn agent_address_matches_platform_search() {
    let program = filled(7);
    let owner = filled(9);
    let (expected, bump) = Pubkey::find_program_address(
        &[b"agent", &owner.bytes],
        &Pubkey::new_from_array(program.bytes),
    );
    let (address, found_bump) = find_agent_address(&program, &owner).unwrap();
    assert_eq!(address.bytes, expected.to_bytes());
    assert_eq!(found_bump, bump);
    assert_ne!(address.bytes, owner.bytes);
    assert_ne!(address.bytes, program.bytes);
}

#[test]
fn registry_address_matches_platform_search() {
    let program = filled(1);
    let (expected, bump) =
        Pubkey::find_program_address(&[b"registry"], &Pubkey::new_from_array(program.bytes));
    let (address, found_bump) = find_registry_address(&program).unwrap();
    assert_eq!(address.bytes, expected.to_bytes());
    assert_eq!(found_bump, bump);
}

#[test]
fn feedback_address_matches_platform_search() {
    let program = filled(1);
    let agent = filled(2);
    let reviewer = filled(3);
    let (expected, bump) = Pubkey::find_program_address(
        &[b"feedback", &agent.bytes, &reviewer.bytes],
        &Pubkey::new_from_array(program.bytes),
    );
    let (address, found_bump) = find_feedback_address(&program, &agent, &reviewer).unwrap();
    assert_eq!(address.bytes, expected.to_bytes());
    assert_eq!(found_bump, bump);
}

#[test]
fn derivation_is_repeatable_and_tells_identities_apart() {
    let program = filled(4);
    let first = find_agent_address(&program, &filled(10)).unwrap();
    let again = find_agent_address(&program, &filled(10)).unwrap();
    let other = find_agent_address(&program, &filled(11)).unwrap();
    assert_eq!(first.0.bytes, again.0.bytes);
    assert_eq!(first.1, again.1);
    assert_ne!(first.0.bytes, other.0.bytes);
    assert!(first.0.same_as(&again.0));
    assert!(!first.0.same_as(&other.0));
}
