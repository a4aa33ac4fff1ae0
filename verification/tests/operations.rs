use boring_bridge_holder::config::ConfigurationData;
use boring_bridge_holder::state::BoringState;
use boring_bridge_holder::{
    initialize, requires_auth, transfer_ownership, update_configuration, update_strategist,
    CustomError, Initialize, UpdateOwner,
};

fn key(b: u8) -> [u8; 32] {
    [b; 32]
}

fn sample_config(seed: u8) -> ConfigurationData {
    ConfigurationData {
        target_program: key(seed),
        noop: key(seed.wrapping_add(1)),
        token_pda: key(seed.wrapping_add(2)),
        mailbox_program: key(seed.wrapping_add(3)),
        mailbox_outbox: key(seed.wrapping_add(4)),
        message_dispatch_authority: key(seed.wrapping_add(5)),
        igp_program: key(seed.wrapping_add(6)),
        igp_program_data: key(seed.wrapping_add(7)),
        igp_account: key(seed.wrapping_add(8)),
        token_sender: key(seed.wrapping_add(9)),
        token_2022_program: key(seed.wrapping_add(10)),
        mint_auth: key(seed.wrapping_add(11)),
        destination_domain: seed as u32,
        evm_recipient: key(seed.wrapping_add(12)),
        decimals: 6,
    }
}

fn sample_state() -> BoringState {
    let ctx = Initialize { boring_account: key(40), signer: key(41), bump: 254 };
    let (state, _, _) = initialize(&ctx, key(42), key(43), &sample_config(1));
    state
}

#[test]
fn requires_auth_accepts_matching_key() {
    assert_eq!(requires_auth(key(1), key(1)), Ok(()));
}

#[test]
fn requires_auth_rejects_mismatch() {
    assert_eq!(requires_auth(key(1), key(2)), Err(CustomError::Unauthorized));
    let mut nearly = key(1);
    nearly[31] ^= 1;
    assert_eq!(requires_auth(key(1), nearly), Err(CustomError::Unauthorized));
}

#[test]
fn initialize_sets_roles_commitment_and_events() {
    let ctx = Initialize { boring_account: key(40), signer: key(41), bump: 254 };
    let config = sample_config(1);
    let (state, initialized, config_event) = initialize(&ctx, key(42), key(43), &config);

    assert_eq!(state.creator, key(41));
    assert_eq!(state.owner, key(42));
    assert_eq!(state.strategist, key(43));
    assert_eq!(state.bump, 254);
    assert_eq!(state.config_hash, config.compute_hash());

    assert_eq!(initialized.boring_account, key(40));
    assert_eq!(initialized.creator, key(41));
    assert_eq!(initialized.bump, 254);
    assert_eq!(initialized.owner, key(42));
    assert_eq!(initialized.strategist, key(43));

    assert_eq!(config_event.config_hash, config.compute_hash());
    assert_eq!(config_event.target_program, config.target_program);
    assert_eq!(config_event.destination_domain, config.destination_domain);
    assert_eq!(config_event.evm_recipient, config.evm_recipient);
    assert_eq!(config_event.decimals, config.decimals);
}

#[test]
fn transfer_ownership_by_owner_updates_owner_only() {
    let mut state = sample_state();
    let ctx = UpdateOwner { signer: state.owner };
    let r = transfer_ownership(&mut state, &ctx, key(50));
    let event = r.unwrap();
    assert_eq!(event.old_owner, key(42));
    assert_eq!(event.new_owner, key(50));
    assert_eq!(state.owner, key(50));
    assert_eq!(state.creator, key(41));
    assert_eq!(state.strategist, key(43));
    assert_eq!(state.bump, 254);
    assert_eq!(state.config_hash, sample_config(1).compute_hash());
}

#[test]
fn transfer_ownership_by_non_owner_fails_unchanged() {
    let mut state = sample_state();
    let before = state;
    let ctx = UpdateOwner { signer: key(99) };
    let r = transfer_ownership(&mut state, &ctx, key(50));
    assert_eq!(r, Err(CustomError::Unauthorized));
    assert_eq!(state.creator, before.creator);
    assert_eq!(state.owner, before.owner);
    assert_eq!(state.strategist, before.strategist);
    assert_eq!(state.config_hash, before.config_hash);
    assert_eq!(state.bump, before.bump);
}

#[test]
fn update_strategist_by_owner_updates_strategist_only() {
    let mut state = sample_state();
    let ctx = UpdateOwner { signer: state.owner };
    let r = update_strategist(&mut state, &ctx, key(60));
    let event = r.unwrap();
    assert_eq!(event.old_strategist, key(43));
    assert_eq!(event.new_strategist, key(60));
    assert_eq!(state.strategist, key(60));
    assert_eq!(state.owner, key(42));
    assert_eq!(state.creator, key(41));
}

#[test]
fn update_strategist_by_strategist_fails_unchanged() {
    let mut state = sample_state();
    let before = state;
    let ctx = UpdateOwner { signer: state.strategist };
    let r = update_strategist(&mut state, &ctx, key(60));
    assert_eq!(r, Err(CustomError::Unauthorized));
    assert_eq!(state.strategist, before.strategist);
    assert_eq!(state.owner, before.owner);
}

#[test]
fn update_configuration_by_owner_installs_new_commitment() {
    let mut state = sample_state();
    let new_config = sample_config(2);
    let ctx = UpdateOwner { signer: state.owner };
    let r = update_configuration(&mut state, &ctx, &new_config);
    let event = r.unwrap();
    assert_eq!(state.config_hash, new_config.compute_hash());
    assert_eq!(event.config_hash, new_config.compute_hash());
    assert_eq!(event.mint_auth, new_config.mint_auth);
    assert_eq!(state.owner, key(42));
    assert_eq!(state.strategist, key(43));
}

#[test]
fn update_configuration_by_non_owner_fails_unchanged() {
    let mut state = sample_state();
    let before = state;
    let ctx = UpdateOwner { signer: key(99) };
    let r = update_configuration(&mut state, &ctx, &sample_config(2));
    assert_eq!(r, Err(CustomError::Unauthorized));
    assert_eq!(state.config_hash, before.config_hash);
}

#[test]
fn state_encoding_round_trips() {
    let state = sample_state();
    let bytes = state.encode();
    assert_eq!(bytes.len(), 129);
    let decoded = BoringState::decode(&bytes).unwrap();
    assert_eq!(decoded.creator, state.creator);
    assert_eq!(decoded.owner, state.owner);
    assert_eq!(decoded.strategist, state.strategist);
    assert_eq!(decoded.config_hash, state.config_hash);
    assert_eq!(decoded.bump, state.bump);
}

#[test]
fn state_decode_rejects_wrong_length() {
    let state = sample_state();
    let mut bytes = state.encode();
    bytes.push(0);
    assert!(BoringState::decode(&bytes).is_none());
    let empty: Vec<u8> = Vec::new();
    assert!(BoringState::decode(&empty).is_none());
}

#[test]
fn state_encoding_layout_is_fixed_width_in_field_order() {
    let state = sample_state();
    let bytes = state.encode();
    let mut expected: Vec<u8> = Vec::new();
    expected.extend_from_slice(&state.creator);
    expected.extend_from_slice(&state.owner);
    expected.extend_from_slice(&state.strategist);
    expected.extend_from_slice(&state.config_hash);
    expected.push(state.bump);
    assert_eq!(bytes, expected);
}
