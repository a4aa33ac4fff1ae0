use boring_bridge_holder::config::ConfigurationData;
use boring_bridge_holder::state::BoringState;
use boring_bridge_holder::transfer_remote::{
    create_account_infos, create_account_metas, TransferRemoteContext,
};
use boring_bridge_holder::{
    initialize, transfer_remote, update_configuration, CustomError, Initialize, UpdateOwner,
};

fn key(b: u8) -> [u8; 32] {
    [b; 32]
}

fn sample_context() -> TransferRemoteContext {
    TransferRemoteContext {
        boring_account: key(20),
        signer: key(43),
        target_program: key(1),
        system_program: key(21),
        noop: key(2),
        token_pda: key(3),
        mailbox_program: key(4),
        mailbox_outbox: key(5),
        message_dispatch_authority: key(6),
        unique_message: key(22),
        message_storage_pda: key(23),
        igp_program: key(7),
        igp_program_data: key(8),
        gas_payment_pda: key(24),
        igp_account: key(9),
        token_sender: key(10),
        token_2022: key(11),
        mint_auth: key(12),
        boring_account_ata: key(25),
        strategist_ata: key(26),
    }
}

/// The snapshot that `sample_context` presents for the given parameters.
fn matching_config(destination_domain: u32, evm_recipient: [u8; 32], decimals: u8)
    -> ConfigurationData {
    let a = sample_context();
    ConfigurationData {
        target_program: a.target_program,
        noop: a.noop,
        token_pda: a.token_pda,
        mailbox_program: a.mailbox_program,
        mailbox_outbox: a.mailbox_outbox,
        message_dispatch_authority: a.message_dispatch_authority,
        igp_program: a.igp_program,
        igp_program_data: a.igp_program_data,
        igp_account: a.igp_account,
        token_sender: a.token_sender,
        token_2022_program: a.token_2022,
        mint_auth: a.mint_auth,
        destination_domain,
        evm_recipient,
        decimals,
    }
}

fn sample_state() -> BoringState {
    let ctx = Initialize { boring_account: key(20), signer: key(41), bump: 253 };
    let (state, _, _) = initialize(&ctx, key(42), key(43), &matching_config(1, key(13), 6));
    state
}

#[test]
fn transfer_remote_by_non_strategist_is_unauthorized() {
    let state = sample_state();
    let mut accounts = sample_context();
    accounts.signer = key(99);
    for amount in [0u64, 1, 1000] {
        let r = transfer_remote(&state, &accounts, 1, key(13), 6, amount);
        assert!(matches!(r, Err(CustomError::Unauthorized)));
    }
}

#[test]
fn transfer_remote_with_stale_snapshot_is_invalid_configuration() {
    let state = sample_state();

    // A perturbed account set no longer matches the stored commitment.
    let mut accounts = sample_context();
    accounts.mailbox_outbox = key(99);
    for amount in [0u64, 1, u64::MAX] {
        let r = transfer_remote(&state, &accounts, 1, key(13), 6, amount);
        assert!(matches!(r, Err(CustomError::InvalidConfiguration)));
    }

    // So do changed call parameters under the unchanged accounts.
    let accounts = sample_context();
    let r = transfer_remote(&state, &accounts, 2, key(13), 6, 5);
    assert!(matches!(r, Err(CustomError::InvalidConfiguration)));
    let r = transfer_remote(&state, &accounts, 1, key(14), 6, 5);
    assert!(matches!(r, Err(CustomError::InvalidConfiguration)));
    let r = transfer_remote(&state, &accounts, 1, key(13), 9, 5);
    assert!(matches!(r, Err(CustomError::InvalidConfiguration)));
}

#[test]
fn transfer_remote_success_builds_exact_dispatch_payload() {
    let state = sample_state();
    let accounts = sample_context();
    let amount: u64 = 1000;
    let plan = transfer_remote(&state, &accounts, 1, key(13), 6, amount).unwrap();

    assert_eq!(plan.dispatch.program_id, accounts.target_program);

    let mut expected: Vec<u8> = vec![1, 1, 1, 1, 1, 1, 1, 1, 1];
    expected.extend_from_slice(&1u32.to_le_bytes());
    expected.extend_from_slice(&key(13));
    expected.extend_from_slice(&amount.to_le_bytes());
    expected.extend_from_slice(&[0u8; 24]);
    assert_eq!(plan.dispatch.data, expected);
    assert_eq!(plan.dispatch.data.len(), 9 + 4 + 32 + 32);

    assert_eq!(plan.event.destination_domain, 1);
    assert_eq!(plan.event.evm_recipient, key(13));
    assert_eq!(plan.event.amount, amount);
}

#[test]
fn transfer_remote_success_orders_participants_exactly() {
    let state = sample_state();
    let a = sample_context();
    let plan = transfer_remote(&state, &a, 1, key(13), 6, 1000).unwrap();

    let expected: Vec<([u8; 32], bool, bool)> = vec![
        (a.system_program, false, false),
        (a.noop, false, false),
        (a.token_pda, false, false),
        (a.mailbox_program, false, false),
        (a.mailbox_outbox, false, true),
        (a.message_dispatch_authority, false, false),
        (a.signer, true, true),
        (a.unique_message, true, false),
        (a.message_storage_pda, false, true),
        (a.igp_program, false, false),
        (a.igp_program_data, false, true),
        (a.gas_payment_pda, false, true),
        (a.igp_account, false, false),
        (a.token_sender, false, true),
        (a.token_2022, false, false),
        (a.mint_auth, false, true),
        (a.strategist_ata, false, true),
    ];
    assert_eq!(plan.dispatch.accounts.len(), 17);
    for (i, (pubkey, is_signer, is_writable)) in expected.iter().enumerate() {
        assert_eq!(plan.dispatch.accounts[i].pubkey, *pubkey);
        assert_eq!(plan.dispatch.accounts[i].is_signer, *is_signer);
        assert_eq!(plan.dispatch.accounts[i].is_writable, *is_writable);
    }
}

#[test]
fn account_infos_line_up_with_account_metas() {
    let a = sample_context();
    let metas = create_account_metas(&a);
    let infos = create_account_infos(&a);
    assert_eq!(metas.len(), 17);
    assert_eq!(infos.len(), 17);
    for i in 0..17 {
        assert_eq!(infos[i], metas[i].pubkey);
    }
}

#[test]
fn transfer_remote_success_builds_exact_custody_transfer() {
    let state = sample_state();
    let a = sample_context();
    let amount: u64 = 1000;
    let plan = transfer_remote(&state, &a, 1, key(13), 6, amount).unwrap();
    let custody = &plan.token_transfer;

    assert_eq!(custody.instruction.program_id, a.token_2022);

    let expected: Vec<([u8; 32], bool, bool)> = vec![
        (a.boring_account_ata, false, true),
        (a.mint_auth, false, false),
        (a.strategist_ata, false, true),
        (a.boring_account, true, false),
    ];
    assert_eq!(custody.instruction.accounts.len(), 4);
    for (i, (pubkey, is_signer, is_writable)) in expected.iter().enumerate() {
        assert_eq!(custody.instruction.accounts[i].pubkey, *pubkey);
        assert_eq!(custody.instruction.accounts[i].is_signer, *is_signer);
        assert_eq!(custody.instruction.accounts[i].is_writable, *is_writable);
    }

    let mut expected_data: Vec<u8> = vec![12];
    expected_data.extend_from_slice(&amount.to_le_bytes());
    expected_data.push(6);
    assert_eq!(custody.instruction.data, expected_data);

    assert_eq!(custody.seeds.creator, state.creator);
    assert_eq!(custody.seeds.bump, state.bump);
    let seed_bytes = custody.seeds.to_bytes();
    assert_eq!(seed_bytes.len(), 3);
    assert_eq!(seed_bytes[0], b"boring_state".to_vec());
    assert_eq!(seed_bytes[1], state.creator.to_vec());
    assert_eq!(seed_bytes[2], vec![state.bump]);
}

#[test]
fn end_to_end_install_update_and_forward() {
    // Initialize with owner O, strategist S, snapshot C1.
    let owner = key(42);
    let strategist = key(43);
    let c1 = matching_config(1, key(13), 6);
    let init = Initialize { boring_account: key(20), signer: key(41), bump: 253 };
    let (mut state, _, _) = initialize(&init, owner, strategist, &c1);
    assert_eq!(state.config_hash, c1.compute_hash());

    // update_configuration(C2) by O succeeds; the recorded commitment moves.
    let c2 = matching_config(2, key(14), 6);
    let ctx = UpdateOwner { signer: owner };
    update_configuration(&mut state, &ctx, &c2).unwrap();
    assert_eq!(state.config_hash, c2.compute_hash());

    // transfer_remote by S with the stale snapshot C1 fails.
    let accounts = sample_context();
    let r = transfer_remote(&state, &accounts, 1, key(13), 6, 1000);
    assert!(matches!(r, Err(CustomError::InvalidConfiguration)));

    // transfer_remote by S with snapshot C2 and amount 1000 succeeds.
    let plan = transfer_remote(&state, &accounts, 2, key(14), 6, 1000).unwrap();

    // Custody moves 1000 units from the vault's holding account to the
    // strategist's.
    let mut custody_data: Vec<u8> = vec![12];
    custody_data.extend_from_slice(&1000u64.to_le_bytes());
    custody_data.push(6);
    assert_eq!(plan.token_transfer.instruction.data, custody_data);
    assert_eq!(plan.token_transfer.instruction.accounts[0].pubkey, accounts.boring_account_ata);
    assert_eq!(plan.token_transfer.instruction.accounts[2].pubkey, accounts.strategist_ata);

    // The dispatched payload carries C2's destination and recipient, and the
    // amount as 8 little-endian bytes followed by 24 zero bytes.
    let payload = &plan.dispatch.data;
    assert_eq!(&payload[9..13], &2u32.to_le_bytes());
    assert_eq!(&payload[13..45], &key(14));
    let mut amount_field = [0u8; 32];
    amount_field[..8].copy_from_slice(&1000u64.to_le_bytes());
    assert_eq!(&payload[45..77], &amount_field);
}
