//! A custodial forwarding vault. The vault holds one class of fungible
//! tokens, commits to a forwarding configuration as a single 32-byte digest,
//! and lets a delegated strategist relay transfers to an external
//! cross-chain bridge — but only under a configuration the owner installed.
//!
//! Every operation is a pure function from the persisted vault record and
//! the caller's inputs to the record's next value, the events to emit, and
//! the outbound calls to issue; the host that loads and stores the record
//! and performs the calls stands outside this crate.

use vstd::prelude::*;

pub mod config;
pub mod events;
pub mod state;
pub mod transfer_remote;

use crate::config::{ConfigurationData, commitment_spec};
use crate::events::{
    Initialized, OwnershipTransferred, StrategistUpdated, ConfigurationUpdated,
    configuration_updated_spec, configuration_updated_event,
};
use crate::state::BoringState;
use crate::transfer_remote::{
    TransferRemoteContext, ForwardingPlan, SignerSeeds, account_metas_spec,
    token_transfer_accounts_spec, token_transfer_data_spec, payload_spec, config_of_context,
};

verus! {

/// Errors an operation on the vault can signal.
#[derive(Clone, Copy, Debug, PartialEq, Eq, Structural)]
pub enum CustomError {
    /// The caller does not hold the role the operation requires.
    Unauthorized,
    /// The supplied configuration does not match the stored commitment.
    InvalidConfiguration,
}

/// The accounts of a creation call: the address of the record being
/// created, the creating signer, and the nonce fixing the address.
#[derive(Clone, Copy, Debug)]
pub struct Initialize {
    pub boring_account: [u8; 32],
    pub signer: [u8; 32],
    pub bump: u8,
}

/// The accounts of an owner-gated mutation call: its signer.
#[derive(Clone, Copy, Debug)]
pub struct UpdateOwner {
    pub signer: [u8; 32],
}

/// The accounts of a strategist update, where stated separately.
#[derive(Clone, Copy, Debug)]
pub struct UpdateStrategist {
    pub signer: [u8; 32],
}

/// The accounts of a configuration update, where stated separately.
#[derive(Clone, Copy, Debug)]
pub struct UpdateConfiguration {
    pub signer: [u8; 32],
}

/// Checks that the signer is the same as the authorized key.
pub fn requires_auth(signer: [u8; 32], allowed: [u8; 32]) -> (r: Result<(), CustomError>)
    ensures
        r is Ok <==> signer@ == allowed@,
        r is Err ==> r == Err::<(), CustomError>(CustomError::Unauthorized),
{
    if bytes32_eq(&signer, &allowed) {
        Ok(())
    } else {
        Err(CustomError::Unauthorized)
    }
}

/// Creates a vault record: fixes the creator and nonce, installs both
/// roles, and commits to the initial configuration. Returns the record
/// beside the two events a creation emits.
pub fn initialize(
    ctx: &Initialize,
    owner: [u8; 32],
    strategist: [u8; 32],
    config: &ConfigurationData,
) -> (r: (BoringState, Initialized, ConfigurationUpdated))
    ensures
        r.0.creator == ctx.signer,
        r.0.owner == owner,
        r.0.strategist == strategist,
        r.0.bump == ctx.bump,
        r.0.config_hash@ == commitment_spec(*config),
        r.1 == (Initialized {
            boring_account: ctx.boring_account,
            creator: ctx.signer,
            bump: ctx.bump,
            owner,
            strategist,
        }),
        r.2 == configuration_updated_spec(r.0.config_hash, *config),
{
    let config_hash = config.compute_hash();
    let state = BoringState {
        creator: ctx.signer,
        owner,
        strategist,
        config_hash,
        bump: ctx.bump,
    };
    let init_event = Initialized {
        boring_account: ctx.boring_account,
        creator: ctx.signer,
        bump: ctx.bump,
        owner,
        strategist,
    };
    let config_event = configuration_updated_event(config_hash, config);
    (state, init_event, config_event)
}

/// Transfers ownership of the vault to a new owner. Only the current owner
/// may do so; any other caller is refused and the record is left unchanged.
pub fn transfer_ownership(
    state: &mut BoringState,
    ctx: &UpdateOwner,
    new_owner: [u8; 32],
) -> (r: Result<OwnershipTransferred, CustomError>)
    ensures
        ctx.signer@ == old(state).owner@ ==> {
            &&& r == Ok::<OwnershipTransferred, CustomError>(OwnershipTransferred {
                old_owner: old(state).owner,
                new_owner,
            })
            &&& final(state).owner == new_owner
            &&& final(state).creator == old(state).creator
            &&& final(state).strategist == old(state).strategist
            &&& final(state).config_hash == old(state).config_hash
            &&& final(state).bump == old(state).bump
        },
        ctx.signer@ != old(state).owner@ ==> {
            &&& r == Err::<OwnershipTransferred, CustomError>(CustomError::Unauthorized)
            &&& *final(state) == *old(state)
        },
{
    let old_owner = state.owner;
    match requires_auth(ctx.signer, old_owner) {
        Err(e) => {
            return Err(e);
        },
        Ok(()) => {},
    }
    state.owner = new_owner;
    Ok(OwnershipTransferred { old_owner, new_owner })
}

/// Replaces the strategist. Only the current owner may do so; any other
/// caller is refused and the record is left unchanged.
pub fn update_strategist(
    state: &mut BoringState,
    ctx: &UpdateOwner,
    new_strategist: [u8; 32],
) -> (r: Result<StrategistUpdated, CustomError>)
    ensures
        ctx.signer@ == old(state).owner@ ==> {
            &&& r == Ok::<StrategistUpdated, CustomError>(StrategistUpdated {
                old_strategist: old(state).strategist,
                new_strategist,
            })
            &&& final(state).strategist == new_strategist
            &&& final(state).creator == old(state).creator
            &&& final(state).owner == old(state).owner
            &&& final(state).config_hash == old(state).config_hash
            &&& final(state).bump == old(state).bump
        },
        ctx.signer@ != old(state).owner@ ==> {
            &&& r == Err::<StrategistUpdated, CustomError>(CustomError::Unauthorized)
            &&& *final(state) == *old(state)
        },
{
    let old_strategist = state.strategist;
    match requires_auth(ctx.signer, state.owner) {
        Err(e) => {
            return Err(e);
        },
        Ok(()) => {},
    }
    state.strategist = new_strategist;
    Ok(StrategistUpdated { old_strategist, new_strategist })
}

/// Installs the commitment of a new configuration snapshot. Only the current
/// owner may do so; any other caller is refused and the record is left
/// unchanged. Installation is all-or-nothing: on success the stored digest
/// is exactly the commitment of the supplied snapshot.
pub fn update_configuration(
    state: &mut BoringState,
    ctx: &UpdateOwner,
    config: &ConfigurationData,
) -> (r: Result<ConfigurationUpdated, CustomError>)
    ensures
        ctx.signer@ == old(state).owner@ ==> {
            &&& r matches Ok(ev) && ev == configuration_updated_spec(
                final(state).config_hash,
                *config,
            )
            &&& final(state).config_hash@ == commitment_spec(*config)
            &&& final(state).creator == old(state).creator
            &&& final(state).owner == old(state).owner
            &&& final(state).strategist == old(state).strategist
            &&& final(state).bump == old(state).bump
        },
        ctx.signer@ != old(state).owner@ ==> {
            &&& r == Err::<ConfigurationUpdated, CustomError>(CustomError::Unauthorized)
            &&& *final(state) == *old(state)
        },
{
    match requires_auth(ctx.signer, state.owner) {
        Err(e) => {
            return Err(e);
        },
        Ok(()) => {},
    }
    let config_hash = config.compute_hash();
    state.config_hash = config_hash;
    Ok(configuration_updated_event(config_hash, config))
}

/// Forwards tokens across the bridge on the strategist's behalf. The caller
/// must be the strategist and the supplied accounts and parameters must
/// re-produce the stored commitment; then, and only then, the call yields
/// the full forwarding plan: the custody transfer of the amount from the
/// vault's token account to the strategist's, the dispatch call for the
/// bridge with its exact payload and participant list, and the completion
/// event. Any failure yields an error and no plan, so nothing is moved.
pub fn transfer_remote(
    state: &BoringState,
    accounts: &TransferRemoteContext,
    destination_domain: u32,
    evm_recipient: [u8; 32],
    decimals: u8,
    amount: u64,
) -> (r: Result<ForwardingPlan, CustomError>)
    ensures
        accounts.signer@ != state.strategist@ ==> r == Err::<ForwardingPlan, CustomError>(
            CustomError::Unauthorized,
        ),
        accounts.signer@ == state.strategist@ && commitment_spec(
            config_of_context(*accounts, destination_domain, evm_recipient, decimals),
        ) != state.config_hash@ ==> r == Err::<ForwardingPlan, CustomError>(
            CustomError::InvalidConfiguration,
        ),
        accounts.signer@ == state.strategist@ && commitment_spec(
            config_of_context(*accounts, destination_domain, evm_recipient, decimals),
        ) == state.config_hash@ ==> {
            &&& r matches Ok(p)
            &&& p.token_transfer.instruction.program_id == accounts.token_2022
            &&& p.token_transfer.instruction.accounts@ == token_transfer_accounts_spec(*accounts)
            &&& p.token_transfer.instruction.data@ == token_transfer_data_spec(amount, decimals)
            &&& p.token_transfer.seeds == (SignerSeeds {
                creator: state.creator,
                bump: state.bump,
            })
            &&& p.dispatch.program_id == accounts.target_program
            &&& p.dispatch.accounts@ == account_metas_spec(*accounts)
            &&& p.dispatch.data@ == payload_spec(destination_domain, evm_recipient, amount)
            &&& p.event == (crate::events::TransferRemote {
                destination_domain,
                evm_recipient,
                amount,
            })
        },
{
    match requires_auth(accounts.signer, state.strategist) {
        Err(e) => {
            return Err(e);
        },
        Ok(()) => {},
    }
    match crate::transfer_remote::verify_configuration(
        state,
        accounts,
        destination_domain,
        evm_recipient,
        decimals,
    ) {
        Err(e) => {
            return Err(e);
        },
        Ok(()) => {},
    }
    let token_transfer = crate::transfer_remote::transfer_tokens_to_strategist(
        state,
        accounts,
        amount,
        decimals,
    );
    let dispatch = crate::transfer_remote::execute_transfer_remote(
        accounts,
        destination_domain,
        evm_recipient,
        amount,
    );
    Ok(ForwardingPlan {
        token_transfer,
        dispatch,
        event: crate::events::TransferRemote { destination_domain, evm_recipient, amount },
    })
}

/// Compares two 32-byte values for equality.
pub fn bytes32_eq(a: &[u8; 32], b: &[u8; 32]) -> (r: bool)
    ensures
        r == (a@ == b@),
{
    let mut i: usize = 0;
    while i < 32
        invariant
            i <= 32,
            forall|j: int| 0 <= j < i ==> a@[j] == b@[j],
        decreases 32 - i,
    {
        if a[i] != b[i] {
            return false;
        }
        i += 1;
    }
    proof {
        assert(a@ =~= b@);
    }
    true
}

/// Appends all 32 bytes of an array to a byte vector.
pub fn push_bytes32(v: &mut Vec<u8>, a: &[u8; 32])
    ensures
        final(v)@ == old(v)@ + a@,
{
    let mut i: usize = 0;
    while i < 32
        invariant
            i <= 32,
            v@ == old(v)@ + a@.subrange(0, i as int),
        decreases 32 - i,
    {
        v.push(a[i]);
        proof {
            assert(old(v)@ + a@.subrange(0, i as int) + seq![a@[i as int]]
                =~= old(v)@ + a@.subrange(0, i + 1));
        }
        i += 1;
    }
    proof {
        assert(a@.subrange(0, 32) =~= a@);
    }
}

} // verus!
