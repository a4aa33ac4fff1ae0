use vstd::prelude::*;
use crate::config::ConfigurationData;

verus! {

/// Emitted once when a vault record is created.
#[derive(Clone, Copy, Debug, PartialEq, Eq)]
pub struct Initialized {
    pub boring_account: [u8; 32],
    pub creator: [u8; 32],
    pub bump: u8,
    pub owner: [u8; 32],
    pub strategist: [u8; 32],
}

/// Emitted when the owner role moves to a new identity.
#[derive(Clone, Copy, Debug, PartialEq, Eq)]
pub struct OwnershipTransferred {
    pub old_owner: [u8; 32],
    pub new_owner: [u8; 32],
}

/// Emitted when the strategist role moves to a new identity.
#[derive(Clone, Copy, Debug, PartialEq, Eq)]
pub struct StrategistUpdated {
    pub old_strategist: [u8; 32],
    pub new_strategist: [u8; 32],
}

/// Emitted when a configuration commitment is installed, carrying the
/// plaintext snapshot beside its digest for off-chain observers.
#[derive(Clone, Copy, Debug, PartialEq, Eq)]
pub struct ConfigurationUpdated {
    pub config_hash: [u8; 32],
    pub target_program: [u8; 32],
    pub noop: [u8; 32],
    pub token_pda: [u8; 32],
    pub mailbox_program: [u8; 32],
    pub mailbox_outbox: [u8; 32],
    pub message_dispatch_authority: [u8; 32],
    pub igp_program: [u8; 32],
    pub igp_program_data: [u8; 32],
    pub igp_account: [u8; 32],
    pub token_sender: [u8; 32],
    pub token_2022_program: [u8; 32],
    pub mint_auth: [u8; 32],
    pub destination_domain: u32,
    pub evm_recipient: [u8; 32],
    pub decimals: u8,
}

/// Emitted when a forwarding call completes.
#[derive(Clone, Copy, Debug, PartialEq, Eq)]
pub struct TransferRemote {
    pub destination_domain: u32,
    pub evm_recipient: [u8; 32],
    pub amount: u64,
}

/// The configuration-updated event for a given digest and snapshot: the
/// digest beside every field of the plaintext snapshot.
pub open spec fn configuration_updated_spec(
    config_hash: [u8; 32],
    config: ConfigurationData,
) -> ConfigurationUpdated {
    ConfigurationUpdated {
        config_hash,
        target_program: config.target_program,
        noop: config.noop,
        token_pda: config.token_pda,
        mailbox_program: config.mailbox_program,
        mailbox_outbox: config.mailbox_outbox,
        message_dispatch_authority: config.message_dispatch_authority,
        igp_program: config.igp_program,
        igp_program_data: config.igp_program_data,
        igp_account: config.igp_account,
        token_sender: config.token_sender,
        token_2022_program: config.token_2022_program,
        mint_auth: config.mint_auth,
        destination_domain: config.destination_domain,
        evm_recipient: config.evm_recipient,
        decimals: config.decimals,
    }
}

/// Builds the configuration-updated event for a digest and its snapshot.
pub fn configuration_updated_event(
    config_hash: [u8; 32],
    config: &ConfigurationData,
) -> (r: ConfigurationUpdated)
    ensures
        r == configuration_updated_spec(config_hash, *config),
{
    ConfigurationUpdated {
        config_hash,
        target_program: config.target_program,
        noop: config.noop,
        token_pda: config.token_pda,
        mailbox_program: config.mailbox_program,
        mailbox_outbox: config.mailbox_outbox,
        message_dispatch_authority: config.message_dispatch_authority,
        igp_program: config.igp_program,
        igp_program_data: config.igp_program_data,
        igp_account: config.igp_account,
        token_sender: config.token_sender,
        token_2022_program: config.token_2022_program,
        mint_auth: config.mint_auth,
        destination_domain: config.destination_domain,
        evm_recipient: config.evm_recipient,
        decimals: config.decimals,
    }
}

} // verus!
