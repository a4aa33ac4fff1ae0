use vstd::prelude::*;
use vstd::bytes::{spec_u32_to_le_bytes, u32_to_le_bytes, spec_u64_to_le_bytes, u64_to_le_bytes};
use crate::push_bytes32;
use crate::CustomError;
use crate::config::{ConfigurationData, commitment_spec};
use crate::state::{BoringState, seed_tag_spec, seed_tag};

verus! {

/// One participant of a cross-program call, tagged with the access the
/// callee is granted. The bridge resolves participants positionally, so the
/// order in which these appear is part of the wire contract.
#[derive(Clone, Copy, Debug, PartialEq, Eq)]
pub struct AccountMeta {
    pub pubkey: [u8; 32],
    pub is_signer: bool,
    pub is_writable: bool,
}

impl AccountMeta {
    /// A writable participant.
    pub fn new(pubkey: [u8; 32], is_signer: bool) -> (r: AccountMeta)
        ensures
            r == (AccountMeta { pubkey, is_signer, is_writable: true }),
    {
        AccountMeta { pubkey, is_signer, is_writable: true }
    }

    /// A read-only participant.
    pub fn new_readonly(pubkey: [u8; 32], is_signer: bool) -> (r: AccountMeta)
        ensures
            r == (AccountMeta { pubkey, is_signer, is_writable: false }),
    {
        AccountMeta { pubkey, is_signer, is_writable: false }
    }
}

/// A fully constructed cross-program call: the callee, its ordered
/// participant list, and the instruction payload.
#[derive(Clone, Debug, PartialEq, Eq)]
pub struct Instruction {
    pub program_id: [u8; 32],
    pub accounts: Vec<AccountMeta>,
    pub data: Vec<u8>,
}

/// The addresses a forwarding invocation hands in: the vault record's own
/// address, the caller, and every account the bridge call and the custody
/// transfer touch.
#[derive(Clone, Copy, Debug)]
pub struct TransferRemoteContext {
    /// Address of the vault record; it doubles as the custody transfer's
    /// signing authority.
    pub boring_account: [u8; 32],
    /// The invocation's caller and fee payer.
    pub signer: [u8; 32],
    /// The bridge program the dispatch call targets.
    pub target_program: [u8; 32],
    /// Generic system account.
    pub system_program: [u8; 32],
    /// Log/observability account.
    pub noop: [u8; 32],
    /// The bridge's per-holder routing account.
    pub token_pda: [u8; 32],
    /// The message-dispatch program identity.
    pub mailbox_program: [u8; 32],
    /// The message-dispatch outbox account.
    pub mailbox_outbox: [u8; 32],
    /// The message-dispatch authority.
    pub message_dispatch_authority: [u8; 32],
    /// Caller-supplied one-time uniqueness account.
    pub unique_message: [u8; 32],
    /// Message storage derived from the uniqueness account under the
    /// bridge's namespace.
    pub message_storage_pda: [u8; 32],
    /// The fee-system program identity.
    pub igp_program: [u8; 32],
    /// The fee-system global data account.
    pub igp_program_data: [u8; 32],
    /// Fee payment account derived from the uniqueness account under the
    /// fee-system's namespace.
    pub gas_payment_pda: [u8; 32],
    /// The fee-system routing account.
    pub igp_account: [u8; 32],
    /// The sender/holder account.
    pub token_sender: [u8; 32],
    /// The token-custody program identity.
    pub token_2022: [u8; 32],
    /// The mint / mint-authority account.
    pub mint_auth: [u8; 32],
    /// The vault's own token-holding account.
    pub boring_account_ata: [u8; 32],
    /// The strategist's token-holding account.
    pub strategist_ata: [u8; 32],
}

/// The body of the outbound bridge message: destination network, fixed-width
/// recipient, and the amount packed into a 32-byte field.
#[derive(Clone, Copy, Debug)]
pub struct TransferRemote {
    pub destination_domain: u32,
    pub recipient: [u8; 32],
    pub amount_or_id: [u8; 32],
}

/// The seed material from which the vault's signing capability over its own
/// token account is derived: the fixed namespace tag, the creator, and the
/// derivation nonce.
#[derive(Clone, Copy, Debug, PartialEq, Eq)]
pub struct SignerSeeds {
    pub creator: [u8; 32],
    pub bump: u8,
}

/// The custody leg of a forwarding call: the transfer-checked call for the
/// token-custody program, and the seeds under which the vault signs it.
#[derive(Clone, Debug)]
pub struct TokenTransferPlan {
    pub instruction: Instruction,
    pub seeds: SignerSeeds,
}

/// Everything a successful forwarding call tells its caller to do: move
/// custody, issue the dispatch call, and emit the completion event.
#[derive(Clone, Debug)]
pub struct ForwardingPlan {
    pub token_transfer: TokenTransferPlan,
    pub dispatch: Instruction,
    pub event: crate::events::TransferRemote,
}

/// The configuration snapshot that a forwarding invocation presents: the
/// supplied accounts joined with the call parameters, in the field order the
/// commitment is computed over.
pub open spec fn config_of_context(
    a: TransferRemoteContext,
    destination_domain: u32,
    evm_recipient: [u8; 32],
    decimals: u8,
) -> ConfigurationData {
    ConfigurationData {
        target_program: a.target_program,
        noop: a.noop,
        token_pda: a.token_pda,
        mailbox_program: a.mailbox_program,
        mailbox_outbox: a.mailbox_outbox,
        message_dispatch_authority: a.message_dispatch_authority,
        igp_program: a.igp_program,
        igp_program_data: a.igp_program_data,
        igp_account: a.igp_account,
        token_sender: a.token_sender,
        token_2022_program: a.token_2022,
        mint_auth: a.mint_auth,
        destination_domain,
        evm_recipient,
        decimals,
    }
}

/// A run of zero bytes.
pub open spec fn zero_bytes(n: nat) -> Seq<u8> {
    Seq::new(n, |i: int| 0u8)
}

/// The 32-byte amount-or-id field: the amount as 8 little-endian bytes, the
/// remainder zero.
pub open spec fn amount_or_id_spec(amount: u64) -> Seq<u8> {
    spec_u64_to_le_bytes(amount) + zero_bytes(24)
}

/// The serialized message body: destination network as 4 little-endian
/// bytes, then the recipient, then the amount-or-id field.
pub open spec fn transfer_remote_bytes_spec(t: TransferRemote) -> Seq<u8> {
    spec_u32_to_le_bytes(t.destination_domain) + t.recipient@ + t.amount_or_id@
}

/// The full dispatch payload: a fixed 9-byte tag naming the bridge's
/// transfer operation, followed by the serialized message body.
pub open spec fn payload_spec(
    destination_domain: u32,
    evm_recipient: [u8; 32],
    amount: u64,
) -> Seq<u8> {
    seq![1u8, 1u8, 1u8, 1u8, 1u8, 1u8, 1u8, 1u8, 1u8]
        + spec_u32_to_le_bytes(destination_domain) + evm_recipient@ + amount_or_id_spec(amount)
}

/// The ordered, role-tagged participant list of the bridge's dispatch entry
/// point. The bridge reads these positionally; order and flags are part of
/// its calling convention.
pub open spec fn account_metas_spec(a: TransferRemoteContext) -> Seq<AccountMeta> {
    seq![
        AccountMeta { pubkey: a.system_program, is_signer: false, is_writable: false },
        AccountMeta { pubkey: a.noop, is_signer: false, is_writable: false },
        AccountMeta { pubkey: a.token_pda, is_signer: false, is_writable: false },
        AccountMeta { pubkey: a.mailbox_program, is_signer: false, is_writable: false },
        AccountMeta { pubkey: a.mailbox_outbox, is_signer: false, is_writable: true },
        AccountMeta { pubkey: a.message_dispatch_authority, is_signer: false, is_writable: false },
        AccountMeta { pubkey: a.signer, is_signer: true, is_writable: true },
        AccountMeta { pubkey: a.unique_message, is_signer: true, is_writable: false },
        AccountMeta { pubkey: a.message_storage_pda, is_signer: false, is_writable: true },
        AccountMeta { pubkey: a.igp_program, is_signer: false, is_writable: false },
        AccountMeta { pubkey: a.igp_program_data, is_signer: false, is_writable: true },
        AccountMeta { pubkey: a.gas_payment_pda, is_signer: false, is_writable: true },
        AccountMeta { pubkey: a.igp_account, is_signer: false, is_writable: false },
        AccountMeta { pubkey: a.token_sender, is_signer: false, is_writable: true },
        AccountMeta { pubkey: a.token_2022, is_signer: false, is_writable: false },
        AccountMeta { pubkey: a.mint_auth, is_signer: false, is_writable: true },
        AccountMeta { pubkey: a.strategist_ata, is_signer: false, is_writable: true },
    ]
}

/// The accounts handed to the runtime alongside the dispatch call, in the
/// same order as the participant list.
pub open spec fn account_infos_spec(a: TransferRemoteContext) -> Seq<[u8; 32]> {
    seq![
        a.system_program,
        a.noop,
        a.token_pda,
        a.mailbox_program,
        a.mailbox_outbox,
        a.message_dispatch_authority,
        a.signer,
        a.unique_message,
        a.message_storage_pda,
        a.igp_program,
        a.igp_program_data,
        a.gas_payment_pda,
        a.igp_account,
        a.token_sender,
        a.token_2022,
        a.mint_auth,
        a.strategist_ata,
    ]
}

/// The instruction payload of the token-custody program's transfer-checked
/// operation: its tag, the amount as 8 little-endian bytes, and the decimal
/// precision the mint must match.
pub open spec fn token_transfer_data_spec(amount: u64, decimals: u8) -> Seq<u8> {
    seq![12u8] + spec_u64_to_le_bytes(amount) + seq![decimals]
}

/// The participant list of the transfer-checked operation: source, mint,
/// destination, then the signing authority.
pub open spec fn token_transfer_accounts_spec(a: TransferRemoteContext) -> Seq<AccountMeta> {
    seq![
        AccountMeta { pubkey: a.boring_account_ata, is_signer: false, is_writable: true },
        AccountMeta { pubkey: a.mint_auth, is_signer: false, is_writable: false },
        AccountMeta { pubkey: a.strategist_ata, is_signer: false, is_writable: true },
        AccountMeta { pubkey: a.boring_account, is_signer: true, is_writable: false },
    ]
}

/// Verifies the configuration commitment: recomputes the digest over the
/// supplied accounts and parameters and compares it to the stored one.
/// Succeeds exactly when they agree; the vault refuses to act on any
/// configuration the owner has not approved.
pub fn verify_configuration(
    state: &BoringState,
    accounts: &TransferRemoteContext,
    destination_domain: u32,
    evm_recipient: [u8; 32],
    decimals: u8,
) -> (r: Result<(), CustomError>)
    ensures
        r is Ok <==> commitment_spec(
            config_of_context(*accounts, destination_domain, evm_recipient, decimals),
        ) == state.config_hash@,
        r is Err ==> r == Err::<(), CustomError>(CustomError::InvalidConfiguration),
{
    let config = ConfigurationData {
        target_program: accounts.target_program,
        noop: accounts.noop,
        token_pda: accounts.token_pda,
        mailbox_program: accounts.mailbox_program,
        mailbox_outbox: accounts.mailbox_outbox,
        message_dispatch_authority: accounts.message_dispatch_authority,
        igp_program: accounts.igp_program,
        igp_program_data: accounts.igp_program_data,
        igp_account: accounts.igp_account,
        token_sender: accounts.token_sender,
        token_2022_program: accounts.token_2022,
        mint_auth: accounts.mint_auth,
        destination_domain,
        evm_recipient,
        decimals,
    };
    let hash = config.compute_hash();
    if crate::bytes32_eq(&hash, &state.config_hash) {
        Ok(())
    } else {
        Err(CustomError::InvalidConfiguration)
    }
}

/// Builds the custody leg: the transfer-checked call moving the amount from
/// the vault's token account to the strategist's, signed by the vault record
/// under its derived seeds.
pub fn transfer_tokens_to_strategist(
    state: &BoringState,
    accounts: &TransferRemoteContext,
    amount: u64,
    decimals: u8,
) -> (r: TokenTransferPlan)
    ensures
        r.instruction.program_id == accounts.token_2022,
        r.instruction.accounts@ == token_transfer_accounts_spec(*accounts),
        r.instruction.data@ == token_transfer_data_spec(amount, decimals),
        r.seeds == (SignerSeeds { creator: state.creator, bump: state.bump }),
{
    let mut metas: Vec<AccountMeta> = Vec::new();
    metas.push(AccountMeta::new(accounts.boring_account_ata, false));
    metas.push(AccountMeta::new_readonly(accounts.mint_auth, false));
    metas.push(AccountMeta::new(accounts.strategist_ata, false));
    metas.push(AccountMeta::new_readonly(accounts.boring_account, true));
    proof {
        assert(metas@ =~= token_transfer_accounts_spec(*accounts));
    }
    let mut data: Vec<u8> = Vec::new();
    data.push(12);
    let mut amount_bytes = u64_to_le_bytes(amount);
    data.append(&mut amount_bytes);
    data.push(decimals);
    proof {
        assert(data@ =~= token_transfer_data_spec(amount, decimals));
    }
    TokenTransferPlan {
        instruction: Instruction {
            program_id: accounts.token_2022,
            accounts: metas,
            data,
        },
        seeds: SignerSeeds { creator: state.creator, bump: state.bump },
    }
}

/// Builds the outbound bridge call: the dispatch payload and the ordered
/// participant list, addressed to the configured bridge program.
pub fn execute_transfer_remote(
    accounts: &TransferRemoteContext,
    destination_domain: u32,
    evm_recipient: [u8; 32],
    amount: u64,
) -> (r: Instruction)
    ensures
        r.program_id == accounts.target_program,
        r.accounts@ == account_metas_spec(*accounts),
        r.data@ == payload_spec(destination_domain, evm_recipient, amount),
{
    let mut amount_or_id: [u8; 32] = [0; 32];
    let amount_bytes = u64_to_le_bytes(amount);
    let mut i: usize = 0;
    while i < 8
        invariant
            i <= 8,
            amount_bytes@ == spec_u64_to_le_bytes(amount),
            amount_bytes@.len() == 8,
            amount_or_id@.len() == 32,
            forall|j: int| 0 <= j < i ==> amount_or_id@[j] == amount_bytes@[j],
            forall|j: int| i <= j < 32 ==> amount_or_id@[j] == 0u8,
        decreases 8 - i,
    {
        amount_or_id[i] = amount_bytes[i];
        i += 1;
    }
    proof {
        assert(amount_or_id@ =~= amount_or_id_spec(amount));
    }

    let transfer_data = TransferRemote {
        destination_domain,
        recipient: evm_recipient,
        amount_or_id,
    };

    let mut data: Vec<u8> = vec![1, 1, 1, 1, 1, 1, 1, 1, 1];
    let mut body = transfer_data.encode();
    data.append(&mut body);
    proof {
        assert(data@ =~= payload_spec(destination_domain, evm_recipient, amount));
    }

    Instruction {
        program_id: accounts.target_program,
        accounts: create_account_metas(accounts),
        data,
    }
}

/// Lays out the participant list of the dispatch call, in the bridge's
/// fixed order and with its read/write/signer tags.
pub fn create_account_metas(accounts: &TransferRemoteContext) -> (r: Vec<AccountMeta>)
    ensures
        r@ == account_metas_spec(*accounts),
{
    let mut metas: Vec<AccountMeta> = Vec::new();
    metas.push(AccountMeta::new_readonly(accounts.system_program, false));
    metas.push(AccountMeta::new_readonly(accounts.noop, false));
    metas.push(AccountMeta::new_readonly(accounts.token_pda, false));
    metas.push(AccountMeta::new_readonly(accounts.mailbox_program, false));
    metas.push(AccountMeta::new(accounts.mailbox_outbox, false));
    metas.push(AccountMeta::new_readonly(accounts.message_dispatch_authority, false));
    metas.push(AccountMeta::new(accounts.signer, true));
    metas.push(AccountMeta::new_readonly(accounts.unique_message, true));
    metas.push(AccountMeta::new(accounts.message_storage_pda, false));
    metas.push(AccountMeta::new_readonly(accounts.igp_program, false));
    metas.push(AccountMeta::new(accounts.igp_program_data, false));
    metas.push(AccountMeta::new(accounts.gas_payment_pda, false));
    metas.push(AccountMeta::new_readonly(accounts.igp_account, false));
    metas.push(AccountMeta::new(accounts.token_sender, false));
    metas.push(AccountMeta::new_readonly(accounts.token_2022, false));
    metas.push(AccountMeta::new(accounts.mint_auth, false));
    metas.push(AccountMeta::new(accounts.strategist_ata, false));
    proof {
        assert(metas@ =~= account_metas_spec(*accounts));
    }
    metas
}

/// Lists the accounts handed to the runtime for the dispatch call, in the
/// same order as the participant list.
pub fn create_account_infos(accounts: &TransferRemoteContext) -> (r: Vec<[u8; 32]>)
    ensures
        r@ == account_infos_spec(*accounts),
{
    let mut infos: Vec<[u8; 32]> = Vec::new();
    infos.push(accounts.system_program);
    infos.push(accounts.noop);
    infos.push(accounts.token_pda);
    infos.push(accounts.mailbox_program);
    infos.push(accounts.mailbox_outbox);
    infos.push(accounts.message_dispatch_authority);
    infos.push(accounts.signer);
    infos.push(accounts.unique_message);
    infos.push(accounts.message_storage_pda);
    infos.push(accounts.igp_program);
    infos.push(accounts.igp_program_data);
    infos.push(accounts.gas_payment_pda);
    infos.push(accounts.igp_account);
    infos.push(accounts.token_sender);
    infos.push(accounts.token_2022);
    infos.push(accounts.mint_auth);
    infos.push(accounts.strategist_ata);
    proof {
        assert(infos@ =~= account_infos_spec(*accounts));
    }
    infos
}

/// The runtime account list lines up with the participant list: entry by
/// entry, the same address in the same position.
pub proof fn lemma_account_lists_agree(a: TransferRemoteContext)
    ensures
        account_infos_spec(a).len() == 17,
        account_metas_spec(a).len() == 17,
        forall|i: int|
            0 <= i < 17 ==> account_infos_spec(a)[i] == account_metas_spec(a)[i].pubkey,
{
}

impl TransferRemote {
    /// Serializes the message body in its fixed-width field order.
    pub fn encode(&self) -> (r: Vec<u8>)
        ensures
            r@ == transfer_remote_bytes_spec(*self),
            r@.len() == 68,
    {
        let mut r = u32_to_le_bytes(self.destination_domain);
        push_bytes32(&mut r, &self.recipient);
        push_bytes32(&mut r, &self.amount_or_id);
        proof {
            assert(r@ =~= transfer_remote_bytes_spec(*self));
        }
        r
    }
}

impl SignerSeeds {
    /// Expands the seed material into the seed byte strings the runtime
    /// expects: the namespace tag, the creator, and the nonce.
    pub fn to_bytes(&self) -> (r: Vec<Vec<u8>>)
        ensures
            r@.len() == 3,
            r@[0]@ == seed_tag_spec(),
            r@[1]@ == self.creator@,
            r@[2]@ == seq![self.bump],
    {
        let mut r: Vec<Vec<u8>> = Vec::new();
        r.push(seed_tag());
        let mut creator_bytes: Vec<u8> = Vec::new();
        push_bytes32(&mut creator_bytes, &self.creator);
        proof {
            assert(creator_bytes@ =~= self.creator@);
        }
        r.push(creator_bytes);
        let mut bump_bytes: Vec<u8> = Vec::new();
        bump_bytes.push(self.bump);
        proof {
            assert(bump_bytes@ =~= seq![self.bump]);
        }
        r.push(bump_bytes);
        r
    }
}

} // verus!
