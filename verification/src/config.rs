use vstd::prelude::*;
use vstd::bytes::{spec_u32_to_le_bytes, u32_to_le_bytes, lemma_auto_spec_u32_to_from_le_bytes};
use crate::push_bytes32;

verus! {

/// The full forwarding configuration: every account the outbound bridge call
/// touches, plus the destination network, recipient and token precision.
///
/// A snapshot of this record is never persisted; only its 32-byte digest is
/// stored in the vault, and every caller re-supplies the full snapshot for
/// re-verification.
#[derive(Clone, Copy, Debug)]
#[verifier::ext_equal]
pub struct ConfigurationData {
    pub target_program: [u8; 32],
    pub noop: [u8; 32],
    pub token_pda: [u8; 32],
    pub mailbox_program: [u8; 32],
    pub mailbox_outbox: [u8; 32],
    pub message_dispatch_authority: [u8; 32],
    pub igp_program: [u8; 32],
    pub igp_program_data: [u8; 32],
    pub igp_account: [u8; 32],
    pub token_sender: [u8; 32],
    pub token_2022_program: [u8; 32],
    pub mint_auth: [u8; 32],
    pub destination_domain: u32,
    pub evm_recipient: [u8; 32],
    pub decimals: u8,
}

/// The SHA-256 digest of a byte sequence, named but not defined here:
/// the digest of given bytes is whatever the hash function returns, the
/// same on every call.
pub uninterp spec fn sha256_of(data: Seq<u8>) -> Seq<u8>;

/// Relies on solana_program::hash::hash: the SHA-256 digest of the input
/// bytes, a function of those bytes alone.
#[verifier::external_body]
pub(crate) fn sha256(data: &Vec<u8>) -> (r: [u8; 32])
    ensures
        r@ == sha256_of(data@),
{
    solana_program::hash::hash(data.as_slice()).to_bytes()
}

/// The canonical byte encoding of a snapshot: every field in declaration
/// order, each at a fixed width (32 raw bytes per account, the destination
/// network as 4 little-endian bytes, the precision as a single byte).
pub open spec fn encoding_spec(c: ConfigurationData) -> Seq<u8> {
    c.target_program@ + c.noop@ + c.token_pda@ + c.mailbox_program@ + c.mailbox_outbox@
        + c.message_dispatch_authority@ + c.igp_program@ + c.igp_program_data@ + c.igp_account@
        + c.token_sender@ + c.token_2022_program@ + c.mint_auth@
        + spec_u32_to_le_bytes(c.destination_domain) + c.evm_recipient@ + seq![c.decimals]
}

/// The commitment installed in the vault for a snapshot: the SHA-256 digest
/// of the canonical encoding.
pub open spec fn commitment_spec(c: ConfigurationData) -> Seq<u8> {
    sha256_of(encoding_spec(c))
}

impl ConfigurationData {
    /// Serializes the snapshot into its canonical fixed-width encoding.
    pub fn encode(&self) -> (r: Vec<u8>)
        ensures
            r@ == encoding_spec(*self),
            r@.len() == 421,
    {
        let mut r: Vec<u8> = Vec::new();
        push_bytes32(&mut r, &self.target_program);
        push_bytes32(&mut r, &self.noop);
        push_bytes32(&mut r, &self.token_pda);
        push_bytes32(&mut r, &self.mailbox_program);
        push_bytes32(&mut r, &self.mailbox_outbox);
        push_bytes32(&mut r, &self.message_dispatch_authority);
        push_bytes32(&mut r, &self.igp_program);
        push_bytes32(&mut r, &self.igp_program_data);
        push_bytes32(&mut r, &self.igp_account);
        push_bytes32(&mut r, &self.token_sender);
        push_bytes32(&mut r, &self.token_2022_program);
        push_bytes32(&mut r, &self.mint_auth);
        let mut domain_bytes = u32_to_le_bytes(self.destination_domain);
        r.append(&mut domain_bytes);
        push_bytes32(&mut r, &self.evm_recipient);
        r.push(self.decimals);
        proof {
            assert(r@ =~= encoding_spec(*self));
        }
        r
    }

    /// Digests the configuration data into a 32-byte commitment.
    pub fn compute_hash(&self) -> (r: [u8; 32])
        ensures
            r@ == commitment_spec(*self),
    {
        let data = self.encode();
        sha256(&data)
    }
}

/// The canonical encoding is injective: two snapshots with the same encoding
/// agree in every field. Distinct snapshots therefore always present distinct
/// inputs to the hash, so the commitment distinguishes them as well as the
/// hash function distinguishes distinct inputs.
pub proof fn lemma_encoding_injective(c1: ConfigurationData, c2: ConfigurationData)
    requires
        encoding_spec(c1) == encoding_spec(c2),
    ensures
        c1 == c2,
{
    lemma_auto_spec_u32_to_from_le_bytes();
    let e1 = encoding_spec(c1);
    let e2 = encoding_spec(c2);
    assert forall|i: int| 0 <= i < 32 implies c1.target_program@[i] == c2.target_program@[i] by {
        assert(e1[i] == e2[i]);
    }
    assert forall|i: int| 0 <= i < 32 implies c1.noop@[i] == c2.noop@[i] by {
        assert(e1[32 + i] == e2[32 + i]);
    }
    assert forall|i: int| 0 <= i < 32 implies c1.token_pda@[i] == c2.token_pda@[i] by {
        assert(e1[64 + i] == e2[64 + i]);
    }
    assert forall|i: int| 0 <= i < 32 implies c1.mailbox_program@[i] == c2.mailbox_program@[i] by {
        assert(e1[96 + i] == e2[96 + i]);
    }
    assert forall|i: int| 0 <= i < 32 implies c1.mailbox_outbox@[i] == c2.mailbox_outbox@[i] by {
        assert(e1[128 + i] == e2[128 + i]);
    }
    assert forall|i: int| 0 <= i < 32 implies c1.message_dispatch_authority@[i]
        == c2.message_dispatch_authority@[i] by {
        assert(e1[160 + i] == e2[160 + i]);
    }
    assert forall|i: int| 0 <= i < 32 implies c1.igp_program@[i] == c2.igp_program@[i] by {
        assert(e1[192 + i] == e2[192 + i]);
    }
    assert forall|i: int| 0 <= i < 32 implies c1.igp_program_data@[i] == c2.igp_program_data@[i] by {
        assert(e1[224 + i] == e2[224 + i]);
    }
    assert forall|i: int| 0 <= i < 32 implies c1.igp_account@[i] == c2.igp_account@[i] by {
        assert(e1[256 + i] == e2[256 + i]);
    }
    assert forall|i: int| 0 <= i < 32 implies c1.token_sender@[i] == c2.token_sender@[i] by {
        assert(e1[288 + i] == e2[288 + i]);
    }
    assert forall|i: int| 0 <= i < 32 implies c1.token_2022_program@[i]
        == c2.token_2022_program@[i] by {
        assert(e1[320 + i] == e2[320 + i]);
    }
    assert forall|i: int| 0 <= i < 32 implies c1.mint_auth@[i] == c2.mint_auth@[i] by {
        assert(e1[352 + i] == e2[352 + i]);
    }
    assert forall|i: int| 0 <= i < 4 implies spec_u32_to_le_bytes(c1.destination_domain)[i]
        == spec_u32_to_le_bytes(c2.destination_domain)[i] by {
        assert(e1[384 + i] == e2[384 + i]);
    }
    assert(spec_u32_to_le_bytes(c1.destination_domain)
        =~= spec_u32_to_le_bytes(c2.destination_domain));
    assert forall|i: int| 0 <= i < 32 implies c1.evm_recipient@[i] == c2.evm_recipient@[i] by {
        assert(e1[388 + i] == e2[388 + i]);
    }
    assert(c1.decimals == e1[420]);
    assert(c2.decimals == e2[420]);
    assert(c1.target_program =~= c2.target_program);
    assert(c1.noop =~= c2.noop);
    assert(c1.token_pda =~= c2.token_pda);
    assert(c1.mailbox_program =~= c2.mailbox_program);
    assert(c1.mailbox_outbox =~= c2.mailbox_outbox);
    assert(c1.message_dispatch_authority =~= c2.message_dispatch_authority);
    assert(c1.igp_program =~= c2.igp_program);
    assert(c1.igp_program_data =~= c2.igp_program_data);
    assert(c1.igp_account =~= c2.igp_account);
    assert(c1.token_sender =~= c2.token_sender);
    assert(c1.token_2022_program =~= c2.token_2022_program);
    assert(c1.mint_auth =~= c2.mint_auth);
    assert(c1.evm_recipient =~= c2.evm_recipient);
    assert(c1 =~= c2);
}

/// The commitment is deterministic: it is a function of the snapshot alone,
/// so repeated computations over one snapshot agree.
pub proof fn lemma_commitment_deterministic(c1: ConfigurationData, c2: ConfigurationData)
    requires
        c1 == c2,
    ensures
        commitment_spec(c1) == commitment_spec(c2),
{
}

} // verus!
