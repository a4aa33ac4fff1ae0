use vstd::prelude::*;
use crate::push_bytes32;

verus! {

/// The persisted vault record: the creator it was derived from, the two
/// roles, the commitment of the last-installed configuration, and the
/// nonce that fixes the record's deterministic address.
#[derive(Clone, Copy, Debug)]
#[verifier::ext_equal]
pub struct BoringState {
    /// The identity that instantiated the vault; written once at creation.
    pub creator: [u8; 32],
    /// The identity allowed to mutate roles and the stored commitment.
    pub owner: [u8; 32],
    /// The identity allowed to invoke forwarding.
    pub strategist: [u8; 32],
    /// SHA-256 commitment of the last-installed configuration snapshot.
    pub config_hash: [u8; 32],
    /// Derivation nonce fixing the record's address; written once at creation.
    pub bump: u8,
}

/// The fixed namespace tag under which a vault record's address and signing
/// capability are derived from its creator: the bytes of "boring_state".
pub open spec fn seed_tag_spec() -> Seq<u8> {
    seq![98u8, 111u8, 114u8, 105u8, 110u8, 103u8, 95u8, 115u8, 116u8, 97u8, 116u8, 101u8]
}

/// The namespace tag as a byte vector.
pub fn seed_tag() -> (r: Vec<u8>)
    ensures
        r@ == seed_tag_spec(),
{
    let r: Vec<u8> = vec![98, 111, 114, 105, 110, 103, 95, 115, 116, 97, 116, 101];
    proof {
        assert(r@ =~= seed_tag_spec());
    }
    r
}

/// The persisted byte form of a vault record: every field in declaration
/// order at a fixed width, 129 bytes in all.
pub open spec fn state_bytes_spec(s: BoringState) -> Seq<u8> {
    s.creator@ + s.owner@ + s.strategist@ + s.config_hash@ + seq![s.bump]
}

/// Reads one 32-byte field out of a byte slice at the given offset.
fn read_bytes32(data: &Vec<u8>, offset: usize) -> (r: [u8; 32])
    requires
        offset + 32 <= data@.len(),
    ensures
        r@ == data@.subrange(offset as int, offset + 32),
{
    let mut r: [u8; 32] = [0; 32];
    let n = data.len();
    let mut i: usize = 0;
    while i < 32
        invariant
            i <= 32,
            n == data@.len(),
            offset + 32 <= n,
            r@.len() == 32,
            forall|j: int| 0 <= j < i ==> r@[j] == data@[offset + j],
        decreases 32 - i,
    {
        r[i] = data[offset + i];
        i += 1;
    }
    proof {
        assert(r@ =~= data@.subrange(offset as int, offset + 32));
    }
    r
}

impl BoringState {
    /// Serializes the record into its persisted byte form.
    pub fn encode(&self) -> (r: Vec<u8>)
        ensures
            r@ == state_bytes_spec(*self),
            r@.len() == 129,
    {
        let mut r: Vec<u8> = Vec::new();
        push_bytes32(&mut r, &self.creator);
        push_bytes32(&mut r, &self.owner);
        push_bytes32(&mut r, &self.strategist);
        push_bytes32(&mut r, &self.config_hash);
        r.push(self.bump);
        proof {
            assert(r@ =~= state_bytes_spec(*self));
        }
        r
    }

    /// Reads a record back from its persisted byte form. Returns the record
    /// whose encoding is exactly the input, and nothing for input of any
    /// other length.
    pub fn decode(data: &Vec<u8>) -> (r: Option<BoringState>)
        ensures
            data@.len() == 129 ==> (r matches Some(s) && state_bytes_spec(s) == data@),
            data@.len() != 129 ==> r is None,
    {
        if data.len() != 129 {
            return None;
        }
        let s = BoringState {
            creator: read_bytes32(data, 0),
            owner: read_bytes32(data, 32),
            strategist: read_bytes32(data, 64),
            config_hash: read_bytes32(data, 96),
            bump: data[128],
        };
        proof {
            assert(state_bytes_spec(s) =~= data@);
        }
        Some(s)
    }
}

/// The persisted byte form is injective: two records with the same encoding
/// are the same record, so decoding an encoded record gives the record back.
pub proof fn lemma_state_bytes_injective(s1: BoringState, s2: BoringState)
    requires
        state_bytes_spec(s1) == state_bytes_spec(s2),
    ensures
        s1 == s2,
{
    let e1 = state_bytes_spec(s1);
    let e2 = state_bytes_spec(s2);
    assert forall|i: int| 0 <= i < 32 implies s1.creator@[i] == s2.creator@[i] by {
        assert(e1[i] == e2[i]);
    }
    assert forall|i: int| 0 <= i < 32 implies s1.owner@[i] == s2.owner@[i] by {
        assert(e1[32 + i] == e2[32 + i]);
    }
    assert forall|i: int| 0 <= i < 32 implies s1.strategist@[i] == s2.strategist@[i] by {
        assert(e1[64 + i] == e2[64 + i]);
    }
    assert forall|i: int| 0 <= i < 32 implies s1.config_hash@[i] == s2.config_hash@[i] by {
        assert(e1[96 + i] == e2[96 + i]);
    }
    assert(s1.bump == e1[128]);
    assert(s2.bump == e2[128]);
    assert(s1.creator =~= s2.creator);
    assert(s1.owner =~= s2.owner);
    assert(s1.strategist =~= s2.strategist);
    assert(s1.config_hash =~= s2.config_hash);
    assert(s1 =~= s2);
}

} // verus!
