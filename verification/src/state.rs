use vstd::prelude::*;

verus! {

/// Upper bound on the byte length of a record's free-text description.
pub const MAX_DESCRIPTION_LENGTH: usize = 100;

/// Size in bytes of a serialized escrow record: an 8-byte type
/// discriminator, the owner and beneficiary identities (32 bytes each), the
/// optional token identifier (presence flag plus 32-byte value), the 8-byte
/// amount, the 8-byte unlock time, the length-prefixed description padded to
/// its maximum, the spent flag, and the derivation bump.
pub const LOCK_ACCOUNT_SIZE: usize = 8 + 32 + 32 + (1 + 32) + 8 + 8 + (4 + MAX_DESCRIPTION_LENGTH)
    + 1 + 1;

/// One escrow record: the sole persisted entity.  Created by exactly one
/// lock-creation call, read and consumed by exactly one successful
/// withdrawal, never otherwise mutated.
#[derive(Clone, Debug)]
pub struct LockAccount {
    /// Identity of the depositor; set once at creation.
    pub owner: [u8; 32],
    /// Identity permitted to withdraw once the unlock time has passed.
    pub beneficiary: [u8; 32],
    /// Token identifier for a tokenized lock; `None` marks a native-coin
    /// lock.  Fixed at creation, and it decides which transfer path may
    /// ever touch the record.
    pub mint: Option<[u8; 32]>,
    /// Quantity held; positive, fixed at creation.
    pub amount: u64,
    /// Absolute time (seconds since the epoch) after which withdrawal is
    /// permitted.
    pub unlock_timestamp: i64,
    /// Free-text annotation (UTF-8 bytes), bounded, purely informational.
    pub description: Vec<u8>,
    /// False at creation; set true exactly once, by a successful withdrawal.
    pub withdrawn: bool,
    /// Nonce that makes the record's derived address valid under the host's
    /// addressing rule; fixed at creation.
    pub bump: u8,
}

/// The mathematical image of an escrow record: every field as a plain
/// value, identities and the description as byte sequences.
#[verifier::ext_equal]
pub ghost struct LockAccountV {
    pub owner: Seq<u8>,
    pub beneficiary: Seq<u8>,
    pub mint: Option<Seq<u8>>,
    pub amount: u64,
    pub unlock_timestamp: i64,
    pub description: Seq<u8>,
    pub withdrawn: bool,
    pub bump: u8,
}

impl View for LockAccount {
    type V = LockAccountV;

    open spec fn view(&self) -> LockAccountV {
        LockAccountV {
            owner: self.owner@,
            beneficiary: self.beneficiary@,
            mint: match self.mint {
                Some(m) => Some(m@),
                None => None,
            },
            amount: self.amount,
            unlock_timestamp: self.unlock_timestamp,
            description: self.description@,
            withdrawn: self.withdrawn,
            bump: self.bump,
        }
    }
}

impl LockAccountV {
    /// Well-formedness: what creation establishes and every later step
    /// preserves.  The unlock time's relation to the creation clock is a
    /// creation-time condition, stated on the creation call itself.
    pub open spec fn inv(self) -> bool {
        &&& self.amount > 0
        &&& self.description.len() <= MAX_DESCRIPTION_LENGTH
        &&& match self.mint {
            Some(m) => m.len() == 32,
            None => true,
        }
    }

    /// The record after its one successful withdrawal: the spent flag set,
    /// every other field untouched.
    pub open spec fn spent(self) -> LockAccountV {
        LockAccountV { withdrawn: true, ..self }
    }
}

/// Copies a byte string, so that one value can stand in both the record
/// and the notification of one call.
pub fn copy_bytes(v: &Vec<u8>) -> (r: Vec<u8>)
    ensures
        r@ == v@,
{
    let mut r: Vec<u8> = Vec::new();
    let mut i: usize = 0;
    while i < v.len()
        invariant
            i <= v@.len(),
            r@ == v@.subrange(0, i as int),
        decreases v@.len() - i,
    {
        r.push(v[i]);
        proof {
            assert(r@ =~= v@.subrange(0, i + 1));
        }
        i += 1;
    }
    proof {
        assert(v@.subrange(0, v@.len() as int) =~= v@);
    }
    r
}

/// Compares two identities byte for byte.
pub fn id_eq(a: &[u8; 32], b: &[u8; 32]) -> (r: bool)
    ensures
        r == (a@ == b@),
{
    let mut i: usize = 0;
    while i < 32
        invariant
            i <= 32,
            forall|j: int| 0 <= j < i ==> a@[j] == b@[j],
        decreases 32 - i,
    {
        if a[i] != b[i] {
            assert(a@ != b@);
            return false;
        }
        i += 1;
    }
    proof {
        assert(a@ =~= b@);
    }
    true
}

} // verus!
