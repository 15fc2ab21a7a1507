//! The fixed-size byte layout of a persisted escrow record.
//!
//! A record serializes to exactly `LOCK_ACCOUNT_SIZE` bytes: the type
//! discriminator, the two identities, the optional token identifier as a
//! presence flag and a 32-byte value, the amount and the unlock time in
//! little-endian, the length-prefixed description padded to its maximum,
//! the spent flag, and the bump.  Decoding accepts any byte string that
//! carries a well-formed image and recovers the record exactly.

use vstd::prelude::*;
use vstd::bytes::spec_u32_to_le_bytes;
use vstd::bytes::spec_u32_from_le_bytes;
use vstd::bytes::spec_u64_to_le_bytes;
use vstd::bytes::spec_u64_from_le_bytes;
use vstd::bytes::u32_to_le_bytes;
use vstd::bytes::u32_from_le_bytes;
use vstd::bytes::u64_to_le_bytes;
use vstd::bytes::u64_from_le_bytes;
use vstd::bytes::lemma_auto_spec_u32_to_from_le_bytes;
use vstd::bytes::lemma_auto_spec_u64_to_from_le_bytes;
use crate::bytes_le::spec_i64_to_le_bytes;
use crate::bytes_le::spec_i64_from_le_bytes;
use crate::bytes_le::i64_to_le_bytes;
use crate::bytes_le::i64_from_le_bytes;
use crate::bytes_le::lemma_i64_to_from_le_bytes;
use crate::state::LockAccount;
use crate::state::LockAccountV;
use crate::state::LOCK_ACCOUNT_SIZE;
use crate::state::MAX_DESCRIPTION_LENGTH;

verus! {

/// The discriminator that opens every serialized record: the ASCII bytes
/// of "lockacct".
pub open spec fn spec_discriminator() -> Seq<u8> {
    seq![108u8, 111u8, 99u8, 107u8, 97u8, 99u8, 99u8, 116u8]
}

/// A run of zero bytes.
pub open spec fn zero_bytes(n: nat) -> Seq<u8> {
    Seq::new(n, |i: int| 0u8)
}

/// The optional token identifier on the wire: a presence flag, then the
/// identifier itself or a zeroed placeholder of the same width.
pub open spec fn spec_mint_bytes(mint: Option<Seq<u8>>) -> Seq<u8> {
    match mint {
        None => seq![0u8] + zero_bytes(32),
        Some(m) => seq![1u8] + m,
    }
}

/// The byte a flag serializes to.
pub open spec fn spec_flag_byte(b: bool) -> u8 {
    if b {
        1u8
    } else {
        0u8
    }
}

/// The serialized image of a record.
pub open spec fn spec_encode(l: LockAccountV) -> Seq<u8> {
    spec_discriminator() + l.owner + l.beneficiary + spec_mint_bytes(l.mint)
        + spec_u64_to_le_bytes(l.amount) + spec_i64_to_le_bytes(l.unlock_timestamp)
        + spec_u32_to_le_bytes(l.description.len() as u32) + l.description + zero_bytes(
        (MAX_DESCRIPTION_LENGTH - l.description.len()) as nat,
    ) + seq![spec_flag_byte(l.withdrawn)] + seq![l.bump]
}

/// The record a byte string carries, or `None` when it is not a
/// well-formed image: wrong size, wrong discriminator, a flag byte other
/// than zero or one, or a description length beyond the maximum.
pub open spec fn spec_decode(s: Seq<u8>) -> Option<LockAccountV> {
    if s.len() != LOCK_ACCOUNT_SIZE {
        None
    } else if s.subrange(0, 8) != spec_discriminator() {
        None
    } else if s[72] != 0 && s[72] != 1 {
        None
    } else if spec_u32_from_le_bytes(s.subrange(121, 125)) > MAX_DESCRIPTION_LENGTH as u32 {
        None
    } else if s[225] != 0 && s[225] != 1 {
        None
    } else {
        let desc_len = spec_u32_from_le_bytes(s.subrange(121, 125)) as int;
        Some(
            LockAccountV {
                owner: s.subrange(8, 40),
                beneficiary: s.subrange(40, 72),
                mint: if s[72] == 1 {
                    Some(s.subrange(73, 105))
                } else {
                    None
                },
                amount: spec_u64_from_le_bytes(s.subrange(105, 113)),
                unlock_timestamp: spec_i64_from_le_bytes(s.subrange(113, 121)),
                description: s.subrange(125, 125 + desc_len),
                withdrawn: s[225] == 1,
                bump: s[226],
            },
        )
    }
}

/// Appends the bytes of a 32-byte identity.
fn push_id(out: &mut Vec<u8>, id: &[u8; 32])
    ensures
        final(out)@ == old(out)@ + id@,
{
    let ghost base = out@;
    proof {
        assert(out@ =~= base + id@.subrange(0, 0));
    }
    let mut i: usize = 0;
    while i < 32
        invariant
            i <= 32,
            out@ == base + id@.subrange(0, i as int),
        decreases 32 - i,
    {
        out.push(id[i]);
        proof {
            assert(base + id@.subrange(0, i + 1) =~= (base + id@.subrange(0, i as int)).push(
                id@[i as int],
            ));
        }
        i += 1;
    }
    proof {
        assert(id@.subrange(0, 32) =~= id@);
    }
}

/// Appends a run of zero bytes.
fn push_zeros(out: &mut Vec<u8>, n: usize)
    ensures
        final(out)@ == old(out)@ + zero_bytes(n as nat),
{
    let ghost base = out@;
    proof {
        assert(out@ =~= base + zero_bytes(0));
    }
    let mut i: usize = 0;
    while i < n
        invariant
            i <= n,
            out@ == base + zero_bytes(i as nat),
        decreases n - i,
    {
        out.push(0);
        proof {
            assert(base + zero_bytes((i + 1) as nat) =~= (base + zero_bytes(i as nat)).push(0u8));
        }
        i += 1;
    }
}

/// Serializes a record to its fixed-size image.
pub fn encode(l: &LockAccount) -> (r: Vec<u8>)
    requires
        l.description@.len() <= MAX_DESCRIPTION_LENGTH,
    ensures
        r@ == spec_encode(l@),
        r@.len() == LOCK_ACCOUNT_SIZE,
{
    proof {
        lemma_auto_spec_u32_to_from_le_bytes();
        lemma_auto_spec_u64_to_from_le_bytes();
        lemma_i64_to_from_le_bytes(l.unlock_timestamp);
    }
    let mut out: Vec<u8> = Vec::new();
    out.push(108);
    out.push(111);
    out.push(99);
    out.push(107);
    out.push(97);
    out.push(99);
    out.push(99);
    out.push(116);
    proof {
        assert(out@ =~= spec_discriminator());
    }
    push_id(&mut out, &l.owner);
    push_id(&mut out, &l.beneficiary);
    match &l.mint {
        None => {
            out.push(0);
            proof {
                assert(out@.subrange(72, 73) =~= seq![0u8]);
            }
            push_zeros(&mut out, 32);
        },
        Some(m) => {
            out.push(1);
            push_id(&mut out, m);
        },
    }
    proof {
        assert(spec_discriminator() + l@.owner + l@.beneficiary + seq![0u8] + zero_bytes(32)
            =~= spec_discriminator() + l@.owner + l@.beneficiary + (seq![0u8] + zero_bytes(32)));
        if l@.mint is Some {
            assert(spec_discriminator() + l@.owner + l@.beneficiary + seq![1u8] + l@.mint->0
                =~= spec_discriminator() + l@.owner + l@.beneficiary + (seq![1u8] + l@.mint->0));
        }
        assert(out@ =~= spec_discriminator() + l@.owner + l@.beneficiary + spec_mint_bytes(
            l@.mint,
        ));
    }
    let mut amount_bytes = u64_to_le_bytes(l.amount);
    out.append(&mut amount_bytes);
    let mut time_bytes = i64_to_le_bytes(l.unlock_timestamp);
    out.append(&mut time_bytes);
    let mut len_bytes = u32_to_le_bytes(l.description.len() as u32);
    out.append(&mut len_bytes);
    let mut i: usize = 0;
    let ghost mid = out@;
    while i < l.description.len()
        invariant
            i <= l.description@.len(),
            out@ == mid + l.description@.subrange(0, i as int),
        decreases l.description@.len() - i,
    {
        out.push(l.description[i]);
        proof {
            assert(mid + l.description@.subrange(0, i + 1) =~= (mid + l.description@.subrange(
                0,
                i as int,
            )).push(l.description@[i as int]));
        }
        i += 1;
    }
    proof {
        assert(l.description@.subrange(0, l.description@.len() as int) =~= l.description@);
    }
    push_zeros(&mut out, MAX_DESCRIPTION_LENGTH - l.description.len());
    out.push(if l.withdrawn {
        1
    } else {
        0
    });
    out.push(l.bump);
    proof {
        assert(out@ =~= spec_encode(l@));
        assert(out@.len() == LOCK_ACCOUNT_SIZE);
    }
    out
}

/// Reads a 32-byte identity out of an image.
fn read_id(bytes: &[u8], off: usize) -> (r: [u8; 32])
    requires
        off + 32 <= bytes@.len(),
    ensures
        r@ == bytes@.subrange(off as int, off + 32),
{
    let n = bytes.len();
    let mut r: [u8; 32] = [0; 32];
    let mut i: usize = 0;
    while i < 32
        invariant
            i <= 32,
            off + 32 <= n,
            n == bytes@.len(),
            forall|j: int| 0 <= j < i ==> r@[j] == bytes@[off + j],
        decreases 32 - i,
    {
        r[i] = bytes[off + i];
        i += 1;
    }
    proof {
        assert(r@ =~= bytes@.subrange(off as int, off + 32));
    }
    r
}

/// Copies a range of an image into a fresh byte vector.
fn read_range(bytes: &[u8], off: usize, len: usize) -> (r: Vec<u8>)
    requires
        off + len <= bytes@.len(),
    ensures
        r@ == bytes@.subrange(off as int, off + len),
{
    let n = bytes.len();
    let mut r: Vec<u8> = Vec::new();
    let mut i: usize = 0;
    while i < len
        invariant
            i <= len,
            off + len <= n,
            n == bytes@.len(),
            r@ == bytes@.subrange(off as int, off + i),
        decreases len - i,
    {
        r.push(bytes[off + i]);
        proof {
            assert(bytes@.subrange(off as int, off + i + 1) =~= bytes@.subrange(
                off as int,
                off + i,
            ).push(bytes@[off + i]));
        }
        i += 1;
    }
    r
}

/// Deserializes a record from its image; `None` on any byte string that is
/// not the well-formed image of one.
pub fn decode(bytes: &[u8]) -> (r: Option<LockAccount>)
    ensures
        match r {
            Some(l) => spec_decode(bytes@) == Some(l@) && l.description@.len()
                <= MAX_DESCRIPTION_LENGTH,
            None => spec_decode(bytes@) is None,
        },
{
    proof {
        lemma_auto_spec_u32_to_from_le_bytes();
        lemma_auto_spec_u64_to_from_le_bytes();
    }
    if bytes.len() != LOCK_ACCOUNT_SIZE {
        return None;
    }
    if bytes[0] != 108 || bytes[1] != 111 || bytes[2] != 99 || bytes[3] != 107 || bytes[4] != 97
        || bytes[5] != 99 || bytes[6] != 99 || bytes[7] != 116 {
        proof {
            assert(bytes@.subrange(0, 8) != spec_discriminator()) by {
                if bytes@.subrange(0, 8) == spec_discriminator() {
                    assert(bytes@[0] == spec_discriminator()[0]);
                    assert(bytes@[1] == spec_discriminator()[1]);
                    assert(bytes@[2] == spec_discriminator()[2]);
                    assert(bytes@[3] == spec_discriminator()[3]);
                    assert(bytes@[4] == spec_discriminator()[4]);
                    assert(bytes@[5] == spec_discriminator()[5]);
                    assert(bytes@[6] == spec_discriminator()[6]);
                    assert(bytes@[7] == spec_discriminator()[7]);
                }
            }
        }
        return None;
    }
    proof {
        assert(bytes@.subrange(0, 8) =~= spec_discriminator());
    }
    let flag = bytes[72];
    if flag != 0 && flag != 1 {
        return None;
    }
    let len_vec = read_range(bytes, 121, 4);
    let desc_len_u32 = u32_from_le_bytes(len_vec.as_slice());
    if desc_len_u32 > MAX_DESCRIPTION_LENGTH as u32 {
        return None;
    }
    let desc_len = desc_len_u32 as usize;
    let spent_byte = bytes[225];
    if spent_byte != 0 && spent_byte != 1 {
        return None;
    }
    let owner = read_id(bytes, 8);
    let beneficiary = read_id(bytes, 40);
    let mint: Option<[u8; 32]> = if flag == 1 {
        Some(read_id(bytes, 73))
    } else {
        None
    };
    let amount_vec = read_range(bytes, 105, 8);
    let amount = u64_from_le_bytes(amount_vec.as_slice());
    let time_vec = read_range(bytes, 113, 8);
    let unlock_timestamp = i64_from_le_bytes(time_vec.as_slice());
    let description = read_range(bytes, 125, desc_len);
    let record = LockAccount {
        owner,
        beneficiary,
        mint,
        amount,
        unlock_timestamp,
        description,
        withdrawn: spent_byte == 1,
        bump: bytes[226],
    };
    proof {
        assert(spec_decode(bytes@) == Some(record@)) by {
            let d = spec_decode(bytes@)->0;
            assert(d =~= record@);
        }
    }
    Some(record)
}

/// Serialization round trip: decoding the image of any well-formed record
/// yields that record back, so persisting and re-reading a record loses
/// nothing.
pub proof fn lemma_encode_decode(l: LockAccountV)
    requires
        l.owner.len() == 32,
        l.beneficiary.len() == 32,
        match l.mint {
            Some(m) => m.len() == 32,
            None => true,
        },
        l.description.len() <= MAX_DESCRIPTION_LENGTH,
    ensures
        spec_encode(l).len() == LOCK_ACCOUNT_SIZE,
        spec_decode(spec_encode(l)) == Some(l),
{
    lemma_auto_spec_u32_to_from_le_bytes();
    lemma_auto_spec_u64_to_from_le_bytes();
    lemma_i64_to_from_le_bytes(l.unlock_timestamp);
    let s = spec_encode(l);
    assert(spec_mint_bytes(l.mint).len() == 33);
    assert(s.len() == LOCK_ACCOUNT_SIZE);
    assert(s.subrange(0, 8) =~= spec_discriminator());
    assert(s.subrange(8, 40) =~= l.owner);
    assert(s.subrange(40, 72) =~= l.beneficiary);
    assert(s.subrange(72, 105) =~= spec_mint_bytes(l.mint));
    assert(s[72] == spec_mint_bytes(l.mint)[0]);
    assert(s.subrange(105, 113) =~= spec_u64_to_le_bytes(l.amount));
    assert(s.subrange(113, 121) =~= spec_i64_to_le_bytes(l.unlock_timestamp));
    assert(s.subrange(121, 125) =~= spec_u32_to_le_bytes(l.description.len() as u32));
    assert(s.subrange(125, 125 + l.description.len() as int) =~= l.description);
    assert(s[225] == spec_flag_byte(l.withdrawn));
    assert(s[226] == l.bump);
    match l.mint {
        None => {
            assert(s[72] == 0);
        },
        Some(m) => {
            assert(s[72] == 1);
            assert(s.subrange(73, 105) =~= m);
        },
    }
    let d = spec_decode(s)->0;
    assert(d =~= l);
}

} // verus!
