//! Identities and storage addresses, as plain 256-bit values.

use vstd::prelude::*;

verus! {

/// A 256-bit identity: a participant's key or a record's storage address,
/// held as four 64-bit words in little-endian order.
#[derive(Clone, Copy, PartialEq, Eq, Structural, Debug, Hash)]
pub struct Pubkey {
    pub w0: u64,
    pub w1: u64,
    pub w2: u64,
    pub w3: u64,
}

/// The identity of this program: the marketplace itself, under which all
/// derived record addresses live.
pub open spec fn spec_program_id() -> Pubkey {
    Pubkey {
        w0: 0xe9b6450827d25145,
        w1: 0x191cdefc592e31fa,
        w2: 0xd4c4127656d0ed60,
        w3: 0x51e08e76cf869d93,
    }
}

/// The identity of the external token-metadata program that owns metadata
/// records.
pub open spec fn spec_token_metadata_program_id() -> Pubkey {
    Pubkey {
        w0: 0x457cd1e3b165700b,
        w1: 0xcdc3046b7f529d38,
        w2: 0xb5fda01a736cb858,
        w3: 0x4629f803bcd1b649,
    }
}

/// The identity of the platform's system program, which doubles as the mint
/// address of the native payment asset: the all-zero key.
pub open spec fn spec_system_program_id() -> Pubkey {
    Pubkey { w0: 0, w1: 0, w2: 0, w3: 0 }
}

/// This program's own identity.
pub fn id() -> (r: Pubkey)
    ensures
        r == spec_program_id(),
{
    Pubkey {
        w0: 0xe9b6450827d25145,
        w1: 0x191cdefc592e31fa,
        w2: 0xd4c4127656d0ed60,
        w3: 0x51e08e76cf869d93,
    }
}

/// The external token-metadata program's identity.
pub fn token_metadata_program_id() -> (r: Pubkey)
    ensures
        r == spec_token_metadata_program_id(),
{
    Pubkey {
        w0: 0x457cd1e3b165700b,
        w1: 0xcdc3046b7f529d38,
        w2: 0xb5fda01a736cb858,
        w3: 0x4629f803bcd1b649,
    }
}

/// The system program's identity: also the native asset's mint address.
pub fn system_program_id() -> (r: Pubkey)
    ensures
        r == spec_system_program_id(),
{
    Pubkey { w0: 0, w1: 0, w2: 0, w3: 0 }
}

/// The eight little-endian bytes of one 64-bit word.
pub open spec fn spec_word_bytes(w: u64) -> Seq<u8> {
    seq![
        w as u8,
        (w >> 8) as u8,
        (w >> 16) as u8,
        (w >> 24) as u8,
        (w >> 32) as u8,
        (w >> 40) as u8,
        (w >> 48) as u8,
        (w >> 56) as u8,
    ]
}

/// The 32-byte little-endian form of a key.
pub open spec fn spec_key_bytes(k: Pubkey) -> Seq<u8> {
    spec_word_bytes(k.w0) + spec_word_bytes(k.w1) + spec_word_bytes(k.w2) + spec_word_bytes(k.w3)
}

impl Pubkey {
    /// The 32-byte form of the key, for crossing to the platform's own key
    /// type.
    pub fn to_array(&self) -> (r: [u8; 32])
        ensures
            r@ == spec_key_bytes(*self),
    {
        [
            #[verifier::truncate] (self.w0 as u8),
            #[verifier::truncate] ((self.w0 >> 8) as u8),
            #[verifier::truncate] ((self.w0 >> 16) as u8),
            #[verifier::truncate] ((self.w0 >> 24) as u8),
            #[verifier::truncate] ((self.w0 >> 32) as u8),
            #[verifier::truncate] ((self.w0 >> 40) as u8),
            #[verifier::truncate] ((self.w0 >> 48) as u8),
            #[verifier::truncate] ((self.w0 >> 56) as u8),
            #[verifier::truncate] (self.w1 as u8),
            #[verifier::truncate] ((self.w1 >> 8) as u8),
            #[verifier::truncate] ((self.w1 >> 16) as u8),
            #[verifier::truncate] ((self.w1 >> 24) as u8),
            #[verifier::truncate] ((self.w1 >> 32) as u8),
            #[verifier::truncate] ((self.w1 >> 40) as u8),
            #[verifier::truncate] ((self.w1 >> 48) as u8),
            #[verifier::truncate] ((self.w1 >> 56) as u8),
            #[verifier::truncate] (self.w2 as u8),
            #[verifier::truncate] ((self.w2 >> 8) as u8),
            #[verifier::truncate] ((self.w2 >> 16) as u8),
            #[verifier::truncate] ((self.w2 >> 24) as u8),
            #[verifier::truncate] ((self.w2 >> 32) as u8),
            #[verifier::truncate] ((self.w2 >> 40) as u8),
            #[verifier::truncate] ((self.w2 >> 48) as u8),
            #[verifier::truncate] ((self.w2 >> 56) as u8),
            #[verifier::truncate] (self.w3 as u8),
            #[verifier::truncate] ((self.w3 >> 8) as u8),
            #[verifier::truncate] ((self.w3 >> 16) as u8),
            #[verifier::truncate] ((self.w3 >> 24) as u8),
            #[verifier::truncate] ((self.w3 >> 32) as u8),
            #[verifier::truncate] ((self.w3 >> 40) as u8),
            #[verifier::truncate] ((self.w3 >> 48) as u8),
            #[verifier::truncate] ((self.w3 >> 56) as u8),
        ]
    }

    /// A key from its 32-byte form.
    pub fn from_array(b: [u8; 32]) -> (r: Pubkey)
        ensures
            spec_key_bytes(r) == b@,
    {
        let w0: u64 = word_from_bytes(b[0], b[1], b[2], b[3], b[4], b[5], b[6], b[7]);
        let w1: u64 = word_from_bytes(b[8], b[9], b[10], b[11], b[12], b[13], b[14], b[15]);
        let w2: u64 = word_from_bytes(b[16], b[17], b[18], b[19], b[20], b[21], b[22], b[23]);
        let w3: u64 = word_from_bytes(b[24], b[25], b[26], b[27], b[28], b[29], b[30], b[31]);
        let r = Pubkey { w0, w1, w2, w3 };
        proof {
            assert(spec_key_bytes(r) =~= b@);
        }
        r
    }
}

/// One 64-bit word from its eight little-endian bytes.
fn word_from_bytes(b0: u8, b1: u8, b2: u8, b3: u8, b4: u8, b5: u8, b6: u8, b7: u8) -> (w: u64)
    ensures
        spec_word_bytes(w) == seq![b0, b1, b2, b3, b4, b5, b6, b7],
{
    let w: u64 = (b0 as u64) | ((b1 as u64) << 8) | ((b2 as u64) << 16) | ((b3 as u64) << 24) | (
    (b4 as u64) << 32) | ((b5 as u64) << 40) | ((b6 as u64) << 48) | ((b7 as u64) << 56);
    proof {
        assert(w as u8 == b0 && (w >> 8) as u8 == b1 && (w >> 16) as u8 == b2 && (w >> 24) as u8
            == b3 && (w >> 32) as u8 == b4 && (w >> 40) as u8 == b5 && (w >> 48) as u8 == b6 && (w
            >> 56) as u8 == b7) by (bit_vector)
            requires
                w == (b0 as u64) | ((b1 as u64) << 8) | ((b2 as u64) << 16) | ((b3 as u64) << 24)
                    | ((b4 as u64) << 32) | ((b5 as u64) << 40) | ((b6 as u64) << 48) | ((b7
                as u64) << 56),
        ;
        assert(spec_word_bytes(w) =~= seq![b0, b1, b2, b3, b4, b5, b6, b7]);
    }
    w
}

/// The byte form determines the key: two keys with the same bytes are the
/// same key, so the byte boundary loses nothing.
pub proof fn lemma_key_bytes_injective(a: Pubkey, b: Pubkey)
    requires
        spec_key_bytes(a) == spec_key_bytes(b),
    ensures
        a == b,
{
    lemma_key_bytes_parts(a);
    lemma_key_bytes_parts(b);
    lemma_word_bytes_injective(a.w0, b.w0);
    lemma_word_bytes_injective(a.w1, b.w1);
    lemma_word_bytes_injective(a.w2, b.w2);
    lemma_word_bytes_injective(a.w3, b.w3);
}

proof fn lemma_key_bytes_parts(k: Pubkey)
    ensures
        spec_word_bytes(k.w0) == spec_key_bytes(k).subrange(0, 8),
        spec_word_bytes(k.w1) == spec_key_bytes(k).subrange(8, 16),
        spec_word_bytes(k.w2) == spec_key_bytes(k).subrange(16, 24),
        spec_word_bytes(k.w3) == spec_key_bytes(k).subrange(24, 32),
{
    assert(spec_word_bytes(k.w0) =~= spec_key_bytes(k).subrange(0, 8));
    assert(spec_word_bytes(k.w1) =~= spec_key_bytes(k).subrange(8, 16));
    assert(spec_word_bytes(k.w2) =~= spec_key_bytes(k).subrange(16, 24));
    assert(spec_word_bytes(k.w3) =~= spec_key_bytes(k).subrange(24, 32));
}

proof fn lemma_word_bytes_injective(v: u64, w: u64)
    requires
        spec_word_bytes(v) == spec_word_bytes(w),
    ensures
        v == w,
{
    assert(v as u8 == w as u8 && (v >> 8) as u8 == (w >> 8) as u8 && (v >> 16) as u8 == (w >> 16)
        as u8 && (v >> 24) as u8 == (w >> 24) as u8 && (v >> 32) as u8 == (w >> 32) as u8 && (v
        >> 40) as u8 == (w >> 40) as u8 && (v >> 48) as u8 == (w >> 48) as u8 && (v >> 56) as u8
        == (w >> 56) as u8 ==> v == w) by (bit_vector);
    assert(spec_word_bytes(v)[0] == spec_word_bytes(w)[0]);
    assert(spec_word_bytes(v)[1] == spec_word_bytes(w)[1]);
    assert(spec_word_bytes(v)[2] == spec_word_bytes(w)[2]);
    assert(spec_word_bytes(v)[3] == spec_word_bytes(w)[3]);
    assert(spec_word_bytes(v)[4] == spec_word_bytes(w)[4]);
    assert(spec_word_bytes(v)[5] == spec_word_bytes(w)[5]);
    assert(spec_word_bytes(v)[6] == spec_word_bytes(w)[6]);
    assert(spec_word_bytes(v)[7] == spec_word_bytes(w)[7]);
}

} // verus!
