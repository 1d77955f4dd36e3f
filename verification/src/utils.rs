//! Fixed-width text storage and shared configuration constants.

use vstd::prelude::*;

verus! {

/// Width every stored name is padded to.
pub const NAME_MAX_LEN: usize = 40;

/// Width every stored description is padded to.
pub const DESCRIPTION_MAX_LEN: usize = 60;

/// Balance moved into a native-asset treasury holder when a market is
/// created, so the holder persists under the platform's storage-rent model.
pub const MINIMUM_BALANCE_FOR_SYSTEM_ACCS: u64 = 890880;

/// A stored text of width `width`: the content followed by
/// `width - content.len()` padding characters.
pub open spec fn padded(s: Seq<char>, width: int) -> Seq<char>
    recommends
        s.len() <= width,
{
    s + Seq::new((width - s.len()) as nat, |i: int| '\u{0}')
}

/// Right-pads `s` with the zero character to exactly `width` characters, so
/// the stored size never depends on the input length.
pub fn puffed_out_string(s: &str, width: usize) -> (r: String)
    requires
        s@.len() <= width,
    ensures
        r@ == padded(s@, width as int),
{
    let mut r: String = s.to_owned();
    let n: usize = s.unicode_len();
    let mut i: usize = n;
    proof {
        reveal_strlit("\u{0}");
        assert(r@ =~= s@ + Seq::new(0, |j: int| '\u{0}'));
    }
    while i < width
        invariant
            n == s@.len(),
            n <= i <= width,
            r@ == s@ + Seq::new((i - n) as nat, |j: int| '\u{0}'),
        decreases width - i,
    {
        r.append("\u{0}");
        proof {
            reveal_strlit("\u{0}");
            assert(r@ =~= s@ + Seq::new((i + 1 - n) as nat, |j: int| '\u{0}'));
        }
        i = i + 1;
    }
    proof {
        assert(r@ =~= padded(s@, width as int));
    }
    r
}

} // verus!
