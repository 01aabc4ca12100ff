//! Tag bit-sets and their projection onto a fixed number of tags.
use bitvec::order::Lsb0;
use bitvec::view::BitView;
use vstd::prelude::*;

verus! {

/// The least tag count a snapshot may carry.
pub const MIN_TAGS: u8 = 1;

/// The greatest tag count a snapshot may carry (a tag word has 32 bits).
pub const MAX_TAGS: u8 = 32;

/// Whether bit `i` (counted from the least significant) of `word` is set.
pub open spec fn bit_of(word: u32, i: int) -> bool {
    (word >> (i as u32)) & 1u32 == 1u32
}

/// The bits of a tag word, least significant first.
pub open spec fn word_bits(word: u32) -> Seq<bool> {
    Seq::new(32, |i: int| bit_of(word, i))
}

/// A bit-set laid out on exactly `n` tags: position `i` holds bit `i` where the
/// bit-set has one, and `false` past its end.
pub open spec fn project(bits: Seq<bool>, n: nat) -> Seq<bool> {
    Seq::new(n, |i: int| i < bits.len() && bits[i])
}

/// Relies on bitvec's `BitView::view_bits` in `Lsb0` order: a `u32` seen as a
/// slice of 32 bits whose index `i` selects `1 << i`, read out in index order.
#[verifier::external_body]
pub(crate) fn word_to_bits(word: u32) -> (r: Vec<bool>)
    ensures
        r@ == word_bits(word),
{
    word.view_bits::<Lsb0>().iter().by_vals().collect()
}

/// Lays a bit-set out on exactly `n` tags, dropping the bits past `n` and
/// padding with `false` where the bit-set is shorter.
pub fn project_tags(bits: &Vec<bool>, n: usize) -> (r: Vec<bool>)
    ensures
        r@ == project(bits@, n as nat),
{
    let mut out: Vec<bool> = Vec::with_capacity(n);
    let mut i: usize = 0;
    while i < n
        invariant
            i <= n,
            out@ == project(bits@, i as nat),
        decreases n - i,
    {
        let b = i < bits.len() && bits[i];
        out.push(b);
        assert(out@ =~= project(bits@, (i + 1) as nat));
        i = i + 1;
    }
    out
}

/// Projecting a bit-set that is already laid out on `n` tags onto `n` tags
/// again leaves it as it is.
pub proof fn lemma_project_idempotent(bits: Seq<bool>, n: nat)
    ensures
        project(project(bits, n), n) == project(bits, n),
{
    assert(project(project(bits, n), n) =~= project(bits, n));
}

} // verus!
