use vstd::prelude::*;

verus! {

/// Width in bytes of the length prefix written before every sequence and text.
pub const ARRAY_SIZE_BYTES_SIZE: usize = 4;

/// `n`, or `usize::MAX` where `n` does not fit: sizes are added with saturation.
pub open spec fn capped(n: nat) -> nat {
    if n > usize::MAX {
        usize::MAX as nat
    } else {
        n
    }
}

/// The number of bytes a value's binary encoding occupies.
///
/// `spec_borsh_size` counts every owned text buffer at its content length.
/// Such a buffer reports its capacity instead, which may be larger; a value
/// that reaches no such buffer reports exactly `spec_borsh_size`.
/// Sums that do not fit in `usize` saturate at `usize::MAX`.
pub trait BorshSize {
    /// Bytes of the encoding, owned text buffers taken at their length.
    spec fn spec_borsh_size(&self) -> nat;

    /// Whether the reported size is fixed by the contents alone, that is,
    /// whether no owned text buffer is reached.
    spec fn spec_size_is_exact(&self) -> bool;

    fn calculate_borsh_size(&self) -> (r: usize)
        ensures
            r as nat >= capped(self.spec_borsh_size()),
            self.spec_size_is_exact() ==> r as nat == capped(self.spec_borsh_size()),
    ;
}

/// Sum of `s`.
pub open spec fn sum_sizes(s: Seq<usize>) -> nat
    decreases s.len(),
{
    if s.len() == 0 {
        0
    } else {
        sum_sizes(s.drop_last()) + s.last() as nat
    }
}

/// `sum_sizes` of `t` is that of `t` without its `j`-th item, plus that item.
proof fn lemma_sum_sizes_remove(t: Seq<usize>, j: int)
    requires
        0 <= j < t.len(),
    ensures
        sum_sizes(t) == sum_sizes(t.remove(j)) + t[j] as nat,
    decreases t.len(),
{
    if j < t.len() - 1 {
        assert(t.remove(j).drop_last() =~= t.drop_last().remove(j));
        lemma_sum_sizes_remove(t.drop_last(), j);
    } else {
        assert(t.remove(j) =~= t.drop_last());
    }
}

/// Sizes taken in any order have the same sum: reordering the elements of a
/// sequence, or the fields of a record, keeps the total of their sizes.
pub proof fn lemma_sum_sizes_reordered(s: Seq<usize>, t: Seq<usize>)
    requires
        s.to_multiset() == t.to_multiset(),
    ensures
        sum_sizes(s) == sum_sizes(t),
    decreases s.len(),
{
    broadcast use vstd::seq_lib::group_to_multiset_ensures;

    if s.len() == 0 {
        assert(t.to_multiset().len() == 0);
    } else {
        let x = s.last();
        assert(s =~= s.drop_last().push(x));
        assert(s.to_multiset().count(x) > 0);
        assert(t.contains(x));
        let j = choose|j: int| 0 <= j < t.len() && t[j] == x;
        assert(t.remove(j).to_multiset() =~= s.drop_last().to_multiset());
        lemma_sum_sizes_reordered(s.drop_last(), t.remove(j));
        lemma_sum_sizes_remove(t, j);
    }
}

/// The sizes of two lists put one after the other sum to the sums of both.
pub proof fn lemma_sum_sizes_concat(a: Seq<usize>, b: Seq<usize>)
    ensures
        sum_sizes(a + b) == sum_sizes(a) + sum_sizes(b),
    decreases b.len(),
{
    if b.len() == 0 {
        assert(a + b =~= a);
    } else {
        assert((a + b).drop_last() =~= a + b.drop_last());
        lemma_sum_sizes_concat(a, b.drop_last());
    }
}

/// `a + b`, saturating at `usize::MAX`.
pub fn add_sizes(a: usize, b: usize) -> (r: usize)
    ensures
        r as nat == capped(a as nat + b as nat),
{
    a.saturating_add(b)
}

} // verus!
