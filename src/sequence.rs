use vstd::prelude::*;
use vstd::utf8::encode_utf8;

use crate::size::{add_sizes, capped, sum_sizes, BorshSize, ARRAY_SIZE_BYTES_SIZE};

verus! {

/// Sum of the sizes of the elements of `s`.
pub open spec fn elems_size<T: BorshSize>(s: Seq<T>) -> nat
    decreases s.len(),
{
    if s.len() == 0 {
        0
    } else {
        elems_size(s.drop_last()) + s.last().spec_borsh_size()
    }
}

/// Whether every element of `s` reports an exact size.
pub open spec fn elems_exact<T: BorshSize>(s: Seq<T>) -> bool {
    forall|i: int| 0 <= i < s.len() ==> #[trigger] s[i].spec_size_is_exact()
}

/// Size of a length-prefixed sequence holding the elements of `s`.
pub open spec fn seq_size<T: BorshSize>(s: Seq<T>) -> nat {
    ARRAY_SIZE_BYTES_SIZE as nat + elems_size(s)
}

/// Bytes of the UTF-8 encoding of `chars`.
pub open spec fn utf8_len(chars: Seq<char>) -> nat {
    encode_utf8(chars).len()
}

/// Size of a text of `chars`: the length prefix and its UTF-8 bytes.
pub open spec fn text_size(chars: Seq<char>) -> nat {
    ARRAY_SIZE_BYTES_SIZE as nat + utf8_len(chars)
}

/// Size of a sequence whose elements reported `element_sizes`: the length
/// prefix plus their sum.
pub fn sequence_size(element_sizes: &[usize]) -> (r: usize)
    ensures
        r as nat == capped(ARRAY_SIZE_BYTES_SIZE as nat + sum_sizes(element_sizes@)),
{
    let mut total: usize = ARRAY_SIZE_BYTES_SIZE;
    let mut i: usize = 0;
    while i < element_sizes.len()
        invariant
            i <= element_sizes@.len(),
            total as nat == capped(
                ARRAY_SIZE_BYTES_SIZE as nat + sum_sizes(element_sizes@.take(i as int)),
            ),
        decreases element_sizes@.len() - i,
    {
        proof {
            assert(element_sizes@.take(i + 1).drop_last() =~= element_sizes@.take(i as int));
        }
        total = add_sizes(total, element_sizes[i]);
        i = i + 1;
    }
    proof {
        assert(element_sizes@.take(element_sizes@.len() as int) =~= element_sizes@);
    }
    total
}

/// Whether each of `r` is what the matching element of `s` may report.
pub open spec fn reported_by<T: BorshSize>(r: Seq<usize>, s: Seq<T>) -> bool {
    &&& r.len() == s.len()
    &&& forall|j: int|
        0 <= j < s.len() ==> #[trigger] r[j] as nat >= capped(s[j].spec_borsh_size()) && (
        s[j].spec_size_is_exact() ==> r[j] as nat == capped(s[j].spec_borsh_size()))
}

/// A sequence sized from what its elements reported is at least its size,
/// and exactly it when every element is exact.
proof fn lemma_sequence_size_of_reported<T: BorshSize>(r: Seq<usize>, s: Seq<T>)
    requires
        reported_by(r, s),
    ensures
        capped(ARRAY_SIZE_BYTES_SIZE as nat + sum_sizes(r)) >= capped(seq_size(s)),
        elems_exact(s) ==> capped(ARRAY_SIZE_BYTES_SIZE as nat + sum_sizes(r)) == capped(
            seq_size(s),
        ),
    decreases s.len(),
{
    if s.len() > 0 {
        let k = s.len() - 1;
        assert(r[k] as nat >= capped(s[k].spec_borsh_size()));
        assert(reported_by(r.drop_last(), s.drop_last())) by {
            assert forall|j: int| 0 <= j < s.drop_last().len() implies #[trigger] r.drop_last()[j]
                as nat >= capped(s.drop_last()[j].spec_borsh_size()) && (
            s.drop_last()[j].spec_size_is_exact() ==> r.drop_last()[j] as nat == capped(
                s.drop_last()[j].spec_borsh_size(),
            )) by {
                assert(r[j] as nat >= capped(s[j].spec_borsh_size()));
            }
        }
        lemma_sequence_size_of_reported(r.drop_last(), s.drop_last());
        if elems_exact(s) {
            assert(s[k].spec_size_is_exact());
            assert forall|j: int| 0 <= j < s.drop_last().len() implies #[trigger] s.drop_last()[
                j].spec_size_is_exact() by {
                assert(s[j].spec_size_is_exact());
            }
        }
    }
}

/// Size of the elements of `s`: each element reports its size, and the
/// sequence is sized from those results.
fn slice_borsh_size<T: BorshSize>(s: &[T]) -> (r: usize)
    ensures
        r as nat >= capped(seq_size(s@)),
        elems_exact(s@) ==> r as nat == capped(seq_size(s@)),
{
    let mut sizes: Vec<usize> = Vec::new();
    let mut i: usize = 0;
    while i < s.len()
        invariant
            i <= s@.len(),
            reported_by(sizes@, s@.take(i as int)),
        decreases s@.len() - i,
    {
        let r = s[i].calculate_borsh_size();
        let ghost prev = sizes@;
        sizes.push(r);
        proof {
            let taken = s@.take(i + 1);
            assert forall|j: int| 0 <= j < i + 1 implies #[trigger] sizes@[j] as nat >= capped(
                taken[j].spec_borsh_size(),
            ) && (taken[j].spec_size_is_exact() ==> sizes@[j] as nat == capped(
                taken[j].spec_borsh_size(),
            )) by {
                if j < i {
                    assert(sizes@[j] == prev[j]);
                    assert(taken[j] == s@.take(i as int)[j]);
                }
            }
        }
        i = i + 1;
    }
    proof {
        assert(s@.take(s@.len() as int) =~= s@);
        lemma_sequence_size_of_reported(sizes@, s@);
    }
    sequence_size(sizes.as_slice())
}

/// Size of an owned text buffer of the given capacity: the length prefix and
/// the capacity in bytes.
pub fn text_buffer_size(capacity: usize) -> (r: usize)
    ensures
        r as nat == capped(ARRAY_SIZE_BYTES_SIZE as nat + capacity as nat),
{
    add_sizes(ARRAY_SIZE_BYTES_SIZE, capacity)
}

/// Relies on `String::capacity`: the size in bytes of the string's buffer,
/// which is never below its length.
#[verifier::external_body]
fn string_capacity(s: &String) -> (r: usize)
    ensures
        r as nat >= utf8_len(s@),
{
    s.capacity()
}

impl<T: BorshSize> BorshSize for [T] {
    open spec fn spec_borsh_size(&self) -> nat {
        seq_size(self@)
    }

    open spec fn spec_size_is_exact(&self) -> bool {
        elems_exact(self@)
    }

    fn calculate_borsh_size(&self) -> (r: usize) {
        slice_borsh_size(self)
    }
}

impl<T: BorshSize> BorshSize for Vec<T> {
    open spec fn spec_borsh_size(&self) -> nat {
        seq_size(self@)
    }

    open spec fn spec_size_is_exact(&self) -> bool {
        elems_exact(self@)
    }

    fn calculate_borsh_size(&self) -> (r: usize) {
        slice_borsh_size(self.as_slice())
    }
}

// A fixed-size array is sized as a sequence, length prefix included.
impl<T: BorshSize, const N: usize> BorshSize for [T; N] {
    open spec fn spec_borsh_size(&self) -> nat {
        seq_size(self@)
    }

    open spec fn spec_size_is_exact(&self) -> bool {
        elems_exact(self@)
    }

    fn calculate_borsh_size(&self) -> (r: usize) {
        broadcast use vstd::array::axiom_spec_array_as_slice;

        slice_borsh_size(vstd::array::array_as_slice(self))
    }
}

impl BorshSize for str {
    open spec fn spec_borsh_size(&self) -> nat {
        text_size(self@)
    }

    open spec fn spec_size_is_exact(&self) -> bool {
        true
    }

    fn calculate_borsh_size(&self) -> (r: usize) {
        add_sizes(ARRAY_SIZE_BYTES_SIZE, self.as_bytes().len())
    }
}

impl<'a> BorshSize for &'a str {
    open spec fn spec_borsh_size(&self) -> nat {
        text_size(self@)
    }

    open spec fn spec_size_is_exact(&self) -> bool {
        true
    }

    fn calculate_borsh_size(&self) -> (r: usize) {
        add_sizes(ARRAY_SIZE_BYTES_SIZE, self.as_bytes().len())
    }
}

// An owned text buffer reports its capacity, not its length.
impl BorshSize for String {
    open spec fn spec_borsh_size(&self) -> nat {
        text_size(self@)
    }

    open spec fn spec_size_is_exact(&self) -> bool {
        false
    }

    fn calculate_borsh_size(&self) -> (r: usize) {
        text_buffer_size(string_capacity(self))
    }
}

impl<'a> BorshSize for &'a String {
    open spec fn spec_borsh_size(&self) -> nat {
        text_size(self@)
    }

    open spec fn spec_size_is_exact(&self) -> bool {
        false
    }

    fn calculate_borsh_size(&self) -> (r: usize) {
        text_buffer_size(string_capacity(self))
    }
}

/// A fixed-size array is sized as the dynamic sequence, and as the slice, of
/// the same elements, length prefix included, and is exact in the same cases.
pub proof fn lemma_fixed_sequence_sized_as_dynamic<T: BorshSize, const N: usize>(
    a: [T; N],
    v: Vec<T>,
    s: &[T],
)
    requires
        a@ == v@,
        s@ == v@,
    ensures
        a.spec_borsh_size() == v.spec_borsh_size(),
        a.spec_size_is_exact() == v.spec_size_is_exact(),
        s.spec_borsh_size() == v.spec_borsh_size(),
        s.spec_size_is_exact() == v.spec_size_is_exact(),
{
}

/// Appending an element adds that element's size to a sequence's size, the
/// prefix being counted once; the sequence stays exact iff the element is.
pub proof fn lemma_sequence_size_push<T: BorshSize>(s: Seq<T>, x: T)
    ensures
        seq_size(s.push(x)) == seq_size(s) + x.spec_borsh_size(),
        elems_exact(s.push(x)) == (elems_exact(s) && x.spec_size_is_exact()),
{
    assert(s.push(x).drop_last() =~= s);
    if elems_exact(s.push(x)) {
        assert(s.push(x)[s.len() as int] == x);
        assert forall|i: int| 0 <= i < s.len() implies #[trigger] s[i].spec_size_is_exact() by {
            assert(s.push(x)[i] == s[i]);
        }
    }
    if elems_exact(s) && x.spec_size_is_exact() {
        assert forall|i: int| 0 <= i < s.push(x).len() implies #[trigger] s.push(
            x,
        )[i].spec_size_is_exact() by {
            if i < s.len() {
                assert(s.push(x)[i] == s[i]);
            }
        }
    }
}

/// The elements of two sequences, put one after the other, have the sum of
/// their sizes.
proof fn lemma_elems_size_concat<T: BorshSize>(a: Seq<T>, b: Seq<T>)
    ensures
        elems_size(a + b) == elems_size(a) + elems_size(b),
    decreases b.len(),
{
    if b.len() == 0 {
        assert(a + b =~= a);
    } else {
        assert((a + b).drop_last() =~= a + b.drop_last());
        lemma_elems_size_concat(a, b.drop_last());
    }
}

/// A sequence made of the elements of `a` followed by those of `b` has the
/// size of both, less one length prefix.
pub proof fn lemma_sequence_size_concat<T: BorshSize>(a: Seq<T>, b: Seq<T>)
    ensures
        seq_size(a + b) + ARRAY_SIZE_BYTES_SIZE as nat == seq_size(a) + seq_size(b),
{
    lemma_elems_size_concat(a, b);
}

/// The UTF-8 bytes of two texts put together are the bytes of each.
proof fn lemma_utf8_len_concat(a: Seq<char>, b: Seq<char>)
    ensures
        utf8_len(a + b) == utf8_len(a) + utf8_len(b),
    decreases a.len(),
{
    if a.len() == 0 {
        assert(a + b =~= b);
    } else {
        assert((a + b).drop_first() =~= a.drop_first() + b);
        assert((a + b)[0] == a[0]);
        lemma_utf8_len_concat(a.drop_first(), b);
    }
}

/// Two texts put together have the size of both, less one length prefix.
pub proof fn lemma_text_size_concat(a: Seq<char>, b: Seq<char>)
    ensures
        text_size(a + b) + ARRAY_SIZE_BYTES_SIZE as nat == text_size(a) + text_size(b),
{
    lemma_utf8_len_concat(a, b);
}

} // verus!
