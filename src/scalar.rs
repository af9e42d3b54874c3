use vstd::layout::size_of;
use vstd::prelude::*;

use crate::size::BorshSize;

verus! {

broadcast use vstd::layout::layout_of_primitives, vstd::layout::layout_of_unit_tuple;

/// The storage width in bytes of each scalar, which its size is.
pub proof fn lemma_scalar_widths()
    ensures
        size_of::<()>() == 0,
        size_of::<bool>() == 1,
        size_of::<char>() == 4,
        size_of::<u8>() == 1 && size_of::<i8>() == 1,
        size_of::<u16>() == 2 && size_of::<i16>() == 2,
        size_of::<u32>() == 4 && size_of::<i32>() == 4,
        size_of::<u64>() == 8 && size_of::<i64>() == 8,
        size_of::<u128>() == 16 && size_of::<i128>() == 16,
        size_of::<usize>() == size_of::<isize>(),
        size_of::<usize>() * 8 == usize::BITS,
{
}

// A scalar is stored at its in-memory width, whatever its value.
impl BorshSize for () {
    open spec fn spec_borsh_size(&self) -> nat {
        size_of::<()>()
    }

    open spec fn spec_size_is_exact(&self) -> bool {
        true
    }

    fn calculate_borsh_size(&self) -> (r: usize) {
        core::mem::size_of::<()>()
    }
}

impl BorshSize for bool {
    open spec fn spec_borsh_size(&self) -> nat {
        size_of::<bool>()
    }

    open spec fn spec_size_is_exact(&self) -> bool {
        true
    }

    fn calculate_borsh_size(&self) -> (r: usize) {
        core::mem::size_of::<bool>()
    }
}

impl BorshSize for char {
    open spec fn spec_borsh_size(&self) -> nat {
        size_of::<char>()
    }

    open spec fn spec_size_is_exact(&self) -> bool {
        true
    }

    fn calculate_borsh_size(&self) -> (r: usize) {
        core::mem::size_of::<char>()
    }
}

impl BorshSize for u8 {
    open spec fn spec_borsh_size(&self) -> nat {
        size_of::<u8>()
    }

    open spec fn spec_size_is_exact(&self) -> bool {
        true
    }

    fn calculate_borsh_size(&self) -> (r: usize) {
        core::mem::size_of::<u8>()
    }
}

impl BorshSize for u16 {
    open spec fn spec_borsh_size(&self) -> nat {
        size_of::<u16>()
    }

    open spec fn spec_size_is_exact(&self) -> bool {
        true
    }

    fn calculate_borsh_size(&self) -> (r: usize) {
        core::mem::size_of::<u16>()
    }
}

impl BorshSize for u32 {
    open spec fn spec_borsh_size(&self) -> nat {
        size_of::<u32>()
    }

    open spec fn spec_size_is_exact(&self) -> bool {
        true
    }

    fn calculate_borsh_size(&self) -> (r: usize) {
        core::mem::size_of::<u32>()
    }
}

impl BorshSize for u64 {
    open spec fn spec_borsh_size(&self) -> nat {
        size_of::<u64>()
    }

    open spec fn spec_size_is_exact(&self) -> bool {
        true
    }

    fn calculate_borsh_size(&self) -> (r: usize) {
        core::mem::size_of::<u64>()
    }
}

impl BorshSize for u128 {
    open spec fn spec_borsh_size(&self) -> nat {
        size_of::<u128>()
    }

    open spec fn spec_size_is_exact(&self) -> bool {
        true
    }

    fn calculate_borsh_size(&self) -> (r: usize) {
        core::mem::size_of::<u128>()
    }
}

impl BorshSize for usize {
    open spec fn spec_borsh_size(&self) -> nat {
        size_of::<usize>()
    }

    open spec fn spec_size_is_exact(&self) -> bool {
        true
    }

    fn calculate_borsh_size(&self) -> (r: usize) {
        core::mem::size_of::<usize>()
    }
}

impl BorshSize for i8 {
    open spec fn spec_borsh_size(&self) -> nat {
        size_of::<i8>()
    }

    open spec fn spec_size_is_exact(&self) -> bool {
        true
    }

    fn calculate_borsh_size(&self) -> (r: usize) {
        core::mem::size_of::<i8>()
    }
}

impl BorshSize for i16 {
    open spec fn spec_borsh_size(&self) -> nat {
        size_of::<i16>()
    }

    open spec fn spec_size_is_exact(&self) -> bool {
        true
    }

    fn calculate_borsh_size(&self) -> (r: usize) {
        core::mem::size_of::<i16>()
    }
}

impl BorshSize for i32 {
    open spec fn spec_borsh_size(&self) -> nat {
        size_of::<i32>()
    }

    open spec fn spec_size_is_exact(&self) -> bool {
        true
    }

    fn calculate_borsh_size(&self) -> (r: usize) {
        core::mem::size_of::<i32>()
    }
}

impl BorshSize for i64 {
    open spec fn spec_borsh_size(&self) -> nat {
        size_of::<i64>()
    }

    open spec fn spec_size_is_exact(&self) -> bool {
        true
    }

    fn calculate_borsh_size(&self) -> (r: usize) {
        core::mem::size_of::<i64>()
    }
}

impl BorshSize for i128 {
    open spec fn spec_borsh_size(&self) -> nat {
        size_of::<i128>()
    }

    open spec fn spec_size_is_exact(&self) -> bool {
        true
    }

    fn calculate_borsh_size(&self) -> (r: usize) {
        core::mem::size_of::<i128>()
    }
}

impl BorshSize for isize {
    open spec fn spec_borsh_size(&self) -> nat {
        size_of::<isize>()
    }

    open spec fn spec_size_is_exact(&self) -> bool {
        true
    }

    fn calculate_borsh_size(&self) -> (r: usize) {
        core::mem::size_of::<isize>()
    }
}

} // verus!
