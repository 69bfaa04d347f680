//! CPU descriptor handles and the arithmetic that addresses one descriptor
//! inside a heap: `start + index * increment`.

use vstd::prelude::*;
use vstd::arithmetic::div_mod::lemma_mod_multiples_vanish;
use vstd::arithmetic::div_mod::lemma_small_mod;
use vstd::arithmetic::div_mod::lemma_add_mod_noop;
use vstd::arithmetic::div_mod::lemma_mod_twice;

verus! {

/// Number of distinct addresses a `usize` can hold.
pub open spec fn address_space() -> int {
    usize::MAX as int + 1
}

/// The address that `value` denotes once it is reduced to the width of a
/// pointer.
pub open spec fn wrap_address(value: int) -> int {
    value % address_space()
}

/// Address of the descriptor that lies `offset_index` slots of
/// `descriptor_increment_size` bytes away from `ptr`.
pub open spec fn offset_address(ptr: int, offset_index: int, descriptor_increment_size: int) -> int {
    wrap_address(ptr + offset_index * descriptor_increment_size)
}

/// The address `offset_index` descriptors of `descriptor_increment_size`
/// bytes away from `ptr`, reduced to pointer width.
pub(crate) fn offset_pointer(ptr: usize, offset_index: i64, descriptor_increment_size: u32) -> (result:
    usize)
    requires
        -0x8000_0000 <= offset_index <= 0xffff_ffff,
    ensures
        result as int == offset_address(
            ptr as int,
            offset_index as int,
            descriptor_increment_size as int,
        ),
        0 <= ptr + offset_index * descriptor_increment_size <= usize::MAX ==> result == ptr
            + offset_index * descriptor_increment_size,
{
    let index: i128 = offset_index as i128;
    let increment: i128 = descriptor_increment_size as i128;
    assert(-0x8000_0000_0000_0000 <= index * increment < 0x1_0000_0000_0000_0000)
        by (nonlinear_arith)
        requires
            -0x8000_0000 <= index <= 0xffff_ffff,
            0 <= increment < 0x1_0000_0000,
    ;
    let delta: i128 = index * increment;
    let shifted: u128 = (ptr as i128 + delta + 0x1_0000_0000_0000_0000) as u128;
    let modulus: u128 = usize::MAX as u128 + 1;
    let reduced: u128 = shifted % modulus;
    proof {
        let exact: int = ptr + offset_index * descriptor_increment_size;
        assert(modulus == 0x1_0000_0000 || modulus == 0x1_0000_0000_0000_0000);
        if modulus == 0x1_0000_0000 {
            lemma_mod_multiples_vanish(0x1_0000_0000, exact, modulus as int);
        } else {
            lemma_mod_multiples_vanish(1, exact, modulus as int);
        }
        assert(shifted as int == exact + 0x1_0000_0000_0000_0000);
        assert(reduced as int == wrap_address(exact));
        if 0 <= exact <= usize::MAX {
            lemma_small_mod(exact as nat, modulus as nat);
        }
    }
    reduced as usize
}

/// A CPU descriptor handle: the address of one descriptor in a heap.
#[allow(non_camel_case_types)]
#[derive(Clone, Copy, Debug, PartialEq, Eq, Structural)]
pub struct CD3D12_CPU_DESCRIPTOR_HANDLE {
    pub ptr: usize,
}

impl CD3D12_CPU_DESCRIPTOR_HANDLE {
    /// The null handle.
    pub fn new() -> (handle: Self)
        ensures
            handle.ptr == 0,
    {
        CD3D12_CPU_DESCRIPTOR_HANDLE { ptr: 0 }
    }

    /// The handle that lies `offset_index` descriptors after `handle` (before
    /// it, for a negative index), each descriptor taking
    /// `descriptor_increment_size` bytes. The sum is reduced to pointer width.
    pub fn offset_cpu_descriptor_handle(
        handle: &CD3D12_CPU_DESCRIPTOR_HANDLE,
        offset_index: i32,
        descriptor_increment_size: u32,
    ) -> (result: CD3D12_CPU_DESCRIPTOR_HANDLE)
        ensures
            result.ptr as int == offset_address(
                handle.ptr as int,
                offset_index as int,
                descriptor_increment_size as int,
            ),
            0 <= handle.ptr + offset_index * descriptor_increment_size <= usize::MAX
                ==> result.ptr == handle.ptr + offset_index * descriptor_increment_size,
    {
        CD3D12_CPU_DESCRIPTOR_HANDLE {
            ptr: offset_pointer(handle.ptr, offset_index as i64, descriptor_increment_size),
        }
    }

    /// A handle `offset_index` descriptors away from `other`.
    pub fn from_offset(
        other: &CD3D12_CPU_DESCRIPTOR_HANDLE,
        offset_index: i32,
        descriptor_increment_size: u32,
    ) -> (result: Self)
        ensures
            result.ptr as int == offset_address(
                other.ptr as int,
                offset_index as int,
                descriptor_increment_size as int,
            ),
            0 <= other.ptr + offset_index * descriptor_increment_size <= usize::MAX
                ==> result.ptr == other.ptr + offset_index * descriptor_increment_size,
    {
        Self::offset_cpu_descriptor_handle(other, offset_index, descriptor_increment_size)
    }

    /// Moves this handle by `offset_index` descriptors and hands it back for
    /// chaining.
    pub fn offset(&mut self, offset_index: i32, descriptor_increment_size: u32) -> (result: &mut Self)
        ensures
            result.ptr as int == offset_address(
                old(self).ptr as int,
                offset_index as int,
                descriptor_increment_size as int,
            ),
            *final(self) == *final(result),
    {
        let moved = Self::offset_cpu_descriptor_handle(self, offset_index, descriptor_increment_size);
        self.ptr = moved.ptr;
        self
    }
}

/// Walking `first` descriptors and then `second` descriptors of the same size
/// reaches the same address as walking `first + second` descriptors at once.
pub proof fn lemma_offset_accumulates(ptr: int, first: int, second: int, descriptor_increment_size: int)
    ensures
        offset_address(
            offset_address(ptr, first, descriptor_increment_size),
            second,
            descriptor_increment_size,
        ) == offset_address(ptr, first + second, descriptor_increment_size),
{
    let m = address_space();
    let a = ptr + first * descriptor_increment_size;
    let b = second * descriptor_increment_size;
    assert((first + second) * descriptor_increment_size == first * descriptor_increment_size + second
        * descriptor_increment_size) by (nonlinear_arith);
    lemma_add_mod_noop(a, b, m);
    lemma_add_mod_noop(a % m, b, m);
    lemma_mod_twice(a, m);
}

/// A zero offset leaves an address that fits a pointer where it is.
pub proof fn lemma_offset_zero(ptr: int, descriptor_increment_size: int)
    requires
        0 <= ptr <= usize::MAX,
    ensures
        offset_address(ptr, 0, descriptor_increment_size) == ptr,
{
    lemma_small_mod(ptr as nat, address_space() as nat);
}

} // verus!
