use vstd::prelude::*;
use vstd::arithmetic::power2::is_pow2;
use vstd::layout::{size_of, align_of, layout_for_type_is_valid, usize_size_pow2};

verus! {

/// The size and alignment of an allocation request; the alignment is a power of two.
pub struct Layout {
    pub size: usize,
    pub align: usize,
}

impl Layout {
    pub open spec fn wf(&self) -> bool {
        is_pow2(self.align as int)
    }

    /// A layout aligned to the size of a machine word.
    pub fn new(size: usize) -> (r: Self)
        ensures
            r.wf(),
            r.size == size,
            r.align == size_of::<usize>(),
    {
        let default_align = core::mem::size_of::<usize>();
        proof {
            usize_size_pow2();
        }
        Self::with_align(size, default_align)
    }

    /// The layout of a value of type `T`.
    pub fn from_type<T>() -> (r: Self)
        ensures
            r.wf(),
            r.size == size_of::<T>(),
            r.align == align_of::<T>(),
    {
        layout_for_type_is_valid::<T>();
        Self::with_align(core::mem::size_of::<T>(), core::mem::align_of::<T>())
    }

    /// A layout with the given size and alignment; the alignment must be a power of two.
    pub fn with_align(size: usize, align: usize) -> (r: Self)
        requires
            is_pow2(align as int),
        ensures
            r.wf(),
            r.size == size,
            r.align == align,
    {
        Self { size, align }
    }

    /// Whether `x` is a power of two, by clearing its lowest set bit; `x` must not be 0 (the
    /// subtraction would go below 0).
    pub fn is_2_power(x: usize) -> (r: bool)
        requires
            x > 0,
        ensures
            r == is_pow2(x as int),
    {
        proof {
            lemma_lowest_bit_cleared(x);
        }
        (x & (x - 1)) == 0
    }
}

/// Clearing the lowest set bit of `x`: it leaves 0 for 1, something else for another odd
/// number, and for an even number what it leaves for half of it, doubled.
proof fn lemma_clear_lowest_bit(x: usize)
    by (bit_vector)
    requires
        x > 0,
    ensures
        x == 1 ==> (x & ((x - 1) as usize)) == 0,
        x > 1 && x % 2 == 1 ==> (x & ((x - 1) as usize)) != 0,
        x > 1 && x % 2 == 0 ==> (x & ((x - 1) as usize)) == ((x / 2) & ((x / 2 - 1) as usize)) * 2,
{
}

/// A positive number is a power of two exactly when clearing its lowest set bit leaves 0.
proof fn lemma_lowest_bit_cleared(x: usize)
    requires
        x > 0,
    ensures
        ((x & ((x - 1) as usize)) == 0) == is_pow2(x as int),
    decreases x,
{
    reveal(is_pow2);
    lemma_clear_lowest_bit(x);
    if x > 1 && x % 2 == 0 {
        lemma_lowest_bit_cleared(x / 2);
    }
}

/// `address` rounded up to the next multiple of `alignment`.
pub open spec fn align_up(address: int, alignment: int) -> int {
    if address % alignment != 0 {
        address - address % alignment + alignment
    } else {
        address
    }
}

/// A bump allocator over a fixed buffer that starts at address `buffer_address`.
pub struct StaticAllocator {
    buffer_address: usize,
    buffer_size: usize,
    allocation_size: usize,
}

impl StaticAllocator {
    /// The address of the start of the buffer.
    pub closed spec fn start(&self) -> nat {
        self.buffer_address as nat
    }

    /// The size of the buffer.
    pub closed spec fn capacity(&self) -> nat {
        self.buffer_size as nat
    }

    /// How many bytes from the start of the buffer are taken.
    pub closed spec fn used(&self) -> nat {
        self.allocation_size as nat
    }

    pub closed spec fn wf(&self) -> bool {
        &&& self.allocation_size <= self.buffer_size
        &&& self.buffer_address + self.buffer_size <= usize::MAX
    }

    /// An allocator over the `buffer_size` bytes from `buffer_address`, with nothing taken.
    pub fn new(buffer_address: usize, buffer_size: usize) -> (r: Self)
        requires
            buffer_address + buffer_size <= usize::MAX,
        ensures
            r.wf(),
            r.start() == buffer_address,
            r.capacity() == buffer_size,
            r.used() == 0,
    {
        Self { buffer_address, buffer_size, allocation_size: 0 }
    }

    /// How many bytes from the start of the buffer are taken.
    pub fn allocation_size(&self) -> (r: usize)
        ensures
            r == self.used(),
    {
        self.allocation_size
    }

    /// The size of the buffer.
    pub fn buffer_size(&self) -> (r: usize)
        ensures
            r == self.capacity(),
    {
        self.buffer_size
    }

    /// Takes the next `layout.size` bytes at the next address aligned to `layout.align`;
    /// there must be room for the size and the alignment both.
    pub fn allocate(&mut self, layout: Layout) -> (address: usize)
        requires
            old(self).wf(),
            layout.wf(),
            old(self).used() + layout.align + layout.size <= old(self).capacity(),
        ensures
            final(self).wf(),
            final(self).start() == old(self).start(),
            final(self).capacity() == old(self).capacity(),
            address == align_up((old(self).start() + old(self).used()) as int, layout.align as int),
            address % layout.align == 0,
            old(self).start() + old(self).used() <= address,
            final(self).start() + final(self).used() == address + layout.size,
    {
        let allocation_address = self.buffer_address + self.allocation_size;
        proof {
            lemma_align_up(allocation_address as int, layout.align as int);
        }
        let aligned_address = Self::align_address(allocation_address, layout.align);
        self.allocation_size = self.allocation_size + layout.size + (aligned_address - allocation_address);
        aligned_address
    }

    fn align_address(address: usize, alignment: usize) -> (r: usize)
        requires
            alignment > 0,
            address + alignment <= usize::MAX,
        ensures
            r == align_up(address as int, alignment as int),
    {
        let reminder = address % alignment;
        assert(reminder <= address) by (nonlinear_arith)
            requires
                alignment > 0,
                reminder == address % alignment,
        ;
        if reminder != 0 {
            address - reminder + alignment
        } else {
            address
        }
    }
}

/// Rounding up to a power of two gives a multiple of it, at most `alignment - 1` further on.
proof fn lemma_align_up(address: int, alignment: int)
    requires
        address >= 0,
        is_pow2(alignment),
    ensures
        alignment > 0,
        align_up(address, alignment) % alignment == 0,
        address <= align_up(address, alignment) < address + alignment,
{
    assert(alignment > 0) by {
        reveal_with_fuel(is_pow2, 1);
    }
    vstd::arithmetic::div_mod::lemma_fundamental_div_mod(address, alignment);
    let q = address / alignment;
    if address % alignment != 0 {
        assert(align_up(address, alignment) == (q + 1) * alignment) by (nonlinear_arith)
            requires
                address == alignment * q + address % alignment,
                align_up(address, alignment) == address - address % alignment + alignment,
        ;
        vstd::arithmetic::div_mod::lemma_mod_multiples_basic(q + 1, alignment);
    }
}

} // verus!
