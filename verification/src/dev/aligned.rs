//! Zeroed byte buffers whose first byte lies on a chosen alignment, as
//! unbuffered I/O needs them.

use vstd::prelude::*;
use vstd::arithmetic::power2::is_pow2;

verus! {

/// Why a buffer could not be had.
#[derive(Clone, Copy, Debug, PartialEq, Eq, Structural)]
pub enum AllocError {
    /// The alignment is not a power of two.
    BadAlignment,
    /// In direct mode the length is not a multiple of the sector.
    UnalignedLength,
    /// Length and alignment together exceed what one allocation may hold.
    TooLarge,
}

/// The address of the first byte of the vector's storage. Nothing is
/// claimed of it: it is whatever the allocator gave. This is
/// `Vec::as_ptr`, reduced to the address.
#[verifier::external_body]
fn storage_address(storage: &Vec<u8>) -> (address: usize) {
    storage.as_ptr() as usize
}

/// A byte buffer that begins on a multiple of its alignment.
///
/// The bytes live in an allocation that may begin a little earlier; the
/// buffer is the part of it from the first aligned byte to its end. The
/// allocation is never grown, so it stays where it is.
pub struct AlignedBuf {
    storage: Vec<u8>,
    start: usize,
    base: usize,
    align: usize,
}

impl View for AlignedBuf {
    type V = Seq<u8>;

    closed spec fn view(&self) -> Seq<u8> {
        self.storage@.skip(self.start as int)
    }
}

/// Whether every byte of `bytes` is zero.
pub open spec fn all_zero(bytes: Seq<u8>) -> bool {
    forall|i: int| 0 <= i < bytes.len() ==> bytes[i] == 0u8
}

impl AlignedBuf {
    /// The buffer lies within its storage, and its first byte is on a
    /// multiple of its alignment.
    pub closed spec fn wf(&self) -> bool {
        &&& self.start <= self.storage@.len()
        &&& self.align > 0
        &&& (self.base + self.start) % (self.align as int) == 0
    }

    /// The alignment the buffer was made for.
    pub closed spec fn alignment(&self) -> nat {
        self.align as nat
    }

    /// The address of the buffer's first byte, as the allocation's address
    /// was read when the buffer was made.
    pub closed spec fn address(&self) -> nat {
        (self.base + self.start) as nat
    }

    /// A well-formed buffer begins on a multiple of its alignment.
    pub proof fn lemma_address_is_aligned(&self)
        requires
            self.wf(),
        ensures
            self.alignment() > 0,
            self.address() % self.alignment() == 0,
    {
    }

    /// Number of bytes in the buffer.
    pub fn len(&self) -> (n: usize)
        requires
            self.wf(),
        ensures
            n == self@.len(),
    {
        self.storage.len() - self.start
    }

    /// The alignment the buffer was made for.
    pub fn align(&self) -> (n: usize)
        ensures
            n == self.alignment(),
    {
        self.align
    }

    /// The bytes of the buffer.
    pub fn as_slice(&self) -> (bytes: &[u8])
        requires
            self.wf(),
        ensures
            bytes@ == self@,
    {
        let (_, window) = self.storage.as_slice().split_at(self.start);
        window
    }

    /// The bytes of the buffer, to be overwritten in place. The buffer is
    /// afterwards what the slice was left as, and stays well formed.
    pub fn as_mut_slice(&mut self) -> (bytes: &mut [u8])
        requires
            old(self).wf(),
        ensures
            bytes@ == old(self)@,
            final(self)@ == final(bytes)@,
            final(self).wf(),
            final(self).alignment() == old(self).alignment(),
            final(self).address() == old(self).address(),
    {
        let (_, window) = self.storage.as_mut_slice().split_at_mut(self.start);
        window
    }

    /// Sets every byte of the buffer to zero.
    pub fn fill_zero(&mut self)
        requires
            old(self).wf(),
        ensures
            final(self).wf(),
            final(self)@.len() == old(self)@.len(),
            all_zero(final(self)@),
            final(self).alignment() == old(self).alignment(),
            final(self).address() == old(self).address(),
    {
        let end: usize = self.storage.len();
        let mut i: usize = self.start;
        while i < end
            invariant
                self.wf(),
                self.start <= i <= end,
                end == self.storage@.len(),
                self.start == old(self).start,
                self.base == old(self).base,
                self.align == old(self).align,
                self.storage@.len() == old(self).storage@.len(),
                forall|j: int| self.start <= j < i ==> self.storage@[j] == 0u8,
            decreases end - i,
        {
            self.storage[i] = 0;
            i = i + 1;
        }
    }
}

/// Whether `n` is a power of two.
pub fn is_power_of_two(n: usize) -> (b: bool)
    ensures
        b == is_pow2(n as int),
{
    if n == 0 {
        proof {
            reveal(is_pow2);
        }
        return false;
    }
    let mut m: usize = n;
    while m % 2 == 0
        invariant
            m > 0,
            is_pow2(m as int) == is_pow2(n as int),
        decreases m,
    {
        proof {
            reveal(is_pow2);
        }
        m = m / 2;
    }
    proof {
        reveal(is_pow2);
    }
    m == 1
}

/// The bytes from `address` to the next multiple of `align`.
pub open spec fn gap_to_aligned(address: nat, align: nat) -> nat {
    if address % align == 0 {
        0
    } else {
        (align - address % align) as nat
    }
}

/// Allocates `len` zero bytes that begin on a multiple of `align`.
///
/// Fails with `BadAlignment` exactly when `align` is not a power of two,
/// and otherwise with `TooLarge` exactly when `len + align` exceeds
/// `isize::MAX`.
pub fn alloc_aligned(len: usize, align: usize) -> (r: Result<AlignedBuf, AllocError>)
    ensures
        !is_pow2(align as int) <==> r == Err::<AlignedBuf, AllocError>(AllocError::BadAlignment),
        is_pow2(align as int) && len + align > isize::MAX <==> r == Err::<AlignedBuf, AllocError>(
            AllocError::TooLarge,
        ),
        r matches Ok(buf) ==> {
            &&& buf.wf()
            &&& buf@.len() == len
            &&& all_zero(buf@)
            &&& buf.alignment() == align
        },
        r matches Err(e) ==> e == AllocError::BadAlignment || e == AllocError::TooLarge,
{
    if !is_power_of_two(align) {
        return Err(AllocError::BadAlignment);
    }
    proof {
        reveal(is_pow2);
    }
    let limit: usize = isize::MAX as usize;
    if len > limit || align > limit - len {
        return Err(AllocError::TooLarge);
    }
    let mut storage: Vec<u8> = vec![0u8; len + align - 1];
    let base: usize = storage_address(&storage);
    let over: usize = base % align;
    let start: usize = if over == 0 {
        0
    } else {
        align - over
    };
    storage.truncate(start + len);
    proof {
        lemma_gap_reaches_multiple(base as int, align as int);
    }
    let buf: AlignedBuf = AlignedBuf { storage, start, base, align };
    assert(buf@.len() == len);
    assert(all_zero(buf@));
    Ok(buf)
}

/// Stepping over the gap lands on a multiple of the alignment.
proof fn lemma_gap_reaches_multiple(address: int, align: int)
    requires
        0 <= address,
        0 < align,
    ensures
        (address + gap_to_aligned(address as nat, align as nat)) % align == 0,
{
    if address % align != 0 {
        vstd::arithmetic::div_mod::lemma_fundamental_div_mod(address, align);
        let q: int = address / align;
        assert(address + (align - address % align) == (q + 1) * align) by (nonlinear_arith)
            requires
                address == align * q + address % align,
        ;
        vstd::arithmetic::div_mod::lemma_mod_multiples_basic(q + 1, align);
    }
}

} // verus!
