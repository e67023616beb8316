//! The write buffers of a run: the main buffer, sector-aligned where writes
//! bypass the page cache, and a small tail buffer for what is left over
//! after the last whole sector.

use vstd::prelude::*;
use vstd::arithmetic::power2::is_pow2;
use crate::dev::aligned::all_zero;
use crate::dev::aligned::alloc_aligned;
use crate::dev::aligned::AlignedBuf;
use crate::dev::aligned::AllocError;

verus! {

/// What a [`Buffers`] holds, as mathematical values.
pub struct BuffersView {
    /// The bytes of the main buffer.
    pub main: Seq<u8>,
    /// The bytes of the tail buffer.
    pub tail: Seq<u8>,
    /// Whether the buffers serve unbuffered (direct) writes.
    pub direct: bool,
}

/// The buffers reused from pass to pass. They are refilled in place, never
/// reallocated, and hold the only copy of what is being written.
pub struct Buffers {
    main: AlignedBuf,
    tail: Vec<u8>,
    use_direct: bool,
}

impl View for Buffers {
    type V = BuffersView;

    closed spec fn view(&self) -> BuffersView {
        BuffersView { main: self.main@, tail: self.tail@, direct: self.use_direct }
    }
}

/// `bytes`, lengthened with zeros to `len` where it is shorter.
pub open spec fn grown_to(bytes: Seq<u8>, len: nat) -> Seq<u8> {
    if bytes.len() >= len {
        bytes
    } else {
        bytes + Seq::new((len - bytes.len()) as nat, |i: int| 0u8)
    }
}

/// `bytes` with its first `len` bytes set to zero.
pub open spec fn zeroed_prefix(bytes: Seq<u8>, len: nat) -> Seq<u8> {
    Seq::new(
        bytes.len(),
        |i: int|
            if i < len {
                0u8
            } else {
                bytes[i]
            },
    )
}

/// Why, if at all, a buffer set cannot be made.
///
/// With direct I/O the sector must be a power of two and the size a
/// multiple of it; in either mode the allocation must stay within
/// `isize::MAX`.
pub open spec fn new_refusal(buf_size: usize, use_direct: bool, sector: usize) -> Option<
    AllocError,
> {
    if use_direct {
        if !is_pow2(sector as int) {
            Some(AllocError::BadAlignment)
        } else if buf_size as int % sector as int != 0 {
            Some(AllocError::UnalignedLength)
        } else if buf_size + sector > isize::MAX {
            Some(AllocError::TooLarge)
        } else {
            None
        }
    } else {
        if buf_size + 1 > isize::MAX {
            Some(AllocError::TooLarge)
        } else {
            None
        }
    }
}

impl Buffers {
    /// The main buffer lies within its storage and begins on a multiple of
    /// its alignment.
    pub closed spec fn wf(&self) -> bool {
        self.main.wf()
    }

    /// The alignment of the main buffer's first byte.
    pub closed spec fn main_alignment(&self) -> nat {
        self.main.alignment()
    }

    /// The address of the main buffer's first byte, as it was when the
    /// buffers were made.
    pub closed spec fn main_address(&self) -> nat {
        self.main.address()
    }

    /// The main buffer of well-formed buffers begins on a multiple of its
    /// alignment.
    pub proof fn lemma_main_is_aligned(&self)
        requires
            self.wf(),
        ensures
            self.main_alignment() > 0,
            self.main_address() % self.main_alignment() == 0,
    {
        self.main.lemma_address_is_aligned();
    }

    /// Makes the buffers of a run: a zeroed main buffer of `buf_size`
    /// bytes and a zeroed tail buffer.
    ///
    /// With `use_direct` the main buffer begins on a multiple of `sector`
    /// and the tail buffer holds one sector; without it the main buffer is an
    /// ordinary one and the tail buffer is empty. Fails exactly as
    /// [`new_refusal`] says.
    pub fn new(buf_size: usize, use_direct: bool, sector: usize) -> (r: Result<Buffers, AllocError>)
        ensures
            match r {
                Ok(buffers) => {
                    &&& new_refusal(buf_size, use_direct, sector) is None
                    &&& buffers.wf()
                    &&& buffers@.direct == use_direct
                    &&& buffers@.main.len() == buf_size
                    &&& all_zero(buffers@.main)
                    &&& buffers@.tail.len() == (if use_direct {
                        sector as nat
                    } else {
                        0nat
                    })
                    &&& all_zero(buffers@.tail)
                    &&& buffers.main_alignment() == (if use_direct {
                        sector as nat
                    } else {
                        1nat
                    })
                    &&& buffers.main_address() % buffers.main_alignment() == 0
                    &&& use_direct ==> buf_size as nat % sector as nat == 0
                },
                Err(e) => new_refusal(buf_size, use_direct, sector) == Some(e),
            },
    {
        proof {
            reveal(is_pow2);
        }
        let main: AlignedBuf = if use_direct {
            if !crate::dev::aligned::is_power_of_two(sector) {
                return Err(AllocError::BadAlignment);
            }
            if buf_size % sector != 0 {
                return Err(AllocError::UnalignedLength);
            }
            match alloc_aligned(buf_size, sector) {
                Ok(buf) => buf,
                Err(e) => {
                    return Err(e);
                },
            }
        } else {
            match alloc_aligned(buf_size, 1) {
                Ok(buf) => buf,
                Err(e) => {
                    return Err(e);
                },
            }
        };
        let tail_capacity: usize = if use_direct {
            sector
        } else {
            0
        };
        let tail: Vec<u8> = vec![0u8; tail_capacity];
        proof {
            main.lemma_address_is_aligned();
        }
        Ok(Buffers { main, tail, use_direct })
    }

    /// Whether the buffers serve unbuffered (direct) writes.
    pub fn use_direct(&self) -> (b: bool)
        ensures
            b == self@.direct,
    {
        self.use_direct
    }

    /// Number of bytes in the main buffer.
    pub fn main_len(&self) -> (n: usize)
        requires
            self.wf(),
        ensures
            n == self@.main.len(),
    {
        self.main.len()
    }

    /// Number of bytes the tail buffer holds at present.
    pub fn tail_len(&self) -> (n: usize)
        ensures
            n == self@.tail.len(),
    {
        self.tail.len()
    }

    /// The main buffer, to be written out.
    pub fn main(&self) -> (bytes: &[u8])
        requires
            self.wf(),
        ensures
            bytes@ == self@.main,
    {
        self.main.as_slice()
    }

    /// The tail buffer, to be written out.
    pub fn tail(&self) -> (bytes: &[u8])
        ensures
            bytes@ == self@.tail,
    {
        self.tail.as_slice()
    }

    /// The main buffer, to be refilled in place. Afterwards the main buffer
    /// is what the slice was left as; nothing else changes.
    pub fn main_mut(&mut self) -> (bytes: &mut [u8])
        requires
            old(self).wf(),
        ensures
            bytes@ == old(self)@.main,
            final(self)@ == (BuffersView { main: final(bytes)@, ..old(self)@ }),
            final(self).wf(),
            final(self).main_alignment() == old(self).main_alignment(),
            final(self).main_address() == old(self).main_address(),
    {
        self.main.as_mut_slice()
    }

    /// The first `len` bytes of the tail buffer, to be filled afresh before
    /// each use. The tail buffer is first lengthened with zeros where it is
    /// shorter than `len`. Afterwards it begins with what the slice was left
    /// as; nothing else changes.
    pub fn tail_buf(&mut self, len: usize) -> (bytes: &mut [u8])
        requires
            old(self).wf(),
            len <= isize::MAX,
        ensures
            bytes@ == grown_to(old(self)@.tail, len as nat).take(len as int),
            final(self)@ == (BuffersView {
                tail: final(bytes)@ + grown_to(old(self)@.tail, len as nat).skip(len as int),
                ..old(self)@
            }),
            final(self).wf(),
            final(self).main_alignment() == old(self).main_alignment(),
            final(self).main_address() == old(self).main_address(),
    {
        if self.tail.len() < len {
            self.tail.resize(len, 0u8);
            assert(self.tail@ =~= grown_to(old(self)@.tail, len as nat));
        }
        let (bytes, _) = self.tail.as_mut_slice().split_at_mut(len);
        bytes
    }

    /// Makes the tail buffer hold at least `len` bytes, lengthening it with
    /// zeros where it is shorter.
    pub fn reserve_tail(&mut self, len: usize)
        requires
            old(self).wf(),
            len <= isize::MAX,
        ensures
            final(self).wf(),
            final(self)@ == (BuffersView {
                tail: grown_to(old(self)@.tail, len as nat),
                ..old(self)@
            }),
            final(self).main_alignment() == old(self).main_alignment(),
            final(self).main_address() == old(self).main_address(),
    {
        if self.tail.len() < len {
            self.tail.resize(len, 0u8);
            assert(self.tail@ =~= grown_to(old(self)@.tail, len as nat));
        }
    }

    /// Sets every byte of the main buffer to zero.
    pub fn fill_main_zero(&mut self)
        requires
            old(self).wf(),
        ensures
            final(self).wf(),
            final(self)@ == (BuffersView {
                main: zeroed_prefix(old(self)@.main, old(self)@.main.len()),
                ..old(self)@
            }),
            all_zero(final(self)@.main),
            final(self).main_alignment() == old(self).main_alignment(),
            final(self).main_address() == old(self).main_address(),
    {
        self.main.fill_zero();
        assert(self.main@ =~= zeroed_prefix(old(self)@.main, old(self)@.main.len()));
    }

    /// Makes the tail buffer hold at least `len` bytes and sets its first
    /// `len` bytes to zero; the bytes after them stay as they are.
    pub fn fill_tail_zero(&mut self, len: usize)
        requires
            old(self).wf(),
            len <= isize::MAX,
        ensures
            final(self).wf(),
            final(self)@ == (BuffersView {
                tail: zeroed_prefix(grown_to(old(self)@.tail, len as nat), len as nat),
                ..old(self)@
            }),
            all_zero(final(self)@.tail.take(len as int)),
            final(self).main_alignment() == old(self).main_alignment(),
            final(self).main_address() == old(self).main_address(),
    {
        if self.tail.len() < len {
            self.tail.resize(len, 0u8);
            assert(self.tail@ =~= grown_to(old(self)@.tail, len as nat));
        }
        let ghost before: Seq<u8> = self.tail@;
        let mut i: usize = 0;
        while i < len
            invariant
                i <= len <= self.tail@.len(),
                self.tail@.len() == before.len(),
                self.main == old(self).main,
                self.use_direct == old(self).use_direct,
                forall|j: int| 0 <= j < i ==> self.tail@[j] == 0u8,
                forall|j: int| len <= j < before.len() ==> self.tail@[j] == before[j],
            decreases len - i,
        {
            self.tail[i] = 0;
            i = i + 1;
        }
        assert(self.tail@ =~= zeroed_prefix(before, len as nat));
    }
}

} // verus!
