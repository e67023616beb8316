//! Block geometry, buffer sizing, and the device's size and geometry as
//! the operating system reports them.

use vstd::prelude::*;
use crate::text::parse_trimmed_unsigned;
use crate::text::parsed_unsigned;
use crate::text::trimmed;

verus! {

/// Smallest buffer the engine works with, in bytes (16 KiB).
pub const MIN_BUFFER_BYTES: usize = 16384;

/// Largest buffer size a request is clamped to, in bytes (1 MiB).
pub const MAX_BUFFER_BYTES: usize = 1048576;

/// Buffer size aimed at when none is requested, in bytes (64 KiB).
pub const DEFAULT_BUFFER_BYTES: usize = 65536;

/// Logical and physical block sizes of a device, in bytes.
#[derive(Debug, Clone, Copy)]
pub struct BlockSizes {
    pub logical: u32,
    pub physical: u32,
}

impl BlockSizes {
    /// The effective sector as a mathematical value: the larger of the two
    /// block sizes.
    pub open spec fn sector_spec(&self) -> nat {
        if self.logical >= self.physical {
            self.logical as nat
        } else {
            self.physical as nat
        }
    }

    /// The strictest sector size: the maximum of `logical` and `physical`.
    pub fn sector(&self) -> (s: u32)
        ensures
            s == self.sector_spec(),
            s >= self.logical,
            s >= self.physical,
            s == self.logical || s == self.physical,
    {
        if self.logical >= self.physical {
            self.logical
        } else {
            self.physical
        }
    }
}

/// The requested size, or the default when nothing was requested, forced
/// into the closed range from 16 KiB to 1 MiB.
pub open spec fn clamped_request(requested: Option<usize>) -> nat {
    let wanted: nat = match requested {
        Some(n) => n as nat,
        None => DEFAULT_BUFFER_BYTES as nat,
    };
    if wanted < MIN_BUFFER_BYTES {
        MIN_BUFFER_BYTES as nat
    } else if wanted > MAX_BUFFER_BYTES {
        MAX_BUFFER_BYTES as nat
    } else {
        wanted
    }
}

/// Picks the write buffer size for a device.
///
/// The request (64 KiB when absent) is clamped to 16 KiB..=1 MiB and then
/// rounded up to the next multiple of the effective sector. The result is the
/// one multiple of the sector in `[clamped, clamped + sector)`.
pub fn choose_buffer_size(sizes: BlockSizes, requested: Option<usize>) -> (size: usize)
    requires
        sizes.sector_spec() > 0,
        clamped_request(requested) + sizes.sector_spec() - 1 <= usize::MAX,
    ensures
        size as nat % sizes.sector_spec() == 0,
        clamped_request(requested) <= size,
        size < clamped_request(requested) + sizes.sector_spec(),
        MIN_BUFFER_BYTES <= size < MAX_BUFFER_BYTES + sizes.sector_spec(),
{
    let sector: usize = sizes.sector() as usize;
    let mut target: usize = match requested {
        Some(n) => n,
        None => DEFAULT_BUFFER_BYTES,
    };
    if target < MIN_BUFFER_BYTES {
        target = MIN_BUFFER_BYTES;
    }
    if target > MAX_BUFFER_BYTES {
        target = MAX_BUFFER_BYTES;
    }
    let rem: usize = target % sector;
    if rem != 0 {
        proof {
            lemma_round_up_is_multiple(target as int, sector as int);
        }
        target = target + (sector - rem);
    }
    target
}

/// Whatever is requested, the clamped request lies between 16 KiB and
/// 1 MiB, and it is the request itself where that lies in the range.
pub proof fn lemma_clamped_request_in_range(requested: Option<usize>)
    ensures
        MIN_BUFFER_BYTES <= clamped_request(requested) <= MAX_BUFFER_BYTES,
        requested matches Some(n) ==> (MIN_BUFFER_BYTES <= n <= MAX_BUFFER_BYTES
            ==> clamped_request(requested) == n),
        requested is None ==> clamped_request(requested) == DEFAULT_BUFFER_BYTES,
{
}

/// There is one multiple of the sector from the clamped request up to a
/// sector beyond it: two sizes that both are such a multiple are the same.
pub proof fn lemma_buffer_size_is_unique(low: nat, sector: nat, first: nat, second: nat)
    requires
        sector > 0,
        first % sector == 0,
        second % sector == 0,
        low <= first < low + sector,
        low <= second < low + sector,
    ensures
        first == second,
{
    let s: int = sector as int;
    let a: int = first as int;
    let b: int = second as int;
    vstd::arithmetic::div_mod::lemma_fundamental_div_mod(a, s);
    vstd::arithmetic::div_mod::lemma_fundamental_div_mod(b, s);
    let p: int = a / s;
    let q: int = b / s;
    assert(p == q) by (nonlinear_arith)
        requires
            a == s * p,
            b == s * q,
            s > 0,
            a - b < s,
            b - a < s,
    ;
}

/// Adding what is missing to the next multiple gives a multiple.
proof fn lemma_round_up_is_multiple(n: int, m: int)
    requires
        0 <= n,
        0 < m,
    ensures
        (n + (m - n % m)) % m == 0,
{
    vstd::arithmetic::div_mod::lemma_fundamental_div_mod(n, m);
    let q: int = n / m;
    assert(n + (m - n % m) == (q + 1) * m) by (nonlinear_arith)
        requires
            n == m * q + n % m,
    ;
    vstd::arithmetic::div_mod::lemma_mod_multiples_basic(q + 1, m);
}

/// Logical block size taken where the kernel names none, in bytes.
pub const FALLBACK_LOGICAL: u32 = 512;

/// Physical block size taken where the geometry cannot be had at all, in
/// bytes.
pub const FALLBACK_PHYSICAL: u32 = 4096;

/// Bytes in one of the sectors in which the kernel counts a device's size.
pub const SIZE_UNIT: u64 = 512;

/// The block size that an attribute text gives: the number it spells
/// between white space, if it spells one that fits in 32 bits.
pub open spec fn block_attr(attr: Option<Seq<char>>) -> Option<u32> {
    match attr {
        Some(text) => match parsed_unsigned(trimmed(text), u32::MAX as nat) {
            Some(n) => Some(n as u32),
            None => None,
        },
        None => None,
    }
}

/// The geometry that the kernel's two attribute texts give. A logical size
/// that is absent or unreadable counts as 512; a physical size that is
/// absent or unreadable counts as the logical size, but no less than 512.
pub open spec fn block_sizes_of(logical: Option<Seq<char>>, physical: Option<Seq<char>>) -> BlockSizes {
    let logical_size: u32 = match block_attr(logical) {
        Some(n) => n,
        None => FALLBACK_LOGICAL,
    };
    let physical_size: u32 = match block_attr(physical) {
        Some(n) => n,
        None => if logical_size >= FALLBACK_LOGICAL {
            logical_size
        } else {
            FALLBACK_LOGICAL
        },
    };
    BlockSizes { logical: logical_size, physical: physical_size }
}

/// The texts of two attributes as sequences of characters.
pub open spec fn attr_text(attr: Option<&str>) -> Option<Seq<char>> {
    match attr {
        Some(text) => Some(text@),
        None => None,
    }
}

fn read_block_attr(attr: Option<&str>) -> (size: Option<u32>)
    ensures
        size == block_attr(attr_text(attr)),
{
    match attr {
        Some(text) => match parse_trimmed_unsigned(text, u32::MAX as u64) {
            Some(n) => Some(n as u32),
            None => None,
        },
        None => None,
    }
}

/// The block sizes of a device, from the texts of the kernel's
/// `logical_block_size` and `physical_block_size` attributes; `None` stands
/// for an attribute that could not be read. See [`block_sizes_of`].
pub fn block_sizes_from_attrs(logical: Option<&str>, physical: Option<&str>) -> (sizes: BlockSizes)
    ensures
        sizes == block_sizes_of(attr_text(logical), attr_text(physical)),
{
    let logical_size: u32 = match read_block_attr(logical) {
        Some(n) => n,
        None => FALLBACK_LOGICAL,
    };
    let physical_size: u32 = match read_block_attr(physical) {
        Some(n) => n,
        None => if logical_size >= FALLBACK_LOGICAL {
            logical_size
        } else {
            FALLBACK_LOGICAL
        },
    };
    BlockSizes { logical: logical_size, physical: physical_size }
}

/// The geometry to work with: what the query gave, or the conservative
/// default of 512 logical and 4096 physical bytes where it failed.
pub fn geometry_or_default(queried: Option<BlockSizes>) -> (sizes: BlockSizes)
    ensures
        sizes == (match queried {
            Some(found) => found,
            None => BlockSizes { logical: FALLBACK_LOGICAL, physical: FALLBACK_PHYSICAL },
        }),
{
    match queried {
        Some(found) => found,
        None => BlockSizes { logical: FALLBACK_LOGICAL, physical: FALLBACK_PHYSICAL },
    }
}

/// The device's size as the size query gave it: the query must have
/// returned zero and a size that is not zero. Otherwise the size is to be
/// had from the kernel's sector count.
pub fn size_from_query(status: i32, size: u64) -> (bytes: Option<u64>)
    ensures
        bytes == (if status == 0 && size > 0 {
            Some(size)
        } else {
            None
        }),
{
    if status == 0 && size > 0 {
        Some(size)
    } else {
        None
    }
}

/// The size that a count of 512-byte sectors stands for, capped at
/// `u64::MAX`.
pub open spec fn sectors_to_bytes(sectors: nat) -> u64 {
    if sectors * SIZE_UNIT > u64::MAX {
        u64::MAX
    } else {
        (sectors * SIZE_UNIT) as u64
    }
}

/// The device's size from the text of the kernel's `size` attribute, which
/// counts 512-byte sectors: the number it spells between white space, times
/// 512 and capped at `u64::MAX`. `None` where the text spells no number that
/// fits in 64 bits.
pub fn size_from_sector_count(attr: &str) -> (bytes: Option<u64>)
    ensures
        bytes == (match parsed_unsigned(trimmed(attr@), u64::MAX as nat) {
            Some(sectors) => Some(sectors_to_bytes(sectors)),
            None => None,
        }),
{
    match parse_trimmed_unsigned(attr, u64::MAX) {
        Some(sectors) => match sectors.checked_mul(SIZE_UNIT) {
            Some(bytes) => Some(bytes),
            None => Some(u64::MAX),
        },
        None => None,
    }
}

/// The device's size from a count of blocks and the size of one, capped at
/// `u64::MAX`.
pub fn size_from_blocks(block_count: u64, block_size: u32) -> (bytes: u64)
    ensures
        bytes == (if block_count * block_size > u64::MAX {
            u64::MAX
        } else {
            (block_count * block_size) as u64
        }),
{
    match block_count.checked_mul(block_size as u64) {
        Some(bytes) => bytes,
        None => u64::MAX,
    }
}

} // verus!
