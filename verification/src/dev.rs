//! The device's side of a run: sync modes, the sync policy, block geometry,
//! buffer sizing and aligned buffers.

pub mod aligned;
pub mod geometry;
pub mod mode;
pub mod sync;

pub use aligned::alloc_aligned;
pub use aligned::AlignedBuf;
pub use aligned::AllocError;
pub use geometry::attr_text;
pub use geometry::block_attr;
pub use geometry::block_sizes_from_attrs;
pub use geometry::block_sizes_of;
pub use geometry::BlockSizes;
pub use geometry::choose_buffer_size;
pub use geometry::clamped_request;
pub use geometry::DEFAULT_BUFFER_BYTES;
pub use geometry::FALLBACK_LOGICAL;
pub use geometry::FALLBACK_PHYSICAL;
pub use geometry::geometry_or_default;
pub use geometry::lemma_buffer_size_is_unique;
pub use geometry::lemma_clamped_request_in_range;
pub use geometry::MAX_BUFFER_BYTES;
pub use geometry::MIN_BUFFER_BYTES;
pub use geometry::sectors_to_bytes;
pub use geometry::size_from_blocks;
pub use geometry::size_from_query;
pub use geometry::size_from_sector_count;
pub use geometry::SIZE_UNIT;
pub use mode::compose_open_flags;
pub use mode::disables_cache_after_open;
pub use mode::open_flags;
pub use mode::open_flags_from;
pub use mode::path_is_passable;
pub use mode::SyncMode;
pub use sync::busy_help;
pub use sync::busy_help_text;
pub use sync::busy_verdict;
pub use sync::full_sync;
pub use sync::hard_sync_result;
pub use sync::hard_sync_verdict;
pub use sync::HardSync;
pub use sync::IoFailure;
pub use sync::is_busy_code;
pub use sync::is_device_busy;
pub use sync::safe_sync;
pub use sync::soft_sync_result;
pub use sync::soft_sync_verdict;
pub use sync::UnsupportedCodes;
