//! Verified core of a Windows console adapter.
//!
//! The library models the three console operations — create a screen buffer,
//! query its geometry, write text at the origin — as decisions over plain
//! values.  The operating-system calls themselves are made by an unverified
//! shell around this crate; every decision (validation of the handle the
//! system hands back, readiness of the buffer, narrowing of the geometry,
//! decoding of the UTF-8 bytes from the host boundary, the UTF-16 encoding
//! of the text to submit) is made here, with a contract.

mod adapter;
mod encode;
mod error;
mod geometry;

pub use adapter::ConsoleAdapter;
pub use adapter::WriteCommand;
pub use adapter::echo_write_outcome;
pub use adapter::is_valid_raw_handle;
pub use adapter::lemma_query_follows_install;
pub use adapter::lemma_uninitialized_is_reported;
pub use adapter::spec_active_handle;
pub use encode::encode_utf16;
pub use encode::text_of_bytes;
pub use encode::utf16_encode;
pub use encode::utf16_units_of_char;
pub use error::ConsoleError;
pub use geometry::Coord;
pub use geometry::Empty;
pub use geometry::ScreenBufferInfo;
pub use geometry::Size;
pub use geometry::SmallRect;
pub use geometry::coord_in_range;
pub use geometry::geometry_outcome;
pub use geometry::lemma_size_round_trip;
pub use geometry::size_of_buffer_info;
pub use geometry::spec_size_of;
