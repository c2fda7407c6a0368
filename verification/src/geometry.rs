use vstd::prelude::*;

use crate::error::ConsoleError;

verus! {

/// Column and row counts of a console screen buffer, narrowed to eight bits.
///
/// Native console coordinates are signed 16-bit values.  This adapter keeps
/// the narrow representation of its interface and reports
/// [`ConsoleError::SizeOutOfRange`] for any buffer whose dimensions do not
/// fit, rather than truncating silently.
#[derive(Clone, Copy, Debug, PartialEq, Eq, Structural)]
pub struct Size {
    pub width: u8,
    pub height: u8,
}

/// A column/row coordinate pair, as the native console API represents it.
#[derive(Clone, Copy, Debug, PartialEq, Eq, Structural)]
pub struct Coord {
    pub x: i16,
    pub y: i16,
}

/// The corners of a console window rectangle, as the native API represents
/// them.
#[derive(Clone, Copy, Debug, PartialEq, Eq, Structural)]
pub struct SmallRect {
    pub left: i16,
    pub top: i16,
    pub right: i16,
    pub bottom: i16,
}

/// The geometry record that a "get screen buffer info" call fills in: the
/// plain values this adapter reads from the native screen-buffer
/// information structure.
#[derive(Clone, Copy, Debug, PartialEq, Eq, Structural)]
pub struct ScreenBufferInfo {
    pub screen_buffer_size: Coord,
    pub cursor_position: Coord,
    pub attributes: u16,
    pub window: SmallRect,
    pub maximum_window_size: Coord,
}

/// Types with an all-zero value, used to initialise a record before a
/// native call fills it in.
pub trait Empty {
    /// True of the all-zero value of the type.
    spec fn is_empty_value(&self) -> bool;

    /// The all-zero value.
    fn empty() -> (r: Self) where Self: core::marker::Sized
        ensures
            r.is_empty_value(),
    ;
}

impl Empty for Coord {
    open spec fn is_empty_value(&self) -> bool {
        self.x == 0 && self.y == 0
    }

    fn empty() -> (r: Coord)
        ensures
            r.is_empty_value(),
    {
        Coord { x: 0, y: 0 }
    }
}

impl Empty for SmallRect {
    open spec fn is_empty_value(&self) -> bool {
        self.left == 0 && self.top == 0 && self.right == 0 && self.bottom == 0
    }

    fn empty() -> (r: SmallRect)
        ensures
            r.is_empty_value(),
    {
        SmallRect { left: 0, top: 0, right: 0, bottom: 0 }
    }
}

impl Empty for ScreenBufferInfo {
    open spec fn is_empty_value(&self) -> bool {
        &&& self.screen_buffer_size.is_empty_value()
        &&& self.cursor_position.is_empty_value()
        &&& self.attributes == 0
        &&& self.window.is_empty_value()
        &&& self.maximum_window_size.is_empty_value()
    }

    fn empty() -> (r: ScreenBufferInfo)
        ensures
            r.is_empty_value(),
    {
        ScreenBufferInfo {
            screen_buffer_size: Coord::empty(),
            cursor_position: Coord::empty(),
            attributes: 0,
            window: SmallRect::empty(),
            maximum_window_size: Coord::empty(),
        }
    }
}

/// True when a native coordinate fits the eight-bit representation.
pub open spec fn coord_in_range(v: i16) -> bool {
    0 <= v <= 255
}

/// What narrowing a geometry record to a [`Size`] yields: the exact column
/// and row counts when both fit eight bits, and a range error otherwise.
pub open spec fn spec_size_of(info: ScreenBufferInfo) -> Result<Size, ConsoleError> {
    if coord_in_range(info.screen_buffer_size.x) && coord_in_range(info.screen_buffer_size.y) {
        Ok(
            Size {
                width: info.screen_buffer_size.x as u8,
                height: info.screen_buffer_size.y as u8,
            },
        )
    } else {
        Err(ConsoleError::SizeOutOfRange)
    }
}

/// Narrows a geometry record to the adapter's [`Size`].
///
/// Succeeds exactly when both dimensions are between 0 and 255, and then
/// returns them unchanged; any other record is rejected with
/// [`ConsoleError::SizeOutOfRange`].
pub fn size_of_buffer_info(info: &ScreenBufferInfo) -> (r: Result<Size, ConsoleError>)
    ensures
        r == spec_size_of(*info),
{
    let x = info.screen_buffer_size.x;
    let y = info.screen_buffer_size.y;
    if 0 <= x && x <= 255 && 0 <= y && y <= 255 {
        Ok(Size { width: x as u8, height: y as u8 })
    } else {
        Err(ConsoleError::SizeOutOfRange)
    }
}

/// Turns the outcome of the native "get screen buffer info" call into the
/// geometry result: a failed call reports [`ConsoleError::OsCallFailed`],
/// a filled-in record is narrowed by [`size_of_buffer_info`].
pub fn geometry_outcome(outcome: Option<ScreenBufferInfo>) -> (r: Result<Size, ConsoleError>)
    ensures
        outcome matches Some(info) ==> r == spec_size_of(info),
        outcome is None ==> r == Err::<Size, ConsoleError>(ConsoleError::OsCallFailed),
{
    match outcome {
        Some(info) => size_of_buffer_info(&info),
        None => Err(ConsoleError::OsCallFailed),
    }
}

/// Dimensions at or below 255 round-trip exactly through [`Size`]: the
/// narrowed record keeps the original column and row counts, and any record
/// with a dimension outside that range is rejected, never truncated.
pub proof fn lemma_size_round_trip(info: ScreenBufferInfo)
    ensures
        coord_in_range(info.screen_buffer_size.x) && coord_in_range(info.screen_buffer_size.y)
            ==> (spec_size_of(info) matches Ok(s)
                && s.width as int == info.screen_buffer_size.x as int
                && s.height as int == info.screen_buffer_size.y as int),
        !(coord_in_range(info.screen_buffer_size.x) && coord_in_range(info.screen_buffer_size.y))
            ==> spec_size_of(info) == Err::<Size, ConsoleError>(ConsoleError::SizeOutOfRange),
{
}

} // verus!
