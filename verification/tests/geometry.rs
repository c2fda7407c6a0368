use windows_terminal::geometry_outcome;
use windows_terminal::size_of_buffer_info;
use windows_terminal::ConsoleError;
use windows_terminal::Coord;
use windows_terminal::Empty;
use windows_terminal::ScreenBufferInfo;
use windows_terminal::SmallRect;
use windows_terminal::Size;

fn info_with_size(x: i16, y: i16) -> ScreenBufferInfo {
    let mut info = ScreenBufferInfo::empty();
    info.screen_buffer_size = Coord { x, y };
    info
}

#[test]
fn typical_geometry_is_narrowed_exactly() {
    let r = size_of_buffer_info(&info_with_size(80, 25));
    assert_eq!(r, Ok(Size { width: 80, height: 25 }));
}

#[test]
fn largest_representable_geometry_round_trips() {
    let r = size_of_buffer_info(&info_with_size(255, 255));
    assert_eq!(r, Ok(Size { width: 255, height: 255 }));
}

#[test]
fn zero_geometry_is_representable() {
    let r = size_of_buffer_info(&info_with_size(0, 0));
    assert_eq!(r, Ok(Size { width: 0, height: 0 }));
}

#[test]
fn oversized_geometry_is_rejected_not_truncated() {
    assert_eq!(size_of_buffer_info(&info_with_size(256, 25)), Err(ConsoleError::SizeOutOfRange));
    assert_eq!(size_of_buffer_info(&info_with_size(80, 300)), Err(ConsoleError::SizeOutOfRange));
    assert_eq!(
        size_of_buffer_info(&info_with_size(i16::MAX, i16::MAX)),
        Err(ConsoleError::SizeOutOfRange),
    );
}

#[test]
fn negative_geometry_is_rejected() {
    assert_eq!(size_of_buffer_info(&info_with_size(-1, 25)), Err(ConsoleError::SizeOutOfRange));
    assert_eq!(size_of_buffer_info(&info_with_size(80, -3)), Err(ConsoleError::SizeOutOfRange));
}

#[test]
fn failed_native_query_reports_the_os_error() {
    assert_eq!(geometry_outcome(None), Err(ConsoleError::OsCallFailed));
}

#[test]
fn successful_native_query_is_narrowed() {
    let r = geometry_outcome(Some(info_with_size(120, 40)));
    assert_eq!(r, Ok(Size { width: 120, height: 40 }));
}

#[test]
fn empty_records_are_all_zero() {
    let c = Coord::empty();
    assert_eq!(c, Coord { x: 0, y: 0 });
    let rect = SmallRect::empty();
    assert_eq!(rect, SmallRect { left: 0, top: 0, right: 0, bottom: 0 });
    let info = ScreenBufferInfo::empty();
    assert_eq!(info.screen_buffer_size, Coord { x: 0, y: 0 });
    assert_eq!(info.cursor_position, Coord { x: 0, y: 0 });
    assert_eq!(info.attributes, 0);
    assert_eq!(info.window, SmallRect { left: 0, top: 0, right: 0, bottom: 0 });
    assert_eq!(info.maximum_window_size, Coord { x: 0, y: 0 });
}
