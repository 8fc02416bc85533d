use file_stream::cursor::{length_from, position_from, seek_offset};
use file_stream::StreamError;

#[test]
fn seek_offset_is_the_target_itself() {
    assert_eq!(seek_offset(0), 0u64);
    assert_eq!(seek_offset(1234), 1234u64);
    assert_eq!(seek_offset(usize::MAX), usize::MAX as u64);
}

#[test]
fn position_that_fits_is_unchanged() {
    assert_eq!(position_from(0), 0usize);
    assert_eq!(position_from(9), 9usize);
    assert_eq!(position_from(usize::MAX as u64), usize::MAX);
}

#[test]
fn position_beyond_the_address_space_wraps() {
    match (usize::MAX as u64).checked_add(1) {
        Some(space) => {
            assert_eq!(position_from(space), 0usize);
            assert_eq!(position_from(space + 7), 7usize);
            assert_eq!(position_from(u64::MAX), usize::MAX);
        }
        None => {
            assert_eq!(position_from(u64::MAX), usize::MAX);
            assert_eq!(position_from(u64::MAX - 1), usize::MAX - 1);
        }
    }
}

#[test]
fn tell_after_seek_gives_the_target() {
    let targets: [usize; 6] = [0, 1, 5, 4096, usize::MAX - 1, usize::MAX];
    for k in targets {
        assert_eq!(position_from(seek_offset(k)), k);
    }
}

#[test]
fn length_that_fits_is_unchanged() {
    assert_eq!(length_from(0), Ok(0usize));
    assert_eq!(length_from(5), Ok(5usize));
    assert_eq!(length_from(usize::MAX as u64), Ok(usize::MAX));
}

#[test]
fn length_beyond_usize_is_refused() {
    match (usize::MAX as u64).checked_add(1) {
        Some(too_long) => {
            assert_eq!(length_from(too_long), Err(StreamError::LengthOutOfRange));
            assert_eq!(length_from(u64::MAX), Err(StreamError::LengthOutOfRange));
        }
        None => {
            assert_eq!(length_from(u64::MAX), Ok(usize::MAX));
        }
    }
}
