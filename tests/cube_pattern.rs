use led_cube::addressing::{address, check_bounds, in_bounds, invert4, locate, CubePosition};
use led_cube::cube::{Cube, PATTERN_LEN};
use led_cube::error::{CubeError, IoFailure};

fn all_positions() -> Vec<CubePosition> {
    let mut v = Vec::new();
    for x in 0..4 {
        for y in 0..4 {
            for z in 0..4 {
                v.push([x, y, z]);
            }
        }
    }
    v
}

#[test]
fn invert4_flips_each_coordinate() {
    assert_eq!(invert4(0), 3);
    assert_eq!(invert4(1), 2);
    assert_eq!(invert4(2), 1);
    assert_eq!(invert4(3), 0);
}

#[test]
fn in_bounds_accepts_cube_and_rejects_outside() {
    assert!(in_bounds([0, 0, 0]));
    assert!(in_bounds([3, 3, 3]));
    assert!(!in_bounds([4, 0, 0]));
    assert!(!in_bounds([0, 4, 0]));
    assert!(!in_bounds([0, 0, 4]));
    assert!(!in_bounds([usize::MAX, 0, 0]));
}

#[test]
fn check_bounds_passes_inside_the_cube() {
    for p in all_positions() {
        check_bounds(p);
    }
}

#[test]
fn locate_exact_values() {
    assert_eq!(locate([0, 0, 0]), (15, 0b1000));
    assert_eq!(locate([3, 3, 3]), (0, 0b0001));
    assert_eq!(locate([1, 2, 3]), (4, 0b0100));
    assert_eq!(locate([2, 0, 1]), (14, 0b0010));
}

#[test]
fn address_is_injective_over_the_cube() {
    let mut seen: Vec<(usize, u8)> = Vec::new();
    for p in all_positions() {
        let (idx, mask) = address(p).unwrap();
        assert!(idx < 16);
        assert!(mask == 1 || mask == 2 || mask == 4 || mask == 8);
        assert!(!seen.contains(&(idx, mask)));
        seen.push((idx, mask));
    }
    assert_eq!(seen.len(), 64);
}

#[test]
fn address_rejects_out_of_range() {
    assert_eq!(address([4, 0, 0]), None);
    assert_eq!(address([0, 4, 0]), None);
    assert_eq!(address([0, 0, 4]), None);
    assert_eq!(address([7, 9, 100]), None);
}

#[test]
fn clear_then_get_is_dark_everywhere() {
    let mut cube = Cube::new();
    for p in all_positions() {
        cube.set(p, true);
    }
    cube.clear();
    for p in all_positions() {
        assert!(!cube.get(p));
    }
}

#[test]
fn set_then_get_reads_back() {
    let mut cube = Cube::new();
    cube.set([1, 2, 3], true);
    assert!(cube.get([1, 2, 3]));
    cube.set([1, 2, 3], false);
    assert!(!cube.get([1, 2, 3]));
}

#[test]
fn set_does_not_alias_other_positions() {
    for p in all_positions() {
        let mut cube = Cube::new();
        cube.set(p, true);
        for q in all_positions() {
            assert_eq!(cube.get(q), q == p);
        }
    }
}

#[test]
fn frame_after_clear_is_all_zero() {
    let mut cube = Cube::new();
    cube.set([2, 1, 0], true);
    cube.clear();
    assert_eq!(cube.frame(), [0u8; PATTERN_LEN]);
}

#[test]
fn frame_after_setting_origin() {
    let mut cube = Cube::new();
    cube.clear();
    cube.set([0, 0, 0], true);
    let mut expected = [0u8; 16];
    expected[15] = 0b1000;
    assert_eq!(cube.frame(), expected);
}

#[test]
fn frame_high_nibbles_stay_zero() {
    let mut cube = Cube::new();
    for p in all_positions() {
        cube.set(p, true);
    }
    assert_eq!(cube.frame(), [0x0fu8; 16]);
}

#[test]
fn finish_flush_full_write_succeeds() {
    let cube = Cube::new();
    assert!(cube.finish_flush(Ok(16)).is_ok());
}

#[test]
fn finish_flush_short_write_fails() {
    let cube = Cube::new();
    assert!(matches!(cube.finish_flush(Ok(5)), Err(CubeError::IoError(IoFailure::Short(5)))));
    assert!(matches!(cube.finish_flush(Ok(0)), Err(CubeError::IoError(IoFailure::Short(0)))));
}

#[test]
fn failed_write_reports_io_error_and_keeps_pattern() {
    let mut cube = Cube::new();
    cube.set([0, 1, 2], true);
    let before = cube.frame();
    let failed = Err(std::io::Error::new(std::io::ErrorKind::BrokenPipe, "link down"));
    match cube.finish_flush(failed) {
        Err(CubeError::IoError(IoFailure::Transport(e))) => assert_eq!(e.kind(), std::io::ErrorKind::BrokenPipe),
        _ => panic!("expected an I/O error"),
    }
    assert!(cube.get([0, 1, 2]));
    assert_eq!(cube.frame(), before);
}
