use pupil_osc::luminance::{Frame, LatestLuminance, Rgb, GRID_X, GRID_Y};

/// Builds a BGRA frame from a per-pixel closure, with optional row padding
/// filled with a value that must never reach a sample.
fn frame_of(width: u32, height: u32, padding: u32, f: impl Fn(u32, u32) -> [u8; 4]) -> (Vec<u8>, u32) {
    let pitch = width * 4 + padding;
    let mut buf = vec![0xAAu8; (pitch * height) as usize];
    for y in 0..height {
        for x in 0..width {
            let o = (y * pitch + x * 4) as usize;
            buf[o..o + 4].copy_from_slice(&f(x, y));
        }
    }
    (buf, pitch)
}

fn all_positions(n: u32) -> Vec<u32> {
    (0..n).collect()
}

#[test]
fn channels_come_out_of_bgra_order() {
    let (buf, pitch) = frame_of(2, 1, 0, |x, _| if x == 0 { [10, 20, 30, 255] } else { [1, 2, 3, 4] });
    let frame = Frame { pixels: &buf, width: 2, height: 1, row_pitch: pitch };
    assert_eq!(frame.rgb_at(0, 0), Some(Rgb { r: 30, g: 20, b: 10 }));
    assert_eq!(frame.rgb_at(1, 0), Some(Rgb { r: 3, g: 2, b: 1 }));
}

#[test]
fn padded_rows_sample_like_tight_rows() {
    let (tight, p1) = frame_of(50, 20, 0, |x, y| [(x * 5) as u8, y as u8, (x + y) as u8, 255]);
    let (padded, p2) = frame_of(50, 20, 37, |x, y| [(x * 5) as u8, y as u8, (x + y) as u8, 255]);
    let a = Frame { pixels: &tight, width: 50, height: 20, row_pitch: p1 };
    let b = Frame { pixels: &padded, width: 50, height: 20, row_pitch: p2 };
    let columns = all_positions(50);
    let rows = all_positions(20);
    let sa = a.sample_grid(&columns, &rows);
    let sb = b.sample_grid(&columns, &rows);
    assert_eq!(sa, sb);
    assert!(sa.iter().all(|row| row.iter().all(|s| s.is_some())));
    assert_eq!(sa[3][7], Some(Rgb { r: 10, g: 3, b: 35 }));
}

#[test]
fn the_pitch_is_never_less_than_a_row_of_pixels() {
    let buf = vec![0u8; 64];
    let squeezed = Frame { pixels: &buf, width: 4, height: 4, row_pitch: 3 };
    assert_eq!(squeezed.pitch(), 16);
    let padded = Frame { pixels: &buf, width: 4, height: 4, row_pitch: 20 };
    assert_eq!(padded.pitch(), 20);
}

#[test]
fn degenerate_frames_have_nothing_to_sample() {
    let empty = Frame { pixels: &[], width: 0, height: 0, row_pitch: 0 };
    assert!(empty.is_degenerate());
    let no_rows = Frame { pixels: &[0, 0, 0, 255], width: 1, height: 0, row_pitch: 4 };
    assert!(no_rows.is_degenerate());
    let one = Frame { pixels: &[0, 0, 0, 255], width: 1, height: 1, row_pitch: 4 };
    assert!(!one.is_degenerate());
}

#[test]
fn a_buffer_shorter_than_it_claims_samples_nothing_past_its_end() {
    let short = [0u8, 0, 0, 255];
    let frame = Frame { pixels: &short, width: 64, height: 64, row_pitch: 256 };
    assert_eq!(frame.rgb_at(0, 0), Some(Rgb { r: 0, g: 0, b: 0 }));
    assert_eq!(frame.rgb_at(1, 0), None);
    assert_eq!(frame.rgb_at(0, 1), None);
    let grid = frame.sample_grid(&vec![0, 32, 63], &vec![0, 35]);
    assert_eq!(grid, vec![vec![Some(Rgb { r: 0, g: 0, b: 0 }), None, None], vec![None, None, None]]);
}

#[test]
fn grid_positions_past_the_edge_land_on_the_last_pixel() {
    let (buf, pitch) = frame_of(3, 2, 5, |x, y| [x as u8, y as u8, 9, 255]);
    let frame = Frame { pixels: &buf, width: 3, height: 2, row_pitch: pitch };
    let grid = frame.sample_grid(&vec![7, u32::MAX], &vec![2, 0]);
    assert_eq!(grid[0][0], Some(Rgb { r: 9, g: 1, b: 2 }));
    assert_eq!(grid[1][1], Some(Rgb { r: 9, g: 0, b: 2 }));
}

#[test]
fn the_grid_has_its_fixed_shape() {
    let (buf, pitch) = frame_of(160, 90, 0, |_, _| [1, 1, 1, 255]);
    let frame = Frame { pixels: &buf, width: 160, height: 90, row_pitch: pitch };
    let columns: Vec<u32> = (0..GRID_X).map(|gx| (2 * gx + 1) * 160 / (2 * GRID_X)).collect();
    let rows: Vec<u32> = (0..GRID_Y).map(|gy| (2 * gy + 1) * 90 / (2 * GRID_Y)).collect();
    let grid = frame.sample_grid(&columns, &rows);
    assert_eq!(grid.len(), 36);
    assert!(grid.iter().all(|row| row.len() == 64));
}

#[test]
fn a_fresh_slot_reads_as_darkness() {
    let slot = LatestLuminance::new();
    assert_eq!(slot.get_bits(), 0);
    assert_eq!(f32::from_bits(slot.get_bits()), 0.0);
    assert_eq!(LatestLuminance::default().get_bits(), 0);
}

#[test]
fn the_shared_slot_holds_the_newest_reading() {
    let slot = LatestLuminance::new();
    let writer = slot.clone();
    for i in 0..1000 {
        writer.set_bits((i as f32 / 1000.0).to_bits());
    }
    assert!((f32::from_bits(slot.get_bits()) - 0.999).abs() < 1e-6);
}
