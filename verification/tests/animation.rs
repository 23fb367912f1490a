use iterascope::animation::{anchor_indices, still_dimension, tile_spans, FamilyCurveTarget, StillTiles};
use iterascope::family::FractalFamily;

#[test]
fn tile_spans_cover_exactly_with_the_fewest_even_tiles() {
    assert_eq!(tile_spans(8192, 8192), vec![(0, 8192)]);
    assert_eq!(tile_spans(10000, 8192), vec![(0, 5000), (5000, 5000)]);
    let spans = tile_spans(16384, 2730);
    assert_eq!(spans.len(), 7);
    assert_eq!(spans.iter().map(|(_, size)| size).sum::<u32>(), 16384);
    assert_eq!(
        spans.last().map(|(offset, size)| offset + size),
        Some(16384)
    );
    assert!(spans.iter().all(|(_, size)| *size <= 2730));
    assert_eq!(tile_spans(5, 2), vec![(0, 2), (2, 2), (4, 1)]);
}

#[test]
fn tile_spans_are_contiguous_and_start_at_zero() {
    for (extent, max_tile) in [(1u32, 1u32), (7, 3), (100, 7), (16384, 8192), (0, 5), (9, 0)] {
        let spans = tile_spans(extent, max_tile);
        assert!(!spans.is_empty());
        assert_eq!(spans[0].0, 0);
        for pair in spans.windows(2) {
            assert_eq!(pair[0].0 + pair[0].1, pair[1].0);
            assert!(pair[0].1 >= pair[1].1 && pair[0].1 - pair[1].1 <= 1);
        }
        let last = spans[spans.len() - 1];
        assert_eq!(last.0 + last.1, extent);
    }
    assert_eq!(tile_spans(0, 5), vec![(0, 0)]);
    assert_eq!(tile_spans(3, 0), vec![(0, 1), (1, 1), (2, 1)]);
}

#[test]
fn anchors_are_the_deeper_endpoints_in_order_and_once() {
    // Segments 0 -> 1 anchored on waypoint 1, 1 -> 2 anchored on waypoint 1,
    // 2 -> 3 anchored on waypoint 3.
    assert_eq!(anchor_indices(&vec![true, false, true]), vec![1, 3]);
    assert_eq!(anchor_indices(&vec![false, false]), vec![0, 1]);
    assert_eq!(anchor_indices(&vec![true, true, true]), vec![1, 2, 3]);
    assert_eq!(anchor_indices(&vec![false, true, false]), vec![0, 2]);
    assert_eq!(anchor_indices(&Vec::new()), Vec::<usize>::new());
}

#[test]
fn family_curves_drive_only_the_settings_a_family_uses() {
    assert!(FamilyCurveTarget::NovaRelaxation.applies_to(FractalFamily::Nova));
    assert!(!FamilyCurveTarget::NovaRelaxation.applies_to(FractalFamily::Mandelbox));
    assert!(FamilyCurveTarget::MandelboxScale.applies_to(FractalFamily::Mandelbox));
    assert!(!FamilyCurveTarget::MandelboxFixedRadius.applies_to(FractalFamily::Quadratic));
    assert_eq!(FamilyCurveTarget::MandelboxMinRadius.label(), "Mandelbox min radius");
    assert_eq!(FamilyCurveTarget::NovaRelaxation.label(), "Nova relaxation");
}

#[test]
fn stills_round_to_even_sizes_and_tile_within_the_texture_limit() {
    let still = StillTiles::new(10001, 7, 5);
    assert_eq!((still.width(), still.height(), still.supersample()), (10000, 16, 3));
    // 8192 / 3 = 2730 final pixels per tile: 10000 needs four columns.
    assert_eq!(still.tile_count(), 4);
    assert_eq!(still.tile(0), (0, 0, 2500, 16));
    assert_eq!(still.tile(3), (7500, 0, 2500, 16));
    let big = StillTiles::new(16384, 16384, 1);
    assert_eq!(big.tile_count(), 4);
    assert_eq!(big.tile(1), (8192, 0, 8192, 8192));
    assert_eq!(big.tile(2), (0, 8192, 8192, 8192));
    let small = StillTiles::new(0, 20000, 0);
    assert_eq!((small.width(), small.height(), small.supersample()), (16, 16384, 1));
    assert_eq!(still_dimension(17), 16);
    assert_eq!(still_dimension(4097), 4096);
}

#[test]
fn still_tiles_cover_every_pixel_once() {
    let still = StillTiles::new(9000, 5000, 2);
    let mut covered = vec![0u8; 9000 * 5000];
    for index in 0..still.tile_count() {
        let (x, y, width, height) = still.tile(index);
        assert!(width * 2 <= 8192 && height * 2 <= 8192);
        for row in y..y + height {
            for column in x..x + width {
                covered[row as usize * 9000 + column as usize] += 1;
            }
        }
    }
    assert!(covered.iter().all(|&count| count == 1));
}

#[test]
fn a_pasted_tile_lands_in_its_rectangle_only() {
    let still = StillTiles::new(10000, 16, 3);
    let (x0, y0, width, height) = still.tile(2);
    assert_eq!((x0, y0, width, height), (5000, 0, 2500, 16));
    let mut image = vec![7u8; 10000 * 16 * 4];
    let tile: Vec<u8> = (0..width * height * 4).map(|k| (k % 251) as u8).collect();
    still.paste(&mut image, 2, &tile);
    for y in 0..16usize {
        for x in 0..10000usize {
            for channel in 0..4usize {
                let byte = image[(y * 10000 + x) * 4 + channel];
                if (5000..7500).contains(&x) {
                    let k = (y * 2500 + (x - 5000)) * 4 + channel;
                    assert_eq!(byte, (k % 251) as u8);
                } else {
                    assert_eq!(byte, 7);
                }
            }
        }
    }
}

#[test]
fn pasting_every_tile_assembles_the_whole_still() {
    let still = StillTiles::new(9000, 5000, 2);
    let mut image = vec![0u8; 9000 * 5000 * 4];
    for index in 0..still.tile_count() {
        let (_, _, width, height) = still.tile(index);
        let tile = vec![index as u8 + 1; (width * height * 4) as usize];
        still.paste(&mut image, index, &tile);
    }
    for index in 0..still.tile_count() {
        let (x0, y0, width, height) = still.tile(index);
        for y in [y0, y0 + height - 1] {
            for x in [x0, x0 + width / 2, x0 + width - 1] {
                let pixel = (y as usize * 9000 + x as usize) * 4;
                assert_eq!(&image[pixel..pixel + 4], &[index as u8 + 1; 4]);
            }
        }
    }
    assert!(image.iter().all(|&byte| byte != 0));
}
