use iterascope::palette::{
    map_palette_colours, palette_format, split_ugr_tokens, ugr_colour_rgb, ugr_colour_value, PaletteFormat,
};

#[test]
fn map_palettes_read_one_colour_per_line() {
    let text = "0 0 0\n255,128,  7 trailing comment\n\n 300 2 3\n";
    assert_eq!(
        map_palette_colours(text).unwrap(),
        vec![[0, 0, 0], [255, 128, 7], [255, 2, 3]]
    );
}

#[test]
fn map_lines_need_three_numbers_up_front() {
    let text = "1 2\n4 five 6\n7 8 9 10\n+1 2 3\n";
    assert_eq!(map_palette_colours(text).unwrap(), vec![[7, 8, 9], [1, 2, 3]]);
}

#[test]
fn map_palettes_need_two_colours() {
    let expected = "expected a .ugr gradient or a .map palette with at least two `r g b` lines";
    assert_eq!(map_palette_colours("").unwrap_err(), expected);
    assert_eq!(map_palette_colours("1 2 3").unwrap_err(), expected);
    assert_eq!(map_palette_colours("1 2 3\nx y z\n").unwrap_err(), expected);
    assert_eq!(map_palette_colours("1 2 3\r\n4 5 6\r\n").unwrap(), vec![[1, 2, 3], [4, 5, 6]]);
}

#[test]
fn ugr_tokens_keep_quoted_titles_whole() {
    assert_eq!(
        split_ugr_tokens("  title=\"Deep Blue Sea\" smooth=yes\trotation=12  "),
        vec!["title=\"Deep Blue Sea\"", "smooth=yes", "rotation=12"]
    );
    assert_eq!(split_ugr_tokens("index=0 color=16777215"), vec!["index=0", "color=16777215"]);
    assert!(split_ugr_tokens("   \t ").is_empty());
    assert_eq!(split_ugr_tokens("a=\"open quote b=c"), vec!["a=\"open quote b=c"]);
}

#[test]
fn ugr_colours_store_red_in_the_low_byte() {
    assert_eq!(ugr_colour_rgb(0x00FF_8001), [0x01, 0x80, 0xFF]);
    assert_eq!(ugr_colour_rgb(0xFF00_0000), [0, 0, 0]);
    assert_eq!(ugr_colour_value([0x01, 0x80, 0xFF]), 0x00FF_8001);
    for rgb in [[0u8, 0, 0], [255, 255, 255], [12, 200, 99]] {
        assert_eq!(ugr_colour_rgb(ugr_colour_value(rgb)), rgb);
    }
}

#[test]
fn palette_texts_are_told_apart_by_their_gradient_section() {
    assert_eq!(palette_format("  \n\t ").unwrap_err(), "the text is empty");
    assert_eq!(palette_format("").unwrap_err(), "the text is empty");
    assert_eq!(
        palette_format("Blues {\ngradient:\n  index=0 color=0\n}\n"),
        Ok(PaletteFormat::UltraFractal)
    );
    assert_eq!(palette_format("gradient:"), Ok(PaletteFormat::UltraFractal));
    assert_eq!(palette_format("gradient"), Ok(PaletteFormat::FractintMap));
    assert_eq!(palette_format("0 0 0\n255 255 255\n"), Ok(PaletteFormat::FractintMap));
}

use iterascope::palette::read_ugr;

const UGR_LAYOUT: &str = r#"Blues {
gradient:
  title="Blues" smooth=yes rotation=20
  index=0 color=8388608
  index=200 color=16777215
  index=399 color=255
opacity:
  smooth=no
  index=0 opacity=255
}
Reds {
gradient:
  title="Reds and more" smooth=no
  index=0 color=255
  index=100 color=65280
}
"#;

fn close(a: [f32; 3], b: [f32; 3]) -> bool {
    a.iter().zip(b.iter()).all(|(x, y)| (x - y).abs() < 1e-6)
}

fn colour(value: u32) -> [f32; 3] {
    let rgb = ugr_colour_rgb(value);
    [rgb[0] as f32 / 255.0, rgb[1] as f32 / 255.0, rgb[2] as f32 / 255.0]
}

#[test]
fn ugr_parser_reads_ultra_fractal_layout() {
    let gradients = read_ugr(UGR_LAYOUT);
    assert_eq!(gradients.len(), 2);
    assert_eq!(gradients[0].name, "Blues");
    assert_eq!(gradients[0].stops.len(), 3);
    // 8388608 = 0x800000: blue 128 in COLORREF byte order.
    assert!(close(colour(gradients[0].stops[0].colour), [0.0, 0.0, 128.0 / 255.0]));
    assert!(close(colour(gradients[0].stops[2].colour), [1.0, 0.0, 0.0]));
    let rotation: f32 = gradients[0].rotation.as_deref().unwrap().parse().unwrap();
    assert!((rotation / 400.0 - 0.05).abs() < 1e-6);
    assert_eq!(gradients[1].name, "Reds and more");
    assert!(close(colour(gradients[1].stops[1].colour), [0.0, 1.0, 0.0]));
}

#[test]
fn ugr_sections_keep_what_they_write() {
    let gradients = read_ugr(UGR_LAYOUT);
    // The opacity part of a gradient is skipped, so `smooth=no` there does
    // not switch the gradient off.
    assert!(gradients[0].smooth);
    assert!(!gradients[1].smooth);
    assert_eq!(gradients[1].rotation, None);
    let indices: Vec<&str> = gradients[0].stops.iter().map(|stop| stop.index.as_str()).collect();
    assert_eq!(indices, vec!["0", "200", "399"]);
    // Untitled gradients take the entry's name; a line without a colour
    // adds no point, and a gradient without points is dropped.
    let text = "Plain {\r\n gradient:\r\n index=5\r\n index=6 color=x\r\n index=7 color=3 \r\n}\r\nEmpty {\ngradient:\n}\n";
    let plain = read_ugr(text);
    assert_eq!(plain.len(), 1);
    assert_eq!(plain[0].name, "Plain");
    assert_eq!(plain[0].stops.len(), 1);
    assert_eq!((plain[0].stops[0].index.as_str(), plain[0].stops[0].colour), ("7", 3));
    assert!(read_ugr("index=0 color=0\n").is_empty());
}

use iterascope::palette::write_ugr;

#[test]
fn ugr_entries_are_written_line_by_line() {
    let text = write_ugr("  Ember ", true, 40, &vec![(0, 255), (200, 65280), (-3, 16777215)]);
    assert_eq!(
        text,
        "Ember {\ngradient:\n  title=\"Ember\" smooth=yes rotation=40\n  index=0 color=255\n  index=200 color=65280\n  index=-3 color=16777215\nopacity:\n  smooth=no\n  index=0 opacity=255\n}\n"
    );
    let unnamed = write_ugr(" \t", false, -7, &vec![]);
    assert_eq!(
        unnamed,
        "IteraScope {\ngradient:\n  title=\"IteraScope\" smooth=no rotation=-7\nopacity:\n  smooth=no\n  index=0 opacity=255\n}\n"
    );
    assert!(write_ugr("x", false, i32::MIN, &vec![(i32::MIN, u32::MAX)]).contains("index=-2147483648 color=4294967295"));
}

#[test]
fn written_ugr_gradients_read_back() {
    let stops = vec![(0, 0x0000_1020), (133, 0x00FF_8001), (399, 0x00FF_FFFF)];
    let text = write_ugr("Deep Sea", true, 40, &stops);
    let read = read_ugr(&text);
    assert_eq!(read.len(), 1);
    assert_eq!(read[0].name, "Deep Sea");
    assert!(read[0].smooth);
    assert_eq!(read[0].rotation.as_deref(), Some("40"));
    let back: Vec<(i32, u32)> = read[0]
        .stops
        .iter()
        .map(|stop| (stop.index.parse().unwrap(), stop.colour))
        .collect();
    assert_eq!(back, stops);
    // Without control points nothing is read back.
    assert!(read_ugr(&write_ugr("Empty", false, 0, &vec![])).is_empty());
}

#[test]
fn map_parser_reads_fractint_palettes() {
    let text = (0..256)
        .map(|i| format!("{i} {} {}", 255 - i, i / 2))
        .collect::<Vec<_>>()
        .join("\n");
    assert_eq!(palette_format(&text), Ok(PaletteFormat::FractintMap));
    let colours = map_palette_colours(&text).unwrap();
    assert_eq!(colours.len(), 256);
    let last = colours[255].map(|channel| channel as f32 / 255.0);
    assert!(close(last, [1.0, 0.0, 127.0 / 255.0]));
    assert_eq!(palette_format("nothing here"), Ok(PaletteFormat::FractintMap));
    assert!(map_palette_colours("nothing here").is_err());
}

#[test]
fn ugr_round_trip_preserves_stops_and_colours() {
    // The Ember preset with a rotation of 0.1 turns, in the file's units.
    let ember: [(f32, [u8; 3]); 6] = [
        (0.0, [8, 4, 10]),
        (0.2, [120, 18, 20]),
        (0.45, [240, 110, 20]),
        (0.65, [255, 230, 120]),
        (0.8, [255, 255, 255]),
        (0.92, [120, 60, 30]),
    ];
    let rotation = 0.1_f32;
    let stops: Vec<(i32, u32)> = ember
        .iter()
        .map(|(position, rgb)| ((position * 400.0).round() as i32, ugr_colour_value(*rgb)))
        .collect();
    let text = write_ugr("Ember", true, (rotation * 400.0).round() as i32, &stops);
    let parsed = read_ugr(&text);
    assert_eq!(parsed.len(), 1);
    let gradient = &parsed[0];
    assert_eq!(gradient.name, "Ember");
    assert!(gradient.smooth);
    assert_eq!(gradient.stops.len(), ember.len());
    let read_rotation: f32 = gradient.rotation.as_deref().unwrap().parse::<f32>().unwrap() / 400.0;
    assert!((read_rotation - 0.1).abs() < 2.0 / 400.0);
    for (stop, (position, rgb)) in gradient.stops.iter().zip(&ember) {
        let read_position = stop.index.parse::<f32>().unwrap() / 400.0;
        assert!((read_position - position).abs() < 1.0 / 400.0);
        assert!(close(colour(stop.colour), rgb.map(|channel| channel as f32 / 255.0)));
    }
}
