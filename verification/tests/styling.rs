use qr_styler::color::{parse_colors, parse_hex_color, Rgba};
use qr_styler::detect::get_qr_element_size;
use qr_styler::errors::QrError;
use qr_styler::filters::{apply_color, make_transparent};
use qr_styler::grid::PixelGrid;
use qr_styler::logo::{add_logo, logo_edge};
use qr_styler::palette::{add_gradient, frame_colors};
use qr_styler::pipeline::{generate, generate_animated, render, AnimationOptions, Options, QrResult};

const WHITE: Rgba = Rgba { r: 255, g: 255, b: 255, a: 255 };
const BLACK: Rgba = Rgba { r: 0, g: 0, b: 0, a: 255 };
const CLEAR: Rgba = Rgba { r: 255, g: 255, b: 255, a: 0 };

fn rgba(r: u8, g: u8, b: u8, a: u8) -> Rgba {
    Rgba { r, g, b, a }
}

fn plain_options() -> Options {
    Options { add_logo: false, add_gradient: false, add_transparency: None, animation: None }
}

/// Decodes PNG bytes into (pixels, width, height).
fn decode_png(bytes: &[u8]) -> (Vec<Rgba>, u32, u32) {
    let img = image::io::Reader::new(std::io::Cursor::new(bytes))
        .with_guessed_format()
        .unwrap()
        .decode()
        .unwrap()
        .to_rgba8();
    let (w, h) = img.dimensions();
    let px = img.pixels().map(|p| rgba(p.0[0], p.0[1], p.0[2], p.0[3])).collect();
    (px, w, h)
}

/// A tiny solid-colored PNG to stand in for a logo asset.
fn solid_png(r: u8, g: u8, b: u8, w: u32, h: u32) -> Vec<u8> {
    let img = image::ImageBuffer::from_pixel(w, h, image::Rgba([r, g, b, 255u8]));
    let mut out = Vec::new();
    img.write_to(&mut std::io::Cursor::new(&mut out), image::ImageOutputFormat::Png).unwrap();
    out
}

#[test]
fn grid_round_trips_its_pixels() {
    let mut g = PixelGrid::new(2, WHITE);
    g.set(1, 0, BLACK);
    assert_eq!(g.size_px(), 2);
    assert_eq!(g.get(1, 0), BLACK);
    assert_eq!(g.get(0, 1), WHITE);
    let pixels = g.into_pixels();
    assert_eq!(pixels, vec![WHITE, BLACK, WHITE, WHITE]);
    let g = PixelGrid::from_pixels(pixels, 2);
    assert_eq!(g.get(1, 0), BLACK);
}

#[test]
fn parse_red_hex_color() {
    assert_eq!(parse_hex_color("#FF0000").unwrap(), rgba(255, 0, 0, 255));
}

#[test]
fn parse_mixed_case_and_dark_colors() {
    assert_eq!(parse_hex_color("#00ff7f").unwrap(), rgba(0, 255, 127, 255));
    assert_eq!(parse_hex_color("#1E0532").unwrap(), rgba(30, 5, 50, 255));
}

#[test]
fn parse_rejects_missing_hash() {
    assert!(matches!(parse_hex_color("FF0000"), Err(QrError::ColorFormat)));
}

#[test]
fn parse_rejects_non_hex_digits() {
    assert!(matches!(parse_hex_color("#ZZZZZZ"), Err(QrError::ColorFormat)));
}

#[test]
fn parse_rejects_short_strings() {
    assert!(matches!(parse_hex_color(""), Err(QrError::ColorFormat)));
    assert!(matches!(parse_hex_color("#F00"), Err(QrError::ColorFormat)));
    assert!(matches!(parse_hex_color("#+F0000"), Err(QrError::ColorFormat)));
}

#[test]
fn parse_rejects_trailing_characters() {
    assert!(matches!(parse_hex_color("#FF0000!!"), Err(QrError::ColorFormat)));
    assert!(matches!(parse_hex_color("#FF00000"), Err(QrError::ColorFormat)));
    assert!(matches!(parse_hex_color("#FF0000 "), Err(QrError::ColorFormat)));
}

#[test]
fn parse_color_list() {
    let colors = vec![String::from("#000000"), String::from("#FFFFFF")];
    let parsed = parse_colors(&colors).unwrap();
    assert_eq!(parsed, vec![rgba(0, 0, 0, 255), rgba(255, 255, 255, 255)]);

    let bad = vec![String::from("#000000"), String::from("oops")];
    assert!(matches!(parse_colors(&bad), Err(QrError::ColorFormat)));
}

/// Paints a `scale`-pixel-per-module finder landmark: quiet zone of
/// `margin` pixels, then one black module on the diagonal.
fn landmark_grid(size: usize, margin: usize, module: usize) -> PixelGrid {
    let mut g = PixelGrid::new(size, WHITE);
    for y in margin..margin + module {
        for x in margin..margin + module {
            g.set(x, y, BLACK);
        }
    }
    g
}

#[test]
fn detector_reads_module_size() {
    let g = landmark_grid(32, 4, 5);
    assert_eq!(get_qr_element_size(&g), 5);
}

#[test]
fn detector_defaults_without_black_or_change() {
    let all_white = PixelGrid::new(16, WHITE);
    assert_eq!(get_qr_element_size(&all_white), 1);
    let all_black = PixelGrid::new(16, BLACK);
    assert_eq!(get_qr_element_size(&all_black), 1);
}

#[test]
fn detector_scales_with_the_bitmap() {
    // The same landmark drawn at k times the resolution reads k times the
    // module size.
    let base = landmark_grid(20, 3, 4);
    let m = get_qr_element_size(&base);
    assert!(m > 0);
    for k in [2usize, 3] {
        let scaled = landmark_grid(20 * k, 3 * k, 4 * k);
        assert_eq!(get_qr_element_size(&scaled), m * k);
    }
}

#[test]
fn transparency_filter_rewrites_only_white() {
    let mut g = PixelGrid::new(3, WHITE);
    g.set(1, 1, BLACK);
    g.set(2, 0, rgba(10, 20, 30, 255));
    make_transparent(&mut g);
    assert_eq!(g.get(0, 0), CLEAR);
    assert_eq!(g.get(1, 1), BLACK);
    assert_eq!(g.get(2, 0), rgba(10, 20, 30, 255));
}

#[test]
fn transparency_filter_is_idempotent() {
    let mut once = PixelGrid::new(4, WHITE);
    once.set(2, 3, BLACK);
    make_transparent(&mut once);
    let after_once = once.pixels().clone();
    make_transparent(&mut once);
    assert_eq!(once.pixels(), &after_once);
}

#[test]
fn flat_recolor_rewrites_only_black() {
    let mut g = PixelGrid::new(2, WHITE);
    g.set(0, 1, BLACK);
    apply_color(&mut g, rgba(9, 8, 7, 255));
    assert_eq!(g.get(0, 1), rgba(9, 8, 7, 255));
    assert_eq!(g.get(0, 0), WHITE);
}

#[test]
fn logo_edge_grows_within_the_bound() {
    // bound = 5 * 256 / 16 = 80; growing from 4 by 8 stops at 76.
    assert_eq!(logo_edge(4, 256), 76);
    // A single step would already pass the bound.
    assert_eq!(logo_edge(40, 256), 40);
    // The footprint bound holds for every grown edge.
    for m in 1..40usize {
        let l = logo_edge(m, 256);
        assert!(l * l <= 80 * 80);
    }
}

#[test]
fn gradient_touches_only_black_pixels() {
    let mut g = PixelGrid::new(8, WHITE);
    g.set(3, 3, BLACK);
    g.set(0, 0, BLACK);
    g.set(5, 2, rgba(1, 2, 3, 4));
    let before = g.pixels().clone();
    add_gradient(&mut g);
    for y in 0..8 {
        for x in 0..8 {
            let now = g.get(x, y);
            let was = before[y * 8 + x];
            if was == BLACK {
                assert_ne!(now, BLACK);
                assert_eq!(now.a, 255);
            } else {
                assert_eq!(now, was);
            }
        }
    }
    // Farther from the center means closer to the dark violet endpoint.
    let center = g.get(3, 3);
    let corner = g.get(0, 0);
    assert!(corner.r < center.r);
}

#[test]
fn frame_colors_hit_both_endpoints_exactly() {
    let stops = vec![BLACK, WHITE];
    let colors = frame_colors(&stops, 3);
    assert_eq!(colors[0], BLACK);
    assert_eq!(colors[1], rgba(128, 128, 128, 255));
    assert_eq!(colors[2], WHITE);
}

#[test]
fn frame_colors_are_monotone_between_two_stops() {
    let stops = vec![rgba(200, 10, 60, 255), rgba(20, 140, 50, 255)];
    let colors = frame_colors(&stops, 7);
    assert_eq!(colors[0], stops[0]);
    assert_eq!(colors[6], stops[1]);
    for w in colors.windows(2) {
        assert!(w[0].r >= w[1].r);
        assert!(w[0].g <= w[1].g);
        assert!(w[0].b >= w[1].b);
        assert_eq!(w[0].a, 255);
    }
}

#[test]
fn frame_colors_single_stop_is_constant() {
    let stops = vec![rgba(7, 7, 7, 255)];
    let colors = frame_colors(&stops, 4);
    for c in colors {
        assert_eq!(c, rgba(7, 7, 7, 255));
    }
}

#[test]
fn logo_lands_centered_and_leaves_the_rest() {
    let mut g = landmark_grid(64, 2, 4);
    let logo = solid_png(200, 30, 40, 8, 8);
    add_logo(&mut g, &logo).unwrap();
    // module size 4, bound 5 * 64 / 16 = 20 -> edge grows 4, 12, 20; logo
    // pasted at (22, 22) .. (42, 42).
    assert_eq!(g.get(32, 32), rgba(200, 30, 40, 255));
    assert_eq!(g.get(10, 50), WHITE);
    assert_eq!(g.get(2, 2), BLACK);
}

#[test]
fn logo_decode_failure_is_an_asset_error() {
    let mut g = PixelGrid::new(16, WHITE);
    let before = g.pixels().clone();
    let r = add_logo(&mut g, b"not an image at all");
    assert!(matches!(r, Err(QrError::AssetDecode)));
    assert_eq!(g.pixels(), &before);
}

#[test]
fn plain_generate_is_opaque_black_and_white() {
    let bytes = generate("HELLO", &plain_options(), &[], 256).unwrap();
    let (px, w, h) = decode_png(&bytes);
    assert_eq!((w, h), (256, 256));
    let mut blacks = 0usize;
    let mut whites = 0usize;
    for p in px {
        assert_eq!(p.a, 255);
        if p == BLACK {
            blacks += 1;
        } else if p == WHITE {
            whites += 1;
        } else {
            panic!("unexpected pixel {:?}", p);
        }
    }
    assert!(blacks > 0 && whites > 0);
}

#[test]
fn transparent_generate_has_no_opaque_white_left() {
    let mut options = plain_options();
    options.add_transparency = Some(true);
    let bytes = generate("HELLO", &options, &[], 256).unwrap();
    let (px, _, _) = decode_png(&bytes);
    let mut cleared = 0usize;
    for p in px {
        assert_ne!(p, WHITE);
        if p.r == 255 && p.g == 255 && p.b == 255 {
            assert_eq!(p.a, 0);
            cleared += 1;
        } else {
            assert_eq!(p, BLACK);
        }
    }
    assert!(cleared > 0);
}

#[test]
fn gradient_generate_recolors_the_modules() {
    let mut options = plain_options();
    options.add_gradient = true;
    let bytes = generate("HELLO", &options, &[], 256).unwrap();
    let (px, _, _) = decode_png(&bytes);
    for p in &px {
        assert_ne!(*p, BLACK);
        assert_eq!(p.a, 255);
    }
    // The magenta-violet range shows up where the modules were.
    assert!(px.iter().any(|p| p.r > 0 && p.r <= 100 && p.g <= 5 && p.b > 0));
}

#[test]
fn generate_rejects_oversized_text() {
    let huge = "A".repeat(8000);
    let r = generate(&huge, &plain_options(), &[], 256);
    assert!(matches!(r, Err(QrError::Encode(_))));
}

#[test]
fn animation_renders_every_frame_color() {
    let options = plain_options();
    let animation = AnimationOptions {
        frames: 3,
        colors: vec![String::from("#000000"), String::from("#FFFFFF")],
    };
    let frames = generate_animated("HELLO", &options, &[], 256, &animation).unwrap();
    assert_eq!(frames.len(), 3);

    let mid = rgba(128, 128, 128, 255);
    let (f0, _, _) = decode_png(&frames[0]);
    assert!(f0.iter().any(|p| *p == BLACK));
    assert!(f0.iter().all(|p| *p == BLACK || *p == WHITE));

    let (f1, _, _) = decode_png(&frames[1]);
    assert!(f1.iter().any(|p| *p == mid));
    assert!(f1.iter().all(|p| *p == mid || *p == WHITE));

    let (f2, _, _) = decode_png(&frames[2]);
    assert!(f2.iter().all(|p| *p == WHITE));
}

#[test]
fn animation_rejects_degenerate_frame_counts() {
    let animation = AnimationOptions { frames: 1, colors: vec![String::from("#000000")] };
    let r = generate_animated("HELLO", &plain_options(), &[], 128, &animation);
    assert!(matches!(r, Err(QrError::DegenerateInput)));
    let animation = AnimationOptions { frames: 0, colors: vec![] };
    let r = generate_animated("HELLO", &plain_options(), &[], 128, &animation);
    assert!(matches!(r, Err(QrError::DegenerateInput)));
}

#[test]
fn animation_rejects_bad_colors() {
    let animation = AnimationOptions {
        frames: 2,
        colors: vec![String::from("#00FF00"), String::from("00FF00")],
    };
    let r = generate_animated("HELLO", &plain_options(), &[], 128, &animation);
    assert!(matches!(r, Err(QrError::ColorFormat)));
}

#[test]
fn animation_tolerates_fewer_than_two_colors() {
    let animation = AnimationOptions { frames: 2, colors: vec![String::from("#112233")] };
    let frames = generate_animated("HELLO", &plain_options(), &[], 128, &animation).unwrap();
    assert_eq!(frames.len(), 2);
    let animation = AnimationOptions { frames: 2, colors: vec![] };
    let frames = generate_animated("HELLO", &plain_options(), &[], 128, &animation).unwrap();
    assert_eq!(frames.len(), 2);
}

#[test]
fn render_dispatches_between_still_and_animated() {
    let logo = solid_png(10, 10, 10, 4, 4);
    match render("HELLO", &plain_options(), &logo, &logo, 256) {
        QrResult::Image(bytes) => {
            let (_, w, h) = decode_png(&bytes);
            assert_eq!((w, h), (256, 256));
        },
        other => panic!("expected a single image, got {:?}", other),
    }

    let mut options = plain_options();
    options.animation = Some(AnimationOptions {
        frames: 2,
        colors: vec![String::from("#102030"), String::from("#405060")],
    });
    match render("HELLO", &options, &logo, &logo, 256) {
        QrResult::Images(frames) => assert_eq!(frames.len(), 2),
        other => panic!("expected an animation, got {:?}", other),
    }
}

#[test]
fn error_messages_describe_each_failure() {
    assert!(QrError::ColorFormat.message().contains("#FF0000"));
    assert!(!QrError::DegenerateInput.message().is_empty());
    assert!(!QrError::AssetDecode.message().is_empty());
    assert!(!QrError::Codec.message().is_empty());
    assert_eq!(QrError::Encode(String::from("too long")).message(), "too long");
}
