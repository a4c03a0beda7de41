use world_id_marbles::render::{render_svg, Document};
use world_id_marbles::seed::parse_decimal;
use world_id_marbles::{marble_png, Marble, RenderError, RequestError, SeedFormatError, U256, IMAGE_SIZE};

const MAX_SEED: &str =
    "115792089237316195423570985008687907853269984665640564039457584007913129639935";

fn marble(seed: &str) -> Marble {
    Marble::new(seed).unwrap()
}

fn png_dimensions(png: &[u8]) -> (u32, u32) {
    let w = u32::from_be_bytes([png[16], png[17], png[18], png[19]]);
    let h = u32::from_be_bytes([png[20], png[21], png[22], png[23]]);
    (w, h)
}

#[test]
fn zero_seed_document() {
    let expected = "<svg xmlns=\"http://www.w3.org/2000/svg\" fill=\"none\" viewBox=\"0 0 80 80\" transform=\"rotate(0 40 40)\">\n    <g clip-path=\"url(#a)\">\n        <circle cx=\"40\" cy=\"40\" r=\"40\" fill=\"#F8F8F8\" />\n        <g filter=\"url(#blur)\" opacity=\".9\">\n    <ellipse cx=\"33.545\" cy=\"32.494\" fill=\"#FF0000\" rx=\"33.545\" ry=\"32.494\" transform=\"matrix(-.48289 -.87568 .7985 -.602 9.46 74.034)\"/>\n</g>\n<g filter=\"url(#blur)\" opacity=\".8\">\n    <path fill=\"#FF0000\" d=\"M78.824-16.686c17.78 14.541 4.24 87.76-2.637 82.948-4.194-2.935-9.153-27.765-22.32-38.405-8.418-6.802-23.488-1.839-33.086-1.137-24.614 1.8 40.115-58.069 58.043-43.406Z\"/>\n</g>\n<g filter=\"url(#blur)\" opacity=\".8\">\n    <ellipse cx=\"39.533\" cy=\"39.042\" fill=\"#FF0000\" rx=\"39.533\" ry=\"39.042\" transform=\"matrix(-.2882 -.95757 .93652 -.35062 13.847 67.74)\" />\n</g>\n\n    </g>\n    <defs>\n        <filter id=\"blur\" width=\"300\" height=\"300\" x=\"0\" y=\"0\" color-interpolation-filters=\"sRGB\" filterUnits=\"userSpaceOnUse\">\n            <feGaussianBlur result=\"effect1_foregroundBlur_557_59789\" stdDeviation=\"9.6\" />\n        </filter>\n        <clipPath id=\"a\">\n            <rect width=\"80\" height=\"80\" fill=\"#fff\" rx=\"40\" />\n        </clipPath>\n    </defs>\n</svg>\n";
    assert_eq!(marble("0").build_svg(), expected);
}

#[test]
fn zero_seed_design() {
    let mut m = marble("0");
    assert_eq!(m.get_colors(), ["#FF0000".to_string(), "#FF0000".to_string(), "#FF0000".to_string()]);
    assert_eq!(m.get_order(), vec![0, 1, 2]);
    assert_eq!(m.get_rotation(), 0);
}

#[test]
fn zero_seed_as_integer() {
    let mut a = Marble::new(0u32).unwrap();
    let mut b = marble("0");
    assert_eq!(a.build_svg(), b.build_svg());
}

#[test]
fn draws_follow_the_seed_digits() {
    // 12345 = 33 + 36 * (18 + 36 * 9): colors 33, 18, 9, then all zero.
    let mut m = Marble::new(12345u64).unwrap();
    assert_eq!(m.get_colors(), ["#FF00AA".to_string(), "#00FFFF".to_string(), "#80FF00".to_string()]);
    assert_eq!(m.get_order(), vec![0, 1, 2]);
    assert_eq!(m.get_rotation(), 0);
}

#[test]
fn largest_seed_design() {
    let mut m = marble(MAX_SEED);
    assert_eq!(m.get_colors(), ["#00FF80".to_string(), "#0000FF".to_string(), "#AA00FF".to_string()]);
    assert_eq!(m.get_order(), vec![1, 0, 2]);
    assert_eq!(m.get_rotation(), 252);
}

#[test]
fn large_seed_design() {
    let mut m = marble("987654321987654321987654321");
    assert_eq!(m.get_colors(), ["#80FF00".to_string(), "#0000FF".to_string(), "#8000FF".to_string()]);
    assert_eq!(m.get_order(), vec![0, 2, 1]);
    assert_eq!(m.get_rotation(), 216);
    let svg = m.build_svg();
    assert!(svg.contains("rotate(216 40 40)"));
    let first = svg.find("fill=\"#80FF00\"").unwrap();
    let second = svg.find("fill=\"#8000FF\"").unwrap();
    let third = svg.find("fill=\"#0000FF\"").unwrap();
    assert!(first < second && second < third);
}

#[test]
fn shuffle_picks_follow_shrinking_moduli() {
    // after the colors, 1 picks position 1 of three, then 1 of two.
    let seed = 36u64 * 36 * 36 * (1 + 3 * (1 + 2 * 5));
    let mut m = Marble::new(seed).unwrap();
    assert_eq!(m.get_order(), vec![1, 2, 0]);
    assert_eq!(m.get_rotation(), 5);
}

#[test]
fn same_seed_same_document() {
    let mut a = marble(MAX_SEED);
    let mut b = marble(MAX_SEED);
    assert_eq!(a.build_svg(), b.build_svg());
}

#[test]
fn build_svg_twice_is_identical() {
    let mut m = marble("987654321987654321987654321");
    let first = m.build_svg();
    let second = m.build_svg();
    assert_eq!(first, second);
}

#[test]
fn colors_are_drawn_once() {
    let mut m = marble("987654321987654321987654321");
    let colors = m.get_colors();
    let svg = m.build_svg();
    assert_eq!(m.get_colors(), colors);
    let mut fresh = marble("987654321987654321987654321");
    assert_eq!(fresh.build_svg(), svg);
    assert_eq!(fresh.get_colors(), colors);
}

#[test]
fn first_color_ignores_later_digits() {
    let mut a = Marble::new(7u64).unwrap();
    let mut b = Marble::new(7u64 + 36 * 1_000_003).unwrap();
    assert_eq!(a.get_colors()[0], b.get_colors()[0]);
    assert_ne!(a.get_colors()[1], b.get_colors()[1]);
}

#[test]
fn draws_stay_in_range() {
    let mut seed: u64 = 1;
    for _ in 0..200 {
        let mut m = Marble::new(seed).unwrap();
        assert!(m.get_rotation() < 359);
        let mut order = m.get_order();
        order.sort();
        assert_eq!(order, vec![0, 1, 2]);
        seed = seed.wrapping_mul(6364136223846793005).wrapping_add(1442695040888963407);
    }
}

#[test]
fn seed_with_letter_is_refused() {
    assert_eq!(Marble::new("12a").err(), Some(SeedFormatError));
}

#[test]
fn malformed_seeds_are_refused() {
    for s in ["", "-1", "+1", " 1", "1 ", "1_000", "0x10", "1.5"] {
        assert!(Marble::new(s).is_err(), "{s:?}");
    }
    assert!(Marble::new(String::from("12a")).is_err());
    assert!(Marble::new(-1i32).is_err());
}

#[test]
fn seed_above_256_bits_is_refused() {
    let too_big = "115792089237316195423570985008687907853269984665640564039457584007913129639936";
    assert!(Marble::new(too_big).is_err());
    assert!(Marble::new(MAX_SEED).is_ok());
}

#[test]
fn integer_seed_forms_agree() {
    let mut a = Marble::new(123456usize).unwrap();
    let mut b = Marble::new(123456i32).unwrap();
    let mut c = Marble::new(String::from("123456")).unwrap();
    let svg = a.build_svg();
    assert_eq!(b.build_svg(), svg);
    assert_eq!(c.build_svg(), svg);
}

#[test]
fn rendered_png_has_requested_size() {
    let png = marble("987654321987654321987654321").render_png(64).unwrap();
    assert!(png.len() > 24);
    assert_eq!(&png[1..4], b"PNG");
    assert_eq!(png_dimensions(&png), (64, 64));
}

#[test]
fn zero_size_render_fails() {
    assert_eq!(marble("1").render_png(0), Err(RenderError::PixmapAllocation));
}

#[test]
fn missing_seed_is_a_client_error() {
    assert_eq!(marble_png(None, IMAGE_SIZE), Err(RequestError::MissingSeed));
    assert_eq!(marble_png(Some(""), IMAGE_SIZE), Err(RequestError::MissingSeed));
    assert_eq!(RequestError::MissingSeed.message(), "Seed not provided.");
}

#[test]
fn invalid_seed_is_a_client_error() {
    assert_eq!(marble_png(Some("12a"), IMAGE_SIZE), Err(RequestError::InvalidSeed));
    assert_eq!(RequestError::InvalidSeed.message(), "Invalid seed.");
    assert_eq!(RequestError::RenderFailed.message(), "Failed to render marble.");
}

#[test]
fn request_renders_png() {
    let png = marble_png(Some("42"), 32).unwrap();
    assert_eq!(png_dimensions(&png), (32, 32));
    assert_eq!(marble_png(Some("42"), 0), Err(RequestError::RenderFailed));
}

#[test]
fn decimal_seed_with_leading_zeros() {
    assert_eq!(parse_decimal("007"), Ok(U256::from_u64(7)));
    assert_eq!(parse_decimal("18446744073709551615"), Ok(U256::from_u64(u64::MAX)));
    assert_eq!(parse_decimal("7 "), Err(SeedFormatError));
}

#[test]
fn draw_divides_the_seed() {
    let mut s = parse_decimal("18446744073709551616").unwrap();
    assert_eq!(s.div_rem_assign(10), 6);
    assert_eq!(s, U256::from_u64(1844674407370955161));
    assert_eq!(s.div_rem_assign(1), 0);
    assert_eq!(s, U256::from_u64(1844674407370955161));
}

#[test]
fn unparsable_document_is_reported() {
    assert_eq!(render_svg("<svg", 16), Err(RenderError::InvalidDocument));
    assert!(Document::parse("not svg at all").is_err());
}

#[test]
fn document_renders_at_requested_size() {
    let svg = marble("5").build_svg();
    assert!(Document::parse(&svg).is_ok());
    let png = render_svg(&svg, 16).unwrap();
    assert_eq!(png_dimensions(&png), (16, 16));
    assert_eq!(render_svg(&svg, 0), Err(RenderError::PixmapAllocation));
}

#[test]
fn same_seed_same_png() {
    let a = marble("987654321987654321987654321").render_png(48).unwrap();
    let b = marble("987654321987654321987654321").render_png(48).unwrap();
    assert_eq!(a, b);
    let c = Marble::new(123u32).unwrap().render_png(48).unwrap();
    let d = Marble::new(String::from("123")).unwrap().render_png(48).unwrap();
    assert_eq!(c, d);
}

#[test]
fn request_serves_the_marble_png() {
    let served = marble_png(Some("987654321"), 40).unwrap();
    let direct = marble("987654321").render_png(40).unwrap();
    assert_eq!(served, direct);
}

#[test]
fn image_files_are_not_loaded() {
    let svg = "<svg xmlns=\"http://www.w3.org/2000/svg\" xmlns:xlink=\"http://www.w3.org/1999/xlink\" viewBox=\"0 0 8 8\"><image width=\"8\" height=\"8\" xlink:href=\"Cargo.toml\"/></svg>";
    let png = render_svg(svg, 8).unwrap();
    assert_eq!(png_dimensions(&png), (8, 8));
}
