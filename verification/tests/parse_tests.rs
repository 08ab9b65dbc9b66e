use winsize::parse::{parse_size, ParseError};
use winsize::resolution::get_resolution_by_name;
use winsize::size::Size;

fn size(x: usize, y: usize) -> Size {
    Size { x, y }
}

#[test]
fn every_name_of_the_table_has_its_resolution() {
    assert_eq!(get_resolution_by_name("vga"), Some(size(640, 480)));
    assert_eq!(get_resolution_by_name("svga"), Some(size(800, 600)));
    assert_eq!(get_resolution_by_name("xga"), Some(size(1024, 768)));
    assert_eq!(get_resolution_by_name("sxga"), Some(size(1280, 1024)));
    assert_eq!(get_resolution_by_name("uxga"), Some(size(1600, 1200)));
    assert_eq!(get_resolution_by_name("hd"), Some(size(1280, 720)));
    assert_eq!(get_resolution_by_name("fhd"), Some(size(1920, 1080)));
    assert_eq!(get_resolution_by_name("wqhd"), Some(size(2560, 1440)));
    assert_eq!(get_resolution_by_name("4k"), Some(size(3840, 2160)));
    assert_eq!(get_resolution_by_name("uhd"), Some(size(3840, 2160)));
    assert_eq!(get_resolution_by_name("8k"), Some(size(7680, 4320)));
    assert_eq!(get_resolution_by_name("wxga"), Some(size(1280, 800)));
    assert_eq!(get_resolution_by_name("wsxga+"), Some(size(1680, 1050)));
    assert_eq!(get_resolution_by_name("wsxga"), Some(size(1680, 1050)));
    assert_eq!(get_resolution_by_name("wuxga"), Some(size(1920, 1200)));
    assert_eq!(get_resolution_by_name("wqxga"), Some(size(2560, 1600)));
    assert_eq!(get_resolution_by_name("wquxga"), Some(size(3840, 2400)));
    assert_eq!(get_resolution_by_name("uwfhd"), Some(size(2560, 1080)));
    assert_eq!(get_resolution_by_name("ultrawide"), Some(size(2560, 1080)));
    assert_eq!(get_resolution_by_name("uwqhd"), Some(size(3440, 1440)));
    assert_eq!(get_resolution_by_name("ultrawide1440"), Some(size(3440, 1440)));
    assert_eq!(get_resolution_by_name("uw4k"), Some(size(5120, 2160)));
    assert_eq!(get_resolution_by_name("ultrawide4k"), Some(size(5120, 2160)));
    assert_eq!(get_resolution_by_name("dci4k"), Some(size(4096, 2160)));
}

#[test]
fn names_are_taken_without_regard_to_case() {
    assert_eq!(get_resolution_by_name("FHD"), Some(size(1920, 1080)));
    assert_eq!(get_resolution_by_name("Fhd"), Some(size(1920, 1080)));
    assert_eq!(get_resolution_by_name("UltraWide1440"), Some(size(3440, 1440)));
    assert_eq!(get_resolution_by_name("WSXGA+"), Some(size(1680, 1050)));
    assert_eq!(get_resolution_by_name("4K"), Some(size(3840, 2160)));
}

#[test]
fn unknown_names_have_no_resolution() {
    assert_eq!(get_resolution_by_name(""), None);
    assert_eq!(get_resolution_by_name("qhd"), None);
    assert_eq!(get_resolution_by_name("vga "), None);
    assert_eq!(get_resolution_by_name(" vga"), None);
    assert_eq!(get_resolution_by_name("vgaa"), None);
    assert_eq!(get_resolution_by_name("vg"), None);
    assert_eq!(get_resolution_by_name("1080p"), None);
    assert_eq!(get_resolution_by_name("800x600"), None);
}

#[test]
fn parse_reads_names() {
    assert_eq!(parse_size("FHD"), Ok(size(1920, 1080)));
    assert_eq!(parse_size("vga"), Ok(size(640, 480)));
    assert_eq!(parse_size("hd"), Ok(size(1280, 720)));
    assert_eq!(parse_size("4k"), Ok(size(3840, 2160)));
    assert_eq!(parse_size("UHD"), Ok(size(3840, 2160)));
    assert_eq!(parse_size("8K"), Ok(size(7680, 4320)));
    assert_eq!(parse_size("wqhd"), Ok(size(2560, 1440)));
    assert_eq!(parse_size("UWFHD"), Ok(size(2560, 1080)));
    assert_eq!(parse_size("wuxga"), Ok(size(1920, 1200)));
    assert_eq!(parse_size("DCI4K"), Ok(size(4096, 2160)));
}

#[test]
fn parse_reads_height_shorthand() {
    assert_eq!(parse_size("1080p"), Ok(size(1920, 1080)));
    assert_eq!(parse_size("720p"), Ok(size(1280, 720)));
    assert_eq!(parse_size("720P"), Ok(size(1280, 720)));
    assert_eq!(parse_size("1440p"), Ok(size(2560, 1440)));
    assert_eq!(parse_size("2160p"), Ok(size(3840, 2160)));
}

#[test]
fn shorthand_width_is_rounded_up() {
    assert_eq!(parse_size("0p"), Ok(size(0, 0)));
    assert_eq!(parse_size("1p"), Ok(size(2, 1)));
    assert_eq!(parse_size("2p"), Ok(size(4, 2)));
    assert_eq!(parse_size("4p"), Ok(size(8, 4)));
    assert_eq!(parse_size("5p"), Ok(size(9, 5)));
    assert_eq!(parse_size("480p"), Ok(size(854, 480)));
    assert_eq!(parse_size("360p"), Ok(size(640, 360)));
    assert_eq!(parse_size("1000p"), Ok(size(1778, 1000)));
}

#[test]
fn shorthand_width_follows_the_formula() {
    let heights: [usize; 8] = [0, 1, 3, 9, 100, 719, 1081, 65535];
    for h in heights {
        assert_eq!(parse_size(&format!("{}p", h)), Ok(size((h * 16 + 8) / 9, h)));
    }
}

#[test]
fn shorthand_height_may_carry_sign_and_zeros() {
    assert_eq!(parse_size("+720p"), Ok(size(1280, 720)));
    assert_eq!(parse_size("0720p"), Ok(size(1280, 720)));
}

#[test]
fn shorthand_with_a_height_that_is_no_number_is_refused() {
    assert_eq!(parse_size("p"), Err(ParseError::InvalidSizeFormat));
    assert_eq!(parse_size("P"), Err(ParseError::InvalidSizeFormat));
    assert_eq!(parse_size("tallp"), Err(ParseError::InvalidSizeFormat));
    assert_eq!(parse_size("-720p"), Err(ParseError::InvalidSizeFormat));
    assert_eq!(parse_size("720pp"), Err(ParseError::InvalidSizeFormat));
    assert_eq!(parse_size("7 20p"), Err(ParseError::InvalidSizeFormat));
}

#[test]
fn shorthand_width_is_exact_where_sixteen_heights_exceed_a_machine_word() {
    let h: usize = usize::MAX / 2 + 1;
    let wide: u128 = (h as u128 * 16 + 8) / 9;
    assert!(wide <= usize::MAX as u128);
    assert_eq!(parse_size(&format!("{}p", h)), Ok(size(wide as usize, h)));
}

#[test]
fn shorthand_whose_width_exceeds_a_machine_word_is_refused() {
    assert_eq!(
        parse_size(&format!("{}p", usize::MAX)),
        Err(ParseError::InvalidSizeFormat)
    );
}

#[test]
fn parse_reads_explicit_pairs() {
    assert_eq!(parse_size("800x600"), Ok(size(800, 600)));
    assert_eq!(parse_size("0x0"), Ok(size(0, 0)));
    assert_eq!(parse_size("1x2"), Ok(size(1, 2)));
    assert_eq!(parse_size("1920x1080"), Ok(size(1920, 1080)));
}

#[test]
fn pair_components_may_carry_sign_and_zeros() {
    assert_eq!(parse_size("007x08"), Ok(size(7, 8)));
    assert_eq!(parse_size("+1x+2"), Ok(size(1, 2)));
}

#[test]
fn pair_components_may_be_as_large_as_a_machine_word() {
    let text = format!("{}x{}", usize::MAX, usize::MAX);
    assert_eq!(parse_size(&text), Ok(size(usize::MAX, usize::MAX)));
}

#[test]
fn more_than_one_separator_is_refused() {
    assert_eq!(parse_size("1x2x3"), Err(ParseError::InvalidSizeFormat));
    assert_eq!(parse_size("1xx2"), Err(ParseError::InvalidSizeFormat));
    assert_eq!(parse_size("x1x2"), Err(ParseError::InvalidSizeFormat));
    assert_eq!(parse_size("1x2x"), Err(ParseError::InvalidSizeFormat));
}

#[test]
fn text_that_fits_no_form_is_refused() {
    assert_eq!(parse_size("abc"), Err(ParseError::InvalidSizeFormat));
    assert_eq!(parse_size(""), Err(ParseError::InvalidSizeFormat));
    assert_eq!(parse_size("800"), Err(ParseError::InvalidSizeFormat));
    assert_eq!(parse_size("x"), Err(ParseError::InvalidSizeFormat));
    assert_eq!(parse_size("800x"), Err(ParseError::InvalidSizeFormat));
    assert_eq!(parse_size("x600"), Err(ParseError::InvalidSizeFormat));
    assert_eq!(parse_size("800X600"), Err(ParseError::InvalidSizeFormat));
    assert_eq!(parse_size("800*600"), Err(ParseError::InvalidSizeFormat));
    assert_eq!(parse_size("1.5x2"), Err(ParseError::InvalidSizeFormat));
    assert_eq!(parse_size("axb"), Err(ParseError::InvalidSizeFormat));
}

#[test]
fn whitespace_is_not_trimmed() {
    assert_eq!(parse_size(" 800x600"), Err(ParseError::InvalidSizeFormat));
    assert_eq!(parse_size("800x600 "), Err(ParseError::InvalidSizeFormat));
    assert_eq!(parse_size("800 x 600"), Err(ParseError::InvalidSizeFormat));
    assert_eq!(parse_size(" fhd"), Err(ParseError::InvalidSizeFormat));
    assert_eq!(parse_size("1080p\n"), Err(ParseError::InvalidSizeFormat));
}

#[test]
fn negative_numbers_are_refused() {
    assert_eq!(parse_size("-1x5"), Err(ParseError::InvalidSizeFormat));
    assert_eq!(parse_size("1x-5"), Err(ParseError::InvalidSizeFormat));
    assert_eq!(parse_size("-800x-600"), Err(ParseError::InvalidSizeFormat));
}

#[test]
fn pair_component_beyond_a_machine_word_is_refused() {
    assert_eq!(
        parse_size("99999999999999999999999x1"),
        Err(ParseError::InvalidSizeFormat)
    );
    assert_eq!(
        parse_size("1x99999999999999999999999"),
        Err(ParseError::InvalidSizeFormat)
    );
}

#[test]
fn writing_then_parsing_gives_the_size_back() {
    let sizes: [Size; 5] =
        [size(0, 0), size(1, 2), size(1920, 1080), size(10, 100), size(usize::MAX, 0)];
    for s in sizes {
        assert_eq!(parse_size(&s.to_string()), Ok(s));
    }
}

#[test]
fn parsing_then_writing_normalizes_the_numbers() {
    assert_eq!(parse_size("800x600").unwrap().to_string(), "800x600");
    assert_eq!(parse_size("007x08").unwrap().to_string(), "7x8");
    assert_eq!(parse_size("+1x+02").unwrap().to_string(), "1x2");
    assert_eq!(parse_size("000x0").unwrap().to_string(), "0x0");
}

#[test]
fn parse_error_has_a_message() {
    assert_eq!(ParseError::InvalidSizeFormat.message(), "Unexpected Input");
}
