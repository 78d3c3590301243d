use raytracer::pixel::pack_color;
use raytracer::ppm::{write_color, write_color_row, write_decimal, write_header};

fn decimal(n: u32) -> Vec<u8> {
    let mut out = Vec::new();
    write_decimal(&mut out, n);
    out
}

#[test]
fn decimal_of_small_and_large_numbers() {
    assert_eq!(decimal(0), b"0".to_vec());
    assert_eq!(decimal(7), b"7".to_vec());
    assert_eq!(decimal(9), b"9".to_vec());
    assert_eq!(decimal(10), b"10".to_vec());
    assert_eq!(decimal(99), b"99".to_vec());
    assert_eq!(decimal(100), b"100".to_vec());
    assert_eq!(decimal(255), b"255".to_vec());
    assert_eq!(decimal(1200), b"1200".to_vec());
    assert_eq!(decimal(4_294_967_295), b"4294967295".to_vec());
}

#[test]
fn decimal_agrees_with_the_standard_formatting() {
    for n in (0u32..2000).chain([65_535, 65_536, 1_000_000, 999_999_999, 4_000_000_000]) {
        assert_eq!(decimal(n), format!("{}", n).into_bytes());
    }
}

#[test]
fn decimal_appends_and_keeps_what_was_there() {
    let mut out = b"x=".to_vec();
    write_decimal(&mut out, 42);
    assert_eq!(out, b"x=42".to_vec());
}

#[test]
fn header_of_the_default_image() {
    let mut out = Vec::new();
    write_header(&mut out, 1200, 675);
    assert_eq!(out, b"P3\n1200 675\n255\n".to_vec());
}

#[test]
fn header_of_an_empty_image() {
    let mut out = Vec::new();
    write_header(&mut out, 0, 0);
    assert_eq!(out, b"P3\n0 0\n255\n".to_vec());
}

#[test]
fn pixel_line_lists_red_green_blue() {
    let mut out = Vec::new();
    write_color(&mut out, pack_color(255, 0, 17));
    assert_eq!(out, b"255 0 17\n".to_vec());
}

#[test]
fn pixel_line_of_black_and_white() {
    let mut out = Vec::new();
    write_color(&mut out, pack_color(0, 0, 0));
    write_color(&mut out, pack_color(255, 255, 255));
    assert_eq!(out, b"0 0 0\n255 255 255\n".to_vec());
}

#[test]
fn pixel_line_ignores_the_alpha_byte() {
    let mut out = Vec::new();
    write_color(&mut out, 0x0001_0203);
    assert_eq!(out, b"1 2 3\n".to_vec());
}

#[test]
fn row_is_written_left_to_right() {
    let row = vec![pack_color(1, 2, 3), pack_color(40, 50, 60), pack_color(255, 254, 253)];
    let mut out = Vec::new();
    write_color_row(&mut out, &row);
    assert_eq!(out, b"1 2 3\n40 50 60\n255 254 253\n".to_vec());
}

#[test]
fn empty_row_writes_nothing() {
    let mut out = b"P3\n".to_vec();
    write_color_row(&mut out, &[]);
    assert_eq!(out, b"P3\n".to_vec());
}

#[test]
fn whole_file_is_header_then_rows_from_the_top() {
    let top = vec![pack_color(9, 9, 9), pack_color(8, 8, 8)];
    let bottom = vec![pack_color(1, 1, 1), pack_color(0, 0, 0)];
    let mut out = Vec::new();
    write_header(&mut out, 2, 2);
    write_color_row(&mut out, &top);
    write_color_row(&mut out, &bottom);
    assert_eq!(out, b"P3\n2 2\n255\n9 9 9\n8 8 8\n1 1 1\n0 0 0\n".to_vec());
}
