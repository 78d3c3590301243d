//! The plain-text image file: a header `P3\n<width> <height>\n255\n`, then one
//! line `R G B\n` per pixel, rows from top to bottom and columns from left to
//! right.
use vstd::prelude::*;
use crate::pixel::{red, green, blue, red_of, green_of, blue_of};

verus! {

/// The byte of a space.
pub const SPACE: u8 = 32;

/// The byte of a line feed.
pub const NEWLINE: u8 = 10;

/// The ASCII digit for `d`, which is below ten.
pub open spec fn digit(d: nat) -> u8 {
    (48 + d) as u8
}

/// The decimal numeral of `n`: no sign, no leading zero, `0` for zero.
pub open spec fn decimal(n: nat) -> Seq<u8>
    decreases n,
{
    if n < 10 {
        seq![digit(n)]
    } else {
        decimal(n / 10).push(digit(n % 10))
    }
}

/// The number that a string of ASCII digits denotes.
pub open spec fn decimal_value(text: Seq<u8>) -> nat
    decreases text.len(),
{
    if text.len() == 0 {
        0
    } else {
        (decimal_value(text.drop_last()) * 10 + (text.last() - 48)) as nat
    }
}

/// Whether every byte of `text` is an ASCII digit.
pub open spec fn all_digits(text: Seq<u8>) -> bool {
    forall|i: int| 0 <= i < text.len() ==> 48 <= #[trigger] text[i] <= 57
}

/// The line of one pixel: its red, green and blue levels in decimal, one
/// space between them, and a line feed.
pub open spec fn pixel_line(color: u32) -> Seq<u8> {
    decimal(red_of(color) as nat).push(SPACE) + decimal(green_of(color) as nat).push(SPACE)
        + decimal(blue_of(color) as nat).push(NEWLINE)
}

/// The lines of a row of pixels, left to right.
pub open spec fn row_text(row: Seq<u32>) -> Seq<u8>
    decreases row.len(),
{
    if row.len() == 0 {
        Seq::empty()
    } else {
        row_text(row.drop_last()) + pixel_line(row.last())
    }
}

/// The file header for an image of the given size with 255 as the top level.
pub open spec fn header_text(width: u32, height: u32) -> Seq<u8> {
    seq![80u8, 51u8, NEWLINE] + decimal(width as nat).push(SPACE) + decimal(height as nat).push(
        NEWLINE,
    ) + seq![50u8, 53u8, 53u8, NEWLINE]
}

/// The whole file for the given rows, the first row at the top.
pub open spec fn image_text(width: u32, height: u32, rows: Seq<Seq<u32>>) -> Seq<u8> {
    header_text(width, height) + rows_text(rows)
}

/// The lines of several rows, one row after the other.
pub open spec fn rows_text(rows: Seq<Seq<u32>>) -> Seq<u8>
    decreases rows.len(),
{
    if rows.len() == 0 {
        Seq::empty()
    } else {
        rows_text(rows.drop_last()) + row_text(rows.last())
    }
}

/// Appends the decimal numeral of `n` to `out`.
pub fn write_decimal(out: &mut Vec<u8>, n: u32)
    ensures
        final(out)@ == old(out)@ + decimal(n as nat),
    decreases n,
{
    if n >= 10 {
        write_decimal(out, n / 10);
    }
    let low: u8 = (n % 10) as u8;
    out.push(48 + low);
    assert(final(out)@ =~= old(out)@ + decimal(n as nat));
}

/// Appends the file header for an image of `width` by `height` pixels.
pub fn write_header(out: &mut Vec<u8>, width: u32, height: u32)
    ensures
        final(out)@ == old(out)@ + header_text(width, height),
{
    out.push(80);
    out.push(51);
    out.push(NEWLINE);
    write_decimal(out, width);
    out.push(SPACE);
    write_decimal(out, height);
    out.push(NEWLINE);
    out.push(50);
    out.push(53);
    out.push(53);
    out.push(NEWLINE);
    assert(final(out)@ =~= old(out)@ + header_text(width, height));
}

/// Appends the line of one pixel.
pub fn write_color(out: &mut Vec<u8>, color: u32)
    ensures
        final(out)@ == old(out)@ + pixel_line(color),
{
    write_decimal(out, red(color) as u32);
    out.push(SPACE);
    write_decimal(out, green(color) as u32);
    out.push(SPACE);
    write_decimal(out, blue(color) as u32);
    out.push(NEWLINE);
    assert(final(out)@ =~= old(out)@ + pixel_line(color));
}

/// Appends the lines of a row of pixels, left to right.
pub fn write_color_row(out: &mut Vec<u8>, colors: &[u32])
    ensures
        final(out)@ == old(out)@ + row_text(colors@),
{
    let mut i: usize = 0;
    assert(colors@.take(0) =~= Seq::<u32>::empty());
    assert(out@ =~= old(out)@ + row_text(colors@.take(0)));
    while i < colors.len()
        invariant
            i <= colors.len(),
            out@ == old(out)@ + row_text(colors@.take(i as int)),
        decreases colors.len() - i,
    {
        write_color(out, colors[i]);
        proof {
            let next = colors@.take(i + 1);
            assert(next.drop_last() =~= colors@.take(i as int));
            assert(next.last() == colors@[i as int]);
            assert(out@ =~= old(out)@ + row_text(next));
        }
        i += 1;
    }
    assert(colors@.take(colors.len() as int) =~= colors@);
}

/// Writing a file row by row gives the whole file: the text of an image with
/// one more row is the text of the image so far followed by the lines of that
/// row, and the text of an image without rows is its header.
pub proof fn lemma_image_grows_by_rows(width: u32, height: u32, rows: Seq<Seq<u32>>, row: Seq<u32>)
    ensures
        image_text(width, height, Seq::empty()) == header_text(width, height),
        image_text(width, height, rows.push(row)) == image_text(width, height, rows) + row_text(
            row,
        ),
{
    assert(rows.push(row).drop_last() =~= rows);
    assert(image_text(width, height, Seq::empty()) =~= header_text(width, height));
    assert(image_text(width, height, rows.push(row)) =~= image_text(width, height, rows)
        + row_text(row));
}

/// The lines of a row are the lines of its pixels, left to right: a row made
/// of two parts has the lines of the first part, then those of the second.
pub proof fn lemma_row_text_concat(left: Seq<u32>, right: Seq<u32>)
    ensures
        row_text(left + right) == row_text(left) + row_text(right),
    decreases right.len(),
{
    if right.len() == 0 {
        assert(left + right =~= left);
        assert(row_text(left + right) =~= row_text(left) + row_text(right));
    } else {
        lemma_row_text_concat(left, right.drop_last());
        assert((left + right).drop_last() =~= left + right.drop_last());
        assert((left + right).last() == right.last());
        assert(row_text(left + right) =~= row_text(left) + row_text(right));
    }
}

/// A numeral is made of digits only, has no leading zero unless it is `0`,
/// and denotes the number it was written for.
pub proof fn lemma_decimal_reads_back(n: nat)
    ensures
        decimal(n).len() >= 1,
        all_digits(decimal(n)),
        decimal(n)[0] == 48 <==> n == 0,
        decimal_value(decimal(n)) == n,
    decreases n,
{
    if n < 10 {
        assert(decimal(n).drop_last() =~= Seq::<u8>::empty());
        assert(decimal_value(decimal(n).drop_last()) == 0);
    } else {
        lemma_decimal_reads_back(n / 10);
        assert(decimal(n).drop_last() =~= decimal(n / 10));
        assert(decimal(n)[0] == decimal(n / 10)[0]);
    }
}

/// Two numbers with the same numeral are the same number.
pub proof fn lemma_decimal_injective(m: nat, n: nat)
    requires
        decimal(m) == decimal(n),
    ensures
        m == n,
{
    lemma_decimal_reads_back(m);
    lemma_decimal_reads_back(n);
}

/// A channel level takes one to three digits, so a pixel line has between
/// six and twelve bytes.
pub proof fn lemma_pixel_line_len(color: u32)
    ensures
        6 <= pixel_line(color).len() <= 12,
{
    lemma_level_len(red_of(color));
    lemma_level_len(green_of(color));
    lemma_level_len(blue_of(color));
}

/// The numeral of a channel level has one to three digits.
pub proof fn lemma_level_len(level: u8)
    ensures
        1 <= decimal(level as nat).len() <= 3,
{
    reveal_with_fuel(decimal, 4);
}

} // verus!
