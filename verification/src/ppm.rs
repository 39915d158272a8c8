//! Plain-text PPM ("P3") images: pixels, the image container and its encoder.

use crate::decimal::{decimal, decimal_shape, push_decimal};
use crate::write_color::WriteColor;
use vstd::prelude::*;

verus! {

/// A colour channel that can be written as an 8-bit level.
pub trait ToU8 {
    /// The level this channel stands for.
    spec fn level(&self) -> u8;

    fn to_u8(&self) -> (byte: u8)
        ensures
            byte == self.level(),
    ;
}

impl ToU8 for u8 {
    open spec fn level(&self) -> u8 {
        *self
    }

    fn to_u8(&self) -> (byte: u8) {
        *self
    }
}

/// One pixel: a red, a green and a blue channel.
pub struct Pixel<T> {
    red: T,
    green: T,
    blue: T,
}

impl<T> Pixel<T> {
    pub closed spec fn red(&self) -> T {
        self.red
    }

    pub closed spec fn green(&self) -> T {
        self.green
    }

    pub closed spec fn blue(&self) -> T {
        self.blue
    }

    pub fn new(red: T, green: T, blue: T) -> (pixel: Self)
        ensures
            pixel.red() == red,
            pixel.green() == green,
            pixel.blue() == blue,
    {
        Self { red, green, blue }
    }
}

/// The line of a pixel with the levels `r`, `g`, `b`: the three numbers in
/// decimal, one space between them, and a line feed.
pub open spec fn line(r: u8, g: u8, b: u8) -> Seq<u8> {
    decimal(r as nat) + seq![32u8] + decimal(g as nat) + seq![32u8] + decimal(b as nat)
        + seq![10u8]
}

impl<T: ToU8> WriteColor for Pixel<T> {
    open spec fn color_line(&self) -> Seq<u8> {
        line(self.red().level(), self.green().level(), self.blue().level())
    }

    fn write_color(&self, writer: &mut Vec<u8>) {
        let red_byte = self.red.to_u8();
        let green_byte = self.green.to_u8();
        let blue_byte = self.blue.to_u8();
        push_decimal(writer, red_byte as usize);
        writer.push(32u8);
        push_decimal(writer, green_byte as usize);
        writer.push(32u8);
        push_decimal(writer, blue_byte as usize);
        writer.push(10u8);
        assert(writer@ =~= old(writer)@ + self.color_line());
    }
}

/// The header of an image: the magic number, then width and height, then
/// the greatest level, each group closed by a line feed.
pub open spec fn header(width: nat, height: nat, max: nat) -> Seq<u8> {
    seq![80u8, 51u8, 10u8] + decimal(width) + seq![32u8] + decimal(height) + seq![10u8] + decimal(
        max,
    ) + seq![10u8]
}

/// The lines of the first `width` pixels of `row`, left to right.
pub open spec fn row_lines<T: ToU8>(row: Seq<Pixel<T>>, width: nat) -> Seq<u8>
    decreases width,
{
    if width == 0 {
        Seq::empty()
    } else {
        row_lines(row, (width - 1) as nat) + row[width - 1].color_line()
    }
}

/// The lines of the first `height` rows of `rows`, top row first, `width`
/// pixels of each.
pub open spec fn body<T: ToU8>(rows: Seq<Vec<Pixel<T>>>, height: nat, width: nat) -> Seq<u8>
    decreases height,
{
    if height == 0 {
        Seq::empty()
    } else {
        body(rows, (height - 1) as nat, width) + row_lines(rows[height - 1]@, width)
    }
}

/// A raster of pixels with its declared size and greatest level.
pub struct Image<T> {
    image_height: usize,
    image_width: usize,
    max: usize,
    data: Vec<Vec<Pixel<T>>>,
}

impl<T: ToU8> Image<T> {
    pub closed spec fn height(&self) -> nat {
        self.image_height as nat
    }

    pub closed spec fn width(&self) -> nat {
        self.image_width as nat
    }

    pub closed spec fn max(&self) -> nat {
        self.max as nat
    }

    pub closed spec fn rows(&self) -> Seq<Vec<Pixel<T>>> {
        self.data@
    }

    /// The raster holds a pixel for every position of the declared size.
    pub open spec fn complete(&self) -> bool {
        &&& self.height() <= self.rows().len()
        &&& forall|i: int| 0 <= i < self.height() ==> self.width() <= (#[trigger] self.rows()[i]).len()
    }

    /// The whole image as text: the header, then one line per pixel, rows
    /// from the top, each row from the left.
    pub open spec fn ppm(&self) -> Seq<u8> {
        header(self.width(), self.height(), self.max()) + body(
            self.rows(),
            self.height(),
            self.width(),
        )
    }

    pub fn new(image_height: usize, image_width: usize, max: usize, data: Vec<Vec<Pixel<T>>>) -> (image: Self)
        ensures
            image.height() == image_height,
            image.width() == image_width,
            image.max() == max,
            image.rows() == data@,
    {
        Self { image_height, image_width, max, data }
    }

    /// Tells whether the raster is complete, so that the image can be
    /// written.
    pub fn is_complete(&self) -> (yes: bool)
        ensures
            yes == self.complete(),
    {
        if self.data.len() < self.image_height {
            return false;
        }
        let mut i: usize = 0;
        while i < self.image_height
            invariant
                i <= self.image_height <= self.data.len(),
                forall|k: int| 0 <= k < i ==> self.width() <= (#[trigger] self.rows()[k]).len(),
            decreases self.image_height - i,
        {
            if self.data[i].len() < self.image_width {
                return false;
            }
            i = i + 1;
        }
        true
    }

    /// Appends the image as text to `writer`.
    pub fn write_ppm(&self, writer: &mut Vec<u8>)
        requires
            self.complete(),
        ensures
            final(writer)@ == old(writer)@ + self.ppm(),
    {
        writer.push(80u8);
        writer.push(51u8);
        writer.push(10u8);
        push_decimal(writer, self.image_width);
        writer.push(32u8);
        push_decimal(writer, self.image_height);
        writer.push(10u8);
        push_decimal(writer, self.max);
        writer.push(10u8);
        assert(writer@ =~= old(writer)@ + header(self.width(), self.height(), self.max()));
        let ghost headed = writer@;
        let mut i: usize = 0;
        while i < self.image_height
            invariant
                self.complete(),
                i <= self.image_height,
                writer@ == headed + body(self.rows(), i as nat, self.width()),
            decreases self.image_height - i,
        {
            let ghost before = writer@;
            let row = &self.data[i];
            let mut j: usize = 0;
            while j < self.image_width
                invariant
                    j <= self.image_width <= row.len(),
                    writer@ == before + row_lines(row@, j as nat),
                decreases self.image_width - j,
            {
                let ghost sofar = writer@;
                row[j].write_color(writer);
                j = j + 1;
                assert(writer@ =~= before + row_lines(row@, j as nat));
            }
            i = i + 1;
            assert(writer@ =~= headed + body(self.rows(), i as nat, self.width()));
        }
        assert(writer@ =~= old(writer)@ + self.ppm());
    }
}

/// How many line feeds `text` holds.
pub open spec fn line_feeds(text: Seq<u8>) -> nat
    decreases text.len(),
{
    if text.len() == 0 {
        0
    } else {
        line_feeds(text.drop_last()) + if text.last() == 10u8 {
            1nat
        } else {
            0nat
        }
    }
}

proof fn line_feeds_add_up(head: Seq<u8>, tail: Seq<u8>)
    ensures
        line_feeds(head + tail) == line_feeds(head) + line_feeds(tail),
    decreases tail.len(),
{
    if tail.len() == 0 {
        assert(head + tail =~= head);
    } else {
        assert((head + tail).drop_last() =~= head + tail.drop_last());
        line_feeds_add_up(head, tail.drop_last());
    }
}

proof fn line_feeds_of_one(byte: u8)
    ensures
        line_feeds(seq![byte]) == if byte == 10u8 {
            1nat
        } else {
            0nat
        },
{
    let one = seq![byte];
    assert(one.drop_last().len() == 0);
    assert(one.last() == byte);
    assert(line_feeds(one.drop_last()) == 0);
}

proof fn digits_hold_no_line_feed(text: Seq<u8>)
    requires
        forall|i: int| 0 <= i < text.len() ==> 48 <= #[trigger] text[i] <= 57,
    ensures
        line_feeds(text) == 0,
    decreases text.len(),
{
    if text.len() > 0 {
        digits_hold_no_line_feed(text.drop_last());
    }
}

proof fn line_has_one_line_feed(r: u8, g: u8, b: u8)
    ensures
        line_feeds(line(r, g, b)) == 1,
{
    let red = decimal(r as nat);
    let green = decimal(g as nat);
    let blue = decimal(b as nat);
    decimal_shape(r as nat);
    decimal_shape(g as nat);
    decimal_shape(b as nat);
    digits_hold_no_line_feed(red);
    digits_hold_no_line_feed(green);
    digits_hold_no_line_feed(blue);
    line_feeds_of_one(32u8);
    line_feeds_of_one(10u8);
    line_feeds_add_up(red, seq![32u8]);
    line_feeds_add_up(red + seq![32u8], green);
    line_feeds_add_up(red + seq![32u8] + green, seq![32u8]);
    line_feeds_add_up(red + seq![32u8] + green + seq![32u8], blue);
    line_feeds_add_up(red + seq![32u8] + green + seq![32u8] + blue, seq![10u8]);
}

proof fn header_has_three_line_feeds(width: nat, height: nat, max: nat)
    ensures
        line_feeds(header(width, height, max)) == 3,
{
    let magic = seq![80u8, 51u8, 10u8];
    let w = decimal(width);
    let h = decimal(height);
    let m = decimal(max);
    decimal_shape(width);
    decimal_shape(height);
    decimal_shape(max);
    digits_hold_no_line_feed(w);
    digits_hold_no_line_feed(h);
    digits_hold_no_line_feed(m);
    line_feeds_of_one(80u8);
    line_feeds_of_one(51u8);
    line_feeds_of_one(32u8);
    line_feeds_of_one(10u8);
    assert(magic =~= seq![80u8] + seq![51u8] + seq![10u8]);
    line_feeds_add_up(seq![80u8], seq![51u8]);
    line_feeds_add_up(seq![80u8] + seq![51u8], seq![10u8]);
    line_feeds_add_up(magic, w);
    line_feeds_add_up(magic + w, seq![32u8]);
    line_feeds_add_up(magic + w + seq![32u8], h);
    line_feeds_add_up(magic + w + seq![32u8] + h, seq![10u8]);
    line_feeds_add_up(magic + w + seq![32u8] + h + seq![10u8], m);
    line_feeds_add_up(magic + w + seq![32u8] + h + seq![10u8] + m, seq![10u8]);
}

proof fn row_has_a_line_per_pixel<T: ToU8>(row: Seq<Pixel<T>>, width: nat)
    ensures
        line_feeds(row_lines(row, width)) == width,
    decreases width,
{
    if width > 0 {
        let pixel = row[width - 1];
        row_has_a_line_per_pixel(row, (width - 1) as nat);
        line_has_one_line_feed(pixel.red().level(), pixel.green().level(), pixel.blue().level());
        line_feeds_add_up(row_lines(row, (width - 1) as nat), pixel.color_line());
    }
}

proof fn body_has_a_line_per_pixel<T: ToU8>(rows: Seq<Vec<Pixel<T>>>, height: nat, width: nat)
    ensures
        line_feeds(body(rows, height, width)) == height * width,
    decreases height,
{
    if height > 0 {
        body_has_a_line_per_pixel(rows, (height - 1) as nat, width);
        row_has_a_line_per_pixel(rows[height - 1]@, width);
        line_feeds_add_up(body(rows, (height - 1) as nat, width), row_lines(rows[height - 1]@, width));
        assert((height - 1) * width + width == height * width) by (nonlinear_arith);
    } else {
        assert(height * width == 0) by (nonlinear_arith)
            requires
                height == 0,
        ;
    }
}

/// An image as text has three lines of header and then exactly one line
/// for each pixel of its declared size.
pub proof fn one_line_per_pixel<T: ToU8>(image: Image<T>)
    ensures
        line_feeds(image.ppm()) == 3 + image.height() * image.width(),
{
    header_has_three_line_feeds(image.width(), image.height(), image.max());
    body_has_a_line_per_pixel(image.rows(), image.height(), image.width());
    line_feeds_add_up(
        header(image.width(), image.height(), image.max()),
        body(image.rows(), image.height(), image.width()),
    );
}

} // verus!
