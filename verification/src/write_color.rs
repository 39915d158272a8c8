//! Writing a colour down as one line of text.

use vstd::prelude::*;

verus! {

/// A value that goes into an image as one line of text.
pub trait WriteColor {
    /// The line of this value, line feed included.
    spec fn color_line(&self) -> Seq<u8>;

    /// Appends the line to `writer`.
    fn write_color(&self, writer: &mut Vec<u8>)
        ensures
            final(writer)@ == old(writer)@ + self.color_line(),
    ;
}

} // verus!
