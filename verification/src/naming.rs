//! File names of the PNG images of a folder.
//!
//! The encoder looks for the image of a canonical size under the size in
//! decimal notation, followed by `.png`. The decoder names an extracted
//! image after its width; it adds `x` and the height unless the image is
//! square and of a canonical size, and `@` and the colour depth unless that
//! is 32 bits per pixel.

use vstd::prelude::*;
use vstd::string::*;
use crate::codec::{entry_record, reported_depth};
use crate::decimal::{decimal, push_decimal};
use crate::sizes::{is_canonical_size, is_icon_size, ICON_SIZES, SIZE_COUNT};

verus! {

/// The extension of a PNG file: `.png`.
pub open spec fn png_extension() -> Seq<char> {
    seq!['.', 'p', 'n', 'g']
}

/// The name under which the image of `size` is looked for.
pub open spec fn size_name(size: u32) -> Seq<char> {
    decimal(size as nat) + png_extension()
}

/// What the name of an extracted image says of its height: nothing, where
/// the image is square and of a canonical size.
pub open spec fn height_part(width: u32, height: u32) -> Seq<char> {
    if width != height || !is_icon_size(width) {
        seq!['x'] + decimal(height as nat)
    } else {
        Seq::empty()
    }
}

/// What the name of an extracted image says of its colour depth: nothing,
/// where that is 32 bits per pixel.
pub open spec fn depth_part(bits_per_pixel: u16) -> Seq<char> {
    if bits_per_pixel != 32 {
        seq!['@'] + decimal(bits_per_pixel as nat)
    } else {
        Seq::empty()
    }
}

/// The name under which an image of the given geometry and colour depth is
/// extracted.
pub open spec fn entry_name(width: u32, height: u32, bits_per_pixel: u16) -> Seq<char> {
    decimal(width as nat) + height_part(width, height) + depth_part(bits_per_pixel)
        + png_extension()
}

/// The name of the file in which the image of `size` is looked for.
pub fn size_file_name(size: u32) -> (name: String)
    ensures
        name@ == size_name(size),
{
    let mut name = String::new();
    push_decimal(&mut name, size);
    proof {
        reveal_strlit(".png");
    }
    name.append(".png");
    name
}

/// The names of the files in which the images of a folder are looked for:
/// one for each canonical size, in ascending order of size.
pub fn lookup_names() -> (names: Vec<String>)
    ensures
        names.len() == SIZE_COUNT,
        forall|i: int| 0 <= i < SIZE_COUNT ==> (#[trigger] names[i])@ == size_name(ICON_SIZES[i]),
{
    let mut names: Vec<String> = Vec::new();
    let mut i: usize = 0;
    while i < SIZE_COUNT
        invariant
            i <= SIZE_COUNT,
            names.len() == i,
            forall|j: int| 0 <= j < i ==> (#[trigger] names[j])@ == size_name(ICON_SIZES[j]),
        decreases SIZE_COUNT - i,
    {
        names.push(size_file_name(ICON_SIZES[i]));
        i += 1;
    }
    names
}

/// The name of the file into which an image of the given geometry and colour
/// depth is extracted.
pub fn entry_file_name(width: u32, height: u32, bits_per_pixel: u16) -> (name: String)
    ensures
        name@ == entry_name(width, height, bits_per_pixel),
{
    proof {
        reveal_strlit("x");
        reveal_strlit("@");
        reveal_strlit(".png");
    }
    let mut name = String::new();
    push_decimal(&mut name, width);
    if width != height || !is_canonical_size(width) {
        name.append("x");
        push_decimal(&mut name, height);
    }
    if bits_per_pixel != 32 {
        name.append("@");
        push_decimal(&mut name, bits_per_pixel as u32);
    }
    name.append(".png");
    name
}

/// The name of the file into which the image of `entry` is extracted: the
/// one that `entry_file_name` gives for the width, the height and the colour
/// depth that the entry records.
pub fn construct_entry_name(entry: &ico::IconDirEntry) -> (name: String)
    ensures
        name@ == entry_name(
            entry_record(*entry).width,
            entry_record(*entry).height,
            reported_depth(entry_record(*entry)),
        ),
{
    entry_file_name(entry.width(), entry.height(), entry.bits_per_pixel())
}

} // verus!
