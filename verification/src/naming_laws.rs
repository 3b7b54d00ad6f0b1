//! What holds of the file names.

use vstd::prelude::*;
use crate::decimal::{
    decimal, is_digit, lemma_decimal_digits, lemma_decimal_injective, lemma_digits_come_apart,
};
use crate::naming::{depth_part, entry_name, height_part, png_extension, size_name};
use crate::sizes::{is_icon_size, ICON_SIZES, SIZE_COUNT};

verus! {

/// Whether `name` is one of the names under which the encoder looks for an
/// image: that of a canonical size.
pub open spec fn is_lookup_name(name: Seq<char>) -> bool {
    exists|i: int| 0 <= i < SIZE_COUNT && name == #[trigger] size_name(ICON_SIZES[i])
}

/// What follows the width in the name of an extracted image.
spec fn after_width(width: u32, height: u32, bits_per_pixel: u16) -> Seq<char> {
    height_part(width, height) + (depth_part(bits_per_pixel) + png_extension())
}

/// The name of an extracted image is its width followed by the rest, and the
/// rest begins with no digit.
proof fn lemma_name_splits(width: u32, height: u32, bits_per_pixel: u16)
    ensures
        entry_name(width, height, bits_per_pixel) == decimal(width as nat) + after_width(
            width,
            height,
            bits_per_pixel,
        ),
        after_width(width, height, bits_per_pixel).len() > 0,
        !is_digit(after_width(width, height, bits_per_pixel)[0]),
        (depth_part(bits_per_pixel) + png_extension()).len() > 0,
        !is_digit((depth_part(bits_per_pixel) + png_extension())[0]),
{
}

/// Sizes that differ are looked for under names that differ.
pub proof fn lemma_size_names_differ(first: u32, second: u32)
    requires
        size_name(first) == size_name(second),
    ensures
        first == second,
{
    lemma_decimal_digits(first as nat);
    lemma_decimal_digits(second as nat);
    lemma_digits_come_apart(
        decimal(first as nat),
        png_extension(),
        decimal(second as nat),
        png_extension(),
    );
    lemma_decimal_injective(first as nat, second as nat);
}

/// The encoder looks for the image of a size exactly if the size is
/// canonical: a file named after any other size is none of those it reads.
pub proof fn lemma_only_canonical_sizes_are_looked_up(size: u32)
    ensures
        is_lookup_name(size_name(size)) <==> is_icon_size(size),
{
    if is_lookup_name(size_name(size)) {
        let i = choose|i: int| 0 <= i < SIZE_COUNT && size_name(size) == #[trigger] size_name(
            ICON_SIZES[i],
        );
        lemma_size_names_differ(size, ICON_SIZES[i]);
    }
}

/// Images that differ in width, height or colour depth are extracted under
/// names that differ: a name is given twice only to entries of one geometry
/// and depth.
pub proof fn lemma_entry_names_differ(
    first_width: u32,
    first_height: u32,
    first_depth: u16,
    second_width: u32,
    second_height: u32,
    second_depth: u16,
)
    requires
        entry_name(first_width, first_height, first_depth) == entry_name(
            second_width,
            second_height,
            second_depth,
        ),
    ensures
        first_width == second_width,
        first_height == second_height,
        first_depth == second_depth,
{
    let first_tail = depth_part(first_depth) + png_extension();
    let second_tail = depth_part(second_depth) + png_extension();
    lemma_name_splits(first_width, first_height, first_depth);
    lemma_name_splits(second_width, second_height, second_depth);
    lemma_decimal_digits(first_width as nat);
    lemma_decimal_digits(second_width as nat);
    lemma_decimal_digits(first_height as nat);
    lemma_decimal_digits(second_height as nat);
    lemma_decimal_digits(first_depth as nat);
    lemma_decimal_digits(second_depth as nat);
    // The widths come apart from what follows them.
    lemma_digits_come_apart(
        decimal(first_width as nat),
        after_width(first_width, first_height, first_depth),
        decimal(second_width as nat),
        after_width(second_width, second_height, second_depth),
    );
    lemma_decimal_injective(first_width as nat, second_width as nat);
    // What follows the width begins with `x` in both names or in neither,
    // and after it the heights come apart from what follows them.
    let first_part = height_part(first_width, first_height);
    let second_part = height_part(second_width, second_height);
    if first_part.len() > 0 {
        assert(second_part.len() > 0);
        assert(decimal(first_height as nat) + first_tail =~= (first_part + first_tail).subrange(
            1,
            (first_part + first_tail).len() as int,
        ));
        assert(decimal(second_height as nat) + second_tail =~= (second_part
            + second_tail).subrange(1, (second_part + second_tail).len() as int));
        lemma_digits_come_apart(
            decimal(first_height as nat),
            first_tail,
            decimal(second_height as nat),
            second_tail,
        );
        lemma_decimal_injective(first_height as nat, second_height as nat);
    }
    // What is left begins with `@` in both names or in neither, and after
    // it the depths come apart from the extension.
    if depth_part(first_depth).len() > 0 {
        assert(depth_part(second_depth).len() > 0);
        assert(decimal(first_depth as nat) + png_extension() =~= first_tail.subrange(
            1,
            first_tail.len() as int,
        ));
        assert(decimal(second_depth as nat) + png_extension() =~= second_tail.subrange(
            1,
            second_tail.len() as int,
        ));
        lemma_digits_come_apart(
            decimal(first_depth as nat),
            png_extension(),
            decimal(second_depth as nat),
            png_extension(),
        );
        lemma_decimal_injective(first_depth as nat, second_depth as nat);
    }
}

/// A square image of a canonical size at 32 bits per pixel is extracted
/// under the name under which the encoder looks for the image of that size.
pub proof fn lemma_canonical_entry_is_found_again(size: u32)
    requires
        is_icon_size(size),
    ensures
        entry_name(size, size, 32) == size_name(size),
        is_lookup_name(entry_name(size, size, 32)),
{
    lemma_only_canonical_sizes_are_looked_up(size);
}

/// An image is extracted under a name under which the encoder looks for one
/// exactly if it is square, of a canonical size and at 32 bits per pixel.
pub proof fn lemma_extracted_names_that_are_looked_up(
    width: u32,
    height: u32,
    bits_per_pixel: u16,
)
    ensures
        is_lookup_name(entry_name(width, height, bits_per_pixel)) <==> (width == height
            && is_icon_size(width) && bits_per_pixel == 32),
{
    let name = entry_name(width, height, bits_per_pixel);
    if is_lookup_name(name) {
        let i = choose|i: int| 0 <= i < SIZE_COUNT && name == #[trigger] size_name(ICON_SIZES[i]);
        let size = ICON_SIZES[i];
        lemma_canonical_entry_is_found_again(size);
        lemma_entry_names_differ(width, height, bits_per_pixel, size, size, 32);
    }
    if width == height && is_icon_size(width) && bits_per_pixel == 32 {
        lemma_canonical_entry_is_found_again(width);
    }
}

} // verus!
