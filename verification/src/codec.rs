//! The `ico` crate as this library sees it.
//!
//! Images, directory entries and directories are values of the `ico` crate,
//! and nothing inside them is visible here. What such a value holds has a
//! name (`image_view`, `entry_record`, `dir_view`), and so has what each
//! function of the codec computes from what it is given.
//! The contracts below tie the names to the functions of `ico`. None of them
//! is proved: they state what the source of `ico` 0.3 does.

use vstd::prelude::*;

verus! {

/// `ico::IconImage`, a decoded image.
#[verifier::external_type_specification]
#[verifier::external_body]
pub struct ExIconImage(ico::IconImage);

/// `ico::IconDirEntry`, one entry of a directory with its payload.
#[verifier::external_type_specification]
#[verifier::external_body]
pub struct ExIconDirEntry(ico::IconDirEntry);

/// `ico::IconDir`, the directory that a container file holds.
#[verifier::external_type_specification]
#[verifier::external_body]
pub struct ExIconDir(ico::IconDir);

/// `std::io::Error`, in which the codec reports what went wrong. It is
/// handed on to the caller and never looked into.
#[verifier::external_type_specification]
#[verifier::external_body]
pub struct ExIoError(std::io::Error);

// ---------------------------------------------------------------------------
// What the values hold.
// ---------------------------------------------------------------------------

/// What an image holds.
pub struct ImageView {
    /// The width in pixels.
    pub width: u32,
    /// The height in pixels.
    pub height: u32,
    /// The hotspot, where the image is that of a cursor.
    pub hotspot: Option<(u16, u16)>,
    /// The pixels, row by row from the top, four bytes each: red, green,
    /// blue, alpha.
    pub pixels: Seq<u8>,
}

/// What a directory entry holds: the fields of its record in the container,
/// and its payload.
pub struct EntryRecord {
    /// Whether the entry is a cursor rather than an icon.
    pub cursor: bool,
    /// The width in pixels.
    pub width: u32,
    /// The height in pixels.
    pub height: u32,
    /// The size of the colour table.
    pub num_colors: u8,
    /// The number of colour planes; of a cursor, the hotspot's column.
    pub color_planes: u16,
    /// The colour depth in bits per pixel; of a cursor, the hotspot's row.
    pub bits_per_pixel: u16,
    /// The payload: the encoded image.
    pub data: Seq<u8>,
}

/// What a directory holds.
pub struct DirView {
    /// Whether the directory is one of cursors rather than of icons.
    pub cursor: bool,
    /// What the entries hold, in their stored order.
    pub entries: Seq<EntryRecord>,
}

/// What `image` holds.
pub uninterp spec fn image_view(image: ico::IconImage) -> ImageView;

/// What `entry` holds.
pub uninterp spec fn entry_record(entry: ico::IconDirEntry) -> EntryRecord;

/// What `dir` holds.
pub uninterp spec fn dir_view(dir: ico::IconDir) -> DirView;

/// What each of `entries` holds.
pub open spec fn records(entries: Seq<ico::IconDirEntry>) -> Seq<EntryRecord> {
    entries.map_values(|entry: ico::IconDirEntry| entry_record(entry))
}

/// The colour depth that an entry reports: none for a cursor, whose record
/// has the hotspot in that place.
pub open spec fn reported_depth(record: EntryRecord) -> u16 {
    if record.cursor {
        0
    } else {
        record.bits_per_pixel
    }
}

// ---------------------------------------------------------------------------
// What the codec computes.
// ---------------------------------------------------------------------------

/// The image that `IconImage::read_png` decodes from the content of a PNG
/// file, `None` where it reports an error.
pub uninterp spec fn png_decoded(bytes: Seq<u8>) -> Option<ImageView>;

/// The payload that `IconDirEntry::encode_as_png` gives to the entry of an
/// image, `None` where it reports an error.
pub uninterp spec fn png_payload(width: u32, height: u32, pixels: Seq<u8>) -> Option<Seq<u8>>;

/// The container file that `IconDir::write` produces for a directory,
/// `None` where it reports an error.
pub uninterp spec fn container_bytes(dir: DirView) -> Option<Seq<u8>>;

/// The directory that `IconDir::read` parses from the content of a
/// container file, `None` where it reports an error.
pub uninterp spec fn parsed_container(bytes: Seq<u8>) -> Option<DirView>;

/// The image that `IconDirEntry::decode` decodes from an entry, `None` where
/// it reports an error.
pub uninterp spec fn entry_image(record: EntryRecord) -> Option<ImageView>;

/// The PNG file that `IconImage::write_png` produces for an image, `None`
/// where it reports an error.
pub uninterp spec fn png_file(width: u32, height: u32, pixels: Seq<u8>) -> Option<Seq<u8>>;

/// Whether some pixel of an image is not opaque: whether some alpha byte, the
/// fourth of each pixel, is not 255.
pub open spec fn has_transparency(pixels: Seq<u8>) -> bool {
    exists|i: int| 0 <= i < pixels.len() && i % 4 == 3 && #[trigger] pixels[i] != 255
}

/// The colour depth at which the codec stores an image as PNG: 32 bits per
/// pixel where it has transparency, 24 where it has none.
pub open spec fn png_depth(pixels: Seq<u8>) -> u16 {
    if has_transparency(pixels) {
        32
    } else {
        24
    }
}

/// The entry that the codec makes of an image without hotspot, `None` where
/// it reports an error: an icon that records the image's own width and
/// height, has no colour table and no colour planes, is of the colour depth
/// that `png_depth` gives, and carries the payload that `png_payload` names.
pub open spec fn png_record(image: ImageView) -> Option<EntryRecord> {
    match png_payload(image.width, image.height, image.pixels) {
        Some(data) => Some(
            EntryRecord {
                cursor: false,
                width: image.width,
                height: image.height,
                num_colors: 0,
                color_planes: 0,
                bits_per_pixel: png_depth(image.pixels),
                data,
            },
        ),
        None => None,
    }
}

// ---------------------------------------------------------------------------
// Sizes.
// ---------------------------------------------------------------------------

/// Whether `data` begins with the four bytes by which the codec tells a PNG
/// payload from a bitmap.
pub open spec fn has_png_signature(data: Seq<u8>) -> bool {
    &&& data.len() >= 4
    &&& data[0] == 0x89
    &&& data[1] == 0x50
    &&& data[2] == 0x4e
    &&& data[3] == 0x47
}

/// The number of payload bytes that `entries` carry together.
pub open spec fn payload_size(entries: Seq<EntryRecord>) -> nat
    decreases entries.len(),
{
    if entries.len() == 0 {
        0
    } else {
        payload_size(entries.drop_last()) + entries.last().data.len()
    }
}

/// The size in bytes of the container file that holds `entries`: a header of
/// 6 bytes, a record of 16 bytes for each entry, and the payloads.
pub open spec fn container_size(entries: Seq<EntryRecord>) -> nat {
    6 + 16 * entries.len() + payload_size(entries)
}

/// The largest container that the format can address: offsets into the file
/// are 32 bits wide.
pub const MAX_CONTAINER_SIZE: u64 = 0xffff_ffff;

// ---------------------------------------------------------------------------
// Images.
// ---------------------------------------------------------------------------

/// `ico::IconImage::read_png`, reading from a slice. The image is the one
/// that `png_decoded` names; one decoded from a PNG file has no hotspot.
/// `read_png` builds the image from a width and a height that it has found
/// to be positive and from four bytes for each pixel, which is what the
/// image's constructor asks for.
#[verifier::external_body]
pub(crate) fn read_png(bytes: &[u8]) -> (r: Result<ico::IconImage, std::io::Error>)
    ensures
        r matches Ok(image) ==> png_decoded(bytes@) == Some(image_view(image)) && image_view(
            image,
        ).hotspot is None,
        r is Err ==> png_decoded(bytes@) is None,
{
    ico::IconImage::read_png(bytes)
}

/// `ico::IconImage::write_png`, writing into a vector. The file is the one
/// that `png_file` names.
#[verifier::external_body]
pub(crate) fn write_png(image: &ico::IconImage) -> (r: Result<Vec<u8>, std::io::Error>)
    ensures
        r matches Ok(png) ==> png_file(
            image_view(*image).width,
            image_view(*image).height,
            image_view(*image).pixels,
        ) == Some(png@),
        r is Err ==> png_file(
            image_view(*image).width,
            image_view(*image).height,
            image_view(*image).pixels,
        ) is None,
{
    let mut png = Vec::new();
    image.write_png(&mut png)?;
    Ok(png)
}

/// `ico::IconImage::width` returns the width that the image holds.
pub assume_specification[ ico::IconImage::width ](image: &ico::IconImage) -> (width: u32)
    ensures
        width == image_view(*image).width,
;

/// `ico::IconImage::height` returns the height that the image holds.
pub assume_specification[ ico::IconImage::height ](image: &ico::IconImage) -> (height: u32)
    ensures
        height == image_view(*image).height,
;

// ---------------------------------------------------------------------------
// Entries.
// ---------------------------------------------------------------------------

/// `ico::IconDirEntry::encode_as_png` makes an entry of an image. The entry
/// is an icon that records the image's own width and height, has
/// no colour table and no colour planes, is stored at 32 bits per pixel
/// where the image has transparency and at 24 where it has none, and carries
/// the payload that `png_payload` names. The contract speaks of images
/// without hotspot only: of one with a hotspot the codec makes a cursor.
pub assume_specification[ ico::IconDirEntry::encode_as_png ](image: &ico::IconImage) -> (r:
    Result<ico::IconDirEntry, std::io::Error>)
    requires
        image_view(*image).hotspot is None,
    ensures
        r matches Ok(entry) ==> ({
            &&& png_payload(
                image_view(*image).width,
                image_view(*image).height,
                image_view(*image).pixels,
            ) == Some(entry_record(entry).data)
            &&& !entry_record(entry).cursor
            &&& entry_record(entry).width == image_view(*image).width
            &&& entry_record(entry).height == image_view(*image).height
            &&& entry_record(entry).num_colors == 0
            &&& entry_record(entry).color_planes == 0
            &&& entry_record(entry).bits_per_pixel == png_depth(image_view(*image).pixels)
        }),
        r is Err ==> png_payload(
            image_view(*image).width,
            image_view(*image).height,
            image_view(*image).pixels,
        ) is None,
;

/// `ico::IconDirEntry::decode` decodes the payload of an entry and checks
/// the image against the width and the height that the entry records. The
/// image is the one that `entry_image` names. The contract speaks of
/// PNG payloads only: a payload without the signature is taken for a bitmap,
/// and the codec's bitmap reader is not called from this library.
pub assume_specification[ ico::IconDirEntry::decode ](entry: &ico::IconDirEntry) -> (r: Result<
    ico::IconImage,
    std::io::Error,
>)
    requires
        has_png_signature(entry_record(*entry).data),
    ensures
        r matches Ok(image) ==> entry_image(entry_record(*entry)) == Some(image_view(image)),
        r is Err ==> entry_image(entry_record(*entry)) is None,
;

/// `ico::IconDirEntry::width` returns the width that the entry records.
pub assume_specification[ ico::IconDirEntry::width ](entry: &ico::IconDirEntry) -> (width: u32)
    ensures
        width == entry_record(*entry).width,
;

/// `ico::IconDirEntry::height` returns the height that the entry records.
pub assume_specification[ ico::IconDirEntry::height ](entry: &ico::IconDirEntry) -> (height: u32)
    ensures
        height == entry_record(*entry).height,
;

/// `ico::IconDirEntry::bits_per_pixel` returns the colour depth that the
/// entry records; of a cursor it returns 0.
pub assume_specification[ ico::IconDirEntry::bits_per_pixel ](entry: &ico::IconDirEntry) -> (depth:
    u16)
    ensures
        depth == reported_depth(entry_record(*entry)),
;

/// `ico::IconDirEntry::data` returns the payload that the entry carries.
pub assume_specification<'a>[ ico::IconDirEntry::data ](entry: &'a ico::IconDirEntry) -> (data:
    &'a [u8])
    ensures
        data@ == entry_record(*entry).data,
;

/// `ico::IconDirEntry::is_png` tells whether the payload begins with the
/// PNG signature.
pub assume_specification[ ico::IconDirEntry::is_png ](entry: &ico::IconDirEntry) -> (png: bool)
    ensures
        png == has_png_signature(entry_record(*entry).data),
;

// ---------------------------------------------------------------------------
// Directories.
// ---------------------------------------------------------------------------

/// `ico::IconDir::new` for a directory of icons: it is empty.
#[verifier::external_body]
pub(crate) fn new_icon_dir() -> (dir: ico::IconDir)
    ensures
        dir_view(dir) == (DirView { cursor: false, entries: Seq::empty() }),
{
    ico::IconDir::new(ico::ResourceType::Icon)
}

/// `ico::IconDir::add_entry` appends the entry. It panics where entry and
/// directory are not of one kind, so the caller has to know that they are.
pub assume_specification[ ico::IconDir::add_entry ](
    dir: &mut ico::IconDir,
    entry: ico::IconDirEntry,
)
    requires
        entry_record(entry).cursor == dir_view(*old(dir)).cursor,
    ensures
        dir_view(*final(dir)) == (DirView {
            entries: dir_view(*old(dir)).entries.push(entry_record(entry)),
            ..dir_view(*old(dir))
        }),
;

/// `ico::IconDir::entries` returns the entries in their stored order.
pub assume_specification<'a>[ ico::IconDir::entries ](dir: &'a ico::IconDir) -> (entries:
    &'a [ico::IconDirEntry])
    ensures
        records(entries@) == dir_view(*dir).entries,
;

/// `ico::IconDir::write`, writing into a vector. The file is the one that
/// `container_bytes` names. `write` adds the payload sizes up in 32 bits
/// without a check, so the caller has to know that the file stays within
/// what 32 bits address.
#[verifier::external_body]
pub(crate) fn write_container(dir: &ico::IconDir) -> (r: Result<Vec<u8>, std::io::Error>)
    requires
        container_size(dir_view(*dir).entries) <= MAX_CONTAINER_SIZE,
    ensures
        r matches Ok(file) ==> container_bytes(dir_view(*dir)) == Some(file@),
        r is Err ==> container_bytes(dir_view(*dir)) is None,
{
    let mut file = Vec::new();
    dir.write(&mut file)?;
    Ok(file)
}

/// `ico::IconDir::read`, reading from a slice. The directory is the one
/// that `parsed_container` names.
#[verifier::external_body]
pub(crate) fn read_container(bytes: &[u8]) -> (r: Result<ico::IconDir, std::io::Error>)
    ensures
        r matches Ok(dir) ==> parsed_container(bytes@) == Some(dir_view(dir)),
        r is Err ==> parsed_container(bytes@) is None,
{
    ico::IconDir::read(std::io::Cursor::new(bytes))
}

} // verus!
