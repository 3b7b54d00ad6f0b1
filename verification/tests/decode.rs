use icopack::decoder::{extract_pngs, DecodeError, FileOutcome, Tally};
use icopack::encoder::{create_ico, SizeInput};
use icopack::sizes::ICON_SIZES;

fn rgba(width: u32, height: u32, alpha: u8) -> Vec<u8> {
    let mut data = Vec::new();
    for i in 0..(width * height) {
        data.push((i % 251) as u8);
        data.push((i % 241) as u8);
        data.push((i % 239) as u8);
        data.push(alpha);
    }
    data
}

fn image(width: u32, height: u32, alpha: u8) -> ico::IconImage {
    ico::IconImage::from_rgba_data(width, height, rgba(width, height, alpha))
}

fn png(width: u32, height: u32, alpha: u8) -> Vec<u8> {
    let mut bytes = Vec::new();
    image(width, height, alpha).write_png(&mut bytes).unwrap();
    bytes
}

fn container(entries: Vec<ico::IconDirEntry>) -> Vec<u8> {
    let mut dir = ico::IconDir::new(ico::ResourceType::Icon);
    for entry in entries {
        dir.add_entry(entry);
    }
    let mut bytes = Vec::new();
    dir.write(&mut bytes).unwrap();
    bytes
}

fn png_entry(width: u32, height: u32, alpha: u8) -> ico::IconDirEntry {
    ico::IconDirEntry::encode_as_png(&image(width, height, alpha)).unwrap()
}

fn pixels(png: &[u8]) -> (u32, u32, Vec<u8>) {
    let image = ico::IconImage::read_png(png).unwrap();
    (image.width(), image.height(), image.rgba_data().to_vec())
}

/// A container of one entry with the given record and payload.
fn raw_container(width: u8, height: u8, bits_per_pixel: u16, payload: &[u8]) -> Vec<u8> {
    let mut bytes = vec![0, 0, 1, 0, 1, 0];
    bytes.extend_from_slice(&[width, height, 0, 0, 0, 0]);
    bytes.extend_from_slice(&bits_per_pixel.to_le_bytes());
    bytes.extend_from_slice(&(payload.len() as u32).to_le_bytes());
    bytes.extend_from_slice(&22u32.to_le_bytes());
    bytes.extend_from_slice(payload);
    bytes
}

#[test]
fn round_trip_of_three_sizes() {
    let mut inputs: [SizeInput; 14] = std::array::from_fn(|_| SizeInput::Missing);
    for size in [16u32, 32, 256] {
        let index = ICON_SIZES.iter().position(|s| *s == size).unwrap();
        inputs[index] = SizeInput::Png(png(size, size, 100));
    }
    let file = create_ico(&inputs).unwrap();
    let files = extract_pngs(&file.bytes).unwrap();
    let names: Vec<&str> = files.iter().map(|f| f.name.as_str()).collect();
    assert_eq!(names, vec!["16.png", "32.png", "256.png"]);
    for (file, size) in files.iter().zip([16u32, 32, 256]) {
        assert_eq!(pixels(&file.png), (size, size, rgba(size, size, 100)));
    }
}

#[test]
fn non_square_entry_is_named_with_both_dimensions() {
    let files = extract_pngs(&container(vec![png_entry(48, 32, 50)])).unwrap();
    assert_eq!(files.len(), 1);
    assert_eq!(files[0].name, "48x32.png");
    assert_eq!(pixels(&files[0].png), (48, 32, rgba(48, 32, 50)));
}

#[test]
fn entry_at_8_bits_is_named_with_its_depth() {
    let files = extract_pngs(&raw_container(16, 16, 8, &png(16, 16, 50))).unwrap();
    assert_eq!(files.len(), 1);
    assert_eq!(files[0].name, "16@8.png");
}

#[test]
fn entry_at_32_bits_is_named_by_its_size() {
    let files = extract_pngs(&raw_container(16, 16, 32, &png(16, 16, 50))).unwrap();
    assert_eq!(files[0].name, "16.png");
}

#[test]
fn entry_is_named_after_the_size_of_its_image() {
    let files = extract_pngs(&raw_container(16, 16, 32, &png(24, 24, 50))).unwrap();
    assert_eq!(files[0].name, "24.png");
}

#[test]
fn entry_of_other_size_is_named_with_both_dimensions() {
    let files = extract_pngs(&container(vec![png_entry(17, 17, 50)])).unwrap();
    assert_eq!(files[0].name, "17x17.png");
}

#[test]
fn opaque_entry_is_named_with_its_depth() {
    let files = extract_pngs(&container(vec![png_entry(64, 64, 255)])).unwrap();
    assert_eq!(files[0].name, "64@24.png");
    assert_eq!(pixels(&files[0].png), (64, 64, rgba(64, 64, 255)));
}

#[test]
fn files_come_in_the_stored_order() {
    let bytes = container(vec![png_entry(32, 32, 1), png_entry(16, 16, 1), png_entry(20, 30, 1)]);
    let files = extract_pngs(&bytes).unwrap();
    let names: Vec<&str> = files.iter().map(|f| f.name.as_str()).collect();
    assert_eq!(names, vec!["32.png", "16.png", "20x30.png"]);
}

#[test]
fn entries_of_one_geometry_get_one_name() {
    let bytes = container(vec![png_entry(16, 16, 1), png_entry(16, 16, 2)]);
    let files = extract_pngs(&bytes).unwrap();
    assert_eq!(files.len(), 2);
    assert_eq!(files[0].name, files[1].name);
    assert_eq!(pixels(&files[1].png).2, rgba(16, 16, 2));
}

#[test]
fn empty_container_gives_no_files() {
    let files = extract_pngs(&[0, 0, 1, 0, 0, 0]).unwrap();
    assert!(files.is_empty());
}

#[test]
fn file_that_is_no_container_is_refused() {
    let failure = extract_pngs(b"certainly no icon").unwrap_err();
    assert_eq!(failure.error, DecodeError::Container);
    assert!(failure.cause.is_some());
    assert!(failure.extracted.is_empty());
}

#[test]
fn truncated_container_is_refused() {
    let mut bytes = container(vec![png_entry(16, 16, 1)]);
    bytes.truncate(30);
    let failure = extract_pngs(&bytes).unwrap_err();
    assert_eq!(failure.error, DecodeError::Container);
}

#[test]
fn empty_file_is_refused() {
    let failure = extract_pngs(&[]).unwrap_err();
    assert_eq!(failure.error, DecodeError::Container);
}

#[test]
fn bitmap_entry_ends_the_run() {
    let bitmap = ico::IconDirEntry::encode_as_bmp(&image(16, 16, 255)).unwrap();
    let bytes = container(vec![png_entry(32, 32, 1), bitmap, png_entry(48, 48, 1)]);
    let failure = extract_pngs(&bytes).unwrap_err();
    assert_eq!(failure.error, DecodeError::NotPng { index: 1 });
    assert!(failure.cause.is_none());
    assert_eq!(failure.extracted.len(), 1);
    assert_eq!(failure.extracted[0].name, "32.png");
}

#[test]
fn broken_png_entry_ends_the_run() {
    let mut payload = png(16, 16, 1);
    payload.truncate(40);
    let failure = extract_pngs(&raw_container(16, 16, 32, &payload)).unwrap_err();
    assert_eq!(failure.error, DecodeError::Undecodable { index: 0 });
    assert!(failure.cause.is_some());
    assert!(failure.extracted.is_empty());
}

#[test]
fn short_payload_is_no_png() {
    let failure = extract_pngs(&raw_container(16, 16, 32, &[0x89, 0x50, 0x4e])).unwrap_err();
    assert_eq!(failure.error, DecodeError::NotPng { index: 0 });
    assert!(failure.cause.is_none());
}

#[test]
fn payload_of_the_signature_alone_is_not_decoded() {
    let failure = extract_pngs(&raw_container(16, 16, 32, &[0x89, 0x50, 0x4e, 0x47])).unwrap_err();
    assert_eq!(failure.error, DecodeError::Undecodable { index: 0 });
    assert!(failure.cause.is_some());
}

#[test]
fn later_broken_entry_ends_the_run_after_the_files_of_the_earlier() {
    let mut bytes = container(vec![png_entry(16, 16, 1), png_entry(32, 32, 1), png_entry(48, 48, 1)]);
    let last = bytes.len() - 1;
    bytes.truncate(last - 40);
    bytes.extend_from_slice(&[0u8; 41]);
    let failure = extract_pngs(&bytes).unwrap_err();
    assert_eq!(failure.error, DecodeError::Undecodable { index: 2 });
    let names: Vec<&str> = failure.extracted.iter().map(|f| f.name.as_str()).collect();
    assert_eq!(names, vec!["16.png", "32.png"]);
}

#[test]
fn one_file_for_each_entry() {
    let entries: Vec<ico::IconDirEntry> =
        (1..=20u32).map(|n| png_entry(n, 2 * n, n as u8)).collect();
    let files = extract_pngs(&container(entries)).unwrap();
    assert_eq!(files.len(), 20);
    for (i, file) in files.iter().enumerate() {
        let n = (i + 1) as u32;
        assert_eq!(file.name, format!("{}x{}.png", n, 2 * n));
        assert_eq!(pixels(&file.png), (n, 2 * n, rgba(n, 2 * n, n as u8)));
    }
}

#[test]
fn cursor_entry_is_named_with_depth_0() {
    let mut cursor = image(32, 32, 7);
    cursor.set_cursor_hotspot(Some((3, 4)));
    let entry = ico::IconDirEntry::encode_as_png(&cursor).unwrap();
    let mut dir = ico::IconDir::new(ico::ResourceType::Cursor);
    dir.add_entry(entry);
    let mut bytes = Vec::new();
    dir.write(&mut bytes).unwrap();
    let files = extract_pngs(&bytes).unwrap();
    assert_eq!(files[0].name, "32@0.png");
    assert_eq!(pixels(&files[0].png), (32, 32, rgba(32, 32, 7)));
}

#[test]
fn opaque_image_comes_back_under_a_name_with_its_depth() {
    let mut inputs: [SizeInput; 14] = std::array::from_fn(|_| SizeInput::Missing);
    inputs[0] = SizeInput::Png(png(16, 16, 255));
    let file = create_ico(&inputs).unwrap();
    let files = extract_pngs(&file.bytes).unwrap();
    assert_eq!(files[0].name, "16@24.png");
}

#[test]
fn extracting_twice_gives_the_same_files() {
    let bytes = container(vec![png_entry(16, 16, 1), png_entry(20, 30, 200)]);
    let first = extract_pngs(&bytes).unwrap();
    let second = extract_pngs(&bytes).unwrap();
    assert_eq!(first.len(), second.len());
    for (a, b) in first.iter().zip(second.iter()) {
        assert_eq!(a.name, b.name);
        assert_eq!(a.png, b.png);
    }
}

#[test]
fn extracted_file_is_a_png_file() {
    let files = extract_pngs(&container(vec![png_entry(16, 16, 1)])).unwrap();
    assert_eq!(&files[0].png[0..8], &[0x89, 0x50, 0x4e, 0x47, 0x0d, 0x0a, 0x1a, 0x0a]);
}

#[test]
fn tally_starts_empty() {
    assert_eq!(Tally::new(), Tally { written: 0, ended: false });
}

#[test]
fn tally_counts_the_files_written() {
    let tally = Tally::new()
        .record(FileOutcome::Written)
        .record(FileOutcome::NotCreated)
        .record(FileOutcome::Written)
        .record(FileOutcome::NotCreated);
    assert_eq!(tally, Tally { written: 2, ended: false });
}

#[test]
fn tally_ends_at_a_file_that_is_not_written() {
    let tally = Tally::new().record(FileOutcome::Written).record(FileOutcome::NotWritten);
    assert_eq!(tally, Tally { written: 1, ended: true });
    let later = tally.record(FileOutcome::Written).record(FileOutcome::NotCreated);
    assert_eq!(later, Tally { written: 1, ended: true });
}
