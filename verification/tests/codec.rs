use icopack::encoder::{create_ico, SizeInput};

fn rgba(width: u32, height: u32, alpha: u8) -> Vec<u8> {
    let mut data = Vec::new();
    for i in 0..(width * height) {
        data.push((i % 251) as u8);
        data.push((i % 241) as u8);
        data.push((i % 239) as u8);
        data.push(alpha);
    }
    data
}

fn image(width: u32, height: u32, alpha: u8) -> ico::IconImage {
    ico::IconImage::from_rgba_data(width, height, rgba(width, height, alpha))
}

fn png(image: &ico::IconImage) -> Vec<u8> {
    let mut bytes = Vec::new();
    image.write_png(&mut bytes).unwrap();
    bytes
}

fn written(dir: &ico::IconDir) -> Vec<u8> {
    let mut bytes = Vec::new();
    dir.write(&mut bytes).unwrap();
    bytes
}

fn parsed(bytes: &[u8]) -> ico::IconDir {
    ico::IconDir::read(std::io::Cursor::new(bytes)).unwrap()
}

/// A container of one entry with the given payload, recorded as 16 by 16 at 32 bits.
fn raw_container(payload: &[u8]) -> Vec<u8> {
    let mut bytes = vec![0, 0, 1, 0, 1, 0, 16, 16, 0, 0, 0, 0, 32, 0];
    bytes.extend_from_slice(&(payload.len() as u32).to_le_bytes());
    bytes.extend_from_slice(&22u32.to_le_bytes());
    bytes.extend_from_slice(payload);
    bytes
}

#[test]
fn decoded_png_has_its_dimensions_its_pixels_and_no_hotspot() {
    for (width, height, alpha) in [(1u32, 1u32, 0u8), (16, 16, 255), (3, 7, 128), (256, 256, 9)] {
        let decoded = ico::IconImage::read_png(png(&image(width, height, alpha)).as_slice());
        let decoded = decoded.unwrap();
        assert_eq!(decoded.width(), width);
        assert_eq!(decoded.height(), height);
        assert_eq!(decoded.rgba_data(), rgba(width, height, alpha).as_slice());
        assert_eq!(decoded.cursor_hotspot(), None);
    }
}

#[test]
fn png_entry_is_an_icon_of_the_dimensions_of_its_image() {
    for (width, height) in [(1u32, 1u32), (16, 16), (48, 32), (256, 256)] {
        let entry = ico::IconDirEntry::encode_as_png(&image(width, height, 77)).unwrap();
        assert_eq!(entry.resource_type(), ico::ResourceType::Icon);
        assert_eq!(entry.width(), width);
        assert_eq!(entry.height(), height);
        assert!(entry.is_png());
    }
}

#[test]
fn png_entry_is_at_32_bits_exactly_with_transparency() {
    for alpha in [0u8, 1, 127, 254] {
        let entry = ico::IconDirEntry::encode_as_png(&image(16, 16, alpha)).unwrap();
        assert_eq!(entry.bits_per_pixel(), 32);
    }
    let opaque = ico::IconDirEntry::encode_as_png(&image(16, 16, 255)).unwrap();
    assert_eq!(opaque.bits_per_pixel(), 24);
    for at in [0usize, 1, 255] {
        let mut data = rgba(16, 16, 255);
        data[4 * at + 3] = 0;
        let image = ico::IconImage::from_rgba_data(16, 16, data);
        assert_eq!(ico::IconDirEntry::encode_as_png(&image).unwrap().bits_per_pixel(), 32);
    }
    for at in [0usize, 1, 2] {
        let mut data = rgba(16, 16, 255);
        data[4 * 9 + at] = 0;
        let image = ico::IconImage::from_rgba_data(16, 16, data);
        assert_eq!(ico::IconDirEntry::encode_as_png(&image).unwrap().bits_per_pixel(), 24);
    }
}

#[test]
fn png_entry_has_no_colour_table_and_no_planes() {
    let mut dir = ico::IconDir::new(ico::ResourceType::Icon);
    dir.add_entry(ico::IconDirEntry::encode_as_png(&image(16, 16, 5)).unwrap());
    let bytes = written(&dir);
    assert_eq!(bytes[6 + 2], 0);
    assert_eq!(&bytes[6 + 4..6 + 6], &[0, 0]);
}

#[test]
fn cursor_entry_reports_no_depth() {
    let mut cursor = image(16, 16, 5);
    cursor.set_cursor_hotspot(Some((3, 4)));
    let entry = ico::IconDirEntry::encode_as_png(&cursor).unwrap();
    assert_eq!(entry.resource_type(), ico::ResourceType::Cursor);
    assert_eq!(entry.bits_per_pixel(), 0);
}

#[test]
fn payload_counts_as_png_by_its_first_four_bytes() {
    let with = |payload: &[u8]| parsed(&raw_container(payload)).entries()[0].is_png();
    assert!(with(&[0x89, 0x50, 0x4e, 0x47]));
    assert!(with(&[0x89, 0x50, 0x4e, 0x47, 1, 2, 3]));
    assert!(!with(&[0x89, 0x50, 0x4e]));
    assert!(!with(&[0x89, 0x50, 0x4e, 0x48]));
    assert!(!with(&[0x88, 0x50, 0x4e, 0x47]));
    assert!(!with(&[]));
}

#[test]
fn entry_hands_out_its_payload() {
    let payload = [0x89, 0x50, 0x4e, 0x47, 9, 8, 7];
    assert_eq!(parsed(&raw_container(&payload)).entries()[0].data(), &payload);
}

#[test]
fn new_directory_of_icons_is_empty() {
    let dir = ico::IconDir::new(ico::ResourceType::Icon);
    assert_eq!(dir.resource_type(), ico::ResourceType::Icon);
    assert!(dir.entries().is_empty());
}

#[test]
fn entries_are_appended_in_order() {
    let mut dir = ico::IconDir::new(ico::ResourceType::Icon);
    for size in [32u32, 16, 48] {
        dir.add_entry(ico::IconDirEntry::encode_as_png(&image(size, size, 5)).unwrap());
    }
    let widths: Vec<u32> = dir.entries().iter().map(|e| e.width()).collect();
    assert_eq!(widths, vec![32, 16, 48]);
}

#[test]
fn written_container_has_header_records_and_payloads() {
    let mut dir = ico::IconDir::new(ico::ResourceType::Icon);
    let mut payloads = 0;
    for size in [16u32, 20, 256] {
        let entry = ico::IconDirEntry::encode_as_png(&image(size, size, 5)).unwrap();
        payloads += entry.data().len();
        dir.add_entry(entry);
    }
    assert_eq!(written(&dir).len(), 6 + 16 * 3 + payloads);
}

#[test]
fn equal_directories_are_written_alike() {
    let make = || {
        let mut dir = ico::IconDir::new(ico::ResourceType::Icon);
        dir.add_entry(ico::IconDirEntry::encode_as_png(&image(16, 16, 5)).unwrap());
        dir.add_entry(ico::IconDirEntry::encode_as_png(&image(24, 24, 255)).unwrap());
        dir
    };
    assert_eq!(written(&make()), written(&make()));
}

#[test]
fn parsed_directory_has_the_entries_in_stored_order() {
    let mut dir = ico::IconDir::new(ico::ResourceType::Icon);
    for size in [32u32, 16, 48] {
        dir.add_entry(ico::IconDirEntry::encode_as_png(&image(size, size, 5)).unwrap());
    }
    let again = parsed(&written(&dir));
    assert_eq!(again.entries().len(), 3);
    for (a, b) in dir.entries().iter().zip(again.entries()) {
        assert_eq!(a.width(), b.width());
        assert_eq!(a.height(), b.height());
        assert_eq!(a.bits_per_pixel(), b.bits_per_pixel());
        assert_eq!(a.data(), b.data());
    }
}

#[test]
fn decoded_entry_has_the_dimensions_that_the_entry_records() {
    let entry = ico::IconDirEntry::encode_as_png(&image(48, 32, 5)).unwrap();
    let decoded = entry.decode().unwrap();
    assert_eq!((decoded.width(), decoded.height()), (entry.width(), entry.height()));
    assert_eq!(decoded.rgba_data(), rgba(48, 32, 5).as_slice());
}

#[test]
fn png_file_does_not_depend_on_the_hotspot() {
    let plain = image(16, 16, 5);
    let mut cursor = image(16, 16, 5);
    cursor.set_cursor_hotspot(Some((3, 4)));
    assert_eq!(png(&plain), png(&cursor));
}

#[test]
fn png_file_is_written_alike_each_time() {
    assert_eq!(png(&image(64, 64, 5)), png(&image(64, 64, 5)));
}

#[test]
fn container_holds_what_the_codec_writes_for_the_same_entries() {
    let mut inputs: [SizeInput; 14] = std::array::from_fn(|_| SizeInput::Missing);
    inputs[0] = SizeInput::Png(png(&image(16, 16, 5)));
    inputs[13] = SizeInput::Png(png(&image(256, 256, 255)));
    let file = create_ico(&inputs).unwrap();
    let mut dir = ico::IconDir::new(ico::ResourceType::Icon);
    dir.add_entry(ico::IconDirEntry::encode_as_png(&image(16, 16, 5)).unwrap());
    dir.add_entry(ico::IconDirEntry::encode_as_png(&image(256, 256, 255)).unwrap());
    assert_eq!(file.bytes, written(&dir));
}
