use lurk_lcsc::pcap::{PCap, PCapLine};

#[test]
fn line_formats_hex_and_ascii_columns() {
    let data = [0x48u8, 0x65, 0x6c, 0x6c, 0x6f, 0x2c, 0x20, 0x57, 0x6f, 0x72, 0x6c, 0x64, 0x21];
    let line = PCapLine::new(String::from("00000000"), &data);
    assert_eq!(line.address, "00000000");
    assert_eq!(line.hex, "48 65 6c 6c 6f 2c 20 57  6f 72 6c 64 21");
    assert_eq!(line.ascii, "Hello, World!");
}

#[test]
fn line_shows_unprintable_bytes_as_dots() {
    let data = [0x00u8, 0x1f, 0x41, 0x7e, 0x7f];
    let line = PCapLine::new(String::from("00000000"), &data);
    assert_eq!(line.hex, "00 1f 41 7e 7f ");
    assert_eq!(line.ascii, "..A~.");
}

#[test]
fn lines_chunk_sixteen_bytes_with_addresses() {
    let data: Vec<u8> = (0u8..18u8).collect();
    let lines = PCap::lines(&data);
    assert_eq!(lines.len(), 2);
    assert_eq!(lines[0].address, "00000000");
    assert_eq!(lines[1].address, "00000010");
    assert_eq!(lines[0].hex, "00 01 02 03 04 05 06 07  08 09 0a 0b 0c 0d 0e 0f");
    assert_eq!(lines[1].hex, "10 11 ");
    assert_eq!(lines[1].ascii, "..");
}

#[test]
fn lines_of_an_empty_buffer_are_empty() {
    let lines = PCap::lines(&[]);
    assert!(lines.is_empty());
}
