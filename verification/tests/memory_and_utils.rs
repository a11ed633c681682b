use dasm6510::memory::BinaryBuffer;
use dasm6510::utils::{extract_ascii_references, AsciiReference};

#[test]
fn buffer_reads() {
    let buf = BinaryBuffer::new(vec![0x12, 0x34, 0x80, 0xFF], 0xA000);
    assert_eq!(buf.get_size(), 4);
    assert_eq!(buf.get_loaded_address(), 0xA000);
    assert_eq!(buf.read_byte(0), 0x12);
    assert_eq!(buf.read_byte(3), 0xFF);
    assert_eq!(buf.read_signed_byte(1), 0x34);
    assert_eq!(buf.read_signed_byte(2), -128);
    assert_eq!(buf.read_signed_byte(3), -1);
    assert_eq!(buf.read_word_le(0), 0x3412, "low byte first");
    assert_eq!(buf.read_word_le(2), 0xFF80);
}

#[test]
fn ascii_reference_construction() {
    let r = AsciiReference::new();
    assert_eq!(r.offset, 0);
    assert_eq!(r.ascii, "");
    let r = AsciiReference::from(42, String::from("READY."));
    assert_eq!(r.offset, 42);
    assert_eq!(r.ascii, "READY.");
}

#[test]
fn ascii_runs_longer_than_threshold_are_recorded() {
    let mut bytes = b"HELLO".to_vec();
    bytes.push(0);
    bytes.extend_from_slice(b"OK");
    bytes.push(0);
    bytes.extend_from_slice(b"WORLD");
    bytes.push(0xFF);
    let refs = extract_ascii_references(&bytes, 2);
    assert_eq!(refs.len(), 2, "the two-character run is not longer than the threshold");
    assert_eq!(refs[0].ascii, "HELLO");
    assert_eq!(refs[0].offset, 5, "the offset of the byte that ended the run");
    assert_eq!(refs[1].ascii, "WORLD");
    assert_eq!(refs[1].offset, 14);
}

#[test]
fn ascii_run_open_at_end_of_buffer_is_dropped() {
    let refs = extract_ascii_references(&b"TRAILING".to_vec(), 2);
    assert_eq!(refs.len(), 0);
}

#[test]
fn ascii_boundary_bytes() {
    // 31 is below the printable range, 32 and 126 are inside, 127 is outside
    let bytes = vec![32, 65, 126, 127, 31];
    let refs = extract_ascii_references(&bytes, 2);
    assert_eq!(refs.len(), 1);
    assert_eq!(refs[0].ascii, " A~");
    assert_eq!(refs[0].offset, 3);
}
