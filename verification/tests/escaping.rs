use porkg::EscapedBuffer;
use porkg::PrintableBuffer;

#[test]
fn printable_rendering_is_quoted_and_escaped() {
    let data = b"a\0b\r\n\t\\\"\x7f";
    let shown = PrintableBuffer(data).debug_bytes();
    assert_eq!(shown, b"b\"a\\0b\\r\\n\\t\\\\\"\\x7f\"".to_vec());
}

#[test]
fn display_rendering_keeps_quotes() {
    let data = b"say \"hi\"";
    let shown = PrintableBuffer(data).display_bytes();
    assert_eq!(shown, b"say \"hi\"".to_vec());
}

#[test]
fn display_escapes_unprintable_bytes() {
    let data = [0x00u8, 0x1f, 0x41, 0xff];
    let shown = PrintableBuffer(&data).display_bytes();
    assert_eq!(shown, b"\\0\\x1fA\\xff".to_vec());
}

#[test]
fn hex_rendering_shows_every_byte() {
    let data = [0x00u8, 0x41, 0xde];
    let shown = EscapedBuffer(&data).debug_bytes();
    assert_eq!(shown, b"b\"\\x00\\x41\\xde\"".to_vec());
}

#[test]
fn empty_buffers_render_as_empty_quotes() {
    assert_eq!(PrintableBuffer(&[]).debug_bytes(), b"b\"\"".to_vec());
    assert_eq!(EscapedBuffer(&[]).debug_bytes(), b"b\"\"".to_vec());
    assert_eq!(PrintableBuffer(&[]).display_bytes(), Vec::<u8>::new());
}
