use trap_core::console::{echo, CARRIAGE_RETURN, END_OF_TEXT};
use trap_core::drivers::virt_uart::write_bytes;
use trap_core::mmio::Store;

#[test]
fn end_of_text_ends_the_loop() {
    assert_eq!(END_OF_TEXT, 3);
    assert_eq!(echo(3), None);
}

#[test]
fn carriage_return_is_echoed_as_line_feed() {
    assert_eq!(CARRIAGE_RETURN, 13);
    assert_eq!(echo(13), Some(vec![Store::Byte { addr: 0x1000_0000, value: b'\n' }]));
}

#[test]
fn ascii_is_echoed_as_it_came() {
    assert_eq!(echo(b'a'), Some(vec![Store::Byte { addr: 0x1000_0000, value: b'a' }]));
    assert_eq!(echo(0), Some(vec![Store::Byte { addr: 0x1000_0000, value: 0 }]));
    assert_eq!(echo(10), Some(vec![Store::Byte { addr: 0x1000_0000, value: 10 }]));
    assert_eq!(echo(0x7f), Some(vec![Store::Byte { addr: 0x1000_0000, value: 0x7f }]));
}

#[test]
fn high_bytes_are_echoed_as_two_byte_characters() {
    assert_eq!(
        echo(0x80),
        Some(vec![
            Store::Byte { addr: 0x1000_0000, value: 0xc2 },
            Store::Byte { addr: 0x1000_0000, value: 0x80 },
        ])
    );
    assert_eq!(
        echo(0xe9),
        Some(vec![
            Store::Byte { addr: 0x1000_0000, value: 0xc3 },
            Store::Byte { addr: 0x1000_0000, value: 0xa9 },
        ])
    );
    assert_eq!(
        echo(0xff),
        Some(vec![
            Store::Byte { addr: 0x1000_0000, value: 0xc3 },
            Store::Byte { addr: 0x1000_0000, value: 0xbf },
        ])
    );
}

#[test]
fn echo_agrees_with_the_standard_formatter() {
    for byte in 0..=255u8 {
        let expected = match byte {
            3 => None,
            13 => Some(write_bytes(b"\n")),
            _ => Some(write_bytes(format!("{}", byte as char).as_bytes())),
        };
        assert_eq!(echo(byte), expected);
    }
}
