use trap_core::drivers::virt_uart::write_bytes;
use trap_core::halt;
use trap_core::halt::{Location, HALT, HALT_SIGNAL};
use trap_core::mmio::Store;

#[test]
fn halt_register_and_signal() {
    assert_eq!(HALT, 0x10_0000);
    assert_eq!(HALT_SIGNAL, 0x5555);
}

#[test]
fn record_names_place_and_message() {
    let place = Location { file: "src/main.rs", line: 29, column: 5 };
    let stores = halt::panic(Some(place), b"explicit panic");
    let mut expected = write_bytes(b"[PANIC] [src/main.rs 29:5]: explicit panic\n");
    expected.push(Store::Word { addr: 0x10_0000, value: 0x5555 });
    assert_eq!(stores, expected);
}

#[test]
fn record_agrees_with_the_standard_formatter() {
    let cases: [(&str, u32, u32, &str); 4] = [
        ("src/interrupts/trap.rs", 45, 17, "Illegal instruction CPU#0 -> 0x80000000: 0x00000000\n"),
        ("a.rs", 0, 0, ""),
        ("dir with space/ü.rs", u32::MAX, 4_000_000_000, "µ"),
        ("", 1, 1, "two\nlines"),
    ];
    for (file, line, column, message) in cases {
        let place = Location { file, line, column };
        let stores = halt::panic(Some(place), message.as_bytes());
        let text = format!("[PANIC] [{} {}:{}]: {}\n", file, line, column, message);
        let mut expected = write_bytes(text.as_bytes());
        expected.push(Store::Word { addr: HALT, value: HALT_SIGNAL });
        assert_eq!(stores, expected);
    }
}

#[test]
fn without_a_place_only_the_signal_is_given() {
    let stores = halt::panic(None, b"lost");
    assert_eq!(stores, vec![Store::Word { addr: 0x10_0000, value: 0x5555 }]);
}

#[test]
fn signal_is_given_once_and_last() {
    let place = Location { file: "src/main.rs", line: 1, column: 2 };
    let stores = halt::panic(Some(place), b"UUUU \x55\x55 0x5555");
    let to_halt: Vec<&Store> = stores.iter().filter(|store| store.addr() == 0x10_0000).collect();
    assert_eq!(to_halt, vec![&Store::Word { addr: 0x10_0000, value: 0x5555 }]);
    assert_eq!(stores.last(), Some(&Store::Word { addr: 0x10_0000, value: 0x5555 }));
    for store in &stores[..stores.len() - 1] {
        assert!(matches!(store, Store::Byte { addr: 0x1000_0000, .. }));
    }
}
