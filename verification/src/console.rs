//! The service loop's rule for a received byte.

use crate::drivers::virt_uart::{transmit, write_bytes};
use crate::mmio::Store;
use vstd::prelude::*;
use vstd::utf8::encode_utf8;

verus! {

/// The byte that ends the service loop (end of text, sent by Ctrl-C).
pub const END_OF_TEXT: u8 = 3;

/// The byte that is echoed as a line feed (carriage return).
pub const CARRIAGE_RETURN: u8 = 13;

/// What is sent back for a received byte: a line feed for a carriage
/// return, and for any other byte the character with that code, in UTF-8.
pub open spec fn echoed(byte: u8) -> Seq<u8> {
    if byte == CARRIAGE_RETURN {
        seq![10u8]
    } else {
        encode_utf8(seq![byte as char])
    }
}

/// Decides what to do with a received byte: `None` when it ends the
/// service loop, and otherwise the stores that echo it.
pub fn echo(byte: u8) -> (stores: Option<Vec<Store>>)
    ensures
        byte == END_OF_TEXT <==> stores is None,
        stores matches Some(s) ==> s@ == transmit(echoed(byte)),
{
    if byte == END_OF_TEXT {
        return None;
    }
    let mut text: Vec<u8> = Vec::new();
    if byte == CARRIAGE_RETURN {
        text.push(10u8);
    } else if byte < 0x80 {
        text.push(byte);
    } else {
        text.push(0xC0u8 | (byte >> 6));
        text.push(0x80u8 | (byte & 0x3F));
    }
    proof {
        if byte != CARRIAGE_RETURN {
            lemma_encode_latin1(byte);
        }
    }
    Some(write_bytes(text.as_slice()))
}

/// The UTF-8 encoding of the character whose code is `byte`: the byte
/// itself below 128, and two bytes from there on.
pub proof fn lemma_encode_latin1(byte: u8)
    ensures
        encode_utf8(seq![byte as char]) == (if byte < 0x80 {
            seq![byte]
        } else {
            seq![0xC0u8 | (byte >> 6), 0x80u8 | (byte & 0x3F)]
        }),
{
    let c: char = byte as char;
    let chars: Seq<char> = seq![c];
    let scalar: u32 = c as u32;
    assert(scalar == byte as u32);
    assert(byte < 0x80 ==> (scalar & 0x7F) as u8 == byte) by (bit_vector)
        requires
            scalar == byte as u32,
    ;
    assert(byte >= 0x80 ==> {
        &&& 0xC0u8 | ((scalar >> 6) & 0x1F) as u8 == 0xC0u8 | (byte >> 6)
        &&& 0x80u8 | (scalar & 0x3F) as u8 == 0x80u8 | (byte & 0x3F)
    }) by (bit_vector)
        requires
            scalar == byte as u32,
    ;
    assert(chars.drop_first() =~= Seq::<char>::empty());
    assert(encode_utf8(chars) =~= vstd::utf8::encode_scalar(scalar) + encode_utf8(
        chars.drop_first(),
    ));
}

} // verus!
