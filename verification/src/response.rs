//! The response decoder: from the eight bytes that were read back to a typed result.

use crate::decimal::{decimal, decimal_string};
use vstd::prelude::*;
use vstd::slice::slice_to_vec;
use vstd::string::*;
use vstd::utf8::{decode_utf8, encode_utf8, valid_utf8};

verus! {

/// The number of bytes of every reply. All of them are read, however many the operation needs.
pub const REPLY_LEN: usize = 8;

/// The name that stands for a song name that is not text.
pub const UNPARSABLE_NAME: &'static str = "unable to parse";

/// The `PlayStatus` type describes the state of the mp3 trigger.
#[derive(Debug, Clone, Copy, PartialEq, Eq, Structural)]
pub enum PlayStatus {
    /// A song is playing.
    Playing,
    /// No song is playing.
    Stopped,
    /// The trigger answered with a byte that stands for neither.
    Unknown,
}

/// The `CardStatus` type indicates if an SD card is present.
#[derive(Debug, Clone, Copy, PartialEq, Eq, Structural)]
pub enum CardStatus {
    /// A card is present and can be read.
    Good,
    /// No usable card is present, or the trigger answered with a byte that stands for nothing.
    Bad,
}

/// The text of a version: major and minor number in decimal, with a dot between them.
pub open spec fn version_text(major: u8, minor: u8) -> Seq<char> {
    decimal(major as nat) + seq!['.'] + decimal(minor as nat)
}

/// The text of a song name: the characters that the bytes encode in UTF-8, or, where they
/// encode none, the name that says so.
pub open spec fn song_name_text(reply: Seq<u8>) -> Seq<char> {
    if valid_utf8(reply) {
        decode_utf8(reply)
    } else {
        UNPARSABLE_NAME@
    }
}

/// The number of songs on the card: the first byte of the reply, as it is.
pub fn decode_song_count(reply: &[u8; REPLY_LEN]) -> (count: u8)
    ensures
        count == reply[0],
{
    reply[0]
}

/// The play status: 1 in the first byte of the reply is playing, 2 is stopped, and every other
/// byte is unknown.
pub fn decode_play_status(reply: &[u8; REPLY_LEN]) -> (status: PlayStatus)
    ensures
        reply[0] == 1 ==> status == PlayStatus::Playing,
        reply[0] == 2 ==> status == PlayStatus::Stopped,
        reply[0] != 1 && reply[0] != 2 ==> status == PlayStatus::Unknown,
{
    match reply[0] {
        1 => PlayStatus::Playing,
        2 => PlayStatus::Stopped,
        _ => PlayStatus::Unknown,
    }
}

/// The card status: 1 in the first byte of the reply is a good card, and every other byte,
/// 0 among them, is a bad one.
pub fn decode_card_status(reply: &[u8; REPLY_LEN]) -> (status: CardStatus)
    ensures
        reply[0] == 0 ==> status == CardStatus::Bad,
        reply[0] == 1 ==> status == CardStatus::Good,
        reply[0] != 0 && reply[0] != 1 ==> status == CardStatus::Bad,
{
    match reply[0] {
        0 => CardStatus::Bad,
        1 => CardStatus::Good,
        _ => CardStatus::Bad,
    }
}

/// The firmware version: the first two bytes of the reply as `<major>.<minor>`.
pub fn decode_version(reply: &[u8; REPLY_LEN]) -> (version: String)
    ensures
        version@ == version_text(reply[0], reply[1]),
{
    let mut version = decimal_string(reply[0]);
    version.append(".");
    let minor = decimal_string(reply[1]);
    version.append(minor.as_str());
    proof {
        reveal_strlit(".");
        assert("."@ == seq!['.']);
    }
    version
}

/// `String::from_utf8` of std, which takes the bytes as a string if they are valid UTF-8 and
/// refuses them if they are not. The contract says so over vstd's definition of UTF-8: the
/// result is there exactly for valid bytes, and the string then encodes to those bytes.
#[verifier::external_body]
fn string_from_utf8(bytes: Vec<u8>) -> (text: Option<String>)
    ensures
        text is Some <==> valid_utf8(bytes@),
        text matches Some(string) ==> encode_utf8(string@) == bytes@,
{
    match String::from_utf8(bytes) {
        Ok(string) => Some(string),
        Err(_) => None,
    }
}

/// The name of the song that is playing: all eight bytes of the reply as text. Bytes that are
/// not text give `unable to parse`; that is a name like any other, no failure.
pub fn decode_song_name(reply: &[u8; REPLY_LEN]) -> (name: String)
    ensures
        name@ == song_name_text(reply@),
{
    let bytes = slice_to_vec(reply.as_slice());
    match string_from_utf8(bytes) {
        Some(name) => {
            proof {
                vstd::utf8::encode_utf8_decode_utf8(name@);
            }
            name
        },
        None => String::from_str(UNPARSABLE_NAME),
    }
}

/// A reply of ASCII bytes is a name, and the name is spelled by those bytes, one character for
/// each byte, padding and NUL bytes included.
pub proof fn ascii_reply_is_spelled_by_its_bytes(reply: Seq<u8>)
    requires
        forall|i: int| 0 <= i < reply.len() ==> reply[i] < 128,
    ensures
        valid_utf8(reply),
        song_name_text(reply) == Seq::new(reply.len(), |i: int| reply[i] as char),
{
    let name = Seq::new(reply.len(), |i: int| reply[i] as char);
    assert(vstd::utf8::is_ascii_chars(name));
    vstd::utf8::is_ascii_chars_encode_utf8(name);
    assert(encode_utf8(name) =~= reply);
    vstd::utf8::encode_utf8_valid_utf8(name);
    vstd::utf8::encode_utf8_decode_utf8(name);
}

/// A reply that starts with a byte with which no character starts in UTF-8, one from 0x80 to
/// 0xBF or from 0xF8 to 0xFF, is no text: its name is `unable to parse`.
pub proof fn reply_with_bad_start_is_no_text(reply: Seq<u8>)
    requires
        reply.len() > 0,
        0x80 <= reply[0] <= 0xBF || 0xF8 <= reply[0],
    ensures
        !valid_utf8(reply),
        song_name_text(reply) == UNPARSABLE_NAME@,
{
}

} // verus!
