//! The one-byte command identifiers of the trigger's wire protocol.

use vstd::prelude::*;

verus! {

/// The commands that the trigger understands. Every frame starts with the byte of one of them.
#[derive(Debug, Clone, Copy, PartialEq, Eq, Structural)]
pub enum Opcode {
    Stop,
    PlayTrack,
    PlayFilenumber,
    Pause,
    PlayNext,
    PlayPrevious,
    SetEq,
    SetVolume,
    GetSongCount,
    GetSongName,
    GetPlayStatus,
    GetCardStatus,
    GetVersion,
    SetAddress,
}

impl Opcode {
    /// The byte that selects this command on the wire.
    pub open spec fn spec_byte(self) -> u8 {
        match self {
            Opcode::Stop => 0x00,
            Opcode::PlayTrack => 0x01,
            Opcode::PlayFilenumber => 0x02,
            Opcode::Pause => 0x03,
            Opcode::PlayNext => 0x04,
            Opcode::PlayPrevious => 0x05,
            Opcode::SetEq => 0x06,
            Opcode::SetVolume => 0x07,
            Opcode::GetSongCount => 0x08,
            Opcode::GetSongName => 0x09,
            Opcode::GetPlayStatus => 0x0A,
            Opcode::GetCardStatus => 0x0B,
            Opcode::GetVersion => 0x0C,
            Opcode::SetAddress => 0xC7,
        }
    }

    /// The byte that selects this command on the wire.
    #[verifier::when_used_as_spec(spec_byte)]
    pub fn byte(self) -> (byte: u8)
        ensures
            byte == self.spec_byte(),
    {
        match self {
            Opcode::Stop => 0x00,
            Opcode::PlayTrack => 0x01,
            Opcode::PlayFilenumber => 0x02,
            Opcode::Pause => 0x03,
            Opcode::PlayNext => 0x04,
            Opcode::PlayPrevious => 0x05,
            Opcode::SetEq => 0x06,
            Opcode::SetVolume => 0x07,
            Opcode::GetSongCount => 0x08,
            Opcode::GetSongName => 0x09,
            Opcode::GetPlayStatus => 0x0A,
            Opcode::GetCardStatus => 0x0B,
            Opcode::GetVersion => 0x0C,
            Opcode::SetAddress => 0xC7,
        }
    }

    /// No two commands share a byte: the byte on the wire tells which command was sent.
    pub proof fn bytes_are_distinct(a: Opcode, b: Opcode)
        ensures
            a.byte() == b.byte() <==> a == b,
    {
    }
}

} // verus!
