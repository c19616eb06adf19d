//! The command encoder: from an operation to the frame that is written to the bus.

use crate::equalizer::EqualizerMode;
use crate::opcode::Opcode;
use vstd::prelude::*;

verus! {

/// What is written to the bus for one operation: an opcode and, where the operation takes
/// one, a parameter byte.
#[derive(Debug, Clone, Copy, PartialEq, Eq, Structural)]
pub struct Frame {
    pub opcode: Opcode,
    pub parameter: Option<u8>,
}

impl View for Frame {
    type V = Seq<u8>;

    /// The bytes of the frame in the order in which they go out.
    open spec fn view(&self) -> Seq<u8> {
        match self.parameter {
            None => seq![self.opcode.spec_byte()],
            Some(parameter) => seq![self.opcode.spec_byte(), parameter],
        }
    }
}

impl Frame {
    /// The bytes of the frame in the order in which they go out.
    pub fn to_vec(&self) -> (bytes: Vec<u8>)
        ensures
            bytes@ == self@,
    {
        let mut bytes: Vec<u8> = Vec::new();
        bytes.push(self.opcode.byte());
        match self.parameter {
            None => {},
            Some(parameter) => {
                bytes.push(parameter);
            },
        }
        bytes
    }
}

/// Every frame starts with the byte of its opcode. A frame without a parameter is that byte
/// alone; a frame with one has the parameter as its second and last byte.
pub proof fn frame_starts_with_opcode(frame: Frame)
    ensures
        frame@[0] == frame.opcode.byte(),
        frame.parameter is None ==> frame@.len() == 1,
        frame.parameter matches Some(parameter) ==> frame@.len() == 2 && frame@[1] == parameter,
{
}

/// The operations to which the trigger sends no reply that is read: the frame is written and
/// the operation is over.
#[derive(Debug, Clone, Copy, PartialEq, Eq, Structural)]
pub enum Command {
    /// Tests communication: the version request, whose reply is left unread.
    Ping,
    /// Stops playing.
    Stop,
    /// Pauses playing.
    Pause,
    /// Plays the next track in the trigger's own order.
    PlayNext,
    /// Plays the previous track in the trigger's own order.
    PlayPrevious,
    /// Plays the track with this number in the trigger's own order.
    PlayTrack(u8),
    /// Plays the file whose name starts with this number: `3` stands for `F003***.mp3`.
    PlayFilenumber(u8),
    /// Sets the equalizer mode.
    SetEq(EqualizerMode),
    /// Sets the volume; the trigger documents 0 (off) to 31 (loudest).
    SetVolume(u8),
    /// Sets the bus address of the trigger.
    SetAddress(u8),
}

impl Command {
    /// The frame of this command.
    pub open spec fn spec_frame(self) -> Frame {
        match self {
            Command::Ping => Frame { opcode: Opcode::GetVersion, parameter: None },
            Command::Stop => Frame { opcode: Opcode::Stop, parameter: None },
            Command::Pause => Frame { opcode: Opcode::Pause, parameter: None },
            Command::PlayNext => Frame { opcode: Opcode::PlayNext, parameter: None },
            Command::PlayPrevious => Frame { opcode: Opcode::PlayPrevious, parameter: None },
            Command::PlayTrack(track) => Frame {
                opcode: Opcode::PlayTrack,
                parameter: Some(track),
            },
            Command::PlayFilenumber(filenumber) => Frame {
                opcode: Opcode::PlayFilenumber,
                parameter: Some(filenumber),
            },
            Command::SetEq(mode) => Frame {
                opcode: Opcode::SetEq,
                parameter: Some(mode.spec_code()),
            },
            Command::SetVolume(level) => Frame {
                opcode: Opcode::SetVolume,
                parameter: Some(level),
            },
            Command::SetAddress(address) => Frame {
                opcode: Opcode::SetAddress,
                parameter: Some(address),
            },
        }
    }

    /// The frame of this command. No parameter is checked or clamped: every byte is passed on
    /// as it is.
    #[verifier::when_used_as_spec(spec_frame)]
    pub fn frame(self) -> (frame: Frame)
        ensures
            frame == self.spec_frame(),
    {
        match self {
            Command::Ping => Frame { opcode: Opcode::GetVersion, parameter: None },
            Command::Stop => Frame { opcode: Opcode::Stop, parameter: None },
            Command::Pause => Frame { opcode: Opcode::Pause, parameter: None },
            Command::PlayNext => Frame { opcode: Opcode::PlayNext, parameter: None },
            Command::PlayPrevious => Frame { opcode: Opcode::PlayPrevious, parameter: None },
            Command::PlayTrack(track) => Frame {
                opcode: Opcode::PlayTrack,
                parameter: Some(track),
            },
            Command::PlayFilenumber(filenumber) => Frame {
                opcode: Opcode::PlayFilenumber,
                parameter: Some(filenumber),
            },
            Command::SetEq(mode) => Frame { opcode: Opcode::SetEq, parameter: Some(mode.code()) },
            Command::SetVolume(level) => Frame {
                opcode: Opcode::SetVolume,
                parameter: Some(level),
            },
            Command::SetAddress(address) => Frame {
                opcode: Opcode::SetAddress,
                parameter: Some(address),
            },
        }
    }
}

/// The operations whose reply is read: the frame is written, the trigger is given time to
/// settle, and eight bytes are read back.
#[derive(Debug, Clone, Copy, PartialEq, Eq, Structural)]
pub enum Query {
    /// The number of songs on the card, trigger songs included.
    SongCount,
    /// The name of the song that is playing.
    SongName,
    /// Whether a song is playing.
    PlayStatus,
    /// Whether a usable card is present.
    CardStatus,
    /// The version of the trigger's firmware.
    Version,
}

impl Query {
    /// The frame of this query: its opcode alone.
    pub open spec fn spec_frame(self) -> Frame {
        match self {
            Query::SongCount => Frame { opcode: Opcode::GetSongCount, parameter: None },
            Query::SongName => Frame { opcode: Opcode::GetSongName, parameter: None },
            Query::PlayStatus => Frame { opcode: Opcode::GetPlayStatus, parameter: None },
            Query::CardStatus => Frame { opcode: Opcode::GetCardStatus, parameter: None },
            Query::Version => Frame { opcode: Opcode::GetVersion, parameter: None },
        }
    }

    /// The frame of this query: its opcode alone.
    #[verifier::when_used_as_spec(spec_frame)]
    pub fn frame(self) -> (frame: Frame)
        ensures
            frame == self.spec_frame(),
    {
        match self {
            Query::SongCount => Frame { opcode: Opcode::GetSongCount, parameter: None },
            Query::SongName => Frame { opcode: Opcode::GetSongName, parameter: None },
            Query::PlayStatus => Frame { opcode: Opcode::GetPlayStatus, parameter: None },
            Query::CardStatus => Frame { opcode: Opcode::GetCardStatus, parameter: None },
            Query::Version => Frame { opcode: Opcode::GetVersion, parameter: None },
        }
    }
}

/// The commands without a parameter are encoded as their opcode byte and nothing else.
pub proof fn bare_commands_are_one_byte()
    ensures
        Command::Stop.frame()@ == seq![0x00u8],
        Command::Pause.frame()@ == seq![0x03u8],
        Command::PlayNext.frame()@ == seq![0x04u8],
        Command::PlayPrevious.frame()@ == seq![0x05u8],
        Command::Ping.frame()@ == seq![0x0Cu8],
{
}

/// A command with a parameter is encoded as its opcode byte followed by the parameter, whatever
/// byte the parameter is.
pub proof fn parameter_follows_opcode(parameter: u8)
    ensures
        Command::PlayTrack(parameter).frame()@ == seq![0x01u8, parameter],
        Command::PlayFilenumber(parameter).frame()@ == seq![0x02u8, parameter],
        Command::SetVolume(parameter).frame()@ == seq![0x07u8, parameter],
        Command::SetAddress(parameter).frame()@ == seq![0xC7u8, parameter],
{
}

/// The second byte of the frame that sets the equalizer is the code of the mode, for each of
/// the six modes.
pub proof fn equalizer_frame_carries_code(mode: EqualizerMode)
    ensures
        Command::SetEq(mode).frame()@ == seq![0x06u8, mode.code()],
        Command::SetEq(EqualizerMode::Normal).frame()@ == seq![0x06u8, 0u8],
        Command::SetEq(EqualizerMode::Pop).frame()@ == seq![0x06u8, 1u8],
        Command::SetEq(EqualizerMode::Rock).frame()@ == seq![0x06u8, 2u8],
        Command::SetEq(EqualizerMode::Jazz).frame()@ == seq![0x06u8, 3u8],
        Command::SetEq(EqualizerMode::Classical).frame()@ == seq![0x06u8, 4u8],
        Command::SetEq(EqualizerMode::Bass).frame()@ == seq![0x06u8, 5u8],
{
}

/// A query is encoded as its opcode byte and nothing else.
pub proof fn queries_are_one_byte()
    ensures
        Query::SongCount.frame()@ == seq![0x08u8],
        Query::SongName.frame()@ == seq![0x09u8],
        Query::PlayStatus.frame()@ == seq![0x0Au8],
        Query::CardStatus.frame()@ == seq![0x0Bu8],
        Query::Version.frame()@ == seq![0x0Cu8],
{
}

} // verus!
