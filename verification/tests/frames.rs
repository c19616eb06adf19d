use qwiic_mp3_trigger::command::{Command, Frame, Query};
use qwiic_mp3_trigger::equalizer::EqualizerMode;
use qwiic_mp3_trigger::opcode::Opcode;

#[test]
fn commands_without_parameter_are_their_opcode_alone() {
    assert_eq!(Command::Stop.frame().to_vec(), vec![0x00]);
    assert_eq!(Command::Pause.frame().to_vec(), vec![0x03]);
    assert_eq!(Command::PlayNext.frame().to_vec(), vec![0x04]);
    assert_eq!(Command::PlayPrevious.frame().to_vec(), vec![0x05]);
}

#[test]
fn ping_asks_for_the_version() {
    assert_eq!(Command::Ping.frame().to_vec(), vec![0x0C]);
    assert_eq!(Command::Ping.frame(), Query::Version.frame());
}

#[test]
fn play_track_passes_every_byte_on() {
    for track in 0..=255u8 {
        assert_eq!(Command::PlayTrack(track).frame().to_vec(), vec![0x01, track]);
    }
}

#[test]
fn play_filenumber_passes_every_byte_on() {
    for filenumber in 0..=255u8 {
        assert_eq!(
            Command::PlayFilenumber(filenumber).frame().to_vec(),
            vec![0x02, filenumber]
        );
    }
}

#[test]
fn set_volume_neither_checks_nor_clamps() {
    for level in 0..=255u8 {
        assert_eq!(Command::SetVolume(level).frame().to_vec(), vec![0x07, level]);
    }
    assert_eq!(Command::SetVolume(20).frame().to_vec(), vec![0x07, 20]);
    assert_eq!(Command::SetVolume(32).frame().to_vec(), vec![0x07, 32]);
}

#[test]
fn set_address_passes_every_byte_on() {
    for address in 0..=255u8 {
        assert_eq!(Command::SetAddress(address).frame().to_vec(), vec![0xC7, address]);
    }
}

#[test]
fn set_eq_carries_the_code_of_the_mode() {
    assert_eq!(Command::SetEq(EqualizerMode::Normal).frame().to_vec(), vec![0x06, 0]);
    assert_eq!(Command::SetEq(EqualizerMode::Pop).frame().to_vec(), vec![0x06, 1]);
    assert_eq!(Command::SetEq(EqualizerMode::Rock).frame().to_vec(), vec![0x06, 2]);
    assert_eq!(Command::SetEq(EqualizerMode::Jazz).frame().to_vec(), vec![0x06, 3]);
    assert_eq!(Command::SetEq(EqualizerMode::Classical).frame().to_vec(), vec![0x06, 4]);
    assert_eq!(Command::SetEq(EqualizerMode::Bass).frame().to_vec(), vec![0x06, 5]);
}

#[test]
fn equalizer_codes_are_the_documented_ones() {
    assert_eq!(EqualizerMode::Normal.code(), 0);
    assert_eq!(EqualizerMode::Pop.code(), 1);
    assert_eq!(EqualizerMode::Rock.code(), 2);
    assert_eq!(EqualizerMode::Jazz.code(), 3);
    assert_eq!(EqualizerMode::Classical.code(), 4);
    assert_eq!(EqualizerMode::Bass.code(), 5);
}

#[test]
fn queries_are_their_opcode_alone() {
    assert_eq!(Query::SongCount.frame().to_vec(), vec![0x08]);
    assert_eq!(Query::SongName.frame().to_vec(), vec![0x09]);
    assert_eq!(Query::PlayStatus.frame().to_vec(), vec![0x0A]);
    assert_eq!(Query::CardStatus.frame().to_vec(), vec![0x0B]);
    assert_eq!(Query::Version.frame().to_vec(), vec![0x0C]);
}

#[test]
fn opcode_bytes_are_the_documented_ones() {
    assert_eq!(Opcode::Stop.byte(), 0x00);
    assert_eq!(Opcode::PlayTrack.byte(), 0x01);
    assert_eq!(Opcode::PlayFilenumber.byte(), 0x02);
    assert_eq!(Opcode::Pause.byte(), 0x03);
    assert_eq!(Opcode::PlayNext.byte(), 0x04);
    assert_eq!(Opcode::PlayPrevious.byte(), 0x05);
    assert_eq!(Opcode::SetEq.byte(), 0x06);
    assert_eq!(Opcode::SetVolume.byte(), 0x07);
    assert_eq!(Opcode::GetSongCount.byte(), 0x08);
    assert_eq!(Opcode::GetSongName.byte(), 0x09);
    assert_eq!(Opcode::GetPlayStatus.byte(), 0x0A);
    assert_eq!(Opcode::GetCardStatus.byte(), 0x0B);
    assert_eq!(Opcode::GetVersion.byte(), 0x0C);
    assert_eq!(Opcode::SetAddress.byte(), 0xC7);
}

#[test]
fn opcode_bytes_are_distinct() {
    let all = [
        Opcode::Stop,
        Opcode::PlayTrack,
        Opcode::PlayFilenumber,
        Opcode::Pause,
        Opcode::PlayNext,
        Opcode::PlayPrevious,
        Opcode::SetEq,
        Opcode::SetVolume,
        Opcode::GetSongCount,
        Opcode::GetSongName,
        Opcode::GetPlayStatus,
        Opcode::GetCardStatus,
        Opcode::GetVersion,
        Opcode::SetAddress,
    ];
    for (i, a) in all.iter().enumerate() {
        for (j, b) in all.iter().enumerate() {
            assert_eq!(a.byte() == b.byte(), i == j);
        }
    }
}

#[test]
fn frame_bytes_are_opcode_then_parameter() {
    let bare = Frame { opcode: Opcode::Pause, parameter: None };
    assert_eq!(bare.to_vec(), vec![0x03]);
    let with_parameter = Frame { opcode: Opcode::SetVolume, parameter: Some(31) };
    assert_eq!(with_parameter.to_vec(), vec![0x07, 31]);
    let zero_parameter = Frame { opcode: Opcode::PlayTrack, parameter: Some(0) };
    assert_eq!(zero_parameter.to_vec(), vec![0x01, 0]);
}

#[test]
fn command_frames_name_opcode_and_parameter() {
    assert_eq!(
        Command::PlayTrack(3).frame(),
        Frame { opcode: Opcode::PlayTrack, parameter: Some(3) }
    );
    assert_eq!(Command::Stop.frame(), Frame { opcode: Opcode::Stop, parameter: None });
    assert_eq!(
        Command::SetEq(EqualizerMode::Jazz).frame(),
        Frame { opcode: Opcode::SetEq, parameter: Some(3) }
    );
}
