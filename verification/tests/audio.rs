use duck_race::audio::{
    AudioSink, DySv8f, Frame, NullAudio, Sound, CMD_PLAY_TRACK, MOUNT_MS, POWER_UP_MS,
    VOLUME_DEFAULT, VOLUME_MAX,
};

fn bytes(f: &Frame) -> Vec<u8> {
    f.buf[..f.len].to_vec()
}

#[test]
fn every_clip_has_its_file_number() {
    assert_eq!(Sound::Bet(0).track(), Some(1));
    assert_eq!(Sound::Bet(1).track(), Some(2));
    assert_eq!(Sound::Bet(2).track(), Some(3));
    assert_eq!(Sound::Bet(3).track(), Some(4));
    assert_eq!(Sound::Race.track(), Some(5));
    assert_eq!(Sound::Win.track(), Some(6));
    assert_eq!(Sound::Lose.track(), Some(7));
}

#[test]
fn attract_and_home_are_silent() {
    assert_eq!(Sound::Attract.track(), None);
    assert_eq!(Sound::Home.track(), None);
}

#[test]
fn a_bet_past_the_last_duck_plays_the_last() {
    assert_eq!(Sound::Bet(4).track(), Some(4));
    assert_eq!(Sound::Bet(255).track(), Some(4));
}

#[test]
fn clips_are_not_shared() {
    let sounds = [
        Sound::Bet(0),
        Sound::Bet(1),
        Sound::Bet(2),
        Sound::Bet(3),
        Sound::Race,
        Sound::Win,
        Sound::Lose,
    ];
    for (i, a) in sounds.iter().enumerate() {
        for (j, b) in sounds.iter().enumerate() {
            assert_eq!(a.track() == b.track(), i == j);
        }
    }
}

#[test]
fn start_up_frames_are_those_of_the_data_sheet() {
    let dev = DySv8f::new();
    let first = dev.init(0).unwrap();
    assert_eq!(first.wait_ms, POWER_UP_MS);
    assert_eq!(bytes(&first.frame), [0xAA, 0x0B, 0x01, 0x02, 0xB8]);
    let second = dev.init(1).unwrap();
    assert_eq!(second.wait_ms, MOUNT_MS);
    assert_eq!(bytes(&second.frame), [0xAA, 0x18, 0x01, 0x02, 0xC5]);
    let third = dev.init(2).unwrap();
    assert_eq!(third.wait_ms, 0);
    assert_eq!(bytes(&third.frame), [0xAA, 0x13, 0x01, 22, 0xD4]);
    assert!(dev.init(3).is_none());
}

#[test]
fn stop_frame_has_no_data() {
    assert_eq!(bytes(&DySv8f::new().stop()), [0xAA, 0x04, 0x00, 0xAE]);
}

#[test]
fn track_number_goes_high_byte_first() {
    let dev = DySv8f::new();
    assert_eq!(bytes(&dev.play_track(3)), [0xAA, 0x07, 0x02, 0x00, 0x03, 0xB6]);
    assert_eq!(bytes(&dev.play_track(0x1234)), [0xAA, 0x07, 0x02, 0x12, 0x34, 0xF9]);
}

#[test]
fn checksum_is_the_low_byte_of_the_sum() {
    let f = Frame::new(CMD_PLAY_TRACK, &[0xFF, 0xFF, 0xFF, 0xFF]);
    let all = bytes(&f);
    assert_eq!(all.len(), 8);
    let sum: u32 = all[..7].iter().map(|b| *b as u32).sum();
    assert_eq!(all[7] as u32, sum % 256);
    assert_eq!(all, [0xAA, 0x07, 0x04, 0xFF, 0xFF, 0xFF, 0xFF, 0xB1]);
}

#[test]
fn playing_sends_the_track_or_nothing() {
    let mut dev = DySv8f::new();
    let f = dev.play(Sound::Win).unwrap();
    assert_eq!(bytes(&f), [0xAA, 0x07, 0x02, 0x00, 0x06, 0xB9]);
    assert!(dev.play(Sound::Home).is_none());
    assert!(dev.play(Sound::Attract).is_none());
}

#[test]
fn volume_is_remembered_and_capped() {
    let mut dev = DySv8f::new();
    assert_eq!(dev.volume(), VOLUME_DEFAULT);
    let f = dev.set_volume(10).unwrap();
    assert_eq!(bytes(&f), [0xAA, 0x13, 0x01, 0x0A, 0xC8]);
    assert_eq!(dev.volume(), 10);
    let f = dev.set_volume(200).unwrap();
    assert_eq!(bytes(&f), [0xAA, 0x13, 0x01, 0x1E, 0xDC]);
    assert_eq!(dev.volume(), VOLUME_MAX);
    assert_eq!(bytes(&dev.init(2).unwrap().frame), [0xAA, 0x13, 0x01, 0x1E, 0xDC]);
}

#[test]
fn a_machine_without_audio_sends_nothing() {
    let mut none = NullAudio;
    assert!(none.play(Sound::Race).is_none());
    assert!(none.set_volume(5).is_none());
}
