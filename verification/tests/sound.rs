use curosu::audio::{
    is_openable, wave_format, AudioWorker, Request, TapPlayer, WorkerAction, WorkerEvent,
    PLAYER_COUNT,
};
use curosu::number::Number;
use curosu::samples::{
    build_wave, clamp_rate, count_samples, is_playable, read_samples, side_of, write_samples, Side,
};
use curosu::wave::{build_wav_file, is_parseable, is_writable, parse_wav, WaveInfo};

fn number(value: f64) -> Number {
    Number::from_bits(value.to_bits())
}

fn chunk(id: &[u8; 4], body: &[u8]) -> Vec<u8> {
    let mut out = id.to_vec();
    out.extend_from_slice(&(body.len() as u32).to_le_bytes());
    out.extend_from_slice(body);
    if body.len() % 2 == 1 {
        out.push(0);
    }
    out
}

fn format_body(tag: u16, channels: u16, rate: u32, bits: u16) -> Vec<u8> {
    let mut out = tag.to_le_bytes().to_vec();
    out.extend_from_slice(&channels.to_le_bytes());
    out.extend_from_slice(&rate.to_le_bytes());
    out.extend_from_slice(&(rate * channels as u32 * (bits / 8) as u32).to_le_bytes());
    out.extend_from_slice(&(channels * (bits / 8)).to_le_bytes());
    out.extend_from_slice(&bits.to_le_bytes());
    out
}

fn riff(chunks: &[Vec<u8>]) -> Vec<u8> {
    let body: Vec<u8> = chunks.concat();
    let mut out = b"RIFF".to_vec();
    out.extend_from_slice(&(4 + body.len() as u32).to_le_bytes());
    out.extend_from_slice(b"WAVE");
    out.extend_from_slice(&body);
    out
}

fn parsed(data: &[u8]) -> Option<WaveInfo> {
    assert!(is_parseable(data));
    parse_wav(data)
}

#[test]
fn a_plain_file_is_read() {
    let data = riff(&[
        chunk(b"fmt ", &format_body(1, 2, 44100, 16)),
        chunk(b"data", &[1, 2, 3, 4]),
    ]);
    let info = parsed(&data).expect("a plain file");
    assert_eq!(info.channels, 2);
    assert_eq!(info.sample_rate, 44100);
    assert_eq!(info.bits, 16);
    assert_eq!(info.pcm, [1, 2, 3, 4]);
}

#[test]
fn other_chunks_and_padding_are_skipped() {
    let data = riff(&[
        chunk(b"LIST", &[9, 9, 9]),
        chunk(b"fmt ", &format_body(1, 1, 22050, 16)),
        chunk(b"junk", &[7]),
        chunk(b"data", &[5, 6]),
    ]);
    let info = parsed(&data).expect("a file with other chunks");
    assert_eq!(info.channels, 1);
    assert_eq!(info.pcm, [5, 6]);
}

#[test]
fn samples_end_with_the_file() {
    let mut data = riff(&[
        chunk(b"fmt ", &format_body(1, 1, 22050, 16)),
        chunk(b"data", &[1, 2, 3, 4, 5, 6]),
    ]);
    data.truncate(data.len() - 2);
    assert_eq!(parsed(&data).expect("a cut file").pcm, [1, 2, 3, 4]);
}

#[test]
fn a_later_chunk_replaces_an_earlier_one() {
    let data = riff(&[
        chunk(b"fmt ", &format_body(1, 1, 22050, 16)),
        chunk(b"data", &[1, 2]),
        chunk(b"data", &[3, 4]),
        chunk(b"fmt ", &format_body(1, 2, 8000, 16)),
    ]);
    let info = parsed(&data).expect("a file with repeated chunks");
    assert_eq!(info.channels, 2);
    assert_eq!(info.sample_rate, 8000);
    assert_eq!(info.pcm, [3, 4]);
}

#[test]
fn files_that_are_not_plain_sound_are_refused() {
    assert!(parsed(b"").is_none());
    assert!(parsed(b"RIFF\0\0\0\0WAVF").is_none());
    assert!(parsed(b"RIFX\0\0\0\0WAVE").is_none());
    let compressed = riff(&[
        chunk(b"fmt ", &format_body(2, 1, 8000, 16)),
        chunk(b"data", &[1, 2]),
    ]);
    assert!(parsed(&compressed).is_none());
    let no_data = riff(&[chunk(b"fmt ", &format_body(1, 1, 8000, 16))]);
    assert!(parsed(&no_data).is_none());
    let no_format = riff(&[chunk(b"data", &[1, 2])]);
    assert!(parsed(&no_format).is_none());
    let no_channels = riff(&[
        chunk(b"fmt ", &format_body(1, 0, 8000, 16)),
        chunk(b"data", &[1, 2]),
    ]);
    assert!(parsed(&no_channels).is_none());
}

#[test]
fn a_cut_format_chunk_is_not_parseable() {
    let mut data = riff(&[chunk(b"fmt ", &format_body(1, 1, 8000, 16))]);
    data.truncate(data.len() - 1);
    assert!(!is_parseable(&data));
}

#[test]
fn a_built_file_has_the_usual_header() {
    assert!(is_writable(4, 8000, 2, 16));
    let built = build_wav_file(&[1, 2, 3, 4], 8000, 2, 16);
    let expected = riff(&[
        chunk(b"fmt ", &format_body(1, 2, 8000, 16)),
        chunk(b"data", &[1, 2, 3, 4]),
    ]);
    assert_eq!(built, expected);
    let info = parsed(&built).expect("a built file");
    assert_eq!(info.pcm, [1, 2, 3, 4]);
    assert_eq!((info.channels, info.sample_rate, info.bits), (2, 8000, 16));
}

#[test]
fn formats_that_cannot_be_written_are_known() {
    assert!(!is_writable(4, u32::MAX, 2, 16));
    assert!(!is_writable(4, u32::MAX, 1, 16));
    assert!(!is_writable(4, 1, 60000, 16));
    assert!(is_writable(4, u32::MAX, 1, 8));
    assert!(is_writable(u32::MAX as usize - 36, 8000, 1, 16));
    assert!(!is_writable(u32::MAX as usize - 35, 8000, 1, 16));
}

#[test]
fn unchanged_samples_keep_the_sound() {
    let pcm = vec![0x00, 0x80, 0xFF, 0x7F, 0xFF, 0xFF, 0x01, 0x00];
    let info = WaveInfo { pcm: pcm.clone(), channels: 2, sample_rate: 44100, bits: 16 };
    assert!(is_playable(&info));
    let values = read_samples(&info);
    assert_eq!(values, [-32768, 32767, -1, 1]);
    assert_eq!(side_of(&info, 2), Side::Left);
    assert_eq!(side_of(&info, 3), Side::Right);
    assert_eq!(write_samples(&info, &values), pcm);
}

#[test]
fn eight_bit_samples_are_scaled_up() {
    let info = WaveInfo { pcm: vec![0, 9, 9, 255, 9, 9], channels: 3, sample_rate: 8000, bits: 8 };
    assert!(is_playable(&info));
    assert_eq!(count_samples(&info), 2);
    assert_eq!(side_of(&info, 1), Side::Both);
    assert_eq!(read_samples(&info), [-32768, 32512]);
    assert_eq!(write_samples(&info, &[0x0102, -2]), [0x02, 0x01, 0, 0xFE, 0xFF, 0]);
}

#[test]
fn sounds_without_room_for_samples_are_not_playable() {
    let mut info = WaveInfo { pcm: vec![1, 2], channels: 1, sample_rate: 8000, bits: 8 };
    assert!(!is_playable(&info));
    info.channels = 2;
    assert!(!is_playable(&info));
    info.pcm.truncate(1);
    assert!(is_playable(&info));
    info.bits = 4;
    assert!(!is_playable(&info));
    info.bits = 16;
    info.channels = 0;
    assert!(!is_playable(&info));
}

#[test]
fn odd_stereo_bytes_have_room_for_the_last_sample() {
    let info = WaveInfo { pcm: vec![1, 2, 3], channels: 2, sample_rate: 8000, bits: 8 };
    assert!(is_playable(&info));
    assert_eq!(read_samples(&info), [-32512, -32256]);
    assert_eq!(write_samples(&info, &[0x0102, 0x0304]), [0x02, 0x04, 0x03]);
}

#[test]
fn played_file_has_the_allowed_rate() {
    assert_eq!(clamp_rate(10), 8000);
    assert_eq!(clamp_rate(44100), 44100);
    assert_eq!(clamp_rate(4_000_000), 96000);
    let info = WaveInfo { pcm: vec![1, 0, 2, 0], channels: 1, sample_rate: 44100, bits: 16 };
    let built = build_wave(&info, 4_000_000, &[3, 4]);
    let played = parsed(&built).expect("a played file");
    assert_eq!(played.sample_rate, 96000);
    assert_eq!(played.pcm, [3, 0, 4, 0]);
}

#[test]
fn device_format_follows_from_the_sound() {
    let info = WaveInfo { pcm: vec![0; 4], channels: 2, sample_rate: 44100, bits: 16 };
    assert!(is_openable(&info));
    let format = wave_format(&info);
    assert_eq!(format.channels, 2);
    assert_eq!(format.samples_per_second, 44100);
    assert_eq!(format.bytes_per_second, 176400);
    assert_eq!(format.block_align, 4);
    assert_eq!(format.bits_per_sample, 16);
    let wide = WaveInfo { pcm: vec![0; 4], channels: 65535, sample_rate: 44100, bits: 16 };
    assert!(!is_openable(&wide));
}

#[test]
fn silent_players_let_nothing_through() {
    let request = Request { freq: number(1.0), volume: number(0.5), balance: number(0.0) };
    let mut player = TapPlayer::new();
    assert!(player.play(request).is_some());
    player.set_volume(0);
    assert!(player.play(request).is_none());
    player.set_volume(5000);
    assert_eq!(player.volume, 1000);
    player.set_enabled(false);
    assert!(player.play(request).is_none());
    player.set_enabled(true);
    assert_eq!(player.play(request).map(|r| r.volume.bits), Some(0.5f64.to_bits()));
}

#[test]
fn devices_take_turns() {
    let (mut worker, mut action) = AudioWorker::start(true);
    for _ in 0..PLAYER_COUNT {
        assert_eq!(action, WorkerAction::Open);
        action = worker.step(WorkerEvent::DeviceOpened);
    }
    assert_eq!(action, WorkerAction::Receive);
    for slot in 0..PLAYER_COUNT {
        assert_eq!(
            worker.step(WorkerEvent::Requested),
            WorkerAction::Play { slot, reset: false }
        );
    }
    assert_eq!(
        worker.step(WorkerEvent::Requested),
        WorkerAction::Play { slot: 0, reset: true }
    );
    assert_eq!(worker.step(WorkerEvent::Closed), WorkerAction::Release);
}

#[test]
fn fewer_devices_will_do_but_not_none() {
    let (mut worker, _) = AudioWorker::start(true);
    assert_eq!(worker.step(WorkerEvent::DeviceOpened), WorkerAction::Open);
    assert_eq!(worker.step(WorkerEvent::DeviceRefused), WorkerAction::Receive);
    assert_eq!(
        worker.step(WorkerEvent::Requested),
        WorkerAction::Play { slot: 0, reset: false }
    );
    assert_eq!(
        worker.step(WorkerEvent::Requested),
        WorkerAction::Play { slot: 0, reset: true }
    );
    let (mut without, _) = AudioWorker::start(true);
    assert_eq!(without.step(WorkerEvent::DeviceRefused), WorkerAction::Stop);
    let (_, unread) = AudioWorker::start(false);
    assert_eq!(unread, WorkerAction::Stop);
}
