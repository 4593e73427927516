use signalsmith_stretch::Config;
use signalsmith_stretch::ConfigError;
use signalsmith_stretch::Stretch;

#[test]
fn construct_explicit_stores_config() {
    let s = Stretch::new(2, 1024, 256).unwrap();
    assert_eq!(s.channel_count(), 2);
    assert_eq!(
        s.config(),
        Config::Explicit { channel_count: 2, block_length: 1024, interval: 256 }
    );
    assert_eq!(s.config().channel_count(), 2);
}

#[test]
fn construct_preset_default_stores_config() {
    let s = Stretch::preset_default(2, 44100).unwrap();
    assert_eq!(s.channel_count(), 2);
    assert_eq!(s.config(), Config::PresetDefault { channel_count: 2, sample_rate: 44100 });
}

#[test]
fn construct_preset_cheaper_stores_config() {
    let s = Stretch::preset_cheaper(4, 48000).unwrap();
    assert_eq!(s.channel_count(), 4);
    assert_eq!(s.config(), Config::PresetCheaper { channel_count: 4, sample_rate: 48000 });
}

#[test]
fn zero_channels_rejected_everywhere() {
    assert!(matches!(Stretch::new(0, 1024, 256), Err(ConfigError::ZeroChannelCount)));
    assert!(matches!(Stretch::preset_default(0, 44100), Err(ConfigError::ZeroChannelCount)));
    assert!(matches!(Stretch::preset_cheaper(0, 48000), Err(ConfigError::ZeroChannelCount)));
}

#[test]
fn process_divides_each_length_independently() {
    let mut s = Stretch::preset_default(2, 44100).unwrap();
    let (input_frames, output_frames) = s.process(882, 1764);
    assert_eq!(input_frames, 441);
    assert_eq!(output_frames, 882);
}

#[test]
fn seek_and_flush_floor_divide() {
    let mut s = Stretch::new(2, 1024, 256).unwrap();
    assert_eq!(s.seek(882), 441);
    assert_eq!(s.flush(10), 5);
}

#[test]
fn raw_variants_pass_counts_through() {
    let mut s = Stretch::new(2, 1024, 256).unwrap();
    assert_eq!(s.seek_raw(441), 441);
    assert_eq!(s.process_raw(441, 500), (441, 500));
    assert_eq!(s.flush_raw(300), 300);
}

#[test]
fn trailing_remainder_is_ignored() {
    // A buffer of 441 whole stereo frames plus one stray sample carries the
    // same frame count as the exact-length buffer.
    let mut exact = Stretch::new(2, 1024, 256).unwrap();
    let mut ragged = Stretch::new(2, 1024, 256).unwrap();
    assert_eq!(ragged.seek(883), exact.seek(882));
    assert_eq!(ragged.process(883, 885), exact.process(882, 884));
    assert_eq!(ragged.flush(883), exact.flush(882));
}

#[test]
fn remainder_under_four_channels_is_ignored() {
    let mut s = Stretch::new(4, 2048, 512).unwrap();
    assert_eq!(s.seek(4 * 100 + 3), 100);
    assert_eq!(s.process(4 * 7 + 1, 4 * 9 + 2), (7, 9));
}

#[test]
fn flush_buffer_sized_by_latency_drains_it_exactly() {
    let s = Stretch::preset_default(2, 44100).unwrap();
    let latency = 3072;
    let len = s.flush_buffer_len(latency).unwrap();
    assert_eq!(len, latency * 2);
    let mut s = s;
    assert_eq!(s.flush(len), latency);
}

#[test]
fn flush_buffer_len_refuses_overflow() {
    let s = Stretch::preset_default(2, 44100).unwrap();
    assert_eq!(s.flush_buffer_len(usize::MAX), None);
}

#[test]
fn duplicate_keeps_configuration() {
    let mut s = Stretch::preset_default(2, 44100).unwrap();
    s.seek(882);
    s.process(882, 882);
    let d = s.duplicate();
    assert_eq!(d.config(), s.config());
    assert_eq!(d.channel_count(), s.channel_count());
}

#[test]
fn duplicate_decides_like_a_fresh_handle() {
    // Feed one handle some history, duplicate it, and drive the duplicate
    // and a freshly built handle of the same configuration through the same
    // calls: every value handed to the engine is the same.
    let mut s = Stretch::preset_default(2, 44100).unwrap();
    s.seek(882);
    s.process(1764, 882);
    let mut d = s.duplicate();
    let mut fresh = Stretch::preset_default(2, 44100).unwrap();
    assert_eq!(d.process(882, 883), fresh.process(882, 883));
    assert_eq!(d.flush(884), fresh.flush(884));
}

#[test]
fn reset_then_flush_matches_fresh_handle() {
    let mut s = Stretch::new(2, 1024, 256).unwrap();
    s.process(882, 882);
    s.reset();
    let mut fresh = Stretch::new(2, 1024, 256).unwrap();
    let len = fresh.flush_buffer_len(1024).unwrap();
    assert_eq!(s.flush(len), fresh.flush(len));
    assert_eq!(s.config(), fresh.config());
}

#[test]
fn transpose_without_limit_passes_sentinel() {
    let mut s = Stretch::preset_default(2, 44100).unwrap();
    assert_eq!(s.set_transpose_factor(1.0f32, None, 0.0f32), (1.0, 0.0));
    assert_eq!(s.set_transpose_factor_semitones(-3.5f32, None, 0.0f32), (-3.5, 0.0));
}

#[test]
fn transpose_with_limit_passes_it_through() {
    let mut s = Stretch::preset_default(2, 44100).unwrap();
    assert_eq!(s.set_transpose_factor(2.0f32, Some(8000.0), 0.0f32), (2.0, 8000.0));
    assert_eq!(s.set_transpose_factor_semitones(12.0f32, Some(4000.0), 0.0f32), (12.0, 4000.0));
}

#[test]
fn transpose_leaves_accounting_unchanged() {
    let mut with_transpose = Stretch::preset_default(2, 44100).unwrap();
    let mut plain = Stretch::preset_default(2, 44100).unwrap();
    with_transpose.set_transpose_factor(1.0f32, None, 0.0f32);
    assert_eq!(with_transpose.process(8820, 8820), plain.process(8820, 8820));
}

#[test]
fn stereo_second_of_audio_keeps_frame_counts() {
    // 4410 stereo frames at 44100 Hz with an equal-sized output buffer:
    // the engine is asked for 4410 frames in and 4410 frames out.
    let mut s = Stretch::preset_default(2, 44100).unwrap();
    let (input_frames, output_frames) = s.process(4410 * 2, 4410 * 2);
    assert_eq!(input_frames, 4410);
    assert_eq!(output_frames, 4410);
}
