use live_caption::config::{
    recognizer_settings, AudioError, BufferSizePolicy, CandidateConfig, NegotiatedConfig,
    SampleFormat,
};
use live_caption::negotiate::{
    buffer_frames, configure_candidate, negotiate, precedes, rank_candidates,
    resolve_buffer_size, resolve_sample_rate, LATENCY_DIVISOR, TARGET_SAMPLE_RATE,
};

fn cand(format: SampleFormat, channels: u16, min: u32, max: u32, buffer: BufferSizePolicy) -> CandidateConfig {
    CandidateConfig {
        format,
        channels,
        min_sample_rate: min,
        max_sample_rate: max,
        buffer_size: buffer,
    }
}

#[test]
fn ranking_puts_target_format_first_then_fewer_channels() {
    let input = vec![
        cand(SampleFormat::Float32, 1, 8000, 96000, BufferSizePolicy::Unknown),
        cand(SampleFormat::Int16, 2, 8000, 96000, BufferSizePolicy::Unknown),
        cand(SampleFormat::UInt8, 1, 8000, 96000, BufferSizePolicy::Unknown),
        cand(SampleFormat::Int16, 1, 8000, 96000, BufferSizePolicy::Unknown),
        cand(SampleFormat::Int32, 6, 8000, 96000, BufferSizePolicy::Unknown),
        cand(SampleFormat::Int16, 2, 44100, 44100, BufferSizePolicy::Unknown),
    ];
    let out = rank_candidates(input.clone());
    assert_eq!(out.len(), input.len());
    assert_eq!(out[0], input[3]);
    assert_eq!(out[1], input[1]);
    assert_eq!(out[2], input[5]);
    assert_eq!(out[3], input[0]);
    assert_eq!(out[4], input[2]);
    assert_eq!(out[5], input[4]);
    for i in 0..out.len() {
        for j in (i + 1)..out.len() {
            assert!(!precedes(&out[j], &out[i]));
        }
    }
}

#[test]
fn ranking_of_nothing_is_nothing() {
    assert!(rank_candidates(Vec::new()).is_empty());
}

#[test]
fn ranking_is_stable_for_ties() {
    let a = cand(SampleFormat::Float32, 2, 1, 2, BufferSizePolicy::Unknown);
    let b = cand(SampleFormat::Float64, 2, 3, 4, BufferSizePolicy::Unknown);
    let c = cand(SampleFormat::Int8, 2, 5, 6, BufferSizePolicy::Unknown);
    let out = rank_candidates(vec![a, b, c]);
    assert_eq!(out, vec![a, b, c]);
}

#[test]
fn rate_is_clamped_to_range_max() {
    assert_eq!(resolve_sample_rate(48000, 8000, 16000), 16000);
}

#[test]
fn rate_is_clamped_to_range_min() {
    assert_eq!(resolve_sample_rate(48000, 96000, 192000), 96000);
}

#[test]
fn rate_inside_range_is_kept() {
    assert_eq!(resolve_sample_rate(TARGET_SAMPLE_RATE, 8000, 192000), 48000);
}

#[test]
fn buffer_size_for_forty_milliseconds_mono() {
    assert_eq!(buffer_frames(48000, 1, 2, 25), 3840);
    assert_eq!(buffer_frames(48000, 2, 2, 50), 3840);
    assert_eq!(buffer_frames(u32::MAX, u16::MAX, u8::MAX, 1), 4294967295u64 * 65535 * 255);
}

#[test]
fn buffer_size_policy_applies() {
    assert_eq!(resolve_buffer_size(3840, BufferSizePolicy::Range { min: 64, max: 2048 }), 2048);
    assert_eq!(resolve_buffer_size(3840, BufferSizePolicy::Range { min: 4096, max: 8192 }), 4096);
    assert_eq!(resolve_buffer_size(3840, BufferSizePolicy::Range { min: 64, max: 8192 }), 3840);
    assert_eq!(resolve_buffer_size(3840, BufferSizePolicy::Fixed(512)), 3840);
    assert_eq!(resolve_buffer_size(3840, BufferSizePolicy::Unknown), 3840);
}

#[test]
fn negotiation_picks_best_candidate() {
    let input = vec![
        cand(SampleFormat::Float32, 1, 8000, 192000, BufferSizePolicy::Unknown),
        cand(SampleFormat::Int16, 2, 8000, 16000, BufferSizePolicy::Range { min: 0, max: 1000 }),
        cand(SampleFormat::Int16, 4, 8000, 192000, BufferSizePolicy::Unknown),
    ];
    let r = negotiate(input, LATENCY_DIVISOR);
    assert_eq!(
        r,
        Ok(NegotiatedConfig { channels: 2, sample_rate: 16000, buffer_size: 1000 })
    );
}

#[test]
fn negotiation_without_candidates_fails() {
    assert_eq!(negotiate(Vec::new(), LATENCY_DIVISOR), Err(AudioError::NoSupportedConfig));
}

#[test]
fn negotiation_mono_target_rate() {
    let input = vec![cand(SampleFormat::Int16, 1, 8000, 96000, BufferSizePolicy::Unknown)];
    assert_eq!(
        negotiate(input, 25),
        Ok(NegotiatedConfig { channels: 1, sample_rate: 48000, buffer_size: 3840 })
    );
}

#[test]
fn negotiation_with_oversized_buffer_fails() {
    let c = cand(SampleFormat::Int16, 65535, 4_000_000_000, 4_000_000_000, BufferSizePolicy::Unknown);
    assert_eq!(configure_candidate(&c, 1), Err(AudioError::StreamBuildFailed));
    let clamped = cand(
        SampleFormat::Int16,
        65535,
        4_000_000_000,
        4_000_000_000,
        BufferSizePolicy::Range { min: 16, max: 4096 },
    );
    assert_eq!(
        configure_candidate(&clamped, 1),
        Ok(NegotiatedConfig { channels: 65535, sample_rate: 4_000_000_000, buffer_size: 4096 })
    );
}

#[test]
fn recognizer_settings_follow_stream() {
    let cfg = NegotiatedConfig { channels: 2, sample_rate: 44100, buffer_size: 7056 };
    let s = recognizer_settings(&cfg);
    assert_eq!(s.sample_rate, 44100);
    assert_eq!(s.channels, 2);
}

#[test]
fn errors_have_messages() {
    assert_eq!(AudioError::DeviceNotFound.message(), "cannot find an audio input device");
    assert!(!AudioError::WriteFailed.message().is_empty());
}
