use rosie::args::Args;
use rosie::asr::{parse_sample, SamplingStrategy, WavFormat};

fn mono_16k() -> WavFormat {
    WavFormat { channel_count: 1, sampling_rate: 16_000 }
}

fn segments(texts: &[&str]) -> Vec<String> {
    texts.iter().map(|t| String::from(*t)).collect()
}

#[test]
fn segments_are_joined_with_a_space_before_each() {
    let heard = segments(&["turn on", "the kitchen light"]);
    assert_eq!(parse_sample(&mono_16k(), &heard), Some(String::from(" turn on the kitchen light")));
}

#[test]
fn one_segment_keeps_its_leading_space() {
    assert_eq!(parse_sample(&mono_16k(), &segments(&["play"])), Some(String::from(" play")));
}

#[test]
fn no_segments_give_an_empty_command() {
    assert_eq!(parse_sample(&mono_16k(), &segments(&[])), Some(String::new()));
}

#[test]
fn empty_segments_still_add_their_space() {
    assert_eq!(parse_sample(&mono_16k(), &segments(&["", "a", ""])), Some(String::from("  a ")));
}

#[test]
fn stereo_recording_is_refused() {
    let format = WavFormat { channel_count: 2, sampling_rate: 16_000 };
    assert!(!format.supported());
    assert_eq!(parse_sample(&format, &segments(&["turn on"])), None);
}

#[test]
fn other_sampling_rate_is_refused() {
    let format = WavFormat { channel_count: 1, sampling_rate: 44_100 };
    assert!(!format.supported());
    assert_eq!(parse_sample(&format, &segments(&["turn on"])), None);
    let format = WavFormat { channel_count: 1, sampling_rate: 15_999 };
    assert_eq!(parse_sample(&format, &segments(&[])), None);
}

#[test]
fn recording_without_channels_is_refused() {
    let format = WavFormat { channel_count: 0, sampling_rate: 16_000 };
    assert_eq!(parse_sample(&format, &segments(&["turn on"])), None);
}

#[test]
fn mono_at_16_khz_is_supported() {
    assert!(mono_16k().supported());
}

#[test]
fn strategies_are_distinct() {
    assert_ne!(SamplingStrategy::Greedy, SamplingStrategy::BeamSearch);
    let copy = SamplingStrategy::Greedy;
    assert_eq!(copy, SamplingStrategy::Greedy);
}

#[test]
fn args_hold_both_paths() {
    let args = Args { model: String::from("data/ggml-base.en.bin"), wav: String::from("cmd.wav") };
    assert_eq!(args.model, "data/ggml-base.en.bin");
    assert_eq!(args.wav, "cmd.wav");
}
