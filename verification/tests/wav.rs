use pushboard::routing::LinkPlan;
use pushboard::routing::PlaybackSink;
use pushboard::stream::decode_samples;
use pushboard::stream::sample_count;
use pushboard::stream::BYTES_PER_SAMPLE;
use pushboard::wav::trim_samples;
use pushboard::wav::SampleFormat;
use pushboard::wav::SampleLayout;
use pushboard::wav::WavSpec;

fn spec(sample_format: SampleFormat, bits_per_sample: u16) -> WavSpec {
    WavSpec { channels: 2, sample_rate: 44100, bits_per_sample, sample_format }
}

#[test]
fn four_layouts_are_supported() {
    assert_eq!(spec(SampleFormat::Int, 16).layout(), Some(SampleLayout::Int16));
    assert_eq!(spec(SampleFormat::Int, 24).layout(), Some(SampleLayout::Int24));
    assert_eq!(spec(SampleFormat::Int, 32).layout(), Some(SampleLayout::Int32));
    assert_eq!(spec(SampleFormat::Float, 32).layout(), Some(SampleLayout::Float32));
}

#[test]
fn other_layouts_are_not_supported() {
    assert_eq!(spec(SampleFormat::Int, 8).layout(), None);
    assert_eq!(spec(SampleFormat::Int, 0).layout(), None);
    assert_eq!(spec(SampleFormat::Int, 64).layout(), None);
    assert_eq!(spec(SampleFormat::Float, 16).layout(), None);
    assert_eq!(spec(SampleFormat::Float, 24).layout(), None);
    assert_eq!(spec(SampleFormat::Float, 64).layout(), None);
}

#[test]
fn new_rate_keeps_the_rest_of_the_header() {
    let slower = spec(SampleFormat::Int, 24).with_sample_rate(41_625);
    assert_eq!(
        slower,
        WavSpec {
            channels: 2,
            sample_rate: 41_625,
            bits_per_sample: 24,
            sample_format: SampleFormat::Int
        }
    );
}

#[test]
fn frame_index_times_channels_is_the_sample_index() {
    let stereo = spec(SampleFormat::Float, 32);
    assert_eq!(stereo.sample_index(0), Some(0));
    assert_eq!(stereo.sample_index(3), Some(6));
    assert_eq!(stereo.sample_index(0x7fff_ffff), Some(0xffff_fffe));
    assert_eq!(stereo.sample_index(0x8000_0000), None);
}

#[test]
fn trim_keeps_the_region() {
    let samples = [10i16, 11, 12, 13, 14, 15];
    assert_eq!(trim_samples(&samples, 2, 4), &[12, 13]);
    assert_eq!(trim_samples(&samples, 0, 6), &samples[..]);
    assert_eq!(trim_samples(&samples, 3, 3), &[] as &[i16]);
    assert_eq!(trim_samples(&samples, 6, 6), &[] as &[i16]);
}

#[test]
fn trim_outside_the_buffer_keeps_nothing() {
    let samples = [1.0f32, 2.0, 3.0];
    assert_eq!(trim_samples(&samples, 2, 1), &[] as &[f32]);
    assert_eq!(trim_samples(&samples, 0, 4), &[] as &[f32]);
    assert_eq!(trim_samples(&samples, 4, 5), &[] as &[f32]);
    assert_eq!(trim_samples(&[] as &[f32], 0, 0), &[] as &[f32]);
}

#[test]
fn chunk_holds_size_over_four_samples() {
    assert_eq!(BYTES_PER_SAMPLE, 4);
    assert_eq!(sample_count(0), 0);
    assert_eq!(sample_count(3), 0);
    assert_eq!(sample_count(4), 1);
    assert_eq!(sample_count(10), 2);
    assert_eq!(sample_count(u32::MAX), 0x3fff_ffff);
}

#[test]
fn bytes_decode_least_significant_first() {
    let bytes = [0x78, 0x56, 0x34, 0x12, 0x00, 0x00, 0x80, 0x3f, 0xff, 0xff, 0xff, 0xff, 0xaa];
    assert_eq!(decode_samples(&bytes, 3), vec![0x1234_5678, 0x3f80_0000, 0xffff_ffff]);
    assert_eq!(decode_samples(&bytes, 1), vec![0x1234_5678]);
    assert_eq!(decode_samples(&bytes, 0), Vec::<u32>::new());
}

#[test]
fn decoded_words_are_the_floats_of_the_stream() {
    let floats = [0.0f32, 1.0, -1.0, 0.25, -0.000_123, f32::MAX, f32::MIN_POSITIVE];
    let mut bytes = Vec::new();
    for value in floats {
        bytes.extend_from_slice(&value.to_le_bytes());
    }
    let words = decode_samples(&bytes, sample_count(bytes.len() as u32) as usize);
    assert_eq!(words.len(), floats.len());
    for (word, value) in words.iter().zip(floats.iter()) {
        assert_eq!(*word, value.to_bits());
        assert_eq!(f32::from_bits(*word).to_bits(), value.to_bits());
    }
}

#[test]
fn switches_select_the_sink() {
    assert_eq!(PlaybackSink::from_switches(true, true), PlaybackSink::Default);
    assert_eq!(PlaybackSink::from_switches(false, true), PlaybackSink::Both);
    assert_eq!(PlaybackSink::from_switches(false, false), PlaybackSink::Mixer);
    assert_eq!(PlaybackSink::from_switches(true, false), PlaybackSink::Muted);
}

#[test]
fn sink_says_which_links_to_connect() {
    assert_eq!(PlaybackSink::Default.links(), LinkPlan { default_speaker: true, mixer: false });
    assert_eq!(PlaybackSink::Mixer.links(), LinkPlan { default_speaker: false, mixer: true });
    assert_eq!(PlaybackSink::Both.links(), LinkPlan { default_speaker: true, mixer: true });
    assert_eq!(PlaybackSink::Muted.links(), LinkPlan { default_speaker: false, mixer: false });
}
