use phantom_server::audio::{
    convert_channels, finish_chunk, i24_to_i16, neighbours, resampled_frames, silence,
    to_target_channels, DeviceFormat, PcmAccumulator, SampleEncoding, CHANNELS, SAMPLE_RATE,
};

fn format(channels: u16, bits_per_sample: u16) -> DeviceFormat {
    DeviceFormat {
        sample_rate: 44_100,
        channels,
        bits_per_sample,
    }
}

#[test]
fn samples_are_read_by_their_size() {
    assert_eq!(format(2, 32).encoding(), SampleEncoding::Float32);
    assert_eq!(format(2, 16).encoding(), SampleEncoding::Int16);
    assert_eq!(format(2, 24).encoding(), SampleEncoding::Int24);
    assert_eq!(format(2, 8).encoding(), SampleEncoding::Unknown);
    assert_eq!(silence(3), vec![0, 0, 0]);
    assert_eq!(format(6, 16).total_samples(10), 60);
}

#[test]
fn long_samples_lose_their_lowest_byte() {
    assert_eq!(
        i24_to_i16(&[0xff, 0x34, 0x12, 0xff, 0x00, 0x80, 0, 0xff, 0xff], 4),
        vec![0x1234, i16::MIN, -1, 0]
    );
}

#[test]
fn channels_are_converted() {
    assert_eq!(convert_channels(&[1, 2], 1, 2), vec![1, 1, 2, 2]);
    assert_eq!(convert_channels(&[1, 2, 3, 4, 5, 6, 7], 3, 2), vec![1, 2, 4, 5]);
    assert_eq!(convert_channels(&[1, 2, -1, -2], 2, 1), vec![1, -1]);
    assert_eq!(convert_channels(&[1, 2], 2, 3), vec![1, 2, 0]);
    assert_eq!(convert_channels(&[1, 2, 3], 3, 3), vec![1, 2, 3]);
    assert!(!format(2, 16).needs_channel_convert(CHANNELS));
    assert!(format(1, 16).needs_channel_convert(CHANNELS));
    assert!(format(2, 16).needs_resample(SAMPLE_RATE));
    assert_eq!(to_target_channels(vec![7], format(1, 16), 2), vec![7, 7]);
    assert_eq!(to_target_channels(vec![7, 8], format(2, 16), 2), vec![7, 8]);
}

#[test]
fn mono_survives_stereo() {
    let stereo = convert_channels(&[-3, 5], 1, 2);
    assert_eq!(convert_channels(&stereo, 2, 1), vec![-3, 5]);
}

#[test]
fn resampling_looks_at_two_samples() {
    assert_eq!(resampled_frames(882, 2, 44_100, 48_000), 480);
    let pcm = [1, 2, 3, 4];
    assert_eq!(neighbours(&pcm, 0, 2, 1), (2, 4));
    assert_eq!(neighbours(&pcm, 1, 2, 0), (3, 3));
    assert_eq!(neighbours(&pcm, 2, 2, 0), (0, 0));
}

#[test]
fn frames_hold_every_sample() {
    let mut acc = PcmAccumulator::new(SAMPLE_RATE, CHANNELS);
    assert_eq!(acc.frame_size, 1920);
    acc.frame_size = 4;
    assert!(acc.accumulate(&[1, 2, 3]).is_empty());
    assert_eq!(
        acc.accumulate(&[4, 5, 6, 7, 8, 9]),
        vec![vec![1, 2, 3, 4], vec![5, 6, 7, 8]]
    );
    assert_eq!(acc.samples, vec![9]);
    assert_eq!(acc.accumulate(&[10, 11, 12]), vec![vec![9, 10, 11, 12]]);
    assert!(acc.samples.is_empty());
}

#[test]
fn chunks_hold_what_was_encoded() {
    let chunk = finish_chunk(&[1, 2, 3, 0], Some(3), SAMPLE_RATE, CHANNELS).unwrap();
    assert_eq!(chunk.data, vec![1, 2, 3]);
    assert_eq!((chunk.sample_rate, chunk.channels), (48_000, 2));
    assert!(finish_chunk(&[1], None, SAMPLE_RATE, CHANNELS).is_none());
}
