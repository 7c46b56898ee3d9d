use phantom_server::encode::h264::{
    annexb_nal_ranges, ensure_keyframe_has_sps_pps, find_annexb_start, finish_frame, pack_planes,
    FrameKind, OpenH264Encoder,
};
use phantom_server::encode::zstd::{
    decode_tile, encode_tile, DirtyTile, TileEncoding, TileError, ZstdEncoder,
};
use phantom_server::media::VideoCodec;

fn has_nal(data: &[u8], nal_type: u8) -> bool {
    annexb_nal_ranges(data)
        .into_iter()
        .any(|nal| (data[nal.nal_start] & 0x1f) == nal_type)
}

#[test]
fn openh264_prepends_cached_sps_pps_to_forced_keyframe() {
    let mut cache = Vec::new();
    let mut first = vec![
        0, 0, 0, 1, 0x67, 1, 2, // SPS
        0, 0, 0, 1, 0x68, 3, 4, // PPS
        0, 0, 0, 1, 0x65, 5, 6, // IDR
    ];
    ensure_keyframe_has_sps_pps(&mut cache, &mut first);
    assert_eq!(cache, vec![0, 0, 0, 1, 0x67, 1, 2, 0, 0, 0, 1, 0x68, 3, 4]);

    let mut forced = vec![0, 0, 0, 1, 0x65, 9, 10];
    ensure_keyframe_has_sps_pps(&mut cache, &mut forced);
    assert!(has_nal(&forced, 7));
    assert!(has_nal(&forced, 8));
    assert!(has_nal(&forced, 5));
}

#[test]
fn openh264_sps_pps_cache_supports_three_byte_start_codes() {
    let mut cache = Vec::new();
    let mut first = vec![
        0, 0, 1, 0x67, 1, //
        0, 0, 1, 0x68, 2, //
        0, 0, 1, 0x65, 3,
    ];
    ensure_keyframe_has_sps_pps(&mut cache, &mut first);
    assert_eq!(cache, vec![0, 0, 1, 0x67, 1, 0, 0, 1, 0x68, 2]);
}

#[test]
fn start_codes_are_found_in_both_lengths() {
    let data = [9, 0, 0, 0, 1, 0x67, 0, 0, 1, 0x68];
    assert_eq!(find_annexb_start(&data, 0), Some((1, 4)));
    assert_eq!(find_annexb_start(&data, 5), Some((6, 3)));
    assert_eq!(find_annexb_start(&data, 9), None);
    assert_eq!(find_annexb_start(&[], 0), None);
    let ranges = annexb_nal_ranges(&data);
    assert_eq!(ranges.len(), 2);
    assert_eq!((ranges[0].start_code_start, ranges[0].nal_start), (1, 5));
    assert_eq!((ranges[1].start_code_start, ranges[1].nal_start), (6, 9));
}

#[test]
fn keyframe_stays_complete_when_it_is_completed_again() {
    let mut cache = vec![0, 0, 0, 1, 0x67, 1, 0, 0, 0, 1, 0x68, 2];
    let mut frame = vec![0, 0, 0, 1, 0x65, 3];
    ensure_keyframe_has_sps_pps(&mut cache, &mut frame);
    let once = frame.clone();
    ensure_keyframe_has_sps_pps(&mut cache, &mut frame);
    assert_eq!(frame, once);
    assert_eq!(frame.len(), 18);
}

#[test]
fn frames_between_keyframes_are_sent_as_they_are() {
    let mut cache = vec![0, 0, 1, 0x67, 0, 0, 1, 0x68];
    let frame = finish_frame(&mut cache, FrameKind::P, vec![0, 0, 1, 0x41, 7]);
    assert!(!frame.is_keyframe);
    assert_eq!(frame.data, vec![0, 0, 1, 0x41, 7]);
    assert_eq!(cache, vec![0, 0, 1, 0x67, 0, 0, 1, 0x68]);
    let key = finish_frame(&mut cache, FrameKind::Idr, vec![0, 0, 1, 0x65, 7]);
    assert!(key.is_keyframe);
    assert_eq!(key.codec, VideoCodec::H264);
    assert_eq!(
        key.data,
        vec![0, 0, 1, 0x67, 0, 0, 1, 0x68, 0, 0, 1, 0x65, 7]
    );
}

#[test]
fn planes_follow_each_other() {
    assert_eq!(pack_planes(&[1, 2], &[3], &[4]), vec![1, 2, 3, 4]);
}

#[test]
fn encoder_makes_keyframes_that_stand_alone() {
    let mut encoder = OpenH264Encoder::new(32, 32, 30, 1000).unwrap();
    assert_eq!(encoder.bitrate_kbps(), 1000);
    let y: Vec<u8> = (0..1024u32).map(|i| (i * 7 % 251) as u8).collect();
    let chroma = vec![128u8; 256];
    let first = encoder.encode_frame(&y, &chroma, &chroma).unwrap();
    assert!(first.is_keyframe);
    assert_eq!(first.codec, VideoCodec::H264);
    assert!(has_nal(&first.data, 7) && has_nal(&first.data, 8) && has_nal(&first.data, 5));
    encoder.force_keyframe();
    let second = encoder.encode_frame(&y, &chroma, &chroma).unwrap();
    assert!(second.is_keyframe);
    assert!(has_nal(&second.data, 7) && has_nal(&second.data, 8) && has_nal(&second.data, 5));
    encoder.set_bitrate_kbps(2000).unwrap();
    assert_eq!(encoder.bitrate_kbps(), 2000);
    let third = encoder.encode_frame(&y, &chroma, &chroma).unwrap();
    assert!(third.is_keyframe);
    encoder.set_bitrate_kbps(2000).unwrap();
    assert_eq!(encoder.bitrate_kbps(), 2000);
}

#[test]
fn pictures_beyond_the_encoder_are_refused() {
    for (width, height) in [(16u32, 3856u32), (3856, 16), (2176, 2176)] {
        let mut encoder = OpenH264Encoder::new(width, height, 30, 1000).unwrap();
        let y = vec![128u8; (width * height) as usize];
        let chroma = vec![128u8; (width * height / 4) as usize];
        assert!(encoder.encode_frame(&y, &chroma, &chroma).is_err());
    }
}

fn tile(data: Vec<u8>) -> DirtyTile {
    DirtyTile {
        tile_x: 3,
        tile_y: 4,
        pixel_width: 8,
        pixel_height: 8,
        data,
    }
}

#[test]
fn tiles_are_compressed_where_that_makes_them_shorter() {
    let flat = vec![7u8; 4096];
    let short = vec![1u8, 2, 3];
    let mut encoder = ZstdEncoder::new(3);
    let out = encoder
        .encode_tiles(&[tile(flat.clone()), tile(short.clone())])
        .unwrap();
    assert_eq!(out.len(), 2);
    assert_eq!(out[0].encoding, TileEncoding::Zstd);
    assert!(out[0].data.len() < flat.len());
    assert_ne!(out[0].data, flat);
    assert_eq!(zstd::decode_all(out[0].data.as_slice()).unwrap(), flat);
    assert_eq!(out[0].data, zstd::encode_all(flat.as_slice(), 3).unwrap());
    assert_eq!(out[1].encoding, TileEncoding::Raw);
    assert_eq!(out[1].data, short);
    assert_eq!((out[1].tile_x, out[1].tile_y), (3, 4));
    assert_eq!((out[1].pixel_width, out[1].pixel_height), (8, 8));
    assert_eq!(decode_tile(&out[0]).unwrap(), flat);
    assert_eq!(decode_tile(&out[1]).unwrap(), short);
    let broken = encode_tile(&tile(flat), vec![1, 2, 3]);
    assert!(matches!(decode_tile(&broken), Err(TileError::Decompress(_))));
    assert!(encoder.encode_tiles(&[]).unwrap().is_empty());
}

#[test]
fn a_tile_that_does_not_shrink_is_sent_raw() {
    let t = tile(vec![1, 2, 3, 4]);
    assert_eq!(encode_tile(&t, vec![9, 9, 9, 9]).encoding, TileEncoding::Raw);
    let shorter = encode_tile(&t, vec![9, 9, 9]);
    assert_eq!(shorter.encoding, TileEncoding::Zstd);
    assert_eq!(shorter.data, vec![9, 9, 9]);
}
