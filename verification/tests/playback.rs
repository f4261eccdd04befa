//! Position mapping, clip opening and frame caching.

use voop::clip::{Clip, ContainerInfo, DecodeError, Size, VideoStreamInfo};
use voop::frame::DecodedFrame;
use voop::position::{frame_index, Position};

fn tagged_frame(width: u32, height: u32, tag: u8) -> DecodedFrame {
    let stride = 4 * width;
    let data = vec![tag; (stride * height) as usize];
    DecodedFrame::new(width, height, stride, data)
}

fn open_clip(width: u32, height: u32) -> Clip {
    let info = ContainerInfo {
        video: Some(VideoStreamInfo {
            stream_index: 0,
            width,
            height,
            codec_supported: true,
        }),
    };
    Clip::new(info).unwrap()
}

#[test]
fn position_zero_selects_first_frame() {
    let p = Position::new(0, 1);
    assert_eq!(frame_index(&p, 100), 0);
}

#[test]
fn position_one_selects_last_frame() {
    let p = Position::new(1, 1);
    assert_eq!(frame_index(&p, 100), 99);
}

#[test]
fn position_half_of_hundred_selects_fifty() {
    // floor(0.5 * 100) = 50
    let p = Position::new(1, 2);
    assert_eq!(frame_index(&p, 100), 50);
}

#[test]
fn position_interior_floors() {
    // floor(1/3 * 7) = 2
    let p = Position::new(1, 3);
    assert_eq!(frame_index(&p, 7), 2);
}

#[test]
fn negative_position_clamps_to_first() {
    let p = Position::new(-3, 2);
    assert_eq!(frame_index(&p, 100), 0);
}

#[test]
fn position_beyond_one_clamps_to_last() {
    let p = Position::new(3, 2);
    assert_eq!(frame_index(&p, 100), 99);
}

#[test]
fn single_frame_clip_always_selects_it() {
    assert_eq!(frame_index(&Position::new(0, 1), 1), 0);
    assert_eq!(frame_index(&Position::new(1, 2), 1), 0);
    assert_eq!(frame_index(&Position::new(1, 1), 1), 0);
}

#[test]
fn from_millionths_scales_as_expected() {
    let p = Position::from_millionths(500_000);
    assert_eq!(frame_index(&p, 100), 50);
}

#[test]
fn open_without_video_stream_is_refused() {
    let r = Clip::new(ContainerInfo { video: None });
    match r {
        Err(e) => assert_eq!(e, DecodeError::NoVideoStream),
        Ok(_) => panic!("a container without a video stream must not open"),
    }
}

#[test]
fn open_with_unsupported_codec_is_refused() {
    let info = ContainerInfo {
        video: Some(VideoStreamInfo {
            stream_index: 2,
            width: 320,
            height: 240,
            codec_supported: false,
        }),
    };
    match Clip::new(info) {
        Err(e) => assert_eq!(e, DecodeError::CodecUnsupported),
        Ok(_) => panic!("an unsupported codec must not open"),
    }
}

#[test]
fn open_carries_stream_identity_and_empty_cache() {
    let info = ContainerInfo {
        video: Some(VideoStreamInfo {
            stream_index: 3,
            width: 320,
            height: 240,
            codec_supported: true,
        }),
    };
    let clip = Clip::new(info).unwrap();
    assert_eq!(clip.video_stream_index, 3);
    assert_eq!(clip.size.width(), 320);
    assert_eq!(clip.size.height(), 240);
    assert_eq!(clip.frame_count(), 0);
}

#[test]
fn size_reports_its_dimensions() {
    let s = Size::new(1920, 1080);
    assert_eq!(s.width(), 1920);
    assert_eq!(s.height(), 1080);
}

#[test]
fn packet_filter_accepts_only_selected_stream() {
    let clip = open_clip(8, 8);
    assert!(clip.accepts_packet(0));
    assert!(!clip.accepts_packet(1));
}

#[test]
fn cache_all_keeps_every_emitted_frame_in_order() {
    let mut clip = open_clip(2, 2);
    let emitted = vec![tagged_frame(2, 2, 10), tagged_frame(2, 2, 11)];
    let flushed = vec![tagged_frame(2, 2, 12)];
    let r = clip.cache_all_frames(emitted, flushed, false);
    assert!(r.is_ok());
    assert_eq!(clip.frame_count(), 3);
    assert_eq!(clip.frames[0].data[0], 10);
    assert_eq!(clip.frames[1].data[0], 11);
    assert_eq!(clip.frames[2].data[0], 12);
}

#[test]
fn cache_all_with_empty_flush_keeps_packet_frames() {
    let mut clip = open_clip(2, 2);
    let emitted = vec![tagged_frame(2, 2, 1)];
    let r = clip.cache_all_frames(emitted, Vec::new(), false);
    assert!(r.is_ok());
    assert_eq!(clip.frame_count(), 1);
}

#[test]
fn failed_cache_discards_partial_frames() {
    let mut clip = open_clip(2, 2);
    let emitted = vec![tagged_frame(2, 2, 1), tagged_frame(2, 2, 2)];
    let r = clip.cache_all_frames(emitted, Vec::new(), true);
    match r {
        Err(e) => assert_eq!(e, DecodeError::DecodeFailure),
        Ok(_) => panic!("a failed decode must not report success"),
    }
    assert_eq!(clip.frame_count(), 0);
}

#[test]
fn push_frame_appends_at_the_end() {
    let mut clip = open_clip(2, 2);
    clip.push_frame(tagged_frame(2, 2, 7));
    clip.push_frame(tagged_frame(2, 2, 8));
    assert_eq!(clip.frame_count(), 2);
    assert_eq!(clip.frames[0].data[0], 7);
    assert_eq!(clip.frames[1].data[0], 8);
}

#[test]
fn discard_frames_empties_the_cache() {
    let mut clip = open_clip(2, 2);
    clip.push_frame(tagged_frame(2, 2, 7));
    clip.discard_frames();
    assert_eq!(clip.frame_count(), 0);
}

#[test]
fn frame_at_selects_by_position() {
    let mut clip = open_clip(2, 2);
    for tag in 0..4u8 {
        clip.push_frame(tagged_frame(2, 2, tag));
    }
    assert_eq!(clip.frame_at(&Position::new(0, 1)).data[0], 0);
    assert_eq!(clip.frame_at(&Position::new(1, 2)).data[0], 2);
    assert_eq!(clip.frame_at(&Position::new(1, 1)).data[0], 3);
    assert_eq!(clip.frame_at(&Position::new(-1, 1)).data[0], 0);
    assert_eq!(clip.frame_at(&Position::new(9, 4)).data[0], 3);
}

#[test]
fn play_video_at_position_matches_frame_at() {
    let mut clip = open_clip(2, 2);
    for tag in 0..4u8 {
        clip.push_frame(tagged_frame(2, 2, tag));
    }
    let p = Position::new(1, 2);
    assert_eq!(
        clip.play_video_at_position(&p).data[0],
        clip.frame_at(&p).data[0]
    );
}
