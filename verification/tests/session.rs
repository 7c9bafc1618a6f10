//! Encoder session book-keeping and decoder output layout.

use std::time::Duration;

use vidcodec::mediacodec::h264::{
    decoder_output_step, encoder_output_step, input_step, tight_frame, tight_frame_fits_exec,
    update_output_dimensions, DrainAction, EncoderDrainAction, EncoderOutputEvent, InputAction, InputEvent,
    OutputEvent, OutputLayout, BUFFER_FLAG_CODEC_CONFIG, BUFFER_FLAG_END_OF_STREAM,
};
use vidcodec::mf::h264::{input_wait_step, InputWait};
use vidcodec::nvenc::decode::{
    display_action, display_result, surface_layout, DisplayAction, DisplayAnswer, MappedPicture,
};
use vidcodec::session::EncoderSession;
use vidcodec::{BitstreamFormat, EncoderConfig, Error, PixelFormat, VideoFrame};

fn nv12_frame(pixels: &[u8], pts: Duration) -> VideoFrame<'_> {
    VideoFrame { pixels, width: 4, height: 2, format: PixelFormat::Nv12, pts }
}

#[test]
fn first_frame_and_gop_boundaries_are_idr() {
    let mut config = EncoderConfig::new(4, 2, (30, 1));
    config.gop_size = 3;
    let mut session = EncoderSession::new(config);
    let pixels = [7u8; 12];
    let mut idrs = Vec::new();
    for i in 0..7u64 {
        let prepared = session.prepare_frame(&nv12_frame(&pixels, Duration::from_millis(i))).unwrap();
        assert_eq!(prepared.pixels, pixels.to_vec());
        idrs.push(prepared.idr);
        session.record_frame(Duration::from_millis(i));
    }
    assert_eq!(idrs, vec![true, false, false, true, false, false, true]);
    assert_eq!(session.last_encoded_pts(), Some(Duration::from_millis(6)));
}

#[test]
fn forced_keyframe_applies_once() {
    let mut session = EncoderSession::new(EncoderConfig::new(4, 2, (30, 1)));
    let pixels = [0u8; 12];
    assert!(session.prepare_frame(&nv12_frame(&pixels, Duration::ZERO)).unwrap().idr);
    session.record_frame(Duration::ZERO);
    assert!(!session.prepare_frame(&nv12_frame(&pixels, Duration::ZERO)).unwrap().idr);
    session.record_frame(Duration::ZERO);
    session.force_keyframe();
    assert!(session.prepare_frame(&nv12_frame(&pixels, Duration::ZERO)).unwrap().idr);
    session.record_frame(Duration::ZERO);
    assert!(!session.prepare_frame(&nv12_frame(&pixels, Duration::ZERO)).unwrap().idr);
}

#[test]
fn rejected_frame_leaves_keyframe_request() {
    let mut session = EncoderSession::new(EncoderConfig::new(4, 2, (30, 1)));
    let short = [0u8; 5];
    assert_eq!(
        session.prepare_frame(&nv12_frame(&short, Duration::ZERO)).err(),
        Some(Error::PixelBufferMismatch { expected: 12, actual: 5 })
    );
    let pixels = [0u8; 12];
    assert!(session.prepare_frame(&nv12_frame(&pixels, Duration::ZERO)).unwrap().idr);
}

#[test]
fn i420_input_is_converted() {
    let config = EncoderConfig::new(4, 2, (30, 1)).with_input_format(PixelFormat::I420);
    let mut session = EncoderSession::new(config);
    let mut i420: Vec<u8> = (0..8).collect();
    i420.extend_from_slice(&[100, 101, 200, 201]);
    let frame = VideoFrame {
        pixels: &i420,
        width: 4,
        height: 2,
        format: PixelFormat::I420,
        pts: Duration::ZERO,
    };
    let prepared = session.prepare_frame(&frame).unwrap();
    assert_eq!(prepared.pixels, vec![0, 1, 2, 3, 4, 5, 6, 7, 100, 200, 101, 201]);
}

#[test]
fn output_units_capture_parameter_sets() {
    let config = EncoderConfig::new(4, 2, (30, 1)).with_bitstream(BitstreamFormat::LengthPrefixed);
    let mut session = EncoderSession::new(config);
    assert_eq!(session.parameter_sets(), None);
    let idr_au = [0, 0, 0, 1, 0x67, 0x42, 0, 0, 0, 1, 0x68, 0xce, 0, 0, 0, 1, 0x65, 0x88];
    let unit = session.output_unit(&idr_au, false, Duration::from_millis(3)).unwrap();
    assert!(unit.is_keyframe);
    assert_eq!(unit.bitstream, BitstreamFormat::LengthPrefixed);
    assert_eq!(
        unit.data,
        vec![0, 0, 0, 2, 0x67, 0x42, 0, 0, 0, 2, 0x68, 0xce, 0, 0, 0, 2, 0x65, 0x88]
    );
    assert_eq!(
        session.parameter_sets(),
        Some(vec![0, 0, 0, 1, 0x67, 0x42, 0, 0, 0, 1, 0x68, 0xce])
    );
    let p_au = [0, 0, 0, 1, 0x41, 0x9a];
    let unit = session.output_unit(&p_au, false, Duration::from_millis(4)).unwrap();
    assert!(!unit.is_keyframe);
    assert_eq!(
        session.parameter_sets(),
        Some(vec![0, 0, 0, 1, 0x67, 0x42, 0, 0, 0, 1, 0x68, 0xce])
    );
    session.record_codec_config(vec![1, 2, 3]);
    assert_eq!(session.parameter_sets(), Some(vec![1, 2, 3]));
}

#[test]
fn mf_samples_are_reframed_and_counted() {
    let mut session = EncoderSession::new(EncoderConfig::new(4, 2, (30, 1)));
    let sample = [0, 0, 0, 2, 0x65, 0x88];
    let unit = session.output_sample(&sample, false, Duration::from_millis(9)).unwrap();
    assert_eq!(unit.data, vec![0, 0, 0, 1, 0x65, 0x88]);
    assert!(unit.is_keyframe);
    assert_eq!(session.last_encoded_pts(), Some(Duration::from_millis(9)));
    assert_eq!(
        session.output_sample(&[0, 0, 0, 9, 1], false, Duration::ZERO).err(),
        Some(Error::Backend { message: "invalid bitstream data: length-prefixed NAL overrun".to_string() })
    );
}

#[test]
fn reconfigure_and_bitrate() {
    let mut session = EncoderSession::new(EncoderConfig::new(4, 2, (30, 1)));
    let pixels = [0u8; 12];
    session.prepare_frame(&nv12_frame(&pixels, Duration::ZERO)).unwrap();
    session.record_frame(Duration::ZERO);
    session.set_bitrate(500_000);
    assert_eq!(session.config().bitrate, 500_000);
    session.reconfigure(EncoderConfig::new(4, 2, (15, 1)));
    assert_eq!(session.config().frame_rate, (15, 1));
    assert!(session.prepare_frame(&nv12_frame(&pixels, Duration::ZERO)).unwrap().idr);
    assert_eq!(session.last_encoded_pts(), Some(Duration::ZERO));
    session.reconfigure_keep_count(EncoderConfig::new(4, 2, (30, 1)));
    assert!(session.prepare_frame(&nv12_frame(&pixels, Duration::ZERO)).unwrap().idr);
}

#[test]
fn output_dimensions_follow_format_changes() {
    let mut layout = OutputLayout { width: 0, height: 0, stride: 0, slice_height: 0 };
    assert!(update_output_dimensions(&mut layout, Some(640), Some(480), None, Some(496)));
    assert_eq!(layout, OutputLayout { width: 640, height: 480, stride: 640, slice_height: 496 });
    assert!(!update_output_dimensions(&mut layout, None, None, Some(704), None));
    assert_eq!(layout, OutputLayout { width: 640, height: 480, stride: 704, slice_height: 480 });
    assert!(update_output_dimensions(&mut layout, Some(-5), None, None, None));
    assert_eq!(layout.width, 0);
}

#[test]
fn decoded_buffers_are_copied_tight() {
    let layout = OutputLayout { width: 2, height: 2, stride: 3, slice_height: 3 };
    let raw = [1u8, 2, 9, 3, 4, 9, 9, 9, 9, 5, 6, 9];
    assert!(tight_frame_fits_exec(&raw, &layout));
    let frame = tight_frame(&raw, &layout, PixelFormat::Nv12, Duration::from_millis(1));
    assert_eq!(frame.pixels, vec![1, 2, 3, 4, 5, 6]);
    assert_eq!((frame.width, frame.height), (2, 2));
    assert!(!tight_frame_fits_exec(&raw[..8], &layout));
}

#[test]
fn nvdec_surface_layout() {
    let s = surface_layout(1920, 1088, 0, 0, 1920, 1080, 2);
    assert_eq!((s.target_width, s.target_height), (1920, 1080));
    assert_eq!(s.num_decode_surfaces, 4);
    assert_eq!(s.parser_surfaces, 2);
    let s = surface_layout(320, 240, 10, 10, 5, 5, 8);
    assert_eq!((s.target_width, s.target_height), (320, 240));
    assert_eq!(s.num_decode_surfaces, 8);
    assert_eq!(s.parser_surfaces, 8);
    let s = surface_layout(64, 64, 0, 0, 0, 0, 0);
    assert_eq!((s.num_decode_surfaces, s.parser_surfaces), (4, 1));
}

#[test]
fn nvdec_display_callback_decisions() {
    assert_eq!(display_action(false, 64, 64), DisplayAction::Drop);
    assert_eq!(display_action(true, 0, 64), DisplayAction::Drop);
    assert_eq!(display_action(true, 64, 0), DisplayAction::Drop);
    assert_eq!(display_action(true, 64, 64), DisplayAction::MapAndCopy);

    let pts = Duration::from_millis(40);
    let mut frames = Vec::new();
    let a = display_result(&mut frames, MappedPicture::MapFailed, 2, 2, PixelFormat::Nv12, pts);
    assert_eq!(a, DisplayAnswer { answer: 0, unmap: false });
    assert!(frames.is_empty());
    let a = display_result(&mut frames, MappedPicture::CopyFailed, 2, 2, PixelFormat::Nv12, pts);
    assert_eq!(a, DisplayAnswer { answer: 0, unmap: true });
    assert!(frames.is_empty());
    let a = display_result(&mut frames, MappedPicture::Copied(vec![1, 2, 3, 4, 5, 6]), 2, 2, PixelFormat::Nv12, pts);
    assert_eq!(a, DisplayAnswer { answer: 1, unmap: true });
    assert_eq!(frames.len(), 1);
    assert_eq!(frames[0].pixels, vec![1, 2, 3, 4, 5, 6]);
    assert_eq!((frames[0].width, frames[0].height, frames[0].format, frames[0].pts), (2, 2, PixelFormat::Nv12, pts));
}

#[test]
fn decoder_drain_steps() {
    let mut layout = OutputLayout { width: 0, height: 0, stride: 0, slice_height: 0 };
    let size_change = OutputEvent::FormatChanged { width: Some(2), height: Some(2), stride: Some(3), slice_height: Some(3) };
    let step = decoder_output_step(&mut layout, size_change, PixelFormat::Nv12);
    assert!(!step.release && matches!(step.action, DrainAction::Skip));
    assert_eq!(layout, OutputLayout { width: 2, height: 2, stride: 3, slice_height: 3 });

    let picture = OutputEvent::Buffer {
        flags: 0,
        size: 12,
        payload: vec![1, 2, 9, 3, 4, 9, 9, 9, 9, 5, 6, 9],
        presentation_time_us: 40_000,
    };
    let step = decoder_output_step(&mut layout, picture, PixelFormat::Nv12);
    assert!(step.release);
    match step.action {
        DrainAction::Emit(frame) => {
            assert_eq!(frame.pixels, vec![1, 2, 3, 4, 5, 6]);
            assert_eq!((frame.width, frame.height), (2, 2));
            assert_eq!(frame.pts, Duration::from_millis(40));
        }
        other => panic!("expected a frame, got {other:?}"),
    }

    let late = OutputEvent::Buffer { flags: 0, size: 12, payload: vec![0; 12], presentation_time_us: -7 };
    match decoder_output_step(&mut layout, late, PixelFormat::Nv12).action {
        DrainAction::Emit(frame) => assert_eq!(frame.pts, Duration::ZERO),
        other => panic!("expected a frame, got {other:?}"),
    }

    let empty = OutputEvent::Buffer { flags: 0, size: 0, payload: Vec::new(), presentation_time_us: 0 };
    let step = decoder_output_step(&mut layout, empty, PixelFormat::Nv12);
    assert!(step.release && matches!(step.action, DrainAction::Skip));

    let eos = OutputEvent::Buffer { flags: BUFFER_FLAG_END_OF_STREAM, size: 12, payload: vec![0; 12], presentation_time_us: 0 };
    let step = decoder_output_step(&mut layout, eos, PixelFormat::Nv12);
    assert!(step.release && matches!(step.action, DrainAction::Stop));

    let same_size = OutputEvent::FormatChanged { width: None, height: None, stride: Some(4), slice_height: None };
    let step = decoder_output_step(&mut layout, same_size, PixelFormat::Nv12);
    assert!(!step.release && matches!(step.action, DrainAction::Stop));
    assert_eq!(layout, OutputLayout { width: 2, height: 2, stride: 4, slice_height: 2 });

    let step = decoder_output_step(&mut layout, OutputEvent::TryAgain, PixelFormat::Nv12);
    assert!(!step.release && matches!(step.action, DrainAction::Stop));
}

#[test]
fn encoder_drain_steps() {
    let mut session = EncoderSession::new(EncoderConfig::new(4, 2, (30, 1)));
    let config = EncoderOutputEvent::Buffer {
        flags: BUFFER_FLAG_CODEC_CONFIG,
        buffer: vec![0, 0, 0, 1, 0x67, 0x42],
        offset: 0,
        size: 0,
        presentation_time_us: 0,
    };
    let step = encoder_output_step(&mut session, config);
    assert!(step.release && matches!(step.action, EncoderDrainAction::Skip));
    assert_eq!(session.parameter_sets(), Some(vec![0, 0, 0, 1, 0x67, 0x42]));

    let access_unit = EncoderOutputEvent::Buffer {
        flags: 0,
        buffer: vec![9, 0, 0, 0, 1, 0x65, 0x88, 9],
        offset: 1,
        size: 6,
        presentation_time_us: 40_000,
    };
    let step = encoder_output_step(&mut session, access_unit);
    assert!(step.release);
    match step.action {
        EncoderDrainAction::Emit(unit) => {
            assert_eq!(unit.data, vec![0, 0, 0, 1, 0x65, 0x88]);
            assert!(unit.is_keyframe);
            assert_eq!(unit.pts, Duration::from_millis(40));
        }
        other => panic!("expected a unit, got {other:?}"),
    }

    let step = encoder_output_step(&mut session, EncoderOutputEvent::Idle);
    assert!(!step.release && matches!(step.action, EncoderDrainAction::Stop));

    let mut av1 = EncoderSession::new(EncoderConfig::new(4, 2, (30, 1)).with_bitstream(BitstreamFormat::Av1Obu));
    let unit = EncoderOutputEvent::Buffer { flags: 0, buffer: vec![0, 0, 1, 0x65], offset: 0, size: 4, presentation_time_us: 0 };
    let step = encoder_output_step(&mut av1, unit);
    assert!(step.release);
    assert!(matches!(step.action, EncoderDrainAction::Fail(Error::InvalidConfig(_))));
}

#[test]
fn encoder_input_buffers() {
    assert_eq!(input_step(InputEvent::TryAgain, 12), Ok(InputAction::Retry));
    assert_eq!(input_step(InputEvent::Buffer { capacity: 12 }, 12), Ok(InputAction::Fill));
    assert_eq!(
        input_step(InputEvent::Buffer { capacity: 11 }, 12),
        Err(Error::backend("input buffer too small for frame".to_string()))
    );
}

#[test]
fn transform_input_wait() {
    assert_eq!(input_wait_step(0, true), Ok(InputWait::Ready));
    assert_eq!(input_wait_step(0, false), Ok(InputWait::PollAgain));
    assert_eq!(input_wait_step(98, false), Ok(InputWait::PollAgain));
    assert_eq!(input_wait_step(99, false), Err(Error::Backpressure));
    assert_eq!(input_wait_step(99, true), Ok(InputWait::Ready));
}

#[test]
fn transform_output_samples() {
    let mut session = EncoderSession::new(EncoderConfig::new(4, 2, (30, 1)));
    assert_eq!(
        session.output_samples(&Vec::new(), false, Duration::ZERO).err(),
        Some(Error::backend("encoder produced no output samples".to_string()))
    );
    let samples = vec![vec![0, 0, 0, 2, 0x65, 0x88], vec![0, 0, 0, 2, 0x41, 0x9a]];
    let units = session.output_samples(&samples, false, Duration::from_millis(5)).unwrap();
    assert_eq!(units.len(), 2);
    assert_eq!(units[0].data, vec![0, 0, 0, 1, 0x65, 0x88]);
    assert!(units[0].is_keyframe);
    assert_eq!(units[1].data, vec![0, 0, 0, 1, 0x41, 0x9a]);
    assert!(!units[1].is_keyframe);
    assert_eq!(session.last_encoded_pts(), Some(Duration::from_millis(5)));

    let bad = vec![vec![0, 0, 0, 2, 0x41, 0x9a], vec![0, 0, 0, 9, 1]];
    assert_eq!(
        session.output_samples(&bad, false, Duration::ZERO).err(),
        Some(Error::Backend { message: "invalid bitstream data: length-prefixed NAL overrun".to_string() })
    );
}
