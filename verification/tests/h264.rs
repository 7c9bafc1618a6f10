//! H.264 framing conversions and slice-header parsing.

use vidcodec::h264::{
    annex_b_parameter_sets_to_avcc, annex_b_to_length_prefixed, collect_parameter_sets_annex_b,
    contains_idr, from_annex_b, length_prefixed_to_annex_b, parse_slice_for_va,
    slice_data_bit_offset, strip_parameter_sets_annex_b, to_annex_b, BitstreamError, H264Pps,
    H264Sps,
};
use vidcodec::BitstreamFormat;

#[test]
fn avcc_roundtrip() {
    let annex = [0, 0, 0, 1, 0x67, 0x42, 0, 0, 1, 0x68, 0xee];
    let avcc = annex_b_to_length_prefixed(&annex);
    let back = length_prefixed_to_annex_b(&avcc).unwrap();
    assert_eq!(oxideav_bitstream::h264::split_annex_b(&back).len(), 2);

    let config = annex_b_parameter_sets_to_avcc(&annex).unwrap();
    assert_eq!(config[0], 1);
}

#[test]
fn avcc_record_of_truncated_sps() {
    let annex = [0, 0, 0, 1, 0x67, 0x42, 0, 0, 1, 0x68, 0xee];
    let config = annex_b_parameter_sets_to_avcc(&annex).unwrap();
    assert_eq!(config, vec![1, 0x42, 0, 0, 0xff, 0xe1, 0, 2, 0x67, 0x42, 1, 0, 2, 0x68, 0xee]);
}

#[test]
fn length_prefixed_framing_exact_bytes() {
    let annex = [0, 0, 0, 1, 0x67, 0x42, 0, 0, 1, 0x68, 0xee];
    let avcc = annex_b_to_length_prefixed(&annex);
    assert_eq!(avcc, vec![0, 0, 0, 2, 0x67, 0x42, 0, 0, 0, 2, 0x68, 0xee]);
    let back = length_prefixed_to_annex_b(&avcc).unwrap();
    assert_eq!(back, vec![0, 0, 0, 1, 0x67, 0x42, 0, 0, 0, 1, 0x68, 0xee]);
}

#[test]
fn length_prefixed_errors() {
    assert_eq!(
        length_prefixed_to_annex_b(&[0, 0, 0, 9, 1, 2]),
        Err(BitstreamError::InvalidData("length-prefixed NAL overrun".to_string()))
    );
    assert_eq!(
        length_prefixed_to_annex_b(&[0, 0, 0, 1, 0x65, 0, 0]),
        Err(BitstreamError::InvalidData("trailing length-prefixed bytes".to_string()))
    );
    assert_eq!(length_prefixed_to_annex_b(&[]), Ok(vec![]));
}

#[test]
fn parameter_sets_collected_and_stripped() {
    let au = [
        0, 0, 0, 1, 0x09, 0xf0, // AUD
        0, 0, 0, 1, 0x67, 0x42, // SPS
        0, 0, 1, 0x68, 0xce, // PPS
        0, 0, 0, 1, 0x65, 0x88, 0x84, // IDR slice
    ];
    assert_eq!(
        collect_parameter_sets_annex_b(&au),
        vec![0, 0, 0, 1, 0x67, 0x42, 0, 0, 0, 1, 0x68, 0xce]
    );
    assert_eq!(strip_parameter_sets_annex_b(&au), vec![0, 0, 0, 1, 0x65, 0x88, 0x84]);
    assert!(contains_idr(&au));
    assert!(!contains_idr(&[0, 0, 0, 1, 0x41, 0x9a]));
}

#[test]
fn to_and_from_annex_b() {
    let annex = [0, 0, 0, 1, 0x65, 0x88];
    let lp = from_annex_b(&annex, BitstreamFormat::LengthPrefixed).unwrap();
    assert_eq!(lp, vec![0, 0, 0, 2, 0x65, 0x88]);
    assert_eq!(to_annex_b(&lp, BitstreamFormat::LengthPrefixed).unwrap(), annex.to_vec());
    assert_eq!(from_annex_b(&annex, BitstreamFormat::AnnexB).unwrap(), annex.to_vec());
    assert_eq!(
        to_annex_b(&annex, BitstreamFormat::Av1Obu),
        Err(BitstreamError::Unsupported("AV1 OBU in H.264 context".to_string()))
    );
    assert_eq!(
        from_annex_b(&annex, BitstreamFormat::Av1Obu),
        Err(BitstreamError::Unsupported("AV1 OBU in H.264 context".to_string()))
    );
}

#[test]
fn avcc_record_layout() {
    let ps = [0, 0, 0, 1, 0x67, 0x42, 0xc0, 0x1e, 0, 0, 0, 1, 0x68, 0xce];
    let record = annex_b_parameter_sets_to_avcc(&ps).unwrap();
    assert_eq!(
        record,
        vec![1, 0x42, 0xc0, 0x1e, 0xff, 0xe1, 0, 4, 0x67, 0x42, 0xc0, 0x1e, 1, 0, 2, 0x68, 0xce]
    );
    assert!(annex_b_parameter_sets_to_avcc(&[0, 0, 0, 1, 0x68, 0xce]).is_err());
}

fn simple_sps() -> H264Sps {
    H264Sps {
        separate_colour_plane_flag: false,
        log2_max_frame_num_minus4: 0,
        frame_mbs_only_flag: true,
        pic_order_cnt_type: 2,
        log2_max_pic_order_cnt_lsb_minus4: 0,
        delta_pic_order_always_zero_flag: false,
    }
}

#[test]
fn parses_idr_slice_header() {
    // first_mb 0, slice_type 7, pps 0, frame_num 0, idr_pic_id 0,
    // dec_ref_pic_marking 00, slice_qp_delta 0: 17 header bits.
    let nal = [0x65, 0x88, 0x84, 0x80];
    let pps = H264Pps::default();
    let info = parse_slice_for_va(&nal, &simple_sps(), &pps).unwrap();
    assert_eq!(info.header.first_mb_in_slice, 0);
    assert_eq!(info.header.slice_type, 7);
    assert_eq!(info.header.pic_parameter_set_id, 0);
    assert_eq!(info.header.frame_num, 0);
    assert_eq!(info.header.idr_pic_id, Some(0));
    assert_eq!(info.slice_qp_delta, 0);
    assert_eq!(info.cabac_init_idc, 0);
    assert_eq!(info.disable_deblocking_filter_idc, 0);
    assert_eq!(info.slice_data_bit_offset, 25);
    assert_eq!(slice_data_bit_offset(&nal, &simple_sps(), &pps), Ok(25));
}

#[test]
fn deblocking_offsets_follow_enabled_filter() {
    // slice_qp_delta -2, disable_deblocking_filter_idc 0, then the alpha and
    // beta offsets (0 each) before the slice data.
    let nal = [0x65, 0x88, 0x84, 0x2F, 0x80];
    let pps = H264Pps { deblocking_filter_control_present_flag: true, ..H264Pps::default() };
    let info = parse_slice_for_va(&nal, &simple_sps(), &pps).unwrap();
    assert_eq!(info.disable_deblocking_filter_idc, 0);
    assert_eq!(info.slice_qp_delta, -2);
    assert_eq!(info.slice_data_bit_offset, 32);
}

#[test]
fn disabled_deblocking_has_no_offsets() {
    // slice_qp_delta 0, disable_deblocking_filter_idc 1: no offsets follow.
    let nal = [0x65, 0x88, 0x84, 0xA0];
    let pps = H264Pps { deblocking_filter_control_present_flag: true, ..H264Pps::default() };
    let info = parse_slice_for_va(&nal, &simple_sps(), &pps).unwrap();
    assert_eq!(info.disable_deblocking_filter_idc, 1);
    assert_eq!(info.slice_data_bit_offset, 28);
}

#[test]
fn empty_slice_fails_before_sps_is_read() {
    let sps = H264Sps {
        log2_max_frame_num_minus4: 200,
        pic_order_cnt_type: 0,
        log2_max_pic_order_cnt_lsb_minus4: 200,
        ..simple_sps()
    };
    assert_eq!(
        slice_data_bit_offset(&[], &sps, &H264Pps::default()),
        Err(BitstreamError::UnexpectedEnd("empty slice NAL".to_string()))
    );
}

#[test]
fn slice_parse_errors() {
    let pps = H264Pps::default();
    assert_eq!(
        parse_slice_for_va(&[], &simple_sps(), &pps),
        Err(BitstreamError::UnexpectedEnd("empty slice NAL".to_string()))
    );
    let weighted = H264Pps { weighted_pred_flag: true, ..H264Pps::default() };
    // P slice (slice_type 5), non-reference NAL: first_mb 0, type 5, pps 0,
    // frame_num 0, no num_ref_idx override, no list modification.
    let p_nal = [0x01, 0x9a, 0x00];
    assert_eq!(
        parse_slice_for_va(&p_nal, &simple_sps(), &weighted),
        Err(BitstreamError::Unsupported(
            "weighted prediction not supported for VA slice parse".to_string()
        ))
    );
}

#[test]
fn bitstream_error_messages() {
    assert_eq!(
        BitstreamError::InvalidData("x".to_string()).message(),
        "invalid bitstream data: x".to_string()
    );
    assert_eq!(
        BitstreamError::Unsupported("y".to_string()).message(),
        "unsupported bitstream feature: y".to_string()
    );
}

#[test]
fn slice_header_read_after_emulation_prevention() {
    // first_mb_in_slice = 2^22 - 1 needs 22 leading zero bits, so the EBSP
    // carries emulation-prevention bytes that the parse must drop.
    let nal = [0x65, 0x00, 0x00, 0x03, 0x02, 0x00, 0x00, 0x03, 0x00, 0x88, 0x48];
    let info = parse_slice_for_va(&nal, &simple_sps(), &H264Pps::default()).unwrap();
    assert_eq!(info.header.first_mb_in_slice, 4_194_303);
    assert_eq!(info.header.slice_type, 7);
    assert_eq!(info.header.idr_pic_id, Some(0));
    assert_eq!(info.slice_data_bit_offset, 69);
}

#[test]
fn unknown_mmco_is_reported_with_its_number() {
    // Reference P slice: no override, no list modification, then adaptive
    // marking whose first operation is 7.
    let nal = [0x61, 0x9a, 0x04, 0x40];
    assert_eq!(
        parse_slice_for_va(&nal, &simple_sps(), &H264Pps::default()),
        Err(BitstreamError::InvalidData(
            "unknown memory_management_control_operation 7".to_string()
        ))
    );
}

#[test]
fn reference_p_slice_header_order() {
    // num_ref_idx_active_override_flag 0, ref_pic_list_modification_flag_l0 0,
    // adaptive_ref_pic_marking_mode_flag 0, slice_qp_delta 0.
    let nal = [0x61, 0x9a, 0x03];
    let info = parse_slice_for_va(&nal, &simple_sps(), &H264Pps::default()).unwrap();
    assert_eq!(info.header.slice_type, 5);
    assert_eq!(info.header.idr_pic_id, None);
    assert_eq!(info.slice_qp_delta, 0);
    assert_eq!(info.slice_data_bit_offset, 23);

    // The same slice under CABAC carries cabac_init_idc 1 before slice_qp_delta.
    let cabac = H264Pps { entropy_coding_mode_flag: true, ..H264Pps::default() };
    let nal = [0x61, 0x9a, 0x01, 0x60];
    let info = parse_slice_for_va(&nal, &simple_sps(), &cabac).unwrap();
    assert_eq!(info.cabac_init_idc, 1);
    assert_eq!(info.slice_data_bit_offset, 26);
}

#[test]
fn intra_slice_has_no_cabac_init_idc() {
    // An IDR I slice under CABAC: slice_qp_delta follows the marking directly.
    let cabac = H264Pps { entropy_coding_mode_flag: true, ..H264Pps::default() };
    let info = parse_slice_for_va(&[0x65, 0x88, 0x84, 0x80], &simple_sps(), &cabac).unwrap();
    assert_eq!(info.cabac_init_idc, 0);
    assert_eq!(info.slice_data_bit_offset, 25);
}

#[test]
fn long_term_marking_operands_are_skipped() {
    // Reference P slice with adaptive marking: operation 3 (two operands),
    // operation 6 (one operand), then 0; slice_qp_delta 0 follows.
    let nal = [0x61, 0x9a, 0x04, 0x99, 0xfc];
    let info = parse_slice_for_va(&nal, &simple_sps(), &H264Pps::default()).unwrap();
    assert_eq!(info.slice_qp_delta, 0);
    assert_eq!(info.slice_data_bit_offset, 37);
}
