//! Bit-string encodings of H.264 slice-header fields (H.264 §7.2, §9.1)
//! and the law that the slice-header parse reads encoded fields back.

use vstd::prelude::*;

use crate::h264::{
    bit_at, bits_value, slice_rbsp, spec_dec_ref_pic_marking, spec_deblocking_fields, spec_mmco_loop, spec_ref_pic_list_modification, spec_rplm_loop, spec_header_fields,
    spec_list_modifications, spec_parse_slice_for_va, spec_pre_list_fields, spec_se, spec_slice_tail,
    spec_slice_trailer, spec_switching_fields, spec_ue, total_bits, two_pow, uses_weighted_prediction,
    BitstreamFailure, H264Pps, H264SliceHeader, H264SliceVaInfo, H264Sps,
};

verus! {

/// The bits `b` (each 0 or 1) stand in `d` from bit `pos` on, inside the data.
pub open spec fn bits_at(d: Seq<u8>, pos: nat, b: Seq<nat>) -> bool {
    &&& pos + b.len() <= total_bits(d)
    &&& forall|i: int| 0 <= i < b.len() ==> bit_at(d, (pos + i) as nat) == #[trigger] b[i]
}

/// `v` written in `n` bits, most significant first.
pub open spec fn binary(v: nat, n: nat) -> Seq<nat>
    decreases n,
{
    if n == 0 {
        Seq::empty()
    } else {
        binary(v / 2, (n - 1) as nat).push(v % 2)
    }
}

/// The largest `k` with `2^k <= x` (0 for `x < 2`).
pub open spec fn log2_floor(x: nat) -> nat
    decreases x,
{
    if x < 2 {
        0
    } else {
        1 + log2_floor(x / 2)
    }
}

/// `n` zero bits.
pub open spec fn zeros(n: nat) -> Seq<nat> {
    Seq::new(n, |i: int| 0nat)
}

/// The Exp-Golomb code `ue(v)` of `v` (H.264 §9.1): as many zero bits as
/// `v + 1` has bits after its leading one, a one, then those bits.
pub open spec fn ue_code(v: nat) -> Seq<nat> {
    let z = log2_floor(v + 1);
    zeros(z) + seq![1nat] + binary((v + 1 - two_pow(z)) as nat, z)
}

/// The code number of a signed value (H.264 §9.1.1): positive values odd,
/// the others even.
pub open spec fn se_code_number(v: int) -> nat {
    if v > 0 { (2 * v - 1) as nat } else { (-2 * v) as nat }
}

/// The Exp-Golomb code `se(v)` of `v`.
pub open spec fn se_code(v: int) -> Seq<nat> {
    ue_code(se_code_number(v))
}

proof fn lemma_two_pow_pos(n: nat)
    ensures
        two_pow(n) >= 1,
    decreases n,
{
    if n > 0 {
        lemma_two_pow_pos((n - 1) as nat);
    }
}

proof fn lemma_two_pow_mono(a: nat, b: nat)
    requires
        a <= b,
    ensures
        two_pow(a) <= two_pow(b),
    decreases b,
{
    if a < b {
        lemma_two_pow_mono(a, (b - 1) as nat);
        lemma_two_pow_pos((b - 1) as nat);
    }
}

proof fn lemma_log2_bounds(x: nat)
    requires
        x >= 1,
    ensures
        two_pow(log2_floor(x)) <= x < two_pow(log2_floor(x) + 1),
    decreases x,
{
    if x >= 2 {
        let k = log2_floor(x / 2);
        lemma_log2_bounds(x / 2);
        assert(log2_floor(x) == k + 1);
        assert(two_pow(k + 1) == 2 * two_pow(k));
        assert(two_pow(k + 2) == 2 * two_pow(k + 1));
        assert(2 * (x / 2) <= x < 2 * (x / 2) + 2);
    } else {
        assert(log2_floor(x) == 0);
        assert(two_pow(1) == 2 * two_pow(0));
        assert(two_pow(0) == 1);
    }
}

proof fn lemma_binary_len(v: nat, n: nat)
    ensures
        binary(v, n).len() == n,
    decreases n,
{
    if n > 0 {
        lemma_binary_len(v / 2, (n - 1) as nat);
    }
}

/// The bits of a concatenation stand where its parts do.
pub proof fn lemma_bits_split(d: Seq<u8>, pos: nat, a: Seq<nat>, b: Seq<nat>)
    requires
        bits_at(d, pos, a + b),
    ensures
        bits_at(d, pos, a),
        bits_at(d, pos + a.len(), b),
{
    assert forall|i: int| 0 <= i < a.len() implies bit_at(d, (pos + i) as nat) == #[trigger] a[i] by {
        assert((a + b)[i] == a[i]);
    }
    assert forall|i: int| 0 <= i < b.len() implies bit_at(d, (pos + a.len() + i) as nat) == #[trigger] b[i] by {
        assert((a + b)[a.len() + i] == b[i]);
    }
}

/// A `u(n)` field holding `v < 2^n` reads back as `v`.
pub proof fn lemma_binary_reads_back(d: Seq<u8>, pos: nat, v: nat, n: nat)
    requires
        v < two_pow(n),
        bits_at(d, pos, binary(v, n)),
    ensures
        bits_value(d, pos, n) == v,
    decreases n,
{
    if n > 0 {
        let n1 = (n - 1) as nat;
        lemma_binary_len(v / 2, n1);
        assert(binary(v, n) =~= binary(v / 2, n1) + seq![v % 2]);
        lemma_bits_split(d, pos, binary(v / 2, n1), seq![v % 2]);
        assert(v / 2 < two_pow(n1));
        lemma_binary_reads_back(d, pos, v / 2, n1);
        assert(bit_at(d, (pos + n1) as nat) == seq![v % 2][0]);
    }
}

proof fn lemma_ue_zeros_count(d: Seq<u8>, pos: nat, z: nat, k: nat)
    requires
        k <= z < 32,
        pos + z < total_bits(d),
        bit_at(d, pos + z) == 1,
        forall|i: nat| k <= i < z ==> #[trigger] bit_at(d, pos + i) == 0,
    ensures
        crate::h264::ue_zeros(d, pos, k) == z,
    decreases z - k,
{
    if k < z {
        lemma_ue_zeros_count(d, pos, z, k + 1);
    }
}

/// A `ue(v)` field holding `v < 2^32 - 1` reads back as `v`.
pub proof fn lemma_ue_reads_back(d: Seq<u8>, pos: nat, v: nat)
    requires
        v + 1 < two_pow(32),
        bits_at(d, pos, ue_code(v)),
    ensures
        spec_ue(d, pos) == Ok::<(u32, nat), BitstreamFailure>((v as u32, pos + ue_code(v).len())),
{
    let z = log2_floor(v + 1);
    let s = (v + 1 - two_pow(z)) as nat;
    lemma_log2_bounds(v + 1);
    if z >= 32 {
        lemma_two_pow_mono(32, z);
    }
    assert(z < 32);
    lemma_binary_len(s, z);
    let head = zeros(z) + seq![1nat];
    lemma_bits_split(d, pos, head, binary(s, z));
    lemma_bits_split(d, pos, zeros(z), seq![1nat]);
    assert(bit_at(d, pos + z) == 1) by {
        assert(seq![1nat][0] == 1);
    }
    assert forall|i: nat| 0 <= i < z implies #[trigger] bit_at(d, pos + i) == 0 by {
        assert(zeros(z)[i as int] == 0);
    }
    lemma_ue_zeros_count(d, pos, z, 0);
    assert(s < two_pow(z)) by {
        assert(two_pow(z + 1) == 2 * two_pow(z));
    }
    lemma_binary_reads_back(d, pos + z + 1, s, z);
}

/// An `se(v)` field holding `|v| < 2^31` reads back as `v`.
pub proof fn lemma_se_reads_back(d: Seq<u8>, pos: nat, v: int)
    requires
        -0x7fff_ffff <= v <= 0x7fff_ffff,
        bits_at(d, pos, se_code(v)),
    ensures
        spec_se(d, pos) == Ok::<(i32, nat), BitstreamFailure>((v as i32, pos + se_code(v).len())),
{
    lemma_two_pow_32();
    let code = se_code_number(v);
    lemma_ue_reads_back(d, pos, code);
    if v > 0 {
        assert((code as u32) % 2 == 1);
        assert(((code as u32) as int + 1) / 2 == v);
    } else if v < 0 {
        assert((code as u32) % 2 == 0);
        assert((code as u32) / 2 == -v);
    }
}

proof fn lemma_two_pow_32()
    ensures
        two_pow(32) == 0x1_0000_0000,
{
    reveal_with_fuel(two_pow, 33);
}

/// `1` for a set flag, `0` otherwise.
pub open spec fn flag_bit(b: bool) -> nat {
    if b { 1 } else { 0 }
}

/// `field_pic_flag` and `bottom_field_flag` of `h` as written under `sps`.
pub open spec fn field_bits(h: H264SliceHeader, sps: H264Sps) -> Seq<nat> {
    if sps.frame_mbs_only_flag {
        Seq::empty()
    } else if h.field_pic_flag {
        seq![1nat, flag_bit(h.bottom_field_flag)]
    } else {
        seq![0nat]
    }
}

/// `idr_pic_id` of `h`, where it has one.
pub open spec fn idr_bits(h: H264SliceHeader) -> Seq<nat> {
    match h.idr_pic_id {
        Some(id) => ue_code(id as nat),
        None => Seq::empty(),
    }
}

/// The picture-order-count fields of `h` as written under `sps` and `pps`,
/// with the deltas `delta0` and `delta1` where they are called for.
pub open spec fn poc_bits(h: H264SliceHeader, delta0: int, delta1: int, sps: H264Sps, pps: H264Pps) -> Seq<nat> {
    let bottom_delta = pps.bottom_field_pic_order_in_frame_present_flag && !h.field_pic_flag;
    if sps.pic_order_cnt_type == 0 {
        binary(h.pic_order_cnt_lsb as nat, sps.log2_max_pic_order_cnt_lsb_minus4 as nat + 4) + (if bottom_delta {
            se_code(delta0)
        } else {
            Seq::empty()
        })
    } else if sps.pic_order_cnt_type == 1 && !sps.delta_pic_order_always_zero_flag {
        se_code(delta0) + (if bottom_delta {
            se_code(delta1)
        } else {
            Seq::empty()
        })
    } else {
        Seq::empty()
    }
}

/// The slice-header fields of `h` written out as H.264 §7.3.3 lays them
/// out, from `first_mb_in_slice` through the picture-order-count fields:
/// `colour_plane_id` where the SPS has separate colour planes, and the
/// picture-order-count deltas `delta0` and `delta1` where the SPS and PPS
/// call for them.
pub open spec fn header_bits(
    h: H264SliceHeader,
    colour_plane_id: nat,
    delta0: int,
    delta1: int,
    sps: H264Sps,
    pps: H264Pps,
) -> Seq<nat> {
    ue_code(h.first_mb_in_slice as nat) + ue_code(h.slice_type as nat) + ue_code(h.pic_parameter_set_id as nat) + (
    if sps.separate_colour_plane_flag {
        binary(colour_plane_id, 2)
    } else {
        Seq::empty()
    }) + binary(h.frame_num as nat, sps.log2_max_frame_num_minus4 as nat + 4) + field_bits(h, sps) + idr_bits(h)
        + poc_bits(h, delta0, delta1, sps, pps)
}

/// `h` and the other fields can be written as a slice header of NAL type
/// `nal_type` under `sps`: every value fits its field, the flags agree with
/// the SPS, an IDR slice (and only one) has an `idr_pic_id`, and without
/// picture-order-count type 0 the LSB field is 0.
pub open spec fn header_encodable(
    h: H264SliceHeader,
    colour_plane_id: nat,
    delta0: int,
    delta1: int,
    nal_type: u8,
    sps: H264Sps,
) -> bool {
    &&& h.first_mb_in_slice < 0xffff_ffff
    &&& colour_plane_id < 4
    &&& sps.log2_max_frame_num_minus4 <= 28
    &&& h.frame_num < two_pow(sps.log2_max_frame_num_minus4 as nat + 4)
    &&& sps.frame_mbs_only_flag ==> !h.field_pic_flag
    &&& !h.field_pic_flag ==> !h.bottom_field_flag
    &&& (nal_type == 5) == (h.idr_pic_id is Some)
    &&& h.idr_pic_id matches Some(id) ==> id < 0xffff_ffff
    &&& sps.pic_order_cnt_type == 0 ==> sps.log2_max_pic_order_cnt_lsb_minus4 <= 28 && h.pic_order_cnt_lsb < two_pow(
        sps.log2_max_pic_order_cnt_lsb_minus4 as nat + 4,
    )
    &&& sps.pic_order_cnt_type != 0 ==> h.pic_order_cnt_lsb == 0
    &&& -0x7fff_ffff <= delta0 <= 0x7fff_ffff
    &&& -0x7fff_ffff <= delta1 <= 0x7fff_ffff
}

/// Parsing the header fields of a slice whose RBSP begins with the fields
/// of `h` written as H.264 lays them out gives `h` back, and stops right
/// after them: each field is read at its own position with its own width
/// (`frame_num` in `log2_max_frame_num_minus4 + 4` bits,
/// `pic_order_cnt_lsb` in `log2_max_pic_order_cnt_lsb_minus4 + 4` bits).
#[verifier::spinoff_prover]
#[verifier::rlimit(40)]
pub proof fn law_header_fields_read_back(
    d: Seq<u8>,
    h: H264SliceHeader,
    colour_plane_id: nat,
    delta0: int,
    delta1: int,
    nal_type: u8,
    sps: H264Sps,
    pps: H264Pps,
)
    requires
        header_encodable(h, colour_plane_id, delta0, delta1, nal_type, sps),
        bits_at(d, 0, header_bits(h, colour_plane_id, delta0, delta1, sps, pps)),
    ensures
        spec_header_fields(d, nal_type, sps, pps) == Ok::<(H264SliceHeader, nat), BitstreamFailure>(
            (h, header_bits(h, colour_plane_id, delta0, delta1, sps, pps).len()),
        ),
{
    lemma_two_pow_32();
    let nf = sps.log2_max_frame_num_minus4 as nat + 4;
    let a1 = ue_code(h.first_mb_in_slice as nat);
    let a2 = ue_code(h.slice_type as nat);
    let a3 = ue_code(h.pic_parameter_set_id as nat);
    let c = if sps.separate_colour_plane_flag { binary(colour_plane_id, 2) } else { Seq::<nat>::empty() };
    let f = binary(h.frame_num as nat, nf);
    let fl = field_bits(h, sps);
    let id = idr_bits(h);
    let poc = poc_bits(h, delta0, delta1, sps, pps);
    let s2 = a1 + a2;
    let s3 = s2 + a3;
    let s4 = s3 + c;
    let s5 = s4 + f;
    let s6 = s5 + fl;
    let s7 = s6 + id;
    assert(s7 + poc == header_bits(h, colour_plane_id, delta0, delta1, sps, pps));
    lemma_bits_split(d, 0, s7, poc);
    lemma_bits_split(d, 0, s6, id);
    lemma_bits_split(d, 0, s5, fl);
    lemma_bits_split(d, 0, s4, f);
    lemma_bits_split(d, 0, s3, c);
    lemma_bits_split(d, 0, s2, a3);
    lemma_bits_split(d, 0, a1, a2);
    lemma_ue_reads_back(d, 0, h.first_mb_in_slice as nat);
    lemma_ue_reads_back(d, a1.len(), h.slice_type as nat);
    lemma_ue_reads_back(d, s2.len(), h.pic_parameter_set_id as nat);
    lemma_binary_len(colour_plane_id, 2);
    let p4: nat = s4.len();
    assert(p4 == (if sps.separate_colour_plane_flag { s3.len() + 2 } else { s3.len() }));
    lemma_binary_len(h.frame_num as nat, nf);
    lemma_binary_reads_back(d, p4, h.frame_num as nat, nf);
    lemma_field_flags_read_back(d, s5.len(), h, sps);
    lemma_idr_read_back(d, s6.len(), h, nal_type);
    lemma_poc_read_back(d, s7.len(), h, delta0, delta1, sps, pps);
    assert(spec_ue(d, 0) == Ok::<(u32, nat), BitstreamFailure>((h.first_mb_in_slice, a1.len())));
    assert(spec_ue(d, a1.len()) == Ok::<(u32, nat), BitstreamFailure>((h.slice_type as u32, s2.len())));
    assert(spec_ue(d, s2.len()) == Ok::<(u32, nat), BitstreamFailure>((h.pic_parameter_set_id as u32, s3.len())));
    assert(bits_value(d, p4, nf) as u32 == h.frame_num);
}

proof fn lemma_field_flags_read_back(d: Seq<u8>, pos: nat, h: H264SliceHeader, sps: H264Sps)
    requires
        sps.frame_mbs_only_flag ==> !h.field_pic_flag,
        !h.field_pic_flag ==> !h.bottom_field_flag,
        bits_at(d, pos, field_bits(h, sps)),
    ensures
        crate::h264::spec_field_flags(d, pos, sps) == (h.field_pic_flag, h.bottom_field_flag, pos + field_bits(h, sps).len()),
{
    let fl = field_bits(h, sps);
    if !sps.frame_mbs_only_flag {
        assert(bit_at(d, pos) == fl[0]);
        if h.field_pic_flag {
            assert(bit_at(d, pos + 1) == fl[1]);
        }
    }
}

proof fn lemma_idr_read_back(d: Seq<u8>, pos: nat, h: H264SliceHeader, nal_type: u8)
    requires
        (nal_type == 5) == (h.idr_pic_id is Some),
        h.idr_pic_id matches Some(id) ==> id < 0xffff_ffff,
        bits_at(d, pos, idr_bits(h)),
    ensures
        nal_type == 5 ==> spec_ue(d, pos) == Ok::<(u32, nat), BitstreamFailure>(
            (h.idr_pic_id->Some_0, pos + idr_bits(h).len()),
        ),
        nal_type != 5 ==> idr_bits(h).len() == 0,
{
    lemma_two_pow_32();
    if let Some(v) = h.idr_pic_id {
        lemma_ue_reads_back(d, pos, v as nat);
    }
}

#[verifier::spinoff_prover]
#[verifier::rlimit(40)]
proof fn lemma_poc_read_back(d: Seq<u8>, pos: nat, h: H264SliceHeader, delta0: int, delta1: int, sps: H264Sps, pps: H264Pps)
    requires
        sps.pic_order_cnt_type == 0 ==> sps.log2_max_pic_order_cnt_lsb_minus4 <= 28 && h.pic_order_cnt_lsb < two_pow(
            sps.log2_max_pic_order_cnt_lsb_minus4 as nat + 4,
        ),
        sps.pic_order_cnt_type != 0 ==> h.pic_order_cnt_lsb == 0,
        -0x7fff_ffff <= delta0 <= 0x7fff_ffff,
        -0x7fff_ffff <= delta1 <= 0x7fff_ffff,
        bits_at(d, pos, poc_bits(h, delta0, delta1, sps, pps)),
    ensures
        crate::h264::spec_poc_fields(d, pos, sps, pps, h.field_pic_flag) == Ok::<(u32, nat), BitstreamFailure>(
            (h.pic_order_cnt_lsb, pos + poc_bits(h, delta0, delta1, sps, pps).len()),
        ),
{
    lemma_two_pow_32();
    let n = sps.log2_max_pic_order_cnt_lsb_minus4 as nat + 4;
    let bottom_delta = pps.bottom_field_pic_order_in_frame_present_flag && !h.field_pic_flag;
    let d0 = se_code(delta0);
    let d1 = se_code(delta1);
    if sps.pic_order_cnt_type == 0 {
        let lsb_bits = binary(h.pic_order_cnt_lsb as nat, n);
        lemma_binary_len(h.pic_order_cnt_lsb as nat, n);
        let tail = if bottom_delta { d0 } else { Seq::<nat>::empty() };
        lemma_bits_split(d, pos, lsb_bits, tail);
        lemma_binary_reads_back(d, pos, h.pic_order_cnt_lsb as nat, n);
        if bottom_delta {
            lemma_se_reads_back(d, pos + n, delta0);
        }
    } else if sps.pic_order_cnt_type == 1 && !sps.delta_pic_order_always_zero_flag {
        let tail = if bottom_delta { d1 } else { Seq::<nat>::empty() };
        lemma_bits_split(d, pos, d0, tail);
        lemma_se_reads_back(d, pos, delta0);
        if bottom_delta {
            lemma_se_reads_back(d, pos + d0.len(), delta1);
        }
    }
}

/// The slice-header fields after the picture-order-count fields that the
/// VA-API parse reads past (H.264 §7.3.3), besides the reference list
/// modifications and the memory-management operations.
pub struct SliceTailFields {
    pub redundant_pic_cnt: u32,
    pub direct_spatial_mv_pred_flag: bool,
    pub num_ref_idx_active_override_flag: bool,
    pub num_ref_idx_l0_active_minus1: u32,
    pub num_ref_idx_l1_active_minus1: u32,
    pub no_output_of_prior_pics_flag: bool,
    pub long_term_reference_flag: bool,
    pub cabac_init_idc: u32,
    pub slice_qp_delta: i32,
    pub sp_for_switch_flag: bool,
    pub slice_qs_delta: i32,
    pub disable_deblocking_filter_idc: u32,
    pub slice_alpha_c0_offset_div2: i32,
    pub slice_beta_offset_div2: i32,
}

/// Every value of `t` fits its field and lies in the range H.264 gives it.
pub open spec fn tail_encodable(t: SliceTailFields) -> bool {
    &&& t.redundant_pic_cnt < 0xffff_ffff
    &&& t.num_ref_idx_l0_active_minus1 < 0xffff_ffff
    &&& t.num_ref_idx_l1_active_minus1 < 0xffff_ffff
    &&& t.cabac_init_idc <= 2
    &&& -128 <= t.slice_qp_delta <= 127
    &&& -0x7fff_ffff <= t.slice_qs_delta <= 0x7fff_ffff
    &&& t.disable_deblocking_filter_idc <= 2
    &&& -0x7fff_ffff <= t.slice_alpha_c0_offset_div2 <= 0x7fff_ffff
    &&& -0x7fff_ffff <= t.slice_beta_offset_div2 <= 0x7fff_ffff
}

/// `redundant_pic_cnt`, `direct_spatial_mv_pred_flag` and the
/// `num_ref_idx_active_override_flag` fields of a slice of type `st5`
/// (0 P, 1 B, 2 I, 3 SP, 4 SI).
pub open spec fn pre_list_bits(t: SliceTailFields, st5: u8, pps: H264Pps) -> Seq<nat> {
    (if pps.redundant_pic_cnt_present_flag {
        ue_code(t.redundant_pic_cnt as nat)
    } else {
        Seq::empty()
    }) + (if st5 == 1 {
        seq![flag_bit(t.direct_spatial_mv_pred_flag)]
    } else {
        Seq::empty()
    }) + (if st5 == 0 || st5 == 1 || st5 == 3 {
        if t.num_ref_idx_active_override_flag {
            seq![1nat] + ue_code(t.num_ref_idx_l0_active_minus1 as nat) + (if st5 == 1 {
                ue_code(t.num_ref_idx_l1_active_minus1 as nat)
            } else {
                Seq::empty()
            })
        } else {
            seq![0nat]
        }
    } else {
        Seq::empty()
    })
}

/// The modification operations of one reference picture list, each a
/// `modification_of_pic_nums_idc` (0, 1 or 2) and its operand, closed by
/// the code 3.
pub open spec fn rplm_bits(ops: Seq<(nat, nat)>) -> Seq<nat>
    decreases ops.len(),
{
    if ops.len() == 0 {
        ue_code(3)
    } else {
        ue_code(ops[0].0) + ue_code(ops[0].1) + rplm_bits(ops.drop_first())
    }
}

/// Every operation of `ops` is a list modification H.264 defines, with an
/// operand that fits `ue(v)`.
pub open spec fn rplm_ops_valid(ops: Seq<(nat, nat)>) -> bool {
    forall|i: int| 0 <= i < ops.len() ==> (#[trigger] ops[i]).0 <= 2 && ops[i].1 < 0xffff_ffff
}

/// One list's `ref_pic_list_modification_flag` and, when set, its
/// operations.
pub open spec fn list_bits(ops: Seq<(nat, nat)>) -> Seq<nat> {
    if ops.len() == 0 {
        seq![0nat]
    } else {
        seq![1nat] + rplm_bits(ops)
    }
}

/// `ref_pic_list_modification()` of a slice of type `st5`: list 0 for P,
/// SP and B slices, list 1 for B slices.
pub open spec fn list_mod_bits(st5: u8, l0: Seq<(nat, nat)>, l1: Seq<(nat, nat)>) -> Seq<nat> {
    if st5 == 2 || st5 == 4 {
        Seq::empty()
    } else if st5 == 1 {
        list_bits(l0) + list_bits(l1)
    } else {
        list_bits(l0)
    }
}

/// One memory-management operation: its number (1 to 6) and its operands
/// (two for operation 3, none for 5, one otherwise).
pub open spec fn mmco_op_bits(op: (nat, nat, nat)) -> Seq<nat> {
    if op.0 == 3 {
        ue_code(3) + ue_code(op.1) + ue_code(op.2)
    } else if op.0 == 5 {
        ue_code(5)
    } else {
        ue_code(op.0) + ue_code(op.1)
    }
}

/// The memory-management operations `ops`, closed by the code 0.
pub open spec fn mmco_bits(ops: Seq<(nat, nat, nat)>) -> Seq<nat>
    decreases ops.len(),
{
    if ops.len() == 0 {
        ue_code(0)
    } else {
        mmco_op_bits(ops[0]) + mmco_bits(ops.drop_first())
    }
}

/// Every operation of `ops` is one H.264 defines, with operands that fit
/// `ue(v)`.
pub open spec fn mmco_ops_valid(ops: Seq<(nat, nat, nat)>) -> bool {
    forall|i: int|
        0 <= i < ops.len() ==> 1 <= (#[trigger] ops[i]).0 <= 6 && ops[i].1 < 0xffff_ffff && ops[i].2 < 0xffff_ffff
}

/// `dec_ref_pic_marking()` of a reference slice: the two IDR flags; or,
/// outside IDR pictures, sliding-window marking (no operations) or the
/// adaptive operations `mmco`.
pub open spec fn marking_bits(t: SliceTailFields, nal_type: u8, nal_ref_idc: u8, mmco: Seq<(nat, nat, nat)>) -> Seq<nat> {
    if nal_ref_idc == 0 {
        Seq::empty()
    } else if nal_type == 5 || nal_type == 20 {
        seq![flag_bit(t.no_output_of_prior_pics_flag), flag_bit(t.long_term_reference_flag)]
    } else if mmco.len() == 0 {
        seq![0nat]
    } else {
        seq![1nat] + mmco_bits(mmco)
    }
}

/// `sp_for_switch_flag` (SP) and `slice_qs_delta` (SP and SI).
pub open spec fn switching_bits(t: SliceTailFields, st5: u8) -> Seq<nat> {
    (if st5 == 3 {
        seq![flag_bit(t.sp_for_switch_flag)]
    } else {
        Seq::empty()
    }) + (if st5 == 3 || st5 == 4 {
        se_code(t.slice_qs_delta as int)
    } else {
        Seq::empty()
    })
}

/// `disable_deblocking_filter_idc` and, unless it is 1, the two filter
/// offsets, where the PPS signals them.
pub open spec fn deblocking_bits(t: SliceTailFields, pps: H264Pps) -> Seq<nat> {
    if pps.deblocking_filter_control_present_flag {
        ue_code(t.disable_deblocking_filter_idc as nat) + (if t.disable_deblocking_filter_idc != 1 {
            se_code(t.slice_alpha_c0_offset_div2 as int) + se_code(t.slice_beta_offset_div2 as int)
        } else {
            Seq::empty()
        })
    } else {
        Seq::empty()
    }
}

/// `cabac_init_idc`, `slice_qp_delta`, the switching-slice fields and the
/// deblocking fields.
pub open spec fn trailer_bits(t: SliceTailFields, st5: u8, pps: H264Pps) -> Seq<nat> {
    (if pps.entropy_coding_mode_flag && st5 != 2 && st5 != 4 {
        ue_code(t.cabac_init_idc as nat)
    } else {
        Seq::empty()
    }) + se_code(t.slice_qp_delta as int) + switching_bits(t, st5) + deblocking_bits(t, pps)
}

/// A whole slice header as H.264 §7.3.3 lays it out, up to the slice data.
pub open spec fn slice_header_bits(
    h: H264SliceHeader,
    colour_plane_id: nat,
    delta0: int,
    delta1: int,
    t: SliceTailFields,
    l0: Seq<(nat, nat)>,
    l1: Seq<(nat, nat)>,
    mmco: Seq<(nat, nat, nat)>,
    nal_type: u8,
    nal_ref_idc: u8,
    sps: H264Sps,
    pps: H264Pps,
) -> Seq<nat> {
    let st5 = h.slice_type % 5;
    header_bits(h, colour_plane_id, delta0, delta1, sps, pps) + pre_list_bits(t, st5, pps) + list_mod_bits(st5, l0, l1)
        + marking_bits(t, nal_type, nal_ref_idc, mmco) + trailer_bits(t, st5, pps)
}

#[verifier::spinoff_prover]
#[verifier::rlimit(40)]
proof fn lemma_pre_list_read_back(d: Seq<u8>, pos: nat, t: SliceTailFields, st5: u8, pps: H264Pps)
    requires
        tail_encodable(t),
        bits_at(d, pos, pre_list_bits(t, st5, pps)),
    ensures
        spec_pre_list_fields(d, pos, st5, pps) == Ok::<nat, BitstreamFailure>(pos + pre_list_bits(t, st5, pps).len()),
{
    lemma_two_pow_32();
    let r = if pps.redundant_pic_cnt_present_flag { ue_code(t.redundant_pic_cnt as nat) } else { Seq::<nat>::empty() };
    let dsp = if st5 == 1 { seq![flag_bit(t.direct_spatial_mv_pred_flag)] } else { Seq::<nat>::empty() };
    let l1 = if st5 == 1 { ue_code(t.num_ref_idx_l1_active_minus1 as nat) } else { Seq::<nat>::empty() };
    let ov_set = seq![1nat] + ue_code(t.num_ref_idx_l0_active_minus1 as nat) + l1;
    let ov = if st5 == 0 || st5 == 1 || st5 == 3 {
        if t.num_ref_idx_active_override_flag { ov_set } else { seq![0nat] }
    } else {
        Seq::<nat>::empty()
    };
    assert(pre_list_bits(t, st5, pps) == r + dsp + ov);
    lemma_bits_split(d, pos, r + dsp, ov);
    lemma_bits_split(d, pos, r, dsp);
    if pps.redundant_pic_cnt_present_flag {
        lemma_ue_reads_back(d, pos, t.redundant_pic_cnt as nat);
    }
    let p2 = pos + r.len() + dsp.len();
    if st5 == 0 || st5 == 1 || st5 == 3 {
        assert(bit_at(d, p2) == ov[0]);
        if t.num_ref_idx_active_override_flag {
            lemma_bits_split(d, p2, seq![1nat] + ue_code(t.num_ref_idx_l0_active_minus1 as nat), l1);
            lemma_bits_split(d, p2, seq![1nat], ue_code(t.num_ref_idx_l0_active_minus1 as nat));
            lemma_ue_reads_back(d, p2 + 1, t.num_ref_idx_l0_active_minus1 as nat);
            if st5 == 1 {
                lemma_ue_reads_back(d, p2 + 1 + ue_code(t.num_ref_idx_l0_active_minus1 as nat).len(), t.num_ref_idx_l1_active_minus1 as nat);
            }
        }
    }
}

#[verifier::spinoff_prover]
#[verifier::rlimit(40)]
proof fn lemma_rplm_read_back(d: Seq<u8>, pos: nat, ops: Seq<(nat, nat)>)
    requires
        rplm_ops_valid(ops),
        bits_at(d, pos, rplm_bits(ops)),
    ensures
        spec_rplm_loop(d, pos) == Ok::<nat, BitstreamFailure>(pos + rplm_bits(ops).len()),
    decreases ops.len(),
{
    lemma_two_pow_32();
    lemma_ue_code_nonempty(3);
    if ops.len() == 0 {
        lemma_ue_reads_back(d, pos, 3);
    } else {
        let a = ue_code(ops[0].0);
        let b = ue_code(ops[0].1);
        let rest = ops.drop_first();
        assert(rplm_bits(ops) == a + b + rplm_bits(rest));
        lemma_bits_split(d, pos, a + b, rplm_bits(rest));
        lemma_bits_split(d, pos, a, b);
        lemma_ue_code_nonempty(ops[0].0);
        lemma_ue_reads_back(d, pos, ops[0].0);
        lemma_ue_reads_back(d, pos + a.len(), ops[0].1);
        assert(rplm_ops_valid(rest)) by {
            assert forall|i: int| 0 <= i < rest.len() implies (#[trigger] rest[i]).0 <= 2 && rest[i].1 < 0xffff_ffff by {
                assert(rest[i] == ops[i + 1]);
            }
        }
        lemma_rplm_read_back(d, pos + a.len() + b.len(), rest);
    }
}

proof fn lemma_ue_code_nonempty(v: nat)
    ensures
        ue_code(v).len() >= 1,
{
}

proof fn lemma_list_read_back(d: Seq<u8>, pos: nat, ops: Seq<(nat, nat)>)
    requires
        rplm_ops_valid(ops),
        bits_at(d, pos, list_bits(ops)),
    ensures
        spec_ref_pic_list_modification(d, pos) == Ok::<nat, BitstreamFailure>(pos + list_bits(ops).len()),
{
    let b = list_bits(ops);
    assert(bit_at(d, pos) == b[0]);
    if ops.len() > 0 {
        lemma_bits_split(d, pos, seq![1nat], rplm_bits(ops));
        lemma_rplm_read_back(d, pos + 1, ops);
    }
}

proof fn lemma_list_mods_read_back(d: Seq<u8>, pos: nat, st5: u8, l0: Seq<(nat, nat)>, l1: Seq<(nat, nat)>)
    requires
        rplm_ops_valid(l0),
        rplm_ops_valid(l1),
        bits_at(d, pos, list_mod_bits(st5, l0, l1)),
    ensures
        spec_list_modifications(d, pos, st5) == Ok::<nat, BitstreamFailure>(pos + list_mod_bits(st5, l0, l1).len()),
{
    if !(st5 == 2 || st5 == 4) {
        if st5 == 1 {
            lemma_bits_split(d, pos, list_bits(l0), list_bits(l1));
            lemma_list_read_back(d, pos, l0);
            lemma_list_read_back(d, pos + list_bits(l0).len(), l1);
        } else {
            lemma_list_read_back(d, pos, l0);
        }
    }
}

#[verifier::spinoff_prover]
#[verifier::rlimit(40)]
proof fn lemma_mmco_read_back(d: Seq<u8>, pos: nat, ops: Seq<(nat, nat, nat)>)
    requires
        mmco_ops_valid(ops),
        bits_at(d, pos, mmco_bits(ops)),
    ensures
        spec_mmco_loop(d, pos) == Ok::<nat, BitstreamFailure>(pos + mmco_bits(ops).len()),
    decreases ops.len(),
{
    lemma_two_pow_32();
    if ops.len() == 0 {
        lemma_ue_reads_back(d, pos, 0);
    } else {
        let op = ops[0];
        let rest = ops.drop_first();
        let ob = mmco_op_bits(op);
        assert(mmco_bits(ops) == ob + mmco_bits(rest));
        lemma_bits_split(d, pos, ob, mmco_bits(rest));
        lemma_ue_code_nonempty(op.0);
        if op.0 == 3 {
            lemma_bits_split(d, pos, ue_code(3) + ue_code(op.1), ue_code(op.2));
            lemma_bits_split(d, pos, ue_code(3), ue_code(op.1));
            lemma_ue_reads_back(d, pos, 3);
            lemma_ue_reads_back(d, pos + ue_code(3).len(), op.1);
            lemma_ue_reads_back(d, pos + ue_code(3).len() + ue_code(op.1).len(), op.2);
        } else if op.0 == 5 {
            lemma_ue_reads_back(d, pos, 5);
        } else {
            lemma_bits_split(d, pos, ue_code(op.0), ue_code(op.1));
            lemma_ue_reads_back(d, pos, op.0);
            lemma_ue_reads_back(d, pos + ue_code(op.0).len(), op.1);
        }
        assert(mmco_ops_valid(rest)) by {
            assert forall|i: int| 0 <= i < rest.len() implies 1 <= (#[trigger] rest[i]).0 <= 6 && rest[i].1 < 0xffff_ffff
                && rest[i].2 < 0xffff_ffff by {
                assert(rest[i] == ops[i + 1]);
            }
        }
        lemma_mmco_read_back(d, pos + ob.len(), rest);
    }
}

proof fn lemma_marking_read_back(
    d: Seq<u8>,
    pos: nat,
    t: SliceTailFields,
    nal_type: u8,
    nal_ref_idc: u8,
    mmco: Seq<(nat, nat, nat)>,
)
    requires
        mmco_ops_valid(mmco),
        bits_at(d, pos, marking_bits(t, nal_type, nal_ref_idc, mmco)),
    ensures
        nal_ref_idc != 0 ==> spec_dec_ref_pic_marking(d, pos, nal_type, nal_ref_idc) == Ok::<nat, BitstreamFailure>(
            pos + marking_bits(t, nal_type, nal_ref_idc, mmco).len(),
        ),
        nal_ref_idc == 0 ==> marking_bits(t, nal_type, nal_ref_idc, mmco).len() == 0,
{
    let b = marking_bits(t, nal_type, nal_ref_idc, mmco);
    if nal_ref_idc != 0 && !(nal_type == 5 || nal_type == 20) {
        assert(bit_at(d, pos) == b[0]);
        if mmco.len() > 0 {
            lemma_bits_split(d, pos, seq![1nat], mmco_bits(mmco));
            lemma_mmco_read_back(d, pos + 1, mmco);
        }
    }
}

proof fn lemma_switching_read_back(d: Seq<u8>, pos: nat, t: SliceTailFields, st5: u8)
    requires
        tail_encodable(t),
        bits_at(d, pos, switching_bits(t, st5)),
    ensures
        spec_switching_fields(d, pos, st5) == Ok::<nat, BitstreamFailure>(pos + switching_bits(t, st5).len()),
{
    let sp = if st5 == 3 { seq![flag_bit(t.sp_for_switch_flag)] } else { Seq::<nat>::empty() };
    let qs = if st5 == 3 || st5 == 4 { se_code(t.slice_qs_delta as int) } else { Seq::<nat>::empty() };
    lemma_bits_split(d, pos, sp, qs);
    if st5 == 3 || st5 == 4 {
        lemma_se_reads_back(d, pos + sp.len(), t.slice_qs_delta as int);
    }
}

#[verifier::spinoff_prover]
#[verifier::rlimit(40)]
proof fn lemma_deblocking_read_back(d: Seq<u8>, pos: nat, t: SliceTailFields, pps: H264Pps)
    requires
        tail_encodable(t),
        bits_at(d, pos, deblocking_bits(t, pps)),
    ensures
        spec_deblocking_fields(d, pos, pps) == Ok::<(u8, nat), BitstreamFailure>((
            if pps.deblocking_filter_control_present_flag { t.disable_deblocking_filter_idc as u8 } else { 0 },
            pos + deblocking_bits(t, pps).len(),
        )),
{
    lemma_two_pow_32();
    if pps.deblocking_filter_control_present_flag {
        let idc = ue_code(t.disable_deblocking_filter_idc as nat);
        let alpha = se_code(t.slice_alpha_c0_offset_div2 as int);
        let beta = se_code(t.slice_beta_offset_div2 as int);
        let offs = if t.disable_deblocking_filter_idc != 1 { alpha + beta } else { Seq::<nat>::empty() };
        lemma_bits_split(d, pos, idc, offs);
        lemma_ue_reads_back(d, pos, t.disable_deblocking_filter_idc as nat);
        if t.disable_deblocking_filter_idc != 1 {
            let pa = pos + idc.len();
            lemma_bits_split(d, pa, alpha, beta);
            lemma_se_reads_back(d, pa, t.slice_alpha_c0_offset_div2 as int);
            lemma_se_reads_back(d, pa + alpha.len(), t.slice_beta_offset_div2 as int);
        }
    }
}

#[verifier::spinoff_prover]
#[verifier::rlimit(40)]
proof fn lemma_trailer_read_back(d: Seq<u8>, pos: nat, h: H264SliceHeader, t: SliceTailFields, pps: H264Pps)
    requires
        tail_encodable(t),
        bits_at(d, pos, trailer_bits(t, h.slice_type % 5, pps)),
        8 + pos + trailer_bits(t, h.slice_type % 5, pps).len() <= 65535,
    ensures
        spec_slice_trailer(d, pos, h, pps) == Ok::<H264SliceVaInfo, BitstreamFailure>(
            H264SliceVaInfo {
                header: h,
                slice_data_bit_offset: (8 + pos + trailer_bits(t, h.slice_type % 5, pps).len()) as u16,
                slice_qp_delta: t.slice_qp_delta as i8,
                disable_deblocking_filter_idc: if pps.deblocking_filter_control_present_flag {
                    t.disable_deblocking_filter_idc as u8
                } else {
                    0
                },
                cabac_init_idc: if pps.entropy_coding_mode_flag && h.slice_type % 5 != 2 && h.slice_type % 5 != 4 {
                    t.cabac_init_idc as u8
                } else {
                    0
                },
            },
        ),
{
    lemma_two_pow_32();
    let st5 = h.slice_type % 5;
    let cab = if pps.entropy_coding_mode_flag && st5 != 2 && st5 != 4 {
        ue_code(t.cabac_init_idc as nat)
    } else {
        Seq::<nat>::empty()
    };
    let qp = se_code(t.slice_qp_delta as int);
    let sw = switching_bits(t, st5);
    let db = deblocking_bits(t, pps);
    lemma_bits_split(d, pos, cab + qp + sw, db);
    lemma_bits_split(d, pos, cab + qp, sw);
    lemma_bits_split(d, pos, cab, qp);
    if pps.entropy_coding_mode_flag && st5 != 2 && st5 != 4 {
        lemma_ue_reads_back(d, pos, t.cabac_init_idc as nat);
    }
    let p5 = pos + cab.len();
    lemma_se_reads_back(d, p5, t.slice_qp_delta as int);
    let p6 = p5 + qp.len();
    lemma_switching_read_back(d, p6, t, st5);
    let p7 = p6 + sw.len();
    lemma_deblocking_read_back(d, p7, t, pps);
}

/// Parsing a slice NAL whose RBSP holds a slice header written as H.264
/// §7.3.3 lays it out, with list modifications `l0` and `l1` and marking
/// operations `mmco` (and without the weighted prediction or slice groups
/// the parse refuses), gives back its header
/// fields, `slice_qp_delta`, `disable_deblocking_filter_idc` and
/// `cabac_init_idc` (0 where the header has none), and puts the slice data
/// right after the header: 8 bits for the NAL header byte plus the header's
/// length.
#[verifier::spinoff_prover]
#[verifier::rlimit(100)]
pub proof fn law_slice_read_back(
    nal: Seq<u8>,
    h: H264SliceHeader,
    colour_plane_id: nat,
    delta0: int,
    delta1: int,
    t: SliceTailFields,
    l0: Seq<(nat, nat)>,
    l1: Seq<(nat, nat)>,
    mmco: Seq<(nat, nat, nat)>,
    sps: H264Sps,
    pps: H264Pps,
)
    requires
        nal.len() > 0,
        rplm_ops_valid(l0),
        rplm_ops_valid(l1),
        mmco_ops_valid(mmco),
        header_encodable(h, colour_plane_id, delta0, delta1, nal[0] & 0x1fu8, sps),
        tail_encodable(t),
        !uses_weighted_prediction(pps, h.slice_type % 5),
        (nal[0] & 0x1fu8) == 20 || pps.num_slice_groups_minus1 == 0 || h.slice_type % 5 == 1 || h.slice_type % 5 == 4,
        bits_at(
            slice_rbsp(nal),
            0,
            slice_header_bits(h, colour_plane_id, delta0, delta1, t, l0, l1, mmco, nal[0] & 0x1fu8, (nal[0] >> 5u8) & 3u8, sps, pps),
        ),
        8 + slice_header_bits(h, colour_plane_id, delta0, delta1, t, l0, l1, mmco, nal[0] & 0x1fu8, (nal[0] >> 5u8) & 3u8, sps, pps).len()
            <= 65535,
    ensures
        spec_parse_slice_for_va(nal, sps, pps) == Ok::<H264SliceVaInfo, BitstreamFailure>(
            H264SliceVaInfo {
                header: h,
                slice_data_bit_offset: (8 + slice_header_bits(
                    h,
                    colour_plane_id,
                    delta0,
                    delta1,
                    t,
                    l0,
                    l1,
                    mmco,
                    nal[0] & 0x1fu8,
                    (nal[0] >> 5u8) & 3u8,
                    sps,
                    pps,
                ).len()) as u16,
                slice_qp_delta: t.slice_qp_delta as i8,
                disable_deblocking_filter_idc: if pps.deblocking_filter_control_present_flag {
                    t.disable_deblocking_filter_idc as u8
                } else {
                    0
                },
                cabac_init_idc: if pps.entropy_coding_mode_flag && h.slice_type % 5 != 2 && h.slice_type % 5 != 4 {
                    t.cabac_init_idc as u8
                } else {
                    0
                },
            },
        ),
{
    let nal_type = nal[0] & 0x1fu8;
    let nal_ref_idc = (nal[0] >> 5u8) & 3u8;
    let st5 = h.slice_type % 5;
    let d = slice_rbsp(nal);
    let hb = header_bits(h, colour_plane_id, delta0, delta1, sps, pps);
    let rest = pre_list_bits(t, st5, pps) + list_mod_bits(st5, l0, l1) + marking_bits(t, nal_type, nal_ref_idc, mmco);
    let tr = trailer_bits(t, st5, pps);
    assert(slice_header_bits(h, colour_plane_id, delta0, delta1, t, l0, l1, mmco, nal_type, nal_ref_idc, sps, pps) =~= hb
        + rest + tr);
    lemma_bits_split(d, 0, hb + rest, tr);
    lemma_bits_split(d, 0, hb, rest);
    law_header_fields_read_back(d, h, colour_plane_id, delta0, delta1, nal_type, sps, pps);
    lemma_tail_read_back(d, hb.len(), nal_type, nal_ref_idc, h, t, l0, l1, mmco, pps);
    lemma_trailer_read_back(d, hb.len() + rest.len(), h, t, pps);
    assert(spec_header_fields(d, nal_type, sps, pps) == Ok::<(H264SliceHeader, nat), BitstreamFailure>((h, hb.len())));
}

#[verifier::spinoff_prover]
#[verifier::rlimit(40)]
proof fn lemma_tail_read_back(
    d: Seq<u8>,
    pos: nat,
    nal_type: u8,
    nal_ref_idc: u8,
    h: H264SliceHeader,
    t: SliceTailFields,
    l0: Seq<(nat, nat)>,
    l1: Seq<(nat, nat)>,
    mmco: Seq<(nat, nat, nat)>,
    pps: H264Pps,
)
    requires
        tail_encodable(t),
        rplm_ops_valid(l0),
        rplm_ops_valid(l1),
        mmco_ops_valid(mmco),
        !uses_weighted_prediction(pps, h.slice_type % 5),
        nal_type == 20 || pps.num_slice_groups_minus1 == 0 || h.slice_type % 5 == 1 || h.slice_type % 5 == 4,
        bits_at(
            d,
            pos,
            pre_list_bits(t, h.slice_type % 5, pps) + list_mod_bits(h.slice_type % 5, l0, l1) + marking_bits(
                t,
                nal_type,
                nal_ref_idc,
                mmco,
            ),
        ),
    ensures
        spec_slice_tail(d, pos, nal_type, nal_ref_idc, h, pps) == spec_slice_trailer(
            d,
            pos + (pre_list_bits(t, h.slice_type % 5, pps) + list_mod_bits(h.slice_type % 5, l0, l1) + marking_bits(
                t,
                nal_type,
                nal_ref_idc,
                mmco,
            )).len(),
            h,
            pps,
        ),
{
    let st5 = h.slice_type % 5;
    let pl = pre_list_bits(t, st5, pps);
    let lm = list_mod_bits(st5, l0, l1);
    let mk = marking_bits(t, nal_type, nal_ref_idc, mmco);
    lemma_bits_split(d, pos, pl + lm, mk);
    lemma_bits_split(d, pos, pl, lm);
    lemma_pre_list_read_back(d, pos, t, st5, pps);
    lemma_list_mods_read_back(d, pos + pl.len(), st5, l0, l1);
    lemma_marking_read_back(d, pos + pl.len() + lm.len(), t, nal_type, nal_ref_idc, mmco);
}

} // verus!
