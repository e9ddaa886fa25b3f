use bls_boundary::{
    deliver_result, execute_precompile, g1_add_wrapper, g1_msm_wrapper, g2_add_wrapper,
    g2_msm_wrapper, map_fp2_to_g2_wrapper, map_fp_to_g1_wrapper, pairing_wrapper, run_operation,
    Operation, Status,
};

const SENTINEL: u8 = 0xAA;
const LEN_SENTINEL: usize = 12345;

type Entry = fn(Option<&[u8]>, Option<&mut [u8]>, Option<&mut usize>) -> i32;

fn hex(s: &str) -> Vec<u8> {
    (0..s.len())
        .step_by(2)
        .map(|i| u8::from_str_radix(&s[i..i + 2], 16).unwrap())
        .collect()
}

fn pad_fp(unpadded: &[u8]) -> Vec<u8> {
    let mut v = vec![0u8; 64 - unpadded.len()];
    v.extend_from_slice(unpadded);
    v
}

/// The standard generator of G1 in its padded 128-byte encoding.
fn g1_generator() -> Vec<u8> {
    let x = hex("17f1d3a73197d7942695638c4fa9ac0fc3688c4f9774b905a14e3a3f171bac586c55e83ff97a1aeffb3af00adb22c6bb");
    let y = hex("08b3f481e3aaa0f1a09e30ed741d8ae4fcf5e095d5d00af600db18cb2c04b3edd03cc744a2888ae40caa232946c5e7e1");
    let mut p = pad_fp(&x);
    p.extend(pad_fp(&y));
    p
}

fn scalar(v: u8) -> Vec<u8> {
    let mut s = vec![0u8; 32];
    s[31] = v;
    s
}

/// Runs an entry point on `input` with a sentinel-filled region of `capacity` bytes.
fn call(entry: Entry, input: &[u8], capacity: usize) -> (i32, Vec<u8>, usize) {
    let mut out = vec![SENTINEL; capacity];
    let mut len = LEN_SENTINEL;
    let code = entry(Some(input), Some(out.as_mut_slice()), Some(&mut len));
    (code, out, len)
}

#[test]
fn status_codes_are_stable() {
    assert_eq!(Status::Success.code(), 0);
    assert_eq!(Status::NullPointer.code(), -1);
    assert_eq!(Status::CapacityExceeded.code(), -2);
    assert_eq!(Status::ComputationFailed.code(), -4);
}

#[test]
fn g1_add_of_two_points_at_infinity() {
    let (code, out, len) = call(g1_add_wrapper, &[0u8; 256], 200);
    assert_eq!(code, 0);
    assert_eq!(len, 128);
    assert_eq!(&out[..128], &[0u8; 128][..]);
    assert!(out[128..].iter().all(|b| *b == SENTINEL));
}

#[test]
fn g1_add_generator_and_infinity_is_generator() {
    let g = g1_generator();
    let mut input = g.clone();
    input.extend(vec![0u8; 128]);
    let (code, out, len) = call(g1_add_wrapper, &input, 128);
    assert_eq!(code, 0);
    assert_eq!(len, 128);
    assert_eq!(out, g);
}

#[test]
fn g1_doubling_matches_msm_by_two() {
    let g = g1_generator();
    let mut sum_input = g.clone();
    sum_input.extend(g.clone());
    let (code, sum, len) = call(g1_add_wrapper, &sum_input, 128);
    assert_eq!(code, 0);
    assert_eq!(len, 128);
    assert_ne!(sum, g);

    let mut msm_input = g.clone();
    msm_input.extend(scalar(2));
    let (code, product, len) = call(g1_msm_wrapper, &msm_input, 128);
    assert_eq!(code, 0);
    assert_eq!(len, 128);
    assert_eq!(product, sum);
}

#[test]
fn g1_msm_empty_input_fails() {
    let (code, out, len) = call(g1_msm_wrapper, &[], 128);
    assert_eq!(code, -4);
    assert_eq!(len, LEN_SENTINEL);
    assert!(out.iter().all(|b| *b == SENTINEL));
}

#[test]
fn g1_msm_of_infinity_is_infinity() {
    let (code, out, len) = call(g1_msm_wrapper, &[0u8; 160], 128);
    assert_eq!(code, 0);
    assert_eq!(len, 128);
    assert_eq!(out, vec![0u8; 128]);
}

#[test]
fn g1_add_wrong_length_fails() {
    let (code, out, len) = call(g1_add_wrapper, &[0u8; 255], 128);
    assert_eq!(code, -4);
    assert_eq!(len, LEN_SENTINEL);
    assert!(out.iter().all(|b| *b == SENTINEL));
}

#[test]
fn g1_add_nonzero_padding_fails() {
    let mut input = vec![0u8; 256];
    input[0] = 1;
    let (code, _, len) = call(g1_add_wrapper, &input, 128);
    assert_eq!(code, -4);
    assert_eq!(len, LEN_SENTINEL);
}

#[test]
fn g1_add_point_off_curve_fails() {
    let mut input = vec![0u8; 256];
    input[127] = 1;
    let (code, _, len) = call(g1_add_wrapper, &input, 128);
    assert_eq!(code, -4);
    assert_eq!(len, LEN_SENTINEL);
}

#[test]
fn map_fp_to_g1_of_zero() {
    let (code, out, len) = call(map_fp_to_g1_wrapper, &[0u8; 64], 128);
    assert_eq!(code, 0);
    assert_eq!(len, 128);
    assert_ne!(out, vec![0u8; 128]);
}

#[test]
fn map_fp_to_g1_wrong_length_fails() {
    let (code, _, len) = call(map_fp_to_g1_wrapper, &[0u8; 63], 128);
    assert_eq!(code, -4);
    assert_eq!(len, LEN_SENTINEL);
}

#[test]
fn g2_add_of_two_points_at_infinity() {
    let (code, out, len) = call(g2_add_wrapper, &[0u8; 512], 256);
    assert_eq!(code, 0);
    assert_eq!(len, 256);
    assert_eq!(out, vec![0u8; 256]);
}

#[test]
fn g2_msm_of_infinity_is_infinity() {
    let (code, out, len) = call(g2_msm_wrapper, &[0u8; 288], 256);
    assert_eq!(code, 0);
    assert_eq!(len, 256);
    assert_eq!(out, vec![0u8; 256]);
}

#[test]
fn g2_msm_empty_input_fails() {
    let (code, _, len) = call(g2_msm_wrapper, &[], 256);
    assert_eq!(code, -4);
    assert_eq!(len, LEN_SENTINEL);
}

#[test]
fn map_fp2_to_g2_of_zero() {
    let (code, out, len) = call(map_fp2_to_g2_wrapper, &[0u8; 128], 256);
    assert_eq!(code, 0);
    assert_eq!(len, 256);
    assert_ne!(out, vec![0u8; 256]);
}

#[test]
fn pairing_of_infinities_holds() {
    let (code, out, len) = call(pairing_wrapper, &[0u8; 384], 32);
    assert_eq!(code, 0);
    assert_eq!(len, 32);
    let mut expected = vec![0u8; 32];
    expected[31] = 1;
    assert_eq!(out, expected);
}

#[test]
fn pairing_truncated_input_fails() {
    let (code, out, len) = call(pairing_wrapper, &[0u8; 383], 32);
    assert_eq!(code, -4);
    assert_eq!(len, LEN_SENTINEL);
    assert!(out.iter().all(|b| *b == SENTINEL));
}

#[test]
fn pairing_empty_input_fails() {
    let (code, _, len) = call(pairing_wrapper, &[], 32);
    assert_eq!(code, -4);
    assert_eq!(len, LEN_SENTINEL);
}

#[test]
fn zero_capacity_is_exceeded() {
    let (code, out, len) = call(g1_add_wrapper, &[0u8; 256], 0);
    assert_eq!(code, -2);
    assert!(out.is_empty());
    assert_eq!(len, LEN_SENTINEL);
}

#[test]
fn short_capacity_leaves_buffers_untouched() {
    let (code, out, len) = call(g2_add_wrapper, &[0u8; 512], 255);
    assert_eq!(code, -2);
    assert_eq!(len, LEN_SENTINEL);
    assert!(out.iter().all(|b| *b == SENTINEL));
}

#[test]
fn null_input_is_reported() {
    let mut out = vec![SENTINEL; 128];
    let mut len = LEN_SENTINEL;
    let code = g1_add_wrapper(None, Some(out.as_mut_slice()), Some(&mut len));
    assert_eq!(code, -1);
    assert_eq!(len, LEN_SENTINEL);
    assert!(out.iter().all(|b| *b == SENTINEL));
}

#[test]
fn null_output_is_reported() {
    let mut len = LEN_SENTINEL;
    let code = g1_add_wrapper(Some(&[0u8; 256]), None, Some(&mut len));
    assert_eq!(code, -1);
    assert_eq!(len, LEN_SENTINEL);
}

#[test]
fn null_output_len_is_reported() {
    let mut out = vec![SENTINEL; 128];
    let code = pairing_wrapper(Some(&[0u8; 384]), Some(out.as_mut_slice()), None);
    assert_eq!(code, -1);
    assert!(out.iter().all(|b| *b == SENTINEL));
}

#[test]
fn repeated_calls_agree() {
    let g = g1_generator();
    let mut input = g.clone();
    input.extend(g);
    let (code1, out1, len1) = call(g1_add_wrapper, &input, 160);
    let (code2, out2, len2) = call(g1_add_wrapper, &input, 160);
    assert_eq!((code1, len1), (code2, len2));
    assert_eq!(out1, out2);

    let mut out = out1.clone();
    let mut len = len1;
    let code3 = g1_add_wrapper(Some(&input), Some(out.as_mut_slice()), Some(&mut len));
    assert_eq!(code3, code1);
    assert_eq!(out, out1);
    assert_eq!(len, len1);
}

#[test]
fn entry_point_matches_engine_directly() {
    let input = [0u8; 64];
    let direct = run_operation(Operation::MapFpToG1, &input).unwrap();
    let (code, out, len) = call(map_fp_to_g1_wrapper, &input, 128);
    assert_eq!(code, 0);
    assert_eq!(len, direct.len());
    assert_eq!(out, direct);

    let mut out2 = vec![SENTINEL; 128];
    let mut len2 = LEN_SENTINEL;
    let code2 = execute_precompile(
        Operation::MapFpToG1,
        Some(&input),
        Some(out2.as_mut_slice()),
        Some(&mut len2),
    );
    assert_eq!(code2, 0);
    assert_eq!(out2, direct);
}

#[test]
fn run_operation_rejects_bad_length() {
    assert_eq!(run_operation(Operation::G2Add, &[0u8; 10]), Err(Status::ComputationFailed));
}

#[test]
fn deliver_copies_into_prefix() {
    let mut out = vec![9u8; 5];
    let mut len = 0usize;
    let s = deliver_result(Some(&[1, 2, 3]), out.as_mut_slice(), &mut len);
    assert_eq!(s, Status::Success);
    assert_eq!(out, vec![1, 2, 3, 9, 9]);
    assert_eq!(len, 3);
}

#[test]
fn deliver_exact_fit() {
    let mut out = vec![9u8; 2];
    let mut len = 0usize;
    let s = deliver_result(Some(&[4, 5]), out.as_mut_slice(), &mut len);
    assert_eq!(s, Status::Success);
    assert_eq!(out, vec![4, 5]);
    assert_eq!(len, 2);
}

#[test]
fn deliver_too_long_writes_nothing() {
    let mut out = vec![9u8; 2];
    let mut len = 7usize;
    let s = deliver_result(Some(&[1, 2, 3]), out.as_mut_slice(), &mut len);
    assert_eq!(s, Status::CapacityExceeded);
    assert_eq!(out, vec![9, 9]);
    assert_eq!(len, 7);
}

#[test]
fn deliver_rejection_writes_nothing() {
    let mut out = vec![9u8; 2];
    let mut len = 7usize;
    let s = deliver_result(None, out.as_mut_slice(), &mut len);
    assert_eq!(s, Status::ComputationFailed);
    assert_eq!(out, vec![9, 9]);
    assert_eq!(len, 7);
}

#[test]
fn deliver_empty_result() {
    let mut out: Vec<u8> = vec![];
    let mut len = 7usize;
    let s = deliver_result(Some(&[]), out.as_mut_slice(), &mut len);
    assert_eq!(s, Status::Success);
    assert_eq!(len, 0);
}
