use crate::operation::{
    Operation, FP_WIDTH, G1_POINT_WIDTH, G2_POINT_WIDTH, PAIRING_RESULT_WIDTH,
};
use crate::status::Status;
use revm_precompile::bls12_381::{
    g1_add, g1_msm, g2_add, g2_msm, map_fp2_to_g2, map_fp_to_g1, pairing,
};
use revm_precompile::PrecompileHalt;
use vstd::prelude::*;

verus! {

/// The engine's reason for rejecting a call; only its presence matters here.
#[verifier::external_type_specification]
#[verifier::external_body]
pub struct ExPrecompileHalt(revm_precompile::PrecompileHalt);

/// The bytes of a successful engine call, or `None` for a rejection.
pub open spec fn ok_bytes(r: Result<Vec<u8>, PrecompileHalt>) -> Option<Seq<u8>> {
    match r {
        Ok(v) => Some(v@),
        Err(_) => None,
    }
}

/// What `g1_add` yields on an input and a gas limit, `None` where it rejects them.
pub uninterp spec fn g1_add_result(input: Seq<u8>, gas_limit: u64) -> Option<Seq<u8>>;

/// Relies on `revm_precompile::bls12_381::g1_add::g1_add` under the default crypto
/// provider: its outcome depends on the input bytes and the gas limit alone; whatever
/// the gas limit, it rejects every input whose length is not that of two padded G1
/// points, and a success is one padded G1 point.
#[verifier::external_body]
fn call_g1_add(input: &[u8], gas_limit: u64) -> (r: Result<Vec<u8>, PrecompileHalt>)
    ensures
        g1_add_result(input@, gas_limit) == ok_bytes(r),
        input@.len() != 2 * G1_POINT_WIDTH ==> r is Err,
        r matches Ok(v) ==> v@.len() == G1_POINT_WIDTH,
{
    match g1_add::g1_add(input, gas_limit) {
        Ok(out) => Ok(out.bytes.to_vec()),
        Err(halt) => Err(halt),
    }
}

/// What `g1_msm` yields on an input and a gas limit, `None` where it rejects them.
pub uninterp spec fn g1_msm_result(input: Seq<u8>, gas_limit: u64) -> Option<Seq<u8>>;

/// Relies on `revm_precompile::bls12_381::g1_msm::g1_msm` under the default crypto
/// provider: its outcome depends on the input bytes and the gas limit alone; whatever
/// the gas limit, it rejects every input whose length is not that of a positive number
/// of (padded G1 point, scalar) records, and a success is one padded G1 point.
#[verifier::external_body]
fn call_g1_msm(input: &[u8], gas_limit: u64) -> (r: Result<Vec<u8>, PrecompileHalt>)
    ensures
        g1_msm_result(input@, gas_limit) == ok_bytes(r),
        input@.len() == 0 || input@.len() % 160 != 0 ==> r is Err,
        r matches Ok(v) ==> v@.len() == G1_POINT_WIDTH,
{
    match g1_msm::g1_msm(input, gas_limit) {
        Ok(out) => Ok(out.bytes.to_vec()),
        Err(halt) => Err(halt),
    }
}

/// What `map_fp_to_g1` yields on an input and a gas limit, `None` where it rejects them.
pub uninterp spec fn map_fp_to_g1_result(input: Seq<u8>, gas_limit: u64) -> Option<Seq<u8>>;

/// Relies on `revm_precompile::bls12_381::map_fp_to_g1::map_fp_to_g1` under the default
/// crypto provider: its outcome depends on the input bytes and the gas limit alone;
/// whatever the gas limit, it rejects every input whose length is not that of one
/// padded base-field element, and a success is one padded G1 point.
#[verifier::external_body]
fn call_map_fp_to_g1(input: &[u8], gas_limit: u64) -> (r: Result<Vec<u8>, PrecompileHalt>)
    ensures
        map_fp_to_g1_result(input@, gas_limit) == ok_bytes(r),
        input@.len() != FP_WIDTH ==> r is Err,
        r matches Ok(v) ==> v@.len() == G1_POINT_WIDTH,
{
    match map_fp_to_g1::map_fp_to_g1(input, gas_limit) {
        Ok(out) => Ok(out.bytes.to_vec()),
        Err(halt) => Err(halt),
    }
}

/// What `g2_add` yields on an input and a gas limit, `None` where it rejects them.
pub uninterp spec fn g2_add_result(input: Seq<u8>, gas_limit: u64) -> Option<Seq<u8>>;

/// Relies on `revm_precompile::bls12_381::g2_add::g2_add` under the default crypto
/// provider: its outcome depends on the input bytes and the gas limit alone; whatever
/// the gas limit, it rejects every input whose length is not that of two padded G2
/// points, and a success is one padded G2 point.
#[verifier::external_body]
fn call_g2_add(input: &[u8], gas_limit: u64) -> (r: Result<Vec<u8>, PrecompileHalt>)
    ensures
        g2_add_result(input@, gas_limit) == ok_bytes(r),
        input@.len() != 2 * G2_POINT_WIDTH ==> r is Err,
        r matches Ok(v) ==> v@.len() == G2_POINT_WIDTH,
{
    match g2_add::g2_add(input, gas_limit) {
        Ok(out) => Ok(out.bytes.to_vec()),
        Err(halt) => Err(halt),
    }
}

/// What `g2_msm` yields on an input and a gas limit, `None` where it rejects them.
pub uninterp spec fn g2_msm_result(input: Seq<u8>, gas_limit: u64) -> Option<Seq<u8>>;

/// Relies on `revm_precompile::bls12_381::g2_msm::g2_msm` under the default crypto
/// provider: its outcome depends on the input bytes and the gas limit alone; whatever
/// the gas limit, it rejects every input whose length is not that of a positive number
/// of (padded G2 point, scalar) records, and a success is one padded G2 point.
#[verifier::external_body]
fn call_g2_msm(input: &[u8], gas_limit: u64) -> (r: Result<Vec<u8>, PrecompileHalt>)
    ensures
        g2_msm_result(input@, gas_limit) == ok_bytes(r),
        input@.len() == 0 || input@.len() % 288 != 0 ==> r is Err,
        r matches Ok(v) ==> v@.len() == G2_POINT_WIDTH,
{
    match g2_msm::g2_msm(input, gas_limit) {
        Ok(out) => Ok(out.bytes.to_vec()),
        Err(halt) => Err(halt),
    }
}

/// What `map_fp2_to_g2` yields on an input and a gas limit, `None` where it rejects them.
pub uninterp spec fn map_fp2_to_g2_result(input: Seq<u8>, gas_limit: u64) -> Option<Seq<u8>>;

/// Relies on `revm_precompile::bls12_381::map_fp2_to_g2::map_fp2_to_g2` under the
/// default crypto provider: its outcome depends on the input bytes and the gas limit
/// alone; whatever the gas limit, it rejects every input whose length is not that of
/// two padded base-field elements, and a success is one padded G2 point.
#[verifier::external_body]
fn call_map_fp2_to_g2(input: &[u8], gas_limit: u64) -> (r: Result<Vec<u8>, PrecompileHalt>)
    ensures
        map_fp2_to_g2_result(input@, gas_limit) == ok_bytes(r),
        input@.len() != 2 * FP_WIDTH ==> r is Err,
        r matches Ok(v) ==> v@.len() == G2_POINT_WIDTH,
{
    match map_fp2_to_g2::map_fp2_to_g2(input, gas_limit) {
        Ok(out) => Ok(out.bytes.to_vec()),
        Err(halt) => Err(halt),
    }
}

/// What `pairing` yields on an input and a gas limit, `None` where it rejects them.
pub uninterp spec fn pairing_result(input: Seq<u8>, gas_limit: u64) -> Option<Seq<u8>>;

/// Relies on `revm_precompile::bls12_381::pairing::pairing` under the default crypto
/// provider: its outcome depends on the input bytes and the gas limit alone; whatever
/// the gas limit, it rejects every input whose length is not that of a positive number
/// of (padded G1 point, padded G2 point) records, and a success is a 32-byte word that
/// is 1 when the pairing product is the identity and 0 otherwise.
#[verifier::external_body]
fn call_pairing(input: &[u8], gas_limit: u64) -> (r: Result<Vec<u8>, PrecompileHalt>)
    ensures
        pairing_result(input@, gas_limit) == ok_bytes(r),
        input@.len() == 0 || input@.len() % 384 != 0 ==> r is Err,
        r matches Ok(v) ==> v@.len() == PAIRING_RESULT_WIDTH,
        r matches Ok(v) ==> (forall|i: int| 0 <= i < PAIRING_RESULT_WIDTH - 1 ==> v@[i] == 0),
        r matches Ok(v) ==> v@[PAIRING_RESULT_WIDTH - 1] <= 1,
{
    match pairing::pairing(input, gas_limit) {
        Ok(out) => Ok(out.bytes.to_vec()),
        Err(halt) => Err(halt),
    }
}

/// The computation budget handed to the engine: the largest gas limit, since
/// this boundary meters nothing of its own.
pub const UNBOUNDED_BUDGET: u64 = 0xffff_ffff_ffff_ffff;

/// What the engine yields for `op` on `input` under the unbounded budget,
/// `None` where it rejects it.
pub open spec fn engine_result(op: Operation, input: Seq<u8>) -> Option<Seq<u8>> {
    match op {
        Operation::G1Add => g1_add_result(input, UNBOUNDED_BUDGET),
        Operation::G1Msm => g1_msm_result(input, UNBOUNDED_BUDGET),
        Operation::MapFpToG1 => map_fp_to_g1_result(input, UNBOUNDED_BUDGET),
        Operation::G2Add => g2_add_result(input, UNBOUNDED_BUDGET),
        Operation::G2Msm => g2_msm_result(input, UNBOUNDED_BUDGET),
        Operation::MapFp2ToG2 => map_fp2_to_g2_result(input, UNBOUNDED_BUDGET),
        Operation::Pairing => pairing_result(input, UNBOUNDED_BUDGET),
    }
}

/// Turns the engine's outcome into the library's: a rejection of any kind
/// becomes `ComputationFailed`.
fn settle(r: Result<Vec<u8>, PrecompileHalt>) -> (s: Result<Vec<u8>, Status>)
    ensures
        match s {
            Ok(v) => ok_bytes(r) == Some(v@),
            Err(e) => e == Status::ComputationFailed && ok_bytes(r) is None,
        },
{
    match r {
        Ok(v) => Ok(v),
        Err(_) => Err(Status::ComputationFailed),
    }
}

/// Runs `op` on `input` under the unbounded budget.
pub fn run_operation(op: Operation, input: &[u8]) -> (r: Result<Vec<u8>, Status>)
    ensures
        match r {
            Ok(v) => engine_result(op, input@) == Some(v@),
            Err(e) => e == Status::ComputationFailed && engine_result(op, input@) is None,
        },
        !op.accepts_length(input@.len()) ==> r is Err,
        r matches Ok(v) ==> op.result_shape(v@),
{
    let raw = match op {
        Operation::G1Add => call_g1_add(input, UNBOUNDED_BUDGET),
        Operation::G1Msm => call_g1_msm(input, UNBOUNDED_BUDGET),
        Operation::MapFpToG1 => call_map_fp_to_g1(input, UNBOUNDED_BUDGET),
        Operation::G2Add => call_g2_add(input, UNBOUNDED_BUDGET),
        Operation::G2Msm => call_g2_msm(input, UNBOUNDED_BUDGET),
        Operation::MapFp2ToG2 => call_map_fp2_to_g2(input, UNBOUNDED_BUDGET),
        Operation::Pairing => call_pairing(input, UNBOUNDED_BUDGET),
    };
    settle(raw)
}

} // verus!
