use crate::engine::{engine_result, run_operation};
use crate::operation::Operation;
use crate::status::{Status, COMPUTATION_FAILED_CODE, SUCCESS_CODE};
use vstd::prelude::*;

verus! {

/// The bytes that an input view holds, `None` where the input pointer is null.
pub open spec fn input_bytes(input: Option<&[u8]>) -> Option<Seq<u8>> {
    match input {
        Some(s) => Some(s@),
        None => None,
    }
}

/// The capacity of an output region, `None` where the output pointer is null.
pub open spec fn region_capacity(output: Option<&mut [u8]>) -> Option<nat> {
    match output {
        Some(o) => Some(o@.len()),
        None => None,
    }
}

/// The status of handing an engine outcome to a region of `capacity` bytes.
pub open spec fn delivery_status(result: Option<Seq<u8>>, capacity: nat) -> Status {
    match result {
        None => Status::ComputationFailed,
        Some(r) => if r.len() <= capacity {
            Status::Success
        } else {
            Status::CapacityExceeded
        },
    }
}

/// The status of a whole call: pointers first, then the engine, then the capacity.
pub open spec fn outcome(
    op: Operation,
    input: Option<Seq<u8>>,
    capacity: Option<nat>,
    has_len_cell: bool,
) -> Status {
    if input is None || capacity is None || !has_len_cell {
        Status::NullPointer
    } else {
        delivery_status(engine_result(op, input.unwrap()), capacity.unwrap())
    }
}

/// A region whose leading bytes have been overwritten by `result`.
pub open spec fn filled(region: Seq<u8>, result: Seq<u8>) -> Seq<u8> {
    result + region.skip(result.len() as int)
}

/// The output region after a call: filled with the result on success, as it was otherwise.
pub open spec fn region_after(
    op: Operation,
    input: Option<Seq<u8>>,
    region: Seq<u8>,
    has_len_cell: bool,
) -> Seq<u8> {
    if outcome(op, input, Some(region.len()), has_len_cell) == Status::Success {
        filled(region, engine_result(op, input.unwrap()).unwrap())
    } else {
        region
    }
}

/// The output-length cell after a call: the result's length on success, as it was otherwise.
pub open spec fn len_after(
    op: Operation,
    input: Option<Seq<u8>>,
    capacity: Option<nat>,
    old_len: usize,
) -> usize {
    if outcome(op, input, capacity, true) == Status::Success {
        engine_result(op, input.unwrap()).unwrap().len() as usize
    } else {
        old_len
    }
}

/// Hands an engine outcome (`None` for a rejection) to the caller's buffers:
/// the result is copied and its length recorded only when it fits; on any
/// other outcome neither the region nor the cell is touched.
pub fn deliver_result(result: Option<&[u8]>, output: &mut [u8], output_len: &mut usize) -> (s:
    Status)
    ensures
        s == delivery_status(input_bytes(result), old(output)@.len()),
        s == Status::Success ==> final(output)@ == filled(old(output)@, result.unwrap()@)
            && *final(output_len) == result.unwrap()@.len(),
        s != Status::Success ==> final(output)@ == old(output)@ && *final(output_len) == *old(
            output_len,
        ),
{
    match result {
        None => Status::ComputationFailed,
        Some(bytes) => {
            let n = bytes.len();
            if n > output.len() {
                return Status::CapacityExceeded;
            }
            let mut i: usize = 0;
            while i < n
                invariant
                    n == bytes@.len(),
                    n <= old(output)@.len(),
                    0 <= i <= n,
                    output@.len() == old(output)@.len(),
                    forall|j: int| 0 <= j < i ==> output@[j] == bytes@[j],
                    forall|j: int| i <= j < output@.len() ==> output@[j] == old(output)@[j],
                decreases n - i,
            {
                output[i] = bytes[i];
                i += 1;
            }
            assert(output@ =~= filled(old(output)@, bytes@));
            *output_len = n;
            Status::Success
        },
    }
}

/// The single path that every entry point takes: checks that no pointer is
/// null, runs `op` with an unbounded budget, and delivers its result.
pub fn execute_precompile(
    op: Operation,
    input: Option<&[u8]>,
    output: Option<&mut [u8]>,
    output_len: Option<&mut usize>,
) -> (code: i32)
    ensures
        code == outcome(op, input_bytes(input), region_capacity(output), output_len is Some).spec_code(),
        output is Some ==> final(output.unwrap())@ == region_after(op, input_bytes(input), old(output.unwrap())@, output_len is Some),
        output_len is Some ==> *final(output_len.unwrap()) == len_after(op, input_bytes(input), region_capacity(output), *old(output_len.unwrap())),
        input is Some && output is Some && output_len is Some && !op.accepts_length(input.unwrap()@.len()) ==> code == COMPUTATION_FAILED_CODE,
        code == SUCCESS_CODE ==> *final(output_len.unwrap()) == op.result_width(),
{
    match (input, output, output_len) {
        (Some(inp), Some(out), Some(len)) => {
            let status = match run_operation(op, inp) {
                Ok(bytes) => deliver_result(Some(bytes.as_slice()), out, len),
                Err(_) => deliver_result(None, out, len),
            };
            status.code()
        },
        _ => Status::NullPointer.code(),
    }
}

/// Boundary entry point for point addition in G1.
pub fn g1_add_wrapper(
    input: Option<&[u8]>,
    output: Option<&mut [u8]>,
    output_len: Option<&mut usize>,
) -> (code: i32)
    ensures
        code == outcome(Operation::G1Add, input_bytes(input), region_capacity(output), output_len is Some).spec_code(),
        output is Some ==> final(output.unwrap())@ == region_after(Operation::G1Add, input_bytes(input), old(output.unwrap())@, output_len is Some),
        output_len is Some ==> *final(output_len.unwrap()) == len_after(Operation::G1Add, input_bytes(input), region_capacity(output), *old(output_len.unwrap())),
        input is Some && output is Some && output_len is Some && !Operation::G1Add.accepts_length(input.unwrap()@.len()) ==> code == COMPUTATION_FAILED_CODE,
        code == SUCCESS_CODE ==> *final(output_len.unwrap()) == Operation::G1Add.result_width(),
{
    execute_precompile(Operation::G1Add, input, output, output_len)
}

/// Boundary entry point for multi-scalar multiplication in G1.
pub fn g1_msm_wrapper(
    input: Option<&[u8]>,
    output: Option<&mut [u8]>,
    output_len: Option<&mut usize>,
) -> (code: i32)
    ensures
        code == outcome(Operation::G1Msm, input_bytes(input), region_capacity(output), output_len is Some).spec_code(),
        output is Some ==> final(output.unwrap())@ == region_after(Operation::G1Msm, input_bytes(input), old(output.unwrap())@, output_len is Some),
        output_len is Some ==> *final(output_len.unwrap()) == len_after(Operation::G1Msm, input_bytes(input), region_capacity(output), *old(output_len.unwrap())),
        input is Some && output is Some && output_len is Some && !Operation::G1Msm.accepts_length(input.unwrap()@.len()) ==> code == COMPUTATION_FAILED_CODE,
        code == SUCCESS_CODE ==> *final(output_len.unwrap()) == Operation::G1Msm.result_width(),
{
    execute_precompile(Operation::G1Msm, input, output, output_len)
}

/// Boundary entry point for mapping a base-field element to G1.
pub fn map_fp_to_g1_wrapper(
    input: Option<&[u8]>,
    output: Option<&mut [u8]>,
    output_len: Option<&mut usize>,
) -> (code: i32)
    ensures
        code == outcome(Operation::MapFpToG1, input_bytes(input), region_capacity(output), output_len is Some).spec_code(),
        output is Some ==> final(output.unwrap())@ == region_after(Operation::MapFpToG1, input_bytes(input), old(output.unwrap())@, output_len is Some),
        output_len is Some ==> *final(output_len.unwrap()) == len_after(Operation::MapFpToG1, input_bytes(input), region_capacity(output), *old(output_len.unwrap())),
        input is Some && output is Some && output_len is Some && !Operation::MapFpToG1.accepts_length(input.unwrap()@.len()) ==> code == COMPUTATION_FAILED_CODE,
        code == SUCCESS_CODE ==> *final(output_len.unwrap()) == Operation::MapFpToG1.result_width(),
{
    execute_precompile(Operation::MapFpToG1, input, output, output_len)
}

/// Boundary entry point for point addition in G2.
pub fn g2_add_wrapper(
    input: Option<&[u8]>,
    output: Option<&mut [u8]>,
    output_len: Option<&mut usize>,
) -> (code: i32)
    ensures
        code == outcome(Operation::G2Add, input_bytes(input), region_capacity(output), output_len is Some).spec_code(),
        output is Some ==> final(output.unwrap())@ == region_after(Operation::G2Add, input_bytes(input), old(output.unwrap())@, output_len is Some),
        output_len is Some ==> *final(output_len.unwrap()) == len_after(Operation::G2Add, input_bytes(input), region_capacity(output), *old(output_len.unwrap())),
        input is Some && output is Some && output_len is Some && !Operation::G2Add.accepts_length(input.unwrap()@.len()) ==> code == COMPUTATION_FAILED_CODE,
        code == SUCCESS_CODE ==> *final(output_len.unwrap()) == Operation::G2Add.result_width(),
{
    execute_precompile(Operation::G2Add, input, output, output_len)
}

/// Boundary entry point for multi-scalar multiplication in G2.
pub fn g2_msm_wrapper(
    input: Option<&[u8]>,
    output: Option<&mut [u8]>,
    output_len: Option<&mut usize>,
) -> (code: i32)
    ensures
        code == outcome(Operation::G2Msm, input_bytes(input), region_capacity(output), output_len is Some).spec_code(),
        output is Some ==> final(output.unwrap())@ == region_after(Operation::G2Msm, input_bytes(input), old(output.unwrap())@, output_len is Some),
        output_len is Some ==> *final(output_len.unwrap()) == len_after(Operation::G2Msm, input_bytes(input), region_capacity(output), *old(output_len.unwrap())),
        input is Some && output is Some && output_len is Some && !Operation::G2Msm.accepts_length(input.unwrap()@.len()) ==> code == COMPUTATION_FAILED_CODE,
        code == SUCCESS_CODE ==> *final(output_len.unwrap()) == Operation::G2Msm.result_width(),
{
    execute_precompile(Operation::G2Msm, input, output, output_len)
}

/// Boundary entry point for mapping an element of the quadratic extension to G2.
pub fn map_fp2_to_g2_wrapper(
    input: Option<&[u8]>,
    output: Option<&mut [u8]>,
    output_len: Option<&mut usize>,
) -> (code: i32)
    ensures
        code == outcome(Operation::MapFp2ToG2, input_bytes(input), region_capacity(output), output_len is Some).spec_code(),
        output is Some ==> final(output.unwrap())@ == region_after(Operation::MapFp2ToG2, input_bytes(input), old(output.unwrap())@, output_len is Some),
        output_len is Some ==> *final(output_len.unwrap()) == len_after(Operation::MapFp2ToG2, input_bytes(input), region_capacity(output), *old(output_len.unwrap())),
        input is Some && output is Some && output_len is Some && !Operation::MapFp2ToG2.accepts_length(input.unwrap()@.len()) ==> code == COMPUTATION_FAILED_CODE,
        code == SUCCESS_CODE ==> *final(output_len.unwrap()) == Operation::MapFp2ToG2.result_width(),
{
    execute_precompile(Operation::MapFp2ToG2, input, output, output_len)
}

/// Boundary entry point for the pairing check.
pub fn pairing_wrapper(
    input: Option<&[u8]>,
    output: Option<&mut [u8]>,
    output_len: Option<&mut usize>,
) -> (code: i32)
    ensures
        code == outcome(Operation::Pairing, input_bytes(input), region_capacity(output), output_len is Some).spec_code(),
        output is Some ==> final(output.unwrap())@ == region_after(Operation::Pairing, input_bytes(input), old(output.unwrap())@, output_len is Some),
        output_len is Some ==> *final(output_len.unwrap()) == len_after(Operation::Pairing, input_bytes(input), region_capacity(output), *old(output_len.unwrap())),
        input is Some && output is Some && output_len is Some && !Operation::Pairing.accepts_length(input.unwrap()@.len()) ==> code == COMPUTATION_FAILED_CODE,
        code == SUCCESS_CODE ==> *final(output_len.unwrap()) == Operation::Pairing.result_width(),
{
    execute_precompile(Operation::Pairing, input, output, output_len)
}

/// Calling an operation twice on the same input, each time with a region large
/// enough for the result, gives the same status both times; on success both
/// calls write the same leading bytes and record the same length, and on any
/// other outcome neither writes. Calling it again on the region and cell that
/// the first call left changes neither of them.
pub proof fn lemma_repeated_call(
    op: Operation,
    input: Seq<u8>,
    first: Seq<u8>,
    second: Seq<u8>,
    first_len: usize,
    second_len: usize,
)
    requires
        engine_result(op, input) matches Some(r) ==> r.len() <= first.len() && r.len()
            <= second.len(),
    ensures
        ({
            let status = outcome(op, Some(input), Some(first.len()), true);
            let after_first = region_after(op, Some(input), first, true);
            let after_second = region_after(op, Some(input), second, true);
            let n = len_after(op, Some(input), Some(first.len()), first_len);
            &&& status == outcome(op, Some(input), Some(second.len()), true)
            &&& status == Status::Success ==> n == len_after(
                op,
                Some(input),
                Some(second.len()),
                second_len,
            ) && after_first.take(n as int) == after_second.take(n as int)
            &&& status != Status::Success ==> after_first == first && after_second == second
            &&& region_after(op, Some(input), after_first, true) == after_first
            &&& len_after(op, Some(input), Some(after_first.len()), n) == n
        }),
{
    let status = outcome(op, Some(input), Some(first.len()), true);
    if status == Status::Success {
        let r = engine_result(op, input).unwrap();
        let n = r.len() as int;
        let after_first = region_after(op, Some(input), first, true);
        let after_second = region_after(op, Some(input), second, true);
        assert(after_first.take(n) =~= r);
        assert(after_second.take(n) =~= r);
        assert(filled(after_first, r) =~= after_first);
    }
}

/// On success the leading bytes of the region are exactly what the engine
/// returned for the same operation and input, and the cell holds its length.
pub proof fn lemma_success_copies_engine_output(
    op: Operation,
    input: Seq<u8>,
    region: Seq<u8>,
    old_len: usize,
)
    requires
        region.len() <= usize::MAX,
        outcome(op, Some(input), Some(region.len()), true) == Status::Success,
    ensures
        engine_result(op, input) is Some,
        len_after(op, Some(input), Some(region.len()), old_len) == engine_result(op, input).unwrap().len(),
        region_after(op, Some(input), region, true).take(
            len_after(op, Some(input), Some(region.len()), old_len) as int,
        ) == engine_result(op, input).unwrap(),
{
    let r = engine_result(op, input).unwrap();
    assert(region_after(op, Some(input), region, true).take(r.len() as int) =~= r);
}

/// A result longer than the region gives `CapacityExceeded`, and the region
/// and the cell keep what they held.
pub proof fn lemma_capacity_exceeded_leaves_buffers(
    op: Operation,
    input: Seq<u8>,
    region: Seq<u8>,
    old_len: usize,
)
    requires
        engine_result(op, input) matches Some(r) && region.len() < r.len(),
    ensures
        outcome(op, Some(input), Some(region.len()), true) == Status::CapacityExceeded,
        region_after(op, Some(input), region, true) == region,
        len_after(op, Some(input), Some(region.len()), old_len) == old_len,
{
}

/// A null input, output or output-length pointer gives `NullPointer`, and
/// whatever region or cell was passed keeps what it held.
pub proof fn lemma_null_pointer_leaves_buffers(
    op: Operation,
    input: Option<Seq<u8>>,
    region: Seq<u8>,
    has_region: bool,
    has_len_cell: bool,
    old_len: usize,
)
    requires
        input is None || !has_region || !has_len_cell,
    ensures
        outcome(
            op,
            input,
            if has_region {
                Some(region.len())
            } else {
                None
            },
            has_len_cell,
        ) == Status::NullPointer,
        has_region ==> region_after(op, input, region, has_len_cell) == region,
        has_len_cell ==> len_after(
            op,
            input,
            if has_region {
                Some(region.len())
            } else {
                None
            },
            old_len,
        ) == old_len,
{
}

} // verus!
