//! Decoding of the positional instruction byte layout into a
//! self-describing, tagged command structure. The layout is
//! `[action:u8][amount:u64 LE][...action-specific bytes]`; every
//! out-of-bounds or unknown-action case is rejected as a malformed
//! payload instead of being sliced blindly.

use vstd::prelude::*;
use vstd::slice::{slice_subrange, slice_to_vec};
use crate::error::JobError;
use crate::types::ZkProof;

verus! {

/// A caller-issued request to transition a job posting's state, with its
/// payload as named fields. The job's identifiers and the caller's
/// identity travel beside the command, not inside it.
#[derive(Clone, Debug)]
pub enum LifecycleCommand {
    /// Post a new job committing `total_payment`, gated by a proof.
    Post { total_payment: u64, zk_proof: Option<ZkProof> },
    /// A freelancer accepts the job (the freelancer-matching step).
    Accept,
    /// Complete one milestone by index, releasing its payment.
    CompleteMilestone { index: usize },
    /// Confirm overall completion, releasing the remaining escrow.
    ConfirmCompletion { total_payment: u64 },
    /// Raise a dispute; the core validates and records nothing.
    Dispute,
    /// Cancel the job, refunding the remaining escrow.
    Cancel,
    /// Replace one milestone's progress note.
    UpdateMilestoneProgress { index: usize, progress: String },
    /// Rate the job's freelancer.
    Rate { rating: u8, feedback: String },
}

/// The unsigned integer held little-endian in the eight bytes at `off`.
pub open spec fn le_u64_at(s: Seq<u8>, off: int) -> int {
    s[off] + s[off + 1] * 0x100 + s[off + 2] * 0x1_0000 + s[off + 3] * 0x100_0000 + s[off + 4]
        * 0x1_0000_0000 + s[off + 5] * 0x100_0000_0000 + s[off + 6] * 0x1_0000_0000_0000 + s[off
        + 7] * 0x100_0000_0000_0000
}

/// Reads the little-endian `u64` at `off`.
fn read_u64_le(data: &Vec<u8>, off: usize) -> (r: u64)
    requires
        off + 8 <= data@.len(),
    ensures
        r as int == le_u64_at(data@, off as int),
{
    proof {
        vstd::std_specs::vec::axiom_spec_len(data);
    }
    (data[off] as u64) + (data[off + 1] as u64) * 0x100 + (data[off + 2] as u64) * 0x1_0000 + (
    data[off + 3] as u64) * 0x100_0000 + (data[off + 4] as u64) * 0x1_0000_0000 + (data[off
        + 5] as u64) * 0x100_0000_0000 + (data[off + 6] as u64) * 0x1_0000_0000_0000 + (data[off
        + 7] as u64) * 0x100_0000_0000_0000
}

/// Copies the byte range `[from, to)` out of the payload.
fn bytes_range(data: &Vec<u8>, from: usize, to: usize) -> (r: Vec<u8>)
    requires
        from <= to <= data@.len(),
    ensures
        r@ == data@.subrange(from as int, to as int),
{
    let s = slice_subrange(data.as_slice(), from, to);
    slice_to_vec(s)
}

/// The characters a byte sequence decodes to as UTF-8, if it is valid.
pub uninterp spec fn utf8_chars(bytes: Seq<u8>) -> Option<Seq<char>>;

/// The characters a byte sequence decodes to, with an undecodable
/// sequence yielding empty text.
pub open spec fn utf8_or_empty(bytes: Seq<u8>) -> Seq<char> {
    match utf8_chars(bytes) {
        Some(cs) => cs,
        None => Seq::empty(),
    }
}

/// Relies on String::from_utf8: the characters decoded from a byte
/// sequence depend on the bytes alone; invalid UTF-8 is replaced by the
/// default empty string, and empty input decodes to the empty string.
#[verifier::external_body]
fn utf8_string_or_empty(bytes: Vec<u8>) -> (r: String)
    ensures
        r@ == (match utf8_chars(bytes@) {
            Some(cs) => cs,
            None => Seq::<char>::empty(),
        }),
        bytes@.len() == 0 ==> r@.len() == 0,
{
    String::from_utf8(bytes).unwrap_or_default()
}

/// True when the payload is long enough for its action byte's layout and
/// the action byte is a known one.
pub open spec fn wire_well_formed(s: Seq<u8>) -> bool {
    &&& s.len() >= 1
    &&& match s[0] {
        1u8 => s.len() >= 33,
        2u8 => true,
        3u8 => true,
        4u8 => s.len() >= 10,
        5u8 => s.len() >= 9,
        6u8 => true,
        7u8 => true,
        8u8 => s.len() >= 10,
        9u8 => s.len() >= 12 && 12 + s[11] <= s.len(),
        _ => false,
    }
}

/// What each action byte decodes to: the amount read little-endian from
/// the bytes after the action byte, the proof components from their fixed
/// ranges, indexes and ratings from their fixed offsets, and free text
/// from the remainder. The two freelancer-matching action bytes both
/// decode to `Accept`.
pub open spec fn decoded_command(s: Seq<u8>, cmd: LifecycleCommand) -> bool {
    match cmd {
        LifecycleCommand::Post { total_payment, zk_proof } => {
            &&& s[0] == 1
            &&& total_payment as int == le_u64_at(s, 1)
            &&& (zk_proof matches Some(p) && p.a@ == s.subrange(9, 17) && p.b@ == s.subrange(
                17,
                25,
            ) && p.c@ == s.subrange(25, 33))
        },
        LifecycleCommand::Accept => s[0] == 2 || s[0] == 3,
        LifecycleCommand::CompleteMilestone { index } => s[0] == 4 && index == s[9],
        LifecycleCommand::ConfirmCompletion { total_payment } => s[0] == 5 && total_payment as int
            == le_u64_at(s, 1),
        LifecycleCommand::Dispute => s[0] == 6,
        LifecycleCommand::Cancel => s[0] == 7,
        LifecycleCommand::UpdateMilestoneProgress { index, progress } => {
            &&& s[0] == 8
            &&& index == s[9]
            &&& progress@ == utf8_or_empty(s.subrange(10, s.len() as int))
        },
        LifecycleCommand::Rate { rating, feedback } => {
            &&& s[0] == 9
            &&& rating == s[10]
            &&& feedback@ == utf8_or_empty(s.subrange(12, 12 + s[11]))
        },
    }
}

/// Decodes one instruction payload into its tagged command, rejecting
/// exactly the malformed payloads: too short for their action's layout,
/// or an unknown action byte.
pub fn decode_instruction(data: &Vec<u8>) -> (r: Result<LifecycleCommand, JobError>)
    ensures
        r is Ok <==> wire_well_formed(data@),
        match r {
            Ok(cmd) => decoded_command(data@, cmd),
            Err(e) => e == JobError::OutOfRange,
        },
{
    if data.len() < 1 {
        return Err(JobError::OutOfRange);
    }
    let action = data[0];
    match action {
        1 => {
            if data.len() < 33 {
                return Err(JobError::OutOfRange);
            }
            let total_payment = read_u64_le(data, 1);
            let a = bytes_range(data, 9, 17);
            let b = bytes_range(data, 17, 25);
            let c = bytes_range(data, 25, 33);
            Ok(LifecycleCommand::Post { total_payment, zk_proof: Some(ZkProof { a, b, c }) })
        },
        2 => Ok(LifecycleCommand::Accept),
        3 => Ok(LifecycleCommand::Accept),
        4 => {
            if data.len() < 10 {
                return Err(JobError::OutOfRange);
            }
            Ok(LifecycleCommand::CompleteMilestone { index: data[9] as usize })
        },
        5 => {
            if data.len() < 9 {
                return Err(JobError::OutOfRange);
            }
            Ok(LifecycleCommand::ConfirmCompletion { total_payment: read_u64_le(data, 1) })
        },
        6 => Ok(LifecycleCommand::Dispute),
        7 => Ok(LifecycleCommand::Cancel),
        8 => {
            if data.len() < 10 {
                return Err(JobError::OutOfRange);
            }
            let progress = utf8_string_or_empty(bytes_range(data, 10, data.len()));
            Ok(LifecycleCommand::UpdateMilestoneProgress { index: data[9] as usize, progress })
        },
        9 => {
            if data.len() < 12 {
                return Err(JobError::OutOfRange);
            }
            let feedback_len = data[11] as usize;
            if feedback_len > data.len() - 12 {
                return Err(JobError::OutOfRange);
            }
            let feedback = utf8_string_or_empty(bytes_range(data, 12, 12 + feedback_len));
            Ok(LifecycleCommand::Rate { rating: data[10], feedback })
        },
        _ => Err(JobError::OutOfRange),
    }
}

} // verus!
