use vstd::prelude::*;

use crate::bps::{bps_patch_try, bps_result_matches, spec_bps_patch, BPSError};
use crate::crc::{crc32, spec_crc32};

verus! {

/// How a run of the patcher ends; the process exit code is 0 or 1.
#[derive(Clone, Copy, Debug, PartialEq, Eq, Structural)]
pub enum PatcherResult {
    Success,
    Failure,
}

impl PatcherResult {
    /// The exit code of the result.
    pub fn exit_code(&self) -> (r: u8)
        ensures
            r == (match *self {
                PatcherResult::Success => 0u8,
                PatcherResult::Failure => 1u8,
            }),
    {
        match self {
            PatcherResult::Success => 0,
            PatcherResult::Failure => 1,
        }
    }
}

/// A known input checksum and the checksum that the patched output must then have.
#[derive(Clone, Copy, Debug, PartialEq, Eq, Structural)]
pub struct ChecksumSet {
    pub input: u32,
    pub output: u32,
}

/// A patch for inputs of one size, with the known checksum pairs.
pub struct PatchConfig {
    pub input_size: usize,
    pub patch_data: &'static [u8],
    pub checksums: Vec<ChecksumSet>,
}

/// The files to read and write, the hint to show on failure, and the patches.
pub struct PatcherConfig {
    pub input_filename: &'static str,
    pub output_filename: &'static str,
    pub failure_hint: &'static str,
    pub patches: Vec<PatchConfig>,
}

/// The first patch made for inputs of `len` bytes.
pub open spec fn spec_select_patch(patches: Seq<PatchConfig>, len: usize) -> Option<int>
    decreases patches.len(),
{
    if patches.len() == 0 {
        None
    } else {
        match spec_select_patch(patches.drop_last(), len) {
            Some(i) => Some(i),
            None => if patches.last().input_size == len {
                Some(patches.len() - 1)
            } else {
                None
            },
        }
    }
}

/// The output checksum of the first pair whose input checksum is `crc`.
pub open spec fn spec_expected_output(sets: Seq<ChecksumSet>, crc: u32) -> Option<u32>
    decreases sets.len(),
{
    if sets.len() == 0 {
        None
    } else {
        match spec_expected_output(sets.drop_last(), crc) {
            Some(o) => Some(o),
            None => if sets.last().input == crc {
                Some(sets.last().output)
            } else {
                None
            },
        }
    }
}

/// The position of the patch for inputs of `len` bytes.
pub fn select_patch(config: &PatcherConfig, len: usize) -> (r: Option<usize>)
    ensures
        match r {
            Some(i) => spec_select_patch(config.patches@, len) == Some(i as int),
            None => spec_select_patch(config.patches@, len) is None,
        },
{
    let n = config.patches.len();
    let mut i: usize = 0;
    while i < n
        invariant
            n == config.patches@.len(),
            i <= n,
            spec_select_patch(config.patches@.take(i as int), len) is None,
        decreases n - i,
    {
        proof {
            assert(config.patches@.take(i + 1).drop_last() =~= config.patches@.take(i as int));
        }
        if config.patches[i].input_size == len {
            proof {
                lemma_select_prefix(config.patches@, len, i as int + 1);
            }
            return Some(i);
        }
        i = i + 1;
    }
    proof {
        assert(config.patches@.take(n as int) =~= config.patches@);
    }
    None
}

/// Where the prefix up to `k` already selects a patch, the whole list selects the same.
proof fn lemma_select_prefix(patches: Seq<PatchConfig>, len: usize, k: int)
    requires
        0 <= k <= patches.len(),
        spec_select_patch(patches.take(k), len) is Some,
    ensures
        spec_select_patch(patches, len) == spec_select_patch(patches.take(k), len),
    decreases patches.len() - k,
{
    if k < patches.len() {
        assert(patches.take(k + 1).drop_last() =~= patches.take(k));
        lemma_select_prefix(patches, len, k + 1);
    } else {
        assert(patches.take(k) =~= patches);
    }
}

proof fn lemma_select_bounds(patches: Seq<PatchConfig>, len: usize)
    ensures
        spec_select_patch(patches, len) matches Some(i) ==> 0 <= i < patches.len()
            && patches[i].input_size == len,
    decreases patches.len(),
{
    if patches.len() > 0 {
        lemma_select_bounds(patches.drop_last(), len);
    }
}

proof fn lemma_expected_prefix(sets: Seq<ChecksumSet>, crc: u32, k: int)
    requires
        0 <= k <= sets.len(),
        spec_expected_output(sets.take(k), crc) is Some,
    ensures
        spec_expected_output(sets, crc) == spec_expected_output(sets.take(k), crc),
    decreases sets.len() - k,
{
    if k < sets.len() {
        assert(sets.take(k + 1).drop_last() =~= sets.take(k));
        lemma_expected_prefix(sets, crc, k + 1);
    } else {
        assert(sets.take(k) =~= sets);
    }
}

/// The output checksum that the patch's pairs give for the input checksum `crc`.
pub fn expected_output_crc(patch: &PatchConfig, crc: u32) -> (r: Option<u32>)
    ensures
        r == spec_expected_output(patch.checksums@, crc),
{
    let n = patch.checksums.len();
    let mut i: usize = 0;
    while i < n
        invariant
            n == patch.checksums@.len(),
            i <= n,
            spec_expected_output(patch.checksums@.take(i as int), crc) is None,
        decreases n - i,
    {
        proof {
            assert(patch.checksums@.take(i + 1).drop_last() =~= patch.checksums@.take(i as int));
        }
        if patch.checksums[i].input == crc {
            proof {
                lemma_expected_prefix(patch.checksums@, crc, i as int + 1);
            }
            return Some(patch.checksums[i].output);
        }
        i = i + 1;
    }
    proof {
        assert(patch.checksums@.take(n as int) =~= patch.checksums@);
    }
    None
}

/// What the patcher does with an input file's contents.
pub enum PatchOutcome {
    /// No patch is made for inputs of this size.
    UnexpectedSize(usize),
    /// The patch was refused.
    PatchFailed { input_crc: u32, expected_output_crc: Option<u32>, error: BPSError },
    /// The patched output, with the checksums to report.
    Patched { input_crc: u32, expected_output_crc: Option<u32>, output_crc: u32, output: Vec<u8> },
}

/// Whether the run goes through on `input`: a patch for its size, applied without checks,
/// does not trap.
pub open spec fn patch_runs(config: PatcherConfig, input: Seq<u8>) -> bool {
    spec_select_patch(config.patches@, input.len() as usize) matches Some(i) ==> spec_bps_patch(
        input,
        config.patches@[i].patch_data@,
        false,
    ) is Some
}

/// Picks the patch for the input's size, looks up the output checksum that the input's
/// checksum asks for, and applies the patch without its own checks. `None` where the
/// patch is malformed for this input, so that applying it would panic.
pub fn run_patch(config: &PatcherConfig, input: &[u8]) -> (r: Option<PatchOutcome>)
    ensures
        r is None <==> !patch_runs(*config, input@),
        r matches Some(outcome) ==> match spec_select_patch(config.patches@, input@.len() as usize) {
            None => outcome == PatchOutcome::UnexpectedSize(input@.len() as usize),
            Some(i) => {
                let p = config.patches@[i];
                let crc = spec_crc32(input@);
                let expected = spec_expected_output(p.checksums@, crc);
                match outcome {
                    PatchOutcome::PatchFailed { input_crc, expected_output_crc, error } => {
                        &&& input_crc == crc
                        &&& expected_output_crc == expected
                        &&& spec_bps_patch(input@, p.patch_data@, false) == Some(
                            Err::<Seq<u8>, BPSError>(error),
                        )
                    },
                    PatchOutcome::Patched { input_crc, expected_output_crc, output_crc, output } => {
                        &&& input_crc == crc
                        &&& expected_output_crc == expected
                        &&& spec_bps_patch(input@, p.patch_data@, false) == Some(
                            Ok::<Seq<u8>, BPSError>(output@),
                        )
                        &&& output_crc == spec_crc32(output@)
                    },
                    PatchOutcome::UnexpectedSize(_) => false,
                }
            },
        },
{
    let idx = match select_patch(config, input.len()) {
        Some(i) => i,
        None => return Some(PatchOutcome::UnexpectedSize(input.len())),
    };
    proof {
        lemma_select_bounds(config.patches@, input@.len() as usize);
    }
    let patch = &config.patches[idx];
    let input_crc = crc32(input);
    let expected = expected_output_crc(patch, input_crc);
    match bps_patch_try(input, patch.patch_data, false) {
        None => None,
        Some(Ok(output)) => {
            let output_crc = crc32(output.as_slice());
            Some(PatchOutcome::Patched { input_crc, expected_output_crc: expected, output_crc, output })
        },
        Some(Err(error)) => Some(PatchOutcome::PatchFailed { input_crc, expected_output_crc: expected, error }),
    }
}

} // verus!
