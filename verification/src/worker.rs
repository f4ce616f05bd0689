//! One mining worker: it holds the block data with the pool's extra nonce embedded, tries its
//! own nonce, double-hashes the block, scores the digest and advances the nonce.
use vstd::prelude::*;

use rand::RngCore;

use crate::difficulty::{
    difficulty_defined, difficulty_window, leading_zero_digits, meets_target, score_digest,
    DigestScore,
};
use crate::hash::{sha256_digest_as_bytes, sha256_of};
use crate::hexcode::{hex_bytes, hex_decode, hex_error_of, valid_hex, HexError};
use crate::nonce::{increment_u8_array, le_value, pow256};
use vstd::string::StringSliceAdditionalSpecFns;

verus! {

/// The operating system could not supply random bytes.
#[derive(Debug, Clone, Copy, PartialEq, Eq, Structural)]
pub struct RandomnessUnavailable;

/// `RngCore::try_fill_bytes` on `rand::rngs::OsRng`: overwrites `dest` with random bytes from
/// the operating system, or reports that it could not. Nothing is promised of the bytes, nor of
/// which outcome comes, but that the length stays.
#[verifier::external_body]
fn os_fill_bytes(dest: &mut Vec<u8>) -> (r: Result<(), RandomnessUnavailable>)
    ensures
        final(dest)@.len() == old(dest)@.len(),
{
    match rand::rngs::OsRng.try_fill_bytes(dest.as_mut_slice()) {
        Ok(()) => Ok(()),
        Err(_) => Err(RandomnessUnavailable),
    }
}

/// Where the pool's extra nonce starts in the block data.
pub const NONCE_OFFSET: usize = 4;

/// Length of the whole nonce: the pool's extra nonce followed by the worker's own.
pub const NONCE_LEN: usize = 16;

/// `s` with `part` written over it from position `at`.
pub open spec fn splice(s: Seq<u8>, at: int, part: Seq<u8>) -> Seq<u8> {
    s.take(at) + part + s.skip(at + part.len())
}

/// A solution found by a worker.
#[derive(Debug)]
pub struct FoundAnswerResponse {
    pub job_id: String,
    /// The pool's extra nonce.
    pub extra_nonce: Vec<u8>,
    /// The worker's own nonce that gave the solution.
    pub nonce: Vec<u8>,
    /// The double SHA-256 digest of the block data.
    pub answer: Vec<u8>,
    pub difficulty: u128,
    pub zeroes: u8,
}

/// Why a worker cannot start.
#[derive(Debug, Clone, Copy, PartialEq, Eq, Structural)]
pub enum WorkerError {
    /// The block data is not hex.
    BlockDataNotHex(HexError),
    /// Extra nonce 1 is not hex.
    ExtraNonce1NotHex(HexError),
    /// The pool's extra nonce and the worker's own do not make up the whole nonce.
    CombinedNonceLength { extra_nonce_1_len: usize, extra_nonce_2_size: usize },
    /// The block data is too short to hold the pool's extra nonce.
    BlockTooShort { block_len: usize, extra_nonce_1_end: usize },
    /// No random starting nonce could be drawn.
    RandomnessUnavailable,
}

/// The outcome of one attempt.
#[derive(Debug)]
pub enum StepOutcome {
    /// The block was hashed and scored; a solution is handed out when the digest meets the
    /// target. The nonce has moved on.
    Hashed(Option<FoundAnswerResponse>),
    /// The block data is too short to hold the whole nonce.
    NonceOutOfRange,
    /// The digest's first non-zero byte sits too near its end for the difficulty to be read.
    Unscorable,
}

/// A mining worker.
#[derive(Debug)]
pub struct Worker {
    job_id: String,
    bytes: Vec<u8>,
    extra_nonce_1: Vec<u8>,
    generated_nonce: Vec<u8>,
    expected_diff: u8,
    expected_zeroes: u8,
}

impl Worker {
    /// The job the worker mines.
    pub closed spec fn job_id(&self) -> Seq<char> {
        self.job_id@
    }

    /// The block data as last hashed, with the pool's extra nonce embedded.
    pub closed spec fn block(&self) -> Seq<u8> {
        self.bytes@
    }

    /// The pool's extra nonce.
    pub closed spec fn extra_nonce_1(&self) -> Seq<u8> {
        self.extra_nonce_1@
    }

    /// The worker's own nonce for the next attempt.
    pub closed spec fn nonce(&self) -> Seq<u8> {
        self.generated_nonce@
    }

    /// Difficulty number bound of the target.
    pub closed spec fn expected_diff(&self) -> u8 {
        self.expected_diff
    }

    /// Leading zero digits of the target.
    pub closed spec fn expected_zeroes(&self) -> u8 {
        self.expected_zeroes
    }

    /// The two nonces make up the whole nonce, and the pool's extra nonce stands in the block
    /// data right after the offset.
    pub closed spec fn wf(&self) -> bool {
        &&& self.extra_nonce_1@.len() + self.generated_nonce@.len() == NONCE_LEN
        &&& NONCE_OFFSET + self.extra_nonce_1@.len() <= self.bytes@.len()
        &&& self.bytes@.subrange(
            NONCE_OFFSET as int,
            NONCE_OFFSET + self.extra_nonce_1@.len(),
        ) == self.extra_nonce_1@
    }
    /// A worker on `job_id` whose block data is `block` with `extra_nonce_1` written over it
    /// at the offset, starting from the nonce `initial_nonce`. It needs the two nonces to make
    /// up the whole nonce and the block data to hold the pool's extra nonce.
    pub fn assemble(
        job_id: String,
        block: Vec<u8>,
        extra_nonce_1: Vec<u8>,
        initial_nonce: Vec<u8>,
        expected_diff: u8,
        expected_zeroes: u8,
    ) -> (r: Result<Worker, WorkerError>)
        ensures
            match r {
                Ok(w) => {
                    &&& extra_nonce_1@.len() + initial_nonce@.len() == NONCE_LEN
                    &&& NONCE_OFFSET + extra_nonce_1@.len() <= block@.len()
                    &&& w.wf()
                    &&& w.job_id() == job_id@
                    &&& w.block() == splice(block@, NONCE_OFFSET as int, extra_nonce_1@)
                    &&& w.extra_nonce_1() == extra_nonce_1@
                    &&& w.nonce() == initial_nonce@
                    &&& w.expected_diff() == expected_diff
                    &&& w.expected_zeroes() == expected_zeroes
                },
                Err(WorkerError::CombinedNonceLength { extra_nonce_1_len, extra_nonce_2_size }) => {
                    &&& extra_nonce_1@.len() + initial_nonce@.len() != NONCE_LEN
                    &&& extra_nonce_1_len == extra_nonce_1@.len()
                    &&& extra_nonce_2_size == initial_nonce@.len()
                },
                Err(WorkerError::BlockTooShort { block_len, extra_nonce_1_end }) => {
                    &&& extra_nonce_1@.len() + initial_nonce@.len() == NONCE_LEN
                    &&& NONCE_OFFSET + extra_nonce_1@.len() > block@.len()
                    &&& block_len == block@.len()
                    &&& extra_nonce_1_end == NONCE_OFFSET + extra_nonce_1@.len()
                },
                Err(_) => false,
            },
    {
        let n1 = extra_nonce_1.len();
        let n2 = initial_nonce.len();
        if n1 > NONCE_LEN || n2 != NONCE_LEN - n1 {
            return Err(WorkerError::CombinedNonceLength { extra_nonce_1_len: n1, extra_nonce_2_size: n2 });
        }
        if NONCE_OFFSET + n1 > block.len() {
            return Err(WorkerError::BlockTooShort { block_len: block.len(), extra_nonce_1_end: NONCE_OFFSET + n1 });
        }
        let mut bytes = block;
        let ghost original = bytes@;
        let mut j: usize = 0;
        while j < n1
            invariant
                n1 == extra_nonce_1@.len(),
                NONCE_OFFSET + n1 <= original.len(),
                bytes@.len() == original.len(),
                NONCE_OFFSET + n1 <= bytes.len(),
                j <= n1,
                forall|k: int| 0 <= k < NONCE_OFFSET ==> bytes@[k] == original[k],
                forall|k: int| NONCE_OFFSET + j <= k < original.len() ==> bytes@[k] == original[k],
                forall|k: int|
                    NONCE_OFFSET <= k < NONCE_OFFSET + j ==> bytes@[k] == extra_nonce_1@[k
                        - NONCE_OFFSET],
            decreases n1 - j,
        {
            bytes.set(NONCE_OFFSET + j, extra_nonce_1[j]);
            j = j + 1;
        }
        proof {
            let want = splice(original, NONCE_OFFSET as int, extra_nonce_1@);
            assert forall|k: int| 0 <= k < original.len() implies bytes@[k] == want[k] by {
            }
            assert(bytes@ =~= want);
            assert(bytes@.subrange(NONCE_OFFSET as int, NONCE_OFFSET + n1) =~= extra_nonce_1@);
        }
        Ok(Worker {
            job_id,
            bytes,
            extra_nonce_1,
            generated_nonce: initial_nonce,
            expected_diff,
            expected_zeroes,
        })
    }

    /// A worker on job `job_id` for the block data `block_hex` and the pool's extra nonce
    /// `extra_nonce_1_hex`, both hex text, choosing `extra_nonce_2_size` nonce bytes of its own,
    /// starting from random ones drawn from the operating system. The texts must be hex, the two
    /// nonces must make up the whole nonce, and the block data must hold the pool's extra nonce;
    /// when all that holds, it fails only if no random bytes can be drawn.
    pub fn new(
        job_id: &str,
        block_hex: &str,
        expected_diff: u8,
        expected_zeroes: u8,
        extra_nonce_1_hex: &str,
        extra_nonce_2_size: usize,
    ) -> (r: Result<Worker, WorkerError>)
        ensures
            match r {
                Err(WorkerError::BlockDataNotHex(e)) => hex_error_of(block_hex.spec_bytes(), e),
                Err(WorkerError::ExtraNonce1NotHex(e)) => {
                    &&& valid_hex(block_hex.spec_bytes())
                    &&& hex_error_of(extra_nonce_1_hex.spec_bytes(), e)
                },
                Err(WorkerError::CombinedNonceLength { extra_nonce_1_len, extra_nonce_2_size: n2 }) => {
                    &&& valid_hex(block_hex.spec_bytes())
                    &&& valid_hex(extra_nonce_1_hex.spec_bytes())
                    &&& extra_nonce_1_len == hex_bytes(extra_nonce_1_hex.spec_bytes()).len()
                    &&& n2 == extra_nonce_2_size
                    &&& extra_nonce_1_len + extra_nonce_2_size != NONCE_LEN
                },
                Err(WorkerError::BlockTooShort { block_len, extra_nonce_1_end }) => {
                    &&& valid_hex(block_hex.spec_bytes())
                    &&& valid_hex(extra_nonce_1_hex.spec_bytes())
                    &&& hex_bytes(extra_nonce_1_hex.spec_bytes()).len() + extra_nonce_2_size == NONCE_LEN
                    &&& block_len == hex_bytes(block_hex.spec_bytes()).len()
                    &&& extra_nonce_1_end == NONCE_OFFSET + hex_bytes(extra_nonce_1_hex.spec_bytes()).len()
                    &&& extra_nonce_1_end > block_len
                },
                Err(WorkerError::RandomnessUnavailable) => {
                    let block = hex_bytes(block_hex.spec_bytes());
                    let extra = hex_bytes(extra_nonce_1_hex.spec_bytes());
                    &&& valid_hex(block_hex.spec_bytes())
                    &&& valid_hex(extra_nonce_1_hex.spec_bytes())
                    &&& extra.len() + extra_nonce_2_size == NONCE_LEN
                    &&& NONCE_OFFSET + extra.len() <= block.len()
                },
                Ok(w) => {
                    let block = hex_bytes(block_hex.spec_bytes());
                    let extra = hex_bytes(extra_nonce_1_hex.spec_bytes());
                    &&& valid_hex(block_hex.spec_bytes())
                    &&& valid_hex(extra_nonce_1_hex.spec_bytes())
                    &&& extra.len() + extra_nonce_2_size == NONCE_LEN
                    &&& NONCE_OFFSET + extra.len() <= block.len()
                    &&& w.wf()
                    &&& w.job_id() == job_id@
                    &&& w.block() == splice(block, NONCE_OFFSET as int, extra)
                    &&& w.extra_nonce_1() == extra
                    &&& w.nonce().len() == extra_nonce_2_size
                    &&& w.expected_diff() == expected_diff
                    &&& w.expected_zeroes() == expected_zeroes
                },
            },
    {
        let block = match hex_decode(block_hex) {
            Ok(v) => v,
            Err(e) => {
                return Err(WorkerError::BlockDataNotHex(e));
            },
        };
        let extra_nonce_1 = match hex_decode(extra_nonce_1_hex) {
            Ok(v) => v,
            Err(e) => {
                return Err(WorkerError::ExtraNonce1NotHex(e));
            },
        };
        let n1 = extra_nonce_1.len();
        if n1 > NONCE_LEN || extra_nonce_2_size != NONCE_LEN - n1 {
            return Err(
                WorkerError::CombinedNonceLength {
                    extra_nonce_1_len: n1,
                    extra_nonce_2_size: extra_nonce_2_size,
                },
            );
        }
        if NONCE_OFFSET + n1 > block.len() {
            return Err(WorkerError::BlockTooShort { block_len: block.len(), extra_nonce_1_end: NONCE_OFFSET + n1 });
        }
        let mut generated_nonce: Vec<u8> = vec![0u8; extra_nonce_2_size];
        if os_fill_bytes(&mut generated_nonce).is_err() {
            return Err(WorkerError::RandomnessUnavailable);
        }
        Worker::assemble(
            job_id.to_owned(),
            block,
            extra_nonce_1,
            generated_nonce,
            expected_diff,
            expected_zeroes,
        )
    }
    /// One attempt: writes the worker's nonce into the block data after the pool's extra
    /// nonce, hashes the block data twice with SHA-256 and scores the digest against the
    /// target; a solution carries the job, both nonces, the digest and its score. Then the
    /// nonce moves on to the next little-endian value.
    pub fn step(&mut self) -> (r: StepOutcome)
        requires
            old(self).wf(),
        ensures
            final(self).wf(),
            final(self).job_id() == old(self).job_id(),
            final(self).extra_nonce_1() == old(self).extra_nonce_1(),
            final(self).expected_diff() == old(self).expected_diff(),
            final(self).expected_zeroes() == old(self).expected_zeroes(),
            ({
                let start = NONCE_OFFSET + old(self).extra_nonce_1().len();
                let trial = splice(old(self).block(), start, old(self).nonce());
                let digest = sha256_of(sha256_of(trial));
                if start + old(self).nonce().len() > old(self).block().len() {
                    &&& r is NonceOutOfRange
                    &&& final(self).block() == old(self).block()
                    &&& final(self).nonce() == old(self).nonce()
                } else if !difficulty_defined(digest) {
                    &&& r is Unscorable
                    &&& final(self).block() == trial
                    &&& final(self).nonce() == old(self).nonce()
                } else {
                    &&& final(self).block() == trial
                    &&& final(self).nonce().len() == old(self).nonce().len()
                    &&& le_value(final(self).nonce()) == (le_value(old(self).nonce()) + 1) % pow256(
                        old(self).nonce().len(),
                    )
                    &&& match r {
                        StepOutcome::Hashed(found) => {
                            &&& found is Some <==> meets_target(
                                leading_zero_digits(digest),
                                difficulty_window(digest),
                                old(self).expected_zeroes() as nat,
                                old(self).expected_diff() as nat,
                            )
                            &&& found matches Some(a) ==> {
                                &&& a.job_id@ == old(self).job_id()
                                &&& a.extra_nonce@ == old(self).extra_nonce_1()
                                &&& a.nonce@ == old(self).nonce()
                                &&& a.answer@ == digest
                                &&& a.answer@.len() == 32
                                &&& a.zeroes == leading_zero_digits(digest)
                                &&& a.difficulty == difficulty_window(digest)
                            }
                        },
                        _ => false,
                    }
                }
            }),
    {
        let start = NONCE_OFFSET + self.extra_nonce_1.len();
        let n2 = self.generated_nonce.len();
        if n2 > self.bytes.len() - start {
            return StepOutcome::NonceOutOfRange;
        }
        let ghost original = self.bytes@;
        let mut j: usize = 0;
        while j < n2
            invariant
                start == NONCE_OFFSET + self.extra_nonce_1@.len(),
                n2 == self.generated_nonce@.len(),
                start + n2 <= original.len(),
                start + n2 <= self.bytes.len(),
                self.bytes@.len() == original.len(),
                original == old(self).bytes@,
                self.job_id == old(self).job_id,
                self.extra_nonce_1 == old(self).extra_nonce_1,
                self.generated_nonce == old(self).generated_nonce,
                self.expected_diff == old(self).expected_diff,
                self.expected_zeroes == old(self).expected_zeroes,
                j <= n2,
                forall|k: int| 0 <= k < start ==> self.bytes@[k] == original[k],
                forall|k: int| start + j <= k < original.len() ==> self.bytes@[k] == original[k],
                forall|k: int|
                    start <= k < start + j ==> self.bytes@[k] == self.generated_nonce@[k - start],
            decreases n2 - j,
        {
            self.bytes.set(start + j, self.generated_nonce[j]);
            j = j + 1;
        }
        proof {
            let want = splice(original, start as int, self.generated_nonce@);
            assert forall|k: int| 0 <= k < original.len() implies self.bytes@[k] == want[k] by {}
            assert(self.bytes@ =~= want);
            assert(self.bytes@.subrange(NONCE_OFFSET as int, start as int) =~= original.subrange(
                NONCE_OFFSET as int,
                start as int,
            ));
        }
        let hashed_data = sha256_digest_as_bytes(self.bytes.as_slice());
        let hashed_hash = sha256_digest_as_bytes(hashed_data.as_slice());
        match score_digest(hashed_hash.as_slice(), self.expected_zeroes, self.expected_diff) {
            DigestScore::Unscorable => StepOutcome::Unscorable,
            DigestScore::Scored { zeroes, difficulty, solution } => {
                let found = if solution {
                    Some(
                        FoundAnswerResponse {
                            job_id: self.job_id.clone(),
                            extra_nonce: vstd::slice::slice_to_vec(self.extra_nonce_1.as_slice()),
                            nonce: vstd::slice::slice_to_vec(self.generated_nonce.as_slice()),
                            answer: vstd::slice::slice_to_vec(hashed_hash.as_slice()),
                            difficulty,
                            zeroes,
                        },
                    )
                } else {
                    None
                };
                increment_u8_array(self.generated_nonce.as_mut_slice());
                StepOutcome::Hashed(found)
            },
        }
    }
}

} // verus!
