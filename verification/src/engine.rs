//! The dispatch/confirm engine: payload padding and the protocol decisions
//! of the polling backend.
//!
//! The transport (an HTTP client and the one-second polling throttle) lives
//! outside the library. It reports what each network interaction yielded as
//! a [`FetchOutcome`], and the functions here make every decision of the
//! protocol: how an outcome is classified into success or a retriable or
//! permanent error, and when the bounded confirmation scan ends.

use vstd::prelude::*;

use crate::CHUNK_SIZE;
use crate::error::DAError;
use crate::types::{BlobId, CryptarchiaInfo, ID_LEN};

verus! {

/// The length of a payload of length `len` after zero-padding it to a
/// multiple of the chunk size.
pub open spec fn padded_len(len: nat) -> nat {
    if len % (CHUNK_SIZE as nat) == 0 {
        len
    } else {
        (len + ((CHUNK_SIZE as nat) - len % (CHUNK_SIZE as nat))) as nat
    }
}

/// A padded payload is always a multiple of the chunk size long, and padding
/// never adds a full chunk.
pub proof fn lemma_padded_len_multiple(len: nat)
    ensures
        padded_len(len) % (CHUNK_SIZE as nat) == 0,
        len <= padded_len(len) < len + (CHUNK_SIZE as nat),
{
}

/// Zero-pads `data` in place to a multiple of the chunk size: a payload that
/// is already aligned (an empty one included) is left unchanged.
pub fn pad_payload(data: &mut Vec<u8>)
    requires
        old(data)@.len() + CHUNK_SIZE <= usize::MAX,
    ensures
        final(data)@.len() == padded_len(old(data)@.len()),
        final(data)@ =~= old(data)@ + Seq::new(
            (final(data)@.len() - old(data)@.len()) as nat,
            |i: int| 0u8,
        ),
{
    let rem: usize = data.len() % CHUNK_SIZE;
    if rem != 0 {
        let padding: usize = CHUNK_SIZE - rem;
        let mut i: usize = 0;
        let ghost orig = data@;
        while i < padding
            invariant
                i <= padding,
                padding == CHUNK_SIZE - orig.len() % (CHUNK_SIZE as nat),
                data@ =~= orig + Seq::new(i as nat, |j: int| 0u8),
                orig.len() + CHUNK_SIZE <= usize::MAX,
            decreases padding - i,
        {
            data.push(0);
            i += 1;
        }
    }
}

/// A dispatch past the hard scan limit fails permanently: the blob is
/// presumed absent after exhaustive search.
pub const HARD_SCAN_LIMIT: u32 = 30;

/// Past the soft scan limit, confirmation is abandoned without error and the
/// dispatch is still reported successful.
pub const SOFT_SCAN_LIMIT: u32 = 10;

/// What one HTTP interaction yielded, as the transport observed it: the
/// request could not be built, no response came back, a response came with
/// the given non-success status, a success response failed to parse, or a
/// value was parsed.
#[derive(Debug, Clone)]
pub enum FetchOutcome<T> {
    BuildFailed,
    TransportFailed,
    BadStatus(u16),
    ParseFailed,
    Parsed(T),
}

/// Whether the error `e` carries the flag and message of the model `m`.
pub open spec fn err_matches(e: DAError, m: (bool, Seq<char>)) -> bool {
    e.is_retriable == m.0 && e.message@ == m.1
}

/// How the dispersal response is classified: a malformed request is
/// permanent; no response, a bad status, or an unparseable body is transient
/// (the dispersal may still have succeeded server-side); a parsed body is a
/// blob id only if it holds exactly 32 bytes.
pub open spec fn dispersal_model(o: FetchOutcome<Vec<u8>>) -> Result<Seq<u8>, (bool, Seq<char>)> {
    match o {
        FetchOutcome::BuildFailed => Err((false, "Failed to build request"@)),
        FetchOutcome::TransportFailed => Err((true, "Failed to execute request"@)),
        FetchOutcome::BadStatus(_) => Err((true, "Failed to disperse data"@)),
        FetchOutcome::ParseFailed => Err((true, "Failed to parse response"@)),
        FetchOutcome::Parsed(body) => if body@.len() == ID_LEN {
            Ok(body@)
        } else {
            Err((true, "Failed to parse response"@))
        },
    }
}

/// How a chain-tip fetch is classified: a malformed request is permanent;
/// everything else that goes wrong is transient.
pub open spec fn tip_model(o: FetchOutcome<CryptarchiaInfo>) -> Result<
    CryptarchiaInfo,
    (bool, Seq<char>),
> {
    match o {
        FetchOutcome::BuildFailed => Err((false, "Failed to build request"@)),
        FetchOutcome::TransportFailed => Err((true, "Failed to execute request"@)),
        FetchOutcome::BadStatus(_) => Err((true, "Failed to get info"@)),
        FetchOutcome::ParseFailed => Err((true, "Failed to parse cryptarchia info"@)),
        FetchOutcome::Parsed(info) => Ok(info),
    }
}

/// How a block fetch is classified: a failed fetch (bad status) is permanent
/// — the block is presumed final and absent — while an unparseable block is
/// transient.
pub open spec fn block_model(o: FetchOutcome<Vec<BlobId>>) -> Result<
    Seq<Seq<u8>>,
    (bool, Seq<char>),
> {
    match o {
        FetchOutcome::BuildFailed => Err((false, "Failed to build request"@)),
        FetchOutcome::TransportFailed => Err((true, "Failed to execute request"@)),
        FetchOutcome::BadStatus(_) => Err((false, "Failed to get block"@)),
        FetchOutcome::ParseFailed => Err((true, "Failed to parse block"@)),
        FetchOutcome::Parsed(blobs) => Ok(blobs@.map_values(|b: Vec<u8>| b@)),
    }
}

/// Classifies the outcome of the dispersal request into the network-assigned
/// blob id or the error the caller must see.
pub fn classify_dispersal(o: FetchOutcome<Vec<u8>>) -> (r: Result<BlobId, DAError>)
    ensures
        match dispersal_model(o) {
            Ok(id) => r matches Ok(v) && v@ == id,
            Err(m) => r matches Err(e) && err_matches(e, m),
        },
{
    match o {
        FetchOutcome::BuildFailed => Err(DAError::new("Failed to build request", false)),
        FetchOutcome::TransportFailed => Err(DAError::new("Failed to execute request", true)),
        FetchOutcome::BadStatus(_) => Err(DAError::new("Failed to disperse data", true)),
        FetchOutcome::ParseFailed => Err(DAError::new("Failed to parse response", true)),
        FetchOutcome::Parsed(body) => {
            if body.len() == ID_LEN {
                Ok(body)
            } else {
                Err(DAError::new("Failed to parse response", true))
            }
        },
    }
}

/// Classifies the outcome of a chain-tip fetch into the validator's chain
/// view or the error that aborts the dispatch call.
pub fn classify_tip(o: FetchOutcome<CryptarchiaInfo>) -> (r: Result<CryptarchiaInfo, DAError>)
    ensures
        match tip_model(o) {
            Ok(info) => r matches Ok(v) && v == info,
            Err(m) => r matches Err(e) && err_matches(e, m),
        },
{
    match o {
        FetchOutcome::BuildFailed => Err(DAError::new("Failed to build request", false)),
        FetchOutcome::TransportFailed => Err(DAError::new("Failed to execute request", true)),
        FetchOutcome::BadStatus(_) => Err(DAError::new("Failed to get info", true)),
        FetchOutcome::ParseFailed => Err(DAError::new("Failed to parse cryptarchia info", true)),
        FetchOutcome::Parsed(info) => Ok(info),
    }
}

/// Classifies the outcome of a block fetch into the blob ids seen in that
/// block or the error that aborts the dispatch call.
pub fn classify_block(o: FetchOutcome<Vec<BlobId>>) -> (r: Result<Vec<BlobId>, DAError>)
    ensures
        match block_model(o) {
            Ok(ids) => r matches Ok(v) && v@.map_values(|b: Vec<u8>| b@) == ids,
            Err(m) => r matches Err(e) && err_matches(e, m),
        },
{
    match o {
        FetchOutcome::BuildFailed => Err(DAError::new("Failed to build request", false)),
        FetchOutcome::TransportFailed => Err(DAError::new("Failed to execute request", true)),
        FetchOutcome::BadStatus(_) => Err(DAError::new("Failed to get block", false)),
        FetchOutcome::ParseFailed => Err(DAError::new("Failed to parse block", true)),
        FetchOutcome::Parsed(blobs) => Ok(blobs),
    }
}

/// Where the confirmation scan stands: how many passes over the validator
/// list have completed, which validator is examined next, and how long the
/// list is.
#[derive(Debug, Clone, Copy, PartialEq, Eq, Structural)]
pub struct ConfirmState {
    pub scan_count: u32,
    pub validator_pos: usize,
    pub n_validators: usize,
}

impl ConfirmState {
    /// There is at least one validator, and the position points at one.
    pub open spec fn wf(&self) -> bool {
        self.n_validators >= 1 && self.validator_pos < self.n_validators
    }
}

/// The scan state at the start of confirmation.
pub fn confirm_start(n_validators: usize) -> (r: ConfirmState)
    requires
        n_validators >= 1,
    ensures
        r == (ConfirmState { scan_count: 0, validator_pos: 0, n_validators }),
        r.wf(),
{
    ConfirmState { scan_count: 0, validator_pos: 0, n_validators }
}

/// Whether the blob id `id` appears among `blobs`.
pub open spec fn contains_blob(blobs: Seq<Seq<u8>>, id: Seq<u8>) -> bool {
    exists|i: int| 0 <= i < blobs.len() && blobs[i] == id
}

/// Byte-string equality.
fn bytes_eq(a: &Vec<u8>, b: &Vec<u8>) -> (r: bool)
    ensures
        r == (a@ == b@),
{
    if a.len() != b.len() {
        proof {
            assert(a@.len() != b@.len());
        }
        return false;
    }
    let mut i: usize = 0;
    while i < a.len()
        invariant
            i <= a@.len(),
            a@.len() == b@.len(),
            forall|j: int| 0 <= j < i ==> a@[j] == b@[j],
        decreases a@.len() - i,
    {
        if a[i] != b[i] {
            return false;
        }
        i += 1;
    }
    proof {
        assert(a@ =~= b@);
    }
    true
}

/// Whether the submitted blob id appears among the blob ids of a block.
pub fn blob_found(blobs: &Vec<BlobId>, id: &BlobId) -> (r: bool)
    ensures
        r == contains_blob(blobs@.map_values(|b: Vec<u8>| b@), id@),
{
    let ghost ids = blobs@.map_values(|b: Vec<u8>| b@);
    let mut i: usize = 0;
    while i < blobs.len()
        invariant
            i <= blobs@.len(),
            ids == blobs@.map_values(|b: Vec<u8>| b@),
            forall|j: int| 0 <= j < i ==> ids[j] != id@,
        decreases blobs@.len() - i,
    {
        if bytes_eq(&blobs[i], id) {
            proof {
                assert(ids[i as int] == id@);
            }
            return true;
        }
        i += 1;
    }
    false
}

/// What the engine decides after one validator examination.
#[derive(Debug)]
pub enum ConfirmVerdict {
    /// The blob was sighted: confirmation ends successfully at once.
    Confirmed,
    /// The soft limit was passed without a sighting: confirmation is
    /// abandoned without error and the dispatch still succeeds.
    SoftTimeout,
    /// The hard limit was passed without a sighting: the dispatch fails
    /// permanently.
    HardFailure(DAError),
    /// Examine the next validator of the same pass.
    NextValidator(ConfirmState),
    /// The pass is complete: sleep one second, then start the next pass.
    NextPass(ConfirmState),
}

/// The abstract form of a [`ConfirmVerdict`], for stating contracts.
pub enum ConfirmStep {
    Confirmed,
    SoftTimeout,
    HardNotFound,
    NextValidator(ConfirmState),
    NextPass(ConfirmState),
}

/// What one examination decides, as a function of the scan state, the blob
/// ids seen, and the submitted id.
pub open spec fn step_model(state: ConfirmState, blobs: Seq<Seq<u8>>, id: Seq<u8>) -> ConfirmStep {
    if contains_blob(blobs, id) {
        ConfirmStep::Confirmed
    } else if state.scan_count > HARD_SCAN_LIMIT {
        ConfirmStep::HardNotFound
    } else if state.validator_pos + 1 < state.n_validators {
        ConfirmStep::NextValidator(
            ConfirmState {
                scan_count: state.scan_count,
                validator_pos: (state.validator_pos + 1) as usize,
                n_validators: state.n_validators,
            },
        )
    } else if state.scan_count + 1 > SOFT_SCAN_LIMIT {
        ConfirmStep::SoftTimeout
    } else {
        ConfirmStep::NextPass(
            ConfirmState {
                scan_count: (state.scan_count + 1) as u32,
                validator_pos: 0,
                n_validators: state.n_validators,
            },
        )
    }
}

/// Decides what follows one validator examination that yielded the blob ids
/// `blobs`: a sighting confirms at once; past the hard limit the dispatch
/// fails permanently; otherwise the scan advances, giving up softly once a
/// completed pass pushes the counter past the soft limit.
pub fn confirm_step(state: ConfirmState, blobs: &Vec<BlobId>, id: &BlobId) -> (r: ConfirmVerdict)
    requires
        state.wf(),
    ensures
        match step_model(state, blobs@.map_values(|b: Vec<u8>| b@), id@) {
            ConfirmStep::Confirmed => r matches ConfirmVerdict::Confirmed,
            ConfirmStep::SoftTimeout => r matches ConfirmVerdict::SoftTimeout,
            ConfirmStep::HardNotFound => r matches ConfirmVerdict::HardFailure(e)
                && !e.is_retriable && e.message@ == "Failed to find blob in block"@,
            ConfirmStep::NextValidator(s) => r matches ConfirmVerdict::NextValidator(s2) && s2 == s
                && s2.wf(),
            ConfirmStep::NextPass(s) => r matches ConfirmVerdict::NextPass(s2) && s2 == s
                && s2.wf(),
        },
{
    if blob_found(blobs, id) {
        ConfirmVerdict::Confirmed
    } else if state.scan_count > HARD_SCAN_LIMIT {
        ConfirmVerdict::HardFailure(DAError::new("Failed to find blob in block", false))
    } else if state.validator_pos + 1 < state.n_validators {
        ConfirmVerdict::NextValidator(
            ConfirmState {
                scan_count: state.scan_count,
                validator_pos: state.validator_pos + 1,
                n_validators: state.n_validators,
            },
        )
    } else {
        let next_count = state.scan_count + 1;
        if next_count > SOFT_SCAN_LIMIT {
            ConfirmVerdict::SoftTimeout
        } else {
            ConfirmVerdict::NextPass(
                ConfirmState {
                    scan_count: next_count,
                    validator_pos: 0,
                    n_validators: state.n_validators,
                },
            )
        }
    }
}

/// One validator examination as the transport observed it: the outcome of
/// the chain-tip fetch and, when a tip was obtained, of the block fetch for
/// that tip. When the tip fetch failed, the block field is not consulted.
#[derive(Debug, Clone)]
pub struct ValidatorObservation {
    pub tip: FetchOutcome<CryptarchiaInfo>,
    pub block: FetchOutcome<Vec<BlobId>>,
}

/// The abstract outcome of a whole confirmation run.
pub enum ConfirmOutcome {
    /// The blob was sighted on some validator.
    Confirmed,
    /// The soft limit was passed without a sighting; the dispatch still
    /// succeeds.
    SoftTimeout,
    /// The hard limit was passed without a sighting; the dispatch fails
    /// permanently.
    HardNotFound,
    /// A validator interaction failed and aborted the dispatch with the
    /// given retriability and message. A missing observation counts as a
    /// transport failure: silence is no response.
    Aborted(bool, Seq<char>),
}

/// What confirmation decides, as a function of the scan state, the submitted
/// blob id, and the sequence of validator observations from index `i` on.
pub open spec fn confirm_model(
    state: ConfirmState,
    id: Seq<u8>,
    obs: Seq<ValidatorObservation>,
    i: int,
) -> ConfirmOutcome
    decreases obs.len() - i,
{
    if i < 0 || i >= obs.len() {
        ConfirmOutcome::Aborted(true, "Failed to execute request"@)
    } else {
        match tip_model(obs[i].tip) {
            Err(m) => ConfirmOutcome::Aborted(m.0, m.1),
            Ok(_) => match block_model(obs[i].block) {
                Err(m) => ConfirmOutcome::Aborted(m.0, m.1),
                Ok(blobs) => match step_model(state, blobs, id) {
                    ConfirmStep::Confirmed => ConfirmOutcome::Confirmed,
                    ConfirmStep::SoftTimeout => ConfirmOutcome::SoftTimeout,
                    ConfirmStep::HardNotFound => ConfirmOutcome::HardNotFound,
                    ConfirmStep::NextValidator(s) => confirm_model(s, id, obs, i + 1),
                    ConfirmStep::NextPass(s) => confirm_model(s, id, obs, i + 1),
                },
            },
        }
    }
}

/// The error part of a tip fetch, classified as [`tip_model`] does.
fn tip_check(o: &FetchOutcome<CryptarchiaInfo>) -> (r: Result<(), DAError>)
    ensures
        match tip_model(*o) {
            Ok(_) => r is Ok,
            Err(m) => r matches Err(e) && err_matches(e, m),
        },
{
    match o {
        FetchOutcome::BuildFailed => Err(DAError::new("Failed to build request", false)),
        FetchOutcome::TransportFailed => Err(DAError::new("Failed to execute request", true)),
        FetchOutcome::BadStatus(_) => Err(DAError::new("Failed to get info", true)),
        FetchOutcome::ParseFailed => Err(DAError::new("Failed to parse cryptarchia info", true)),
        FetchOutcome::Parsed(_) => Ok(()),
    }
}

/// The blob ids of a block fetch, classified as [`block_model`] does.
fn block_check<'a>(o: &'a FetchOutcome<Vec<BlobId>>) -> (r: Result<&'a Vec<BlobId>, DAError>)
    ensures
        match block_model(*o) {
            Ok(ids) => r matches Ok(v) && v@.map_values(|b: Vec<u8>| b@) == ids,
            Err(m) => r matches Err(e) && err_matches(e, m),
        },
{
    match o {
        FetchOutcome::BuildFailed => Err(DAError::new("Failed to build request", false)),
        FetchOutcome::TransportFailed => Err(DAError::new("Failed to execute request", true)),
        FetchOutcome::BadStatus(_) => Err(DAError::new("Failed to get block", false)),
        FetchOutcome::ParseFailed => Err(DAError::new("Failed to parse block", true)),
        FetchOutcome::Parsed(blobs) => Ok(blobs),
    }
}

/// Runs the bounded confirmation scan over recorded observations, one per
/// validator examination, starting at `obs[i]`. Ends successfully on a
/// sighting or on the soft give-up; fails permanently past the hard limit;
/// aborts with the classified error when a validator interaction failed or
/// the observations ran out.
pub fn run_confirmation(
    state: ConfirmState,
    id: &BlobId,
    obs: &Vec<ValidatorObservation>,
    i: usize,
) -> (r: Result<(), DAError>)
    requires
        state.wf(),
    ensures
        match confirm_model(state, id@, obs@, i as int) {
            ConfirmOutcome::Confirmed => r is Ok,
            ConfirmOutcome::SoftTimeout => r is Ok,
            ConfirmOutcome::HardNotFound => r matches Err(e) && !e.is_retriable && e.message@
                == "Failed to find blob in block"@,
            ConfirmOutcome::Aborted(retriable, message) => r matches Err(e) && e.is_retriable
                == retriable && e.message@ == message,
        },
    decreases obs@.len() - i,
{
    if i >= obs.len() {
        return Err(DAError::new("Failed to execute request", true));
    }
    let ob = &obs[i];
    match tip_check(&ob.tip) {
        Err(e) => Err(e),
        Ok(_) => match block_check(&ob.block) {
            Err(e) => Err(e),
            Ok(blobs) => match confirm_step(state, blobs, id) {
                ConfirmVerdict::Confirmed => Ok(()),
                ConfirmVerdict::SoftTimeout => Ok(()),
                ConfirmVerdict::HardFailure(e) => Err(e),
                ConfirmVerdict::NextValidator(s) => run_confirmation(s, id, obs, i + 1),
                ConfirmVerdict::NextPass(s) => run_confirmation(s, id, obs, i + 1),
            },
        },
    }
}

/// Whether an observation does not show the blob `id`: its block fetch
/// either failed or yielded blob ids without `id`.
pub open spec fn observation_misses(ob: ValidatorObservation, id: Seq<u8>) -> bool {
    match block_model(ob.block) {
        Ok(blobs) => !contains_blob(blobs, id),
        Err(_) => true,
    }
}

/// Whether an observation is a clean miss: both fetches succeeded, and the
/// blob was not among the ids seen.
pub open spec fn observation_clean_miss(ob: ValidatorObservation, id: Seq<u8>) -> bool {
    tip_model(ob.tip) is Ok && block_model(ob.block) is Ok && observation_misses(ob, id)
}

/// Law: if no observation ever shows the blob, confirmation never reports it
/// confirmed, from any scan state.
pub proof fn lemma_no_sighting_never_confirms(
    state: ConfirmState,
    id: Seq<u8>,
    obs: Seq<ValidatorObservation>,
    i: int,
)
    requires
        forall|j: int| i <= j < obs.len() ==> observation_misses(#[trigger] obs[j], id),
    ensures
        confirm_model(state, id, obs, i) != ConfirmOutcome::Confirmed,
    decreases obs.len() - i,
{
    if 0 <= i < obs.len() {
        if tip_model(obs[i].tip) is Ok && block_model(obs[i].block) is Ok {
            let blobs = block_model(obs[i].block)->Ok_0;
            match step_model(state, blobs, id) {
                ConfirmStep::NextValidator(s) => {
                    lemma_no_sighting_never_confirms(s, id, obs, i + 1);
                },
                ConfirmStep::NextPass(s) => {
                    lemma_no_sighting_never_confirms(s, id, obs, i + 1);
                },
                _ => {},
            }
        }
    }
}

/// Law (hard bound): past the hard scan limit, a validator examination that
/// still misses the blob ends the whole call with the permanent,
/// non-retriable not-found outcome.
pub proof fn lemma_hard_bound(
    state: ConfirmState,
    id: Seq<u8>,
    obs: Seq<ValidatorObservation>,
    i: int,
)
    requires
        state.scan_count > HARD_SCAN_LIMIT,
        0 <= i < obs.len(),
        observation_clean_miss(obs[i], id),
    ensures
        confirm_model(state, id, obs, i) == ConfirmOutcome::HardNotFound,
{
}

/// How many validator examinations remain until the soft give-up, when every
/// examination misses.
pub open spec fn examinations_to_soft_timeout(state: ConfirmState) -> int {
    (state.n_validators - state.validator_pos) + if state.scan_count >= SOFT_SCAN_LIMIT {
        0int
    } else {
        (SOFT_SCAN_LIMIT - state.scan_count) * state.n_validators
    }
}

/// Law (soft bound): within the hard limit, a run of clean misses long
/// enough ends confirmation with the soft give-up — reported as success even
/// though inclusion was never positively observed.
pub proof fn lemma_soft_bound(
    state: ConfirmState,
    id: Seq<u8>,
    obs: Seq<ValidatorObservation>,
    i: int,
)
    requires
        state.wf(),
        state.scan_count <= HARD_SCAN_LIMIT,
        0 <= i,
        i + examinations_to_soft_timeout(state) <= obs.len(),
        forall|j: int| i <= j < obs.len() ==> observation_clean_miss(#[trigger] obs[j], id),
    ensures
        confirm_model(state, id, obs, i) == ConfirmOutcome::SoftTimeout,
    decreases examinations_to_soft_timeout(state),
{
    assert(examinations_to_soft_timeout(state) >= 1) by {
        if state.scan_count < SOFT_SCAN_LIMIT {
            vstd::arithmetic::mul::lemma_mul_increases(
                state.n_validators as int,
                SOFT_SCAN_LIMIT - state.scan_count,
            );
        }
    }
    assert(i < obs.len());
    let blobs = block_model(obs[i].block)->Ok_0;
    assert(!contains_blob(blobs, id));
    match step_model(state, blobs, id) {
        ConfirmStep::NextValidator(s) => {
            assert(examinations_to_soft_timeout(s) == examinations_to_soft_timeout(state) - 1);
            lemma_soft_bound(s, id, obs, i + 1);
        },
        ConfirmStep::NextPass(s) => {
            let sl = SOFT_SCAN_LIMIT as int;
            let cc = state.scan_count as int;
            let n = state.n_validators as int;
            assert(state.validator_pos + 1 == state.n_validators);
            assert(s.scan_count == cc + 1 && s.validator_pos == 0 && s.n_validators
                == state.n_validators);
            assert(cc < sl);
            if cc + 1 == sl {
                assert((sl - (cc + 1)) * n == 0) by (nonlinear_arith)
                    requires
                        sl == cc + 1,
                ;
                assert((sl - cc) * n == n) by (nonlinear_arith)
                    requires
                        sl - cc == 1,
                ;
            } else {
                assert((sl - cc) * n == (sl - (cc + 1)) * n + n) by (nonlinear_arith);
            }
            assert(examinations_to_soft_timeout(s) == examinations_to_soft_timeout(state) - 1);
            lemma_soft_bound(s, id, obs, i + 1);
        },
        ConfirmStep::SoftTimeout => {},
        _ => {
            assert(false);
        },
    }
}

} // verus!
