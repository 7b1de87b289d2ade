//! The polling backend's client and the capability contract it implements.
//!
//! The client holds the validated configuration and secrets; the transport
//! (HTTP and the polling throttle) lives with the caller, which feeds each
//! interaction's outcome back in as a [`FetchOutcome`]. Every decision of
//! the dispatch-then-confirm protocol is made and verified here.

use vstd::prelude::*;

use crate::CHUNK_SIZE;
use crate::codec::{decimal_chars, hex_decode, hex_decoded, is_hex_seq, u32_to_decimal, utf8_bytes};
use crate::config::{NomosDaConfig, NomosSecrets};
use crate::engine::{
    classify_dispersal, confirm_model, confirm_start, dispersal_model, err_matches, pad_payload,
    padded_len, run_confirmation, ConfirmOutcome, FetchOutcome, ValidatorObservation,
};
use crate::error::DAError;
use crate::types::{
    AppId, BackendKind, DispatchResponse, DispersalRequest, FinalityResponse, InclusionData,
    MetaData, ID_LEN, INDEX_LEN,
};

verus! {

/// How many commas the byte string `s` holds.
pub open spec fn comma_count(s: Seq<u8>) -> nat
    decreases s.len(),
{
    if s.len() == 0 {
        0
    } else {
        comma_count(s.drop_last()) + if s.last() == 44u8 {
            1nat
        } else {
            0nat
        }
    }
}

/// The capability contract every DA backend implements uniformly: submit a
/// payload, report on finality and inclusion of a prior dispatch, report
/// balance, identity tag, and size limit. Side effects are confined to the
/// transport; no backend mutates shared process state. Every error carries
/// the retriable flag, and callers must not retry on a non-retriable error.
pub trait DataAvailabilityClient {
    /// Reports whether/when the dispatch with the given correlation id
    /// became final.
    fn ensure_finality(&self, dispatch_request_id: String) -> Result<
        Option<FinalityResponse>,
        DAError,
    >;

    /// Fetches a proof of inclusion for a dispersed blob, if available.
    fn get_inclusion_data(&self, blob_id: &str) -> Result<Option<InclusionData>, DAError>;

    /// Reports the account balance with the DA network, if applicable.
    fn balance(&self) -> Result<u64, DAError>;

    /// The backend's static identity tag.
    fn client_type(&self) -> BackendKind;

    /// The backend-specific maximum payload size, or none.
    fn blob_size_limit(&self) -> Option<usize>;
}

/// The polling backend's client: validated configuration and secrets, under
/// which every protocol decision is made. Cloning yields an independently
/// owned handle over the same configuration.
#[derive(Debug, Clone)]
pub struct NomosDaClient {
    pub config: NomosDaConfig,
    pub secrets: NomosSecrets,
}

impl NomosDaClient {
    /// Whether the configured namespace id is well-formed: a hex string
    /// denoting exactly 32 bytes. Construction establishes it.
    pub open spec fn app_id_ok(config: &NomosDaConfig) -> bool {
        is_hex_seq(utf8_bytes(config.app_id@)) && hex_decoded(utf8_bytes(config.app_id@)).len()
            == ID_LEN
    }

    /// The decoded namespace identifier of a configuration.
    pub open spec fn spec_app_id(config: &NomosDaConfig) -> Seq<u8> {
        hex_decoded(utf8_bytes(config.app_id@))
    }

    /// Constructs a client, validating the namespace id outright: a
    /// malformed app id is a configuration error that retrying cannot fix.
    pub fn new(config: NomosDaConfig, secrets: NomosSecrets) -> (r: Result<NomosDaClient, DAError>)
        ensures
            match r {
                Ok(c) => Self::app_id_ok(&config) && c.config == config && c.secrets == secrets,
                Err(e) => !Self::app_id_ok(&config) && !e.is_retriable && e.message@
                    == "Failed to decode app_id"@,
            },
    {
        let ok = match hex_decode(config.app_id.as_str().as_bytes()) {
            Some(v) => v.len() == ID_LEN,
            None => false,
        };
        if ok {
            Ok(NomosDaClient { config, secrets })
        } else {
            Err(DAError::new("Failed to decode app_id", false))
        }
    }

    /// Decodes the configured namespace id into its 32 bytes; failure is
    /// permanent (non-retriable).
    pub fn get_app_id(&self) -> (r: Result<AppId, DAError>)
        ensures
            match r {
                Ok(v) => Self::app_id_ok(&self.config) && v@ == Self::spec_app_id(&self.config)
                    && v@.len() == ID_LEN,
                Err(e) => !Self::app_id_ok(&self.config) && !e.is_retriable && e.message@
                    == "Failed to decode app_id"@,
            },
    {
        match hex_decode(self.config.app_id.as_str().as_bytes()) {
            Some(v) => {
                if v.len() == ID_LEN {
                    Ok(v)
                } else {
                    Err(DAError::new("Failed to decode app_id", false))
                }
            },
            None => Err(DAError::new("Failed to decode app_id", false)),
        }
    }

    /// How many validator endpoints the configuration names: one more than
    /// the commas of the comma-separated list.
    pub fn n_validators(&self) -> (r: usize)
        requires
            utf8_bytes(self.config.validator_rpcs@).len() < usize::MAX,
        ensures
            r == comma_count(utf8_bytes(self.config.validator_rpcs@)) + 1,
            r >= 1,
    {
        let bytes = self.config.validator_rpcs.as_str().as_bytes();
        let n = bytes.len();
        let mut count: usize = 0;
        let mut i: usize = 0;
        while i < n
            invariant
                n == bytes@.len(),
                i <= n,
                count <= i,
                count == comma_count(bytes@.take(i as int)),
            decreases n - i,
        {
            proof {
                assert(bytes@.take(i + 1).drop_last() =~= bytes@.take(i as int));
                assert(bytes@.take(i + 1).last() == bytes@[i as int]);
            }
            if bytes[i] == 44u8 {
                count += 1;
            }
            i += 1;
        }
        proof {
            assert(bytes@.take(n as int) =~= bytes@);
        }
        count + 1
    }

    /// The zero sequence index attached to every submission: this backend
    /// performs no multi-chunk indexing.
    fn zero_index() -> (r: Vec<u8>)
        ensures
            r@ =~= Seq::new(INDEX_LEN as nat, |i: int| 0u8),
    {
        let mut v: Vec<u8> = Vec::new();
        let mut i: usize = 0;
        while i < INDEX_LEN
            invariant
                i <= INDEX_LEN,
                v@ =~= Seq::new(i as nat, |j: int| 0u8),
            decreases INDEX_LEN - i,
        {
            v.push(0);
            i += 1;
        }
        v
    }

    /// Builds the wire unit for a payload: pads it to a multiple of the
    /// chunk size and attaches metadata with the configured namespace and a
    /// zero sequence index. Fails permanently on a malformed namespace id.
    pub fn build_dispersal_request(&self, data: Vec<u8>) -> (r: Result<DispersalRequest, DAError>)
        requires
            data@.len() + CHUNK_SIZE <= usize::MAX,
        ensures
            match r {
                Ok(req) => Self::app_id_ok(&self.config) && req.metadata.app_id@
                    == Self::spec_app_id(&self.config) && req.metadata.index@ == Seq::new(
                    INDEX_LEN as nat,
                    |i: int| 0u8,
                ) && req.metadata.wf() && req.data@.len() == padded_len(data@.len()) && req.data@
                    =~= data@ + Seq::new((padded_len(data@.len()) - data@.len()) as nat, |i: int| 0u8),
                Err(e) => !Self::app_id_ok(&self.config) && !e.is_retriable && e.message@
                    == "Failed to decode app_id"@,
            },
    {
        let app_id = match self.get_app_id() {
            Ok(v) => v,
            Err(e) => {
                return Err(e);
            },
        };
        let mut padded = data;
        pad_payload(&mut padded);
        Ok(
            DispersalRequest {
                data: padded,
                metadata: MetaData { app_id, index: Self::zero_index() },
            },
        )
    }

    /// The caller-facing response of a successful dispatch: its correlation
    /// id is the decimal string form of the batch number, independent of the
    /// network-assigned blob id.
    pub fn dispatch_response(batch_number: u32) -> (r: DispatchResponse)
        ensures
            r.request_id@ =~= decimal_chars(batch_number as nat),
    {
        DispatchResponse { request_id: u32_to_decimal(batch_number) }
    }

    /// Runs the whole dispatch-then-confirm protocol over the transport's
    /// recorded interactions: `dispersal` is what the dispersal request
    /// yielded, and `observations` what each validator examination yielded,
    /// in order. Returns the batch number's string form as correlation id
    /// when dispersal succeeded and confirmation ended in a sighting or in
    /// the soft give-up; otherwise the classified error.
    pub fn dispatch_with_events(
        &self,
        batch_number: u32,
        data: Vec<u8>,
        dispersal: FetchOutcome<Vec<u8>>,
        observations: Vec<ValidatorObservation>,
    ) -> (r: Result<DispatchResponse, DAError>)
        requires
            data@.len() + CHUNK_SIZE <= usize::MAX,
            utf8_bytes(self.config.validator_rpcs@).len() < usize::MAX,
        ensures
            !Self::app_id_ok(&self.config) ==> (r matches Err(e) && !e.is_retriable && e.message@
                == "Failed to decode app_id"@),
            Self::app_id_ok(&self.config) ==> match dispersal_model(dispersal) {
                Err(m) => r matches Err(e) && err_matches(e, m),
                Ok(id) => {
                    let n = comma_count(utf8_bytes(self.config.validator_rpcs@)) + 1;
                    let start = crate::engine::ConfirmState {
                        scan_count: 0,
                        validator_pos: 0,
                        n_validators: n as usize,
                    };
                    match confirm_model(start, id, observations@, 0) {
                        ConfirmOutcome::Confirmed => r matches Ok(resp) && resp.request_id@
                            == decimal_chars(batch_number as nat),
                        ConfirmOutcome::SoftTimeout => r matches Ok(resp) && resp.request_id@
                            == decimal_chars(batch_number as nat),
                        ConfirmOutcome::HardNotFound => r matches Err(e) && !e.is_retriable
                            && e.message@ == "Failed to find blob in block"@,
                        ConfirmOutcome::Aborted(retriable, message) => r matches Err(e)
                            && e.is_retriable == retriable && e.message@ == message,
                    }
                },
            },
    {
        let request = match self.build_dispersal_request(data) {
            Ok(req) => req,
            Err(e) => {
                return Err(e);
            },
        };
        let blob_id = match classify_dispersal(dispersal) {
            Ok(id) => id,
            Err(e) => {
                return Err(e);
            },
        };
        let state = confirm_start(self.n_validators());
        match run_confirmation(state, &blob_id, &observations, 0) {
            Ok(_) => Ok(Self::dispatch_response(batch_number)),
            Err(e) => Err(e),
        }
    }
}

impl DataAvailabilityClient for NomosDaClient {
    /// This backend performs no independent finality check: it reports
    /// finality unconditionally, echoing the correlation id.
    fn ensure_finality(&self, dispatch_request_id: String) -> (r: Result<
        Option<FinalityResponse>,
        DAError,
    >)
        ensures
            r matches Ok(o) && o matches Some(f) && f.blob_id@ == dispatch_request_id@,
    {
        Ok(Some(FinalityResponse { blob_id: dispatch_request_id }))
    }

    /// This backend has no inclusion proofs: it honestly reports "no data"
    /// for every blob id, which is not an error.
    fn get_inclusion_data(&self, blob_id: &str) -> (r: Result<Option<InclusionData>, DAError>)
        ensures
            r matches Ok(o) && o is None,
    {
        Ok(None)
    }

    /// No balance is kept with the DA network: always zero.
    fn balance(&self) -> (r: Result<u64, DAError>)
        ensures
            r matches Ok(v) && v == 0,
    {
        Ok(0u64)
    }

    /// The polling backend's identity tag.
    fn client_type(&self) -> (r: BackendKind)
        ensures
            r == BackendKind::Nomos,
    {
        BackendKind::Nomos
    }

    /// This backend imposes no payload size limit of its own.
    fn blob_size_limit(&self) -> (r: Option<usize>)
        ensures
            r is None,
    {
        None
    }
}

} // verus!
