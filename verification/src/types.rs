//! The data model of the DA client: fixed-length identifiers, blob metadata,
//! the wire unit sent to the dispersal endpoint, a validator's chain view,
//! and the correlation types handed back to the caller.

use vstd::prelude::*;

verus! {

/// Byte length of a namespace identifier and of every network-assigned
/// identifier (blob ids, header ids).
pub const ID_LEN: usize = 32;

/// Byte length of the sequence counter within a namespace.
pub const INDEX_LEN: usize = 8;

/// A fixed 32-byte namespace identifier, externally supplied as hex.
pub type AppId = Vec<u8>;

/// A fixed 8-byte sequence counter within a namespace.
pub type Index = Vec<u8>;

/// A 32-byte blob identifier assigned by the DA network upon dispersal.
pub type BlobId = Vec<u8>;

/// A 32-byte block header identifier.
#[derive(Debug, Clone)]
pub struct HeaderId(pub Vec<u8>);

impl HeaderId {
    /// A header id always holds exactly 32 bytes.
    pub open spec fn wf(&self) -> bool {
        self.0@.len() == ID_LEN
    }
}

/// The {namespace, sequence index} pair attached to every submitted blob.
#[derive(Debug, Clone)]
pub struct MetaData {
    pub app_id: AppId,
    pub index: Index,
}

impl MetaData {
    /// The namespace is 32 bytes and the index 8 bytes.
    pub open spec fn wf(&self) -> bool {
        self.app_id@.len() == ID_LEN && self.index@.len() == INDEX_LEN
    }
}

/// The wire unit sent to the executor's dispersal route: the padded payload
/// together with its metadata.
#[derive(Debug, Clone)]
pub struct DispersalRequest {
    pub data: Vec<u8>,
    pub metadata: MetaData,
}

/// A request for the blobs of a namespace over a range of sequence indices.
pub struct GetRangeReq {
    pub app_id: AppId,
    pub range: core::ops::Range<Index>,
}

/// A validator's view of chain progress: the most recent header it knows,
/// with its slot and height.
#[derive(Debug, Clone)]
pub struct CryptarchiaInfo {
    pub tip: HeaderId,
    pub slot: u64,
    pub height: u64,
}

/// A transaction as it appears in a block snapshot.
#[derive(Debug, Clone)]
pub struct Tx(pub String);

/// A blob entry of a block snapshot: the network-assigned id with the
/// metadata it was submitted under.
#[derive(Debug, Clone)]
pub struct BlobInfo {
    pub id: BlobId,
    pub metadata: MetaData,
}

impl BlobInfo {
    /// The id is 32 bytes and the metadata well-formed.
    pub open spec fn wf(&self) -> bool {
        self.id@.len() == ID_LEN && self.metadata.wf()
    }
}

/// A block snapshot: the header id with the transactions and blob entries
/// included in that block, each an ordered, duplicate-free collection.
#[derive(Debug, Clone)]
pub struct Block {
    pub header: String,
    pub cl_transactions: Vec<Tx>,
    pub bl_blobs: Vec<BlobInfo>,
}

impl Block {
    /// Transactions are pairwise distinct, and so are blob entries (by id).
    pub open spec fn wf(&self) -> bool {
        &&& forall|i: int, j: int|
            0 <= i < j < self.cl_transactions@.len() ==> self.cl_transactions@[i].0@
                != self.cl_transactions@[j].0@
        &&& forall|i: int, j: int|
            0 <= i < j < self.bl_blobs@.len() ==> self.bl_blobs@[i].id@ != self.bl_blobs@[j].id@
        &&& forall|i: int| 0 <= i < self.bl_blobs@.len() ==> (#[trigger] self.bl_blobs@[i]).wf()
    }

    /// The blob ids included in this block, in block order.
    pub open spec fn blob_ids(&self) -> Seq<Seq<u8>> {
        self.bl_blobs@.map_values(|b: BlobInfo| b.id@)
    }
}

/// The static identity tag of a DA backend, one per supported kind of
/// deployment.
#[derive(Debug, Clone, Copy, PartialEq, Eq, Structural)]
pub enum BackendKind {
    Avail,
    Celestia,
    Eigen,
    Nomos,
    ObjectStore,
    NoDA,
}

/// The caller-facing correlation id of a successful dispatch: the string
/// form of the batch number, independent of the network blob id.
#[derive(Debug, Clone)]
pub struct DispatchResponse {
    pub request_id: String,
}

/// Reports whether a prior dispatch became final, echoing its correlation id.
#[derive(Debug, Clone)]
pub struct FinalityResponse {
    pub blob_id: String,
}

/// A proof of inclusion for a dispersed blob, when a backend can produce one.
#[derive(Debug, Clone)]
pub struct InclusionData {
    pub data: Vec<u8>,
}

impl From<String> for DispatchResponse {
    /// Wraps a caller-meaningful identifier as a dispatch response.
    fn from(request_id: String) -> (r: DispatchResponse) {
        DispatchResponse { request_id }
    }
}

impl vstd::std_specs::convert::FromSpecImpl<String> for DispatchResponse {
    open spec fn obeys_from_spec() -> bool {
        true
    }

    open spec fn from_spec(request_id: String) -> DispatchResponse {
        DispatchResponse { request_id }
    }
}

} // verus!
