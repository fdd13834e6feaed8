use vstd::prelude::*;

verus! {

/// The package ecosystems that artifacts belong to.
#[derive(Clone, Copy, Debug, PartialEq, Eq, Structural)]
pub enum PackageType {
    Docker,
    Maven2,
}

/// Identity of a peer of the network, held as the bytes of its encoded form.
#[derive(Clone, Debug, PartialEq, Eq)]
pub struct PeerId {
    pub bytes: Vec<u8>,
}

impl View for PeerId {
    type V = Seq<u8>;

    open spec fn view(&self) -> Seq<u8> {
        self.bytes@
    }
}

impl PeerId {
    pub fn from_bytes(bytes: Vec<u8>) -> (r: PeerId)
        ensures
            r.bytes == bytes,
    {
        PeerId { bytes }
    }

    /// Whether two identities are the same peer.
    pub fn same_as(&self, other: &PeerId) -> (r: bool)
        ensures
            r == (self@ == other@),
    {
        if self.bytes.len() != other.bytes.len() {
            return false;
        }
        let mut i: usize = 0;
        while i < self.bytes.len()
            invariant
                self.bytes@.len() == other.bytes@.len(),
                i <= self.bytes@.len(),
                forall|j: int| 0 <= j < i ==> self.bytes@[j] == other.bytes@[j],
            decreases self.bytes@.len() - i,
        {
            if self.bytes[i] != other.bytes[i] {
                return false;
            }
            i = i + 1;
        }
        assert(self.bytes@ =~= other.bytes@);
        true
    }
}

/// One record of the transparency log: which artifact exists, for which
/// package, under which storage key, with which hash.
#[derive(Clone, Debug, PartialEq, Eq)]
pub struct TransparencyLog {
    pub artifact_id: String,
    pub package_type: PackageType,
    pub package_specific_id: String,
    pub package_specific_artifact_id: String,
    pub artifact_hash: String,
    pub num_artifacts: u32,
}

/// What is handed to the transparency log to record one built artifact.
#[derive(Clone, Debug, PartialEq, Eq)]
pub struct AddArtifactRequest {
    pub package_type: PackageType,
    pub package_specific_id: String,
    pub num_artifacts: u32,
    pub package_specific_artifact_id: String,
    pub artifact_hash: String,
}

/// One artifact produced by a build: its id within the package, where the
/// build left the file, and the hash of its bytes.
#[derive(Clone, Debug, PartialEq, Eq)]
pub struct BuildResultArtifact {
    pub artifact_specific_id: String,
    pub artifact_location: String,
    pub artifact_hash: String,
}

/// The output of a completed build.
#[derive(Clone, Debug, PartialEq, Eq)]
pub struct BuildResult {
    pub package_type: PackageType,
    pub package_specific_id: String,
    pub artifacts: Vec<BuildResultArtifact>,
}

/// Failures of build requests and build status queries.
#[derive(Clone, Debug, PartialEq, Eq)]
pub enum BuildError {
    InitializationFailed(String),
    BuildStatusFailed(String),
    ArtifactAlreadyExists(String),
}

/// Failures found when checking an artifact against its log record.
#[derive(Clone, Debug, PartialEq, Eq)]
pub enum TransparencyLogError {
    /// `invalid_hash` is the hash computed over the bytes, `actual_hash` the
    /// one the log recorded.
    InvalidHash { id: String, invalid_hash: String, actual_hash: String },
}

/// Failures of artifact retrieval and ingestion.
#[derive(Clone, Debug, PartialEq, Eq)]
pub enum ArtifactError {
    /// The transparency log could not give a record.
    Log(String),
    /// No idle peer provides the artifact id.
    NotAvailableOnNetwork(String),
    /// The bytes do not match their log record.
    Verification(TransparencyLogError),
    /// The local store failed.
    Storage(String),
    /// A peer or the network failed.
    Network(String),
    /// A collaborator answered with a reply of the wrong kind.
    UnexpectedReply,
}

} // verus!
