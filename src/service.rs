use vstd::prelude::*;
use crate::builds::{BuildPhase, BuildRequest, BuildStatusQuery};
use crate::announce::{ProvideLocal, ProvidePhase};
use crate::fetch::{ArtifactFetch, ArtifactOrBuild, FetchMode, FetchPhase};
use crate::ingest::{request_for, BuildIngest, IngestPhase};
use crate::model::{ArtifactError, BuildResult, PackageType, PeerId, TransparencyLog, TransparencyLogError};
use crate::protocol::{Command, Reply, Step};

verus! {

/// `c` stores `data` under `artifact_id` in local storage.
pub open spec fn is_put(c: Command, artifact_id: Seq<char>, data: Seq<u8>) -> bool {
    c matches Command::PushArtifact { artifact_id: id, data: d } && id@ == artifact_id && d@ == data
}

/// The write that a newly committed block asks of the log: its payload when
/// the block holds exactly one, else none.
pub open spec fn block_write(payloads: Seq<Vec<u8>>) -> Option<Command> {
    if payloads.len() == 1 {
        Some(Command::WriteIfNotExists { payload: payloads[0] })
    } else {
        None
    }
}

/// The coordination service of one node. Each operation is a value that
/// issues commands to the node's collaborators (storage, transparency log,
/// build executor, network) and takes their replies, until it finishes.
pub struct ArtifactService {
    pub artifact_path: String,
    pub local_peer_id: PeerId,
}

impl ArtifactService {
    pub fn new(artifact_path: &str, local_peer_id: PeerId) -> (r: ArtifactService)
        ensures
            r.artifact_path@ == artifact_path@,
            r.local_peer_id == local_peer_id,
    {
        ArtifactService { artifact_path: artifact_path.to_owned(), local_peer_id }
    }

    /// Requests a build of a package on an authorized node: the local node
    /// when it is authorized, otherwise the last authorized node.
    pub fn request_build(&self, package_type: PackageType, package_specific_id: String) -> (r: (
        BuildRequest,
        Command,
    ))
        ensures
            r.0.package_type == package_type,
            r.0.package_specific_id == package_specific_id,
            r.0.local_peer_id@ == self.local_peer_id@,
            r.0.phase == BuildPhase::AwaitNodes,
            r.1 == Command::GetAuthorizedNodes,
    {
        let request = BuildRequest {
            package_type,
            package_specific_id,
            local_peer_id: PeerId::from_bytes(self.local_peer_id.bytes.clone()),
            phase: BuildPhase::AwaitNodes,
        };
        proof {
            assert(request.local_peer_id@ =~= self.local_peer_id@);
        }
        (request, Command::GetAuthorizedNodes)
    }

    /// Asks the authorized node chosen as for `request_build` for the status
    /// of a build.
    pub fn get_build_status(&self, build_id: &str) -> (r: (BuildStatusQuery, Command))
        ensures
            r.0.build_id@ == build_id@,
            r.0.local_peer_id@ == self.local_peer_id@,
            r.0.phase == BuildPhase::AwaitNodes,
            r.1 == Command::GetAuthorizedNodes,
    {
        let query = BuildStatusQuery {
            build_id: build_id.to_owned(),
            local_peer_id: PeerId::from_bytes(self.local_peer_id.bytes.clone()),
            phase: BuildPhase::AwaitNodes,
        };
        proof {
            assert(query.local_peer_id@ =~= self.local_peer_id@);
        }
        (query, Command::GetAuthorizedNodes)
    }

    /// Ingests a completed build: records, stores and announces each of its
    /// artifacts in order, then broadcasts the records.
    pub fn handle_build_result(&self, build_id: &str, build_result: BuildResult) -> (r: (BuildIngest, Command))
        ensures
            r.0.wf(),
            r.0.build_result == build_result,
            r.0.current == 0,
            r.0.payloads@.len() == 0,
            r.0.trace@ == seq![r.1],
            build_result.artifacts@.len() == 0 ==> (r.0.phase == IngestPhase::AwaitBroadcast
                && (r.1 matches Command::BroadcastArtifacts { payloads } && payloads@.len() == 0)),
            build_result.artifacts@.len() > 0 ==> (r.0.phase == IngestPhase::AwaitRecorded && r.1
                == (Command::AddArtifact { request: request_for(build_result, 0) })),
    {
        let mut ingest = BuildIngest {
            build_result,
            current: 0,
            phase: IngestPhase::Finished,
            payloads: Vec::new(),
            artifact_id: String::new(),
            records: Ghost(Seq::empty()),
            trace: Ghost(Seq::empty()),
        };
        let c = if ingest.build_result.artifacts.len() == 0 {
            ingest.phase = IngestPhase::AwaitBroadcast;
            Command::BroadcastArtifacts { payloads: Vec::new() }
        } else {
            ingest.phase = IngestPhase::AwaitRecorded;
            Command::AddArtifact { request: ingest.request_at(0) }
        };
        ingest.trace = Ghost(Seq::empty().push(c));
        proof {
            assert(ingest.trace@[0] == c);
        }
        (ingest, c)
    }

    /// The log write for a newly committed block: only a block with exactly
    /// one payload is written.
    pub fn handle_block_added(&self, payloads: Vec<Vec<u8>>) -> (r: Option<Command>)
        ensures
            r == block_write(payloads@),
    {
        if payloads.len() == 1 {
            let mut payloads = payloads;
            let payload = payloads.remove(0);
            Some(Command::WriteIfNotExists { payload })
        } else {
            None
        }
    }

    /// Stores bytes in local storage under an artifact id.
    pub fn put_artifact(&self, artifact_id: &str, data: Vec<u8>) -> (r: Command)
        ensures
            is_put(r, artifact_id@, data@),
    {
        Command::PushArtifact { artifact_id: artifact_id.to_owned(), data }
    }

    /// Retrieves the bytes of an artifact by package coordinates: from local
    /// storage, or else from an idle peer, checked against the log record.
    pub fn get_artifact(&self, package_type: PackageType, package_specific_artifact_id: &str) -> (r: (
        ArtifactFetch,
        Command,
    ))
        ensures
            r.0.wf(),
            r.0.mode == FetchMode::Package,
            r.0.phase == FetchPhase::AwaitEntry,
            (r.0.entry is None),
            r.0.trace@ == seq![r.1],
            (r.1 matches Command::GetLogEntry { package_type: t, package_specific_artifact_id: id }
                && t == package_type && id@ == package_specific_artifact_id@),
    {
        let c = Command::GetLogEntry {
            package_type,
            package_specific_artifact_id: package_specific_artifact_id.to_owned(),
        };
        let fetch = ArtifactFetch {
            mode: FetchMode::Package,
            phase: FetchPhase::AwaitEntry,
            artifact_id: String::new(),
            entry: None,
            trace: Ghost(Seq::empty().push(c)),
        };
        (fetch, c)
    }

    /// Like `get_artifact`; a failure also hands out a request to build the
    /// package.
    pub fn get_artifact_or_build(
        &self,
        package_type: PackageType,
        package_specific_id: &str,
        package_specific_artifact_id: &str,
    ) -> (r: (ArtifactOrBuild, Command))
        ensures
            r.0.fetch.wf(),
            r.0.fetch.mode == FetchMode::Package,
            r.0.fetch.phase == FetchPhase::AwaitEntry,
            (r.0.fetch.entry is None),
            r.0.fetch.trace@ == seq![r.1],
            r.0.package_type == package_type,
            r.0.package_specific_id@ == package_specific_id@,
            r.0.local_peer_id@ == self.local_peer_id@,
            (r.1 matches Command::GetLogEntry { package_type: t, package_specific_artifact_id: id }
                && t == package_type && id@ == package_specific_artifact_id@),
    {
        let (fetch, c) = self.get_artifact(package_type, package_specific_artifact_id);
        let op = ArtifactOrBuild {
            fetch,
            package_type,
            package_specific_id: package_specific_id.to_owned(),
            local_peer_id: PeerId::from_bytes(self.local_peer_id.bytes.clone()),
        };
        proof {
            assert(op.local_peer_id@ =~= self.local_peer_id@);
        }
        (op, c)
    }

    /// Announces every locally stored artifact to the network.
    pub fn provide_local_artifacts(&self) -> (r: (ProvideLocal, Command))
        ensures
            r.0.wf(),
            r.0.phase == ProvidePhase::AwaitList,
            r.0.trace@ == seq![r.1],
            r.1 == Command::ListArtifacts,
    {
        let c = Command::ListArtifacts;
        (ProvideLocal { phase: ProvidePhase::AwaitList, ids: Vec::new(), provided: 0, trace: Ghost(Seq::empty().push(c)) }, c)
    }

    /// Retrieves the bytes stored locally under an artifact id.
    pub fn get_artifact_locally(&self, artifact_id: &str) -> (r: (ArtifactFetch, Command))
        ensures
            r.0.wf(),
            r.0.mode == FetchMode::Local,
            r.0.phase == FetchPhase::AwaitLocal,
            r.0.artifact_id@ == artifact_id@,
            (r.0.entry is None),
            r.0.trace@ == seq![r.1],
            r.1 == (Command::PullArtifact { artifact_id: r.0.artifact_id }),
    {
        let id = artifact_id.to_owned();
        let c = Command::PullArtifact { artifact_id: id.clone() };
        let fetch = ArtifactFetch {
            mode: FetchMode::Local,
            phase: FetchPhase::AwaitLocal,
            artifact_id: id,
            entry: None,
            trace: Ghost(Seq::empty().push(c)),
        };
        (fetch, c)
    }

    /// Retrieves an artifact from an idle peer that provides it and writes it
    /// through to local storage.
    pub fn get_artifact_from_peers(&self, artifact_id: &str) -> (r: (ArtifactFetch, Command))
        ensures
            r.0.wf(),
            r.0.mode == FetchMode::Peers,
            r.0.phase == FetchPhase::AwaitProviders,
            r.0.artifact_id@ == artifact_id@,
            (r.0.entry is None),
            r.0.trace@ == seq![r.1],
            r.1 == (Command::ListProviders { artifact_id: r.0.artifact_id }),
    {
        let id = artifact_id.to_owned();
        let c = Command::ListProviders { artifact_id: id.clone() };
        let fetch = ArtifactFetch {
            mode: FetchMode::Peers,
            phase: FetchPhase::AwaitProviders,
            artifact_id: id,
            entry: None,
            trace: Ghost(Seq::empty().push(c)),
        };
        (fetch, c)
    }

    /// Checks an artifact's bytes against the hash its log record holds.
    pub fn verify_artifact(&self, entry: &TransparencyLog, artifact: &[u8]) -> (r: Result<(), TransparencyLogError>)
        ensures
            r is Ok <==> crate::digest::artifact_hash_of(artifact@) == entry.artifact_hash@,
            (r matches Err(TransparencyLogError::InvalidHash { id, invalid_hash, actual_hash }) ==> id
                == entry.package_specific_artifact_id && invalid_hash@
                == crate::digest::artifact_hash_of(artifact@) && actual_hash == entry.artifact_hash),
    {
        crate::fetch::verify_artifact(entry, artifact)
    }

    /// Lists the log records of a package.
    pub fn get_logs_for_artifact(&self, package_type: PackageType, package_specific_id: &str) -> (r: Command)
        ensures
            (r matches Command::SearchLogs { package_type: t, package_specific_id: id } && t
                == package_type && id@ == package_specific_id@),
    {
        Command::SearchLogs { package_type, package_specific_id: package_specific_id.to_owned() }
    }
}

/// The records that answer `get_logs_for_artifact`.
pub fn logs_found(reply: Reply) -> (r: Result<Vec<TransparencyLog>, ArtifactError>)
    ensures
        match reply {
            Reply::Entries(v) => r == Ok::<Vec<TransparencyLog>, ArtifactError>(v),
            Reply::Failed(m) => r == Err::<Vec<TransparencyLog>, ArtifactError>(ArtifactError::Log(m)),
            _ => r == Err::<Vec<TransparencyLog>, ArtifactError>(ArtifactError::UnexpectedReply),
        },
{
    match reply {
        Reply::Entries(v) => Ok(v),
        Reply::Failed(m) => Err(ArtifactError::Log(m)),
        _ => Err(ArtifactError::UnexpectedReply),
    }
}

} // verus!
