use vstd::prelude::*;
use crate::model::{AddArtifactRequest, BuildError, PackageType, PeerId, TransparencyLog};

verus! {

/// A request from the service to one of its collaborators: the local
/// artifact storage, the transparency log, the build executor, or the
/// network client.
#[derive(Clone, Debug, PartialEq, Eq)]
pub enum Command {
    /// Transparency log: the authorized nodes, in the log's order.
    GetAuthorizedNodes,
    /// Transparency log: whether the package may still be added.
    VerifyPackageCanBeAdded { package_type: PackageType, package_specific_id: String },
    /// Build executor: start a build here.
    StartBuild { package_type: PackageType, package_specific_id: String },
    /// Network: ask another authorized node to build.
    RequestBuild { peer: PeerId, package_type: PackageType, package_specific_id: String },
    /// Build executor: status of a local build.
    GetBuildStatus { build_id: String },
    /// Network: status of a build on another node.
    RequestBuildStatus { peer: PeerId, build_id: String },
    /// Transparency log: record one artifact; answered with the record and
    /// the payload to broadcast.
    AddArtifact { request: AddArtifactRequest },
    /// Storage: store the file that a build left at `location`.
    StoreArtifactFile { artifact_id: String, location: String },
    /// Network: announce that this node provides the artifact.
    Provide { artifact_id: String },
    /// Transparency log: broadcast the records of a build.
    BroadcastArtifacts { payloads: Vec<String> },
    /// Transparency log: decode the payload as a record and write it unless
    /// it is already there.
    WriteIfNotExists { payload: Vec<u8> },
    /// Transparency log: the record of an artifact.
    GetLogEntry { package_type: PackageType, package_specific_artifact_id: String },
    /// Transparency log: the records of a package.
    SearchLogs { package_type: PackageType, package_specific_id: String },
    /// Storage: the bytes stored under an id.
    PullArtifact { artifact_id: String },
    /// Storage: store bytes under an id.
    PushArtifact { artifact_id: String, data: Vec<u8> },
    /// Network: the peers that provide an artifact.
    ListProviders { artifact_id: String },
    /// Network: the least loaded of the given peers, if any.
    GetIdlePeer { providers: Vec<PeerId> },
    /// Network: the bytes of an artifact, from a peer.
    RequestArtifact { peer: PeerId, artifact_id: String },
    /// Storage: the paths of the stored artifacts.
    ListArtifacts,
}

/// A collaborator's answer to a `Command`.
#[derive(Clone, Debug, PartialEq, Eq)]
pub enum Reply {
    /// Success without a value.
    Done,
    /// Failure, with the collaborator's message.
    Failed(String),
    Nodes(Vec<PeerId>),
    Idle(Option<PeerId>),
    Data(Vec<u8>),
    /// A build id or a build status.
    Text(String),
    /// The build executor's own failure.
    BuildFailed(BuildError),
    Entry(TransparencyLog),
    Entries(Vec<TransparencyLog>),
    /// A new record and its broadcast payload.
    Added(TransparencyLog, String),
    Paths(Vec<String>),
}

/// What an operation asks for next: run a command and hand back its reply,
/// or take the operation's result.
#[derive(Clone, Debug, PartialEq, Eq)]
pub enum Step<T> {
    Run(Command),
    Finish(T),
}

/// Message carried by an error that answers a reply of the wrong kind.
pub open spec fn unexpected_reply_message() -> Seq<char> {
    "unexpected reply"@
}

pub fn unexpected_reply() -> (r: String)
    ensures
        r@ == unexpected_reply_message(),
{
    "unexpected reply".to_owned()
}

} // verus!
