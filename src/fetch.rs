use vstd::prelude::*;
use crate::digest::{artifact_hash_of, check_artifact_hash, compute_artifact_hash};
use crate::builds::{BuildPhase, BuildRequest};
use crate::model::{ArtifactError, PackageType, PeerId, TransparencyLog, TransparencyLogError};
use crate::protocol::{Command, Reply, Step};

verus! {

/// Checks bytes against the hash that their log record holds.
pub fn verify_artifact(entry: &TransparencyLog, artifact: &[u8]) -> (r: Result<(), TransparencyLogError>)
    ensures
        r is Ok <==> artifact_hash_of(artifact@) == entry.artifact_hash@,
        (r matches Err(TransparencyLogError::InvalidHash { id, invalid_hash, actual_hash }) ==> id
            == entry.package_specific_artifact_id && invalid_hash@ == artifact_hash_of(artifact@)
            && actual_hash == entry.artifact_hash),
{
    let computed = compute_artifact_hash(artifact);
    check_artifact_hash(entry, computed)
}

/// Which retrieval a fetch performs.
#[derive(Clone, Copy, Debug, PartialEq, Eq, Structural)]
pub enum FetchMode {
    /// By package coordinates: the log record, then local storage, then the
    /// network; the bytes are checked against the record.
    Package,
    /// From local storage only.
    Local,
    /// From the network, written through to local storage.
    Peers,
}

/// Where a fetch stands.
#[derive(Clone, Copy, Debug, PartialEq, Eq, Structural)]
pub enum FetchPhase {
    AwaitEntry,
    AwaitLocal,
    AwaitProviders,
    AwaitIdlePeer,
    AwaitArtifact,
    AwaitStored,
    AwaitReadBack,
    Finished,
}

/// Whether a command stores bytes under `id`.
pub open spec fn pushes(c: Command, id: Seq<char>) -> bool {
    c matches Command::PushArtifact { artifact_id, .. } && artifact_id@ == id
}

/// Whether some command of `cmds` stores bytes under `id`.
pub open spec fn pushed(cmds: Seq<Command>, id: Seq<char>) -> bool {
    exists|i: int| 0 <= i < cmds.len() && pushes(#[trigger] cmds[i], id)
}

/// Local storage, as a map from artifact id to bytes, after it has run
/// `cmds` in order.
pub open spec fn store_after(store: Map<Seq<char>, Seq<u8>>, cmds: Seq<Command>) -> Map<Seq<char>, Seq<u8>>
    decreases cmds.len(),
{
    if cmds.len() == 0 {
        store
    } else {
        let before = store_after(store, cmds.drop_last());
        match cmds.last() {
            Command::PushArtifact { artifact_id, data } => before.insert(artifact_id@, data@),
            _ => before,
        }
    }
}

/// The result of a fetch that obtained `data`: the bytes, unless a record is
/// known and their hash differs from it.
pub open spec fn outcome(entry: Option<TransparencyLog>, data: Vec<u8>, step: Step<Result<Vec<u8>, ArtifactError>>) -> bool {
    match entry {
        None => step == Step::Finish(Ok::<Vec<u8>, ArtifactError>(data)),
        Some(e) => if artifact_hash_of(data@) == e.artifact_hash@ {
            step == Step::Finish(Ok::<Vec<u8>, ArtifactError>(data))
        } else {
            step matches Step::Finish(
                Err(ArtifactError::Verification(TransparencyLogError::InvalidHash { id, invalid_hash, actual_hash })),
            ) && id == e.package_specific_artifact_id && invalid_hash@ == artifact_hash_of(data@)
                && actual_hash == e.artifact_hash
        },
    }
}

/// Bytes that a step returns match the hash of the record, when there is one.
pub open spec fn carries_record_hash(entry: Option<TransparencyLog>, step: Step<Result<Vec<u8>, ArtifactError>>) -> bool {
    match (step, entry) {
        (Step::Finish(Ok(b)), Some(e)) => artifact_hash_of(b@) == e.artifact_hash@,
        _ => true,
    }
}

/// A retrieval of an artifact's bytes in progress.
pub struct ArtifactFetch {
    pub mode: FetchMode,
    pub phase: FetchPhase,
    /// The storage key; set from the record in `Package` mode.
    pub artifact_id: String,
    /// The record the bytes are checked against, once known.
    pub entry: Option<TransparencyLog>,
    /// The commands issued so far.
    pub trace: Ghost<Seq<Command>>,
}

impl ArtifactFetch {
    /// The phases each mode can be in, and the write that precedes reading
    /// back what a peer sent.
    pub open spec fn wf(self) -> bool {
        &&& self.mode == FetchMode::Local ==> (self.phase == FetchPhase::AwaitLocal || self.phase
            == FetchPhase::Finished)
        &&& self.mode == FetchMode::Peers ==> self.phase != FetchPhase::AwaitEntry && self.phase
            != FetchPhase::AwaitLocal
        &&& self.mode != FetchMode::Package ==> self.phase != FetchPhase::AwaitEntry
        &&& self.mode == FetchMode::Package && self.phase != FetchPhase::AwaitEntry
            && self.phase != FetchPhase::Finished ==> self.entry is Some
        &&& self.mode != FetchMode::Package ==> self.entry is None
        &&& (self.phase == FetchPhase::AwaitStored || self.phase == FetchPhase::AwaitReadBack)
            ==> pushed(self.trace@, self.artifact_id@)
    }

    /// What one reply does to the fetch: the state after it and the step.
    pub open spec fn next(self, reply: Reply, after: Self, step: Step<Result<Vec<u8>, ArtifactError>>) -> bool {
        &&& after.mode == self.mode
        &&& after.trace@ == match step {
            Step::Run(c) => self.trace@.push(c),
            Step::Finish(_) => self.trace@,
        }
        &&& self.phase != FetchPhase::AwaitEntry ==> after.artifact_id == self.artifact_id
            && after.entry == self.entry
        &&& step is Finish ==> after.phase == FetchPhase::Finished
        &&& match self.phase {
            FetchPhase::AwaitEntry => match reply {
                Reply::Entry(e) => after.entry == Some(e) && after.artifact_id == e.artifact_id
                    && after.phase == FetchPhase::AwaitLocal && step == Step::<
                    Result<Vec<u8>, ArtifactError>,
                >::Run(Command::PullArtifact { artifact_id: e.artifact_id }),
                Reply::Failed(m) => step == Step::Finish(Err::<Vec<u8>, ArtifactError>(ArtifactError::Log(m))),
                _ => step == Step::Finish(Err::<Vec<u8>, ArtifactError>(ArtifactError::UnexpectedReply)),
            },
            FetchPhase::AwaitLocal => match reply {
                Reply::Data(v) => outcome(self.entry, v, step),
                Reply::Failed(m) => if self.mode == FetchMode::Package {
                    after.phase == FetchPhase::AwaitProviders && step == Step::<
                        Result<Vec<u8>, ArtifactError>,
                    >::Run(Command::ListProviders { artifact_id: self.artifact_id })
                } else {
                    step == Step::Finish(Err::<Vec<u8>, ArtifactError>(ArtifactError::Storage(m)))
                },
                _ => step == Step::Finish(Err::<Vec<u8>, ArtifactError>(ArtifactError::UnexpectedReply)),
            },
            FetchPhase::AwaitProviders => match reply {
                Reply::Nodes(providers) => after.phase == FetchPhase::AwaitIdlePeer && step
                    == Step::<Result<Vec<u8>, ArtifactError>>::Run(Command::GetIdlePeer { providers }),
                Reply::Failed(m) => step == Step::Finish(Err::<Vec<u8>, ArtifactError>(ArtifactError::Network(m))),
                _ => step == Step::Finish(Err::<Vec<u8>, ArtifactError>(ArtifactError::UnexpectedReply)),
            },
            FetchPhase::AwaitIdlePeer => match reply {
                Reply::Idle(Some(peer)) => after.phase == FetchPhase::AwaitArtifact && step == Step::<
                    Result<Vec<u8>, ArtifactError>,
                >::Run(Command::RequestArtifact { peer, artifact_id: self.artifact_id }),
                Reply::Idle(None) => step == Step::Finish(
                    Err::<Vec<u8>, ArtifactError>(ArtifactError::NotAvailableOnNetwork(self.artifact_id)),
                ),
                Reply::Failed(m) => step == Step::Finish(Err::<Vec<u8>, ArtifactError>(ArtifactError::Network(m))),
                _ => step == Step::Finish(Err::<Vec<u8>, ArtifactError>(ArtifactError::UnexpectedReply)),
            },
            FetchPhase::AwaitArtifact => match reply {
                Reply::Data(v) => after.phase == FetchPhase::AwaitStored && step == Step::<
                    Result<Vec<u8>, ArtifactError>,
                >::Run(Command::PushArtifact { artifact_id: self.artifact_id, data: v }),
                Reply::Failed(m) => step == Step::Finish(Err::<Vec<u8>, ArtifactError>(ArtifactError::Network(m))),
                _ => step == Step::Finish(Err::<Vec<u8>, ArtifactError>(ArtifactError::UnexpectedReply)),
            },
            FetchPhase::AwaitStored => match reply {
                Reply::Done => after.phase == FetchPhase::AwaitReadBack && step == Step::<
                    Result<Vec<u8>, ArtifactError>,
                >::Run(Command::PullArtifact { artifact_id: self.artifact_id }),
                Reply::Failed(m) => step == Step::Finish(Err::<Vec<u8>, ArtifactError>(ArtifactError::Storage(m))),
                _ => step == Step::Finish(Err::<Vec<u8>, ArtifactError>(ArtifactError::UnexpectedReply)),
            },
            FetchPhase::AwaitReadBack => match reply {
                Reply::Data(v) => outcome(self.entry, v, step),
                Reply::Failed(m) => step == Step::Finish(Err::<Vec<u8>, ArtifactError>(ArtifactError::Storage(m))),
                _ => step == Step::Finish(Err::<Vec<u8>, ArtifactError>(ArtifactError::UnexpectedReply)),
            },
            FetchPhase::Finished => step == Step::Finish(
                Err::<Vec<u8>, ArtifactError>(ArtifactError::UnexpectedReply),
            ),
        }
    }

    fn finish_with(&self, data: Vec<u8>) -> (r: Step<Result<Vec<u8>, ArtifactError>>)
        ensures
            outcome(self.entry, data, r),
    {
        match &self.entry {
            None => Step::Finish(Ok(data)),
            Some(e) => match verify_artifact(e, data.as_slice()) {
                Ok(()) => Step::Finish(Ok(data)),
                Err(err) => Step::Finish(Err(ArtifactError::Verification(err))),
            },
        }
    }

    fn run(&mut self, phase: FetchPhase, c: Command) -> (r: Step<Result<Vec<u8>, ArtifactError>>)
        ensures
            r == Step::<Result<Vec<u8>, ArtifactError>>::Run(c),
            final(self).phase == phase,
            final(self).trace@ == old(self).trace@.push(c),
            final(self).mode == old(self).mode,
            final(self).artifact_id == old(self).artifact_id,
            final(self).entry == old(self).entry,
    {
        self.phase = phase;
        self.trace = Ghost(self.trace@.push(c));
        Step::Run(c)
    }

    /// Takes the reply to the last command and says what comes next. Bytes
    /// returned with a known record always carry that record's hash.
    pub fn step(&mut self, reply: Reply) -> (r: Step<Result<Vec<u8>, ArtifactError>>)
        requires
            old(self).wf(),
        ensures
            final(self).wf(),
            old(self).next(reply, *final(self), r),
            carries_record_hash(old(self).entry, r),
    {
        let phase = self.phase;
        self.phase = FetchPhase::Finished;
        match phase {
            FetchPhase::AwaitEntry => match reply {
                Reply::Entry(e) => {
                    self.artifact_id = e.artifact_id.clone();
                    let c = Command::PullArtifact { artifact_id: e.artifact_id.clone() };
                    self.entry = Some(e);
                    self.run(FetchPhase::AwaitLocal, c)
                },
                Reply::Failed(m) => Step::Finish(Err(ArtifactError::Log(m))),
                _ => Step::Finish(Err(ArtifactError::UnexpectedReply)),
            },
            FetchPhase::AwaitLocal => match reply {
                Reply::Data(v) => self.finish_with(v),
                Reply::Failed(m) => {
                    if self.mode == FetchMode::Package {
                        let c = Command::ListProviders { artifact_id: self.artifact_id.clone() };
                        self.run(FetchPhase::AwaitProviders, c)
                    } else {
                        Step::Finish(Err(ArtifactError::Storage(m)))
                    }
                },
                _ => Step::Finish(Err(ArtifactError::UnexpectedReply)),
            },
            FetchPhase::AwaitProviders => match reply {
                Reply::Nodes(providers) => self.run(FetchPhase::AwaitIdlePeer, Command::GetIdlePeer { providers }),
                Reply::Failed(m) => Step::Finish(Err(ArtifactError::Network(m))),
                _ => Step::Finish(Err(ArtifactError::UnexpectedReply)),
            },
            FetchPhase::AwaitIdlePeer => match reply {
                Reply::Idle(Some(peer)) => {
                    let c = Command::RequestArtifact { peer, artifact_id: self.artifact_id.clone() };
                    self.run(FetchPhase::AwaitArtifact, c)
                },
                Reply::Idle(None) => Step::Finish(
                    Err(ArtifactError::NotAvailableOnNetwork(self.artifact_id.clone())),
                ),
                Reply::Failed(m) => Step::Finish(Err(ArtifactError::Network(m))),
                _ => Step::Finish(Err(ArtifactError::UnexpectedReply)),
            },
            FetchPhase::AwaitArtifact => match reply {
                Reply::Data(v) => {
                    let c = Command::PushArtifact { artifact_id: self.artifact_id.clone(), data: v };
                    let r = self.run(FetchPhase::AwaitStored, c);
                    assert(self.trace@[self.trace@.len() - 1] == c);
                    r
                },
                Reply::Failed(m) => Step::Finish(Err(ArtifactError::Network(m))),
                _ => Step::Finish(Err(ArtifactError::UnexpectedReply)),
            },
            FetchPhase::AwaitStored => match reply {
                Reply::Done => {
                    let c = Command::PullArtifact { artifact_id: self.artifact_id.clone() };
                    let ghost before = self.trace@;
                    let r = self.run(FetchPhase::AwaitReadBack, c);
                    proof {
                        let i = choose|i: int|
                            0 <= i < before.len() && pushes(#[trigger] before[i], self.artifact_id@);
                        assert(self.trace@[i] == before[i]);
                    }
                    r
                },
                Reply::Failed(m) => Step::Finish(Err(ArtifactError::Storage(m))),
                _ => Step::Finish(Err(ArtifactError::UnexpectedReply)),
            },
            FetchPhase::AwaitReadBack => match reply {
                Reply::Data(v) => self.finish_with(v),
                Reply::Failed(m) => Step::Finish(Err(ArtifactError::Storage(m))),
                _ => Step::Finish(Err(ArtifactError::UnexpectedReply)),
            },
            FetchPhase::Finished => Step::Finish(Err(ArtifactError::UnexpectedReply)),
        }
    }
}

/// A retrieval by package coordinates that, when it fails, also hands out a
/// build request for the package, to run on its own while the failure is
/// reported.
pub struct ArtifactOrBuild {
    pub fetch: ArtifactFetch,
    pub package_type: PackageType,
    pub package_specific_id: String,
    pub local_peer_id: PeerId,
}

impl ArtifactOrBuild {
    /// Takes the reply to the last command and says what comes next; a
    /// failure comes with a new build request and its first command.
    pub fn step(&mut self, reply: Reply) -> (r: (Step<Result<Vec<u8>, ArtifactError>>, Option<(BuildRequest, Command)>))
        requires
            old(self).fetch.wf(),
        ensures
            final(self).fetch.wf(),
            old(self).fetch.next(reply, final(self).fetch, r.0),
            carries_record_hash(old(self).fetch.entry, r.0),
            final(self).package_type == old(self).package_type,
            final(self).package_specific_id == old(self).package_specific_id,
            final(self).local_peer_id == old(self).local_peer_id,
            (r.1 is Some) == (r.0 matches Step::Finish(Err(_))),
            (r.1 matches Some((b, c)) ==> b.package_type == old(self).package_type
                && b.package_specific_id == old(self).package_specific_id && b.local_peer_id@
                == old(self).local_peer_id@ && b.phase == BuildPhase::AwaitNodes && c
                == Command::GetAuthorizedNodes),
    {
        let r = self.fetch.step(reply);
        match r {
            Step::Finish(Err(e)) => {
                let build = BuildRequest {
                    package_type: self.package_type,
                    package_specific_id: self.package_specific_id.clone(),
                    local_peer_id: PeerId::from_bytes(self.local_peer_id.bytes.clone()),
                    phase: BuildPhase::AwaitNodes,
                };
                proof {
                    assert(build.local_peer_id@ =~= self.local_peer_id@);
                }
                (Step::Finish(Err(e)), Some((build, Command::GetAuthorizedNodes)))
            },
            _ => (r, None),
        }
    }
}

} // verus!
