use vstd::prelude::*;
use crate::dispatch::{is_dispatch_choice, select_authorized_node};
use crate::model::{BuildError, PackageType, PeerId};
use crate::protocol::{unexpected_reply, unexpected_reply_message, Command, Reply, Step};

verus! {

/// Where a build operation stands.
#[derive(Clone, Debug, PartialEq, Eq)]
pub enum BuildPhase {
    /// Waiting for the authorized nodes.
    AwaitNodes,
    /// Waiting for the log to admit the package; the target is `None` for the
    /// local node.
    AwaitAdmission { target: Option<PeerId> },
    /// Waiting for the local build executor.
    AwaitLocal,
    /// Waiting for another authorized node.
    AwaitRemote,
    Finished,
}

/// The node that a list of authorized nodes sends work to: `None` for the
/// local node, else the chosen remote node.
pub open spec fn dispatch_target(nodes: Seq<PeerId>, local: Seq<u8>) -> Option<PeerId>
    recommends
        nodes.len() > 0,
{
    let i = choose|i: usize| is_dispatch_choice(nodes, local, Some(i));
    if nodes[i as int]@ == local {
        None
    } else {
        Some(nodes[i as int])
    }
}

/// Message of the error for an empty set of authorized nodes.
pub open spec fn no_authorized_nodes_message() -> Seq<char> {
    "No authorized nodes found"@
}

proof fn lemma_dispatch_choice_unique(nodes: Seq<PeerId>, local: Seq<u8>, i: usize, k: usize)
    requires
        is_dispatch_choice(nodes, local, Some(i)),
        is_dispatch_choice(nodes, local, Some(k)),
    ensures
        i == k,
{
    if i < k {
        assert(nodes[i as int]@ != local);
    } else if k < i {
        assert(nodes[k as int]@ != local);
    }
}

fn choose_target(nodes: Vec<PeerId>, local: &PeerId) -> (r: Option<PeerId>)
    requires
        nodes@.len() > 0,
    ensures
        r == dispatch_target(nodes@, local@),
{
    let ghost all = nodes@;
    let mut nodes = nodes;
    match select_authorized_node(&nodes, local) {
        Some(i) => {
            proof {
                let c = choose|c: usize| is_dispatch_choice(all, local@, Some(c));
                lemma_dispatch_choice_unique(all, local@, i, c);
            }
            let peer = nodes.remove(i);
            if peer.same_as(local) {
                None
            } else {
                Some(peer)
            }
        },
        None => {
            proof {
                assert(false);
            }
            None
        },
    }
}

/// A build request in progress: find the authorized nodes, pick the one that
/// builds, have the log admit the package, then start the build there.
pub struct BuildRequest {
    pub package_type: PackageType,
    pub package_specific_id: String,
    pub local_peer_id: PeerId,
    pub phase: BuildPhase,
}

impl BuildRequest {
    /// What one reply does to the request: the next phase and step.
    pub open spec fn next(self, reply: Reply, phase: BuildPhase, step: Step<Result<String, BuildError>>) -> bool {
        match self.phase {
            BuildPhase::AwaitNodes => match reply {
                Reply::Nodes(nodes) => if nodes@.len() == 0 {
                    phase == BuildPhase::Finished && (step matches Step::Finish(
                        Err(BuildError::InitializationFailed(m)),
                    ) && m@ == no_authorized_nodes_message())
                } else {
                    phase == (BuildPhase::AwaitAdmission {
                        target: dispatch_target(nodes@, self.local_peer_id@),
                    }) && step == Step::<Result<String, BuildError>>::Run(
                        Command::VerifyPackageCanBeAdded {
                            package_type: self.package_type,
                            package_specific_id: self.package_specific_id,
                        },
                    )
                },
                Reply::Failed(m) => phase == BuildPhase::Finished && step == Step::Finish(
                    Err::<String, BuildError>(BuildError::InitializationFailed(m)),
                ),
                _ => phase == BuildPhase::Finished && (step matches Step::Finish(
                    Err(BuildError::InitializationFailed(m)),
                ) && m@ == unexpected_reply_message()),
            },
            BuildPhase::AwaitAdmission { target } => match reply {
                Reply::Done => match target {
                    None => phase == BuildPhase::AwaitLocal && step == Step::<
                        Result<String, BuildError>,
                    >::Run(
                        Command::StartBuild {
                            package_type: self.package_type,
                            package_specific_id: self.package_specific_id,
                        },
                    ),
                    Some(peer) => phase == BuildPhase::AwaitRemote && step == Step::<
                        Result<String, BuildError>,
                    >::Run(
                        Command::RequestBuild {
                            peer,
                            package_type: self.package_type,
                            package_specific_id: self.package_specific_id,
                        },
                    ),
                },
                Reply::Failed(m) => phase == BuildPhase::Finished && step == Step::Finish(
                    Err::<String, BuildError>(BuildError::ArtifactAlreadyExists(m)),
                ),
                _ => phase == BuildPhase::Finished && (step matches Step::Finish(
                    Err(BuildError::InitializationFailed(m)),
                ) && m@ == unexpected_reply_message()),
            },
            BuildPhase::AwaitLocal => phase == BuildPhase::Finished && match reply {
                Reply::Text(id) => step == Step::Finish(Ok::<String, BuildError>(id)),
                Reply::BuildFailed(e) => step == Step::Finish(Err::<String, BuildError>(e)),
                Reply::Failed(m) => step == Step::Finish(
                    Err::<String, BuildError>(BuildError::InitializationFailed(m)),
                ),
                _ => step matches Step::Finish(Err(BuildError::InitializationFailed(m)))
                    && m@ == unexpected_reply_message(),
            },
            BuildPhase::AwaitRemote => phase == BuildPhase::Finished && match reply {
                Reply::Text(id) => step == Step::Finish(Ok::<String, BuildError>(id)),
                Reply::Failed(m) => step == Step::Finish(
                    Err::<String, BuildError>(BuildError::InitializationFailed(m)),
                ),
                _ => step matches Step::Finish(Err(BuildError::InitializationFailed(m)))
                    && m@ == unexpected_reply_message(),
            },
            BuildPhase::Finished => phase == BuildPhase::Finished && (step matches Step::Finish(
                Err(BuildError::InitializationFailed(m)),
            ) && m@ == unexpected_reply_message()),
        }
    }

    /// Takes the reply to the last command and says what comes next.
    pub fn step(&mut self, reply: Reply) -> (r: Step<Result<String, BuildError>>)
        ensures
            final(self).package_type == old(self).package_type,
            final(self).package_specific_id == old(self).package_specific_id,
            final(self).local_peer_id == old(self).local_peer_id,
            old(self).next(reply, final(self).phase, r),
    {
        let mut phase = BuildPhase::Finished;
        core::mem::swap(&mut phase, &mut self.phase);
        match phase {
            BuildPhase::AwaitNodes => match reply {
                Reply::Nodes(nodes) => {
                    if nodes.len() == 0 {
                        Step::Finish(
                            Err(BuildError::InitializationFailed("No authorized nodes found".to_owned())),
                        )
                    } else {
                        let target = choose_target(nodes, &self.local_peer_id);
                        self.phase = BuildPhase::AwaitAdmission { target };
                        Step::Run(
                            Command::VerifyPackageCanBeAdded {
                                package_type: self.package_type,
                                package_specific_id: self.package_specific_id.clone(),
                            },
                        )
                    }
                },
                Reply::Failed(m) => Step::Finish(Err(BuildError::InitializationFailed(m))),
                _ => Step::Finish(Err(BuildError::InitializationFailed(unexpected_reply()))),
            },
            BuildPhase::AwaitAdmission { target } => match reply {
                Reply::Done => match target {
                    None => {
                        self.phase = BuildPhase::AwaitLocal;
                        Step::Run(
                            Command::StartBuild {
                                package_type: self.package_type,
                                package_specific_id: self.package_specific_id.clone(),
                            },
                        )
                    },
                    Some(peer) => {
                        self.phase = BuildPhase::AwaitRemote;
                        Step::Run(
                            Command::RequestBuild {
                                peer,
                                package_type: self.package_type,
                                package_specific_id: self.package_specific_id.clone(),
                            },
                        )
                    },
                },
                Reply::Failed(m) => Step::Finish(Err(BuildError::ArtifactAlreadyExists(m))),
                _ => Step::Finish(Err(BuildError::InitializationFailed(unexpected_reply()))),
            },
            BuildPhase::AwaitLocal => match reply {
                Reply::Text(id) => Step::Finish(Ok(id)),
                Reply::BuildFailed(e) => Step::Finish(Err(e)),
                Reply::Failed(m) => Step::Finish(Err(BuildError::InitializationFailed(m))),
                _ => Step::Finish(Err(BuildError::InitializationFailed(unexpected_reply()))),
            },
            BuildPhase::AwaitRemote => match reply {
                Reply::Text(id) => Step::Finish(Ok(id)),
                Reply::Failed(m) => Step::Finish(Err(BuildError::InitializationFailed(m))),
                _ => Step::Finish(Err(BuildError::InitializationFailed(unexpected_reply()))),
            },
            BuildPhase::Finished => Step::Finish(
                Err(BuildError::InitializationFailed(unexpected_reply())),
            ),
        }
    }
}

/// A build status query in progress: find the authorized nodes, pick the
/// one that builds, and ask it for the status.
pub struct BuildStatusQuery {
    pub build_id: String,
    pub local_peer_id: PeerId,
    pub phase: BuildPhase,
}

impl BuildStatusQuery {
    /// What one reply does to the query: the next phase and step.
    pub open spec fn next(self, reply: Reply, phase: BuildPhase, step: Step<Result<String, BuildError>>) -> bool {
        match self.phase {
            BuildPhase::AwaitNodes => match reply {
                Reply::Nodes(nodes) => if nodes@.len() == 0 {
                    phase == BuildPhase::Finished && (step matches Step::Finish(
                        Err(BuildError::BuildStatusFailed(m)),
                    ) && m@ == no_authorized_nodes_message())
                } else {
                    match dispatch_target(nodes@, self.local_peer_id@) {
                        None => phase == BuildPhase::AwaitLocal && step == Step::<
                            Result<String, BuildError>,
                        >::Run(Command::GetBuildStatus { build_id: self.build_id }),
                        Some(peer) => phase == BuildPhase::AwaitRemote && step == Step::<
                            Result<String, BuildError>,
                        >::Run(Command::RequestBuildStatus { peer, build_id: self.build_id }),
                    }
                },
                Reply::Failed(m) => phase == BuildPhase::Finished && step == Step::Finish(
                    Err::<String, BuildError>(BuildError::BuildStatusFailed(m)),
                ),
                _ => phase == BuildPhase::Finished && (step matches Step::Finish(
                    Err(BuildError::BuildStatusFailed(m)),
                ) && m@ == unexpected_reply_message()),
            },
            BuildPhase::AwaitLocal => phase == BuildPhase::Finished && match reply {
                Reply::Text(status) => step == Step::Finish(Ok::<String, BuildError>(status)),
                Reply::BuildFailed(e) => step == Step::Finish(Err::<String, BuildError>(e)),
                Reply::Failed(m) => step == Step::Finish(
                    Err::<String, BuildError>(BuildError::BuildStatusFailed(m)),
                ),
                _ => step matches Step::Finish(Err(BuildError::BuildStatusFailed(m)))
                    && m@ == unexpected_reply_message(),
            },
            BuildPhase::AwaitRemote => phase == BuildPhase::Finished && match reply {
                Reply::Text(status) => step == Step::Finish(Ok::<String, BuildError>(status)),
                Reply::Failed(m) => step == Step::Finish(
                    Err::<String, BuildError>(BuildError::BuildStatusFailed(m)),
                ),
                _ => step matches Step::Finish(Err(BuildError::BuildStatusFailed(m)))
                    && m@ == unexpected_reply_message(),
            },
            _ => phase == BuildPhase::Finished && (step matches Step::Finish(
                Err(BuildError::BuildStatusFailed(m)),
            ) && m@ == unexpected_reply_message()),
        }
    }

    /// Takes the reply to the last command and says what comes next.
    pub fn step(&mut self, reply: Reply) -> (r: Step<Result<String, BuildError>>)
        ensures
            final(self).build_id == old(self).build_id,
            final(self).local_peer_id == old(self).local_peer_id,
            old(self).next(reply, final(self).phase, r),
    {
        let mut phase = BuildPhase::Finished;
        core::mem::swap(&mut phase, &mut self.phase);
        match phase {
            BuildPhase::AwaitNodes => match reply {
                Reply::Nodes(nodes) => {
                    if nodes.len() == 0 {
                        Step::Finish(
                            Err(BuildError::BuildStatusFailed("No authorized nodes found".to_owned())),
                        )
                    } else {
                        match choose_target(nodes, &self.local_peer_id) {
                            None => {
                                self.phase = BuildPhase::AwaitLocal;
                                Step::Run(Command::GetBuildStatus { build_id: self.build_id.clone() })
                            },
                            Some(peer) => {
                                self.phase = BuildPhase::AwaitRemote;
                                Step::Run(
                                    Command::RequestBuildStatus {
                                        peer,
                                        build_id: self.build_id.clone(),
                                    },
                                )
                            },
                        }
                    }
                },
                Reply::Failed(m) => Step::Finish(Err(BuildError::BuildStatusFailed(m))),
                _ => Step::Finish(Err(BuildError::BuildStatusFailed(unexpected_reply()))),
            },
            BuildPhase::AwaitLocal => match reply {
                Reply::Text(status) => Step::Finish(Ok(status)),
                Reply::BuildFailed(e) => Step::Finish(Err(e)),
                Reply::Failed(m) => Step::Finish(Err(BuildError::BuildStatusFailed(m))),
                _ => Step::Finish(Err(BuildError::BuildStatusFailed(unexpected_reply()))),
            },
            BuildPhase::AwaitRemote => match reply {
                Reply::Text(status) => Step::Finish(Ok(status)),
                Reply::Failed(m) => Step::Finish(Err(BuildError::BuildStatusFailed(m))),
                _ => Step::Finish(Err(BuildError::BuildStatusFailed(unexpected_reply()))),
            },
            _ => Step::Finish(Err(BuildError::BuildStatusFailed(unexpected_reply()))),
        }
    }
}

} // verus!
