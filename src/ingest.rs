use vstd::prelude::*;
use crate::model::{AddArtifactRequest, ArtifactError, BuildResult, TransparencyLog};
use crate::protocol::{Command, Reply, Step};

verus! {

/// The log request that records artifact `i` of a build result.
pub open spec fn request_for(result: BuildResult, i: int) -> AddArtifactRequest {
    AddArtifactRequest {
        package_type: result.package_type,
        package_specific_id: result.package_specific_id,
        num_artifacts: result.artifacts@.len() as u32,
        package_specific_artifact_id: result.artifacts@[i].artifact_specific_id,
        artifact_hash: result.artifacts@[i].artifact_hash,
    }
}

/// Artifact `i` of `result` was recorded in the log with its own hash, its
/// file was stored under the id of `record`, the log's answer, and that id
/// was announced to the network.
pub open spec fn ingested(cmds: Seq<Command>, result: BuildResult, i: int, record: TransparencyLog) -> bool {
    &&& cmds.contains(Command::AddArtifact { request: request_for(result, i) })
    &&& request_for(result, i).artifact_hash == result.artifacts@[i].artifact_hash
    &&& cmds.contains(
        Command::StoreArtifactFile {
            artifact_id: record.artifact_id,
            location: result.artifacts@[i].artifact_location,
        },
    )
    &&& cmds.contains(Command::Provide { artifact_id: record.artifact_id })
}

pub proof fn lemma_contains_push(s: Seq<Command>, c: Command, x: Command)
    requires
        s.contains(x),
    ensures
        s.push(c).contains(x),
{
    let i = choose|i: int| 0 <= i < s.len() && s[i] == x;
    assert(s.push(c)[i] == x);
}

pub proof fn lemma_push_contains(s: Seq<Command>, c: Command)
    ensures
        s.push(c).contains(c),
{
    assert(s.push(c)[s.len() as int] == c);
}

proof fn lemma_ingested_push(cmds: Seq<Command>, c: Command, result: BuildResult, i: int, record: TransparencyLog)
    requires
        ingested(cmds, result, i, record),
    ensures
        ingested(cmds.push(c), result, i, record),
{
    lemma_contains_push(cmds, c, Command::AddArtifact { request: request_for(result, i) });
    lemma_contains_push(
        cmds,
        c,
        Command::StoreArtifactFile {
            artifact_id: record.artifact_id,
            location: result.artifacts@[i].artifact_location,
        },
    );
    lemma_contains_push(cmds, c, Command::Provide { artifact_id: record.artifact_id });
}

/// Where an ingestion stands.
#[derive(Clone, Copy, Debug, PartialEq, Eq, Structural)]
pub enum IngestPhase {
    /// Waiting for the log to record the current artifact.
    AwaitRecorded,
    /// Waiting for storage to take the current artifact's file.
    AwaitStored,
    /// Waiting for the network to announce the current artifact.
    AwaitProvided,
    /// Waiting for the broadcast of all records.
    AwaitBroadcast,
    Finished,
}

/// The ingestion of a completed build: each artifact in order is recorded in
/// the log, stored, and announced; then the records are broadcast once.
pub struct BuildIngest {
    pub build_result: BuildResult,
    /// The artifact being processed; all before it are done.
    pub current: usize,
    pub phase: IngestPhase,
    /// The payloads of the records made so far, in order.
    pub payloads: Vec<String>,
    /// The storage key of the current artifact, once recorded.
    pub artifact_id: String,
    /// The records the log made so far, in order.
    pub records: Ghost<Seq<TransparencyLog>>,
    /// The commands issued so far.
    pub trace: Ghost<Seq<Command>>,
}

impl BuildIngest {
    pub open spec fn wf(self) -> bool {
        let n = self.build_result.artifacts@.len();
        let i = self.current as int;
        &&& i <= n
        &&& (self.phase == IngestPhase::AwaitRecorded || self.phase == IngestPhase::AwaitStored
            || self.phase == IngestPhase::AwaitProvided) ==> i < n
        &&& self.phase == IngestPhase::AwaitBroadcast ==> i == n
        &&& self.phase == IngestPhase::AwaitRecorded ==> self.records@.len() == i
            && self.trace@.contains(Command::AddArtifact { request: request_for(self.build_result, i) })
        &&& (self.phase == IngestPhase::AwaitStored || self.phase == IngestPhase::AwaitProvided)
            ==> self.records@.len() == i + 1 && self.records@[i].artifact_id == self.artifact_id
            && self.trace@.contains(Command::AddArtifact { request: request_for(self.build_result, i) })
        &&& (self.phase == IngestPhase::AwaitStored || self.phase == IngestPhase::AwaitProvided)
            ==> self.trace@.contains(
            Command::StoreArtifactFile {
                artifact_id: self.artifact_id,
                location: self.build_result.artifacts@[i].artifact_location,
            },
        )
        &&& self.phase == IngestPhase::AwaitProvided ==> self.trace@.contains(
            Command::Provide { artifact_id: self.artifact_id },
        )
        &&& self.phase == IngestPhase::AwaitBroadcast ==> self.records@.len() == n
        &&& self.phase != IngestPhase::Finished ==> forall|j: int|
            0 <= j < i ==> #[trigger] ingested(self.trace@, self.build_result, j, self.records@[j])
    }

    /// Every artifact of the build has been recorded, stored and announced.
    pub open spec fn all_ingested(self) -> bool {
        &&& self.records@.len() == self.build_result.artifacts@.len()
        &&& forall|j: int|
            0 <= j < self.build_result.artifacts@.len() ==> #[trigger] ingested(
                self.trace@,
                self.build_result,
                j,
                self.records@[j],
            )
    }

    /// What one reply does to the ingestion: the state after it and the step.
    pub open spec fn next(self, reply: Reply, after: Self, step: Step<Result<(), ArtifactError>>) -> bool {
        let n = self.build_result.artifacts@.len();
        let i = self.current as int;
        &&& after.build_result == self.build_result
        &&& after.trace@ == match step {
            Step::Run(c) => self.trace@.push(c),
            Step::Finish(_) => self.trace@,
        }
        &&& step is Finish ==> after.phase == IngestPhase::Finished
        &&& match self.phase {
            IngestPhase::AwaitRecorded => match reply {
                Reply::Added(record, payload) => after.phase == IngestPhase::AwaitStored
                    && after.current == self.current && after.payloads@ == self.payloads@.push(payload)
                    && after.records@ == self.records@.push(record)
                    && after.artifact_id == record.artifact_id && step == Step::<
                    Result<(), ArtifactError>,
                >::Run(
                    Command::StoreArtifactFile {
                        artifact_id: record.artifact_id,
                        location: self.build_result.artifacts@[i].artifact_location,
                    },
                ),
                Reply::Failed(m) => step == Step::Finish(Err::<(), ArtifactError>(ArtifactError::Log(m))),
                _ => step == Step::Finish(Err::<(), ArtifactError>(ArtifactError::UnexpectedReply)),
            },
            IngestPhase::AwaitStored => match reply {
                Reply::Done => after.phase == IngestPhase::AwaitProvided && after.current == self.current
                    && after.payloads == self.payloads && after.records == self.records
                    && after.artifact_id == self.artifact_id && step == Step::<Result<(), ArtifactError>>::Run(
                    Command::Provide { artifact_id: self.artifact_id },
                ),
                Reply::Failed(m) => step == Step::Finish(Err::<(), ArtifactError>(ArtifactError::Storage(m))),
                _ => step == Step::Finish(Err::<(), ArtifactError>(ArtifactError::UnexpectedReply)),
            },
            IngestPhase::AwaitProvided => match reply {
                Reply::Done => after.current == self.current + 1 && after.records == self.records
                    && if i + 1 < n {
                    after.phase == IngestPhase::AwaitRecorded && after.payloads == self.payloads
                        && after.artifact_id == self.artifact_id && step == Step::<
                        Result<(), ArtifactError>,
                    >::Run(Command::AddArtifact { request: request_for(self.build_result, i + 1) })
                } else {
                    after.phase == IngestPhase::AwaitBroadcast && step == Step::<
                        Result<(), ArtifactError>,
                    >::Run(Command::BroadcastArtifacts { payloads: self.payloads })
                },
                Reply::Failed(m) => step == Step::Finish(Err::<(), ArtifactError>(ArtifactError::Network(m))),
                _ => step == Step::Finish(Err::<(), ArtifactError>(ArtifactError::UnexpectedReply)),
            },
            IngestPhase::AwaitBroadcast => match reply {
                Reply::Done => step == Step::Finish(Ok::<(), ArtifactError>(())),
                Reply::Failed(m) => step == Step::Finish(Err::<(), ArtifactError>(ArtifactError::Log(m))),
                _ => step == Step::Finish(Err::<(), ArtifactError>(ArtifactError::UnexpectedReply)),
            },
            IngestPhase::Finished => step == Step::Finish(
                Err::<(), ArtifactError>(ArtifactError::UnexpectedReply),
            ),
        }
    }

    /// Takes the reply to the last command and says what comes next. A
    /// successful end means every artifact was recorded, stored and announced.
    pub fn step(&mut self, reply: Reply) -> (r: Step<Result<(), ArtifactError>>)
        requires
            old(self).wf(),
        ensures
            final(self).wf(),
            old(self).next(reply, *final(self), r),
            r == Step::Finish(Ok::<(), ArtifactError>(())) ==> old(self).all_ingested(),
    {
        let phase = self.phase;
        self.phase = IngestPhase::Finished;
        match phase {
            IngestPhase::AwaitRecorded => match reply {
                Reply::Added(record, payload) => {
                    let i = self.current;
                    let c = Command::StoreArtifactFile {
                        artifact_id: record.artifact_id.clone(),
                        location: self.build_result.artifacts[i].artifact_location.clone(),
                    };
                    self.payloads.push(payload);
                    self.artifact_id = record.artifact_id.clone();
                    let ghost before = self.trace@;
                    self.records = Ghost(self.records@.push(record));
                    self.trace = Ghost(self.trace@.push(c));
                    self.phase = IngestPhase::AwaitStored;
                    proof {
                        lemma_contains_push(
                            before,
                            c,
                            Command::AddArtifact { request: request_for(self.build_result, i as int) },
                        );
                        lemma_push_contains(before, c);
                        assert forall|j: int| 0 <= j < i implies #[trigger] ingested(
                            self.trace@,
                            self.build_result,
                            j,
                            self.records@[j],
                        ) by {
                            lemma_ingested_push(before, c, self.build_result, j, self.records@[j]);
                        }
                    }
                    Step::Run(c)
                },
                Reply::Failed(m) => Step::Finish(Err(ArtifactError::Log(m))),
                _ => Step::Finish(Err(ArtifactError::UnexpectedReply)),
            },
            IngestPhase::AwaitStored => match reply {
                Reply::Done => {
                    let c = Command::Provide { artifact_id: self.artifact_id.clone() };
                    let i = self.current;
                    let ghost before = self.trace@;
                    let r = self.advance(IngestPhase::AwaitProvided, c);
                    proof {
                        lemma_push_contains(before, c);
                        lemma_contains_push(
                            before,
                            c,
                            Command::AddArtifact { request: request_for(self.build_result, i as int) },
                        );
                        lemma_contains_push(
                            before,
                            c,
                            Command::StoreArtifactFile {
                                artifact_id: self.artifact_id,
                                location: self.build_result.artifacts@[i as int].artifact_location,
                            },
                        );
                        assert forall|j: int| 0 <= j < i implies #[trigger] ingested(
                            self.trace@,
                            self.build_result,
                            j,
                            self.records@[j],
                        ) by {
                            lemma_ingested_push(before, c, self.build_result, j, self.records@[j]);
                        }
                    }
                    r
                },
                Reply::Failed(m) => Step::Finish(Err(ArtifactError::Storage(m))),
                _ => Step::Finish(Err(ArtifactError::UnexpectedReply)),
            },
            IngestPhase::AwaitProvided => match reply {
                Reply::Done => {
                    let i = self.current;
                    let ghost before = self.trace@;
                    let n = self.build_result.artifacts.len();
                    assert(i < n);
                    assert(ingested(before, self.build_result, i as int, self.records@[i as int]));
                    assert(forall|j: int|
                        0 <= j <= i ==> #[trigger] ingested(before, self.build_result, j, self.records@[j]));
                    self.current = i + 1;
                    let c = if i + 1 < self.build_result.artifacts.len() {
                        Command::AddArtifact { request: self.request_at(i + 1) }
                    } else {
                        let mut payloads = Vec::new();
                        core::mem::swap(&mut payloads, &mut self.payloads);
                        Command::BroadcastArtifacts { payloads }
                    };
                    let next_phase = if i + 1 < self.build_result.artifacts.len() {
                        IngestPhase::AwaitRecorded
                    } else {
                        IngestPhase::AwaitBroadcast
                    };
                    let r = self.advance(next_phase, c);
                    proof {
                        lemma_push_contains(before, c);
                        assert forall|j: int| 0 <= j <= i implies #[trigger] ingested(
                            self.trace@,
                            self.build_result,
                            j,
                            self.records@[j],
                        ) by {
                            lemma_ingested_push(before, c, self.build_result, j, self.records@[j]);
                        }
                    }
                    r
                },
                Reply::Failed(m) => Step::Finish(Err(ArtifactError::Network(m))),
                _ => Step::Finish(Err(ArtifactError::UnexpectedReply)),
            },
            IngestPhase::AwaitBroadcast => match reply {
                Reply::Done => Step::Finish(Ok(())),
                Reply::Failed(m) => Step::Finish(Err(ArtifactError::Log(m))),
                _ => Step::Finish(Err(ArtifactError::UnexpectedReply)),
            },
            IngestPhase::Finished => Step::Finish(Err(ArtifactError::UnexpectedReply)),
        }
    }

    /// The log request for artifact `i`.
    pub fn request_at(&self, i: usize) -> (r: AddArtifactRequest)
        requires
            i < self.build_result.artifacts@.len(),
        ensures
            r == request_for(self.build_result, i as int),
    {
        let a = &self.build_result.artifacts[i];
        AddArtifactRequest {
            package_type: self.build_result.package_type,
            package_specific_id: self.build_result.package_specific_id.clone(),
            num_artifacts: self.build_result.artifacts.len() as u32,
            package_specific_artifact_id: a.artifact_specific_id.clone(),
            artifact_hash: a.artifact_hash.clone(),
        }
    }

    fn advance(&mut self, phase: IngestPhase, c: Command) -> (r: Step<Result<(), ArtifactError>>)
        ensures
            r == Step::<Result<(), ArtifactError>>::Run(c),
            final(self).phase == phase,
            final(self).trace@ == old(self).trace@.push(c),
            final(self).build_result == old(self).build_result,
            final(self).current == old(self).current,
            final(self).payloads == old(self).payloads,
            final(self).artifact_id == old(self).artifact_id,
            final(self).records == old(self).records,
    {
        self.phase = phase;
        self.trace = Ghost(self.trace@.push(c));
        Step::Run(c)
    }
}

proof fn lemma_next_keeps_wf(s: BuildIngest, reply: Reply, after: BuildIngest, step: Step<Result<(), ArtifactError>>)
    requires
        s.wf(),
        s.next(reply, after, step),
        step is Run,
    ensures
        after.wf(),
{
    let i = s.current as int;
    let c = step->Run_0;
    match s.phase {
        IngestPhase::AwaitRecorded => {
            if let Reply::Added(record, payload) = reply {
                lemma_contains_push(s.trace@, c, Command::AddArtifact { request: request_for(s.build_result, i) });
                lemma_push_contains(s.trace@, c);
                assert forall|j: int| 0 <= j < after.current implies #[trigger] ingested(
                    after.trace@,
                    after.build_result,
                    j,
                    after.records@[j],
                ) by {
                    assert(after.records@[j] == s.records@[j]);
                    lemma_ingested_push(s.trace@, c, s.build_result, j, s.records@[j]);
                }
            }
        },
        IngestPhase::AwaitStored => {
            lemma_push_contains(s.trace@, c);
            lemma_contains_push(s.trace@, c, Command::AddArtifact { request: request_for(s.build_result, i) });
            lemma_contains_push(
                s.trace@,
                c,
                Command::StoreArtifactFile {
                    artifact_id: s.artifact_id,
                    location: s.build_result.artifacts@[i].artifact_location,
                },
            );
            assert forall|j: int| 0 <= j < after.current implies #[trigger] ingested(
                after.trace@,
                after.build_result,
                j,
                after.records@[j],
            ) by {
                lemma_ingested_push(s.trace@, c, s.build_result, j, s.records@[j]);
            }
        },
        IngestPhase::AwaitProvided => {
            assert(ingested(s.trace@, s.build_result, i, s.records@[i]));
            lemma_push_contains(s.trace@, c);
            assert forall|j: int| 0 <= j < after.current implies #[trigger] ingested(
                after.trace@,
                after.build_result,
                j,
                after.records@[j],
            ) by {
                if j < i {
                    assert(ingested(s.trace@, s.build_result, j, s.records@[j]));
                }
                lemma_ingested_push(s.trace@, c, s.build_result, j, s.records@[j]);
            }
        },
        _ => {},
    }
}

/// `states` is a run of an ingestion: each state follows from the one before
/// it and the reply it took, and every step but the last issued a command.
pub open spec fn is_ingest_run(
    states: Seq<BuildIngest>,
    replies: Seq<Reply>,
    steps: Seq<Step<Result<(), ArtifactError>>>,
) -> bool {
    &&& states.len() == replies.len() + 1
    &&& steps.len() == replies.len()
    &&& forall|k: int| 0 <= k < replies.len() ==> #[trigger] states[k].next(replies[k], states[k + 1], steps[k])
    &&& forall|k: int| 0 <= k < steps.len() - 1 ==> #[trigger] steps[k] is Run
}

proof fn lemma_run_keeps_wf(
    states: Seq<BuildIngest>,
    replies: Seq<Reply>,
    steps: Seq<Step<Result<(), ArtifactError>>>,
    k: int,
)
    requires
        is_ingest_run(states, replies, steps),
        states[0].wf(),
        0 <= k < replies.len(),
    ensures
        states[k].wf(),
        states[k].build_result == states[0].build_result,
    decreases k,
{
    if k > 0 {
        lemma_run_keeps_wf(states, replies, steps, k - 1);
        let j = k - 1;
        assert(states[j].next(replies[j], states[j + 1], steps[j]));
        assert(steps[j] is Run);
        lemma_next_keeps_wf(states[k - 1], replies[k - 1], states[k], steps[k - 1]);
    }
}

/// When the ingestion of a build result ends in success, every artifact of
/// the result was recorded in the log with its own hash, its file was stored
/// under the id of the record the log made for it, and that id was announced.
pub proof fn lemma_build_result_ingested(
    states: Seq<BuildIngest>,
    replies: Seq<Reply>,
    steps: Seq<Step<Result<(), ArtifactError>>>,
)
    requires
        states.len() >= 2,
        states[0].wf(),
        is_ingest_run(states, replies, steps),
        steps.last() == Step::Finish(Ok::<(), ArtifactError>(())),
    ensures
        ({
            let last = states[states.len() - 2];
            &&& last.build_result == states[0].build_result
            &&& last.records@.len() == states[0].build_result.artifacts@.len()
            &&& forall|j: int|
                0 <= j < states[0].build_result.artifacts@.len() ==> #[trigger] ingested(
                    last.trace@,
                    states[0].build_result,
                    j,
                    last.records@[j],
                )
        }),
{
    let k = replies.len() - 1;
    lemma_run_keeps_wf(states, replies, steps, k);
    assert(states[k].next(replies[k], states[k + 1], steps[k]));
}

} // verus!
