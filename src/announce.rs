use vstd::prelude::*;
use crate::ingest::{lemma_contains_push, lemma_push_contains};
use crate::model::ArtifactError;
use crate::protocol::{Command, Reply, Step};

verus! {

/// The final component of a path without its extension, as the standard
/// library computes it; none where the path has no file name.
pub uninterp spec fn file_stem_of(path: Seq<char>) -> Option<Seq<char>>;

/// Relies on std::path::Path::file_stem: the file name of a path without
/// its extension, or none where the path has no file name.
#[verifier::external_body]
fn file_stem(path: &str) -> (r: Option<String>)
    ensures
        match r {
            Some(s) => file_stem_of(path@) == Some(s@),
            None => file_stem_of(path@) is None,
        },
{
    std::path::Path::new(path).file_stem().map(|s| s.to_string_lossy().into_owned())
}

/// The artifact ids of stored files: the stems of the paths that have one,
/// in order.
pub open spec fn stems_of(paths: Seq<String>) -> Seq<Seq<char>>
    decreases paths.len(),
{
    if paths.len() == 0 {
        Seq::empty()
    } else {
        let rest = stems_of(paths.drop_last());
        match file_stem_of(paths.last()@) {
            Some(s) => rest.push(s),
            None => rest,
        }
    }
}

/// The ids of the stored files at `paths`.
pub fn artifact_ids(paths: &Vec<String>) -> (r: Vec<String>)
    ensures
        r@.map_values(|s: String| s@) == stems_of(paths@),
{
    let mut ids: Vec<String> = Vec::new();
    let mut i: usize = 0;
    while i < paths.len()
        invariant
            i <= paths@.len(),
            ids@.map_values(|s: String| s@) == stems_of(paths@.take(i as int)),
        decreases paths@.len() - i,
    {
        assert(paths@.take(i as int + 1).drop_last() == paths@.take(i as int));
        match file_stem(paths[i].as_str()) {
            Some(s) => {
                ids.push(s);
            },
            None => {},
        }
        proof {
            assert(ids@.map_values(|s: String| s@) =~= stems_of(paths@.take(i as int + 1)));
        }
        i = i + 1;
    }
    assert(paths@.take(paths@.len() as int) =~= paths@);
    ids
}

/// Where an announcement of the local inventory stands.
#[derive(Clone, Copy, Debug, PartialEq, Eq, Structural)]
pub enum ProvidePhase {
    AwaitList,
    AwaitProvided,
    Finished,
}

/// The announcement of every stored artifact to the network, one at a time;
/// the first failure ends it.
pub struct ProvideLocal {
    pub phase: ProvidePhase,
    /// The ids to announce, once storage has listed them.
    pub ids: Vec<String>,
    /// How many ids have been announced.
    pub provided: usize,
    pub trace: Ghost<Seq<Command>>,
}

impl ProvideLocal {
    pub open spec fn wf(self) -> bool {
        &&& self.provided <= self.ids@.len()
        &&& self.phase == ProvidePhase::AwaitProvided ==> self.provided < self.ids@.len()
            && self.trace@.contains(Command::Provide { artifact_id: self.ids@[self.provided as int] })
        &&& forall|j: int|
            0 <= j < self.provided ==> self.trace@.contains(
                Command::Provide { artifact_id: #[trigger] self.ids@[j] },
            )
    }

    /// Takes the reply to the last command and says what comes next. A
    /// successful end means every listed id was announced.
    pub fn step(&mut self, reply: Reply) -> (r: Step<Result<(), ArtifactError>>)
        requires
            old(self).wf(),
        ensures
            final(self).wf(),
            r is Run ==> final(self).phase == ProvidePhase::AwaitProvided,
            r is Finish ==> final(self).phase == ProvidePhase::Finished,
            final(self).trace@ == match r {
                Step::Run(c) => old(self).trace@.push(c),
                Step::Finish(_) => old(self).trace@,
            },
            old(self).phase == ProvidePhase::AwaitList ==> match reply {
                Reply::Paths(paths) => final(self).ids@.map_values(|s: String| s@) == stems_of(paths@)
                    && final(self).provided == 0 && if final(self).ids@.len() == 0 {
                    r == Step::Finish(Ok::<(), ArtifactError>(()))
                } else {
                    r == Step::<Result<(), ArtifactError>>::Run(
                        Command::Provide { artifact_id: final(self).ids@[0] },
                    )
                },
                Reply::Failed(m) => r == Step::Finish(Err::<(), ArtifactError>(ArtifactError::Storage(m))),
                _ => r == Step::Finish(Err::<(), ArtifactError>(ArtifactError::UnexpectedReply)),
            },
            old(self).phase == ProvidePhase::AwaitProvided ==> match reply {
                Reply::Done => final(self).ids == old(self).ids && final(self).provided == old(self).provided
                    + 1 && if final(self).provided < final(self).ids@.len() {
                    r == Step::<Result<(), ArtifactError>>::Run(
                        Command::Provide { artifact_id: final(self).ids@[final(self).provided as int] },
                    )
                } else {
                    r == Step::Finish(Ok::<(), ArtifactError>(()))
                },
                Reply::Failed(m) => r == Step::Finish(Err::<(), ArtifactError>(ArtifactError::Network(m))),
                _ => r == Step::Finish(Err::<(), ArtifactError>(ArtifactError::UnexpectedReply)),
            },
            old(self).phase == ProvidePhase::Finished ==> r == Step::Finish(
                Err::<(), ArtifactError>(ArtifactError::UnexpectedReply),
            ),
            r == Step::Finish(Ok::<(), ArtifactError>(())) ==> forall|j: int|
                0 <= j < final(self).ids@.len() ==> final(self).trace@.contains(
                    Command::Provide { artifact_id: #[trigger] final(self).ids@[j] },
                ),
    {
        let phase = self.phase;
        self.phase = ProvidePhase::Finished;
        match phase {
            ProvidePhase::AwaitList => match reply {
                Reply::Paths(paths) => {
                    self.ids = artifact_ids(&paths);
                    self.provided = 0;
                    if self.ids.len() == 0 {
                        Step::Finish(Ok(()))
                    } else {
                        let c = Command::Provide { artifact_id: self.ids[0].clone() };
                        self.phase = ProvidePhase::AwaitProvided;
                        proof {
                            lemma_push_contains(self.trace@, c);
                        }
                        self.trace = Ghost(self.trace@.push(c));
                        Step::Run(c)
                    }
                },
                Reply::Failed(m) => Step::Finish(Err(ArtifactError::Storage(m))),
                _ => Step::Finish(Err(ArtifactError::UnexpectedReply)),
            },
            ProvidePhase::AwaitProvided => match reply {
                Reply::Done => {
                    let n = self.ids.len();
                    assert(self.provided < n);
                    self.provided = self.provided + 1;
                    if self.provided < self.ids.len() {
                        let c = Command::Provide { artifact_id: self.ids[self.provided].clone() };
                        let ghost before = self.trace@;
                        self.phase = ProvidePhase::AwaitProvided;
                        self.trace = Ghost(self.trace@.push(c));
                        proof {
                            lemma_push_contains(before, c);
                            assert forall|j: int| 0 <= j < self.provided implies self.trace@.contains(
                                Command::Provide { artifact_id: #[trigger] self.ids@[j] },
                            ) by {
                                lemma_contains_push(before, c, Command::Provide { artifact_id: self.ids@[j] });
                            }
                        }
                        Step::Run(c)
                    } else {
                        Step::Finish(Ok(()))
                    }
                },
                Reply::Failed(m) => Step::Finish(Err(ArtifactError::Network(m))),
                _ => Step::Finish(Err(ArtifactError::UnexpectedReply)),
            },
            ProvidePhase::Finished => Step::Finish(Err(ArtifactError::UnexpectedReply)),
        }
    }
}

} // verus!
