use vstd::prelude::*;
use crate::digest::artifact_hash_of;
use crate::fetch::{pushed, pushes, store_after, ArtifactFetch, FetchMode, FetchPhase};
use crate::model::{ArtifactError, TransparencyLog};
use crate::protocol::{Command, Reply, Step};
use crate::service::{block_write, is_put};

verus! {

/// The transparency log, as the set of records written to it, after a write
/// that adds a record unless it is already there.
pub open spec fn log_after_write(log: Set<Seq<u8>>, write: Option<Command>) -> Set<Seq<u8>> {
    match write {
        Some(Command::WriteIfNotExists { payload }) => log.insert(payload@),
        _ => log,
    }
}

/// The log after handling the same committed block `n` times.
pub open spec fn log_after_blocks(log: Set<Seq<u8>>, payloads: Seq<Vec<u8>>, n: nat) -> Set<Seq<u8>>
    decreases n,
{
    if n == 0 {
        log
    } else {
        log_after_write(log_after_blocks(log, payloads, (n - 1) as nat), block_write(payloads))
    }
}

/// Handling the same committed block any number of times leaves the log as
/// handling it once does.
pub proof fn lemma_block_added_idempotent(log: Set<Seq<u8>>, payloads: Seq<Vec<u8>>, n: nat)
    requires
        n >= 1,
    ensures
        log_after_blocks(log, payloads, n) == log_after_blocks(log, payloads, 1),
    decreases n,
{
    if n > 1 {
        lemma_block_added_idempotent(log, payloads, (n - 1) as nat);
        let once = log_after_blocks(log, payloads, 1);
        assert(log_after_blocks(log, payloads, 0) == log);
        assert(log_after_write(once, block_write(payloads)) =~= once);
    }
}

proof fn lemma_pushed_is_stored(store: Map<Seq<char>, Seq<u8>>, cmds: Seq<Command>, id: Seq<char>)
    requires
        pushed(cmds, id),
    ensures
        store_after(store, cmds).contains_key(id),
    decreases cmds.len(),
{
    let last = cmds.len() - 1;
    if pushes(cmds[last], id) {
    } else {
        let i = choose|i: int| 0 <= i < cmds.len() && pushes(#[trigger] cmds[i], id);
        assert(cmds.drop_last()[i] == cmds[i]);
        lemma_pushed_is_stored(store, cmds.drop_last(), id);
    }
}

/// When a fetch from the network succeeds, the artifact is in local storage
/// afterwards, and a local read of its id returns the stored bytes.
pub proof fn lemma_peer_fetch_writes_through(
    store: Map<Seq<char>, Seq<u8>>,
    fetch: ArtifactFetch,
    reply: Reply,
    after: ArtifactFetch,
    step: Step<Result<Vec<u8>, ArtifactError>>,
    local: ArtifactFetch,
    local_reply: Reply,
    local_after: ArtifactFetch,
    local_step: Step<Result<Vec<u8>, ArtifactError>>,
)
    requires
        fetch.wf(),
        fetch.mode == FetchMode::Peers,
        fetch.next(reply, after, step),
        step matches Step::Finish(Ok(_)),
        local.wf(),
        local.mode == FetchMode::Local,
        local.phase == FetchPhase::AwaitLocal,
        local.artifact_id@ == fetch.artifact_id@,
        local_reply matches Reply::Data(v) && v@ == store_after(store, after.trace@)[fetch.artifact_id@],
        local.next(local_reply, local_after, local_step),
    ensures
        store_after(store, after.trace@).contains_key(fetch.artifact_id@),
        local_step matches Step::Finish(Ok(v)) && v@ == store_after(store, after.trace@)[fetch.artifact_id@],
{
    lemma_pushed_is_stored(store, after.trace@, fetch.artifact_id@);
}

/// Reading an artifact by its package coordinates after `put_artifact`
/// stored its bytes under the record's id returns those bytes, when the
/// record carries their hash.
pub proof fn lemma_get_after_put(
    store: Map<Seq<char>, Seq<u8>>,
    put: Command,
    data: Seq<u8>,
    record: TransparencyLog,
    fetch: ArtifactFetch,
    middle: ArtifactFetch,
    first: Step<Result<Vec<u8>, ArtifactError>>,
    pulled: Vec<u8>,
    after: ArtifactFetch,
    step: Step<Result<Vec<u8>, ArtifactError>>,
)
    requires
        is_put(put, record.artifact_id@, data),
        record.artifact_hash@ == artifact_hash_of(data),
        fetch.mode == FetchMode::Package,
        fetch.phase == FetchPhase::AwaitEntry,
        fetch.next(Reply::Entry(record), middle, first),
        pulled@ == store_after(store, seq![put])[record.artifact_id@],
        middle.next(Reply::Data(pulled), after, step),
    ensures
        first == Step::<Result<Vec<u8>, ArtifactError>>::Run(
            Command::PullArtifact { artifact_id: record.artifact_id },
        ),
        step == Step::Finish(Ok::<Vec<u8>, ArtifactError>(pulled)),
        pulled@ == data,
{
    assert(seq![put].drop_last() =~= Seq::<Command>::empty());
    assert(seq![put].last() == put);
}

} // verus!
