use artifact_service::digest::compute_artifact_hash;
use artifact_service::fetch::verify_artifact;
use artifact_service::model::{
    ArtifactError, BuildError, PackageType, PeerId, TransparencyLog, TransparencyLogError,
};
use artifact_service::protocol::{Command, Reply, Step};
use artifact_service::service::{logs_found, ArtifactService};
use std::collections::HashMap;

const SAMPLE_DATA_HASH: &str = "f0106b3274c10c66b8364d104c63a1f29aa3f1852d51e8d259301344afd65435";
const OTHER_SAMPLE_DATA_HASH: &str =
    "dcfa9c10fc2463e3fa89a05cbb63284e647693b519a65542b3404afb5db19355";
const CONTENTS: &[u8] = b"artifact_test.json contents";
const CONTENTS_HASH: &str = "b387355752c8c6bd6dbe0f86548fbd8d16900d0856d39b9cb6637c9e8f212e78";

fn local_peer() -> PeerId {
    PeerId::from_bytes(vec![1, 2, 3, 4])
}

fn other_peer() -> PeerId {
    PeerId::from_bytes(vec![9, 8, 7])
}

fn service() -> ArtifactService {
    ArtifactService::new("/var/lib/artifacts", local_peer())
}

fn record(artifact_hash: &str) -> TransparencyLog {
    TransparencyLog {
        artifact_id: "a1b2c3".to_string(),
        package_type: PackageType::Docker,
        package_specific_id: "package_specific_id".to_string(),
        package_specific_artifact_id: "package_specific_artifact_id".to_string(),
        artifact_hash: artifact_hash.to_string(),
        num_artifacts: 8,
    }
}

fn expect_run<T: std::fmt::Debug>(step: Step<T>) -> Command {
    match step {
        Step::Run(c) => c,
        Step::Finish(r) => panic!("finished early: {:?}", r),
    }
}

fn expect_finish<T>(step: Step<T>) -> T {
    match step {
        Step::Finish(r) => r,
        Step::Run(c) => panic!("still running: {:?}", c),
    }
}

/// Local storage as the tests see it.
fn serve_storage(store: &mut HashMap<String, Vec<u8>>, command: &Command) -> Option<Reply> {
    match command {
        Command::PushArtifact { artifact_id, data } => {
            store.insert(artifact_id.clone(), data.clone());
            Some(Reply::Done)
        }
        Command::PullArtifact { artifact_id } => Some(match store.get(artifact_id) {
            Some(data) => Reply::Data(data.clone()),
            None => Reply::Failed(format!("no artifact {}", artifact_id)),
        }),
        _ => None,
    }
}

#[test]
fn test_put_and_get_artifact() {
    let svc = service();
    let mut store = HashMap::new();
    let entry = record(CONTENTS_HASH);

    let put = svc.put_artifact(&entry.artifact_id, CONTENTS.to_vec());
    assert_eq!(serve_storage(&mut store, &put), Some(Reply::Done));

    let (mut fetch, first) = svc.get_artifact(PackageType::Docker, "package_specific_artifact_id");
    assert_eq!(
        first,
        Command::GetLogEntry {
            package_type: PackageType::Docker,
            package_specific_artifact_id: "package_specific_artifact_id".to_string(),
        }
    );
    let pull = expect_run(fetch.step(Reply::Entry(entry.clone())));
    assert_eq!(pull, Command::PullArtifact { artifact_id: entry.artifact_id.clone() });
    let reply = serve_storage(&mut store, &pull).unwrap();
    let bytes = expect_finish(fetch.step(reply)).unwrap();
    assert_eq!(
        String::from_utf8(bytes).unwrap(),
        String::from_utf8(CONTENTS.to_vec()).unwrap()
    );
}

#[test]
fn test_put_and_list_artifact() {
    let svc = service();
    let (mut provide, first) = svc.provide_local_artifacts();
    assert_eq!(first, Command::ListArtifacts);
    let paths = vec![
        "/var/lib/artifacts/a1b2c3.file".to_string(),
        "/var/lib/artifacts/d4e5f6".to_string(),
    ];
    let c = expect_run(provide.step(Reply::Paths(paths)));
    assert_eq!(c, Command::Provide { artifact_id: "a1b2c3".to_string() });
    let c = expect_run(provide.step(Reply::Done));
    assert_eq!(c, Command::Provide { artifact_id: "d4e5f6".to_string() });
    assert!(expect_finish(provide.step(Reply::Done)).is_ok());
}

#[test]
fn provide_local_artifacts_stops_at_first_failure() {
    let svc = service();
    let (mut provide, _) = svc.provide_local_artifacts();
    let paths = vec!["/a/x.bin".to_string(), "/a/y.bin".to_string()];
    expect_run(provide.step(Reply::Paths(paths)));
    assert_eq!(
        expect_finish(provide.step(Reply::Failed("dht down".to_string()))),
        Err(ArtifactError::Network("dht down".to_string()))
    );
}

#[test]
fn provide_local_artifacts_with_empty_store() {
    let svc = service();
    let (mut provide, _) = svc.provide_local_artifacts();
    assert_eq!(expect_finish(provide.step(Reply::Paths(vec![]))), Ok(()));
}

#[test]
fn test_get_from_peers() {
    let svc = service();
    let mut store = HashMap::new();
    let entry = record(SAMPLE_DATA_HASH);

    let (mut fetch, _) = svc.get_artifact(PackageType::Docker, "package_specific_artifact_id");
    let pull = expect_run(fetch.step(Reply::Entry(entry.clone())));
    let miss = serve_storage(&mut store, &pull).unwrap();
    let c = expect_run(fetch.step(miss));
    assert_eq!(c, Command::ListProviders { artifact_id: entry.artifact_id.clone() });
    let c = expect_run(fetch.step(Reply::Nodes(vec![local_peer()])));
    assert_eq!(c, Command::GetIdlePeer { providers: vec![local_peer()] });
    let c = expect_run(fetch.step(Reply::Idle(Some(local_peer()))));
    assert_eq!(
        c,
        Command::RequestArtifact { peer: local_peer(), artifact_id: entry.artifact_id.clone() }
    );
    let push = expect_run(fetch.step(Reply::Data(b"SAMPLE_DATA".to_vec())));
    let done = serve_storage(&mut store, &push).unwrap();
    let pull = expect_run(fetch.step(done));
    let reply = serve_storage(&mut store, &pull).unwrap();
    let result = expect_finish(fetch.step(reply));
    assert!(result.is_ok());
    assert_eq!(result.unwrap(), b"SAMPLE_DATA".to_vec());

    let (mut local, pull) = svc.get_artifact_locally(&entry.artifact_id);
    let reply = serve_storage(&mut store, &pull).unwrap();
    assert_eq!(expect_finish(local.step(reply)), Ok(b"SAMPLE_DATA".to_vec()));
}

#[test]
fn test_get_from_peers_with_no_providers() {
    let svc = service();
    let (mut fetch, first) = svc.get_artifact_from_peers(SAMPLE_DATA_HASH);
    assert_eq!(first, Command::ListProviders { artifact_id: SAMPLE_DATA_HASH.to_string() });
    expect_run(fetch.step(Reply::Nodes(vec![])));
    let result = expect_finish(fetch.step(Reply::Idle(None)));
    assert!(result.is_err());
    assert_eq!(result, Err(ArtifactError::NotAvailableOnNetwork(SAMPLE_DATA_HASH.to_string())));
}

#[test]
fn get_artifact_locally_reports_a_miss() {
    let svc = service();
    let (mut local, _) = svc.get_artifact_locally("missing");
    assert_eq!(
        expect_finish(local.step(Reply::Failed("not found".to_string()))),
        Err(ArtifactError::Storage("not found".to_string()))
    );
}

#[test]
fn test_verify_artifact_succeeds_when_hashes_same() {
    let svc = service();
    let entry = record(SAMPLE_DATA_HASH);
    assert!(svc.verify_artifact(&entry, b"SAMPLE_DATA").is_ok());
}

#[test]
fn test_verify_artifact_fails_when_hashes_differ() {
    let entry = record(SAMPLE_DATA_HASH);
    let verify_error = verify_artifact(&entry, b"OTHER_SAMPLE_DATA")
        .expect_err("Verify artifact should have failed.");
    match verify_error {
        TransparencyLogError::InvalidHash { id, invalid_hash, actual_hash } => {
            assert_eq!(id, "package_specific_artifact_id".to_string());
            assert_eq!(invalid_hash, OTHER_SAMPLE_DATA_HASH.to_string());
            assert_eq!(actual_hash, SAMPLE_DATA_HASH.to_string());
        }
    }
}

#[test]
fn artifact_hash_is_lowercase_hex_sha256() {
    assert_eq!(compute_artifact_hash(b"SAMPLE_DATA"), SAMPLE_DATA_HASH);
    assert_eq!(
        compute_artifact_hash(b""),
        "e3b0c44298fc1c149afbf4c8996fb92427ae41e4649b934ca495991b7852b855"
    );
    assert_eq!(compute_artifact_hash(CONTENTS).len(), 64);
}

#[test]
fn corrupt_local_blob_is_not_fetched_again() {
    let svc = service();
    let entry = record(SAMPLE_DATA_HASH);
    let (mut fetch, _) = svc.get_artifact(PackageType::Docker, "package_specific_artifact_id");
    expect_run(fetch.step(Reply::Entry(entry)));
    let result = expect_finish(fetch.step(Reply::Data(b"OTHER_SAMPLE_DATA".to_vec())));
    assert_eq!(
        result,
        Err(ArtifactError::Verification(TransparencyLogError::InvalidHash {
            id: "package_specific_artifact_id".to_string(),
            invalid_hash: OTHER_SAMPLE_DATA_HASH.to_string(),
            actual_hash: SAMPLE_DATA_HASH.to_string(),
        }))
    );
}

#[test]
fn get_artifact_without_record() {
    let svc = service();
    let (mut fetch, _) = svc.get_artifact(PackageType::Maven2, "unknown");
    assert_eq!(
        expect_finish(fetch.step(Reply::Failed("not found".to_string()))),
        Err(ArtifactError::Log("not found".to_string()))
    );
}

#[test]
fn unexpected_reply_ends_a_fetch() {
    let svc = service();
    let (mut fetch, _) = svc.get_artifact(PackageType::Docker, "x");
    assert_eq!(expect_finish(fetch.step(Reply::Done)), Err(ArtifactError::UnexpectedReply));
}

#[test]
fn test_get_artifact_logs() {
    let svc = service();
    let c = svc.get_logs_for_artifact(PackageType::Maven2, "package_specific_id");
    assert_eq!(
        c,
        Command::SearchLogs {
            package_type: PackageType::Maven2,
            package_specific_id: "package_specific_id".to_string(),
        }
    );
    let result = logs_found(Reply::Entries(vec![record(
        "e3b0c44298fc1c149afbf4c8996fb92427ae41e4649b934ca495991b7852b855",
    )]));
    assert!(result.is_ok());
    assert_eq!(result.unwrap().len(), 1);
    assert_eq!(
        logs_found(Reply::Failed("io".to_string())),
        Err(ArtifactError::Log("io".to_string()))
    );
}

#[test]
fn get_artifact_or_build_requests_a_build_on_failure() {
    let svc = service();
    let (mut op, _) = svc.get_artifact_or_build(
        PackageType::Docker,
        "package_specific_id",
        "package_specific_artifact_id",
    );
    let (step, build) = op.step(Reply::Failed("not found".to_string()));
    assert_eq!(expect_finish(step), Err(ArtifactError::Log("not found".to_string())));
    let (mut build, first) = build.expect("a build request");
    assert_eq!(first, Command::GetAuthorizedNodes);
    let c = expect_run(build.step(Reply::Nodes(vec![local_peer()])));
    assert_eq!(
        c,
        Command::VerifyPackageCanBeAdded {
            package_type: PackageType::Docker,
            package_specific_id: "package_specific_id".to_string(),
        }
    );
}

#[test]
fn get_artifact_or_build_returns_bytes_without_build() {
    let svc = service();
    let (mut op, _) = svc.get_artifact_or_build(PackageType::Docker, "p", "package_specific_artifact_id");
    let (step, build) = op.step(Reply::Entry(record(SAMPLE_DATA_HASH)));
    assert!(build.is_none());
    expect_run(step);
    let (step, build) = op.step(Reply::Data(b"SAMPLE_DATA".to_vec()));
    assert!(build.is_none());
    assert_eq!(expect_finish(step), Ok(b"SAMPLE_DATA".to_vec()));
}
