use artifact_service::dispatch::select_authorized_node;
use artifact_service::model::{
    AddArtifactRequest, ArtifactError, BuildError, BuildResult, BuildResultArtifact, PackageType,
    PeerId, TransparencyLog,
};
use artifact_service::protocol::{Command, Reply, Step};
use artifact_service::service::ArtifactService;

fn peer(b: u8) -> PeerId {
    PeerId::from_bytes(vec![b, b, b])
}

fn service() -> ArtifactService {
    ArtifactService::new("/var/lib/artifacts", peer(1))
}

fn expect_run<T: std::fmt::Debug>(step: Step<T>) -> Command {
    match step {
        Step::Run(c) => c,
        Step::Finish(r) => panic!("finished early: {:?}", r),
    }
}

fn expect_finish<T>(step: Step<T>) -> T {
    match step {
        Step::Finish(r) => r,
        Step::Run(c) => panic!("still running: {:?}", c),
    }
}

#[test]
fn dispatch_prefers_local_else_last() {
    let local = peer(1);
    assert_eq!(select_authorized_node(&vec![peer(2), peer(1), peer(3)], &local), Some(1));
    assert_eq!(select_authorized_node(&vec![peer(2), peer(3), peer(4)], &local), Some(2));
    assert_eq!(select_authorized_node(&vec![peer(1), peer(1)], &local), Some(0));
    assert_eq!(select_authorized_node(&vec![], &local), None);
}

#[test]
fn same_as_compares_bytes() {
    assert!(peer(1).same_as(&peer(1)));
    assert!(!peer(1).same_as(&peer(2)));
    assert!(!PeerId::from_bytes(vec![1]).same_as(&PeerId::from_bytes(vec![1, 1])));
}

#[test]
fn test_request_build_without_authorized_nodes() {
    let svc = service();
    let (mut request, first) = svc.request_build(PackageType::Docker, "package_specific_id".to_string());
    assert_eq!(first, Command::GetAuthorizedNodes);
    let error = expect_finish(request.step(Reply::Nodes(vec![]))).unwrap_err();
    assert_eq!(error, BuildError::InitializationFailed("No authorized nodes found".to_owned()));
}

#[test]
fn test_request_build_starts_on_local_authorized_node() {
    let svc = service();
    let (mut request, _) = svc.request_build(PackageType::Docker, "package_specific_id".to_string());
    let c = expect_run(request.step(Reply::Nodes(vec![peer(1)])));
    assert_eq!(
        c,
        Command::VerifyPackageCanBeAdded {
            package_type: PackageType::Docker,
            package_specific_id: "package_specific_id".to_string(),
        }
    );
    let c = expect_run(request.step(Reply::Done));
    assert_eq!(
        c,
        Command::StartBuild {
            package_type: PackageType::Docker,
            package_specific_id: "package_specific_id".to_string(),
        }
    );
    let result = expect_finish(request.step(Reply::Text(String::from("build_start_ok")))).unwrap();
    assert_eq!(result, String::from("build_start_ok"));
}

#[test]
fn test_request_build_starts_on_other_authorized_node() {
    let svc = service();
    let (mut request, _) = svc.request_build(PackageType::Docker, "package_specific_id".to_string());
    expect_run(request.step(Reply::Nodes(vec![peer(7)])));
    let c = expect_run(request.step(Reply::Done));
    assert_eq!(
        c,
        Command::RequestBuild {
            peer: peer(7),
            package_type: PackageType::Docker,
            package_specific_id: "package_specific_id".to_string(),
        }
    );
    let result = expect_finish(request.step(Reply::Text(String::from("request_build_ok")))).unwrap();
    assert_eq!(result, String::from("request_build_ok"));
}

#[test]
fn request_build_of_a_logged_package() {
    let svc = service();
    let (mut request, _) = svc.request_build(PackageType::Maven2, "pkg".to_string());
    expect_run(request.step(Reply::Nodes(vec![peer(2), peer(1)])));
    assert_eq!(
        expect_finish(request.step(Reply::Failed("already in the log".to_string()))),
        Err(BuildError::ArtifactAlreadyExists("already in the log".to_string()))
    );
}

#[test]
fn request_build_maps_failures() {
    let svc = service();
    let (mut request, _) = svc.request_build(PackageType::Docker, "pkg".to_string());
    assert_eq!(
        expect_finish(request.step(Reply::Failed("log unreadable".to_string()))),
        Err(BuildError::InitializationFailed("log unreadable".to_string()))
    );

    let (mut request, _) = svc.request_build(PackageType::Docker, "pkg".to_string());
    expect_run(request.step(Reply::Nodes(vec![peer(5)])));
    expect_run(request.step(Reply::Done));
    assert_eq!(
        expect_finish(request.step(Reply::Failed("peer unreachable".to_string()))),
        Err(BuildError::InitializationFailed("peer unreachable".to_string()))
    );

    let (mut request, _) = svc.request_build(PackageType::Docker, "pkg".to_string());
    expect_run(request.step(Reply::Nodes(vec![peer(1)])));
    expect_run(request.step(Reply::Done));
    assert_eq!(
        expect_finish(request.step(Reply::BuildFailed(BuildError::BuildStatusFailed("x".to_string())))),
        Err(BuildError::BuildStatusFailed("x".to_string()))
    );
}

#[test]
fn test_get_build_status_on_authorized_node() {
    let svc = service();
    let (mut query, first) = svc.get_build_status("7f4e0d6c");
    assert_eq!(first, Command::GetAuthorizedNodes);
    let c = expect_run(query.step(Reply::Nodes(vec![peer(1)])));
    assert_eq!(c, Command::GetBuildStatus { build_id: "7f4e0d6c".to_string() });
    let result = expect_finish(query.step(Reply::Text("RUNNING".to_owned()))).unwrap();
    assert_eq!(result, "RUNNING");
}

#[test]
fn test_get_build_status_on_other_authorized_node() {
    let svc = service();
    let (mut query, _) = svc.get_build_status("7f4e0d6c");
    let c = expect_run(query.step(Reply::Nodes(vec![peer(4), peer(6)])));
    assert_eq!(
        c,
        Command::RequestBuildStatus { peer: peer(6), build_id: "7f4e0d6c".to_string() }
    );
    let result = expect_finish(query.step(Reply::Text("RUNNING".to_owned()))).unwrap();
    assert_eq!(result, "RUNNING");
}

#[test]
fn get_build_status_failures() {
    let svc = service();
    let (mut query, _) = svc.get_build_status("b");
    assert_eq!(
        expect_finish(query.step(Reply::Nodes(vec![]))),
        Err(BuildError::BuildStatusFailed("No authorized nodes found".to_string()))
    );
    let (mut query, _) = svc.get_build_status("b");
    expect_run(query.step(Reply::Nodes(vec![peer(3)])));
    assert_eq!(
        expect_finish(query.step(Reply::Failed("timeout".to_string()))),
        Err(BuildError::BuildStatusFailed("timeout".to_string()))
    );
}

fn build_result() -> BuildResult {
    BuildResult {
        package_type: PackageType::Docker,
        package_specific_id: "alpine:3.15".to_string(),
        artifacts: vec![
            BuildResultArtifact {
                artifact_specific_id: "layer-1".to_string(),
                artifact_location: "/tmp/build/layer-1".to_string(),
                artifact_hash: "aa".to_string(),
            },
            BuildResultArtifact {
                artifact_specific_id: "layer-2".to_string(),
                artifact_location: "/tmp/build/layer-2".to_string(),
                artifact_hash: "bb".to_string(),
            },
        ],
    }
}

fn logged(artifact_id: &str, specific: &str, hash: &str) -> TransparencyLog {
    TransparencyLog {
        artifact_id: artifact_id.to_string(),
        package_type: PackageType::Docker,
        package_specific_id: "alpine:3.15".to_string(),
        package_specific_artifact_id: specific.to_string(),
        artifact_hash: hash.to_string(),
        num_artifacts: 2,
    }
}

#[test]
fn handle_build_result_records_stores_and_announces_in_order() {
    let svc = service();
    let (mut ingest, first) = svc.handle_build_result("build-1", build_result());
    assert_eq!(
        first,
        Command::AddArtifact {
            request: AddArtifactRequest {
                package_type: PackageType::Docker,
                package_specific_id: "alpine:3.15".to_string(),
                num_artifacts: 2,
                package_specific_artifact_id: "layer-1".to_string(),
                artifact_hash: "aa".to_string(),
            },
        }
    );
    let c = expect_run(ingest.step(Reply::Added(logged("id-1", "layer-1", "aa"), "p1".to_string())));
    assert_eq!(
        c,
        Command::StoreArtifactFile {
            artifact_id: "id-1".to_string(),
            location: "/tmp/build/layer-1".to_string(),
        }
    );
    let c = expect_run(ingest.step(Reply::Done));
    assert_eq!(c, Command::Provide { artifact_id: "id-1".to_string() });
    let c = expect_run(ingest.step(Reply::Done));
    match c {
        Command::AddArtifact { request } => {
            assert_eq!(request.package_specific_artifact_id, "layer-2");
            assert_eq!(request.artifact_hash, "bb");
            assert_eq!(request.num_artifacts, 2);
        }
        other => panic!("unexpected command {:?}", other),
    }
    expect_run(ingest.step(Reply::Added(logged("id-2", "layer-2", "bb"), "p2".to_string())));
    expect_run(ingest.step(Reply::Done));
    let c = expect_run(ingest.step(Reply::Done));
    assert_eq!(
        c,
        Command::BroadcastArtifacts { payloads: vec!["p1".to_string(), "p2".to_string()] }
    );
    assert_eq!(expect_finish(ingest.step(Reply::Done)), Ok(()));
}

#[test]
fn handle_build_result_aborts_on_failure() {
    let svc = service();
    let (mut ingest, _) = svc.handle_build_result("build-1", build_result());
    expect_run(ingest.step(Reply::Added(logged("id-1", "layer-1", "aa"), "p1".to_string())));
    assert_eq!(
        expect_finish(ingest.step(Reply::Failed("disk full".to_string()))),
        Err(ArtifactError::Storage("disk full".to_string()))
    );
}

#[test]
fn handle_build_result_without_artifacts_broadcasts_nothing() {
    let svc = service();
    let mut result = build_result();
    result.artifacts.clear();
    let (mut ingest, first) = svc.handle_build_result("build-2", result);
    assert_eq!(first, Command::BroadcastArtifacts { payloads: vec![] });
    assert_eq!(expect_finish(ingest.step(Reply::Done)), Ok(()));
}

#[test]
fn handle_block_added_writes_single_payloads_only() {
    let svc = service();
    assert_eq!(svc.handle_block_added(vec![]), None);
    assert_eq!(
        svc.handle_block_added(vec![b"{}".to_vec()]),
        Some(Command::WriteIfNotExists { payload: b"{}".to_vec() })
    );
    assert_eq!(svc.handle_block_added(vec![b"a".to_vec(), b"b".to_vec()]), None);
    // the same block handled again asks for the same write
    assert_eq!(
        svc.handle_block_added(vec![b"{}".to_vec()]),
        svc.handle_block_added(vec![b"{}".to_vec()])
    );
}
