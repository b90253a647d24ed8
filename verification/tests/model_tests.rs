use crixata::model::{
    begin_download, current_target_triple, fetch_step, llama_server_asset_name,
    llama_server_release_url, range_header, FetchAction, FetchEvent, FetchPhase,
};

#[test]
fn target_triples() {
    assert_eq!(current_target_triple("linux", "x86_64"), "x86_64-unknown-linux-gnu");
    assert_eq!(current_target_triple("linux", "aarch64"), "aarch64-unknown-linux-gnu");
    assert_eq!(current_target_triple("macos", "x86_64"), "x86_64-apple-darwin");
    assert_eq!(current_target_triple("macos", "aarch64"), "aarch64-apple-darwin");
    assert_eq!(current_target_triple("windows", "x86_64"), "x86_64-pc-windows-msvc");
    assert_eq!(current_target_triple("windows", "aarch64"), "aarch64-pc-windows-msvc");
    assert_eq!(current_target_triple("windows", "x86"), "unknown");
    assert_eq!(current_target_triple("freebsd", "x86_64"), "unknown");
}

#[test]
fn asset_names() {
    assert_eq!(llama_server_asset_name("x86_64-unknown-linux-gnu"), "llama-server-x86_64-unknown-linux-gnu");
    assert_eq!(llama_server_asset_name("x86_64-pc-windows-msvc"), "llama-server-x86_64-pc-windows-msvc.exe");
    assert_eq!(
        llama_server_release_url("aarch64-apple-darwin"),
        "https://github.com/ggerganov/llama.cpp/releases/latest/download/llama-server-aarch64-apple-darwin"
    );
}

#[test]
fn range_headers() {
    assert_eq!(range_header(0), None);
    assert_eq!(range_header(1024), Some("bytes=1024-".to_string()));
    assert_eq!(range_header(u64::MAX), Some(format!("bytes={}-", u64::MAX)));
}

#[test]
fn download_begins() {
    let s = begin_download(100, 206, Some(50)).unwrap();
    assert!(s.append);
    assert_eq!((s.downloaded, s.total), (100, 150));
    let s = begin_download(100, 200, Some(500)).unwrap();
    assert!(!s.append);
    assert_eq!((s.downloaded, s.total), (0, 500));
    let s = begin_download(0, 200, None).unwrap();
    assert_eq!(s.total, 0);
    assert!(!s.size_known());
    assert_eq!(begin_download(0, 404, Some(10)).err(), Some(404));
    assert_eq!(begin_download(7, 302, None).err(), Some(302));
}

#[test]
fn chunks_add_up() {
    let mut s = begin_download(10, 206, Some(30)).unwrap();
    s.record_chunk(5);
    s.record_chunk(15);
    assert_eq!(s.downloaded, 30);
    assert!(s.size_known());
}

#[test]
fn fetch_flow_sidecar_failure_is_only_a_warning() {
    let (p, a) = fetch_step(FetchPhase::Idle, FetchEvent::Begin { sidecar_present: false });
    assert_eq!((p, a), (FetchPhase::FetchingSidecar, FetchAction::FetchSidecar));
    let (p, a) = fetch_step(p, FetchEvent::SidecarFetched(Err("404".into())));
    assert_eq!((p, a), (FetchPhase::CheckingModel, FetchAction::WarnAndCheckModel("404".into())));
    let (p, a) = fetch_step(p, FetchEvent::ModelChecked(false));
    assert_eq!((p, a), (FetchPhase::FetchingModel, FetchAction::FetchModel));
    let (p, a) = fetch_step(p, FetchEvent::ModelFetched(Ok(())));
    assert_eq!((p, a), (FetchPhase::Done, FetchAction::Complete));
}

#[test]
fn fetch_flow_model_failure_fails() {
    let (p, _) = fetch_step(FetchPhase::Idle, FetchEvent::Begin { sidecar_present: true });
    assert_eq!(p, FetchPhase::CheckingModel);
    let (p, _) = fetch_step(p, FetchEvent::ModelChecked(false));
    let (p, a) = fetch_step(p, FetchEvent::ModelFetched(Err("disk full".into())));
    assert_eq!((p, a), (FetchPhase::Done, FetchAction::Fail("disk full".into())));
    let (p, a) = fetch_step(FetchPhase::CheckingModel, FetchEvent::ModelChecked(true));
    assert_eq!((p, a), (FetchPhase::Done, FetchAction::Complete));
    let (p, a) = fetch_step(FetchPhase::Done, FetchEvent::ModelChecked(true));
    assert_eq!((p, a), (FetchPhase::Done, FetchAction::Ignore));
}
