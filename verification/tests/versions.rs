use std::collections::BTreeMap;

use dsh_client::deploy::{deploy_next, pin_text, staging_name, DeployProgress, DeployStep};
use dsh_client::http::is_success;
use dsh_client::install::{bundled_version, Install, InstallAction, InstallEvent};
use dsh_client::manager::KernelManager;
use dsh_client::registry::{
    accept_status, archive_url, latest_version, query_failed, registry_url, version_in_body,
    version_in_member,
};
use dsh_client::update::{
    download_name, KernelUpdateResult, UpdateAction, UpdateEvent, UpdateJob,
};
use dsh_client::text::trim;
use dsh_client::version::{newer, update_due};

fn text(s: &str) -> String {
    s.to_string()
}

/// An installation that is about to read the pin.
fn reading_pin() -> Install {
    let mut install = Install::new("1.0.0");
    assert_eq!(install.advance(InstallEvent::DataLocated(Ok(()))), InstallAction::CreateRoot);
    assert_eq!(install.advance(InstallEvent::RootCreated(Ok(()))), InstallAction::ReadPin);
    install
}

#[test]
fn the_recorded_version_is_trimmed() {
    assert_eq!(bundled_version(Some(" 1.4.2\n")), "1.4.2");
    assert_eq!(bundled_version(Some("\u{3000}1.4.2\u{2003}\u{85}")), "1.4.2");
    assert_eq!(bundled_version(Some("\u{200b}1")), "\u{200b}1");
    assert_eq!(bundled_version(Some(" \t\r\n")), "");
    assert_eq!(bundled_version(None), "unknown");
}

#[test]
fn trimming_keeps_what_is_inside() {
    assert_eq!(trim(""), "");
    assert_eq!(trim("a"), "a");
    assert_eq!(trim(" a b\u{3000}c "), "a b\u{3000}c");
    assert_eq!(trim("错\u{2028}误\n"), "错\u{2028}误");
    assert_eq!(trim("\n错"), "错");
    for u in 0..=0x10ffffu32 {
        if let Some(c) = char::from_u32(u) {
            let padded = format!("{c}x{c}");
            assert_eq!(trim(&padded), padded.trim(), "{u:x}");
        }
    }
}

#[test]
fn a_pinned_version_is_preferred() {
    let mut install = reading_pin();
    assert_eq!(
        install.advance(InstallEvent::PinRead(Some(pin_text("2.0.0")))),
        InstallAction::ProbePinned { version: text("2.0.0") }
    );
    assert_eq!(
        install.advance(InstallEvent::PinnedProbed(true)),
        InstallAction::ProbeEntry { version: text("2.0.0") }
    );
    assert_eq!(
        install.advance(InstallEvent::EntryProbed(true)),
        InstallAction::Finish(Ok(text("2.0.0")))
    );
}

#[test]
fn the_bundled_version_is_used_otherwise() {
    for pin in [None, Some(text("")), Some(text(" \n"))] {
        let mut install = reading_pin();
        assert_eq!(
            install.advance(InstallEvent::PinRead(pin)),
            InstallAction::ProbeEntry { version: text("1.0.0") }
        );
    }
    let mut install = reading_pin();
    let _ = install.advance(InstallEvent::PinRead(Some(text("9.9.9\n"))));
    assert_eq!(
        install.advance(InstallEvent::PinnedProbed(false)),
        InstallAction::ProbeEntry { version: text("1.0.0") }
    );
}

#[test]
fn a_broken_pinned_version_gives_way_to_the_bundled_one() {
    for bundled_present in [true, false] {
        let mut install = reading_pin();
        let _ = install.advance(InstallEvent::PinRead(Some(pin_text("2.0.0"))));
        let _ = install.advance(InstallEvent::PinnedProbed(true));
        assert_eq!(
            install.advance(InstallEvent::EntryProbed(false)),
            InstallAction::ProbeEntry { version: text("1.0.0") }
        );
        let action = install.advance(InstallEvent::EntryProbed(bundled_present));
        if bundled_present {
            assert_eq!(action, InstallAction::Finish(Ok(text("1.0.0"))));
            continue;
        }
        assert_eq!(action, InstallAction::LocateResources);
        let _ = install.advance(InstallEvent::ResourcesLocated(Ok(())));
        let mut action = install.advance(InstallEvent::ArchiveProbed { found: true, path: text("a") });
        while let InstallAction::Deploy { version, .. } = action {
            assert_eq!(version, "1.0.0");
            action = install.advance(InstallEvent::Deployed(Ok(false)));
        }
        assert_eq!(action, InstallAction::Finish(Ok(text("1.0.0"))));
    }
}

#[test]
fn a_missing_version_is_deployed() {
    let mut install = reading_pin();
    let _ = install.advance(InstallEvent::PinRead(None));
    assert_eq!(install.advance(InstallEvent::EntryProbed(false)), InstallAction::LocateResources);
    assert_eq!(install.advance(InstallEvent::ResourcesLocated(Ok(()))), InstallAction::ProbeArchive);
    let mut action =
        install.advance(InstallEvent::ArchiveProbed { found: true, path: text("/r/kernel.tar.gz") });
    let mut steps = Vec::new();
    while let InstallAction::Deploy { version, step } = action {
        assert_eq!(version, "1.0.0");
        steps.push(step);
        action = install.advance(InstallEvent::Deployed(Ok(true)));
    }
    assert_eq!(action, InstallAction::Finish(Ok(text("1.0.0"))));
    assert_eq!(
        steps,
        vec![
            DeployStep::ProbeStaging,
            DeployStep::ClearStaging,
            DeployStep::ProbeTarget,
            DeployStep::ClearTarget,
            DeployStep::CreateStaging,
            DeployStep::OpenArchive,
            DeployStep::Unpack,
            DeployStep::Promote,
            DeployStep::WritePin,
            DeployStep::Pin,
        ]
    );
    assert_eq!(install.advance(InstallEvent::Deployed(Ok(true))), InstallAction::Ignore);
}

#[test]
fn an_installation_fails_with_the_reason() {
    let mut install = Install::new("1.0.0");
    assert_eq!(
        install.advance(InstallEvent::DataLocated(Err(text("no data")))),
        InstallAction::Finish(Err(text("no data")))
    );
    let mut install = Install::new("1.0.0");
    let _ = install.advance(InstallEvent::DataLocated(Ok(())));
    assert_eq!(
        install.advance(InstallEvent::RootCreated(Err(text("read-only")))),
        InstallAction::Finish(Err(text("read-only")))
    );
    let mut install = reading_pin();
    let _ = install.advance(InstallEvent::PinRead(None));
    let _ = install.advance(InstallEvent::EntryProbed(false));
    assert_eq!(
        install.advance(InstallEvent::ResourcesLocated(Err(text("no resources")))),
        InstallAction::Finish(Err(text("no resources")))
    );
    let mut install = reading_pin();
    let _ = install.advance(InstallEvent::PinRead(None));
    let _ = install.advance(InstallEvent::EntryProbed(false));
    let _ = install.advance(InstallEvent::ResourcesLocated(Ok(())));
    assert_eq!(
        install.advance(InstallEvent::ArchiveProbed { found: false, path: text("/r/kernel.tar.gz") }),
        InstallAction::Finish(Err(text("bundled kernel resource missing: /r/kernel.tar.gz")))
    );
}

#[test]
fn a_bundled_archive_that_does_not_unpack_is_reported() {
    let mut install = reading_pin();
    let _ = install.advance(InstallEvent::PinRead(None));
    let _ = install.advance(InstallEvent::EntryProbed(false));
    let _ = install.advance(InstallEvent::ResourcesLocated(Ok(())));
    let mut action = install.advance(InstallEvent::ArchiveProbed { found: true, path: text("a") });
    while let InstallAction::Deploy { step, .. } = action {
        let outcome = if step == DeployStep::Unpack { Err(text("corrupt")) } else { Ok(false) };
        action = install.advance(InstallEvent::Deployed(outcome));
    }
    assert_eq!(action, InstallAction::Finish(Err(text("解压内核失败: corrupt"))));
}

#[test]
fn nothing_is_cleared_that_is_not_there() {
    assert_eq!(
        deploy_next(DeployStep::ProbeStaging, Ok(false), ""),
        DeployProgress::Next(DeployStep::ProbeTarget)
    );
    assert_eq!(
        deploy_next(DeployStep::ProbeTarget, Ok(false), ""),
        DeployProgress::Next(DeployStep::CreateStaging)
    );
    assert_eq!(deploy_next(DeployStep::Pin, Ok(false), ""), DeployProgress::Complete);
    assert_eq!(
        deploy_next(DeployStep::Promote, Err(text("busy")), "label"),
        DeployProgress::Failed(text("busy"))
    );
    assert_eq!(
        deploy_next(DeployStep::OpenArchive, Err(text("gone")), "label "),
        DeployProgress::Failed(text("gone"))
    );
    assert_eq!(
        deploy_next(DeployStep::Unpack, Err(text("bad")), "label "),
        DeployProgress::Failed(text("label bad"))
    );
    assert_eq!(staging_name("2.0.0"), "2.0.0.tmp");
    assert_eq!(pin_text("2.0.0"), "2.0.0\n");
}

#[test]
fn the_registry_and_the_channel_have_their_addresses() {
    assert_eq!(registry_url(), "https://registry.npmjs.org/@deepseek-ai/dsh/latest");
    assert_eq!(
        archive_url("2.0.0"),
        "https://github.com/GotoFox/deepseek-harness-client/releases/download/kernel-2.0.0/kernel-2.0.0.tar.gz"
    );
    assert_eq!(download_name("2.0.0"), "kernel-2.0.0.tar.gz.tmp");
    assert_eq!(query_failed("timeout"), "查询 npm 版本失败：timeout");
}

#[test]
fn success_is_two_hundred_and_something() {
    assert!(!is_success(199));
    assert!(is_success(200));
    assert!(is_success(299));
    assert!(!is_success(300));
    assert_eq!(accept_status(200), Ok(()));
    assert_eq!(accept_status(404), Err(text("npm 返回 404 Not Found")));
    assert_eq!(accept_status(999), Err(text("npm 返回 999 <unknown status code>")));
}

#[test]
fn the_version_is_read_from_the_answer() {
    assert_eq!(version_in_body(br#"{"name":"@deepseek-ai/dsh","version":"2.0.0"}"#), Ok(text("2.0.0")));
    assert_eq!(version_in_body(br#" {"version": "2.0"} "#), Ok(text("2.0")));
    let missing = Err(text("npm 响应缺少 version 字段"));
    assert_eq!(version_in_body(br#"{"name":"dsh"}"#), missing);
    assert_eq!(version_in_body(br#"{"version":2}"#), missing);
    assert_eq!(version_in_body(br#"{"version":null}"#), missing);
    assert_eq!(version_in_body(br#"["version"]"#), missing);
    assert_eq!(version_in_body(br#""version""#), missing);
    assert_eq!(
        version_in_body(b""),
        Err(text("EOF while parsing a value at line 1 column 0"))
    );
    assert!(version_in_body(br#"{"version":"2.0.0"} x"#).is_err());
    assert_eq!(version_in_member(Some(Some(text("3")))), Ok(text("3")));
    assert_eq!(version_in_member(Some(None)), missing);
    assert_eq!(version_in_member(None), missing);
}

#[test]
fn a_refused_answer_is_not_read() {
    let body = br#"{"version":"2.0.0"}"#;
    assert_eq!(latest_version(200, body), Ok(text("2.0.0")));
    assert_eq!(latest_version(404, body), Err(text("npm 返回 404 Not Found")));
    assert_eq!(latest_version(503, b""), Err(text("npm 返回 503 Service Unavailable")));
    assert_eq!(latest_version(200, b"{}"), Err(text("npm 响应缺少 version 字段")));
}

#[test]
fn versions_are_ordered_by_number() {
    for (older, later) in [
        ("0.9.0", "0.10.0"),
        ("1.2.3", "1.2.4"),
        ("1.9", "1.10"),
        ("1.2.9", "1.3"),
        ("9.9.9", "10.0.0"),
        ("1.0.0-rc.1", "1.0.0"),
        ("1.0.0-alpha", "1.0.0-alpha.1"),
        ("1.0.0-alpha.1", "1.0.0-alpha.beta"),
        ("1.0.0-beta.2", "1.0.0-beta.11"),
        ("1.0.0", "1.0.1-rc.1"),
        ("unknown", "0.0.1"),
        ("", "1.0.0"),
        ("1.0.0", "18446744073709551615.0.0"),
    ] {
        assert!(newer(later, older), "{later} is newer than {older}");
        assert!(!newer(older, later), "{older} is not newer than {later}");
    }
}

#[test]
fn some_versions_are_equally_new() {
    for (one, other) in [
        ("1.2.3", "1.2.3"),
        ("1.2", "1.2.0"),
        ("1.2.3+build.5", "1.2.3"),
        ("1.2.3+a", "1.2.3+b"),
        ("unknown", "latest"),
        ("unknown", "18446744073709551616.0.0"),
        ("1..2", "unknown"),
    ] {
        assert!(!newer(one, other), "{one} is not newer than {other}");
        assert!(!newer(other, one), "{other} is not newer than {one}");
    }
}

#[test]
fn an_older_version_is_not_installed() {
    for latest in ["0.9.0", "0.10.0-rc.1", "0.10", "0.10.0+b1"] {
        let mut kernel = KernelManager::new("0.10.0", "0.1.0");
        let mut job = kernel.check_kernel_update();
        let report = report(job.advance(&mut kernel, UpdateEvent::LatestKnown(Ok(text(latest)))));
        assert!(report.ok);
        assert!(!report.restarting);
        assert_eq!(kernel.status().version, "0.10.0");
    }
}

#[test]
fn what_cannot_be_ordered_is_fetched_if_it_differs() {
    for latest in ["v2", "nightly", "2.0.x", "", "18446744073709551616.0.0"] {
        let mut kernel = KernelManager::new("1.3.0", "0.1.0");
        let mut job = kernel.check_kernel_update();
        assert!(matches!(
            job.advance(&mut kernel, UpdateEvent::LatestKnown(Ok(text(latest)))),
            UpdateAction::LocateData
        ));
        assert!(update_due(latest, "1.3.0"));
        assert!(!newer(latest, "1.3.0"));
        assert!(!update_due(latest, latest));
    }
    let mut kernel = KernelManager::new("nightly", "0.1.0");
    let mut job = kernel.check_kernel_update();
    let same = report(job.advance(&mut kernel, UpdateEvent::LatestKnown(Ok(text("nightly")))));
    assert_eq!((same.ok, same.restarting), (true, false));
    assert_eq!(same.message, "已是最新内核 dsh vnightly");
    assert!(update_due("1.0.0", "unknown"));
    assert!(update_due("1.0.1", "1.0.0"));
    assert!(!update_due("1.0.0", "1.0.1"));
    assert!(!update_due("1.0.0", "1.0.0"));
}

fn report(action: UpdateAction<String, KernelUpdateResult>) -> KernelUpdateResult {
    match action {
        UpdateAction::Report(report) => report,
        _ => panic!("the update is not over"),
    }
}

fn fetching(kernel: &mut KernelManager) -> UpdateJob {
    let mut job = kernel.check_kernel_update();
    assert!(matches!(
        job.advance(kernel, UpdateEvent::LatestKnown(Ok(text("2.0.0")))),
        UpdateAction::LocateData
    ));
    assert!(matches!(job.advance(kernel, UpdateEvent::DataLocated(Ok(()))), UpdateAction::BuildClient));
    match job.advance(kernel, UpdateEvent::ClientBuilt(Ok(()))) {
        UpdateAction::Fetch { url, progress } => {
            assert_eq!(url, archive_url("2.0.0"));
            assert_eq!(progress, "正在下载 dsh v2.0.0…");
        }
        _ => panic!("the archive is not fetched"),
    }
    job
}

#[test]
fn an_update_switches_the_version() {
    let mut kernel = KernelManager::new("1.0.0", "0.1.0");
    let mut job = fetching(&mut kernel);
    match job.advance(&mut kernel, UpdateEvent::Answered(Ok(200))) {
        UpdateAction::Save { file } => assert_eq!(file, "kernel-2.0.0.tar.gz.tmp"),
        _ => panic!("the archive is not saved"),
    }
    let mut action = job.advance(&mut kernel, UpdateEvent::Saved(Ok(())));
    let mut last = None;
    while let UpdateAction::Deploy { version, step } = action {
        assert_eq!(version, "2.0.0");
        last = Some(step);
        action = job.advance(&mut kernel, UpdateEvent::Deployed(Ok(false)));
    }
    assert_eq!(last, Some(DeployStep::Pin));
    match action {
        UpdateAction::DropArchive { file } => assert_eq!(file, "kernel-2.0.0.tar.gz.tmp"),
        _ => panic!("the archive is kept"),
    }
    assert_eq!(kernel.status().version, "1.0.0");
    assert!(matches!(
        job.advance(&mut kernel, UpdateEvent::ArchiveDropped),
        UpdateAction::Relaunch
    ));
    assert_eq!(kernel.status().version, "2.0.0");
    let report = report(job.advance(&mut kernel, UpdateEvent::Relaunched));
    assert!(report.ok);
    assert!(report.restarting);
    assert_eq!(report.version, "2.0.0");
    assert_eq!(report.message, "内核已更新为 dsh v2.0.0");
    assert!(matches!(job.advance(&mut kernel, UpdateEvent::Relaunched), UpdateAction::Ignore));
}

#[test]
fn the_version_in_use_is_not_downloaded() {
    let mut kernel = KernelManager::new("1.0.0", "0.1.0");
    let mut job = kernel.check_kernel_update();
    let report = report(job.advance(&mut kernel, UpdateEvent::LatestKnown(Ok(text("1.0.0")))));
    assert!(report.ok);
    assert!(!report.restarting);
    assert_eq!(report.version, "1.0.0");
    assert_eq!(report.message, "已是最新内核 dsh v1.0.0");
}

#[test]
fn an_update_fails_with_the_reason() {
    let mut kernel = KernelManager::new("1.0.0", "0.1.0");

    let mut job = kernel.check_kernel_update();
    let failed = report(job.advance(&mut kernel, UpdateEvent::LatestKnown(Err(text("offline")))));
    assert_eq!((failed.ok, failed.restarting), (false, false));
    assert_eq!(failed.version, "1.0.0");
    assert_eq!(failed.message, "offline");

    let mut job = kernel.check_kernel_update();
    let _ = job.advance(&mut kernel, UpdateEvent::LatestKnown(Ok(text("2.0.0"))));
    let failed = report(job.advance(&mut kernel, UpdateEvent::DataLocated(Err(text("no data")))));
    assert_eq!(failed.message, "no data");

    let mut job = kernel.check_kernel_update();
    let _ = job.advance(&mut kernel, UpdateEvent::LatestKnown(Ok(text("2.0.0"))));
    let _ = job.advance(&mut kernel, UpdateEvent::DataLocated(Ok(())));
    let failed = report(job.advance(&mut kernel, UpdateEvent::ClientBuilt(Err(text("no tls")))));
    assert_eq!(failed.message, "no tls");

    let mut job = fetching(&mut kernel);
    let failed = report(job.advance(&mut kernel, UpdateEvent::Answered(Err(text("reset")))));
    assert_eq!(failed.message, "下载内核包失败：reset（内核包需先在发布渠道构建）");

    let mut job = fetching(&mut kernel);
    let failed = report(job.advance(&mut kernel, UpdateEvent::Answered(Ok(404))));
    assert_eq!(failed.message, "内核包尚未发布（HTTP 404 Not Found）");

    let mut job = fetching(&mut kernel);
    let _ = job.advance(&mut kernel, UpdateEvent::Answered(Ok(200)));
    let failed = report(job.advance(&mut kernel, UpdateEvent::Saved(Err(text("disk full")))));
    assert_eq!(failed.message, "disk full");
    assert_eq!(kernel.status().version, "1.0.0");
}

#[test]
fn a_failed_deployment_is_cleaned_up() {
    let mut kernel = KernelManager::new("1.0.0", "0.1.0");
    let mut job = fetching(&mut kernel);
    let _ = job.advance(&mut kernel, UpdateEvent::Answered(Ok(200)));
    let mut action = job.advance(&mut kernel, UpdateEvent::Saved(Ok(())));
    while let UpdateAction::Deploy { step, .. } = action {
        let outcome = if step == DeployStep::Unpack { Err(text("corrupt")) } else { Ok(false) };
        action = job.advance(&mut kernel, UpdateEvent::Deployed(outcome));
    }
    match action {
        UpdateAction::CleanUp { staging } => assert_eq!(staging, "2.0.0.tmp"),
        _ => panic!("the staging directory is kept"),
    }
    let failed = report(job.advance(&mut kernel, UpdateEvent::CleanedUp));
    assert!(!failed.ok);
    assert_eq!(failed.version, "1.0.0");
    assert_eq!(failed.message, "解压内核失败：corrupt");
    assert_eq!(kernel.status().version, "1.0.0");
}

#[test]
fn results_are_built_as_said() {
    let done = KernelUpdateResult::ok("2", text("fine"), true);
    assert_eq!((done.ok, done.restarting), (true, true));
    assert_eq!((done.version.as_str(), done.message.as_str()), ("2", "fine"));
    let failed = KernelUpdateResult::fail("1", "bad");
    assert_eq!((failed.ok, failed.restarting), (false, false));
    assert_eq!((failed.version.as_str(), failed.message.as_str()), ("1", "bad"));
}

/// The directory of all versions, in memory: what each directory holds, the
/// draft of the pin, and the pin.
struct Store {
    dirs: BTreeMap<String, &'static str>,
    draft: String,
    pin: String,
}

impl Store {
    fn perform(&mut self, step: DeployStep, version: &str, fails: bool) -> Result<bool, String> {
        let staging = staging_name(version);
        if fails {
            if step == DeployStep::Unpack {
                self.dirs.insert(staging, "half");
            }
            if step == DeployStep::WritePin {
                self.draft = text("2.");
            }
            return Err(text("failed"));
        }
        match step {
            DeployStep::ProbeStaging => return Ok(self.dirs.contains_key(&staging)),
            DeployStep::ClearStaging => drop(self.dirs.remove(&staging)),
            DeployStep::ProbeTarget => return Ok(self.dirs.contains_key(version)),
            DeployStep::ClearTarget => drop(self.dirs.remove(version)),
            DeployStep::CreateStaging => drop(self.dirs.entry(staging).or_insert("empty")),
            DeployStep::OpenArchive => {}
            DeployStep::Unpack => {
                let fresh = self.dirs.get(&staging) == Some(&"empty");
                self.dirs.insert(staging, if fresh { "new" } else { "mixed" });
            }
            DeployStep::Promote => {
                let tree = self.dirs.remove(&staging).expect("staging exists");
                self.dirs.insert(text(version), tree);
            }
            DeployStep::WritePin => self.draft = pin_text(version),
            DeployStep::Pin => self.pin = self.draft.clone(),
        }
        Ok(true)
    }
}

#[test]
fn a_deployment_replaces_in_one_piece_or_not_at_all() {
    for failing in 0..11 {
        let mut store = Store {
            dirs: BTreeMap::from([
                (text("1.0.0"), "old"),
                (text("2.0.0"), "stale"),
                (text("2.0.0.tmp"), "leftover"),
            ]),
            draft: text(""),
            pin: pin_text("1.0.0"),
        };
        let mut step = DeployStep::ProbeStaging;
        let mut performed = 0;
        let complete = loop {
            let outcome = store.perform(step, "2.0.0", performed == failing);
            performed += 1;
            if let Some(tree) = store.dirs.get("2.0.0") {
                assert!(*tree == "stale" || *tree == "new");
            }
            match deploy_next(step, outcome, "") {
                DeployProgress::Next(next) => step = next,
                DeployProgress::Complete => break true,
                DeployProgress::Failed(_) => break false,
            }
        };
        assert_eq!(store.dirs.get("1.0.0"), Some(&"old"));
        assert_eq!(complete, failing == 10);
        let left = match step {
            DeployStep::ProbeStaging
            | DeployStep::ClearStaging
            | DeployStep::ProbeTarget
            | DeployStep::ClearTarget => Some(&"stale"),
            DeployStep::CreateStaging
            | DeployStep::OpenArchive
            | DeployStep::Unpack
            | DeployStep::Promote => None,
            DeployStep::WritePin | DeployStep::Pin => Some(&"new"),
        };
        assert_eq!(store.dirs.get("2.0.0"), left);
        if complete {
            assert!(!store.dirs.contains_key("2.0.0.tmp"));
            assert_eq!(store.pin, "2.0.0\n");
        } else {
            assert_eq!(store.pin, "1.0.0\n");
        }
    }
}

#[test]
fn a_padded_pin_names_the_same_version() {
    for pin in ["2.0.0", "2.0.0\n", "  2.0.0\r\n", "\u{a0}2.0.0\t"] {
        let mut install = reading_pin();
        assert_eq!(
            install.advance(InstallEvent::PinRead(Some(text(pin)))),
            InstallAction::ProbePinned { version: text("2.0.0") }
        );
    }
}
