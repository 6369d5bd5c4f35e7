use dsh_client::launch::{
    launch_args, node_location, service_url, Launch, LaunchAction, LaunchEvent, HEALTH_RETRIES,
};
use dsh_client::manager::{KernelManager, Phase};
use dsh_client::supervisor::{SuperviseAction, SuperviseEvent, Supervisor, MAX_RESTARTS};

fn fresh_manager() -> KernelManager {
    KernelManager::new("1.2.3", "0.1.0")
}

fn started() -> (KernelManager, Supervisor) {
    let mut kernel = fresh_manager();
    let mut supervisor = kernel.start();
    let action = supervisor.advance(&mut kernel, SuperviseEvent::Installed(Ok("2.0.0".to_string())));
    assert_eq!(action, SuperviseAction::Launch);
    (kernel, supervisor)
}

/// A run that has got as far as its first health check.
fn probing(kernel: &mut KernelManager) -> Launch {
    let mut run = Launch::new();
    assert_eq!(run.advance(kernel, LaunchEvent::ResourcesFound(Ok(()))), LaunchAction::ProbeNode);
    let node = LaunchEvent::NodeProbed { found: true, path: "/res/node/node".to_string() };
    assert_eq!(run.advance(kernel, node), LaunchAction::ProbeEntry);
    let entry = LaunchEvent::EntryProbed { found: true, path: "/k/bin.js".to_string() };
    assert_eq!(run.advance(kernel, entry), LaunchAction::Spawn);
    assert_eq!(run.advance(kernel, LaunchEvent::Spawned(Ok(77))), LaunchAction::OpenLog);
    assert_eq!(run.advance(kernel, LaunchEvent::LogOpened(Ok(()))), LaunchAction::AwaitPort);
    assert_eq!(run.advance(kernel, LaunchEvent::PortReported(Some(51315))), LaunchAction::BuildClient);
    assert_eq!(
        run.advance(kernel, LaunchEvent::ClientBuilt(Ok(()))),
        LaunchAction::Probe { url: "http://127.0.0.1:51315/".to_string() }
    );
    run
}

#[test]
fn a_new_manager_is_idle() {
    let status = fresh_manager().status();
    assert_eq!(status.phase, "idle");
    assert_eq!(status.port, None);
    assert_eq!(status.error, None);
    assert_eq!(status.version, "1.2.3");
    assert_eq!(status.app_version, "0.1.0");
}

#[test]
fn phases_have_their_names() {
    let names: Vec<&str> = vec![
        Phase::Idle,
        Phase::Installing,
        Phase::Starting,
        Phase::Ready,
        Phase::Restarting,
        Phase::Error,
        Phase::Stopped,
    ]
    .into_iter()
    .map(Phase::as_str)
    .collect();
    assert_eq!(
        names,
        vec!["idle", "installing", "starting", "ready", "restarting", "error", "stopped"]
    );
}

#[test]
fn starting_installs_first() {
    let mut kernel = fresh_manager();
    let _ = kernel.start();
    assert_eq!(kernel.status().phase, "installing");
}

#[test]
fn an_installed_version_is_started() {
    let (kernel, _) = started();
    let status = kernel.status();
    assert_eq!(status.phase, "starting");
    assert_eq!(status.version, "2.0.0");
    assert_eq!(status.error, None);
}

#[test]
fn a_failed_installation_ends_the_loop() {
    let mut kernel = fresh_manager();
    let mut supervisor = kernel.start();
    let action = supervisor.advance(&mut kernel, SuperviseEvent::Installed(Err("no disk".to_string())));
    assert_eq!(
        action,
        SuperviseAction::Exit { announce: false, result: Err("no disk".to_string()) }
    );
    assert_eq!(kernel.status().phase, "installing");
    assert_eq!(supervisor.advance(&mut kernel, SuperviseEvent::Rested), SuperviseAction::Ignore);
}

#[test]
fn a_crash_is_restarted_until_the_limit() {
    let (mut kernel, mut supervisor) = started();
    let mut launches: u32 = 1;
    loop {
        let ended = SuperviseEvent::AttemptEnded(Err("boom".to_string()));
        match supervisor.advance(&mut kernel, ended) {
            SuperviseAction::Rest => {
                assert_eq!(kernel.status().phase, "restarting");
                assert_eq!(kernel.status().error, Some("boom".to_string()));
                assert_eq!(supervisor.advance(&mut kernel, SuperviseEvent::Rested), SuperviseAction::Launch);
                assert_eq!(kernel.status().phase, "starting");
                assert_eq!(kernel.status().error, None);
                launches += 1;
            }
            other => {
                assert_eq!(other, SuperviseAction::Exit { announce: true, result: Err("boom".to_string()) });
                break;
            }
        }
    }
    assert_eq!(launches, 4);
    assert_eq!(launches, MAX_RESTARTS + 1);
    assert_eq!(kernel.status().phase, "error");
    assert_eq!(kernel.status().error, Some("dsh 多次启动失败：boom".to_string()));
}

#[test]
fn a_quiet_exit_counts_as_a_crash() {
    let (mut kernel, mut supervisor) = started();
    assert_eq!(supervisor.advance(&mut kernel, SuperviseEvent::AttemptEnded(Ok(()))), SuperviseAction::Rest);
    assert_eq!(kernel.status().error, Some("dsh 进程意外退出".to_string()));
}

#[test]
fn a_stopped_kernel_is_not_restarted() {
    let (mut kernel, mut supervisor) = started();
    assert_eq!(kernel.stop(), None);
    assert_eq!(
        supervisor.advance(&mut kernel, SuperviseEvent::AttemptEnded(Err("killed".to_string()))),
        SuperviseAction::Exit { announce: false, result: Ok(()) }
    );
    assert_eq!(kernel.status().phase, "stopped");
    assert_eq!(kernel.status().error, None);
}

#[test]
fn a_stop_during_the_installation_is_final() {
    let mut kernel = fresh_manager();
    let mut supervisor = kernel.start();
    let _ = kernel.stop();
    assert_eq!(
        supervisor.advance(&mut kernel, SuperviseEvent::Installed(Ok("2.0.0".to_string()))),
        SuperviseAction::Exit { announce: false, result: Ok(()) }
    );
    assert_eq!(kernel.status().phase, "stopped");
}

#[test]
fn a_stop_during_the_rest_is_final() {
    let (mut kernel, mut supervisor) = started();
    let crash = SuperviseEvent::AttemptEnded(Err("boom".to_string()));
    assert_eq!(supervisor.advance(&mut kernel, crash), SuperviseAction::Rest);
    let _ = kernel.stop();
    assert_eq!(
        supervisor.advance(&mut kernel, SuperviseEvent::Rested),
        SuperviseAction::Exit { announce: false, result: Ok(()) }
    );
    assert_eq!(kernel.status().phase, "stopped");
    assert_eq!(supervisor.advance(&mut kernel, SuperviseEvent::Rested), SuperviseAction::Ignore);
}

#[test]
fn a_stopped_kernel_is_not_spawned() {
    let (mut kernel, _) = started();
    let mut run = Launch::new();
    let _ = run.advance(&mut kernel, LaunchEvent::ResourcesFound(Ok(())));
    let _ = run.advance(&mut kernel, LaunchEvent::NodeProbed { found: true, path: String::new() });
    let _ = kernel.stop();
    assert_eq!(
        run.advance(&mut kernel, LaunchEvent::EntryProbed { found: true, path: String::new() }),
        LaunchAction::Finish(Ok(()))
    );
    assert_eq!(kernel.status().phase, "stopped");
}

#[test]
fn a_kernel_that_is_stopped_while_it_is_spawned_is_killed() {
    let (mut kernel, _) = started();
    let mut run = Launch::new();
    let _ = run.advance(&mut kernel, LaunchEvent::ResourcesFound(Ok(())));
    let _ = run.advance(&mut kernel, LaunchEvent::NodeProbed { found: true, path: String::new() });
    let _ = run.advance(&mut kernel, LaunchEvent::EntryProbed { found: true, path: String::new() });
    let _ = kernel.stop();
    assert_eq!(run.advance(&mut kernel, LaunchEvent::Spawned(Ok(5))), LaunchAction::Kill);
    assert_eq!(run.advance(&mut kernel, LaunchEvent::Killed), LaunchAction::Finish(Ok(())));
    assert_eq!(kernel.status().phase, "stopped");
}

#[test]
fn a_stopped_kernel_does_not_become_ready() {
    let (mut kernel, _) = started();
    let mut run = probing(&mut kernel);
    assert_eq!(kernel.stop(), Some(77));
    assert_eq!(run.advance(&mut kernel, LaunchEvent::Probed(Some(200))), LaunchAction::Kill);
    assert_eq!(kernel.status().phase, "stopped");
    assert_eq!(kernel.status().port, None);
    assert_eq!(run.advance(&mut kernel, LaunchEvent::Killed), LaunchAction::Finish(Ok(())));
}

#[test]
fn a_healthy_kernel_becomes_ready() {
    let (mut kernel, _) = started();
    let mut run = probing(&mut kernel);
    assert_eq!(kernel.status().phase, "starting");
    assert_eq!(
        run.advance(&mut kernel, LaunchEvent::Probed(Some(204))),
        LaunchAction::Serve { url: "http://127.0.0.1:51315/".to_string() }
    );
    assert_eq!(kernel.status().phase, "ready");
    assert_eq!(kernel.status().port, Some(51315));
    assert_eq!(run.advance(&mut kernel, LaunchEvent::Exited), LaunchAction::Finish(Ok(())));
    assert_eq!(run.advance(&mut kernel, LaunchEvent::Exited), LaunchAction::Ignore);
}

#[test]
fn stopping_names_the_process_and_clears_the_port() {
    let (mut kernel, _) = started();
    let mut run = probing(&mut kernel);
    let _ = run.advance(&mut kernel, LaunchEvent::Probed(Some(200)));
    assert_eq!(kernel.stop(), Some(77));
    assert_eq!(kernel.status().phase, "stopped");
    assert_eq!(kernel.status().port, None);
}

#[test]
fn a_retry_clears_the_error() {
    let (mut kernel, mut supervisor) = started();
    let _ = supervisor.advance(&mut kernel, SuperviseEvent::AttemptEnded(Err("boom".to_string())));
    let _ = kernel.stop();
    assert_eq!(kernel.status().error, Some("boom".to_string()));
    kernel.retry();
    assert_eq!(kernel.status().phase, "idle");
    assert_eq!(kernel.status().error, None);
    assert_eq!(kernel.status().version, "2.0.0");
    let _ = kernel.start();
    assert_eq!(kernel.status().phase, "installing");
}

#[test]
fn an_unhealthy_kernel_is_killed_after_eight_checks() {
    let (mut kernel, _) = started();
    let mut run = probing(&mut kernel);
    let mut checks: u32 = 0;
    loop {
        let answer = if checks % 2 == 0 { None } else { Some(503) };
        assert_eq!(run.advance(&mut kernel, LaunchEvent::Probed(answer)), LaunchAction::Pause);
        checks += 1;
        match run.advance(&mut kernel, LaunchEvent::Paused) {
            LaunchAction::Probe { url } => assert_eq!(url, "http://127.0.0.1:51315/"),
            other => {
                assert_eq!(other, LaunchAction::Kill);
                break;
            }
        }
    }
    assert_eq!(checks, 8);
    assert_eq!(checks, HEALTH_RETRIES);
    assert_eq!(kernel.status().phase, "starting");
    assert_eq!(
        run.advance(&mut kernel, LaunchEvent::Killed),
        LaunchAction::Finish(Err("dsh 健康检查失败：http://127.0.0.1:51315/".to_string()))
    );
}

#[test]
fn the_last_health_check_may_still_pass() {
    let (mut kernel, _) = started();
    let mut run = probing(&mut kernel);
    for _ in 0..7 {
        assert_eq!(run.advance(&mut kernel, LaunchEvent::Probed(Some(500))), LaunchAction::Pause);
        assert!(matches!(run.advance(&mut kernel, LaunchEvent::Paused), LaunchAction::Probe { .. }));
    }
    assert!(matches!(
        run.advance(&mut kernel, LaunchEvent::Probed(Some(200))),
        LaunchAction::Serve { .. }
    ));
    assert_eq!(kernel.status().phase, "ready");
}

#[test]
fn a_silent_kernel_is_killed() {
    let (mut kernel, _) = started();
    let mut run = Launch::new();
    let _ = run.advance(&mut kernel, LaunchEvent::ResourcesFound(Ok(())));
    let _ = run.advance(&mut kernel, LaunchEvent::NodeProbed { found: true, path: String::new() });
    let _ = run.advance(&mut kernel, LaunchEvent::EntryProbed { found: true, path: String::new() });
    let _ = run.advance(&mut kernel, LaunchEvent::Spawned(Ok(5)));
    let _ = run.advance(&mut kernel, LaunchEvent::LogOpened(Ok(())));
    assert_eq!(run.advance(&mut kernel, LaunchEvent::PortReported(None)), LaunchAction::Kill);
    assert_eq!(
        run.advance(&mut kernel, LaunchEvent::Killed),
        LaunchAction::Finish(Err("dsh 未在 90 秒内输出就绪信号".to_string()))
    );
    assert_eq!(kernel.stop(), Some(5));
}

#[test]
fn a_run_fails_with_the_reason() {
    let mut kernel = fresh_manager();
    let mut run = Launch::new();
    assert_eq!(
        run.advance(&mut kernel, LaunchEvent::ResourcesFound(Err("no dir".to_string()))),
        LaunchAction::Finish(Err("no dir".to_string()))
    );

    let mut run = Launch::new();
    let _ = run.advance(&mut kernel, LaunchEvent::ResourcesFound(Ok(())));
    assert_eq!(
        run.advance(&mut kernel, LaunchEvent::NodeProbed { found: false, path: "/r/node".to_string() }),
        LaunchAction::Finish(Err("node runtime missing: /r/node".to_string()))
    );

    let mut run = Launch::new();
    let _ = run.advance(&mut kernel, LaunchEvent::ResourcesFound(Ok(())));
    let _ = run.advance(&mut kernel, LaunchEvent::NodeProbed { found: true, path: String::new() });
    assert_eq!(
        run.advance(&mut kernel, LaunchEvent::EntryProbed { found: false, path: "/k/bin.js".to_string() }),
        LaunchAction::Finish(Err("dsh entry missing: /k/bin.js".to_string()))
    );

    let mut run = Launch::new();
    let _ = run.advance(&mut kernel, LaunchEvent::ResourcesFound(Ok(())));
    let _ = run.advance(&mut kernel, LaunchEvent::NodeProbed { found: true, path: String::new() });
    let _ = run.advance(&mut kernel, LaunchEvent::EntryProbed { found: true, path: String::new() });
    assert_eq!(
        run.advance(&mut kernel, LaunchEvent::Spawned(Err("denied".to_string()))),
        LaunchAction::Finish(Err("spawn node failed: denied".to_string()))
    );
}

#[test]
fn the_log_and_the_client_can_fail_too() {
    let mut kernel = fresh_manager();
    let mut run = Launch::new();
    let _ = run.advance(&mut kernel, LaunchEvent::ResourcesFound(Ok(())));
    let _ = run.advance(&mut kernel, LaunchEvent::NodeProbed { found: true, path: String::new() });
    let _ = run.advance(&mut kernel, LaunchEvent::EntryProbed { found: true, path: String::new() });
    let _ = run.advance(&mut kernel, LaunchEvent::Spawned(Ok(9)));
    assert_eq!(
        run.advance(&mut kernel, LaunchEvent::LogOpened(Err("no log".to_string()))),
        LaunchAction::Finish(Err("no log".to_string()))
    );

    let mut run = Launch::new();
    let _ = run.advance(&mut kernel, LaunchEvent::ResourcesFound(Ok(())));
    let _ = run.advance(&mut kernel, LaunchEvent::NodeProbed { found: true, path: String::new() });
    let _ = run.advance(&mut kernel, LaunchEvent::EntryProbed { found: true, path: String::new() });
    let _ = run.advance(&mut kernel, LaunchEvent::Spawned(Ok(9)));
    let _ = run.advance(&mut kernel, LaunchEvent::LogOpened(Ok(())));
    let _ = run.advance(&mut kernel, LaunchEvent::PortReported(Some(1)));
    assert_eq!(
        run.advance(&mut kernel, LaunchEvent::ClientBuilt(Err("no tls".to_string()))),
        LaunchAction::Finish(Err("no tls".to_string()))
    );
}

#[test]
fn events_out_of_turn_are_ignored() {
    let mut kernel = fresh_manager();
    let mut run = Launch::new();
    assert_eq!(run.advance(&mut kernel, LaunchEvent::Probed(Some(200))), LaunchAction::Ignore);
    assert_eq!(kernel.status().phase, "idle");
    let mut supervisor = kernel.start();
    assert_eq!(
        supervisor.advance(&mut kernel, SuperviseEvent::AttemptEnded(Ok(()))),
        SuperviseAction::Ignore
    );
}

#[test]
fn the_kernel_listens_on_the_loopback_only() {
    assert_eq!(launch_args(), vec!["--profile", "web", "--host", "127.0.0.1", "--port", "0"]);
    assert_eq!(service_url(0), "http://127.0.0.1:0/");
    assert_eq!(service_url(65535), "http://127.0.0.1:65535/");
}

#[test]
fn the_runtime_lies_where_the_platform_has_it() {
    assert_eq!(node_location(true), vec!["node", "win", "node.exe"]);
    assert_eq!(node_location(false), vec!["node", "node"]);
}
