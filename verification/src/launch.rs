//! One full run of the kernel: spawn it, wait for the readiness line, check its
//! health, point the window at it, and wait until it exits.
//!
//! Stages, events and actions are generic in their text type: the running
//! program uses `String`, the specifications use `Seq<char>`.

use vstd::prelude::*;

use crate::http;
use crate::manager::{KernelManager, KernelState, Phase};
use crate::text;

verus! {

/// Where the kernel's entry script lies below the directory of its version.
pub const ENTRY_PATH: &'static str = "node_modules/@deepseek-ai/dsh/lib/bin.js";

/// How long the kernel may take to print its readiness line.
pub const READY_TIMEOUT_SECS: u64 = 90;

/// How many health checks may fail.
pub const HEALTH_RETRIES: u32 = 8;

/// Pause after a failed health check.
pub const HEALTH_INTERVAL_MILLIS: u64 = 600;

/// Limit on one health check.
pub const HEALTH_TIMEOUT_SECS: u64 = 5;

pub const NODE_MISSING: &'static str = "node runtime missing: ";

pub const ENTRY_MISSING: &'static str = "dsh entry missing: ";

pub const SPAWN_FAILED: &'static str = "spawn node failed: ";

pub const NOT_READY: &'static str = "dsh 未在 90 秒内输出就绪信号";

pub const UNHEALTHY: &'static str = "dsh 健康检查失败：";

pub const SERVICE_HOST: &'static str = "http://127.0.0.1:";

/// The address of a kernel that listens on `port`.
pub open spec fn service_address(port: u16) -> Seq<char> {
    SERVICE_HOST@ + text::decimal(port as nat) + "/"@
}

/// The address of a kernel that listens on `port`.
pub fn service_url(port: u16) -> (r: String)
    ensures
        r@ == service_address(port),
{
    text::join3(SERVICE_HOST, text::decimal_text(port as u64).as_str(), "/")
}

/// What the kernel is called with, behind its entry script: the web profile, on
/// a loopback port of the system's choice.
pub fn launch_args() -> (r: Vec<&'static str>)
    ensures
        r@.len() == 6,
        r@[0]@ == "--profile"@,
        r@[1]@ == "web"@,
        r@[2]@ == "--host"@,
        r@[3]@ == "127.0.0.1"@,
        r@[4]@ == "--port"@,
        r@[5]@ == "0"@,
{
    vec!["--profile", "web", "--host", "127.0.0.1", "--port", "0"]
}

/// Where the Node.js runtime lies below the resource directory.
pub fn node_location(windows: bool) -> (r: Vec<&'static str>)
    ensures
        windows ==> r@.len() == 3 && r@[0]@ == "node"@ && r@[1]@ == "win"@ && r@[2]@ == "node.exe"@,
        !windows ==> r@.len() == 2 && r@[0]@ == "node"@ && r@[1]@ == "node"@,
{
    if windows {
        vec!["node", "win", "node.exe"]
    } else {
        vec!["node", "node"]
    }
}

#[derive(PartialEq, Eq, Debug)]
pub enum LaunchStage<T> {
    FindingResources,
    ProbingNode,
    ProbingEntry,
    Spawning,
    OpeningLog,
    AwaitingPort,
    BuildingClient { port: u16 },
    /// A health check is under way; `failed` of them have failed before.
    Probing { port: u16, failed: u32 },
    /// Waiting after a failed health check, the `failed`-th.
    Pausing { port: u16, failed: u32 },
    /// The kernel is up; it has not exited yet.
    Serving,
    /// The child is being killed for the given reason.
    Condemned { reason: T },
    /// The child is being killed because the kernel was stopped meanwhile.
    Withdrawing,
    Over,
}

/// What happened since the last action.
#[derive(PartialEq, Eq, Debug)]
pub enum LaunchEvent<T> {
    /// The resource directory was looked up.
    ResourcesFound(Result<(), T>),
    /// The runtime was looked for at `path`.
    NodeProbed { found: bool, path: T },
    /// The entry script was looked for at `path`.
    EntryProbed { found: bool, path: T },
    /// The child was spawned, with this process id, or could not be.
    Spawned(Result<u32, T>),
    /// The log directory was looked up and the log opened.
    LogOpened(Result<(), T>),
    /// The readiness line came with this port, or did not come in time.
    PortReported(Option<u16>),
    /// The client for health checks was built.
    ClientBuilt(Result<(), T>),
    /// A health check was answered with this status, or not at all.
    Probed(Option<u16>),
    /// The pause between two health checks is over.
    Paused,
    /// The child was told to die.
    Killed,
    /// The child exited.
    Exited,
}

/// What is to be done next.
#[derive(PartialEq, Eq, Debug)]
pub enum LaunchAction<T> {
    /// See whether the runtime is there.
    ProbeNode,
    /// See whether the entry script is there.
    ProbeEntry,
    /// Spawn the child, in a process group of its own.
    Spawn,
    /// Open the log and connect the child's output to it.
    OpenLog,
    /// Wait for the readiness line, at most [`READY_TIMEOUT_SECS`].
    AwaitPort,
    /// Build a client with a timeout of [`HEALTH_TIMEOUT_SECS`].
    BuildClient,
    /// Ask for `url` once.
    Probe { url: T },
    /// Wait for [`HEALTH_INTERVAL_MILLIS`].
    Pause,
    /// Announce the status, show `url` in the window, wait for the child.
    Serve { url: T },
    /// Kill the child.
    Kill,
    /// The run is over.
    Finish(Result<(), T>),
    /// Nothing: the event did not belong to the current stage.
    Ignore,
}

impl LaunchStage<String> {
    pub open spec fn view(self) -> LaunchStage<Seq<char>> {
        match self {
            LaunchStage::FindingResources => LaunchStage::FindingResources,
            LaunchStage::ProbingNode => LaunchStage::ProbingNode,
            LaunchStage::ProbingEntry => LaunchStage::ProbingEntry,
            LaunchStage::Spawning => LaunchStage::Spawning,
            LaunchStage::OpeningLog => LaunchStage::OpeningLog,
            LaunchStage::AwaitingPort => LaunchStage::AwaitingPort,
            LaunchStage::BuildingClient { port } => LaunchStage::BuildingClient { port },
            LaunchStage::Probing { port, failed } => LaunchStage::Probing { port, failed },
            LaunchStage::Pausing { port, failed } => LaunchStage::Pausing { port, failed },
            LaunchStage::Serving => LaunchStage::Serving,
            LaunchStage::Condemned { reason } => LaunchStage::Condemned { reason: reason@ },
            LaunchStage::Withdrawing => LaunchStage::Withdrawing,
            LaunchStage::Over => LaunchStage::Over,
        }
    }
}

impl LaunchEvent<String> {
    pub open spec fn view(self) -> LaunchEvent<Seq<char>> {
        match self {
            LaunchEvent::ResourcesFound(r) => LaunchEvent::ResourcesFound(text::outcome_text(r)),
            LaunchEvent::NodeProbed { found, path } => LaunchEvent::NodeProbed { found, path: path@ },
            LaunchEvent::EntryProbed { found, path } => LaunchEvent::EntryProbed { found, path: path@ },
            LaunchEvent::Spawned(r) => LaunchEvent::Spawned(text::outcome_text(r)),
            LaunchEvent::LogOpened(r) => LaunchEvent::LogOpened(text::outcome_text(r)),
            LaunchEvent::PortReported(port) => LaunchEvent::PortReported(port),
            LaunchEvent::ClientBuilt(r) => LaunchEvent::ClientBuilt(text::outcome_text(r)),
            LaunchEvent::Probed(status) => LaunchEvent::Probed(status),
            LaunchEvent::Paused => LaunchEvent::Paused,
            LaunchEvent::Killed => LaunchEvent::Killed,
            LaunchEvent::Exited => LaunchEvent::Exited,
        }
    }
}

impl LaunchAction<String> {
    pub open spec fn view(self) -> LaunchAction<Seq<char>> {
        match self {
            LaunchAction::ProbeNode => LaunchAction::ProbeNode,
            LaunchAction::ProbeEntry => LaunchAction::ProbeEntry,
            LaunchAction::Spawn => LaunchAction::Spawn,
            LaunchAction::OpenLog => LaunchAction::OpenLog,
            LaunchAction::AwaitPort => LaunchAction::AwaitPort,
            LaunchAction::BuildClient => LaunchAction::BuildClient,
            LaunchAction::Probe { url } => LaunchAction::Probe { url: url@ },
            LaunchAction::Pause => LaunchAction::Pause,
            LaunchAction::Serve { url } => LaunchAction::Serve { url: url@ },
            LaunchAction::Kill => LaunchAction::Kill,
            LaunchAction::Finish(r) => LaunchAction::Finish(text::outcome_text(r)),
            LaunchAction::Ignore => LaunchAction::Ignore,
        }
    }
}

/// What a step of a run does: the next stage, the kernel's state, the action.
pub type Step = (LaunchStage<Seq<char>>, KernelState, LaunchAction<Seq<char>>);

/// The run ends with an error.
pub open spec fn give_up(kernel: KernelState, message: Seq<char>) -> Step {
    (LaunchStage::Over, kernel, LaunchAction::Finish(Err(message)))
}

/// The child is killed, and the run will end with an error.
pub open spec fn condemn(kernel: KernelState, reason: Seq<char>) -> Step {
    (LaunchStage::Condemned { reason }, kernel, LaunchAction::Kill)
}

/// The child is killed because the kernel was stopped, and the run will end.
pub open spec fn withdraw(kernel: KernelState) -> Step {
    (LaunchStage::Withdrawing, kernel, LaunchAction::Kill)
}

/// The run ends without an error.
pub open spec fn close(kernel: KernelState) -> Step {
    (LaunchStage::Over, kernel, LaunchAction::Finish(Ok(())))
}

/// The kernel is asked for a sign of health.
pub open spec fn probe(kernel: KernelState, port: u16, failed: u32) -> Step {
    (
        LaunchStage::Probing { port, failed },
        kernel,
        LaunchAction::Probe { url: service_address(port) },
    )
}

/// A health check was answered with success.
pub open spec fn healthy(answer: Option<u16>) -> bool {
    answer matches Some(code) && http::succeeded(code)
}

/// One step of a run. A kernel that was stopped meanwhile is not spawned; if it
/// was stopped while it was being spawned, or before it proved healthy, it is
/// killed.
pub open spec fn launch(
    stage: LaunchStage<Seq<char>>,
    kernel: KernelState,
    event: LaunchEvent<Seq<char>>,
) -> Step {
    match (stage, event) {
        (LaunchStage::FindingResources, LaunchEvent::ResourcesFound(r)) => match r {
            Ok(_) => (LaunchStage::ProbingNode, kernel, LaunchAction::ProbeNode),
            Err(message) => give_up(kernel, message),
        },
        (LaunchStage::ProbingNode, LaunchEvent::NodeProbed { found, path }) => if found {
            (LaunchStage::ProbingEntry, kernel, LaunchAction::ProbeEntry)
        } else {
            give_up(kernel, NODE_MISSING@ + path)
        },
        (LaunchStage::ProbingEntry, LaunchEvent::EntryProbed { found, path }) => if !found {
            give_up(kernel, ENTRY_MISSING@ + path)
        } else if kernel.phase == Phase::Stopped {
            close(kernel)
        } else {
            (LaunchStage::Spawning, kernel, LaunchAction::Spawn)
        },
        (LaunchStage::Spawning, LaunchEvent::Spawned(r)) => match r {
            Ok(pid) => {
                let spawned = KernelState { pid: Some(pid), ..kernel };
                if kernel.phase == Phase::Stopped {
                    withdraw(spawned)
                } else {
                    (LaunchStage::OpeningLog, spawned, LaunchAction::OpenLog)
                }
            },
            Err(message) => give_up(kernel, SPAWN_FAILED@ + message),
        },
        (LaunchStage::OpeningLog, LaunchEvent::LogOpened(r)) => match r {
            Ok(_) => (LaunchStage::AwaitingPort, kernel, LaunchAction::AwaitPort),
            Err(message) => give_up(kernel, message),
        },
        (LaunchStage::AwaitingPort, LaunchEvent::PortReported(reported)) => match reported {
            Some(port) => (LaunchStage::BuildingClient { port }, kernel, LaunchAction::BuildClient),
            None => condemn(kernel, NOT_READY@),
        },
        (LaunchStage::BuildingClient { port }, LaunchEvent::ClientBuilt(r)) => match r {
            Ok(_) => probe(kernel, port, 0),
            Err(message) => give_up(kernel, message),
        },
        (LaunchStage::Probing { port, failed }, LaunchEvent::Probed(answer)) => if healthy(answer) {
            if kernel.phase == Phase::Stopped {
                withdraw(kernel)
            } else {
                (
                    LaunchStage::Serving,
                    kernel.ready(port),
                    LaunchAction::Serve { url: service_address(port) },
                )
            }
        } else {
            (
                LaunchStage::Pausing { port, failed: (failed + 1) as u32 },
                kernel,
                LaunchAction::Pause,
            )
        },
        (LaunchStage::Pausing { port, failed }, LaunchEvent::Paused) => if failed < HEALTH_RETRIES {
            probe(kernel, port, failed)
        } else {
            condemn(kernel, UNHEALTHY@ + service_address(port))
        },
        (LaunchStage::Condemned { reason }, LaunchEvent::Killed) => give_up(kernel, reason),
        (LaunchStage::Withdrawing, LaunchEvent::Killed) => close(kernel),
        (LaunchStage::Serving, LaunchEvent::Exited) => close(kernel),
        _ => (stage, kernel, LaunchAction::Ignore),
    }
}

/// One run of the kernel. Its first step is to find the resource directory.
pub struct Launch {
    stage: LaunchStage<String>,
}

/// The count of failed health checks is in range.
pub open spec fn stage_ok(stage: LaunchStage<Seq<char>>) -> bool {
    match stage {
        LaunchStage::Probing { failed, .. } => failed < HEALTH_RETRIES,
        LaunchStage::Pausing { failed, .. } => 0 < failed <= HEALTH_RETRIES,
        _ => true,
    }
}

impl View for Launch {
    type V = LaunchStage<Seq<char>>;

    closed spec fn view(&self) -> LaunchStage<Seq<char>> {
        self.stage@
    }
}

impl Launch {
    pub open spec fn wf(&self) -> bool {
        stage_ok(self@)
    }

    pub fn new() -> (r: Self)
        ensures
            r.wf(),
            r@ == LaunchStage::<Seq<char>>::FindingResources,
    {
        Launch { stage: LaunchStage::FindingResources }
    }

    fn enter(&mut self, stage: LaunchStage<String>, action: LaunchAction<String>) -> (r: LaunchAction<
        String,
    >)
        ensures
            final(self)@ == stage@,
            r == action,
    {
        self.stage = stage;
        action
    }

    fn give_up(&mut self, message: String) -> (r: LaunchAction<String>)
        ensures
            final(self)@ == LaunchStage::<Seq<char>>::Over,
            r@ == LaunchAction::Finish(Err(message@)),
    {
        self.enter(LaunchStage::Over, LaunchAction::Finish(Err(message)))
    }

    fn condemn(&mut self, reason: String) -> (r: LaunchAction<String>)
        ensures
            final(self)@ == (LaunchStage::Condemned { reason: reason@ }),
            r@ == LaunchAction::<Seq<char>>::Kill,
    {
        self.enter(LaunchStage::Condemned { reason }, LaunchAction::Kill)
    }

    fn withdraw(&mut self) -> (r: LaunchAction<String>)
        ensures
            final(self)@ == LaunchStage::<Seq<char>>::Withdrawing,
            r@ == LaunchAction::<Seq<char>>::Kill,
    {
        self.enter(LaunchStage::Withdrawing, LaunchAction::Kill)
    }

    fn close(&mut self) -> (r: LaunchAction<String>)
        ensures
            final(self)@ == LaunchStage::<Seq<char>>::Over,
            r@ == LaunchAction::<Seq<char>>::Finish(Ok(())),
    {
        self.enter(LaunchStage::Over, LaunchAction::Finish(Ok(())))
    }

    fn probe(&mut self, port: u16, failed: u32) -> (r: LaunchAction<String>)
        ensures
            final(self)@ == (LaunchStage::<Seq<char>>::Probing { port, failed }),
            r@ == (LaunchAction::Probe { url: service_address(port) }),
    {
        self.enter(LaunchStage::Probing { port, failed }, LaunchAction::Probe { url: service_url(port) })
    }

    /// Takes in what happened and says what to do next.
    pub fn advance(&mut self, kernel: &mut KernelManager, event: LaunchEvent<String>) -> (r: LaunchAction<
        String,
    >)
        requires
            old(self).wf(),
            old(kernel).wf(),
        ensures
            final(self).wf(),
            final(kernel).wf(),
            (final(self)@, final(kernel)@, r@) == launch(old(self)@, old(kernel)@, event@),
    {
        match event {
            LaunchEvent::ResourcesFound(r) => match &self.stage {
                LaunchStage::FindingResources => match r {
                    Ok(_) => self.enter(LaunchStage::ProbingNode, LaunchAction::ProbeNode),
                    Err(message) => self.give_up(message),
                },
                _ => LaunchAction::Ignore,
            },
            LaunchEvent::NodeProbed { found, path } => match &self.stage {
                LaunchStage::ProbingNode => if found {
                    self.enter(LaunchStage::ProbingEntry, LaunchAction::ProbeEntry)
                } else {
                    self.give_up(text::join2(NODE_MISSING, path.as_str()))
                },
                _ => LaunchAction::Ignore,
            },
            LaunchEvent::EntryProbed { found, path } => match &self.stage {
                LaunchStage::ProbingEntry => if !found {
                    self.give_up(text::join2(ENTRY_MISSING, path.as_str()))
                } else if kernel.is_stopped() {
                    self.close()
                } else {
                    self.enter(LaunchStage::Spawning, LaunchAction::Spawn)
                },
                _ => LaunchAction::Ignore,
            },
            LaunchEvent::Spawned(r) => match &self.stage {
                LaunchStage::Spawning => match r {
                    Ok(pid) => {
                        kernel.set_pid(pid);
                        if kernel.is_stopped() {
                            return self.withdraw();
                        }
                        self.enter(LaunchStage::OpeningLog, LaunchAction::OpenLog)
                    },
                    Err(message) => self.give_up(text::join2(SPAWN_FAILED, message.as_str())),
                },
                _ => LaunchAction::Ignore,
            },
            LaunchEvent::LogOpened(r) => match &self.stage {
                LaunchStage::OpeningLog => match r {
                    Ok(_) => self.enter(LaunchStage::AwaitingPort, LaunchAction::AwaitPort),
                    Err(message) => self.give_up(message),
                },
                _ => LaunchAction::Ignore,
            },
            LaunchEvent::PortReported(reported) => match &self.stage {
                LaunchStage::AwaitingPort => match reported {
                    Some(port) => self.enter(
                        LaunchStage::BuildingClient { port },
                        LaunchAction::BuildClient,
                    ),
                    None => self.condemn(NOT_READY.to_string()),
                },
                _ => LaunchAction::Ignore,
            },
            LaunchEvent::ClientBuilt(r) => match &self.stage {
                LaunchStage::BuildingClient { port } => {
                    let port: u16 = *port;
                    match r {
                        Ok(_) => self.probe(port, 0),
                        Err(message) => self.give_up(message),
                    }
                },
                _ => LaunchAction::Ignore,
            },
            LaunchEvent::Probed(answer) => match &self.stage {
                LaunchStage::Probing { port, failed } => {
                    let port: u16 = *port;
                    let failed: u32 = *failed;
                    let well: bool = match answer {
                        Some(code) => http::is_success(code),
                        None => false,
                    };
                    if well && kernel.is_stopped() {
                        self.withdraw()
                    } else if well {
                        kernel.mark_ready(port);
                        self.enter(LaunchStage::Serving, LaunchAction::Serve { url: service_url(port) })
                    } else {
                        self.enter(LaunchStage::Pausing { port, failed: failed + 1 }, LaunchAction::Pause)
                    }
                },
                _ => LaunchAction::Ignore,
            },
            LaunchEvent::Paused => match &self.stage {
                LaunchStage::Pausing { port, failed } => {
                    let port: u16 = *port;
                    let failed: u32 = *failed;
                    if failed < HEALTH_RETRIES {
                        self.probe(port, failed)
                    } else {
                        self.condemn(text::join2(UNHEALTHY, service_url(port).as_str()))
                    }
                },
                _ => LaunchAction::Ignore,
            },
            LaunchEvent::Killed => match &self.stage {
                LaunchStage::Condemned { reason } => {
                    let reason = reason.clone();
                    self.give_up(reason)
                },
                LaunchStage::Withdrawing => self.close(),
                _ => LaunchAction::Ignore,
            },
            LaunchEvent::Exited => match &self.stage {
                LaunchStage::Serving => self.close(),
                _ => LaunchAction::Ignore,
            },
        }
    }
}

/// A kernel counts as ready only once a health check has passed: whatever step
/// makes it ready is a successful health check on the port that is then shown.
pub proof fn ready_means_healthy(
    stage: LaunchStage<Seq<char>>,
    kernel: KernelState,
    event: LaunchEvent<Seq<char>>,
)
    requires
        kernel.phase != Phase::Ready,
        launch(stage, kernel, event).1.phase == Phase::Ready,
    ensures
        stage is Probing,
        event matches LaunchEvent::Probed(answer) && healthy(answer),
        kernel.phase != Phase::Stopped,
        ({
            let port = stage->Probing_port;
            launch(stage, kernel, event) == (
                LaunchStage::<Seq<char>>::Serving,
                kernel.ready(port),
                LaunchAction::Serve { url: service_address(port) },
            )
        }),
{
}

/// Apart from a passed health check, all that a run changes in the kernel's
/// state is the process id, when the child is spawned.
pub proof fn a_run_leaves_the_rest_alone(
    stage: LaunchStage<Seq<char>>,
    kernel: KernelState,
    event: LaunchEvent<Seq<char>>,
)
    ensures
        ({
            let after = launch(stage, kernel, event).1;
            ||| after == kernel
            ||| event matches LaunchEvent::Probed(answer) && healthy(answer)
            ||| event matches LaunchEvent::Spawned(Ok(pid)) && after == (KernelState {
                pid: Some(pid),
                ..kernel
            })
        }),
{
}

/// A child that did not become ready in time, or did not become healthy, is
/// killed before the run is reported as failed.
pub proof fn a_failing_child_is_killed_first(
    stage: LaunchStage<Seq<char>>,
    kernel: KernelState,
    event: LaunchEvent<Seq<char>>,
)
    requires
        stage is AwaitingPort || stage is Probing || stage is Pausing,
    ensures
        !(launch(stage, kernel, event).2 is Finish),
        launch(stage, kernel, event).2 is Kill <==> launch(stage, kernel, event).0 is Condemned
            || launch(stage, kernel, event).0 is Withdrawing,
        launch(stage, kernel, event).0 is Condemned ==> ({
            let condemned = launch(stage, kernel, event).0;
            launch(condemned, kernel, LaunchEvent::Killed).2 == LaunchAction::<Seq<char>>::Finish(
                Err(condemned->reason),
            )
        }),
{
}

/// A stopped kernel stays stopped: whenever it was stopped, and whatever happens
/// then, a run leaves its phase alone, neither spawns it nor serves it, and kills
/// it if it turns out to have been spawned, or to be healthy, all the same.
pub proof fn a_stopped_kernel_is_not_run(
    stage: LaunchStage<Seq<char>>,
    kernel: KernelState,
    event: LaunchEvent<Seq<char>>,
)
    requires
        kernel.phase == Phase::Stopped,
    ensures
        ({
            let (_, after, action) = launch(stage, kernel, event);
            &&& after.phase == Phase::Stopped
            &&& !(action is Spawn)
            &&& !(action is Serve)
            &&& stage is Spawning && (event matches LaunchEvent::Spawned(Ok(_))) ==> action is Kill
            &&& stage is Probing && (event matches LaunchEvent::Probed(answer) && healthy(answer))
                ==> action is Kill
        }),
{
}

/// What reaches a run at one step: the kernel as it then is, and the event.
pub struct LaunchInput {
    pub kernel: KernelState,
    pub event: LaunchEvent<Seq<char>>,
}

/// How many health checks are made while `inputs` come in.
pub open spec fn probes(stage: LaunchStage<Seq<char>>, inputs: Seq<LaunchInput>) -> nat
    decreases inputs.len(),
{
    if inputs.len() == 0 {
        0
    } else {
        let (next, _, action) = launch(stage, inputs.first().kernel, inputs.first().event);
        (if action is Probe { 1nat } else { 0nat }) + probes(next, inputs.drop_first())
    }
}

/// Health checks that a run in `stage` can still make.
spec fn probes_left(stage: LaunchStage<Seq<char>>) -> int {
    match stage {
        LaunchStage::Probing { failed, .. } => HEALTH_RETRIES - 1 - failed,
        LaunchStage::Pausing { failed, .. } => HEALTH_RETRIES - failed,
        LaunchStage::Serving => 0,
        LaunchStage::Condemned { .. } => 0,
        LaunchStage::Withdrawing => 0,
        LaunchStage::Over => 0,
        _ => HEALTH_RETRIES as int,
    }
}

proof fn lemma_probes_bounded(stage: LaunchStage<Seq<char>>, inputs: Seq<LaunchInput>)
    requires
        stage_ok(stage),
    ensures
        probes(stage, inputs) <= probes_left(stage),
    decreases inputs.len(),
{
    if inputs.len() > 0 {
        let (next, _, _) = launch(stage, inputs.first().kernel, inputs.first().event);
        lemma_probes_bounded(next, inputs.drop_first());
    }
}

/// Whatever happens, a run makes at most [`HEALTH_RETRIES`] health checks.
pub proof fn health_checks_are_bounded(inputs: Seq<LaunchInput>)
    ensures
        probes(LaunchStage::FindingResources, inputs) <= HEALTH_RETRIES,
{
    lemma_probes_bounded(LaunchStage::FindingResources, inputs);
}

/// The stage that is reached from `stage` when the health checks get `answers`,
/// with a pause after each.
pub open spec fn after_answers(
    stage: LaunchStage<Seq<char>>,
    kernel: KernelState,
    answers: Seq<Option<u16>>,
) -> LaunchStage<Seq<char>>
    decreases answers.len(),
{
    if answers.len() == 0 {
        stage
    } else {
        let before = after_answers(stage, kernel, answers.drop_last());
        let pausing = launch(before, kernel, LaunchEvent::Probed(answers.last())).0;
        launch(pausing, kernel, LaunchEvent::Paused).0
    }
}

/// A kernel gets [`HEALTH_RETRIES`] chances: after fewer failed health checks it
/// is asked again, and after that many it is condemned.
pub proof fn health_checks_are_repeated(port: u16, kernel: KernelState, answers: Seq<Option<u16>>)
    requires
        answers.len() <= HEALTH_RETRIES,
        forall|i: int| 0 <= i < answers.len() ==> !healthy(#[trigger] answers[i]),
    ensures
        after_answers(LaunchStage::Probing { port, failed: 0 }, kernel, answers) == (if answers.len()
            < HEALTH_RETRIES {
            LaunchStage::<Seq<char>>::Probing { port, failed: answers.len() as u32 }
        } else {
            LaunchStage::Condemned { reason: UNHEALTHY@ + service_address(port) }
        }),
    decreases answers.len(),
{
    if answers.len() > 0 {
        let earlier = answers.drop_last();
        assert forall|i: int| 0 <= i < earlier.len() implies !healthy(#[trigger] earlier[i]) by {
            assert(earlier[i] == answers[i]);
        }
        health_checks_are_repeated(port, kernel, earlier);
        assert(!healthy(answers[answers.len() - 1]));
    }
}

/// The kernel is served on the loopback address, on its own port.
pub proof fn the_address_names_the_port(port: u16)
    ensures
        service_address(port) == "http://127.0.0.1:"@ + text::decimal(port as nat) + "/"@,
{
}

/// A health check passes with an answer from 200 to 299 and with nothing else.
/// It makes a kernel that was not stopped ready on the port that was checked, and
/// the window is pointed at that port; process and version stay.
pub proof fn a_success_makes_the_kernel_ready(kernel: KernelState, port: u16, failed: u32, code: u16)
    requires
        200 <= code <= 299,
    ensures
        ({
            let (next, after, action) = launch(
                LaunchStage::Probing { port, failed },
                kernel,
                LaunchEvent::Probed(Some(code)),
            );
            if kernel.phase == Phase::Stopped {
                &&& action is Kill
                &&& next is Withdrawing
                &&& after == kernel
            } else {
                &&& action == (LaunchAction::Serve {
                    url: "http://127.0.0.1:"@ + text::decimal(port as nat) + "/"@,
                })
                &&& next is Serving
                &&& after.phase == Phase::Ready
                &&& after.port == Some(port)
                &&& after.error is None
                &&& after.pid == kernel.pid
                &&& after.version == kernel.version
                &&& after.app_version == kernel.app_version
            }
        }),
{
}

/// An answer outside 200 to 299, or none, is one more failed health check: the
/// kernel stays as it is, and a pause follows.
pub proof fn any_other_answer_is_a_failure(
    kernel: KernelState,
    port: u16,
    failed: u32,
    answer: Option<u16>,
)
    requires
        failed < 8,
        answer matches Some(code) ==> code < 200 || code > 299,
    ensures
        ({
            let (next, after, action) = launch(
                LaunchStage::Probing { port, failed },
                kernel,
                LaunchEvent::Probed(answer),
            );
            &&& action is Pause
            &&& next is Pausing
            &&& next->Pausing_port == port
            &&& next->Pausing_failed == failed + 1
            &&& after == kernel
        }),
{
}

/// A step makes the kernel ready, or serves it, only if it is a health check that
/// was answered with a code from 200 to 299.
pub proof fn only_a_success_makes_the_kernel_ready(
    stage: LaunchStage<Seq<char>>,
    kernel: KernelState,
    event: LaunchEvent<Seq<char>>,
)
    requires
        launch(stage, kernel, event).2 is Serve || launch(stage, kernel, event).0 is Serving && !(
        stage is Serving) || (launch(stage, kernel, event).1.phase == Phase::Ready && kernel.phase
            != Phase::Ready) || launch(stage, kernel, event).1.port != kernel.port,
    ensures
        stage is Probing,
        event matches LaunchEvent::Probed(Some(code)) && 200 <= code <= 299,
{
}

/// After the pause the kernel is asked again on the same port, until eight health
/// checks have failed; then the child is killed, and the run fails with the
/// address that did not answer.
pub proof fn eight_failures_end_the_run(kernel: KernelState, later: KernelState, port: u16, failed: u32)
    ensures
        ({
            let url = "http://127.0.0.1:"@ + text::decimal(port as nat) + "/"@;
            let (next, after, action) = launch(
                LaunchStage::Pausing { port, failed },
                kernel,
                LaunchEvent::Paused,
            );
            &&& after == kernel
            &&& failed < 8 ==> {
                &&& action == (LaunchAction::Probe { url })
                &&& next == (LaunchStage::<Seq<char>>::Probing { port, failed })
            }
            &&& failed >= 8 ==> {
                &&& action is Kill
                &&& launch(next, later, LaunchEvent::Killed) == (
                    LaunchStage::<Seq<char>>::Over,
                    later,
                    LaunchAction::Finish(Err("dsh 健康检查失败："@ + url)),
                )
            }
        }),
{
}

/// Before it is spawned, the kernel needs its resources, the runtime and the
/// entry script, in this order; the first that is missing fails the run, with its
/// path, and leaves the kernel as it is. A stopped kernel is not spawned.
pub proof fn a_run_needs_runtime_and_script(
    kernel: KernelState,
    message: Seq<char>,
    path: Seq<char>,
)
    ensures
        launch(LaunchStage::FindingResources, kernel, LaunchEvent::ResourcesFound(Ok(()))) == (
            LaunchStage::<Seq<char>>::ProbingNode,
            kernel,
            LaunchAction::<Seq<char>>::ProbeNode,
        ),
        launch(LaunchStage::FindingResources, kernel, LaunchEvent::ResourcesFound(Err(message))) == (
            LaunchStage::<Seq<char>>::Over,
            kernel,
            LaunchAction::Finish(Err(message)),
        ),
        launch(LaunchStage::ProbingNode, kernel, LaunchEvent::NodeProbed { found: true, path }) == (
            LaunchStage::<Seq<char>>::ProbingEntry,
            kernel,
            LaunchAction::<Seq<char>>::ProbeEntry,
        ),
        launch(LaunchStage::ProbingNode, kernel, LaunchEvent::NodeProbed { found: false, path }) == (
            LaunchStage::<Seq<char>>::Over,
            kernel,
            LaunchAction::Finish(Err("node runtime missing: "@ + path)),
        ),
        launch(LaunchStage::ProbingEntry, kernel, LaunchEvent::EntryProbed { found: false, path })
            == (
            LaunchStage::<Seq<char>>::Over,
            kernel,
            LaunchAction::Finish(Err("dsh entry missing: "@ + path)),
        ),
        launch(LaunchStage::ProbingEntry, kernel, LaunchEvent::EntryProbed { found: true, path })
            == (if kernel.phase == Phase::Stopped {
            (LaunchStage::<Seq<char>>::Over, kernel, LaunchAction::<Seq<char>>::Finish(Ok(())))
        } else {
            (LaunchStage::<Seq<char>>::Spawning, kernel, LaunchAction::<Seq<char>>::Spawn)
        }),
{
}

/// The process that was spawned is the one that a stop will end: it is recorded
/// whatever the kernel's state, and it is killed at once if the kernel was stopped
/// meanwhile. A failed spawn fails the run.
pub proof fn a_spawned_process_is_recorded(kernel: KernelState, pid: u32, message: Seq<char>)
    ensures
        ({
            let (next, after, action) = launch(
                LaunchStage::Spawning,
                kernel,
                LaunchEvent::Spawned(Ok(pid)),
            );
            &&& after == (KernelState {
                phase: kernel.phase,
                port: kernel.port,
                error: kernel.error,
                version: kernel.version,
                pid: Some(pid),
                app_version: kernel.app_version,
            })
            &&& kernel.phase == Phase::Stopped ==> action is Kill && next is Withdrawing
            &&& kernel.phase != Phase::Stopped ==> action is OpenLog && next is OpeningLog
        }),
        launch(LaunchStage::Spawning, kernel, LaunchEvent::Spawned(Err(message))) == (
            LaunchStage::<Seq<char>>::Over,
            kernel,
            LaunchAction::Finish(Err("spawn node failed: "@ + message)),
        ),
{
}

/// Between the spawn and the first health check the log is opened, the port is
/// awaited and the client is built. The kernel that is then checked is the one on
/// the reported port; if none is reported in time, the child is killed and the
/// run fails with that reason; the other failures end the run with their message.
pub proof fn the_reported_port_is_checked(
    kernel: KernelState,
    later: KernelState,
    port: u16,
    message: Seq<char>,
)
    ensures
        launch(LaunchStage::OpeningLog, kernel, LaunchEvent::LogOpened(Ok(()))) == (
            LaunchStage::<Seq<char>>::AwaitingPort,
            kernel,
            LaunchAction::<Seq<char>>::AwaitPort,
        ),
        launch(LaunchStage::OpeningLog, kernel, LaunchEvent::LogOpened(Err(message))) == (
            LaunchStage::<Seq<char>>::Over,
            kernel,
            LaunchAction::Finish(Err(message)),
        ),
        ({
            let (building, same, build) = launch(
                LaunchStage::AwaitingPort,
                kernel,
                LaunchEvent::PortReported(Some(port)),
            );
            &&& same == kernel
            &&& build is BuildClient
            &&& launch(building, later, LaunchEvent::ClientBuilt(Ok(()))) == (
                LaunchStage::<Seq<char>>::Probing { port, failed: 0 },
                later,
                LaunchAction::Probe {
                    url: "http://127.0.0.1:"@ + text::decimal(port as nat) + "/"@,
                },
            )
            &&& launch(building, later, LaunchEvent::ClientBuilt(Err(message))) == (
                LaunchStage::<Seq<char>>::Over,
                later,
                LaunchAction::Finish(Err(message)),
            )
        }),
        ({
            let (condemned, same, kill) = launch(
                LaunchStage::AwaitingPort,
                kernel,
                LaunchEvent::PortReported(None),
            );
            &&& same == kernel
            &&& kill is Kill
            &&& launch(condemned, later, LaunchEvent::Killed) == (
                LaunchStage::<Seq<char>>::Over,
                later,
                LaunchAction::Finish(Err("dsh 未在 90 秒内输出就绪信号"@)),
            )
        }),
{
}

/// A kernel that was served, and one that was withdrawn, ends its run without an
/// error and without a change to the kernel's state; a condemned one ends it with
/// the reason.
pub proof fn a_run_ends_as_it_has_to(kernel: KernelState, reason: Seq<char>)
    ensures
        launch(LaunchStage::Serving, kernel, LaunchEvent::Exited) == (
            LaunchStage::<Seq<char>>::Over,
            kernel,
            LaunchAction::<Seq<char>>::Finish(Ok(())),
        ),
        launch(LaunchStage::Withdrawing, kernel, LaunchEvent::Killed) == (
            LaunchStage::<Seq<char>>::Over,
            kernel,
            LaunchAction::<Seq<char>>::Finish(Ok(())),
        ),
        launch(LaunchStage::Condemned { reason }, kernel, LaunchEvent::Killed) == (
            LaunchStage::<Seq<char>>::Over,
            kernel,
            LaunchAction::Finish(Err(reason)),
        ),
        HEALTH_RETRIES == 8,
{
}

/// An event that does not belong to the current stage changes nothing.
pub proof fn a_stray_event_is_ignored(
    stage: LaunchStage<Seq<char>>,
    kernel: KernelState,
    event: LaunchEvent<Seq<char>>,
)
    requires
        !(stage is FindingResources && event is ResourcesFound),
        !(stage is ProbingNode && event is NodeProbed),
        !(stage is ProbingEntry && event is EntryProbed),
        !(stage is Spawning && event is Spawned),
        !(stage is OpeningLog && event is LogOpened),
        !(stage is AwaitingPort && event is PortReported),
        !(stage is BuildingClient && event is ClientBuilt),
        !(stage is Probing && event is Probed),
        !(stage is Pausing && event is Paused),
        !(stage is Condemned && event is Killed),
        !(stage is Withdrawing && event is Killed),
        !(stage is Serving && event is Exited),
    ensures
        launch(stage, kernel, event) == (stage, kernel, LaunchAction::<Seq<char>>::Ignore),
{
}

/// A kernel has 90 seconds to report its port, and each of its health checks five
/// seconds, with 600 milliseconds between two of them.
pub proof fn a_starting_kernel_gets_its_time()
    ensures
        READY_TIMEOUT_SECS == 90,
        HEALTH_TIMEOUT_SECS == 5,
        HEALTH_INTERVAL_MILLIS == 600,
        ENTRY_PATH@ == "node_modules/@deepseek-ai/dsh/lib/bin.js"@,
{
}

} // verus!
