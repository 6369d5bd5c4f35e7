//! The shared state of the kernel and its public face.

use vstd::prelude::*;

use crate::supervisor::Supervisor;
use crate::text;
use crate::update::UpdateJob;

verus! {

/// Where the kernel is in its life.
#[derive(Clone, Copy, PartialEq, Eq, Structural, Debug)]
pub enum Phase {
    Idle,
    Installing,
    Starting,
    Ready,
    Restarting,
    Error,
    Stopped,
}

impl Phase {
    /// The name under which the user interface knows the phase.
    pub open spec fn name(self) -> Seq<char> {
        match self {
            Phase::Idle => "idle"@,
            Phase::Installing => "installing"@,
            Phase::Starting => "starting"@,
            Phase::Ready => "ready"@,
            Phase::Restarting => "restarting"@,
            Phase::Error => "error"@,
            Phase::Stopped => "stopped"@,
        }
    }

    pub fn as_str(self) -> (r: &'static str)
        ensures
            r@ == self.name(),
    {
        match self {
            Phase::Idle => "idle",
            Phase::Installing => "installing",
            Phase::Starting => "starting",
            Phase::Ready => "ready",
            Phase::Restarting => "restarting",
            Phase::Error => "error",
            Phase::Stopped => "stopped",
        }
    }
}

/// No two phases share a name, and none is called "dev", the name that a
/// development build shows in place of "idle".
pub proof fn phase_names_are_distinct(a: Phase, b: Phase)
    ensures
        a.name() == b.name() ==> a == b,
        a.name() != "dev"@,
{
    reveal_strlit("idle");
    reveal_strlit("installing");
    reveal_strlit("starting");
    reveal_strlit("ready");
    reveal_strlit("restarting");
    reveal_strlit("error");
    reveal_strlit("stopped");
    reveal_strlit("dev");
    assert(a.name()[0] == b.name()[0] && a.name().len() == b.name().len() ==> a == b);
    assert(a.name().len() > 3);
}

/// What the user interface is told of the kernel.
#[derive(Clone, Debug)]
pub struct KernelStatus {
    pub phase: String,
    pub port: Option<u16>,
    pub error: Option<String>,
    pub version: String,
    pub app_version: String,
}

/// The mathematical state behind a [`KernelManager`].
pub struct KernelState {
    pub phase: Phase,
    pub port: Option<u16>,
    pub error: Option<Seq<char>>,
    pub version: Seq<char>,
    pub pid: Option<u32>,
    pub app_version: Seq<char>,
}

impl KernelState {
    /// A starting kernel has neither port nor error, a ready one a port and no
    /// error, a stopped one no port; a kernel that failed, or is about to be
    /// restarted, has an error.
    pub open spec fn consistent(self) -> bool {
        &&& self.phase == Phase::Starting ==> self.port is None && self.error is None
        &&& self.phase == Phase::Ready ==> self.port is Some && self.error is None
        &&& self.phase == Phase::Stopped ==> self.port is None
        &&& self.phase == Phase::Restarting || self.phase == Phase::Error ==> self.error is Some
    }

    /// The state with which every attempt to run the kernel begins.
    pub open spec fn starting(self) -> KernelState {
        KernelState { phase: Phase::Starting, port: None, pid: None, error: None, ..self }
    }

    pub open spec fn ready(self, port: u16) -> KernelState {
        KernelState { phase: Phase::Ready, port: Some(port), error: None, ..self }
    }

    pub open spec fn restarting(self, message: Seq<char>) -> KernelState {
        KernelState { phase: Phase::Restarting, error: Some(message), ..self }
    }

    pub open spec fn failed(self, message: Seq<char>) -> KernelState {
        KernelState { phase: Phase::Error, error: Some(message), ..self }
    }

    pub open spec fn stopped(self) -> KernelState {
        KernelState { phase: Phase::Stopped, port: None, ..self }
    }

    /// The state from which a stopped kernel is started afresh.
    pub open spec fn retried(self) -> KernelState {
        KernelState { phase: Phase::Idle, error: None, ..self }
    }

    /// The state with which a supervised life begins.
    pub open spec fn installing(self) -> KernelState {
        KernelState { phase: Phase::Installing, ..self }
    }
}

/// Stopping, retrying and starting relaunches the kernel from scratch: whatever
/// it was doing before, nothing is left of its port and its error, and the
/// version stays.
pub proof fn a_retry_starts_from_scratch(kernel: KernelState)
    ensures
        kernel.stopped().retried().installing() == (KernelState {
            phase: Phase::Installing,
            port: None,
            error: None,
            ..kernel
        }),
{
}

/// Each phase is shown under its own name.
pub proof fn phases_are_shown_by_name()
    ensures
        Phase::Idle.name() == "idle"@,
        Phase::Installing.name() == "installing"@,
        Phase::Starting.name() == "starting"@,
        Phase::Ready.name() == "ready"@,
        Phase::Restarting.name() == "restarting"@,
        Phase::Error.name() == "error"@,
        Phase::Stopped.name() == "stopped"@,
{
}

/// What happens to the kernel changes what it is about and nothing else: an
/// attempt begins without port, process and error; health gives a port and
/// clears the error; a crash and a final failure leave their message and keep
/// port, process and version; a stop takes the port away and keeps the process,
/// which is still to be ended; a retry clears the error.
pub proof fn each_change_is_confined(kernel: KernelState, port: u16, message: Seq<char>)
    ensures
        kernel.starting() == (KernelState {
            phase: Phase::Starting,
            port: None,
            error: None,
            version: kernel.version,
            pid: None,
            app_version: kernel.app_version,
        }),
        kernel.ready(port) == (KernelState {
            phase: Phase::Ready,
            port: Some(port),
            error: None,
            version: kernel.version,
            pid: kernel.pid,
            app_version: kernel.app_version,
        }),
        kernel.restarting(message) == (KernelState {
            phase: Phase::Restarting,
            port: kernel.port,
            error: Some(message),
            version: kernel.version,
            pid: kernel.pid,
            app_version: kernel.app_version,
        }),
        kernel.failed(message) == (KernelState {
            phase: Phase::Error,
            port: kernel.port,
            error: Some(message),
            version: kernel.version,
            pid: kernel.pid,
            app_version: kernel.app_version,
        }),
        kernel.stopped() == (KernelState {
            phase: Phase::Stopped,
            port: None,
            error: kernel.error,
            version: kernel.version,
            pid: kernel.pid,
            app_version: kernel.app_version,
        }),
        kernel.retried() == (KernelState {
            phase: Phase::Idle,
            port: kernel.port,
            error: None,
            version: kernel.version,
            pid: kernel.pid,
            app_version: kernel.app_version,
        }),
        kernel.installing() == (KernelState {
            phase: Phase::Installing,
            port: kernel.port,
            error: kernel.error,
            version: kernel.version,
            pid: kernel.pid,
            app_version: kernel.app_version,
        }),
{
}

struct Inner {
    phase: Phase,
    port: Option<u16>,
    error: Option<String>,
    version: String,
    pid: Option<u32>,
}

/// The kernel as the rest of the client sees it. Callers that share it between
/// threads guard it with a lock; each method is one critical section.
pub struct KernelManager {
    inner: Inner,
    app_version: String,
}

impl View for KernelManager {
    type V = KernelState;

    closed spec fn view(&self) -> KernelState {
        KernelState {
            phase: self.inner.phase,
            port: self.inner.port,
            error: text::optional_text(self.inner.error),
            version: self.inner.version@,
            pid: self.inner.pid,
            app_version: self.app_version@,
        }
    }
}

impl KernelManager {
    pub open spec fn wf(&self) -> bool {
        self@.consistent()
    }

    /// A manager that has not started anything yet. `kernel_version` is the
    /// version bundled with the build, `app_version` that of the client.
    pub fn new(kernel_version: &str, app_version: &str) -> (r: Self)
        ensures
            r.wf(),
            r@ == (KernelState {
                phase: Phase::Idle,
                port: None,
                error: None,
                version: kernel_version@,
                pid: None,
                app_version: app_version@,
            }),
    {
        KernelManager {
            inner: Inner {
                phase: Phase::Idle,
                port: None,
                error: None,
                version: kernel_version.to_string(),
                pid: None,
            },
            app_version: app_version.to_string(),
        }
    }

    /// A snapshot for the user interface.
    pub fn status(&self) -> (r: KernelStatus)
        requires
            self.wf(),
        ensures
            r.phase@ == self@.phase.name(),
            r.port == self@.port,
            text::optional_text(r.error) == self@.error,
            r.version@ == self@.version,
            r.app_version@ == self@.app_version,
            r.phase@ == "starting"@ ==> r.port is None && r.error is None,
            r.phase@ == "ready"@ ==> r.port is Some && r.error is None,
            r.phase@ == "stopped"@ ==> r.port is None,
            r.phase@ == "restarting"@ || r.phase@ == "error"@ ==> r.error is Some,
    {
        proof {
            phase_names_are_distinct(self@.phase, Phase::Starting);
            phase_names_are_distinct(self@.phase, Phase::Ready);
            phase_names_are_distinct(self@.phase, Phase::Stopped);
            phase_names_are_distinct(self@.phase, Phase::Restarting);
            phase_names_are_distinct(self@.phase, Phase::Error);
        }
        KernelStatus {
            phase: self.inner.phase.as_str().to_string(),
            port: self.inner.port,
            error: text::copy_optional(&self.inner.error),
            version: self.inner.version.clone(),
            app_version: self.app_version.clone(),
        }
    }

    /// Begins a supervised life of the kernel; its first step is to install
    /// the kernel.
    pub fn start(&mut self) -> (r: Supervisor)
        requires
            old(self).wf(),
        ensures
            final(self).wf(),
            final(self)@ == old(self)@.installing(),
            r.wf(),
            r@ == crate::supervisor::fresh(),
    {
        self.inner.phase = Phase::Installing;
        Supervisor::new()
    }

    /// Marks the kernel stopped and names the process whose group is to be
    /// terminated.
    pub fn stop(&mut self) -> (r: Option<u32>)
        requires
            old(self).wf(),
        ensures
            final(self).wf(),
            final(self)@ == old(self)@.stopped(),
            r == old(self)@.pid,
    {
        self.inner.phase = Phase::Stopped;
        self.inner.port = None;
        self.inner.pid
    }

    /// Clears the way for a fresh start, once [`KernelManager::stop`] was called
    /// and the process group is gone.
    pub fn retry(&mut self)
        requires
            old(self).wf(),
        ensures
            final(self).wf(),
            final(self)@ == old(self)@.retried(),
    {
        self.inner.phase = Phase::Idle;
        self.inner.error = None;
    }

    /// Begins an online update from the version that is in use now.
    pub fn check_kernel_update(&self) -> (r: UpdateJob)
        ensures
            r.wf(),
            r@ == crate::update::fresh(self@.version),
    {
        UpdateJob::new(self.inner.version.as_str())
    }

    pub(crate) fn set_version(&mut self, version: &str)
        ensures
            final(self)@ == (KernelState { version: version@, ..old(self)@ }),
    {
        self.inner.version = version.to_string();
    }

    pub(crate) fn set_pid(&mut self, pid: u32)
        ensures
            final(self)@ == (KernelState { pid: Some(pid), ..old(self)@ }),
    {
        self.inner.pid = Some(pid);
    }

    pub(crate) fn is_stopped(&self) -> (r: bool)
        ensures
            r == (self@.phase == Phase::Stopped),
    {
        self.inner.phase == Phase::Stopped
    }

    pub(crate) fn mark_starting(&mut self)
        ensures
            final(self)@ == old(self)@.starting(),
    {
        self.inner.phase = Phase::Starting;
        self.inner.port = None;
        self.inner.pid = None;
        self.inner.error = None;
    }

    pub(crate) fn mark_ready(&mut self, port: u16)
        ensures
            final(self)@ == old(self)@.ready(port),
    {
        self.inner.phase = Phase::Ready;
        self.inner.port = Some(port);
        self.inner.error = None;
    }

    pub(crate) fn mark_restarting(&mut self, message: String)
        ensures
            final(self)@ == old(self)@.restarting(message@),
    {
        self.inner.phase = Phase::Restarting;
        self.inner.error = Some(message);
    }

    pub(crate) fn mark_failed(&mut self, message: String)
        ensures
            final(self)@ == old(self)@.failed(message@),
    {
        self.inner.phase = Phase::Error;
        self.inner.error = Some(message);
    }
}

} // verus!
