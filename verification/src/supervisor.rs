//! The supervision loop: install the kernel once, then run it, and run it
//! again when it dies, a limited number of times.
//!
//! Events and actions are generic in their text type: the running program uses
//! `String`, the specifications use `Seq<char>`.

use vstd::prelude::*;

use crate::manager::{KernelManager, KernelState, Phase};
use crate::text;

verus! {

/// How often a kernel that ended unasked is restarted.
pub const MAX_RESTARTS: u32 = 3;

/// Pause between a failed attempt and the next one.
pub const RESTART_DELAY_SECS: u64 = 2;

/// Reported when the kernel process ended although nobody asked it to.
pub const UNEXPECTED_EXIT: &'static str = "dsh 进程意外退出";

/// Stands in front of the last message once the supervisor has given up.
pub const GAVE_UP: &'static str = "dsh 多次启动失败：";

#[derive(Clone, Copy, PartialEq, Eq, Structural, Debug)]
pub enum Stage {
    /// The kernel is being installed.
    Installing,
    /// An attempt to run the kernel is under way.
    Running,
    /// Waiting before the next attempt.
    Resting,
    /// The loop has ended.
    Over,
}

/// What happened since the last action.
#[derive(PartialEq, Eq, Debug)]
pub enum SuperviseEvent<T> {
    /// The installation ended: the version that is in place, or why there is
    /// none.
    Installed(Result<T, T>),
    /// An attempt to run the kernel ended.
    AttemptEnded(Result<(), T>),
    /// The pause between two attempts is over.
    Rested,
}

/// What is to be done next.
#[derive(PartialEq, Eq, Debug)]
pub enum SuperviseAction<T> {
    /// Run the kernel once.
    Launch,
    /// Announce the status, then wait for [`RESTART_DELAY_SECS`].
    Rest,
    /// Leave the loop with `result`, after announcing the status if
    /// `announce` says so.
    Exit { announce: bool, result: Result<(), T> },
    /// Nothing: the event did not belong to the current stage.
    Ignore,
}

impl SuperviseEvent<String> {
    pub open spec fn view(self) -> SuperviseEvent<Seq<char>> {
        match self {
            SuperviseEvent::Installed(r) => SuperviseEvent::Installed(text::reply_text(r)),
            SuperviseEvent::AttemptEnded(r) => SuperviseEvent::AttemptEnded(text::outcome_text(r)),
            SuperviseEvent::Rested => SuperviseEvent::Rested,
        }
    }
}

impl SuperviseAction<String> {
    pub open spec fn view(self) -> SuperviseAction<Seq<char>> {
        match self {
            SuperviseAction::Launch => SuperviseAction::Launch,
            SuperviseAction::Rest => SuperviseAction::Rest,
            SuperviseAction::Exit { announce, result } => SuperviseAction::Exit {
                announce,
                result: text::outcome_text(result),
            },
            SuperviseAction::Ignore => SuperviseAction::Ignore,
        }
    }
}

/// The mathematical state of a [`Supervisor`].
pub struct SupervisorState {
    pub stage: Stage,
    pub crashes: nat,
}

/// A supervisor that waits for the installation.
pub open spec fn fresh() -> SupervisorState {
    SupervisorState { stage: Stage::Installing, crashes: 0 }
}

/// The message that an ended attempt leaves behind.
pub open spec fn attempt_message(outcome: Result<(), Seq<char>>) -> Seq<char> {
    match outcome {
        Ok(_) => UNEXPECTED_EXIT@,
        Err(message) => message,
    }
}

/// What a step of the loop does: the next state, the kernel's state, the action.
pub type Step = (SupervisorState, KernelState, SuperviseAction<Seq<char>>);

/// The loop ends because the kernel was stopped.
pub open spec fn leave(s: SupervisorState, kernel: KernelState) -> Step {
    (
        SupervisorState { stage: Stage::Over, ..s },
        kernel,
        SuperviseAction::Exit { announce: false, result: Ok(()) },
    )
}

/// One step of the supervision loop.
pub open spec fn supervise(
    s: SupervisorState,
    kernel: KernelState,
    event: SuperviseEvent<Seq<char>>,
) -> Step {
    match (s.stage, event) {
        (Stage::Installing, SuperviseEvent::Installed(Ok(version))) => if kernel.phase
            == Phase::Stopped {
            leave(s, kernel)
        } else {
            (
                SupervisorState { stage: Stage::Running, ..s },
                KernelState { version, ..kernel }.starting(),
                SuperviseAction::Launch,
            )
        },
        (Stage::Installing, SuperviseEvent::Installed(Err(message))) => (
            SupervisorState { stage: Stage::Over, ..s },
            kernel,
            SuperviseAction::Exit { announce: false, result: Err(message) },
        ),
        (Stage::Running, SuperviseEvent::AttemptEnded(outcome)) => {
            let message = attempt_message(outcome);
            if kernel.phase == Phase::Stopped {
                leave(s, kernel)
            } else if s.crashes >= MAX_RESTARTS {
                (
                    SupervisorState { stage: Stage::Over, crashes: s.crashes + 1 },
                    kernel.failed(GAVE_UP@ + message),
                    SuperviseAction::Exit { announce: true, result: Err(message) },
                )
            } else {
                (
                    SupervisorState { stage: Stage::Resting, crashes: s.crashes + 1 },
                    kernel.restarting(message),
                    SuperviseAction::Rest,
                )
            }
        },
        (Stage::Resting, SuperviseEvent::Rested) => if kernel.phase == Phase::Stopped {
            leave(s, kernel)
        } else {
            (
                SupervisorState { stage: Stage::Running, ..s },
                kernel.starting(),
                SuperviseAction::Launch,
            )
        },
        _ => (s, kernel, SuperviseAction::Ignore),
    }
}

/// One run of the supervision loop.
pub struct Supervisor {
    stage: Stage,
    crashes: u32,
}

impl View for Supervisor {
    type V = SupervisorState;

    closed spec fn view(&self) -> SupervisorState {
        SupervisorState { stage: self.stage, crashes: self.crashes as nat }
    }
}

impl Supervisor {
    /// The crash count stays within the limit while the loop goes on.
    pub open spec fn wf(&self) -> bool {
        self@.stage != Stage::Over ==> self@.crashes <= MAX_RESTARTS
    }

    pub(crate) fn new() -> (r: Self)
        ensures
            r.wf(),
            r@ == fresh(),
    {
        Supervisor { stage: Stage::Installing, crashes: 0 }
    }

    fn leave(&mut self) -> (r: SuperviseAction<String>)
        ensures
            final(self)@ == (SupervisorState { stage: Stage::Over, ..old(self)@ }),
            r == (SuperviseAction::<String>::Exit { announce: false, result: Ok(()) }),
    {
        self.stage = Stage::Over;
        SuperviseAction::Exit { announce: false, result: Ok(()) }
    }

    /// Takes in what happened and says what to do next.
    pub fn advance(&mut self, kernel: &mut KernelManager, event: SuperviseEvent<String>) -> (r:
        SuperviseAction<String>)
        requires
            old(self).wf(),
            old(kernel).wf(),
        ensures
            final(self).wf(),
            final(kernel).wf(),
            (final(self)@, final(kernel)@, r@) == supervise(old(self)@, old(kernel)@, event@),
    {
        match (self.stage, event) {
            (Stage::Installing, SuperviseEvent::Installed(Ok(version))) => {
                if kernel.is_stopped() {
                    return self.leave();
                }
                self.stage = Stage::Running;
                kernel.set_version(version.as_str());
                kernel.mark_starting();
                SuperviseAction::Launch
            },
            (Stage::Installing, SuperviseEvent::Installed(Err(message))) => {
                self.stage = Stage::Over;
                SuperviseAction::Exit { announce: false, result: Err(message) }
            },
            (Stage::Running, SuperviseEvent::AttemptEnded(outcome)) => {
                if kernel.is_stopped() {
                    return self.leave();
                }
                let exhausted: bool = self.crashes >= MAX_RESTARTS;
                self.crashes = self.crashes + 1;
                let message = match outcome {
                    Ok(_) => UNEXPECTED_EXIT.to_string(),
                    Err(message) => message,
                };
                if exhausted {
                    self.stage = Stage::Over;
                    kernel.mark_failed(text::join2(GAVE_UP, message.as_str()));
                    SuperviseAction::Exit { announce: true, result: Err(message) }
                } else {
                    self.stage = Stage::Resting;
                    kernel.mark_restarting(message);
                    SuperviseAction::Rest
                }
            },
            (Stage::Resting, SuperviseEvent::Rested) => {
                if kernel.is_stopped() {
                    return self.leave();
                }
                self.stage = Stage::Running;
                kernel.mark_starting();
                SuperviseAction::Launch
            },
            _ => SuperviseAction::Ignore,
        }
    }
}

/// What reaches a supervisor at one step: the kernel as it then is, whatever
/// other threads did to it, and the event.
pub struct Input {
    pub kernel: KernelState,
    pub event: SuperviseEvent<Seq<char>>,
}

/// How often the kernel is launched while `inputs` come in.
pub open spec fn launches(s: SupervisorState, inputs: Seq<Input>) -> nat
    decreases inputs.len(),
{
    if inputs.len() == 0 {
        0
    } else {
        let (next, _, action) = supervise(s, inputs.first().kernel, inputs.first().event);
        (if action is Launch { 1nat } else { 0nat }) + launches(next, inputs.drop_first())
    }
}

/// How often the kernel is restarted after a crash while `inputs` come in.
pub open spec fn restarts(s: SupervisorState, inputs: Seq<Input>) -> nat
    decreases inputs.len(),
{
    if inputs.len() == 0 {
        0
    } else {
        let (next, _, action) = supervise(s, inputs.first().kernel, inputs.first().event);
        (if action is Launch && s.stage == Stage::Resting { 1nat } else { 0nat }) + restarts(
            next,
            inputs.drop_first(),
        )
    }
}

/// Launches that a supervisor in state `s` can still make.
spec fn launches_left(s: SupervisorState) -> int {
    match s.stage {
        Stage::Installing => MAX_RESTARTS + 1 - s.crashes,
        Stage::Running => MAX_RESTARTS - s.crashes,
        Stage::Resting => MAX_RESTARTS + 1 - s.crashes,
        Stage::Over => 0,
    }
}

proof fn lemma_launches_bounded(s: SupervisorState, inputs: Seq<Input>)
    requires
        s.stage != Stage::Over ==> s.crashes <= MAX_RESTARTS,
    ensures
        launches(s, inputs) <= launches_left(s),
        restarts(s, inputs) <= launches(s, inputs),
        s.stage == Stage::Installing ==> restarts(s, inputs) <= launches_left(s) - 1,
    decreases inputs.len(),
{
    if inputs.len() > 0 {
        let (next, _, _) = supervise(s, inputs.first().kernel, inputs.first().event);
        lemma_launches_bounded(next, inputs.drop_first());
    }
}

/// A crashing kernel is restarted at most [`MAX_RESTARTS`] times: whatever
/// happens, one life of the supervisor launches it that often and once more.
pub proof fn restarts_are_bounded(inputs: Seq<Input>)
    ensures
        launches(fresh(), inputs) <= MAX_RESTARTS + 1,
        restarts(fresh(), inputs) <= MAX_RESTARTS,
{
    lemma_launches_bounded(fresh(), inputs);
}

/// What a supervisor takes in when the kernel is installed and then crashes
/// again and again, as `crashes` say, with a pause after each crash during which
/// nobody stops it.
pub open spec fn crash_course(version: Seq<char>, idle: KernelState, crashes: Seq<Input>) -> Seq<
    Input,
>
    decreases crashes.len(),
{
    if crashes.len() == 0 {
        seq![Input { kernel: idle, event: SuperviseEvent::Installed(Ok(version)) }]
    } else {
        crash_course(version, idle, crashes.drop_last()).push(crashes.last()).push(
            Input { kernel: idle, event: SuperviseEvent::Rested },
        )
    }
}

/// The state that is reached from `s` when `inputs` have come in.
pub open spec fn after(s: SupervisorState, inputs: Seq<Input>) -> SupervisorState
    decreases inputs.len(),
{
    if inputs.len() == 0 {
        s
    } else {
        after(
            supervise(s, inputs.first().kernel, inputs.first().event).0,
            inputs.drop_first(),
        )
    }
}

proof fn lemma_one_more(s: SupervisorState, inputs: Seq<Input>, input: Input)
    ensures
        ({
            let before = after(s, inputs);
            let (next, _, action) = supervise(before, input.kernel, input.event);
            &&& after(s, inputs.push(input)) == next
            &&& launches(s, inputs.push(input)) == launches(s, inputs) + (if action is Launch {
                1nat
            } else {
                0nat
            })
            &&& restarts(s, inputs.push(input)) == restarts(s, inputs) + (if action is Launch
                && before.stage == Stage::Resting {
                1nat
            } else {
                0nat
            })
        }),
    decreases inputs.len(),
{
    reveal_with_fuel(after, 2);
    reveal_with_fuel(launches, 2);
    reveal_with_fuel(restarts, 2);
    let all = inputs.push(input);
    if inputs.len() == 0 {
        assert(all.drop_first() =~= Seq::empty());
    } else {
        let (next, _, _) = supervise(s, inputs.first().kernel, inputs.first().event);
        lemma_one_more(next, inputs.drop_first(), input);
        assert(all.drop_first() =~= inputs.drop_first().push(input));
        assert(all.first() == inputs.first());
    }
}

proof fn lemma_crash_course(version: Seq<char>, idle: KernelState, crashes: Seq<Input>)
    requires
        idle.phase != Phase::Stopped,
        crashes.len() <= MAX_RESTARTS,
        forall|i: int|
            0 <= i < crashes.len() ==> (#[trigger] crashes[i]).event is AttemptEnded
                && crashes[i].kernel.phase != Phase::Stopped,
    ensures
        ({
            let inputs = crash_course(version, idle, crashes);
            &&& after(fresh(), inputs) == (SupervisorState {
                stage: Stage::Running,
                crashes: crashes.len(),
            })
            &&& launches(fresh(), inputs) == crashes.len() + 1
            &&& restarts(fresh(), inputs) == crashes.len()
        }),
    decreases crashes.len(),
{
    reveal_with_fuel(after, 2);
    reveal_with_fuel(launches, 2);
    reveal_with_fuel(restarts, 2);
    let none = Seq::<Input>::empty();
    if crashes.len() == 0 {
        let installed = Input { kernel: idle, event: SuperviseEvent::Installed(Ok(version)) };
        assert(seq![installed] =~= none.push(installed));
        lemma_one_more(fresh(), none, installed);
    } else {
        let earlier = crashes.drop_last();
        assert forall|i: int| 0 <= i < earlier.len() implies (#[trigger] earlier[i]).event is AttemptEnded
            && earlier[i].kernel.phase != Phase::Stopped by {
            assert(earlier[i] == crashes[i]);
        }
        lemma_crash_course(version, idle, earlier);
        let inputs = crash_course(version, idle, earlier);
        let last = crashes[crashes.len() - 1];
        let rested = Input { kernel: idle, event: SuperviseEvent::Rested };
        lemma_one_more(fresh(), inputs, last);
        lemma_one_more(fresh(), inputs.push(last), rested);
    }
}

/// The bound is met: a kernel that always crashes and that nobody stops is
/// restarted exactly [`MAX_RESTARTS`] times, and when it then crashes once more,
/// the failure is announced with the last message.
pub proof fn a_hopeless_kernel_fails(
    version: Seq<char>,
    idle: KernelState,
    crashes: Seq<Input>,
    last: Input,
)
    requires
        idle.phase != Phase::Stopped,
        crashes.len() == MAX_RESTARTS,
        forall|i: int|
            0 <= i < crashes.len() ==> (#[trigger] crashes[i]).event is AttemptEnded
                && crashes[i].kernel.phase != Phase::Stopped,
        last.event is AttemptEnded,
        last.kernel.phase != Phase::Stopped,
    ensures
        ({
            let inputs = crash_course(version, idle, crashes);
            let message = attempt_message(last.event->AttemptEnded_0);
            let (over, kernel, action) = supervise(
                after(fresh(), inputs),
                last.kernel,
                last.event,
            );
            &&& launches(fresh(), inputs) == MAX_RESTARTS + 1
            &&& restarts(fresh(), inputs) == MAX_RESTARTS
            &&& over.stage == Stage::Over
            &&& kernel == last.kernel.failed(GAVE_UP@ + message)
            &&& action == SuperviseAction::<Seq<char>>::Exit { announce: true, result: Err(message) }
        }),
{
    lemma_crash_course(version, idle, crashes);
}

/// A crash below the limit is answered with a restart: the message is shown
/// while the supervisor rests, and the next attempt starts from a clean state,
/// unless the kernel is stopped meanwhile.
pub proof fn a_crash_is_followed_by_a_restart(
    s: SupervisorState,
    kernel: KernelState,
    outcome: Result<(), Seq<char>>,
    later: KernelState,
)
    requires
        s.stage == Stage::Running,
        s.crashes < MAX_RESTARTS,
        kernel.phase != Phase::Stopped,
        later.phase != Phase::Stopped,
    ensures
        ({
            let (resting, crashed, rest) = supervise(s, kernel, SuperviseEvent::AttemptEnded(outcome));
            let (running, started, launch) = supervise(resting, later, SuperviseEvent::Rested);
            &&& rest is Rest
            &&& crashed.phase == Phase::Restarting
            &&& crashed.error == Some(attempt_message(outcome))
            &&& launch is Launch
            &&& running.stage == Stage::Running
            &&& started == later.starting()
        }),
{
}

/// A stopped kernel stays stopped: whenever it was stopped, and whatever happens
/// then, the supervisor leaves the kernel as it is and does not launch it.
pub proof fn a_stopped_kernel_stays_down(
    s: SupervisorState,
    kernel: KernelState,
    event: SuperviseEvent<Seq<char>>,
)
    requires
        kernel.phase == Phase::Stopped,
    ensures
        supervise(s, kernel, event).1 == kernel,
        !(supervise(s, kernel, event).2 is Launch),
        !(supervise(s, kernel, event).2 is Rest),
{
}

/// The loop ends without an error as soon as it sees that the kernel was
/// stopped: when the installation is done, when an attempt ends, or when the
/// pause between two attempts is over.
pub proof fn a_stop_ends_the_loop(
    s: SupervisorState,
    kernel: KernelState,
    event: SuperviseEvent<Seq<char>>,
)
    requires
        kernel.phase == Phase::Stopped,
        ({
            ||| s.stage == Stage::Installing && event matches SuperviseEvent::Installed(Ok(_))
            ||| s.stage == Stage::Running && event is AttemptEnded
            ||| s.stage == Stage::Resting && event is Rested
        }),
    ensures
        supervise(s, kernel, event) == leave(s, kernel),
{
}

/// Nothing wakes a supervisor that has left its loop.
pub proof fn an_ended_loop_stays_ended(
    s: SupervisorState,
    kernel: KernelState,
    event: SuperviseEvent<Seq<char>>,
)
    requires
        s.stage == Stage::Over,
    ensures
        supervise(s, kernel, event) == (s, kernel, SuperviseAction::<Seq<char>>::Ignore),
{
}

/// The installed version is the one that is run: when the installation ends with
/// a version and the kernel was not stopped, the kernel has exactly that version,
/// whatever it had before, and is launched from a clean state.
pub proof fn the_installed_version_is_launched(
    s: SupervisorState,
    kernel: KernelState,
    version: Seq<char>,
)
    requires
        s.stage == Stage::Installing,
        kernel.phase != Phase::Stopped,
    ensures
        ({
            let (next, after, action) = supervise(
                s,
                kernel,
                SuperviseEvent::Installed(Ok(version)),
            );
            &&& action is Launch
            &&& next.stage == Stage::Running
            &&& next.crashes == s.crashes
            &&& after.version == version
            &&& after.phase == Phase::Starting
            &&& after.port is None
            &&& after.pid is None
            &&& after.error is None
            &&& after.app_version == kernel.app_version
        }),
{
}

/// A failed installation ends the loop with its message, in silence, and leaves
/// the kernel as it is.
pub proof fn a_failed_installation_is_final(
    s: SupervisorState,
    kernel: KernelState,
    message: Seq<char>,
)
    requires
        s.stage == Stage::Installing,
    ensures
        ({
            let (next, after, action) = supervise(
                s,
                kernel,
                SuperviseEvent::Installed(Err(message)),
            );
            &&& action == SuperviseAction::<Seq<char>>::Exit { announce: false, result: Err(message) }
            &&& next.stage == Stage::Over
            &&& after == kernel
        }),
{
}

/// Every attempt that ends unasked counts as one crash, whether it ended with an
/// error or quietly. Up to the third crash its message is shown and the loop
/// rests; after that the loop ends, and the failure is announced. Port, process
/// and version stay as they were.
pub proof fn every_crash_counts(s: SupervisorState, kernel: KernelState, outcome: Result<(), Seq<char>>)
    requires
        s.stage == Stage::Running,
        kernel.phase != Phase::Stopped,
    ensures
        ({
            let (next, after, action) = supervise(s, kernel, SuperviseEvent::AttemptEnded(outcome));
            let message = match outcome {
                Ok(_) => "dsh 进程意外退出"@,
                Err(message) => message,
            };
            &&& next.crashes == s.crashes + 1
            &&& after.port == kernel.port
            &&& after.pid == kernel.pid
            &&& after.version == kernel.version
            &&& after.app_version == kernel.app_version
            &&& s.crashes < 3 ==> {
                &&& action is Rest
                &&& next.stage == Stage::Resting
                &&& after.phase == Phase::Restarting
                &&& after.error == Some(message)
            }
            &&& s.crashes >= 3 ==> {
                &&& action == SuperviseAction::<Seq<char>>::Exit {
                    announce: true,
                    result: Err(message),
                }
                &&& next.stage == Stage::Over
                &&& after.phase == Phase::Error
                &&& after.error == Some("dsh 多次启动失败："@ + message)
            }
        }),
{
}

/// After the pause the same version is launched again, from a clean state.
pub proof fn the_same_version_is_launched_again(s: SupervisorState, kernel: KernelState)
    requires
        s.stage == Stage::Resting,
        kernel.phase != Phase::Stopped,
    ensures
        ({
            let (next, after, action) = supervise(s, kernel, SuperviseEvent::Rested);
            &&& action is Launch
            &&& next.stage == Stage::Running
            &&& next.crashes == s.crashes
            &&& after.version == kernel.version
            &&& after.phase == Phase::Starting
            &&& after.port is None
            &&& after.pid is None
            &&& after.error is None
            &&& after.app_version == kernel.app_version
        }),
{
}

/// Once the kernel is stopped, the event that ends the current stage ends the
/// loop: in silence, without an error, and without a change to the kernel.
pub proof fn a_stop_is_obeyed_in_silence(
    s: SupervisorState,
    kernel: KernelState,
    version: Seq<char>,
    outcome: Result<(), Seq<char>>,
)
    requires
        kernel.phase == Phase::Stopped,
    ensures
        ({
            let exit = SuperviseAction::<Seq<char>>::Exit { announce: false, result: Ok(()) };
            let over = SupervisorState { stage: Stage::Over, crashes: s.crashes };
            &&& s.stage == Stage::Installing ==> supervise(
                s,
                kernel,
                SuperviseEvent::Installed(Ok(version)),
            ) == (over, kernel, exit)
            &&& s.stage == Stage::Running ==> supervise(
                s,
                kernel,
                SuperviseEvent::AttemptEnded(outcome),
            ) == (over, kernel, exit)
            &&& s.stage == Stage::Resting ==> supervise(s, kernel, SuperviseEvent::Rested) == (
                over,
                kernel,
                exit,
            )
        }),
{
}

/// An event that does not belong to the current stage changes nothing.
pub proof fn a_stray_event_is_ignored(
    s: SupervisorState,
    kernel: KernelState,
    event: SuperviseEvent<Seq<char>>,
)
    requires
        !(s.stage == Stage::Installing && event is Installed),
        !(s.stage == Stage::Running && event is AttemptEnded),
        !(s.stage == Stage::Resting && event is Rested),
    ensures
        supervise(s, kernel, event) == (s, kernel, SuperviseAction::<Seq<char>>::Ignore),
{
}

/// A supervised life begins with the installation and without a crash; three
/// restarts are all there are, two seconds after the crash each.
pub proof fn a_life_begins_with_the_installation()
    ensures
        fresh().stage == Stage::Installing,
        fresh().crashes == 0,
        MAX_RESTARTS == 3,
        RESTART_DELAY_SECS == 2,
{
}

/// An update starts from the version that runs: while the installed version is
/// being run, nothing that the supervisor does changes the version, so that an
/// update that is begun then compares the registry's answer with it.
pub proof fn an_update_starts_from_what_runs(
    s: SupervisorState,
    kernel: KernelState,
    version: Seq<char>,
    event: SuperviseEvent<Seq<char>>,
)
    ensures
        s.stage == Stage::Installing && kernel.phase != Phase::Stopped ==> crate::update::fresh(
            supervise(s, kernel, SuperviseEvent::Installed(Ok(version))).1.version,
        ).current == version,
        s.stage != Stage::Installing ==> supervise(s, kernel, event).1.version == kernel.version,
{
}

} // verus!
