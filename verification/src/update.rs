//! The online update of the kernel: ask the registry for the latest version,
//! download its archive, deploy it, and start the kernel afresh.
//!
//! Stages, events and actions are generic in their text type: the running
//! program uses `String`, the specifications use `Seq<char>`.

use vstd::prelude::*;

use crate::deploy;
use crate::deploy::{DeployProgress, DeployStep};
use crate::http;
use crate::manager::{KernelManager, KernelState};
use crate::registry;
use crate::text;
use crate::version;

verus! {

pub const UP_TO_DATE: &'static str = "已是最新内核 dsh v";

pub const DOWNLOADING: &'static str = "正在下载 dsh v";

pub const ELLIPSIS: &'static str = "…";

pub const DOWNLOAD_FAILED: &'static str = "下载内核包失败：";

pub const BUILD_HINT: &'static str = "（内核包需先在发布渠道构建）";

pub const NOT_PUBLISHED: &'static str = "内核包尚未发布（HTTP ";

pub const CLOSING: &'static str = "）";

pub const UPDATED: &'static str = "内核已更新为 dsh v";

/// Stands in front of the error when a downloaded archive cannot be unpacked.
pub const UNPACK_FAILED: &'static str = "解压内核失败：";

/// How an update ended, for the user interface.
#[derive(Clone, Debug)]
pub struct KernelUpdateResult {
    pub ok: bool,
    pub version: String,
    pub message: String,
    pub restarting: bool,
}

/// The mathematical content of a [`KernelUpdateResult`].
pub struct UpdateReport {
    pub ok: bool,
    pub version: Seq<char>,
    pub message: Seq<char>,
    pub restarting: bool,
}

impl View for KernelUpdateResult {
    type V = UpdateReport;

    open spec fn view(&self) -> UpdateReport {
        UpdateReport {
            ok: self.ok,
            version: self.version@,
            message: self.message@,
            restarting: self.restarting,
        }
    }
}

impl KernelUpdateResult {
    /// A success that leaves `version` in use.
    pub fn ok(version: &str, message: String, restarting: bool) -> (r: Self)
        ensures
            r@ == success(version@, message@, restarting),
    {
        KernelUpdateResult { ok: true, version: version.to_string(), message, restarting }
    }

    /// A failure that leaves `version` in use.
    pub fn fail(version: &str, message: &str) -> (r: Self)
        ensures
            r@ == failure(version@, message@),
    {
        KernelUpdateResult {
            ok: false,
            version: version.to_string(),
            message: message.to_string(),
            restarting: false,
        }
    }
}

pub open spec fn success(version: Seq<char>, message: Seq<char>, restarting: bool) -> UpdateReport {
    UpdateReport { ok: true, version, message, restarting }
}

pub open spec fn failure(version: Seq<char>, message: Seq<char>) -> UpdateReport {
    UpdateReport { ok: false, version, message, restarting: false }
}

/// The file, in the directory of all versions, to which the archive of `version`
/// is downloaded.
pub open spec fn download_of(version: Seq<char>) -> Seq<char> {
    "kernel-"@ + version + ".tar.gz.tmp"@
}

/// The file, in the directory of all versions, to which the archive of `version`
/// is downloaded.
pub fn download_name(version: &str) -> (r: String)
    ensures
        r@ == download_of(version@),
{
    text::join3("kernel-", version, ".tar.gz.tmp")
}

/// The message when the release channel answered with the status `status`.
pub fn not_published(status: &str) -> (r: String)
    ensures
        r@ == NOT_PUBLISHED@ + status@ + CLOSING@,
{
    text::join3(NOT_PUBLISHED, status, CLOSING)
}

#[derive(PartialEq, Eq, Debug)]
pub enum UpdateStage<T> {
    Querying,
    Locating,
    Connecting,
    Fetching,
    Saving,
    Deploying(DeployStep),
    /// The new version is in place; the downloaded archive is being removed.
    DroppingArchive,
    /// The deployment failed for `reason`; its staging directory is being
    /// removed.
    CleaningUp { reason: T },
    /// The kernel is being started afresh.
    Relaunching,
    Over,
}

/// What happened since the last action.
#[derive(PartialEq, Eq, Debug)]
pub enum UpdateEvent<T> {
    /// The registry's latest version, or why it is not known.
    LatestKnown(Result<T, T>),
    /// The application's data directory was looked up.
    DataLocated(Result<(), T>),
    /// The client for the download was built.
    ClientBuilt(Result<(), T>),
    /// The release channel answered with this status, or not at all.
    Answered(Result<u16, T>),
    /// The archive was received and saved.
    Saved(Result<(), T>),
    /// The outcome of a step of the deployment.
    Deployed(Result<bool, T>),
    /// The downloaded archive was removed, if that was possible.
    ArchiveDropped,
    /// The staging directory was removed, if that was possible.
    CleanedUp,
    /// The kernel was started afresh.
    Relaunched,
}

/// What is to be done next.
#[derive(PartialEq, Eq, Debug)]
pub enum UpdateAction<T, R> {
    LocateData,
    /// Build a client with a timeout of [`http::HTTP_TIMEOUT_SECS`].
    BuildClient,
    /// Announce `progress`, then ask for `url`.
    Fetch { url: T, progress: T },
    /// Receive the archive and save it as `file`.
    Save { file: T },
    /// Perform a step of deploying `version` from the downloaded archive.
    Deploy { version: T, step: DeployStep },
    /// Remove `file`; it does not matter whether that succeeds.
    DropArchive { file: T },
    /// Remove the directory `staging`; it does not matter whether that succeeds.
    CleanUp { staging: T },
    /// Stop the kernel and start it afresh.
    Relaunch,
    /// The update is over.
    Report(R),
    /// Nothing: the event did not belong to the current stage.
    Ignore,
}

impl UpdateStage<String> {
    pub open spec fn view(self) -> UpdateStage<Seq<char>> {
        match self {
            UpdateStage::Querying => UpdateStage::Querying,
            UpdateStage::Locating => UpdateStage::Locating,
            UpdateStage::Connecting => UpdateStage::Connecting,
            UpdateStage::Fetching => UpdateStage::Fetching,
            UpdateStage::Saving => UpdateStage::Saving,
            UpdateStage::Deploying(step) => UpdateStage::Deploying(step),
            UpdateStage::DroppingArchive => UpdateStage::DroppingArchive,
            UpdateStage::CleaningUp { reason } => UpdateStage::CleaningUp { reason: reason@ },
            UpdateStage::Relaunching => UpdateStage::Relaunching,
            UpdateStage::Over => UpdateStage::Over,
        }
    }
}

impl UpdateEvent<String> {
    pub open spec fn view(self) -> UpdateEvent<Seq<char>> {
        match self {
            UpdateEvent::LatestKnown(r) => UpdateEvent::LatestKnown(text::reply_text(r)),
            UpdateEvent::DataLocated(r) => UpdateEvent::DataLocated(text::outcome_text(r)),
            UpdateEvent::ClientBuilt(r) => UpdateEvent::ClientBuilt(text::outcome_text(r)),
            UpdateEvent::Answered(r) => UpdateEvent::Answered(text::outcome_text(r)),
            UpdateEvent::Saved(r) => UpdateEvent::Saved(text::outcome_text(r)),
            UpdateEvent::Deployed(r) => UpdateEvent::Deployed(text::outcome_text(r)),
            UpdateEvent::ArchiveDropped => UpdateEvent::ArchiveDropped,
            UpdateEvent::CleanedUp => UpdateEvent::CleanedUp,
            UpdateEvent::Relaunched => UpdateEvent::Relaunched,
        }
    }
}

impl UpdateAction<String, KernelUpdateResult> {
    pub open spec fn view(self) -> UpdateAction<Seq<char>, UpdateReport> {
        match self {
            UpdateAction::LocateData => UpdateAction::LocateData,
            UpdateAction::BuildClient => UpdateAction::BuildClient,
            UpdateAction::Fetch { url, progress } => UpdateAction::Fetch {
                url: url@,
                progress: progress@,
            },
            UpdateAction::Save { file } => UpdateAction::Save { file: file@ },
            UpdateAction::Deploy { version, step } => UpdateAction::Deploy { version: version@, step },
            UpdateAction::DropArchive { file } => UpdateAction::DropArchive { file: file@ },
            UpdateAction::CleanUp { staging } => UpdateAction::CleanUp { staging: staging@ },
            UpdateAction::Relaunch => UpdateAction::Relaunch,
            UpdateAction::Report(report) => UpdateAction::Report(report@),
            UpdateAction::Ignore => UpdateAction::Ignore,
        }
    }
}

/// The mathematical state of an [`UpdateJob`]: the version in use when the
/// update began, the latest one (once it is known), and the stage.
pub struct UpdateState {
    pub current: Seq<char>,
    pub latest: Seq<char>,
    pub stage: UpdateStage<Seq<char>>,
}

impl UpdateState {
    /// An update that is under way leads to a version that is due.
    pub open spec fn ok(self) -> bool {
        self.stage is Querying || self.stage is Over || version::is_due(self.latest, self.current)
    }
}

/// What a step of an update does: the next state, the kernel's state, the action.
pub type Step = (UpdateState, KernelState, UpdateAction<Seq<char>, UpdateReport>);

/// An update that waits for the registry.
pub open spec fn fresh(current: Seq<char>) -> UpdateState {
    UpdateState { current, latest: Seq::empty(), stage: UpdateStage::Querying }
}

pub open spec fn enter(
    s: UpdateState,
    kernel: KernelState,
    stage: UpdateStage<Seq<char>>,
    action: UpdateAction<Seq<char>, UpdateReport>,
) -> Step {
    (UpdateState { stage, ..s }, kernel, action)
}

/// The update ends with `report`.
pub open spec fn end(s: UpdateState, kernel: KernelState, report: UpdateReport) -> Step {
    enter(s, kernel, UpdateStage::Over, UpdateAction::Report(report))
}

/// The update fails; the old version stays in use.
pub open spec fn give_up(s: UpdateState, kernel: KernelState, message: Seq<char>) -> Step {
    end(s, kernel, failure(s.current, message))
}

/// What follows the progress of a deployment.
pub open spec fn deploying(
    s: UpdateState,
    kernel: KernelState,
    progress: DeployProgress<Seq<char>>,
) -> Step {
    match progress {
        DeployProgress::Next(step) => enter(
            s,
            kernel,
            UpdateStage::Deploying(step),
            UpdateAction::Deploy { version: s.latest, step },
        ),
        DeployProgress::Complete => enter(
            s,
            kernel,
            UpdateStage::DroppingArchive,
            UpdateAction::DropArchive { file: download_of(s.latest) },
        ),
        DeployProgress::Failed(reason) => enter(
            s,
            kernel,
            UpdateStage::CleaningUp { reason },
            UpdateAction::CleanUp { staging: deploy::staging_of(s.latest) },
        ),
    }
}

/// One step of an update.
pub open spec fn update(s: UpdateState, kernel: KernelState, event: UpdateEvent<Seq<char>>) -> Step {
    match (s.stage, event) {
        (UpdateStage::Querying, UpdateEvent::LatestKnown(r)) => match r {
            Err(message) => give_up(s, kernel, message),
            Ok(latest) => if version::is_due(latest, s.current) {
                enter(
                    UpdateState { latest, ..s },
                    kernel,
                    UpdateStage::Locating,
                    UpdateAction::LocateData,
                )
            } else {
                end(s, kernel, success(s.current, UP_TO_DATE@ + s.current, false))
            },
        },
        (UpdateStage::Locating, UpdateEvent::DataLocated(r)) => match r {
            Err(message) => give_up(s, kernel, message),
            Ok(_) => enter(s, kernel, UpdateStage::Connecting, UpdateAction::BuildClient),
        },
        (UpdateStage::Connecting, UpdateEvent::ClientBuilt(r)) => match r {
            Err(message) => give_up(s, kernel, message),
            Ok(_) => enter(
                s,
                kernel,
                UpdateStage::Fetching,
                UpdateAction::Fetch {
                    url: registry::archive_address(s.latest),
                    progress: DOWNLOADING@ + s.latest + ELLIPSIS@,
                },
            ),
        },
        (UpdateStage::Fetching, UpdateEvent::Answered(r)) => match r {
            Err(message) => give_up(s, kernel, DOWNLOAD_FAILED@ + message + BUILD_HINT@),
            Ok(code) => if http::succeeded(code) {
                enter(
                    s,
                    kernel,
                    UpdateStage::Saving,
                    UpdateAction::Save { file: download_of(s.latest) },
                )
            } else {
                give_up(s, kernel, NOT_PUBLISHED@ + http::status_line(code) + CLOSING@)
            },
        },
        (UpdateStage::Saving, UpdateEvent::Saved(r)) => match r {
            Err(message) => give_up(s, kernel, message),
            Ok(_) => deploying(s, kernel, DeployProgress::Next(DeployStep::ProbeStaging)),
        },
        (UpdateStage::Deploying(step), UpdateEvent::Deployed(outcome)) => deploying(
            s,
            kernel,
            deploy::deploy(step, outcome, UNPACK_FAILED@),
        ),
        (UpdateStage::CleaningUp { reason }, UpdateEvent::CleanedUp) => give_up(s, kernel, reason),
        (UpdateStage::DroppingArchive, UpdateEvent::ArchiveDropped) => enter(
            s,
            KernelState { version: s.latest, ..kernel },
            UpdateStage::Relaunching,
            UpdateAction::Relaunch,
        ),
        (UpdateStage::Relaunching, UpdateEvent::Relaunched) => end(
            s,
            kernel,
            success(s.latest, UPDATED@ + s.latest, true),
        ),
        _ => (s, kernel, UpdateAction::Ignore),
    }
}

/// One online update. It begins by asking the registry.
pub struct UpdateJob {
    current: String,
    latest: String,
    stage: UpdateStage<String>,
}

impl View for UpdateJob {
    type V = UpdateState;

    closed spec fn view(&self) -> UpdateState {
        UpdateState { current: self.current@, latest: self.latest@, stage: self.stage@ }
    }
}

impl UpdateJob {
    pub open spec fn wf(&self) -> bool {
        self@.ok()
    }

    pub(crate) fn new(current: &str) -> (r: Self)
        ensures
            r.wf(),
            r@ == fresh(current@),
    {
        UpdateJob {
            current: current.to_string(),
            latest: String::new(),
            stage: UpdateStage::Querying,
        }
    }

    fn enter(
        &mut self,
        stage: UpdateStage<String>,
        action: UpdateAction<String, KernelUpdateResult>,
    ) -> (r: UpdateAction<String, KernelUpdateResult>)
        ensures
            final(self)@ == (UpdateState { stage: stage@, ..old(self)@ }),
            r == action,
    {
        self.stage = stage;
        action
    }

    fn give_up(&mut self, message: &str) -> (r: UpdateAction<String, KernelUpdateResult>)
        ensures
            final(self)@ == (UpdateState { stage: UpdateStage::Over, ..old(self)@ }),
            r@ == UpdateAction::<Seq<char>, UpdateReport>::Report(
                failure(old(self)@.current, message@),
            ),
    {
        let report = KernelUpdateResult::fail(self.current.as_str(), message);
        self.enter(UpdateStage::Over, UpdateAction::Report(report))
    }

    fn deploying(&mut self, progress: DeployProgress<String>) -> (r: UpdateAction<
        String,
        KernelUpdateResult,
    >)
        ensures
            final(self)@.current == old(self)@.current,
            final(self)@.latest == old(self)@.latest,
            forall|kernel: KernelState|
                (final(self)@, kernel, r@) == #[trigger] deploying(old(self)@, kernel, progress@),
    {
        match progress {
            DeployProgress::Next(step) => {
                let version = self.latest.clone();
                self.enter(UpdateStage::Deploying(step), UpdateAction::Deploy { version, step })
            },
            DeployProgress::Complete => {
                let file = download_name(self.latest.as_str());
                self.enter(UpdateStage::DroppingArchive, UpdateAction::DropArchive { file })
            },
            DeployProgress::Failed(reason) => {
                let staging = deploy::staging_name(self.latest.as_str());
                self.enter(UpdateStage::CleaningUp { reason }, UpdateAction::CleanUp { staging })
            },
        }
    }

    /// Takes in what happened and says what to do next.
    pub fn advance(&mut self, kernel: &mut KernelManager, event: UpdateEvent<String>) -> (r:
        UpdateAction<String, KernelUpdateResult>)
        requires
            old(self).wf(),
            old(kernel).wf(),
            event matches UpdateEvent::Answered(Ok(code)) ==> http::is_status(code),
        ensures
            final(self).wf(),
            final(kernel).wf(),
            (final(self)@, final(kernel)@, r@) == update(old(self)@, old(kernel)@, event@),
    {
        match event {
            UpdateEvent::LatestKnown(r) => match &self.stage {
                UpdateStage::Querying => match r {
                    Err(message) => self.give_up(message.as_str()),
                    Ok(latest) => if version::update_due(latest.as_str(), self.current.as_str()) {
                        self.latest = latest;
                        self.enter(UpdateStage::Locating, UpdateAction::LocateData)
                    } else {
                        let report = KernelUpdateResult::ok(
                            self.current.as_str(),
                            text::join2(UP_TO_DATE, self.current.as_str()),
                            false,
                        );
                        self.enter(UpdateStage::Over, UpdateAction::Report(report))
                    },
                },
                _ => UpdateAction::Ignore,
            },
            UpdateEvent::DataLocated(r) => match &self.stage {
                UpdateStage::Locating => match r {
                    Err(message) => self.give_up(message.as_str()),
                    Ok(_) => self.enter(UpdateStage::Connecting, UpdateAction::BuildClient),
                },
                _ => UpdateAction::Ignore,
            },
            UpdateEvent::ClientBuilt(r) => match &self.stage {
                UpdateStage::Connecting => match r {
                    Err(message) => self.give_up(message.as_str()),
                    Ok(_) => {
                        let url = registry::archive_url(self.latest.as_str());
                        let progress = text::join3(DOWNLOADING, self.latest.as_str(), ELLIPSIS);
                        self.enter(UpdateStage::Fetching, UpdateAction::Fetch { url, progress })
                    },
                },
                _ => UpdateAction::Ignore,
            },
            UpdateEvent::Answered(r) => match &self.stage {
                UpdateStage::Fetching => match r {
                    Err(message) => {
                        let message = text::join3(DOWNLOAD_FAILED, message.as_str(), BUILD_HINT);
                        self.give_up(message.as_str())
                    },
                    Ok(code) => if http::is_success(code) {
                        let file = download_name(self.latest.as_str());
                        self.enter(UpdateStage::Saving, UpdateAction::Save { file })
                    } else {
                        let message = not_published(http::status_text(code).as_str());
                        self.give_up(message.as_str())
                    },
                },
                _ => UpdateAction::Ignore,
            },
            UpdateEvent::Saved(r) => match &self.stage {
                UpdateStage::Saving => match r {
                    Err(message) => self.give_up(message.as_str()),
                    Ok(_) => self.deploying(DeployProgress::Next(DeployStep::ProbeStaging)),
                },
                _ => UpdateAction::Ignore,
            },
            UpdateEvent::Deployed(outcome) => match &self.stage {
                UpdateStage::Deploying(step) => {
                    let progress = deploy::deploy_next(*step, outcome, UNPACK_FAILED);
                    self.deploying(progress)
                },
                _ => UpdateAction::Ignore,
            },
            UpdateEvent::CleanedUp => match &self.stage {
                UpdateStage::CleaningUp { reason } => {
                    let reason = reason.clone();
                    self.give_up(reason.as_str())
                },
                _ => UpdateAction::Ignore,
            },
            UpdateEvent::ArchiveDropped => match &self.stage {
                UpdateStage::DroppingArchive => {
                    kernel.set_version(self.latest.as_str());
                    self.enter(UpdateStage::Relaunching, UpdateAction::Relaunch)
                },
                _ => UpdateAction::Ignore,
            },
            UpdateEvent::Relaunched => match &self.stage {
                UpdateStage::Relaunching => {
                    let report = KernelUpdateResult::ok(
                        self.latest.as_str(),
                        text::join2(UPDATED, self.latest.as_str()),
                        true,
                    );
                    self.enter(UpdateStage::Over, UpdateAction::Report(report))
                },
                _ => UpdateAction::Ignore,
            },
        }
    }
}

/// What reaches an update at one step: the kernel as it then is, and the event.
pub struct UpdateInput {
    pub kernel: KernelState,
    pub event: UpdateEvent<Seq<char>>,
}

/// How often the kernel is started afresh while `inputs` come in.
pub open spec fn relaunches(s: UpdateState, inputs: Seq<UpdateInput>) -> nat
    decreases inputs.len(),
{
    if inputs.len() == 0 {
        0
    } else {
        let (next, _, action) = update(s, inputs.first().kernel, inputs.first().event);
        (if action is Relaunch { 1nat } else { 0nat }) + relaunches(next, inputs.drop_first())
    }
}

/// The reports that are made while `inputs` come in.
pub open spec fn reports(s: UpdateState, inputs: Seq<UpdateInput>) -> Seq<UpdateReport>
    decreases inputs.len(),
{
    if inputs.len() == 0 {
        Seq::empty()
    } else {
        let (next, _, action) = update(s, inputs.first().kernel, inputs.first().event);
        (match action {
            UpdateAction::Report(report) => seq![report],
            _ => Seq::empty(),
        }) + reports(next, inputs.drop_first())
    }
}

/// The state that is reached from `s` when `inputs` have come in.
pub open spec fn after(s: UpdateState, inputs: Seq<UpdateInput>) -> UpdateState
    decreases inputs.len(),
{
    if inputs.len() == 0 {
        s
    } else {
        after(update(s, inputs.first().kernel, inputs.first().event).0, inputs.drop_first())
    }
}

proof fn lemma_reports(s: UpdateState, inputs: Seq<UpdateInput>)
    requires
        s.ok(),
    ensures
        reports(s, inputs).len() <= 1,
        relaunches(s, inputs) <= 1,
        s.stage is Over ==> reports(s, inputs).len() == 0 && relaunches(s, inputs) == 0,
        s.stage is Relaunching ==> relaunches(s, inputs) == 0,
        !(s.stage is Over) ==> (after(s, inputs).stage is Over <==> reports(s, inputs).len() == 1),
        reports(s, inputs).len() == 1 ==> {
            let report = reports(s, inputs)[0];
            &&& s.stage is Relaunching ==> report.ok && report.restarting
            &&& !(s.stage is Relaunching) ==> (report.restarting <==> relaunches(s, inputs) == 1)
            &&& report.restarting ==> report.ok
            &&& report.restarting ==> version::is_due(report.version, s.current)
            &&& !report.restarting ==> report.version == s.current
        },
    decreases inputs.len(),
{
    if inputs.len() > 0 {
        let (next, _, action) = update(s, inputs.first().kernel, inputs.first().event);
        lemma_reports(next, inputs.drop_first());
        let later = reports(next, inputs.drop_first());
        if action is Report {
            assert(later =~= Seq::empty());
            assert(reports(s, inputs)[0] == action->Report_0);
            lemma_over_stays_over(next, inputs.drop_first());
        } else {
            assert(reports(s, inputs) =~= later);
        }
    }
}

proof fn lemma_over_stays_over(s: UpdateState, inputs: Seq<UpdateInput>)
    requires
        s.stage is Over,
    ensures
        after(s, inputs).stage is Over,
    decreases inputs.len(),
{
    if inputs.len() > 0 {
        lemma_over_stays_over(
            update(s, inputs.first().kernel, inputs.first().event).0,
            inputs.drop_first(),
        );
    }
}

/// The report tells the truth about the kernel: an update starts the kernel
/// afresh at most once, and makes exactly one report when it ends and none
/// before; the report says that the kernel restarts exactly if it did, and then
/// names another version, which is newer if it is one that can be ordered; a
/// failure, like an update that was not needed, names the version that was in use
/// all along.
pub proof fn the_report_is_true(current: Seq<char>, inputs: Seq<UpdateInput>)
    ensures
        relaunches(fresh(current), inputs) <= 1,
        reports(fresh(current), inputs).len() == (if after(fresh(current), inputs).stage is Over {
            1nat
        } else {
            0nat
        }),
        reports(fresh(current), inputs).len() == 1 ==> {
            let report = reports(fresh(current), inputs)[0];
            &&& report.restarting <==> relaunches(fresh(current), inputs) == 1
            &&& report.restarting ==> report.ok
            &&& report.restarting ==> report.version != current
            &&& report.restarting && version::version_in(report.version) is Some
                ==> version::is_newer(report.version, current)
            &&& !report.restarting ==> report.version == current
        },
{
    lemma_reports(fresh(current), inputs);
    version::no_version_replaces_itself(current);
}

/// An update changes nothing in the kernel's state but the version, and that
/// only when it is about to start the kernel afresh.
pub proof fn the_version_changes_with_the_relaunch(
    s: UpdateState,
    kernel: KernelState,
    event: UpdateEvent<Seq<char>>,
)
    ensures
        ({
            let (_, after, action) = update(s, kernel, event);
            &&& action is Relaunch ==> after == (KernelState { version: s.latest, ..kernel })
            &&& !(action is Relaunch) ==> after == kernel
        }),
{
}

/// The kernel is started afresh only once the new version is deployed and
/// pinned: the step that ends the deployment is the writing of the pin.
pub proof fn a_relaunch_follows_the_pin(
    s: UpdateState,
    kernel: KernelState,
    event: UpdateEvent<Seq<char>>,
)
    ensures
        update(s, kernel, event).2 is Relaunch ==> s.stage is DroppingArchive,
        update(s, kernel, event).0.stage is DroppingArchive && !(s.stage is DroppingArchive) ==> {
            &&& s.stage == UpdateStage::<Seq<char>>::Deploying(DeployStep::Pin)
            &&& event matches UpdateEvent::Deployed(Ok(_))
        },
{
}

/// Only a newer version is downloaded: when the registry's latest version is the
/// one in use or an older one, the update ends at once, and the version in use
/// stays.
pub proof fn only_a_newer_version_is_installed(
    current: Seq<char>,
    latest: Seq<char>,
    kernel: KernelState,
)
    requires
        version::version_in(latest) is Some,
        !version::is_newer(latest, current),
    ensures
        update(fresh(current), kernel, UpdateEvent::LatestKnown(Ok(latest))) == end(
            fresh(current),
            kernel,
            success(current, UP_TO_DATE@ + current, false),
        ),
{
}

/// What is due is fetched: a newer version, and also text that is no version and
/// differs from the one in use.
pub proof fn what_is_due_is_fetched(current: Seq<char>, latest: Seq<char>, kernel: KernelState)
    requires
        version::is_newer(latest, current) || (version::version_in(latest) is None && latest
            != current),
    ensures
        update(fresh(current), kernel, UpdateEvent::LatestKnown(Ok(latest))) == enter(
            UpdateState { latest, ..fresh(current) },
            kernel,
            UpdateStage::Locating,
            UpdateAction::LocateData,
        ),
{
}

/// What is in use already is not downloaded.
pub proof fn the_latest_version_is_left_alone(current: Seq<char>, kernel: KernelState)
    ensures
        update(fresh(current), kernel, UpdateEvent::LatestKnown(Ok(current))) == end(
            fresh(current),
            kernel,
            success(current, UP_TO_DATE@ + current, false),
        ),
{
    version::no_version_replaces_itself(current);
}

/// The state that is reached from `s` when the steps of the deployment have
/// `outcomes`.
pub open spec fn after_outcomes(
    s: UpdateState,
    kernel: KernelState,
    outcomes: Seq<Result<bool, Seq<char>>>,
) -> UpdateState
    decreases outcomes.len(),
{
    if outcomes.len() == 0 {
        s
    } else {
        let before = after_outcomes(s, kernel, outcomes.drop_last());
        update(before, kernel, UpdateEvent::Deployed(outcomes.last())).0
    }
}

proof fn lemma_after_outcomes(
    s: UpdateState,
    kernel: KernelState,
    outcomes: Seq<Result<bool, Seq<char>>>,
)
    requires
        s.stage == UpdateStage::<Seq<char>>::Deploying(DeployStep::ProbeStaging),
    ensures
        after_outcomes(s, kernel, outcomes) == (UpdateState {
            stage: match deploy::progress_after(outcomes, UNPACK_FAILED@) {
                DeployProgress::Next(step) => UpdateStage::Deploying(step),
                DeployProgress::Complete => UpdateStage::DroppingArchive,
                DeployProgress::Failed(reason) => UpdateStage::CleaningUp { reason },
            },
            ..s
        }),
    decreases outcomes.len(),
{
    if outcomes.len() > 0 {
        lemma_after_outcomes(s, kernel, outcomes.drop_last());
    }
}

/// A failed update falls back on the old version: if anything goes wrong while
/// the new one is deployed, the failure is reported for the old version, whose
/// directory was not touched (unless it bears the name of the new version's
/// staging directory), and the pin is as it was.
pub proof fn a_failed_update_keeps_the_old_version(
    s: UpdateState,
    kernel: KernelState,
    stores: Seq<deploy::Store>,
    outcomes: Seq<Result<bool, Seq<char>>>,
)
    requires
        s.ok(),
        s.stage == UpdateStage::<Seq<char>>::Deploying(DeployStep::ProbeStaging),
        deploy::deployment(s.latest, UNPACK_FAILED@, stores, outcomes),
        after_outcomes(s, kernel, outcomes).stage is CleaningUp,
        s.current != deploy::staging_of(s.latest),
    ensures
        ({
            let failed = after_outcomes(s, kernel, outcomes);
            &&& update(failed, kernel, UpdateEvent::CleanedUp) == give_up(
                failed,
                kernel,
                failed.stage->reason,
            )
            &&& failed.current == s.current
            &&& deploy::agree_on(stores.first(), stores.last(), s.current)
            &&& stores.last().pin == stores.first().pin
        }),
{
    lemma_after_outcomes(s, kernel, outcomes);
    version::no_version_replaces_itself(s.current);
    deploy::other_versions_are_untouched(s.latest, UNPACK_FAILED@, stores, outcomes, s.current);
    deploy::a_failed_deployment_keeps_the_pin(s.latest, UNPACK_FAILED@, stores, outcomes);
}

/// A successful update leaves the new version wholly in place and pinned, and no
/// staging directory, before the kernel is started afresh.
pub proof fn an_update_is_in_place_before_the_relaunch(
    s: UpdateState,
    kernel: KernelState,
    stores: Seq<deploy::Store>,
    outcomes: Seq<Result<bool, Seq<char>>>,
)
    requires
        s.stage == UpdateStage::<Seq<char>>::Deploying(DeployStep::ProbeStaging),
        deploy::deployment(s.latest, UNPACK_FAILED@, stores, outcomes),
        after_outcomes(s, kernel, outcomes).stage is DroppingArchive,
    ensures
        stores.last().dirs.contains_key(s.latest),
        stores.last().dirs[s.latest] == deploy::Tree::Whole,
        stores.last().pin == Some(deploy::pin_of(s.latest)),
        !stores.last().dirs.contains_key(deploy::staging_of(s.latest)),
{
    lemma_after_outcomes(s, kernel, outcomes);
    deploy::a_pinned_version_is_whole(s.latest, UNPACK_FAILED@, stores, outcomes);
}

/// An update begins by asking, from the version in use, and ends at once if the
/// registry does not answer.
pub proof fn an_update_begins_with_the_registry(
    current: Seq<char>,
    kernel: KernelState,
    message: Seq<char>,
)
    ensures
        fresh(current).current == current,
        fresh(current).stage is Querying,
        ({
            let (next, after, action) = update(
                fresh(current),
                kernel,
                UpdateEvent::LatestKnown(Err(message)),
            );
            &&& next.stage is Over
            &&& after == kernel
            &&& action == UpdateAction::<Seq<char>, UpdateReport>::Report(
                UpdateReport { ok: false, version: current, message, restarting: false },
            )
        }),
{
}

/// Whether there is anything to do depends on the two versions alone, whatever the
/// kernel is doing: if the latest one is due, the update goes on with it;
/// otherwise it ends as a success that names the version in use.
pub proof fn the_versions_decide(
    s: UpdateState,
    kernel: KernelState,
    latest: Seq<char>,
)
    requires
        s.stage is Querying,
    ensures
        ({
            let (next, after, action) = update(s, kernel, UpdateEvent::LatestKnown(Ok(latest)));
            &&& after == kernel
            &&& next.current == s.current
            &&& version::is_due(latest, s.current) ==> {
                &&& next.stage is Locating
                &&& next.latest == latest
                &&& action is LocateData
            }
            &&& !version::is_due(latest, s.current) ==> {
                &&& next.stage is Over
                &&& action == UpdateAction::<Seq<char>, UpdateReport>::Report(
                    UpdateReport {
                        ok: true,
                        version: s.current,
                        message: "已是最新内核 dsh v"@ + s.current,
                        restarting: false,
                    },
                )
            }
        }),
{
}

/// What was announced is what is fetched: the archive of the latest version, from
/// its address in the release channel, after the data directory was found and the
/// client built. What fails on the way ends the update with its message, for the
/// version in use.
pub proof fn the_latest_archive_is_fetched(s: UpdateState, kernel: KernelState, message: Seq<char>)
    ensures
        ({
            let failed = UpdateAction::<Seq<char>, UpdateReport>::Report(
                UpdateReport { ok: false, version: s.current, message, restarting: false },
            );
            let over = UpdateState { stage: UpdateStage::Over, ..s };
            &&& s.stage is Locating ==> {
                &&& update(s, kernel, UpdateEvent::DataLocated(Ok(()))) == (
                    UpdateState { stage: UpdateStage::Connecting, ..s },
                    kernel,
                    UpdateAction::<Seq<char>, UpdateReport>::BuildClient,
                )
                &&& update(s, kernel, UpdateEvent::DataLocated(Err(message))) == (over, kernel, failed)
            }
            &&& s.stage is Connecting ==> {
                &&& update(s, kernel, UpdateEvent::ClientBuilt(Ok(()))) == (
                    UpdateState { stage: UpdateStage::Fetching, ..s },
                    kernel,
                    UpdateAction::<Seq<char>, UpdateReport>::Fetch {
                        url: "https://github.com/GotoFox/deepseek-harness-client/releases/download"@
                            + "/kernel-"@ + s.latest + "/kernel-"@ + s.latest + ".tar.gz"@,
                        progress: "正在下载 dsh v"@ + s.latest + "…"@,
                    },
                )
                &&& update(s, kernel, UpdateEvent::ClientBuilt(Err(message))) == (over, kernel, failed)
            }
        }),
{
}

/// Only an answer from 200 to 299 is taken for the archive, and saved beside the
/// versions; any other answer says that the archive is not published, and no
/// answer that the download failed. Neither changes the kernel.
pub proof fn only_a_success_is_saved(
    s: UpdateState,
    kernel: KernelState,
    code: u16,
    message: Seq<char>,
)
    requires
        s.stage is Fetching,
    ensures
        200 <= code <= 299 ==> update(s, kernel, UpdateEvent::Answered(Ok(code))) == (
            UpdateState { stage: UpdateStage::Saving, ..s },
            kernel,
            UpdateAction::<Seq<char>, UpdateReport>::Save {
                file: "kernel-"@ + s.latest + ".tar.gz.tmp"@,
            },
        ),
        code < 200 || code > 299 ==> update(s, kernel, UpdateEvent::Answered(Ok(code))) == (
            UpdateState { stage: UpdateStage::Over, ..s },
            kernel,
            UpdateAction::<Seq<char>, UpdateReport>::Report(
                UpdateReport {
                    ok: false,
                    version: s.current,
                    message: "内核包尚未发布（HTTP "@ + http::status_line(code) + "）"@,
                    restarting: false,
                },
            ),
        ),
        update(s, kernel, UpdateEvent::Answered(Err(message))) == (
            UpdateState { stage: UpdateStage::Over, ..s },
            kernel,
            UpdateAction::<Seq<char>, UpdateReport>::Report(
                UpdateReport {
                    ok: false,
                    version: s.current,
                    message: "下载内核包失败："@ + message + "（内核包需先在发布渠道构建）"@,
                    restarting: false,
                },
            ),
        ),
{
}

/// The saved archive is deployed as the latest version, from the first step to the
/// last; an archive that could not be saved ends the update, and a step that
/// failed leads to the removal of that version's staging directory. None of it
/// changes the kernel.
pub proof fn the_saved_archive_is_deployed(
    s: UpdateState,
    kernel: KernelState,
    message: Seq<char>,
    step: DeployStep,
    outcome: Result<bool, Seq<char>>,
)
    ensures
        s.stage is Saving ==> {
            &&& update(s, kernel, UpdateEvent::Saved(Ok(()))) == (
                UpdateState { stage: UpdateStage::Deploying(DeployStep::ProbeStaging), ..s },
                kernel,
                UpdateAction::<Seq<char>, UpdateReport>::Deploy {
                    version: s.latest,
                    step: DeployStep::ProbeStaging,
                },
            )
            &&& update(s, kernel, UpdateEvent::Saved(Err(message))) == (
                UpdateState { stage: UpdateStage::Over, ..s },
                kernel,
                UpdateAction::<Seq<char>, UpdateReport>::Report(
                    UpdateReport { ok: false, version: s.current, message, restarting: false },
                ),
            )
        },
        s.stage == UpdateStage::<Seq<char>>::Deploying(step) ==> {
            let (next, after, action) = update(s, kernel, UpdateEvent::Deployed(outcome));
            &&& after == kernel
            &&& next.current == s.current
            &&& next.latest == s.latest
            &&& match deploy::deploy(step, outcome, "解压内核失败："@) {
                DeployProgress::Next(following) => {
                    &&& next.stage == UpdateStage::<Seq<char>>::Deploying(following)
                    &&& action == (UpdateAction::<Seq<char>, UpdateReport>::Deploy {
                        version: s.latest,
                        step: following,
                    })
                },
                DeployProgress::Complete => {
                    &&& next.stage is DroppingArchive
                    &&& action == (UpdateAction::<Seq<char>, UpdateReport>::DropArchive {
                        file: "kernel-"@ + s.latest + ".tar.gz.tmp"@,
                    })
                },
                DeployProgress::Failed(reason) => {
                    &&& next.stage == (UpdateStage::CleaningUp { reason })
                    &&& action == (UpdateAction::<Seq<char>, UpdateReport>::CleanUp {
                        staging: s.latest + ".tmp"@,
                    })
                },
            }
        },
{
}

/// A failed deployment is reported with its reason, for the version in use, once
/// it is cleaned up; the kernel goes on as it was.
pub proof fn a_failed_deployment_is_reported(s: UpdateState, kernel: KernelState, reason: Seq<char>)
    requires
        s.stage == (UpdateStage::CleaningUp { reason }),
    ensures
        update(s, kernel, UpdateEvent::CleanedUp) == (
            UpdateState { stage: UpdateStage::Over, ..s },
            kernel,
            UpdateAction::<Seq<char>, UpdateReport>::Report(
                UpdateReport { ok: false, version: s.current, message: reason, restarting: false },
            ),
        ),
{
}

/// A deployment that completes is followed by a restart onto the new version,
/// whatever the kernel is doing: once the archive is dropped, the kernel gets the
/// latest version and is started afresh, and the report says so.
pub proof fn a_complete_deployment_restarts_the_kernel(
    s: UpdateState,
    kernel: KernelState,
    later: KernelState,
)
    requires
        s.stage is DroppingArchive,
    ensures
        ({
            let (relaunching, after, relaunch) = update(s, kernel, UpdateEvent::ArchiveDropped);
            let (over, same, report) = update(relaunching, later, UpdateEvent::Relaunched);
            &&& relaunch is Relaunch
            &&& after.version == s.latest
            &&& after.phase == kernel.phase
            &&& after.port == kernel.port
            &&& after.error == kernel.error
            &&& after.pid == kernel.pid
            &&& after.app_version == kernel.app_version
            &&& same == later
            &&& over.stage is Over
            &&& report == UpdateAction::<Seq<char>, UpdateReport>::Report(
                UpdateReport {
                    ok: true,
                    version: s.latest,
                    message: "内核已更新为 dsh v"@ + s.latest,
                    restarting: true,
                },
            )
        }),
{
}

proof fn lemma_relaunching(s: UpdateState, inputs: Seq<UpdateInput>)
    requires
        s.stage is Relaunching,
    ensures
        relaunches(s, inputs) == 0,
        after(s, inputs).stage is Over ==> reports(s, inputs) == seq![
            UpdateReport {
                ok: true,
                version: s.latest,
                message: "内核已更新为 dsh v"@ + s.latest,
                restarting: true,
            },
        ],
    decreases inputs.len(),
{
    if inputs.len() > 0 {
        let (next, _, action) = update(s, inputs.first().kernel, inputs.first().event);
        if action is Report {
            lemma_over_is_silent(next, inputs.drop_first());
            assert(reports(s, inputs) =~= seq![action->Report_0]);
        } else {
            lemma_relaunching(next, inputs.drop_first());
            assert(reports(s, inputs) =~= reports(next, inputs.drop_first()));
        }
    }
}

proof fn lemma_over_is_silent(s: UpdateState, inputs: Seq<UpdateInput>)
    requires
        s.stage is Over,
    ensures
        relaunches(s, inputs) == 0,
        reports(s, inputs) == Seq::<UpdateReport>::empty(),
    decreases inputs.len(),
{
    if inputs.len() > 0 {
        let (next, _, _) = update(s, inputs.first().kernel, inputs.first().event);
        lemma_over_is_silent(next, inputs.drop_first());
    }
}

/// From a complete deployment an update cannot end otherwise: whatever happens,
/// and whatever the kernel does meanwhile, when it ends it has started the kernel
/// afresh exactly once, and its one report names the new version.
pub proof fn a_complete_deployment_is_never_idle(s: UpdateState, inputs: Seq<UpdateInput>)
    requires
        s.stage is DroppingArchive,
        after(s, inputs).stage is Over,
    ensures
        relaunches(s, inputs) == 1,
        reports(s, inputs) == seq![
            UpdateReport {
                ok: true,
                version: s.latest,
                message: "内核已更新为 dsh v"@ + s.latest,
                restarting: true,
            },
        ],
    decreases inputs.len(),
{
    if inputs.len() > 0 {
        let (next, _, action) = update(s, inputs.first().kernel, inputs.first().event);
        if action is Relaunch {
            lemma_relaunching(next, inputs.drop_first());
        } else {
            a_complete_deployment_is_never_idle(next, inputs.drop_first());
        }
        assert(reports(s, inputs) =~= reports(next, inputs.drop_first()));
    }
}

/// A success without a restart means that there was nothing to do: one of the
/// registry's answers named a version that was not due, and the report says that
/// the version in use is the latest.
pub proof fn a_success_without_a_restart_had_nothing_to_do(
    s: UpdateState,
    inputs: Seq<UpdateInput>,
)
    requires
        s.stage is Querying,
        reports(s, inputs).len() == 1,
        reports(s, inputs)[0].ok,
        !reports(s, inputs)[0].restarting,
    ensures
        reports(s, inputs)[0].version == s.current,
        reports(s, inputs)[0].message == "已是最新内核 dsh v"@ + s.current,
        exists|i: int|
            0 <= i < inputs.len() && ((#[trigger] inputs[i]).event matches UpdateEvent::LatestKnown(
                Ok(latest),
            ) && !version::is_due(latest, s.current)),
    decreases inputs.len(),
{
    let (next, _, action) = update(s, inputs.first().kernel, inputs.first().event);
    let rest = inputs.drop_first();
    if action is Report {
        lemma_over_is_silent(next, rest);
        assert(reports(s, inputs) =~= seq![action->Report_0]);
        assert(inputs[0] == inputs.first());
    } else {
        assert(reports(s, inputs) =~= reports(next, rest));
        if next.stage is Querying {
            a_success_without_a_restart_had_nothing_to_do(next, rest);
            let i = choose|i: int|
                0 <= i < rest.len() && ((#[trigger] rest[i]).event matches UpdateEvent::LatestKnown(
                    Ok(latest),
                ) && !version::is_due(latest, s.current));
            assert(inputs[i + 1] == rest[i]);
        } else {
            lemma_success_restarts(next, rest);
        }
    }
}

proof fn lemma_success_restarts(s: UpdateState, inputs: Seq<UpdateInput>)
    requires
        !(s.stage is Querying),
    ensures
        reports(s, inputs).len() > 0 && reports(s, inputs)[0].ok ==> reports(
            s,
            inputs,
        )[0].restarting,
    decreases inputs.len(),
{
    if inputs.len() > 0 {
        let (next, _, action) = update(s, inputs.first().kernel, inputs.first().event);
        lemma_success_restarts(next, inputs.drop_first());
        if action is Report {
            assert(reports(s, inputs)[0] == action->Report_0);
        } else {
            assert(reports(s, inputs) =~= reports(next, inputs.drop_first()));
        }
    }
}

/// An event that does not belong to the current stage changes nothing.
pub proof fn a_stray_event_is_ignored(
    s: UpdateState,
    kernel: KernelState,
    event: UpdateEvent<Seq<char>>,
)
    requires
        !(s.stage is Querying && event is LatestKnown),
        !(s.stage is Locating && event is DataLocated),
        !(s.stage is Connecting && event is ClientBuilt),
        !(s.stage is Fetching && event is Answered),
        !(s.stage is Saving && event is Saved),
        !(s.stage is Deploying && event is Deployed),
        !(s.stage is DroppingArchive && event is ArchiveDropped),
        !(s.stage is CleaningUp && event is CleanedUp),
        !(s.stage is Relaunching && event is Relaunched),
    ensures
        update(s, kernel, event) == (s, kernel, UpdateAction::<Seq<char>, UpdateReport>::Ignore),
{
}

} // verus!
