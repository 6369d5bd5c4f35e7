//! Finding the version of the kernel to run, and installing the bundled one
//! where it is missing.
//!
//! Stages, events and actions are generic in their text type: the running
//! program uses `String`, the specifications use `Seq<char>`.

use vstd::prelude::*;

use crate::deploy;
use crate::deploy::{DeployProgress, DeployStep};
use crate::text;

verus! {

/// The archive of the bundled kernel in the resource directory.
pub const BUNDLED_ARCHIVE: &'static str = "kernel.tar.gz";

pub const ARCHIVE_MISSING: &'static str = "bundled kernel resource missing: ";

/// Stands in front of the error when the bundled archive cannot be unpacked.
pub const UNPACK_FAILED: &'static str = "解压内核失败: ";

/// The bundled version of a build that was made without one.
pub const UNKNOWN_VERSION: &'static str = "unknown";

/// The version that the build recorded as the bundled one.
pub open spec fn recorded_version(recorded: Option<Seq<char>>) -> Seq<char> {
    match recorded {
        Some(version) => text::trimmed(version),
        None => UNKNOWN_VERSION@,
    }
}

/// What the build recorded is taken without the white space around it, and is
/// otherwise left as it is; a build that recorded nothing has an unknown version.
pub proof fn the_recorded_version_is_taken(head: Seq<char>, version: Seq<char>, tail: Seq<char>)
    requires
        forall|i: int| 0 <= i < head.len() ==> text::is_white_space(#[trigger] head[i]),
        forall|i: int| 0 <= i < tail.len() ==> text::is_white_space(#[trigger] tail[i]),
        version.len() > 0 ==> !text::is_white_space(version.first()) && !text::is_white_space(
            version.last(),
        ),
    ensures
        recorded_version(Some(head + version + tail)) == version,
        recorded_version(None) == "unknown"@,
{
    text::trimming_keeps_what_is_between(head, version, tail);
}

/// The version that the build recorded as the bundled one.
pub fn bundled_version(recorded: Option<&str>) -> (r: String)
    ensures
        r@ == (match recorded {
            Some(version) => text::trimmed(version@),
            None => UNKNOWN_VERSION@,
        }),
        r@ == recorded_version(
            match recorded {
                Some(version) => Some(version@),
                None => None,
            },
        ),
{
    match recorded {
        Some(version) => text::trim(version).to_string(),
        None => UNKNOWN_VERSION.to_string(),
    }
}

#[derive(PartialEq, Eq, Debug)]
pub enum InstallStage<T> {
    LocatingData,
    CreatingRoot,
    ReadingPin,
    /// The pin names `pinned`; its directory is being looked for.
    ProbingPinned { pinned: T },
    ProbingEntry,
    LocatingResources,
    ProbingArchive,
    Deploying(DeployStep),
    Over,
}

/// What happened since the last action.
#[derive(PartialEq, Eq, Debug)]
pub enum InstallEvent<T> {
    /// The application's data directory was looked up.
    DataLocated(Result<(), T>),
    /// The directory of all versions was created, unless it was there.
    RootCreated(Result<(), T>),
    /// The pin file holds this text, or cannot be read.
    PinRead(Option<T>),
    /// Whether the pinned version is a directory.
    PinnedProbed(bool),
    /// Whether the entry script of the version exists.
    EntryProbed(bool),
    /// The resource directory was looked up.
    ResourcesLocated(Result<(), T>),
    /// The bundled archive was looked for at `path`.
    ArchiveProbed { found: bool, path: T },
    /// The outcome of a step of the deployment.
    Deployed(Result<bool, T>),
}

/// What is to be done next.
#[derive(PartialEq, Eq, Debug)]
pub enum InstallAction<T> {
    /// Create the directory of all versions.
    CreateRoot,
    /// Read the pin file.
    ReadPin,
    /// See whether `version` is a directory.
    ProbePinned { version: T },
    /// See whether the entry script of `version` exists.
    ProbeEntry { version: T },
    LocateResources,
    /// See whether the bundled archive exists.
    ProbeArchive,
    /// Perform a step of deploying `version` from the bundled archive.
    Deploy { version: T, step: DeployStep },
    /// The version to run, or why there is none.
    Finish(Result<T, T>),
    /// Nothing: the event did not belong to the current stage.
    Ignore,
}

impl InstallStage<String> {
    pub open spec fn view(self) -> InstallStage<Seq<char>> {
        match self {
            InstallStage::LocatingData => InstallStage::LocatingData,
            InstallStage::CreatingRoot => InstallStage::CreatingRoot,
            InstallStage::ReadingPin => InstallStage::ReadingPin,
            InstallStage::ProbingPinned { pinned } => InstallStage::ProbingPinned { pinned: pinned@ },
            InstallStage::ProbingEntry => InstallStage::ProbingEntry,
            InstallStage::LocatingResources => InstallStage::LocatingResources,
            InstallStage::ProbingArchive => InstallStage::ProbingArchive,
            InstallStage::Deploying(step) => InstallStage::Deploying(step),
            InstallStage::Over => InstallStage::Over,
        }
    }
}

impl InstallEvent<String> {
    pub open spec fn view(self) -> InstallEvent<Seq<char>> {
        match self {
            InstallEvent::DataLocated(r) => InstallEvent::DataLocated(text::outcome_text(r)),
            InstallEvent::RootCreated(r) => InstallEvent::RootCreated(text::outcome_text(r)),
            InstallEvent::PinRead(pin) => InstallEvent::PinRead(text::optional_text(pin)),
            InstallEvent::PinnedProbed(found) => InstallEvent::PinnedProbed(found),
            InstallEvent::EntryProbed(found) => InstallEvent::EntryProbed(found),
            InstallEvent::ResourcesLocated(r) => InstallEvent::ResourcesLocated(
                text::outcome_text(r),
            ),
            InstallEvent::ArchiveProbed { found, path } => InstallEvent::ArchiveProbed {
                found,
                path: path@,
            },
            InstallEvent::Deployed(r) => InstallEvent::Deployed(text::outcome_text(r)),
        }
    }
}

impl InstallAction<String> {
    pub open spec fn view(self) -> InstallAction<Seq<char>> {
        match self {
            InstallAction::CreateRoot => InstallAction::CreateRoot,
            InstallAction::ReadPin => InstallAction::ReadPin,
            InstallAction::ProbePinned { version } => InstallAction::ProbePinned {
                version: version@,
            },
            InstallAction::ProbeEntry { version } => InstallAction::ProbeEntry { version: version@ },
            InstallAction::LocateResources => InstallAction::LocateResources,
            InstallAction::ProbeArchive => InstallAction::ProbeArchive,
            InstallAction::Deploy { version, step } => InstallAction::Deploy {
                version: version@,
                step,
            },
            InstallAction::Finish(r) => InstallAction::Finish(text::reply_text(r)),
            InstallAction::Ignore => InstallAction::Ignore,
        }
    }
}

/// The mathematical state of an [`Install`]: the stage, the version that came with
/// the client, and the version that is going to be run.
pub struct InstallState {
    pub stage: InstallStage<Seq<char>>,
    pub bundled: Seq<char>,
    pub version: Seq<char>,
}

pub type Step = (InstallState, InstallAction<Seq<char>>);

/// An installation that has not done anything yet.
pub open spec fn fresh(bundled: Seq<char>) -> InstallState {
    InstallState { stage: InstallStage::LocatingData, bundled, version: bundled }
}

pub open spec fn enter(
    s: InstallState,
    stage: InstallStage<Seq<char>>,
    action: InstallAction<Seq<char>>,
) -> Step {
    (InstallState { stage, ..s }, action)
}

/// The installation ends with an error.
pub open spec fn give_up(s: InstallState, message: Seq<char>) -> Step {
    enter(s, InstallStage::Over, InstallAction::Finish(Err(message)))
}

/// `version` is to be run; is it there?
pub open spec fn settle(s: InstallState, version: Seq<char>) -> Step {
    (
        InstallState { stage: InstallStage::ProbingEntry, version, ..s },
        InstallAction::ProbeEntry { version },
    )
}

/// The version that the pin file names, if it names one.
pub open spec fn pinned_version(pin: Option<Seq<char>>) -> Option<Seq<char>> {
    match pin {
        Some(content) if text::trimmed(content).len() > 0 => Some(text::trimmed(content)),
        _ => None,
    }
}

/// What follows the progress of deploying the bundled version.
pub open spec fn deploying(s: InstallState, progress: DeployProgress<Seq<char>>) -> Step {
    match progress {
        DeployProgress::Next(step) => enter(
            s,
            InstallStage::Deploying(step),
            InstallAction::Deploy { version: s.bundled, step },
        ),
        DeployProgress::Complete => enter(s, InstallStage::Over, InstallAction::Finish(Ok(s.bundled))),
        DeployProgress::Failed(message) => give_up(s, message),
    }
}

/// One step of an installation.
pub open spec fn install(s: InstallState, event: InstallEvent<Seq<char>>) -> Step {
    match (s.stage, event) {
        (InstallStage::LocatingData, InstallEvent::DataLocated(r)) => match r {
            Ok(_) => enter(s, InstallStage::CreatingRoot, InstallAction::CreateRoot),
            Err(message) => give_up(s, message),
        },
        (InstallStage::CreatingRoot, InstallEvent::RootCreated(r)) => match r {
            Ok(_) => enter(s, InstallStage::ReadingPin, InstallAction::ReadPin),
            Err(message) => give_up(s, message),
        },
        (InstallStage::ReadingPin, InstallEvent::PinRead(pin)) => match pinned_version(pin) {
            Some(pinned) => enter(
                s,
                InstallStage::ProbingPinned { pinned },
                InstallAction::ProbePinned { version: pinned },
            ),
            None => settle(s, s.bundled),
        },
        (InstallStage::ProbingPinned { pinned }, InstallEvent::PinnedProbed(found)) => settle(
            s,
            if found {
                pinned
            } else {
                s.bundled
            },
        ),
        (InstallStage::ProbingEntry, InstallEvent::EntryProbed(found)) => if found {
            enter(s, InstallStage::Over, InstallAction::Finish(Ok(s.version)))
        } else if s.version != s.bundled {
            settle(s, s.bundled)
        } else {
            enter(s, InstallStage::LocatingResources, InstallAction::LocateResources)
        },
        (InstallStage::LocatingResources, InstallEvent::ResourcesLocated(r)) => match r {
            Ok(_) => enter(s, InstallStage::ProbingArchive, InstallAction::ProbeArchive),
            Err(message) => give_up(s, message),
        },
        (InstallStage::ProbingArchive, InstallEvent::ArchiveProbed { found, path }) => if found {
            deploying(s, DeployProgress::Next(DeployStep::ProbeStaging))
        } else {
            give_up(s, ARCHIVE_MISSING@ + path)
        },
        (InstallStage::Deploying(step), InstallEvent::Deployed(outcome)) => deploying(
            s,
            deploy::deploy(step, outcome, UNPACK_FAILED@),
        ),
        _ => (s, InstallAction::Ignore),
    }
}

/// One installation. Its first step is to find the application's data directory.
pub struct Install {
    stage: InstallStage<String>,
    bundled: String,
    version: String,
}

impl View for Install {
    type V = InstallState;

    closed spec fn view(&self) -> InstallState {
        InstallState { stage: self.stage@, bundled: self.bundled@, version: self.version@ }
    }
}

impl Install {
    /// Prepares to find or install the kernel; `bundled` is the version that
    /// came with the client.
    pub fn new(bundled: &str) -> (r: Self)
        ensures
            r@ == fresh(bundled@),
    {
        Install {
            stage: InstallStage::LocatingData,
            bundled: bundled.to_string(),
            version: bundled.to_string(),
        }
    }

    fn enter(&mut self, stage: InstallStage<String>, action: InstallAction<String>) -> (r:
        InstallAction<String>)
        ensures
            (final(self)@, r@) == enter(old(self)@, stage@, action@),
    {
        self.stage = stage;
        action
    }

    fn give_up(&mut self, message: String) -> (r: InstallAction<String>)
        ensures
            (final(self)@, r@) == give_up(old(self)@, message@),
    {
        self.enter(InstallStage::Over, InstallAction::Finish(Err(message)))
    }

    fn finish(&mut self, version: String) -> (r: InstallAction<String>)
        ensures
            (final(self)@, r@) == enter(
                old(self)@,
                InstallStage::Over,
                InstallAction::Finish(Ok(version@)),
            ),
    {
        self.enter(InstallStage::Over, InstallAction::Finish(Ok(version)))
    }

    fn settle(&mut self, version: String) -> (r: InstallAction<String>)
        ensures
            (final(self)@, r@) == settle(old(self)@, version@),
    {
        self.version = version.clone();
        self.enter(InstallStage::ProbingEntry, InstallAction::ProbeEntry { version })
    }

    fn deploying(&mut self, progress: DeployProgress<String>) -> (r: InstallAction<String>)
        ensures
            (final(self)@, r@) == deploying(old(self)@, progress@),
    {
        let version = self.bundled.clone();
        match progress {
            DeployProgress::Next(step) => self.enter(
                InstallStage::Deploying(step),
                InstallAction::Deploy { version, step },
            ),
            DeployProgress::Complete => self.finish(version),
            DeployProgress::Failed(message) => self.give_up(message),
        }
    }

    /// Takes in what happened and says what to do next.
    pub fn advance(&mut self, event: InstallEvent<String>) -> (r: InstallAction<String>)
        ensures
            (final(self)@, r@) == install(old(self)@, event@),
    {
        match event {
            InstallEvent::DataLocated(r) => match &self.stage {
                InstallStage::LocatingData => match r {
                    Ok(_) => self.enter(InstallStage::CreatingRoot, InstallAction::CreateRoot),
                    Err(message) => self.give_up(message),
                },
                _ => InstallAction::Ignore,
            },
            InstallEvent::RootCreated(r) => match &self.stage {
                InstallStage::CreatingRoot => match r {
                    Ok(_) => self.enter(InstallStage::ReadingPin, InstallAction::ReadPin),
                    Err(message) => self.give_up(message),
                },
                _ => InstallAction::Ignore,
            },
            InstallEvent::PinRead(pin) => match &self.stage {
                InstallStage::ReadingPin => {
                    if let Some(content) = pin {
                        let pinned = text::trim(content.as_str());
                        if !pinned.is_empty() {
                            return self.enter(
                                InstallStage::ProbingPinned { pinned: pinned.to_string() },
                                InstallAction::ProbePinned { version: pinned.to_string() },
                            );
                        }
                    }
                    let version = self.bundled.clone();
                    self.settle(version)
                },
                _ => InstallAction::Ignore,
            },
            InstallEvent::PinnedProbed(found) => match &self.stage {
                InstallStage::ProbingPinned { pinned } => {
                    let version = if found {
                        pinned.clone()
                    } else {
                        self.bundled.clone()
                    };
                    self.settle(version)
                },
                _ => InstallAction::Ignore,
            },
            InstallEvent::EntryProbed(found) => match &self.stage {
                InstallStage::ProbingEntry => if found {
                    let version = self.version.clone();
                    self.finish(version)
                } else if self.version != self.bundled {
                    let version = self.bundled.clone();
                    self.settle(version)
                } else {
                    self.enter(InstallStage::LocatingResources, InstallAction::LocateResources)
                },
                _ => InstallAction::Ignore,
            },
            InstallEvent::ResourcesLocated(r) => match &self.stage {
                InstallStage::LocatingResources => match r {
                    Ok(_) => self.enter(InstallStage::ProbingArchive, InstallAction::ProbeArchive),
                    Err(message) => self.give_up(message),
                },
                _ => InstallAction::Ignore,
            },
            InstallEvent::ArchiveProbed { found, path } => match &self.stage {
                InstallStage::ProbingArchive => if found {
                    self.deploying(DeployProgress::Next(DeployStep::ProbeStaging))
                } else {
                    self.give_up(text::join2(ARCHIVE_MISSING, path.as_str()))
                },
                _ => InstallAction::Ignore,
            },
            InstallEvent::Deployed(outcome) => match &self.stage {
                InstallStage::Deploying(step) => {
                    let progress = deploy::deploy_next(*step, outcome, UNPACK_FAILED);
                    self.deploying(progress)
                },
                _ => InstallAction::Ignore,
            },
        }
    }
}

/// What was pinned is what is run next: when the pin file holds what pinning
/// `version` writes, and the version is there, it is chosen over the bundled one.
pub proof fn the_pinned_version_is_run(s: InstallState, version: Seq<char>)
    requires
        s.stage is ReadingPin,
        version.len() > 0,
        text::is_trimmed(version),
    ensures
        ({
            let pin = deploy::pin_of(version);
            let (probing, probe) = install(s, InstallEvent::PinRead(Some(pin)));
            let (settled, next) = install(probing, InstallEvent::PinnedProbed(true));
            let (over, end) = install(settled, InstallEvent::EntryProbed(true));
            &&& probe == (InstallAction::ProbePinned { version })
            &&& next == (InstallAction::ProbeEntry { version })
            &&& end == InstallAction::Finish(Ok::<_, Seq<char>>(version))
        }),
{
    text::trimming_drops_the_line_break(version);
}

/// Pinning is stable: pinning the version that a pin file names, however it is
/// padded, names the same version again.
pub proof fn a_pin_can_be_renewed(pin: Option<Seq<char>>)
    requires
        pinned_version(pin) is Some,
    ensures
        pinned_version(Some(deploy::pin_of(pinned_version(pin)->0))) == pinned_version(pin),
{
    text::trimming_is_idempotent(pin->0);
    text::trimming_drops_the_line_break(text::trimmed(pin->0));
}

/// Without a pin, with a blank one, or with one whose directory or entry script
/// is gone, the bundled version is chosen.
pub proof fn the_bundled_version_is_the_fallback(s: InstallState, pin: Option<Seq<char>>)
    requires
        s.stage is ReadingPin,
    ensures
        ({
            let (next, action) = install(s, InstallEvent::PinRead(pin));
            let (pinned, _) = install(next, InstallEvent::PinnedProbed(true));
            &&& pin is None || text::trimmed(pin->0).len() == 0 ==> (next, action) == settle(
                s,
                s.bundled,
            )
            &&& next.stage is ProbingPinned ==> install(next, InstallEvent::PinnedProbed(false))
                == settle(s, s.bundled)
            &&& next.stage is ProbingPinned && pinned.version != s.bundled ==> install(
                pinned,
                InstallEvent::EntryProbed(false),
            ) == settle(s, s.bundled)
            &&& next.stage is ProbingPinned || next.stage is ProbingEntry
        }),
{
}

/// The bundled kernel is never filed under another version's name: whatever is
/// deployed is deployed as the bundled version, and a deployment that completes
/// finishes with it.
pub proof fn only_the_bundled_version_is_deployed(s: InstallState, event: InstallEvent<Seq<char>>)
    ensures
        install(s, event).1 matches InstallAction::Deploy { version, .. } ==> version == s.bundled,
        s.stage is Deploying && (install(s, event).1 matches InstallAction::Finish(Ok(_)))
            ==> install(s, event).1 == InstallAction::<Seq<char>>::Finish(Ok(s.bundled)),
        install(s, event).0.bundled == s.bundled,
{
}

/// An installation deploys only what is missing: a version whose entry script
/// exists is run as it is.
pub proof fn a_present_version_is_run_as_it_is(s: InstallState)
    requires
        s.stage is ProbingEntry,
    ensures
        install(s, InstallEvent::EntryProbed(true)).1 == InstallAction::<Seq<char>>::Finish(
            Ok(s.version),
        ),
{
}

/// The state that is reached from `s` when the steps of the deployment have
/// `outcomes`.
pub open spec fn after_outcomes(s: InstallState, outcomes: Seq<Result<bool, Seq<char>>>) -> InstallState
    decreases outcomes.len(),
{
    if outcomes.len() == 0 {
        s
    } else {
        install(
            after_outcomes(s, outcomes.drop_last()),
            InstallEvent::Deployed(outcomes.last()),
        ).0
    }
}

proof fn lemma_after_outcomes(s: InstallState, outcomes: Seq<Result<bool, Seq<char>>>)
    requires
        s.stage == InstallStage::<Seq<char>>::Deploying(DeployStep::ProbeStaging),
    ensures
        after_outcomes(s, outcomes) == (InstallState {
            stage: match deploy::progress_after(outcomes, UNPACK_FAILED@) {
                DeployProgress::Next(step) => InstallStage::Deploying(step),
                _ => InstallStage::Over,
            },
            ..s
        }),
    decreases outcomes.len(),
{
    if outcomes.len() > 0 {
        lemma_after_outcomes(s, outcomes.drop_last());
    }
}

/// An installation that deploys reports a version only once it is wholly in
/// place and pinned, and no staging directory is left.
pub proof fn an_installed_version_is_in_place(
    s: InstallState,
    stores: Seq<deploy::Store>,
    outcomes: Seq<Result<bool, Seq<char>>>,
)
    requires
        s.stage == InstallStage::<Seq<char>>::Deploying(DeployStep::ProbeStaging),
        outcomes.len() > 0,
        deploy::deployment(s.bundled, UNPACK_FAILED@, stores, outcomes),
        install(
            after_outcomes(s, outcomes.drop_last()),
            InstallEvent::Deployed(outcomes.last()),
        ).1 matches InstallAction::Finish(Ok(_)),
    ensures
        install(
            after_outcomes(s, outcomes.drop_last()),
            InstallEvent::Deployed(outcomes.last()),
        ).1 == InstallAction::<Seq<char>>::Finish(Ok(s.bundled)),
        stores.last().dirs.contains_key(s.bundled),
        stores.last().dirs[s.bundled] == deploy::Tree::Whole,
        stores.last().pin == Some(deploy::pin_of(s.bundled)),
        !stores.last().dirs.contains_key(deploy::staging_of(s.bundled)),
{
    lemma_after_outcomes(s, outcomes.drop_last());
    lemma_after_outcomes(s, outcomes);
    deploy::a_pinned_version_is_whole(s.bundled, UNPACK_FAILED@, stores, outcomes);
}

/// An installation begins with nothing chosen but the bundled version, finds the
/// data directory, creates the directory of all versions and reads the pin; what
/// fails on the way ends it with its message.
pub proof fn an_installation_begins_with_the_pin(s: InstallState, message: Seq<char>)
    ensures
        fresh(s.bundled) == (InstallState {
            stage: InstallStage::LocatingData,
            bundled: s.bundled,
            version: s.bundled,
        }),
        s.stage is LocatingData ==> {
            &&& install(s, InstallEvent::DataLocated(Ok(()))) == (
                InstallState { stage: InstallStage::CreatingRoot, ..s },
                InstallAction::<Seq<char>>::CreateRoot,
            )
            &&& install(s, InstallEvent::DataLocated(Err(message))) == (
                InstallState { stage: InstallStage::Over, ..s },
                InstallAction::Finish(Err::<Seq<char>, _>(message)),
            )
        },
        s.stage is CreatingRoot ==> {
            &&& install(s, InstallEvent::RootCreated(Ok(()))) == (
                InstallState { stage: InstallStage::ReadingPin, ..s },
                InstallAction::<Seq<char>>::ReadPin,
            )
            &&& install(s, InstallEvent::RootCreated(Err(message))) == (
                InstallState { stage: InstallStage::Over, ..s },
                InstallAction::Finish(Err::<Seq<char>, _>(message)),
            )
        },
{
}

/// A pin names what it holds between white space, and nothing if it holds nothing
/// else. A named version is looked for under that name, and no other; without one
/// the bundled version is.
pub proof fn a_pin_names_what_it_holds(
    s: InstallState,
    head: Seq<char>,
    name: Seq<char>,
    tail: Seq<char>,
)
    requires
        s.stage is ReadingPin,
        forall|i: int| 0 <= i < head.len() ==> text::is_white_space(#[trigger] head[i]),
        forall|i: int| 0 <= i < tail.len() ==> text::is_white_space(#[trigger] tail[i]),
        name.len() > 0 ==> !text::is_white_space(name.first()) && !text::is_white_space(name.last()),
    ensures
        name.len() > 0 ==> install(s, InstallEvent::PinRead(Some(head + name + tail))) == (
            InstallState { stage: InstallStage::ProbingPinned { pinned: name }, ..s },
            InstallAction::ProbePinned { version: name },
        ),
        name.len() == 0 ==> install(s, InstallEvent::PinRead(Some(head + name + tail))) == (
            InstallState { stage: InstallStage::ProbingEntry, bundled: s.bundled, version: s.bundled },
            InstallAction::ProbeEntry { version: s.bundled },
        ),
        install(s, InstallEvent::PinRead(None)) == (
            InstallState { stage: InstallStage::ProbingEntry, bundled: s.bundled, version: s.bundled },
            InstallAction::ProbeEntry { version: s.bundled },
        ),
{
    text::trimming_keeps_what_is_between(head, name, tail);
}

/// The pinned version is preferred if its directory is there, whichever of the two
/// is the newer; otherwise the bundled one is taken. What was chosen is run if its
/// entry script is there. If not, the bundled version is tried instead, and if
/// that was it, it is installed.
pub proof fn a_version_is_chosen_by_what_is_there(s: InstallState, pinned: Seq<char>)
    ensures
        s.stage == (InstallStage::ProbingPinned { pinned }) ==> {
            &&& install(s, InstallEvent::PinnedProbed(true)) == (
                InstallState { stage: InstallStage::ProbingEntry, bundled: s.bundled, version: pinned },
                InstallAction::ProbeEntry { version: pinned },
            )
            &&& install(s, InstallEvent::PinnedProbed(false)) == (
                InstallState {
                    stage: InstallStage::ProbingEntry,
                    bundled: s.bundled,
                    version: s.bundled,
                },
                InstallAction::ProbeEntry { version: s.bundled },
            )
        },
        s.stage is ProbingEntry ==> {
            &&& install(s, InstallEvent::EntryProbed(true)) == (
                InstallState { stage: InstallStage::Over, ..s },
                InstallAction::Finish(Ok::<_, Seq<char>>(s.version)),
            )
            &&& s.version != s.bundled ==> install(s, InstallEvent::EntryProbed(false)) == (
                InstallState {
                    stage: InstallStage::ProbingEntry,
                    bundled: s.bundled,
                    version: s.bundled,
                },
                InstallAction::ProbeEntry { version: s.bundled },
            )
            &&& s.version == s.bundled ==> install(s, InstallEvent::EntryProbed(false)) == (
                InstallState { stage: InstallStage::LocatingResources, ..s },
                InstallAction::<Seq<char>>::LocateResources,
            )
        },
{
}

/// The bundled version is installed from the archive among the resources: what is
/// missing ends the installation, with the path of the archive; otherwise the
/// deployment begins with its first step.
pub proof fn the_bundled_archive_is_needed(s: InstallState, message: Seq<char>, path: Seq<char>)
    ensures
        s.stage is LocatingResources ==> {
            &&& install(s, InstallEvent::ResourcesLocated(Ok(()))) == (
                InstallState { stage: InstallStage::ProbingArchive, ..s },
                InstallAction::<Seq<char>>::ProbeArchive,
            )
            &&& install(s, InstallEvent::ResourcesLocated(Err(message))) == (
                InstallState { stage: InstallStage::Over, ..s },
                InstallAction::Finish(Err::<Seq<char>, _>(message)),
            )
        },
        s.stage is ProbingArchive ==> {
            &&& install(s, InstallEvent::ArchiveProbed { found: true, path }) == (
                InstallState { stage: InstallStage::Deploying(DeployStep::ProbeStaging), ..s },
                InstallAction::Deploy { version: s.bundled, step: DeployStep::ProbeStaging },
            )
            &&& install(s, InstallEvent::ArchiveProbed { found: false, path }) == (
                InstallState { stage: InstallStage::Over, ..s },
                InstallAction::Finish(
                    Err::<Seq<char>, _>("bundled kernel resource missing: "@ + path),
                ),
            )
        },
{
}

/// The deployment of the bundled version goes its way to the end: each step leads
/// to the next, the last one to the bundled version, and a failure to its message.
pub proof fn a_deployment_decides_the_installation(
    s: InstallState,
    step: DeployStep,
    outcome: Result<bool, Seq<char>>,
)
    requires
        s.stage == InstallStage::<Seq<char>>::Deploying(step),
    ensures
        ({
            let (next, action) = install(s, InstallEvent::Deployed(outcome));
            &&& next.bundled == s.bundled
            &&& next.version == s.version
            &&& match deploy::deploy(step, outcome, "解压内核失败: "@) {
                DeployProgress::Next(following) => {
                    &&& next.stage == InstallStage::<Seq<char>>::Deploying(following)
                    &&& action == (InstallAction::Deploy { version: s.bundled, step: following })
                },
                DeployProgress::Complete => {
                    &&& next.stage is Over
                    &&& action == InstallAction::Finish(Ok::<_, Seq<char>>(s.bundled))
                },
                DeployProgress::Failed(message) => {
                    &&& next.stage is Over
                    &&& action == InstallAction::Finish(Err::<Seq<char>, _>(message))
                },
            }
        }),
{
}

/// An event that does not belong to the current stage changes nothing.
pub proof fn a_stray_event_is_ignored(s: InstallState, event: InstallEvent<Seq<char>>)
    requires
        !(s.stage is LocatingData && event is DataLocated),
        !(s.stage is CreatingRoot && event is RootCreated),
        !(s.stage is ReadingPin && event is PinRead),
        !(s.stage is ProbingPinned && event is PinnedProbed),
        !(s.stage is ProbingEntry && event is EntryProbed),
        !(s.stage is LocatingResources && event is ResourcesLocated),
        !(s.stage is ProbingArchive && event is ArchiveProbed),
        !(s.stage is Deploying && event is Deployed),
    ensures
        install(s, event) == (s, InstallAction::<Seq<char>>::Ignore),
{
}

/// The bundled archive lies among the resources under its own name.
pub proof fn the_bundled_archive_has_a_name()
    ensures
        BUNDLED_ARCHIVE@ == "kernel.tar.gz"@,
{
}

} // verus!
