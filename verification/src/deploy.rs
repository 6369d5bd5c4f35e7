//! Putting a version of the kernel in place: unpack it beside the others, move
//! it to its name, then pin it.
//!
//! Outcomes are generic in their text type: the running program uses `String`,
//! the specifications use `Seq<char>`.

use vstd::prelude::*;

use crate::text;

verus! {

/// The directory, below the application's data, that holds all versions.
pub const KERNEL_DIR: &'static str = "kernel";

/// The file in it that pins the version in use.
pub const PIN_FILE: &'static str = "CURRENT";

/// The file in it to which a new pin is written before it replaces the old one.
pub const PIN_DRAFT: &'static str = "CURRENT.tmp";

pub const STAGING_SUFFIX: &'static str = ".tmp";

/// The directory in which `version` is unpacked.
pub open spec fn staging_of(version: Seq<char>) -> Seq<char> {
    version + STAGING_SUFFIX@
}

/// The directory in which `version` is unpacked.
pub fn staging_name(version: &str) -> (r: String)
    ensures
        r@ == staging_of(version@),
{
    text::join2(version, STAGING_SUFFIX)
}

/// The contents of the pin file when `version` is pinned.
pub open spec fn pin_of(version: Seq<char>) -> Seq<char> {
    version.push('\n')
}

/// The contents of the pin file when `version` is pinned.
pub fn pin_text(version: &str) -> (r: String)
    ensures
        r@ == pin_of(version@),
{
    proof {
        reveal_strlit("\n");
    }
    let r = text::join2(version, "\n");
    assert(r@ =~= pin_of(version@));
    r
}

/// The steps of a deployment, in order.
#[derive(Clone, Copy, PartialEq, Eq, Structural, Debug)]
pub enum DeployStep {
    /// See whether a staging directory is left over.
    ProbeStaging,
    /// Remove it.
    ClearStaging,
    /// See whether the version's directory exists.
    ProbeTarget,
    /// Remove it.
    ClearTarget,
    /// Create the staging directory.
    CreateStaging,
    /// Open the archive.
    OpenArchive,
    /// Unpack the archive into the staging directory.
    Unpack,
    /// Rename the staging directory to the version's directory.
    Promote,
    /// Write the new pin to the draft of the pin file.
    WritePin,
    /// Rename the draft to the pin file.
    Pin,
}

/// How far a deployment has come.
#[derive(PartialEq, Eq, Debug)]
pub enum DeployProgress<T> {
    Next(DeployStep),
    Complete,
    Failed(T),
}

impl DeployProgress<String> {
    pub open spec fn view(self) -> DeployProgress<Seq<char>> {
        match self {
            DeployProgress::Next(step) => DeployProgress::Next(step),
            DeployProgress::Complete => DeployProgress::Complete,
            DeployProgress::Failed(message) => DeployProgress::Failed(message@),
        }
    }
}

/// What follows `step`. A probe answers with what it found; of the other steps
/// only success or failure counts. `label` stands in front of the message of a
/// failed unpacking.
pub open spec fn deploy(
    step: DeployStep,
    outcome: Result<bool, Seq<char>>,
    label: Seq<char>,
) -> DeployProgress<Seq<char>> {
    match outcome {
        Err(message) => DeployProgress::Failed(
            if step == DeployStep::Unpack {
                label + message
            } else {
                message
            },
        ),
        Ok(found) => match step {
            DeployStep::ProbeStaging => DeployProgress::Next(
                if found {
                    DeployStep::ClearStaging
                } else {
                    DeployStep::ProbeTarget
                },
            ),
            DeployStep::ClearStaging => DeployProgress::Next(DeployStep::ProbeTarget),
            DeployStep::ProbeTarget => DeployProgress::Next(
                if found {
                    DeployStep::ClearTarget
                } else {
                    DeployStep::CreateStaging
                },
            ),
            DeployStep::ClearTarget => DeployProgress::Next(DeployStep::CreateStaging),
            DeployStep::CreateStaging => DeployProgress::Next(DeployStep::OpenArchive),
            DeployStep::OpenArchive => DeployProgress::Next(DeployStep::Unpack),
            DeployStep::Unpack => DeployProgress::Next(DeployStep::Promote),
            DeployStep::Promote => DeployProgress::Next(DeployStep::WritePin),
            DeployStep::WritePin => DeployProgress::Next(DeployStep::Pin),
            DeployStep::Pin => DeployProgress::Complete,
        },
    }
}

/// Takes in the outcome of `step` and says what follows.
pub fn deploy_next(step: DeployStep, outcome: Result<bool, String>, label: &str) -> (r: DeployProgress<
    String,
>)
    ensures
        r@ == deploy(step, text::outcome_text(outcome), label@),
{
    match outcome {
        Err(message) => match step {
            DeployStep::Unpack => DeployProgress::Failed(text::join2(label, message.as_str())),
            _ => DeployProgress::Failed(message),
        },
        Ok(found) => match step {
            DeployStep::ProbeStaging => if found {
                DeployProgress::Next(DeployStep::ClearStaging)
            } else {
                DeployProgress::Next(DeployStep::ProbeTarget)
            },
            DeployStep::ClearStaging => DeployProgress::Next(DeployStep::ProbeTarget),
            DeployStep::ProbeTarget => if found {
                DeployProgress::Next(DeployStep::ClearTarget)
            } else {
                DeployProgress::Next(DeployStep::CreateStaging)
            },
            DeployStep::ClearTarget => DeployProgress::Next(DeployStep::CreateStaging),
            DeployStep::CreateStaging => DeployProgress::Next(DeployStep::OpenArchive),
            DeployStep::OpenArchive => DeployProgress::Next(DeployStep::Unpack),
            DeployStep::Unpack => DeployProgress::Next(DeployStep::Promote),
            DeployStep::Promote => DeployProgress::Next(DeployStep::WritePin),
            DeployStep::WritePin => DeployProgress::Next(DeployStep::Pin),
            DeployStep::Pin => DeployProgress::Complete,
        },
    }
}

/// How far a deployment has come after `outcomes`.
pub open spec fn progress_after(
    outcomes: Seq<Result<bool, Seq<char>>>,
    label: Seq<char>,
) -> DeployProgress<Seq<char>>
    decreases outcomes.len(),
{
    if outcomes.len() == 0 {
        DeployProgress::Next(DeployStep::ProbeStaging)
    } else {
        match progress_after(outcomes.drop_last(), label) {
            DeployProgress::Next(step) => deploy(step, outcomes.last(), label),
            ended => ended,
        }
    }
}

/// What a directory of the store holds.
pub enum Tree {
    /// Nothing.
    Empty,
    /// All that the archive holds, and nothing else.
    Whole,
    /// Anything else.
    Other,
}

/// The directory of all versions: its subdirectories by name, the pin, and the
/// draft of a new pin.
pub struct Store {
    pub dirs: Map<Seq<char>, Tree>,
    pub pin: Option<Seq<char>>,
    pub draft: Option<Seq<char>>,
}

/// `before` and `after` have the same directory, or none, under `name`.
pub open spec fn agree_on(before: Store, after: Store, name: Seq<char>) -> bool {
    &&& before.dirs.contains_key(name) == after.dirs.contains_key(name)
    &&& before.dirs.contains_key(name) ==> before.dirs[name] == after.dirs[name]
}

/// `after` is `before` but for the directory `name`.
pub open spec fn differ_at_most_at(before: Store, after: Store, name: Seq<char>) -> bool {
    &&& before.pin == after.pin
    &&& before.draft == after.draft
    &&& forall|other: Seq<char>| other != name ==> #[trigger] agree_on(before, after, other)
}

/// What `step`, performed for `version`, does to the store. Creating a directory
/// that exists leaves it as it is, and unpacking adds to what the directory
/// holds, so that only an empty one is known to hold the archive afterwards.
/// Removing, creating, unpacking and writing can fail half-way; renaming happens
/// as a whole or not at all. The archive is no part of the store.
pub open spec fn performed(
    step: DeployStep,
    version: Seq<char>,
    before: Store,
    after: Store,
    outcome: Result<bool, Seq<char>>,
) -> bool {
    let staging = staging_of(version);
    match (step, outcome) {
        (DeployStep::ProbeStaging, Ok(found)) => after == before && found
            == before.dirs.contains_key(staging),
        (DeployStep::ProbeTarget, Ok(found)) => after == before && found
            == before.dirs.contains_key(version),
        (DeployStep::ClearStaging, Ok(_)) => after == (Store {
            dirs: before.dirs.remove(staging),
            ..before
        }),
        (DeployStep::ClearTarget, Ok(_)) => after == (Store {
            dirs: before.dirs.remove(version),
            ..before
        }),
        (DeployStep::CreateStaging, Ok(_)) => if before.dirs.contains_key(staging) {
            after == before
        } else {
            after == (Store { dirs: before.dirs.insert(staging, Tree::Empty), ..before })
        },
        (DeployStep::OpenArchive, _) => after == before,
        (DeployStep::Unpack, Ok(_)) => if before.dirs.contains_key(staging) && before.dirs[staging]
            == Tree::Empty {
            after == (Store { dirs: before.dirs.insert(staging, Tree::Whole), ..before })
        } else {
            differ_at_most_at(before, after, staging)
        },
        (DeployStep::Promote, Ok(_)) => before.dirs.contains_key(staging) && after == (Store {
            dirs: before.dirs.remove(staging).insert(version, before.dirs[staging]),
            ..before
        }),
        (DeployStep::WritePin, Ok(_)) => after == (Store { draft: Some(pin_of(version)), ..before }),
        (DeployStep::Pin, Ok(_)) => before.draft is Some && after == (Store {
            pin: before.draft,
            draft: None,
            ..before
        }),
        (DeployStep::ProbeStaging, Err(_)) => after == before,
        (DeployStep::ProbeTarget, Err(_)) => after == before,
        (DeployStep::ClearTarget, Err(_)) => differ_at_most_at(before, after, version),
        (DeployStep::Promote, Err(_)) => after == before,
        (DeployStep::WritePin, Err(_)) => after == (Store { draft: after.draft, ..before }),
        (DeployStep::Pin, Err(_)) => after == before,
        (_, Err(_)) => differ_at_most_at(before, after, staging),
    }
}

/// A deployment of `version` as it happened: the store at the start and after
/// each step, and the outcomes of the steps.
pub open spec fn deployment(
    version: Seq<char>,
    label: Seq<char>,
    stores: Seq<Store>,
    outcomes: Seq<Result<bool, Seq<char>>>,
) -> bool
    decreases outcomes.len(),
{
    &&& stores.len() == outcomes.len() + 1
    &&& outcomes.len() > 0 ==> {
        &&& deployment(version, label, stores.drop_last(), outcomes.drop_last())
        &&& progress_after(outcomes.drop_last(), label) matches DeployProgress::Next(step)
            && performed(step, version, stores[stores.len() - 2], stores.last(), outcomes.last())
    }
}

/// The store holds `tree` under `name`.
pub open spec fn holds(store: Store, name: Seq<char>, tree: Tree) -> bool {
    store.dirs.contains_key(name) && store.dirs[name] == tree
}

/// What holds of the store when `step` is about to be performed.
pub open spec fn ready_for(step: DeployStep, version: Seq<char>, first: Store, now: Store) -> bool {
    let staging = staging_of(version);
    &&& now.pin == first.pin
    &&& match step {
        DeployStep::ProbeStaging => now == first,
        DeployStep::ClearStaging => now == first && now.dirs.contains_key(staging),
        DeployStep::ProbeTarget => {
            &&& agree_on(first, now, version)
            &&& !now.dirs.contains_key(staging)
        },
        DeployStep::ClearTarget => {
            &&& agree_on(first, now, version)
            &&& now.dirs.contains_key(version)
            &&& !now.dirs.contains_key(staging)
        },
        DeployStep::CreateStaging => {
            &&& !now.dirs.contains_key(version)
            &&& !now.dirs.contains_key(staging)
        },
        DeployStep::OpenArchive | DeployStep::Unpack => {
            &&& !now.dirs.contains_key(version)
            &&& holds(now, staging, Tree::Empty)
        },
        DeployStep::Promote => {
            &&& !now.dirs.contains_key(version)
            &&& holds(now, staging, Tree::Whole)
        },
        DeployStep::WritePin => {
            &&& holds(now, version, Tree::Whole)
            &&& !now.dirs.contains_key(staging)
        },
        DeployStep::Pin => {
            &&& holds(now, version, Tree::Whole)
            &&& !now.dirs.contains_key(staging)
            &&& now.draft == Some(pin_of(version))
        },
    }
}

/// What stands under the name of `version` when `step` has failed: before the
/// old directory is removed, what stood there at first; once it is removed,
/// nothing; and once the new one has been moved there, the whole new tree. A
/// removal that failed half-way leaves open what is left.
pub open spec fn left_behind(step: DeployStep, version: Seq<char>, first: Store, last: Store) -> bool {
    match step {
        DeployStep::ProbeStaging | DeployStep::ClearStaging | DeployStep::ProbeTarget => agree_on(
            first,
            last,
            version,
        ),
        DeployStep::ClearTarget => true,
        DeployStep::CreateStaging
        | DeployStep::OpenArchive
        | DeployStep::Unpack
        | DeployStep::Promote => !last.dirs.contains_key(version),
        DeployStep::WritePin | DeployStep::Pin => holds(last, version, Tree::Whole),
    }
}

/// What holds of the store after `outcomes`.
spec fn on_course(
    version: Seq<char>,
    label: Seq<char>,
    first: Store,
    now: Store,
    outcomes: Seq<Result<bool, Seq<char>>>,
) -> bool {
    match progress_after(outcomes, label) {
        DeployProgress::Next(step) => ready_for(step, version, first, now),
        DeployProgress::Complete => {
            &&& holds(now, version, Tree::Whole)
            &&& !now.dirs.contains_key(staging_of(version))
            &&& now.pin == Some(pin_of(version))
        },
        DeployProgress::Failed(_) => {
            &&& outcomes.len() > 0
            &&& now.pin == first.pin
            &&& progress_after(outcomes.drop_last(), label) matches DeployProgress::Next(step)
                && left_behind(step, version, first, now)
        },
    }
}

proof fn lemma_staging_differs(version: Seq<char>)
    ensures
        staging_of(version) != version,
{
    reveal_strlit(".tmp");
    assert(staging_of(version).len() == version.len() + 4);
}

proof fn lemma_deployment(
    version: Seq<char>,
    label: Seq<char>,
    stores: Seq<Store>,
    outcomes: Seq<Result<bool, Seq<char>>>,
    other: Seq<char>,
)
    requires
        deployment(version, label, stores, outcomes),
    ensures
        on_course(version, label, stores.first(), stores.last(), outcomes),
        other != version && other != staging_of(version) ==> agree_on(
            stores.first(),
            stores.last(),
            other,
        ),
    decreases outcomes.len(),
{
    if outcomes.len() > 0 {
        let earlier = stores.drop_last();
        lemma_staging_differs(version);
        lemma_deployment(version, label, earlier, outcomes.drop_last(), other);
        assert(earlier.first() == stores.first());
        assert(earlier.last() == stores[stores.len() - 2]);
        let step = progress_after(outcomes.drop_last(), label)->Next_0;
        let before = earlier.last();
        let after = stores.last();
        assert(performed(step, version, before, after, outcomes.last()));
        assert(other != version && other != staging_of(version) ==> agree_on(before, after, other));
        assert(differ_at_most_at(before, after, staging_of(version)) ==> agree_on(
            before,
            after,
            version,
        ));
        if outcomes.last() is Err {
            assert(progress_after(outcomes, label) is Failed);
        }
    }
}

/// A deployment touches no version but its own: whatever goes wrong in it, every
/// other directory of the store is as it was, apart from the deployment's own
/// staging directory.
pub proof fn other_versions_are_untouched(
    version: Seq<char>,
    label: Seq<char>,
    stores: Seq<Store>,
    outcomes: Seq<Result<bool, Seq<char>>>,
    other: Seq<char>,
)
    requires
        deployment(version, label, stores, outcomes),
        other != version,
        other != staging_of(version),
    ensures
        agree_on(stores.first(), stores.last(), other),
{
    lemma_deployment(version, label, stores, outcomes, other);
}

/// A failed deployment leaves the old version in use: whatever went wrong, the
/// pin is as it was before.
pub proof fn a_failed_deployment_keeps_the_pin(
    version: Seq<char>,
    label: Seq<char>,
    stores: Seq<Store>,
    outcomes: Seq<Result<bool, Seq<char>>>,
)
    requires
        deployment(version, label, stores, outcomes),
        progress_after(outcomes, label) is Failed,
    ensures
        stores.last().pin == stores.first().pin,
{
    lemma_deployment(version, label, stores, outcomes, version);
}

/// A version is pinned only once it is wholly in place: a complete deployment
/// leaves the version whole and pinned, and no staging directory; until then the
/// pin is the old one.
pub proof fn a_pinned_version_is_whole(
    version: Seq<char>,
    label: Seq<char>,
    stores: Seq<Store>,
    outcomes: Seq<Result<bool, Seq<char>>>,
)
    requires
        deployment(version, label, stores, outcomes),
    ensures
        progress_after(outcomes, label) is Next ==> stores.last().pin == stores.first().pin,
        progress_after(outcomes, label) is Complete ==> {
            &&& stores.last().dirs.contains_key(version)
            &&& stores.last().dirs[version] == Tree::Whole
            &&& stores.last().pin == Some(pin_of(version))
            &&& !stores.last().dirs.contains_key(staging_of(version))
        },
{
    lemma_deployment(version, label, stores, outcomes, version);
}

/// A version is unpacked into a fresh directory: whatever an earlier deployment
/// left behind, the staging directory is empty when the archive is unpacked, and
/// it holds the archive and nothing else when it is moved to the version's name.
pub proof fn a_version_is_unpacked_into_a_fresh_directory(
    version: Seq<char>,
    label: Seq<char>,
    stores: Seq<Store>,
    outcomes: Seq<Result<bool, Seq<char>>>,
)
    requires
        deployment(version, label, stores, outcomes),
    ensures
        progress_after(outcomes, label) == DeployProgress::<Seq<char>>::Next(DeployStep::CreateStaging)
            ==> !stores.last().dirs.contains_key(staging_of(version)),
        progress_after(outcomes, label) == DeployProgress::<Seq<char>>::Next(DeployStep::Unpack)
            ==> holds(stores.last(), staging_of(version), Tree::Empty),
        progress_after(outcomes, label) == DeployProgress::<Seq<char>>::Next(DeployStep::Promote)
            ==> holds(stores.last(), staging_of(version), Tree::Whole),
{
    lemma_deployment(version, label, stores, outcomes, version);
}

/// A version is replaced in one piece: while a deployment goes on, what stands
/// under the version's name is what stood there before, or nothing, or the whole
/// new tree; which of them is known at every step.
pub proof fn a_version_is_replaced_in_one_piece(
    version: Seq<char>,
    label: Seq<char>,
    stores: Seq<Store>,
    outcomes: Seq<Result<bool, Seq<char>>>,
)
    requires
        deployment(version, label, stores, outcomes),
        progress_after(outcomes, label) is Next,
    ensures
        stores.last().dirs.contains_key(version) ==> stores.last().dirs[version] == Tree::Whole
            || agree_on(stores.first(), stores.last(), version),
        ready_for(
            progress_after(outcomes, label)->Next_0,
            version,
            stores.first(),
            stores.last(),
        ),
{
    lemma_deployment(version, label, stores, outcomes, version);
}

/// A failed deployment leaves no half of a version under its name: there is what
/// stood there before, or nothing, or the whole new tree, unless it was the
/// removal of the old directory that failed. In particular a failed unpacking
/// leaves nothing there.
pub proof fn a_failed_deployment_leaves_no_half(
    version: Seq<char>,
    label: Seq<char>,
    stores: Seq<Store>,
    outcomes: Seq<Result<bool, Seq<char>>>,
)
    requires
        deployment(version, label, stores, outcomes),
        progress_after(outcomes, label) is Failed,
    ensures
        progress_after(outcomes.drop_last(), label) matches DeployProgress::Next(step)
            && left_behind(step, version, stores.first(), stores.last()),
        progress_after(outcomes.drop_last(), label) == DeployProgress::<Seq<char>>::Next(
            DeployStep::Unpack,
        ) ==> !stores.last().dirs.contains_key(version),
        progress_after(outcomes.drop_last(), label) != DeployProgress::<Seq<char>>::Next(
            DeployStep::ClearTarget,
        ) && stores.last().dirs.contains_key(version) ==> stores.last().dirs[version] == Tree::Whole
            || agree_on(stores.first(), stores.last(), version),
{
    lemma_deployment(version, label, stores, outcomes, version);
}

/// A step that fails ends the deployment with its message; only that of a failed
/// unpacking gets the label in front.
pub proof fn a_failed_step_is_the_last(step: DeployStep, message: Seq<char>, label: Seq<char>)
    ensures
        step is Unpack ==> deploy(step, Err(message), label) == DeployProgress::Failed(
            label + message,
        ),
        !(step is Unpack) ==> deploy(step, Err(message), label) == DeployProgress::Failed(message),
{
}

/// The steps follow one another in a fixed order. What a probe found decides
/// whether something is cleared away; what any other successful step answers
/// makes no difference.
pub proof fn the_steps_follow_in_order(answer: bool, label: Seq<char>)
    ensures
        deploy(DeployStep::ProbeStaging, Ok(true), label) == DeployProgress::<Seq<char>>::Next(
            DeployStep::ClearStaging,
        ),
        deploy(DeployStep::ProbeStaging, Ok(false), label) == DeployProgress::<Seq<char>>::Next(
            DeployStep::ProbeTarget,
        ),
        deploy(DeployStep::ClearStaging, Ok(answer), label) == DeployProgress::<Seq<char>>::Next(
            DeployStep::ProbeTarget,
        ),
        deploy(DeployStep::ProbeTarget, Ok(true), label) == DeployProgress::<Seq<char>>::Next(
            DeployStep::ClearTarget,
        ),
        deploy(DeployStep::ProbeTarget, Ok(false), label) == DeployProgress::<Seq<char>>::Next(
            DeployStep::CreateStaging,
        ),
        deploy(DeployStep::ClearTarget, Ok(answer), label) == DeployProgress::<Seq<char>>::Next(
            DeployStep::CreateStaging,
        ),
        deploy(DeployStep::CreateStaging, Ok(answer), label) == DeployProgress::<Seq<char>>::Next(
            DeployStep::OpenArchive,
        ),
        deploy(DeployStep::OpenArchive, Ok(answer), label) == DeployProgress::<Seq<char>>::Next(
            DeployStep::Unpack,
        ),
        deploy(DeployStep::Unpack, Ok(answer), label) == DeployProgress::<Seq<char>>::Next(
            DeployStep::Promote,
        ),
        deploy(DeployStep::Promote, Ok(answer), label) == DeployProgress::<Seq<char>>::Next(
            DeployStep::WritePin,
        ),
        deploy(DeployStep::WritePin, Ok(answer), label) == DeployProgress::<Seq<char>>::Next(
            DeployStep::Pin,
        ),
        deploy(DeployStep::Pin, Ok(answer), label) == DeployProgress::<Seq<char>>::Complete,
{
}

/// The staging directory of a version bears its name with a suffix, and no
/// version shares it with another; the pin is the version on a line of its own.
pub proof fn each_version_has_its_own_names(version: Seq<char>, other: Seq<char>)
    ensures
        staging_of(version) == version + ".tmp"@,
        pin_of(version) == version + seq!['\n'],
        staging_of(version) != version,
        staging_of(version) == staging_of(other) ==> version == other,
        pin_of(version) == pin_of(other) ==> version == other,
{
    lemma_staging_differs(version);
    assert(pin_of(version) =~= version + seq!['\n']);
    if staging_of(version) == staging_of(other) {
        reveal_strlit(".tmp");
        assert(version =~= staging_of(version).take(staging_of(version).len() - 4));
        assert(other =~= staging_of(other).take(staging_of(other).len() - 4));
    }
    assert(version =~= pin_of(version).drop_last());
    assert(other =~= pin_of(other).drop_last());
}

/// The versions, the pin and its draft have names of their own.
pub proof fn the_store_has_its_names()
    ensures
        KERNEL_DIR@ == "kernel"@,
        PIN_FILE@ == "CURRENT"@,
        PIN_DRAFT@ == "CURRENT.tmp"@,
        PIN_DRAFT@ != PIN_FILE@,
{
    reveal_strlit("CURRENT");
    reveal_strlit("CURRENT.tmp");
    assert(PIN_DRAFT@.len() != PIN_FILE@.len());
}

} // verus!
