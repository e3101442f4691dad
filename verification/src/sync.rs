//! The sync sequence: fetch the new manifest, reconcile, remove what is
//! stale, fetch what is new, and only then put the new manifest in the place
//! of the old one. The machine is told what happened and answers with what
//! to do next.

use vstd::prelude::*;
use crate::error::ErrorKind;
use crate::fetch::FetchError;
use crate::modinfo::{ManifestError, ModView, ModpackConfig};
use crate::reconcile::{
    FetchOrder,
    FetchOrderView,
    fetch_orders,
    lemma_orders_follow_plan,
    lemma_same_manifest_plans_nothing,
    order_views,
    orders_of,
    plan,
    plan_of,
};
use crate::text::{join3, no_lines, push_line, texts};

verus! {

/// The file that holds the manifest applied last.
pub const ACTIVE_MANIFEST: &'static str = "mods.json";

/// The file that holds the manifest just fetched, until it is applied.
pub const CANDIDATE_MANIFEST: &'static str = "mods.json.new";

/// The directory of the packages and the two manifest files, below the
/// install directory.
pub const MODS_DIR: &'static str = "base10/mods/";

/// Where a sync pass stands.
#[derive(Clone, Copy, Debug, PartialEq, Eq, Structural)]
pub enum SyncStage {
    /// No pass is under way.
    Idle,
    /// The new manifest is being fetched to the candidate file.
    FetchingCandidate,
    /// Both manifests are being read.
    Reconciling,
    /// The stale package at `next` is being removed.
    Removing,
    /// The package at `next` of the downloads is being fetched.
    Fetching,
    /// Every download succeeded; the candidate is replacing the active
    /// manifest.
    Promoting,
    /// The pass was given up. The active manifest is as it was.
    Failed,
}

/// One sync pass.
#[derive(Clone, Debug, PartialEq, Eq)]
pub struct Sync {
    pub stage: SyncStage,
    /// The names of the packages to remove, in plan order.
    pub removals: Vec<String>,
    /// The downloads to make, in plan order.
    pub fetches: Vec<FetchOrder>,
    /// The removal or download under way.
    pub next: usize,
}

/// What happened outside since the last step.
#[derive(Debug, PartialEq, Eq)]
pub enum SyncEvent {
    /// A pass is asked for.
    Start,
    /// The new manifest is in the candidate file.
    CandidateFetched,
    /// The new manifest could not be fetched.
    CandidateFailed { error: FetchError, message: String },
    /// Both manifest files were read; each either gave a manifest or did
    /// not.
    ManifestsRead {
        active: Result<ModpackConfig, ManifestError>,
        candidate: Result<ModpackConfig, ManifestError>,
    },
    /// The file was removed.
    Removed,
    /// The file could not be removed.
    RemoveFailed,
    /// The archive was fetched.
    Fetched,
    /// The archive could not be fetched.
    FetchFailed { error: FetchError, message: String },
    /// The candidate replaced the active manifest.
    Promoted,
    /// The candidate could not replace the active manifest.
    PromoteFailed,
}

/// What to do next.
#[derive(Clone, Debug, PartialEq, Eq)]
pub enum SyncAction {
    /// Fetch `url` into `filename`.
    FetchCandidate { url: String, filename: String },
    /// Read the manifests in the two files.
    ReadManifests { active: String, candidate: String },
    /// Delete the installed file `filename`.
    Remove { filename: String },
    /// Fetch `url` into `filename`.
    Fetch { url: String, filename: String },
    /// Put the file `from` in the place of the file `to`, in one step.
    Promote { from: String, to: String },
    /// The pass is complete.
    Finish,
    /// The pass failed; show `message`.
    Fail { kind: ErrorKind, message: String },
    /// The event does not belong to the stage; nothing changed.
    Nothing,
}

/// The answer to an event: lines to log, then the action.
#[derive(Clone, Debug, PartialEq, Eq)]
pub struct SyncOutput {
    pub log: Vec<String>,
    pub action: SyncAction,
}

/// A `Sync` with its texts as sequences of characters.
pub struct SyncView {
    pub stage: SyncStage,
    pub removals: Seq<Seq<char>>,
    pub fetches: Seq<FetchOrderView>,
    pub next: nat,
}

/// A `SyncEvent` as the machine reads it.
pub enum SyncEventView {
    Start,
    CandidateFetched,
    CandidateFailed { error: FetchError, message: Seq<char> },
    /// The packages of the active manifest, where it could be read, and
    /// those of the candidate, or why it was refused.
    ManifestsRead { active: Option<Seq<ModView>>, candidate: Result<Seq<ModView>, ManifestError> },
    Removed,
    RemoveFailed,
    Fetched,
    FetchFailed { error: FetchError, message: Seq<char> },
    Promoted,
    PromoteFailed,
}

/// A `SyncAction` with its texts as sequences of characters.
pub enum SyncActionView {
    FetchCandidate { url: Seq<char>, filename: Seq<char> },
    ReadManifests { active: Seq<char>, candidate: Seq<char> },
    Remove { filename: Seq<char> },
    Fetch { url: Seq<char>, filename: Seq<char> },
    Promote { from: Seq<char>, to: Seq<char> },
    Finish,
    Fail { kind: ErrorKind, message: Seq<char> },
    Nothing,
}

/// A `SyncOutput` with its texts as sequences of characters.
pub struct SyncOutputView {
    pub log: Seq<Seq<char>>,
    pub action: SyncActionView,
}

impl View for Sync {
    type V = SyncView;

    open spec fn view(&self) -> SyncView {
        SyncView {
            stage: self.stage,
            removals: texts(self.removals@),
            fetches: order_views(self.fetches@),
            next: self.next as nat,
        }
    }
}

impl View for SyncEvent {
    type V = SyncEventView;

    open spec fn view(&self) -> SyncEventView {
        match *self {
            SyncEvent::Start => SyncEventView::Start,
            SyncEvent::CandidateFetched => SyncEventView::CandidateFetched,
            SyncEvent::CandidateFailed { error, message } => SyncEventView::CandidateFailed {
                error,
                message: message@,
            },
            SyncEvent::ManifestsRead { active, candidate } => SyncEventView::ManifestsRead {
                active: match active {
                    Ok(manifest) => Some(manifest@.mods),
                    Err(_) => None,
                },
                candidate: match candidate {
                    Ok(manifest) => Ok(manifest@.mods),
                    Err(error) => Err(error),
                },
            },
            SyncEvent::Removed => SyncEventView::Removed,
            SyncEvent::RemoveFailed => SyncEventView::RemoveFailed,
            SyncEvent::Fetched => SyncEventView::Fetched,
            SyncEvent::FetchFailed { error, message } => SyncEventView::FetchFailed {
                error,
                message: message@,
            },
            SyncEvent::Promoted => SyncEventView::Promoted,
            SyncEvent::PromoteFailed => SyncEventView::PromoteFailed,
        }
    }
}

impl View for SyncAction {
    type V = SyncActionView;

    open spec fn view(&self) -> SyncActionView {
        match *self {
            SyncAction::FetchCandidate { url, filename } => SyncActionView::FetchCandidate {
                url: url@,
                filename: filename@,
            },
            SyncAction::ReadManifests { active, candidate } => SyncActionView::ReadManifests {
                active: active@,
                candidate: candidate@,
            },
            SyncAction::Remove { filename } => SyncActionView::Remove { filename: filename@ },
            SyncAction::Fetch { url, filename } => SyncActionView::Fetch {
                url: url@,
                filename: filename@,
            },
            SyncAction::Promote { from, to } => SyncActionView::Promote { from: from@, to: to@ },
            SyncAction::Finish => SyncActionView::Finish,
            SyncAction::Fail { kind, message } => SyncActionView::Fail { kind, message: message@ },
            SyncAction::Nothing => SyncActionView::Nothing,
        }
    }
}

impl View for SyncOutput {
    type V = SyncOutputView;

    open spec fn view(&self) -> SyncOutputView {
        SyncOutputView { log: texts(self.log@), action: self.action@ }
    }
}

impl SyncView {
    /// This pass, given up.
    pub open spec fn failed(self) -> SyncView {
        SyncView { stage: SyncStage::Failed, ..self }
    }

    /// Starts the download at `k`, or promotes where no download is left.
    pub open spec fn fetch_from(self, k: int, log: Seq<Seq<char>>) -> (SyncView, SyncOutputView) {
        if 0 <= k < self.fetches.len() {
            (
                SyncView { stage: SyncStage::Fetching, next: k as nat, ..self },
                SyncOutputView {
                    log: log.push("Downloading new mod "@ + self.fetches[k].name),
                    action: SyncActionView::Fetch {
                        url: self.fetches[k].url,
                        filename: self.fetches[k].filename,
                    },
                },
            )
        } else {
            (
                SyncView { stage: SyncStage::Promoting, next: self.fetches.len(), ..self },
                SyncOutputView {
                    log,
                    action: SyncActionView::Promote {
                        from: CANDIDATE_MANIFEST@,
                        to: ACTIVE_MANIFEST@,
                    },
                },
            )
        }
    }

    /// Starts the removal at `k`, or goes on to the downloads where no
    /// removal is left.
    pub open spec fn remove_from(self, k: int, log: Seq<Seq<char>>) -> (SyncView, SyncOutputView) {
        if 0 <= k < self.removals.len() {
            (
                SyncView { stage: SyncStage::Removing, next: k as nat, ..self },
                SyncOutputView {
                    log: log.push("Removing old mod "@ + self.removals[k]),
                    action: SyncActionView::Remove { filename: self.removals[k] + ".pak"@ },
                },
            )
        } else {
            self.fetch_from(0, log.push("Finished removing old mods"@))
        }
    }

    /// Gives the pass up with a line for the user.
    pub open spec fn give_up(self, kind: ErrorKind, message: Seq<char>) -> (
        SyncView,
        SyncOutputView,
    ) {
        (
            self.failed(),
            SyncOutputView {
                log: Seq::empty(),
                action: SyncActionView::Fail { kind, message },
            },
        )
    }

    /// The pass and the answer after `event`.
    pub open spec fn step(self, event: SyncEventView) -> (SyncView, SyncOutputView) {
        match (self.stage, event) {
            (SyncStage::Idle, SyncEventView::Start) => (
                SyncView {
                    stage: SyncStage::FetchingCandidate,
                    removals: Seq::empty(),
                    fetches: Seq::empty(),
                    next: 0,
                },
                SyncOutputView {
                    log: seq!["Starting update process"@],
                    action: SyncActionView::FetchCandidate {
                        url: ACTIVE_MANIFEST@,
                        filename: CANDIDATE_MANIFEST@,
                    },
                },
            ),
            (SyncStage::FetchingCandidate, SyncEventView::CandidateFetched) => (
                SyncView { stage: SyncStage::Reconciling, ..self },
                SyncOutputView {
                    log: Seq::empty(),
                    action: SyncActionView::ReadManifests {
                        active: ACTIVE_MANIFEST@,
                        candidate: CANDIDATE_MANIFEST@,
                    },
                },
            ),
            (
                SyncStage::FetchingCandidate,
                SyncEventView::CandidateFailed { error, message },
            ) => self.give_up(error.kind_of(), message),
            (SyncStage::Reconciling, SyncEventView::ManifestsRead { active, candidate }) => {
                match candidate {
                    Err(error) => self.give_up(error.kind_of(), error.message_of()),
                    Ok(mods) => SyncView {
                        removals: plan_of(active, mods).to_remove,
                        fetches: orders_of(active, mods),
                        ..self
                    }.remove_from(0, Seq::empty()),
                }
            },
            (SyncStage::Removing, SyncEventView::Removed) => self.remove_from(
                (self.next + 1) as int,
                Seq::empty(),
            ),
            (SyncStage::Removing, SyncEventView::RemoveFailed) => self.remove_from(
                (self.next + 1) as int,
                seq!["Failed to remove file!"@],
            ),
            (SyncStage::Fetching, SyncEventView::Fetched) => self.fetch_from(
                (self.next + 1) as int,
                Seq::empty(),
            ),
            (SyncStage::Fetching, SyncEventView::FetchFailed { error, message }) => self.give_up(
                error.kind_of(),
                message,
            ),
            (SyncStage::Promoting, SyncEventView::Promoted) => (
                SyncView { stage: SyncStage::Idle, ..self },
                SyncOutputView { log: Seq::empty(), action: SyncActionView::Finish },
            ),
            (SyncStage::Promoting, SyncEventView::PromoteFailed) => self.give_up(
                ErrorKind::IoError,
                "Failed to replace the installed mod list!"@,
            ),
            _ => (self, SyncOutputView { log: Seq::empty(), action: SyncActionView::Nothing }),
        }
    }
}

impl Sync {
    /// A pass that has not begun.
    pub fn new() -> (sync: Sync)
        ensures
            sync@ == (SyncView {
                stage: SyncStage::Idle,
                removals: Seq::empty(),
                fetches: Seq::empty(),
                next: 0,
            }),
    {
        let sync = Sync {
            stage: SyncStage::Idle,
            removals: Vec::new(),
            fetches: Vec::new(),
            next: 0,
        };
        assert(sync@.removals =~= Seq::<Seq<char>>::empty());
        assert(sync@.fetches =~= Seq::<FetchOrderView>::empty());
        sync
    }

    fn fetch_from(&mut self, k: usize, log: Vec<String>) -> (out: SyncOutput)
        ensures
            final(self)@ == old(self)@.fetch_from(k as int, texts(log@)).0,
            out@ == old(self)@.fetch_from(k as int, texts(log@)).1,
    {
        let mut log = log;
        if k < self.fetches.len() {
            self.stage = SyncStage::Fetching;
            self.next = k;
            let mut line = "Downloading new mod ".to_owned();
            line.append(self.fetches[k].name.as_str());
            push_line(&mut log, line);
            SyncOutput {
                log,
                action: SyncAction::Fetch {
                    url: self.fetches[k].url.clone(),
                    filename: self.fetches[k].filename.clone(),
                },
            }
        } else {
            self.stage = SyncStage::Promoting;
            self.next = self.fetches.len();
            SyncOutput {
                log,
                action: SyncAction::Promote {
                    from: CANDIDATE_MANIFEST.to_owned(),
                    to: ACTIVE_MANIFEST.to_owned(),
                },
            }
        }
    }

    fn remove_from(&mut self, k: usize, log: Vec<String>) -> (out: SyncOutput)
        ensures
            final(self)@ == old(self)@.remove_from(k as int, texts(log@)).0,
            out@ == old(self)@.remove_from(k as int, texts(log@)).1,
    {
        let mut log = log;
        if k < self.removals.len() {
            self.stage = SyncStage::Removing;
            self.next = k;
            let mut line = "Removing old mod ".to_owned();
            line.append(self.removals[k].as_str());
            push_line(&mut log, line);
            let mut filename = self.removals[k].clone();
            filename.append(".pak");
            SyncOutput { log, action: SyncAction::Remove { filename } }
        } else {
            push_line(&mut log, "Finished removing old mods".to_owned());
            self.fetch_from(0, log)
        }
    }

    fn give_up(&mut self, kind: ErrorKind, message: String) -> (out: SyncOutput)
        ensures
            final(self)@ == old(self)@.give_up(kind, message@).0,
            out@ == old(self)@.give_up(kind, message@).1,
    {
        self.stage = SyncStage::Failed;
        SyncOutput { log: no_lines(), action: SyncAction::Fail { kind, message } }
    }

    fn remove_after(&mut self, log: Vec<String>) -> (out: SyncOutput)
        ensures
            final(self)@ == old(self)@.remove_from((old(self)@.next + 1) as int, texts(log@)).0,
            out@ == old(self)@.remove_from((old(self)@.next + 1) as int, texts(log@)).1,
    {
        if self.next < self.removals.len() {
            self.remove_from(self.next + 1, log)
        } else {
            self.remove_from(self.removals.len(), log)
        }
    }

    fn fetch_after(&mut self, log: Vec<String>) -> (out: SyncOutput)
        ensures
            final(self)@ == old(self)@.fetch_from((old(self)@.next + 1) as int, texts(log@)).0,
            out@ == old(self)@.fetch_from((old(self)@.next + 1) as int, texts(log@)).1,
    {
        if self.next < self.fetches.len() {
            self.fetch_from(self.next + 1, log)
        } else {
            self.fetch_from(self.fetches.len(), log)
        }
    }

    /// Takes in what happened and says what to do next.
    pub fn step(&mut self, event: SyncEvent) -> (out: SyncOutput)
        ensures
            final(self)@ == old(self)@.step(event@).0,
            out@ == old(self)@.step(event@).1,
    {
        match (self.stage, event) {
            (SyncStage::Idle, SyncEvent::Start) => {
                self.stage = SyncStage::FetchingCandidate;
                self.removals = no_lines();
                self.fetches = Vec::new();
                self.next = 0;
                assert(order_views(self.fetches@) =~= Seq::<FetchOrderView>::empty());
                let mut log = no_lines();
                push_line(&mut log, "Starting update process".to_owned());
                assert(texts(log@) =~= seq!["Starting update process"@]);
                SyncOutput {
                    log,
                    action: SyncAction::FetchCandidate {
                        url: ACTIVE_MANIFEST.to_owned(),
                        filename: CANDIDATE_MANIFEST.to_owned(),
                    },
                }
            },
            (SyncStage::FetchingCandidate, SyncEvent::CandidateFetched) => {
                self.stage = SyncStage::Reconciling;
                SyncOutput {
                    log: no_lines(),
                    action: SyncAction::ReadManifests {
                        active: ACTIVE_MANIFEST.to_owned(),
                        candidate: CANDIDATE_MANIFEST.to_owned(),
                    },
                }
            },
            (SyncStage::FetchingCandidate, SyncEvent::CandidateFailed { error, message }) => {
                self.give_up(error.kind(), message)
            },
            (SyncStage::Reconciling, SyncEvent::ManifestsRead { active, candidate }) => {
                match candidate {
                    Err(error) => self.give_up(error.kind(), error.message()),
                    Ok(fetched) => {
                        let installed = match &active {
                            Ok(manifest) => Some(manifest),
                            Err(_) => None,
                        };
                        let plan = plan(installed, &fetched);
                        self.removals = plan.to_remove;
                        self.fetches = fetch_orders(installed, &fetched);
                        self.remove_from(0, no_lines())
                    },
                }
            },
            (SyncStage::Removing, SyncEvent::Removed) => self.remove_after(no_lines()),
            (SyncStage::Removing, SyncEvent::RemoveFailed) => {
                let mut log = no_lines();
                push_line(&mut log, "Failed to remove file!".to_owned());
                assert(texts(log@) =~= seq!["Failed to remove file!"@]);
                self.remove_after(log)
            },
            (SyncStage::Fetching, SyncEvent::Fetched) => self.fetch_after(no_lines()),
            (SyncStage::Fetching, SyncEvent::FetchFailed { error, message }) => {
                self.give_up(error.kind(), message)
            },
            (SyncStage::Promoting, SyncEvent::Promoted) => {
                self.stage = SyncStage::Idle;
                SyncOutput { log: no_lines(), action: SyncAction::Finish }
            },
            (SyncStage::Promoting, SyncEvent::PromoteFailed) => {
                self.give_up(
                    ErrorKind::IoError,
                    "Failed to replace the installed mod list!".to_owned(),
                )
            },
            _ => SyncOutput { log: no_lines(), action: SyncAction::Nothing },
        }
    }
}

impl SyncView {
    /// The removal or download under way is one of the plan, and promotion
    /// is under way only with every download behind.
    pub open spec fn well_formed(self) -> bool {
        match self.stage {
            SyncStage::Removing => self.next < self.removals.len(),
            SyncStage::Fetching => self.next < self.fetches.len(),
            SyncStage::Promoting => self.next == self.fetches.len(),
            _ => true,
        }
    }
}

/// A pass that has not begun is well formed, and no event makes a well
/// formed pass ill formed.
pub proof fn lemma_step_keeps_well_formed(pass: SyncView, event: SyncEventView)
    requires
        pass.well_formed(),
    ensures
        pass.step(event).0.well_formed(),
{
}

/// The candidate manifest replaces the active one only after every download
/// of the plan has succeeded: promotion is asked for either on the success
/// of the last download, or, with no download planned, once the removals
/// are through.
pub proof fn lemma_promotes_only_after_last_fetch(pass: SyncView, event: SyncEventView)
    requires
        pass.well_formed(),
    ensures
        pass.step(event).1.action is Promote <==> pass.step(event).0.stage is Promoting
            && !(pass.stage is Promoting),
        pass.step(event).1.action is Promote ==> {
            ||| pass.stage is Fetching && event is Fetched && pass.next + 1 == pass.fetches.len()
            ||| pass.step(event).0.fetches.len() == 0 && (pass.stage is Reconciling
                || pass.stage is Removing)
        },
{
}

/// Downloads are made one at a time and in plan order: the download at
/// `k + 1` begins only on the success of the download at `k`, and the first
/// one only once the removals are through.
pub proof fn lemma_fetches_follow_plan_order(pass: SyncView, event: SyncEventView)
    requires
        pass.well_formed(),
        pass.step(event).1.action is Fetch,
    ensures
        pass.step(event).0.stage is Fetching,
        pass.step(event).1.action == (SyncActionView::Fetch {
            url: pass.step(event).0.fetches[pass.step(event).0.next as int].url,
            filename: pass.step(event).0.fetches[pass.step(event).0.next as int].filename,
        }),
        pass.stage is Fetching ==> event is Fetched && pass.step(event).0.next == pass.next + 1,
        !(pass.stage is Fetching) ==> pass.step(event).0.next == 0 && (pass.stage is Reconciling
            || pass.stage is Removing),
{
}

/// The first download that fails ends the pass: the pass is given up, and a
/// pass given up answers every later event with nothing, so it never asks
/// for promotion.
pub proof fn lemma_failed_fetch_ends_pass(
    pass: SyncView,
    error: FetchError,
    message: Seq<char>,
    later: SyncEventView,
)
    requires
        pass.stage is Fetching,
    ensures
        pass.step(SyncEventView::FetchFailed { error, message }).0 == pass.failed(),
        pass.step(SyncEventView::FetchFailed { error, message }).1.action == (SyncActionView::Fail {
            kind: error.kind_of(),
            message,
        }),
        pass.failed().step(later).0 == pass.failed(),
        pass.failed().step(later).1.action is Nothing,
{
}

/// A candidate manifest that cannot be fetched or is refused ends the pass
/// before anything is removed or fetched.
pub proof fn lemma_bad_candidate_ends_pass(pass: SyncView, event: SyncEventView)
    requires
        (pass.stage is FetchingCandidate && event is CandidateFailed) || (pass.stage is Reconciling
            && event is ManifestsRead && event->candidate is Err),
    ensures
        pass.step(event).0 == pass.failed(),
        pass.step(event).1.action is Fail,
{
}

/// An active manifest that cannot be read counts as none: the first sync,
/// which removes nothing and fetches every package of the candidate.
pub proof fn lemma_unreadable_active_is_first_sync(pass: SyncView, candidate: Seq<ModView>)
    requires
        pass.stage is Reconciling,
    ensures
        pass.step(SyncEventView::ManifestsRead { active: None, candidate: Ok(candidate) }).0.removals
            == Seq::<Seq<char>>::empty(),
        pass.step(SyncEventView::ManifestsRead { active: None, candidate: Ok(candidate) }).0.fetches
            == orders_of(None, candidate),
        pass.step(
            SyncEventView::ManifestsRead { active: None, candidate: Ok(candidate) },
        ).0.fetches.len() == candidate.len(),
{
}

/// A removal that fails does not hold the pass up: the pass goes on as
/// after a removal that succeeded, and only the log says what happened.
pub proof fn lemma_failed_removal_goes_on(pass: SyncView)
    requires
        pass.stage is Removing,
    ensures
        pass.step(SyncEventView::RemoveFailed).0 == pass.step(SyncEventView::Removed).0,
        pass.step(SyncEventView::RemoveFailed).1.action == pass.step(
            SyncEventView::Removed,
        ).1.action,
        !(pass.step(SyncEventView::RemoveFailed).0.stage is Failed),
{
}

/// A pass over a manifest that did not change removes and fetches nothing:
/// it goes from reading the manifests straight to promotion.
pub proof fn lemma_unchanged_manifest_touches_no_package(pass: SyncView, manifest: Seq<ModView>)
    requires
        pass.stage is Reconciling,
    ensures
        pass.step(
            SyncEventView::ManifestsRead { active: Some(manifest), candidate: Ok(manifest) },
        ).0.removals.len() == 0,
        pass.step(
            SyncEventView::ManifestsRead { active: Some(manifest), candidate: Ok(manifest) },
        ).0.fetches.len() == 0,
        pass.step(
            SyncEventView::ManifestsRead { active: Some(manifest), candidate: Ok(manifest) },
        ).1.action is Promote,
{
    lemma_same_manifest_plans_nothing(manifest);
    lemma_orders_follow_plan(Some(manifest), manifest);
}

impl SyncView {
    /// The pass after a run of events, each taken in by `step`.
    pub open spec fn run(self, events: Seq<SyncEventView>) -> SyncView
        decreases events.len(),
    {
        if events.len() == 0 {
            self
        } else {
            self.step(events[0]).0.run(events.drop_first())
        }
    }

    /// Whether some step of a run of events asks for promotion.
    pub open spec fn promotes_during(self, events: Seq<SyncEventView>) -> bool
        decreases events.len(),
    {
        if events.len() == 0 {
            false
        } else {
            self.step(events[0]).1.action is Promote || self.step(events[0]).0.promotes_during(
                events.drop_first(),
            )
        }
    }
}

/// A pass that was given up, as it is on the first download that fails,
/// never promotes the candidate manifest, whatever is reported to it
/// afterwards: it stays as it is, and no step asks for promotion.
pub proof fn lemma_failed_pass_never_promotes(pass: SyncView, events: Seq<SyncEventView>)
    requires
        pass.stage is Failed,
    ensures
        pass.run(events) == pass,
        !pass.promotes_during(events),
    decreases events.len(),
{
    if events.len() > 0 {
        assert(pass.step(events[0]).0 == pass);
        lemma_failed_pass_never_promotes(pass, events.drop_first());
    }
}

} // verus!
