//! Changing the install directory: ask for a folder, store it, set up the
//! boot configuration in it. The machine is told what happened and answers
//! with what to do next.

use vstd::prelude::*;

verus! {

/// Where a change of the install directory stands.
#[derive(Clone, Copy, Debug, PartialEq, Eq, Structural)]
pub enum LocationStage {
    /// The user is asked for a folder.
    Picking,
    /// The folder is being stored.
    Saving,
    /// The boot configuration is being written.
    Scaffolding,
    /// The change is through, or was called off.
    Done,
    /// The change failed.
    Failed,
}

/// What happened outside since the last step.
#[derive(Clone, Debug, PartialEq, Eq)]
pub enum LocationEvent {
    /// The user chose a folder, or none: the dialog was dismissed, or the
    /// folder's path is no text.
    Picked(Option<String>),
    /// The folder was stored.
    Saved,
    /// The folder could not be stored.
    SaveFailed,
    /// The boot configuration was written.
    Scaffolded,
    /// The boot configuration could not be written, for the reason given.
    ScaffoldFailed(String),
}

/// What to do next.
#[derive(Clone, Debug, PartialEq, Eq)]
pub enum LocationAction {
    /// Store `value` as the install directory.
    Save { value: String },
    /// Find the platform directory and write the boot configuration.
    Scaffold,
    /// Answer with the install directory as it is stored now.
    Report,
    /// Log `log` and answer with `message`.
    Fail { log: String, message: String },
    /// The event does not belong to the stage; nothing changed.
    Nothing,
}

/// A `LocationEvent` with its texts as sequences of characters.
pub enum LocationEventView {
    Picked(Option<Seq<char>>),
    Saved,
    SaveFailed,
    Scaffolded,
    ScaffoldFailed(Seq<char>),
}

/// A `LocationAction` with its texts as sequences of characters.
pub enum LocationActionView {
    Save { value: Seq<char> },
    Scaffold,
    Report,
    Fail { log: Seq<char>, message: Seq<char> },
    Nothing,
}

impl View for LocationEvent {
    type V = LocationEventView;

    open spec fn view(&self) -> LocationEventView {
        match *self {
            LocationEvent::Picked(folder) => LocationEventView::Picked(
                crate::text::opt_text(folder),
            ),
            LocationEvent::Saved => LocationEventView::Saved,
            LocationEvent::SaveFailed => LocationEventView::SaveFailed,
            LocationEvent::Scaffolded => LocationEventView::Scaffolded,
            LocationEvent::ScaffoldFailed(reason) => LocationEventView::ScaffoldFailed(reason@),
        }
    }
}

impl View for LocationAction {
    type V = LocationActionView;

    open spec fn view(&self) -> LocationActionView {
        match *self {
            LocationAction::Save { value } => LocationActionView::Save { value: value@ },
            LocationAction::Scaffold => LocationActionView::Scaffold,
            LocationAction::Report => LocationActionView::Report,
            LocationAction::Fail { log, message } => LocationActionView::Fail {
                log: log@,
                message: message@,
            },
            LocationAction::Nothing => LocationActionView::Nothing,
        }
    }
}

/// The folder that the dialog opens in: the stored install directory, or
/// the root where none is stored.
pub open spec fn initial_directory_of(stored: Result<String, String>) -> Seq<char> {
    match stored {
        Ok(dir) => dir@,
        Err(_) => "/"@,
    }
}

/// The stage and the action after `event`.
pub open spec fn location_step_of(stage: LocationStage, event: LocationEventView) -> (
    LocationStage,
    LocationActionView,
) {
    match (stage, event) {
        (LocationStage::Picking, LocationEventView::Picked(Some(value))) => (
            LocationStage::Saving,
            LocationActionView::Save { value },
        ),
        (LocationStage::Picking, LocationEventView::Picked(None)) => (
            LocationStage::Done,
            LocationActionView::Report,
        ),
        (LocationStage::Saving, LocationEventView::Saved) => (
            LocationStage::Scaffolding,
            LocationActionView::Scaffold,
        ),
        (LocationStage::Saving, LocationEventView::SaveFailed) => (
            LocationStage::Failed,
            LocationActionView::Fail {
                log: "Couldn't find starbound in the selected location!"@,
                message: "Failed to save preferences file!"@,
            },
        ),
        (LocationStage::Scaffolding, LocationEventView::Scaffolded) => (
            LocationStage::Done,
            LocationActionView::Report,
        ),
        (LocationStage::Scaffolding, LocationEventView::ScaffoldFailed(reason)) => (
            LocationStage::Failed,
            LocationActionView::Fail {
                log: "Couldn't write modpack config file in the selected location! "@ + reason,
                message: "Failed to write Starbound config file!"@,
            },
        ),
        _ => (stage, LocationActionView::Nothing),
    }
}

/// The folder that the dialog opens in: the stored install directory, or
/// the root where none is stored.
pub fn initial_directory(stored: Result<String, String>) -> (dir: String)
    ensures
        dir@ == initial_directory_of(stored),
{
    match stored {
        Ok(dir) => dir,
        Err(_) => "/".to_owned(),
    }
}

/// Takes in what happened and says what to do next.
pub fn location_step(stage: LocationStage, event: LocationEvent) -> (next: (
    LocationStage,
    LocationAction,
))
    ensures
        next.0 == location_step_of(stage, event@).0,
        next.1@ == location_step_of(stage, event@).1,
{
    match (stage, event) {
        (LocationStage::Picking, LocationEvent::Picked(Some(value))) => (
            LocationStage::Saving,
            LocationAction::Save { value },
        ),
        (LocationStage::Picking, LocationEvent::Picked(None)) => (
            LocationStage::Done,
            LocationAction::Report,
        ),
        (LocationStage::Saving, LocationEvent::Saved) => (
            LocationStage::Scaffolding,
            LocationAction::Scaffold,
        ),
        (LocationStage::Saving, LocationEvent::SaveFailed) => (
            LocationStage::Failed,
            LocationAction::Fail {
                log: "Couldn't find starbound in the selected location!".to_owned(),
                message: "Failed to save preferences file!".to_owned(),
            },
        ),
        (LocationStage::Scaffolding, LocationEvent::Scaffolded) => (
            LocationStage::Done,
            LocationAction::Report,
        ),
        (LocationStage::Scaffolding, LocationEvent::ScaffoldFailed(reason)) => {
            let mut log = "Couldn't write modpack config file in the selected location! ".to_owned();
            log.append(reason.as_str());
            (
                LocationStage::Failed,
                LocationAction::Fail {
                    log,
                    message: "Failed to write Starbound config file!".to_owned(),
                },
            )
        },
        (stage, _) => (stage, LocationAction::Nothing),
    }
}

/// The boot configuration is written only into a folder that was stored:
/// it is asked for only on the report that the folder was stored, and the
/// folder is stored only once the user chose it.
pub proof fn lemma_scaffold_follows_save(stage: LocationStage, event: LocationEventView)
    ensures
        location_step_of(stage, event).1 is Scaffold <==> stage is Saving && event is Saved,
        location_step_of(stage, event).1 is Save <==> stage is Picking && event is Picked
            && event->Picked_0 is Some,
        location_step_of(stage, event).1 is Save ==> location_step_of(stage, event).1->value
            == event->Picked_0->0,
        stage is Done || stage is Failed ==> location_step_of(stage, event) == (
            stage,
            LocationActionView::Nothing,
        ),
{
}

} // verus!
