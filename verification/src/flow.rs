//! The update check as a state machine.
//!
//! The check itself talks to the network and to the user, which this crate
//! does not. What it holds is every decision in between: given the phase the
//! check is in and what the outside just answered, [`step`] says which phase
//! comes next, whether there is a failure to log, and what to ask of the
//! outside now. A driver starts with [`start`], carries out each request and
//! hands the answer back, until a transition asks for nothing more.

use vstd::prelude::*;
use crate::dialog::{confirm_dialog, confirm_dialog_spec, failure_dialog, failure_dialog_spec};
use crate::dialog::{Dialog, DialogView};
use crate::update::{ErrorKind, UpdateError, UpdateErrorView, UpdateInfo, UpdateInfoView};

verus! {

/// Where the update check stands.
#[derive(Clone, Copy, Debug, PartialEq, Eq, Structural)]
pub enum Phase {
    /// The updater handle is being acquired.
    Init,
    /// The version check is under way.
    Checking,
    /// The user is being asked whether to update.
    Prompting,
    /// The update is being downloaded and installed.
    Installing,
    /// The check has ended.
    Done,
}

impl Phase {
    /// How far along the check is: phases only ever move to a higher rank.
    pub open spec fn rank(self) -> nat {
        match self {
            Phase::Init => 0,
            Phase::Checking => 1,
            Phase::Prompting => 2,
            Phase::Installing => 3,
            Phase::Done => 4,
        }
    }

    /// Whether the check has ended.
    pub fn is_done(self) -> (done: bool)
        ensures
            done == (self == Phase::Done),
    {
        match self {
            Phase::Done => true,
            _ => false,
        }
    }
}

/// What the outside answered.
#[derive(Clone, Debug, PartialEq, Eq)]
pub enum Event {
    /// The updater handle was acquired.
    UpdaterReady,
    /// The updater handle could not be acquired.
    UpdaterUnavailable(String),
    /// The version check found a newer version.
    UpdateAvailable(UpdateInfo),
    /// The version check found nothing newer.
    UpToDate,
    /// The version check did not complete.
    CheckFailed(String),
    /// The user answered the confirmation box: `true` to update now.
    Answered(bool),
    /// The update was downloaded and installed.
    Installed,
    /// The download or the install failed.
    InstallFailed(String),
    /// The download reported progress: a chunk of `len` bytes, of `total`
    /// where the server gave a length.
    ChunkReceived { len: usize, total: Option<u64> },
    /// The download reported that the last chunk has arrived.
    DownloadFinished,
}

/// [`Event`] as plain text.
pub ghost enum EventView {
    UpdaterReady,
    UpdaterUnavailable(Seq<char>),
    UpdateAvailable(UpdateInfoView),
    UpToDate,
    CheckFailed(Seq<char>),
    Answered(bool),
    Installed,
    InstallFailed(Seq<char>),
    ChunkReceived { len: usize, total: Option<u64> },
    DownloadFinished,
}

impl View for Event {
    type V = EventView;

    open spec fn view(&self) -> EventView {
        match self {
            Event::UpdaterReady => EventView::UpdaterReady,
            Event::UpdaterUnavailable(message) => EventView::UpdaterUnavailable(message@),
            Event::UpdateAvailable(info) => EventView::UpdateAvailable(info@),
            Event::UpToDate => EventView::UpToDate,
            Event::CheckFailed(message) => EventView::CheckFailed(message@),
            Event::Answered(yes) => EventView::Answered(*yes),
            Event::Installed => EventView::Installed,
            Event::InstallFailed(message) => EventView::InstallFailed(message@),
            Event::ChunkReceived { len, total } => EventView::ChunkReceived {
                len: *len,
                total: *total,
            },
            Event::DownloadFinished => EventView::DownloadFinished,
        }
    }
}

impl EventView {
    /// Whether the event is one of the download's own reports, which tell of
    /// progress and decide nothing.
    pub open spec fn is_progress(self) -> bool {
        self is ChunkReceived || self is DownloadFinished
    }

    /// Whether the event answers the request that `phase` is waiting on.
    pub open spec fn answers(self, phase: Phase) -> bool {
        match phase {
            Phase::Init => self is UpdaterReady || self is UpdaterUnavailable,
            Phase::Checking => self is UpdateAvailable || self is UpToDate || self is CheckFailed,
            Phase::Prompting => self is Answered,
            Phase::Installing => self is Installed || self is InstallFailed,
            Phase::Done => false,
        }
    }
}

/// What the driver is asked to do.
#[derive(Clone, Debug, PartialEq, Eq)]
pub enum Request {
    /// Acquire the updater handle; answer with [`Event::UpdaterReady`] or
    /// [`Event::UpdaterUnavailable`].
    AcquireUpdater,
    /// Run the version check; answer with [`Event::UpdateAvailable`],
    /// [`Event::UpToDate`] or [`Event::CheckFailed`].
    CheckForUpdate,
    /// Show the box and wait for the user; answer with [`Event::Answered`].
    Confirm(Dialog),
    /// Download and install the update; answer with [`Event::Installed`] or
    /// [`Event::InstallFailed`].
    Install,
    /// Show the box and wait until the user has closed it. Nothing is to be
    /// answered.
    Alert(Dialog),
}

/// [`Request`] as plain text.
pub ghost enum RequestView {
    AcquireUpdater,
    CheckForUpdate,
    Confirm(DialogView),
    Install,
    Alert(DialogView),
}

impl View for Request {
    type V = RequestView;

    open spec fn view(&self) -> RequestView {
        match self {
            Request::AcquireUpdater => RequestView::AcquireUpdater,
            Request::CheckForUpdate => RequestView::CheckForUpdate,
            Request::Confirm(dialog) => RequestView::Confirm(dialog@),
            Request::Install => RequestView::Install,
            Request::Alert(dialog) => RequestView::Alert(dialog@),
        }
    }
}

impl RequestView {
    /// Whether the request puts a box before the user.
    pub open spec fn shows_dialog(self) -> bool {
        self is Confirm || self is Alert
    }
}

/// One move of the machine.
#[derive(Clone, Debug, PartialEq, Eq)]
pub struct Transition {
    /// The phase the check is in from now on.
    pub next: Phase,
    /// The failure that this move ran into, if any. The driver writes its
    /// [`UpdateError::log_line`] to the diagnostic stream before it does
    /// anything else.
    pub failure: Option<UpdateError>,
    /// What to ask of the outside now, if anything.
    pub request: Option<Request>,
}

/// [`Transition`] as plain text.
pub ghost struct TransitionView {
    pub next: Phase,
    pub failure: Option<UpdateErrorView>,
    pub request: Option<RequestView>,
}

impl View for Transition {
    type V = TransitionView;

    open spec fn view(&self) -> TransitionView {
        TransitionView {
            next: self.next,
            failure: match self.failure {
                Some(error) => Some(error@),
                None => None,
            },
            request: match self.request {
                Some(request) => Some(request@),
                None => None,
            },
        }
    }
}

impl TransitionView {
    /// Whether this move puts a box before the user.
    pub open spec fn shows_dialog(self) -> bool {
        self.request matches Some(request) && request.shows_dialog()
    }

    /// Whether this move does nothing at all: no failure, no request.
    pub open spec fn is_silent(self) -> bool {
        self.failure is None && self.request is None
    }
}

/// The move that opens the check: the handle is asked for.
pub open spec fn start_spec() -> TransitionView {
    TransitionView {
        next: Phase::Init,
        failure: None,
        request: Some(RequestView::AcquireUpdater),
    }
}

/// The move on to `next`, with `request` to carry out there.
pub open spec fn advance(next: Phase, request: Option<RequestView>) -> TransitionView {
    TransitionView { next, failure: None, request }
}

/// The move that ends the check on a failure of `kind`: the failure is handed
/// out to be logged, and the error box is asked for where the kind is one that
/// the user is told of.
pub open spec fn fail(kind: ErrorKind, message: Seq<char>) -> TransitionView {
    TransitionView {
        next: Phase::Done,
        failure: Some(UpdateErrorView { kind, message }),
        request: if kind.is_shown_to_user() {
            Some(RequestView::Alert(failure_dialog_spec(message)))
        } else {
            None
        },
    }
}

/// The move that an event makes in a phase.
///
/// Each phase waits for the answer to its own request, and the cases below
/// are those answers. Any other event, the download's progress reports among
/// them, leaves the check where it is and asks for nothing. No failure goes
/// further than this: it ends the check and is handed out to be logged, see
/// [`fail`].
pub open spec fn step_spec(phase: Phase, event: EventView) -> TransitionView {
    match (phase, event) {
        (Phase::Init, EventView::UpdaterReady) => advance(
            Phase::Checking,
            Some(RequestView::CheckForUpdate),
        ),
        (Phase::Init, EventView::UpdaterUnavailable(message)) => fail(
            ErrorKind::HandleUnavailable,
            message,
        ),
        (Phase::Checking, EventView::UpdateAvailable(info)) => advance(
            Phase::Prompting,
            Some(RequestView::Confirm(confirm_dialog_spec(info))),
        ),
        (Phase::Checking, EventView::UpToDate) => advance(Phase::Done, None),
        (Phase::Checking, EventView::CheckFailed(message)) => fail(
            ErrorKind::CheckFailed,
            message,
        ),
        (Phase::Prompting, EventView::Answered(yes)) => if yes {
            advance(Phase::Installing, Some(RequestView::Install))
        } else {
            advance(Phase::Done, None)
        },
        (Phase::Installing, EventView::Installed) => advance(Phase::Done, None),
        (Phase::Installing, EventView::InstallFailed(message)) => fail(
            ErrorKind::InstallFailed,
            message,
        ),
        _ => advance(phase, None),
    }
}

/// The check is a single pass. An event that answers what the phase is
/// waiting on moves the check on to a later phase, never back and never to
/// the same one again; any other event leaves it where it is, in silence.
pub proof fn lemma_answers_move_on(phase: Phase, event: EventView)
    ensures
        event.answers(phase) ==> step_spec(phase, event).next.rank() > phase.rank(),
        !event.answers(phase) ==> step_spec(phase, event) == advance(phase, None),
{
}

/// Every request is made in its turn, on the one move that leads into the
/// phase which waits for its answer: the version check once the handle is
/// there, the confirmation box once an update is found, the install once the
/// user has agreed, the error box once the install has failed. The handle is
/// asked for by [`start`] and never again.
pub proof fn lemma_requests_in_turn(phase: Phase, event: EventView)
    ensures
        match step_spec(phase, event).request {
            Some(RequestView::AcquireUpdater) => false,
            Some(RequestView::CheckForUpdate) => phase == Phase::Init && event is UpdaterReady
                && step_spec(phase, event).next == Phase::Checking,
            Some(RequestView::Confirm(dialog)) => phase == Phase::Checking
                && event is UpdateAvailable && dialog == confirm_dialog_spec(
                event->UpdateAvailable_0,
            ) && step_spec(phase, event).next == Phase::Prompting,
            Some(RequestView::Install) => phase == Phase::Prompting && event == EventView::Answered(
                true,
            ) && step_spec(phase, event).next == Phase::Installing,
            Some(RequestView::Alert(dialog)) => phase == Phase::Installing
                && event is InstallFailed && dialog == failure_dialog_spec(
                event->InstallFailed_0,
            ) && step_spec(phase, event).next == Phase::Done,
            None => step_spec(phase, event).next == phase || step_spec(phase, event).next
                == Phase::Done,
        },
{
}

/// A failure ends the check, whatever the phase and the event: a move that
/// reports one is the move of [`fail`], which leads to [`Phase::Done`]. The
/// error box is asked for on the moves that report a failure of a kind that
/// the user is told of, and on no others.
pub proof fn lemma_failure_ends_check(phase: Phase, event: EventView)
    ensures
        step_spec(phase, event).failure matches Some(error) ==> step_spec(phase, event) == fail(
            error.kind,
            error.message,
        ),
        step_spec(phase, event).failure is Some ==> step_spec(phase, event).next == Phase::Done,
        (step_spec(phase, event).request matches Some(request) && request is Alert) <==> (
        step_spec(phase, event).failure matches Some(error) && error.kind.is_shown_to_user()),
{
}

/// Opens the check: the phase is [`Phase::Init`], and the driver is asked for
/// the updater handle.
pub fn start() -> (first: Transition)
    ensures
        first@ == start_spec(),
{
    Transition { next: Phase::Init, failure: None, request: Some(Request::AcquireUpdater) }
}

/// Makes the move that `event` calls for in `phase`, as [`step_spec`] lays it
/// down. Every phase takes every event: one that the phase is not waiting for
/// changes nothing.
pub fn step(phase: Phase, event: Event) -> (taken: Transition)
    ensures
        taken@ == step_spec(phase, event@),
{
    match phase {
        Phase::Init => match event {
            Event::UpdaterReady => moved(Phase::Checking, Some(Request::CheckForUpdate)),
            Event::UpdaterUnavailable(message) => failed(ErrorKind::HandleUnavailable, message),
            _ => moved(phase, None),
        },
        Phase::Checking => match event {
            Event::UpdateAvailable(info) => {
                let dialog = confirm_dialog(&info);
                moved(Phase::Prompting, Some(Request::Confirm(dialog)))
            },
            Event::UpToDate => moved(Phase::Done, None),
            Event::CheckFailed(message) => failed(ErrorKind::CheckFailed, message),
            _ => moved(phase, None),
        },
        Phase::Prompting => match event {
            Event::Answered(yes) => if yes {
                moved(Phase::Installing, Some(Request::Install))
            } else {
                moved(Phase::Done, None)
            },
            _ => moved(phase, None),
        },
        Phase::Installing => match event {
            Event::Installed => moved(Phase::Done, None),
            Event::InstallFailed(message) => failed(ErrorKind::InstallFailed, message),
            _ => moved(phase, None),
        },
        Phase::Done => moved(phase, None),
    }
}

/// The move on to `next` without a failure.
fn moved(next: Phase, request: Option<Request>) -> (taken: Transition)
    ensures
        taken@ == advance(
            next,
            match request {
                Some(request) => Some(request@),
                None => None,
            },
        ),
{
    Transition { next, failure: None, request }
}

/// The move that ends the check on a failure, with the error box where the
/// user is to be told.
fn failed(kind: ErrorKind, message: String) -> (taken: Transition)
    ensures
        taken@ == fail(kind, message@),
{
    let request = if kind.is_shown_to_user() {
        Some(Request::Alert(failure_dialog(message.as_str())))
    } else {
        None
    };
    Transition { next: Phase::Done, failure: Some(UpdateError { kind, message }), request }
}

} // verus!
