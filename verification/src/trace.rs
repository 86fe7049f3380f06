//! Whole runs of the update check: what the machine does with a sequence of
//! events, answer after answer.

use vstd::prelude::*;
use crate::dialog::{confirm_dialog_spec, failure_dialog_spec, lemma_confirm_message_names_update};
use crate::dialog::{lemma_failure_message_quotes, occurs_in, DialogKind};
use crate::flow::{advance, fail, step, step_spec, Event, EventView, Phase, RequestView};
use crate::flow::{Transition, TransitionView};
use crate::update::{ErrorKind, UpdateErrorView, UpdateInfoView};

verus! {

/// The phase a run is in once its first `k` events have been taken.
pub open spec fn phase_at(events: Seq<EventView>, k: int) -> Phase
    decreases k,
{
    if k <= 0 {
        Phase::Init
    } else {
        step_spec(phase_at(events, k - 1), events[k - 1]).next
    }
}

/// The move that the run makes on its event number `k`.
pub open spec fn transition_at(events: Seq<EventView>, k: int) -> TransitionView {
    step_spec(phase_at(events, k), events[k])
}

/// The moves of a whole run, one for each event, in order.
pub open spec fn moves_of(events: Seq<EventView>) -> Seq<TransitionView> {
    Seq::new(events.len(), |k: int| transition_at(events, k))
}

/// A sequence of events as plain text.
pub open spec fn event_views(events: Seq<Event>) -> Seq<EventView> {
    events.map_values(|event: Event| event@)
}

/// A sequence of moves as plain text.
pub open spec fn transition_views(taken: Seq<Transition>) -> Seq<TransitionView> {
    taken.map_values(|one: Transition| one@)
}

/// Runs the machine from [`Phase::Init`] over recorded events and returns
/// the move made on each of them. No request is carried out: the events stand
/// for what the outside answered.
pub fn replay(events: Vec<Event>) -> (taken: Vec<Transition>)
    ensures
        transition_views(taken@) == moves_of(event_views(events@)),
{
    let ghost all = event_views(events@);
    let mut taken: Vec<Transition> = Vec::new();
    let mut phase = Phase::Init;
    for event in it: events
        invariant
            it.seq().len() == all.len(),
            forall|k: int| 0 <= k < all.len() ==> it.seq()[k]@ == #[trigger] all[k],
            taken.len() == it.index(),
            phase == phase_at(all, it.index() as int),
            forall|k: int|
                0 <= k < taken.len() ==> (#[trigger] taken[k])@ == transition_at(all, k),
    {
        let one = step(phase, event);
        phase = one.next;
        taken.push(one);
    }
    taken
}

/// A run goes through the phases in one direction only: whatever the events,
/// a later phase never ranks below an earlier one.
pub proof fn lemma_phases_only_advance(events: Seq<EventView>, i: int, j: int)
    requires
        i <= j,
    ensures
        phase_at(events, i).rank() <= phase_at(events, j).rank(),
    decreases j - i,
{
    if i < j {
        lemma_phases_only_advance(events, i, j - 1);
    }
}

/// Once a run has ended it stays ended: every later event finds it in
/// [`Phase::Done`] and is met with silence.
pub proof fn lemma_done_is_final(events: Seq<EventView>, i: int, j: int)
    requires
        i <= j,
        phase_at(events, i) == Phase::Done,
    ensures
        phase_at(events, j) == Phase::Done,
        transition_at(events, j).is_silent(),
{
    lemma_phases_only_advance(events, i, j);
}

/// Where the updater handle cannot be acquired, the run ends there: the
/// failure is handed out to be logged, and no move of the run, first or later,
/// puts a box before the user.
pub proof fn lemma_no_handle_no_dialog(events: Seq<EventView>, message: Seq<char>)
    requires
        events.len() > 0,
        events[0] == EventView::UpdaterUnavailable(message),
    ensures
        transition_at(events, 0) == fail(ErrorKind::HandleUnavailable, message),
        forall|k: int| 1 <= k ==> phase_at(events, k) == Phase::Done,
        forall|k: int| 0 <= k ==> !(#[trigger] transition_at(events, k)).shows_dialog(),
{
    assert forall|k: int| 1 <= k implies phase_at(events, k) == Phase::Done by {
        lemma_done_is_final(events, 1, k);
    }
    assert forall|k: int| 0 <= k implies !(#[trigger] transition_at(events, k)).shows_dialog() by {
        if k >= 1 {
            lemma_done_is_final(events, 1, k);
        }
    }
}

/// Where the version check finds nothing newer, the run ends in silence, and
/// no move of the run, before or after, puts a box before the user.
pub proof fn lemma_up_to_date_no_dialog(events: Seq<EventView>, at: int)
    requires
        0 <= at < events.len(),
        phase_at(events, at) == Phase::Checking,
        events[at] == EventView::UpToDate,
    ensures
        transition_at(events, at) == advance(Phase::Done, None),
        phase_at(events, at + 1) == Phase::Done,
        forall|k: int| 0 <= k ==> !(#[trigger] transition_at(events, k)).shows_dialog(),
{
    assert forall|k: int| 0 <= k implies !(#[trigger] transition_at(events, k)).shows_dialog() by {
        if k < at {
            lemma_phases_only_advance(events, k + 1, at);
        } else if k > at {
            lemma_done_is_final(events, at + 1, k);
        }
    }
}

/// Where the version check finds an update, the confirmation box for it is
/// asked for on that very move, and its message names the version and the
/// release notes.
pub proof fn lemma_update_is_offered(events: Seq<EventView>, at: int, info: UpdateInfoView)
    requires
        0 <= at < events.len(),
        phase_at(events, at) == Phase::Checking,
        events[at] == EventView::UpdateAvailable(info),
    ensures
        transition_at(events, at) == advance(
            Phase::Prompting,
            Some(RequestView::Confirm(confirm_dialog_spec(info))),
        ),
        occurs_in(info.version, confirm_dialog_spec(info).message),
        occurs_in(info.notes(), confirm_dialog_spec(info).message),
{
    lemma_confirm_message_names_update(info.version, info.notes());
}

/// Whether move number `k` of the run asks for the confirmation box.
pub open spec fn confirm_asked_at(events: Seq<EventView>, k: int) -> bool {
    transition_at(events, k).request matches Some(request) && request is Confirm
}

/// Whether move number `k` of the run asks for the install.
pub open spec fn install_asked_at(events: Seq<EventView>, k: int) -> bool {
    transition_at(events, k).request == Some(RequestView::Install)
}

/// In every run the user is asked at most once: no two moves ask for the
/// confirmation box.
pub proof fn lemma_confirm_at_most_once(events: Seq<EventView>, i: int, j: int)
    requires
        confirm_asked_at(events, i),
        confirm_asked_at(events, j),
    ensures
        i == j,
{
    if i < j {
        lemma_phases_only_advance(events, i + 1, j);
    } else if j < i {
        lemma_phases_only_advance(events, j + 1, i);
    }
}

/// In every run nothing is installed that the user was not asked about
/// first: a move that asks for the install comes after one that asked for the
/// confirmation box.
pub proof fn lemma_install_follows_confirm(events: Seq<EventView>, j: int)
    requires
        install_asked_at(events, j),
    ensures
        exists|i: int| 0 <= i < j && confirm_asked_at(events, i),
{
    lemma_prompting_was_asked(events, j);
}

/// A run that is asking the user has, on an earlier move, asked for the
/// confirmation box.
proof fn lemma_prompting_was_asked(events: Seq<EventView>, k: int)
    requires
        phase_at(events, k) == Phase::Prompting,
    ensures
        exists|i: int| 0 <= i < k && confirm_asked_at(events, i),
    decreases k,
{
    if phase_at(events, k - 1) == Phase::Prompting {
        lemma_prompting_was_asked(events, k - 1);
    } else {
        assert(confirm_asked_at(events, k - 1));
    }
}

/// The install is under way only where the user agreed to it: a run that is
/// installing has, on an earlier move, met the answer "update now" while it
/// was asking.
pub proof fn lemma_installing_was_confirmed(events: Seq<EventView>, k: int)
    requires
        phase_at(events, k) == Phase::Installing,
    ensures
        exists|i: int|
            0 <= i < k && #[trigger] phase_at(events, i) == Phase::Prompting && events[i]
                == EventView::Answered(true),
    decreases k,
{
    if phase_at(events, k - 1) == Phase::Installing {
        lemma_installing_was_confirmed(events, k - 1);
    } else {
        assert(phase_at(events, k - 1) == Phase::Prompting);
    }
}

/// Where the user declines, nothing is installed: no move of the run, before
/// or after, asks for the install.
pub proof fn lemma_declined_never_installs(events: Seq<EventView>, at: int)
    requires
        0 <= at < events.len(),
        phase_at(events, at) == Phase::Prompting,
        events[at] == EventView::Answered(false),
    ensures
        transition_at(events, at) == advance(Phase::Done, None),
        forall|k: int|
            0 <= k ==> (#[trigger] transition_at(events, k)).request != Some(RequestView::Install),
{
    assert forall|k: int| 0 <= k implies (#[trigger] transition_at(events, k)).request != Some(
        RequestView::Install,
    ) by {
        if k < at {
            lemma_phases_only_advance(events, k + 1, at);
        } else if k > at {
            lemma_done_is_final(events, at + 1, k);
        }
    }
}

/// Where the user confirms and the install succeeds, the run ends in silence:
/// no move of the run reports a failure, and none asks for the error box.
pub proof fn lemma_installed_no_alert(events: Seq<EventView>, at: int)
    requires
        0 <= at < events.len(),
        phase_at(events, at) == Phase::Installing,
        events[at] == EventView::Installed,
    ensures
        transition_at(events, at) == advance(Phase::Done, None),
        forall|k: int|
            0 <= k ==> (#[trigger] transition_at(events, k)).failure is None && !(transition_at(
                events,
                k,
            ).request matches Some(request) && request is Alert),
{
    assert forall|k: int| 0 <= k implies (#[trigger] transition_at(events, k)).failure is None && !(
    transition_at(events, k).request matches Some(request) && request is Alert) by {
        if k < at {
            lemma_phases_only_advance(events, k + 1, at);
        } else if k > at {
            lemma_done_is_final(events, at + 1, k);
        }
    }
}

/// Where the user confirms and the install fails, the failure is handed out
/// to be logged and the error box is asked for on that very move; the log line
/// and the box both quote the updater's message, letter for letter.
pub proof fn lemma_failed_install_is_reported(
    events: Seq<EventView>,
    at: int,
    message: Seq<char>,
)
    requires
        0 <= at < events.len(),
        phase_at(events, at) == Phase::Installing,
        events[at] == EventView::InstallFailed(message),
    ensures
        transition_at(events, at) == fail(ErrorKind::InstallFailed, message),
        transition_at(events, at).request == Some(
            RequestView::Alert(failure_dialog_spec(message)),
        ),
        failure_dialog_spec(message).kind == DialogKind::Error,
        occurs_in(message, failure_dialog_spec(message).message),
        occurs_in(
            message,
            (UpdateErrorView { kind: ErrorKind::InstallFailed, message }).log_line(),
        ),
{
    lemma_failure_message_quotes(message);
    let line = (UpdateErrorView { kind: ErrorKind::InstallFailed, message }).log_line();
    let at_line = line.len() - message.len();
    assert(line.subrange(at_line, at_line + message.len()) == message);
}

/// The download's progress reports decide nothing. In whatever phase one
/// arrives, the check stays where it is and nothing is logged or asked for.
pub proof fn lemma_progress_is_ignored(phase: Phase, event: EventView)
    requires
        event.is_progress(),
    ensures
        step_spec(phase, event) == advance(phase, None),
{
}

/// Putting a progress report anywhere into a run adds one silent move at that
/// place and changes nothing else: every other event is met in the phase, and
/// with the move, it was met with before. So a run comes out the same however
/// many such reports the download makes, none or thousands.
pub proof fn lemma_progress_changes_nothing(
    events: Seq<EventView>,
    at: int,
    report: EventView,
)
    requires
        0 <= at <= events.len(),
        report.is_progress(),
    ensures
        moves_of(events.insert(at, report)) == moves_of(events).insert(
            at,
            advance(phase_at(events, at), None),
        ),
        phase_at(events.insert(at, report), events.len() as int + 1) == phase_at(
            events,
            events.len() as int,
        ),
{
    let more = events.insert(at, report);
    assert forall|k: int| 0 <= k <= events.len() implies (k <= at ==> phase_at(more, k)
        == phase_at(events, k)) && (k >= at ==> phase_at(more, k + 1) == phase_at(events, k)) by {
        lemma_phase_with_report(events, at, report, k);
    }
    assert(moves_of(more) =~= moves_of(events).insert(at, advance(phase_at(events, at), None)));
}

/// The phases of a run with a progress report put in at `at`: up to there as
/// before, and from there on one event late.
proof fn lemma_phase_with_report(events: Seq<EventView>, at: int, report: EventView, k: int)
    requires
        0 <= at <= events.len(),
        report.is_progress(),
        0 <= k <= events.len(),
    ensures
        k <= at ==> phase_at(events.insert(at, report), k) == phase_at(events, k),
        k >= at ==> phase_at(events.insert(at, report), k + 1) == phase_at(events, k),
    decreases k,
{
    if k > 0 {
        lemma_phase_with_report(events, at, report, k - 1);
    }
}

} // verus!
