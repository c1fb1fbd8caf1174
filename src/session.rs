use vstd::prelude::*;
use crate::keys::KeyTable;
use crate::labels::{assign_labels, assignment, first_match, window_for};
use crate::retry::RetryPolicy;
use crate::selection::{classify, loop_step, InputEvent, LoopStep, Outcome};

verus! {

/// Where a selection session stands.
#[derive(Clone, Copy, Debug, PartialEq, Eq, Structural)]
pub enum Phase {
    /// Ask for the keyboard grab.
    Grab,
    /// The grab was refused: wait before asking again.
    GrabWait,
    /// Send input focus to the pointer root and flush.
    FocusRoot,
    /// Ask the host for the candidate windows.
    Collect,
    /// Show the next label.
    Render,
    /// Wait for the next input event.
    Listen,
    /// Flush the connection.
    Flush,
    /// Ask for the grab to be released.
    Release,
    /// The ungrab was refused: wait before asking again.
    ReleaseWait,
    /// Destroy the next overlay.
    Destroy,
    /// Focus the window the session settled on.
    Apply,
    Done,
}

/// What the session asks its driver to do next.
#[derive(Clone, Copy, Debug, PartialEq, Eq, Structural)]
pub enum Action {
    TryGrab,
    /// Sleep for the given number of milliseconds.
    Sleep(u64),
    FocusRoot,
    ListCandidates,
    /// Show the label over the window and report the overlay created.
    ShowLabel(char, u32),
    NextEvent,
    Flush,
    TryUngrab,
    DestroyOverlay(u32),
    Focus(u32),
    Finish,
}

/// The result of an action, handed back to the session.
#[derive(Debug)]
pub enum Event {
    /// Whether the keyboard grab was granted.
    Grab(bool),
    /// Whether the keyboard grab was released.
    Ungrab(bool),
    /// The action was carried out and has nothing to report.
    Completed,
    /// The candidate windows, in workspace order then window order.
    Candidates(Vec<u32>),
    /// The overlay created for a label, or `None` if it could not be drawn.
    Shown(Option<u32>),
    /// The next input event, or `None` once the stream has ended.
    Input(Option<InputEvent>),
}

/// An `Event` as the contracts see it.
pub enum EventView {
    Grab(bool),
    Ungrab(bool),
    Completed,
    Candidates(Seq<u32>),
    Shown(Option<u32>),
    Input(Option<InputEvent>),
}

impl View for Event {
    type V = EventView;

    open spec fn view(&self) -> EventView {
        match self {
            Event::Grab(b) => EventView::Grab(*b),
            Event::Ungrab(b) => EventView::Ungrab(*b),
            Event::Completed => EventView::Completed,
            Event::Candidates(c) => EventView::Candidates(c@),
            Event::Shown(o) => EventView::Shown(*o),
            Event::Input(i) => EventView::Input(*i),
        }
    }
}

/// The abstract state of a session, with the record of what it has done.
pub struct SessionState {
    pub phase: Phase,
    /// The window focused when the session began.
    pub prior: Option<u32>,
    pub attempts: nat,
    pub delay_ms: u64,
    pub pool: Seq<char>,
    pub escape: u8,
    pub keys: Seq<(u8, char)>,
    /// Tries left in the current grab or ungrab loop.
    pub tries_left: nat,
    pub grabbed: bool,
    /// The labels assigned to the candidates.
    pub labels: Seq<(char, u32)>,
    pub next_label: nat,
    /// The labels whose overlay was drawn.
    pub realized: Seq<(char, u32)>,
    /// The overlays created, in order.
    pub overlays: Seq<u32>,
    pub outcome: Option<Outcome>,
    /// Every ungrab was refused.
    pub release_failed: bool,
    /// The overlays destroyed, in order.
    pub destroyed: Seq<u32>,
    /// The windows on which focus was requested, in order.
    pub focus_requests: Seq<u32>,
    pub grab_attempts: nat,
    pub grab_sleeps: nat,
    pub ungrab_attempts: nat,
    pub ungrab_sleeps: nat,
}

/// The window a finished selection focuses: the chosen one if its label was
/// drawn, otherwise the window focused before.
pub open spec fn resolve(outcome: Option<Outcome>, realized: Seq<(char, u32)>, prior: Option<u32>) -> Option<u32> {
    match outcome {
        Some(Outcome::Chosen(c)) => match first_match(realized, c) {
            Some(w) => Some(w),
            None => prior,
        },
        _ => prior,
    }
}

pub open spec fn as_seq(o: Option<u32>) -> Seq<u32> {
    match o {
        Some(w) => seq![w],
        None => Seq::empty(),
    }
}

pub open spec fn target(s: SessionState) -> Option<u32> {
    resolve(s.outcome, s.realized, s.prior)
}

pub open spec fn initial(
    prior: Option<u32>,
    attempts: nat,
    delay_ms: u64,
    pool: Seq<char>,
    escape: u8,
    keys: Seq<(u8, char)>,
) -> SessionState {
    SessionState {
        phase: Phase::Grab,
        prior,
        attempts,
        delay_ms,
        pool,
        escape,
        keys,
        tries_left: attempts,
        grabbed: false,
        labels: Seq::empty(),
        next_label: 0,
        realized: Seq::empty(),
        overlays: Seq::empty(),
        outcome: None,
        release_failed: false,
        destroyed: Seq::empty(),
        focus_requests: Seq::empty(),
        grab_attempts: 0,
        grab_sleeps: 0,
        ungrab_attempts: 0,
        ungrab_sleeps: 0,
    }
}

pub open spec fn action_of(s: SessionState) -> Action {
    match s.phase {
        Phase::Grab => Action::TryGrab,
        Phase::GrabWait => Action::Sleep(s.delay_ms),
        Phase::FocusRoot => Action::FocusRoot,
        Phase::Collect => Action::ListCandidates,
        Phase::Render => Action::ShowLabel(
            s.labels[s.next_label as int].0,
            s.labels[s.next_label as int].1,
        ),
        Phase::Listen => Action::NextEvent,
        Phase::Flush => Action::Flush,
        Phase::Release => Action::TryUngrab,
        Phase::ReleaseWait => Action::Sleep(s.delay_ms),
        Phase::Destroy => Action::DestroyOverlay(s.overlays[s.destroyed.len() as int]),
        Phase::Apply => match target(s) {
            Some(w) => Action::Focus(w),
            None => Action::Finish,
        },
        Phase::Done => Action::Finish,
    }
}

/// Leaves a phase that has nothing left to do.
pub open spec fn settle(s: SessionState) -> SessionState {
    if s.phase == Phase::Render && s.next_label >= s.labels.len() {
        SessionState { phase: Phase::Listen, ..s }
    } else if s.phase == Phase::Destroy && s.destroyed.len() >= s.overlays.len() {
        SessionState {
            phase: if target(s) is Some {
                Phase::Apply
            } else {
                Phase::Done
            },
            ..s
        }
    } else {
        s
    }
}

pub open spec fn begin_release(s: SessionState) -> SessionState {
    SessionState { phase: Phase::Release, tries_left: s.attempts, ..s }
}

/// The state after the driver reports `e`; an event that does not answer
/// the pending action leaves the state as it is.
pub open spec fn next(s: SessionState, e: EventView) -> SessionState {
    match s.phase {
        Phase::Grab => match e {
            EventView::Grab(ok) => if ok {
                SessionState {
                    phase: Phase::FocusRoot,
                    grabbed: true,
                    grab_attempts: s.grab_attempts + 1,
                    ..s
                }
            } else {
                SessionState { phase: Phase::GrabWait, grab_attempts: s.grab_attempts + 1, ..s }
            },
            _ => s,
        },
        Phase::GrabWait => match e {
            EventView::Completed => if s.tries_left <= 1 {
                SessionState {
                    phase: Phase::Done,
                    tries_left: 0,
                    grab_sleeps: s.grab_sleeps + 1,
                    ..s
                }
            } else {
                SessionState {
                    phase: Phase::Grab,
                    tries_left: (s.tries_left - 1) as nat,
                    grab_sleeps: s.grab_sleeps + 1,
                    ..s
                }
            },
            _ => s,
        },
        Phase::FocusRoot => match e {
            EventView::Completed => SessionState { phase: Phase::Collect, ..s },
            _ => s,
        },
        Phase::Collect => match e {
            EventView::Candidates(c) => settle(
                SessionState {
                    phase: Phase::Render,
                    labels: assignment(c, s.pool),
                    next_label: 0,
                    ..s
                },
            ),
            _ => s,
        },
        Phase::Render => match e {
            EventView::Shown(r) => match r {
                Some(id) => settle(
                    SessionState {
                        overlays: s.overlays.push(id),
                        realized: s.realized.push(s.labels[s.next_label as int]),
                        next_label: s.next_label + 1,
                        ..s
                    },
                ),
                None => settle(SessionState { next_label: s.next_label + 1, ..s }),
            },
            _ => s,
        },
        Phase::Listen => match e {
            EventView::Input(ev) => {
                let st = loop_step(s.escape, s.keys, ev);
                if st.flush {
                    SessionState { phase: Phase::Flush, outcome: st.outcome, ..s }
                } else if st.outcome is Some {
                    begin_release(SessionState { outcome: st.outcome, ..s })
                } else {
                    s
                }
            },
            _ => s,
        },
        Phase::Flush => match e {
            EventView::Completed => if s.outcome is Some {
                begin_release(s)
            } else {
                SessionState { phase: Phase::Listen, ..s }
            },
            _ => s,
        },
        Phase::Release => match e {
            EventView::Ungrab(ok) => if ok {
                settle(
                    SessionState {
                        phase: Phase::Destroy,
                        ungrab_attempts: s.ungrab_attempts + 1,
                        ..s
                    },
                )
            } else {
                SessionState {
                    phase: Phase::ReleaseWait,
                    ungrab_attempts: s.ungrab_attempts + 1,
                    ..s
                }
            },
            _ => s,
        },
        Phase::ReleaseWait => match e {
            EventView::Completed => if s.tries_left <= 1 {
                settle(
                    SessionState {
                        phase: Phase::Destroy,
                        tries_left: 0,
                        release_failed: true,
                        ungrab_sleeps: s.ungrab_sleeps + 1,
                        ..s
                    },
                )
            } else {
                SessionState {
                    phase: Phase::Release,
                    tries_left: (s.tries_left - 1) as nat,
                    ungrab_sleeps: s.ungrab_sleeps + 1,
                    ..s
                }
            },
            _ => s,
        },
        Phase::Destroy => match e {
            EventView::Completed => settle(
                SessionState {
                    destroyed: s.destroyed.push(s.overlays[s.destroyed.len() as int]),
                    ..s
                },
            ),
            _ => s,
        },
        Phase::Apply => match e {
            EventView::Completed => match target(s) {
                Some(w) => SessionState {
                    phase: Phase::Done,
                    focus_requests: s.focus_requests.push(w),
                    ..s
                },
                None => SessionState { phase: Phase::Done, ..s },
            },
            _ => s,
        },
        Phase::Done => s,
    }
}

/// The state after the driver reports each event of `evs` in turn.
pub open spec fn run(s: SessionState, evs: Seq<EventView>) -> SessionState
    decreases evs.len(),
{
    if evs.len() == 0 {
        s
    } else {
        run(next(s, evs[0]), evs.drop_first())
    }
}

pub open spec fn in_grab_loop(p: Phase) -> bool {
    p == Phase::Grab || p == Phase::GrabWait
}

pub open spec fn in_release_loop(p: Phase) -> bool {
    p == Phase::Release || p == Phase::ReleaseWait
}

/// Phases in which the labels are known and the outcome is not.
pub open spec fn selecting(p: Phase) -> bool {
    p == Phase::Render || p == Phase::Listen
}

/// Phases that come after the outcome is known.
pub open spec fn closing(p: Phase) -> bool {
    in_release_loop(p) || p == Phase::Destroy || p == Phase::Apply
}

/// What holds of every state a session reaches.
pub open spec fn inv(s: SessionState) -> bool {
    &&& s.attempts >= 1
    &&& s.next_label <= s.labels.len()
    &&& s.realized.len() == s.overlays.len()
    &&& s.overlays.len() <= s.next_label
    &&& s.destroyed.len() <= s.overlays.len()
    &&& s.destroyed == s.overlays.take(s.destroyed.len() as int)
    &&& (s.phase == Phase::Render ==> s.next_label < s.labels.len())
    &&& (s.phase == Phase::Destroy ==> s.destroyed.len() < s.overlays.len())
    &&& (s.phase != Phase::Destroy && s.phase != Phase::Apply && s.phase != Phase::Done
        ==> s.destroyed.len() == 0)
    &&& (s.phase == Phase::Apply || s.phase == Phase::Done ==> s.destroyed == s.overlays)
    &&& (in_grab_loop(s.phase) || in_release_loop(s.phase) ==> 1 <= s.tries_left <= s.attempts)
    &&& (in_grab_loop(s.phase) ==> !s.grabbed)
    &&& (!s.grabbed ==> {
        &&& in_grab_loop(s.phase) || s.phase == Phase::Done
        &&& s.labels.len() == 0
        &&& s.overlays.len() == 0
        &&& s.outcome is None
        &&& s.focus_requests.len() == 0
    })
    &&& (in_grab_loop(s.phase) || s.phase == Phase::FocusRoot || s.phase == Phase::Collect
        ==> s.overlays.len() == 0)
    &&& (in_grab_loop(s.phase) || s.phase == Phase::FocusRoot || s.phase == Phase::Collect
        || selecting(s.phase) ==> s.outcome is None)
    &&& (closing(s.phase) || (s.phase == Phase::Done && s.grabbed) ==> s.outcome is Some)
    &&& (s.phase != Phase::Done ==> s.focus_requests.len() == 0)
    &&& (s.phase == Phase::Done && s.grabbed ==> s.focus_requests == as_seq(target(s)))
    &&& (s.phase == Phase::Apply ==> target(s) is Some)
    &&& (s.phase == Phase::Grab ==> s.grab_attempts + s.tries_left == s.attempts
        && s.grab_sleeps == s.grab_attempts)
    &&& (s.phase == Phase::GrabWait ==> s.grab_attempts + s.tries_left == s.attempts + 1
        && s.grab_sleeps + 1 == s.grab_attempts)
    &&& (s.grabbed ==> s.grab_sleeps < s.grab_attempts <= s.attempts)
    &&& (s.phase == Phase::Done && !s.grabbed ==> s.grab_attempts == s.attempts
        && s.grab_sleeps == s.attempts)
    &&& (!closing(s.phase) && !(s.phase == Phase::Done && s.grabbed) ==> s.ungrab_attempts == 0
        && s.ungrab_sleeps == 0)
    &&& (s.phase == Phase::Release ==> s.ungrab_attempts + s.tries_left == s.attempts
        && s.ungrab_sleeps == s.ungrab_attempts)
    &&& (s.phase == Phase::ReleaseWait ==> s.ungrab_attempts + s.tries_left == s.attempts + 1
        && s.ungrab_sleeps + 1 == s.ungrab_attempts)
    &&& (s.phase == Phase::Destroy || s.phase == Phase::Apply || (s.phase == Phase::Done
        && s.grabbed) ==> s.ungrab_sleeps <= s.ungrab_attempts <= s.attempts)
}

/// A session that has done nothing yet satisfies the invariant.
pub proof fn lemma_initial_inv(
    prior: Option<u32>,
    attempts: nat,
    delay_ms: u64,
    pool: Seq<char>,
    escape: u8,
    keys: Seq<(u8, char)>,
)
    requires
        attempts >= 1,
    ensures
        inv(initial(prior, attempts, delay_ms, pool, escape, keys)),
{
    let s = initial(prior, attempts, delay_ms, pool, escape, keys);
    assert(s.destroyed =~= s.overlays.take(0));
}

/// Every transition keeps the invariant.
pub proof fn lemma_next_inv(s: SessionState, e: EventView)
    requires
        inv(s),
    ensures
        inv(next(s, e)),
{
    assert(s.focus_requests.len() == 0 ==> s.focus_requests =~= Seq::<u32>::empty());
    assert(s.overlays.len() == 0 ==> s.destroyed =~= s.overlays);
    if s.phase == Phase::Render {
        if let EventView::Shown(Some(id)) = e {
            assert(s.destroyed =~= s.overlays.push(id).take(0));
        }
    } else if s.phase == Phase::Destroy {
        if let EventView::Completed = e {
            let d = s.destroyed.len() as int;
            assert(s.destroyed.push(s.overlays[d]) =~= s.overlays.take(d + 1));
            assert(d + 1 == s.overlays.len() ==> s.overlays.take(d + 1) =~= s.overlays);
        }
    }
}

/// Whether `e` is the kind of result that action `a` produces.
pub open spec fn answers(a: Action, e: EventView) -> bool {
    match a {
        Action::TryGrab => e is Grab,
        Action::TryUngrab => e is Ungrab,
        Action::ListCandidates => e is Candidates,
        Action::ShowLabel(_, _) => e is Shown,
        Action::NextEvent => e is Input,
        Action::Finish => false,
        _ => e is Completed,
    }
}

/// Steps left, at most, in the current grab or ungrab loop.
pub open spec fn retry_measure(s: SessionState) -> int {
    if s.phase == Phase::Grab || s.phase == Phase::Release {
        2 * s.tries_left as int
    } else {
        2 * s.tries_left as int - 1
    }
}

/// Whether the labels are settled: the candidates have been collected.
pub open spec fn labelled(s: SessionState) -> bool {
    s.grabbed && s.phase != Phase::FocusRoot && s.phase != Phase::Collect
}

proof fn lemma_step_keeps(s: SessionState, e: EventView)
    requires
        inv(s),
    ensures
        next(s, e).prior == s.prior,
        next(s, e).attempts == s.attempts,
        s.outcome is Some ==> next(s, e).outcome == s.outcome && next(s, e).realized
            == s.realized,
        labelled(s) ==> labelled(next(s, e)) && next(s, e).labels == s.labels,
{
}

proof fn lemma_run_keeps(s: SessionState, evs: Seq<EventView>)
    requires
        inv(s),
    ensures
        inv(run(s, evs)),
        run(s, evs).prior == s.prior,
        run(s, evs).attempts == s.attempts,
        s.outcome is Some ==> run(s, evs).outcome == s.outcome && run(s, evs).realized
            == s.realized,
        labelled(s) ==> labelled(run(s, evs)) && run(s, evs).labels == s.labels,
    decreases evs.len(),
{
    if evs.len() > 0 {
        lemma_next_inv(s, evs[0]);
        lemma_step_keeps(s, evs[0]);
        lemma_run_keeps(next(s, evs[0]), evs.drop_first());
    }
}

/// Every state that some sequence of driver reports leads to from a
/// well-formed state is well-formed.
pub proof fn lemma_run_inv(s: SessionState, evs: Seq<EventView>)
    requires
        inv(s),
    ensures
        inv(run(s, evs)),
{
    lemma_run_keeps(s, evs);
}

/// With no candidate windows no label is assigned or drawn, and however the
/// selection ends, the session focuses only the window focused before it.
pub proof fn lemma_no_candidates(s: SessionState, evs: Seq<EventView>)
    requires
        inv(s),
        s.phase == Phase::Collect,
    ensures
        next(s, EventView::Candidates(Seq::empty())).labels.len() == 0,
        next(s, EventView::Candidates(Seq::empty())).phase == Phase::Listen,
        run(next(s, EventView::Candidates(Seq::empty())), evs).overlays.len() == 0,
        target(run(next(s, EventView::Candidates(Seq::empty())), evs)) == s.prior,
        run(next(s, EventView::Candidates(Seq::empty())), evs).phase == Phase::Done
            ==> run(next(s, EventView::Candidates(Seq::empty())), evs).focus_requests
            == as_seq(s.prior),
{
    let t = next(s, EventView::Candidates(Seq::empty()));
    lemma_next_inv(s, EventView::Candidates(Seq::empty()));
    lemma_run_keeps(t, evs);
    let f = run(t, evs);
    assert(f.realized.len() == 0);
    match f.outcome {
        Some(Outcome::Chosen(c)) => {
            assert(first_match(f.realized, c) is None);
        },
        _ => {},
    }
}

/// Once a session is done, every overlay it created has been destroyed, in
/// the order of creation, whatever the outcome.
pub proof fn lemma_overlays_destroyed(s: SessionState, evs: Seq<EventView>)
    requires
        inv(s),
        run(s, evs).phase == Phase::Done,
    ensures
        run(s, evs).destroyed == run(s, evs).overlays,
{
    lemma_run_keeps(s, evs);
}

/// While the keyboard grab has not been obtained, no label is assigned, no
/// overlay exists and no focus is requested; a session that gives up on the
/// grab has made exactly the allowed number of attempts.
pub proof fn lemma_grab_refused(s: SessionState, evs: Seq<EventView>)
    requires
        inv(s),
        !run(s, evs).grabbed,
    ensures
        run(s, evs).labels.len() == 0,
        run(s, evs).overlays.len() == 0,
        run(s, evs).focus_requests.len() == 0,
        run(s, evs).phase == Phase::Done ==> run(s, evs).grab_attempts == s.attempts,
{
    lemma_run_keeps(s, evs);
}

/// Pressing the key of a drawn label ends the selection with that label,
/// and a finished session then requests focus on its window, exactly once.
pub proof fn lemma_chosen_label_focuses(
    s: SessionState,
    code: u8,
    c: char,
    w: u32,
    evs: Seq<EventView>,
)
    requires
        inv(s),
        s.phase == Phase::Listen,
        code != s.escape,
        first_match(s.keys, code) == Some(c),
        first_match(s.realized, c) == Some(w),
    ensures
        run(next(s, EventView::Input(Some(InputEvent::KeyPress(code)))), evs).outcome == Some(
            Outcome::Chosen(c),
        ),
        run(next(s, EventView::Input(Some(InputEvent::KeyPress(code)))), evs).focus_requests.len()
            <= 1,
        run(next(s, EventView::Input(Some(InputEvent::KeyPress(code)))), evs).phase
            == Phase::Done ==> run(
            next(s, EventView::Input(Some(InputEvent::KeyPress(code)))),
            evs,
        ).focus_requests == seq![w],
{
    let e = EventView::Input(Some(InputEvent::KeyPress(code)));
    lemma_next_inv(s, e);
    lemma_run_keeps(next(s, e), evs);
}

/// Pressing Escape ends the selection as cancelled, and a finished session
/// then requests focus only on the window focused before it, if any.
pub proof fn lemma_escape_restores(s: SessionState, evs: Seq<EventView>)
    requires
        inv(s),
        s.phase == Phase::Listen,
    ensures
        run(next(s, EventView::Input(Some(InputEvent::KeyPress(s.escape)))), evs).outcome == Some(
            Outcome::Cancelled,
        ),
        run(next(s, EventView::Input(Some(InputEvent::KeyPress(s.escape)))), evs).phase
            == Phase::Done ==> run(
            next(s, EventView::Input(Some(InputEvent::KeyPress(s.escape)))),
            evs,
        ).focus_requests == as_seq(s.prior),
{
    let e = EventView::Input(Some(InputEvent::KeyPress(s.escape)));
    lemma_next_inv(s, e);
    lemma_run_keeps(next(s, e), evs);
}

/// A change of keyboard mapping ends the selection as if the stream had
/// ended: no later key is taken as a choice, and a finished session focuses
/// only the window focused before it.
pub proof fn lemma_mapping_change_ends(s: SessionState, evs: Seq<EventView>)
    requires
        inv(s),
        s.phase == Phase::Listen,
    ensures
        run(next(s, EventView::Input(Some(InputEvent::MappingNotify))), evs).outcome == Some(
            Outcome::StreamEnded,
        ),
        run(next(s, EventView::Input(Some(InputEvent::MappingNotify))), evs).phase == Phase::Done
            ==> run(
            next(s, EventView::Input(Some(InputEvent::MappingNotify))),
            evs,
        ).focus_requests == as_seq(s.prior),
{
    let e = EventView::Input(Some(InputEvent::MappingNotify));
    lemma_next_inv(s, e);
    lemma_run_keeps(next(s, e), evs);
}

/// Neither retry loop tries or sleeps more often than the policy allows, so
/// each waits at most `attempts * delay_ms` milliseconds in all.
pub proof fn lemma_retries_bounded(s: SessionState)
    requires
        inv(s),
    ensures
        s.grab_attempts <= s.attempts,
        s.grab_sleeps <= s.attempts,
        s.ungrab_attempts <= s.attempts,
        s.ungrab_sleeps <= s.attempts,
        s.grab_sleeps * s.delay_ms <= s.attempts * s.delay_ms,
        s.ungrab_sleeps * s.delay_ms <= s.attempts * s.delay_ms,
{
    assert(s.grab_sleeps * s.delay_ms <= s.attempts * s.delay_ms) by (nonlinear_arith)
        requires
            s.grab_sleeps <= s.attempts,
    ;
    assert(s.ungrab_sleeps * s.delay_ms <= s.attempts * s.delay_ms) by (nonlinear_arith)
        requires
            s.ungrab_sleeps <= s.attempts,
    ;
}

/// Each answered step of a retry loop either leaves the loop or brings it
/// closer to its end, so both loops end even if every request is refused.
pub proof fn lemma_retry_progress(s: SessionState, e: EventView)
    requires
        inv(s),
        in_grab_loop(s.phase) || in_release_loop(s.phase),
        answers(action_of(s), e),
    ensures
        retry_measure(s) >= 1,
        in_grab_loop(s.phase) ==> !in_grab_loop(next(s, e).phase) || 0 <= retry_measure(next(s, e))
            < retry_measure(s),
        in_release_loop(s.phase) ==> !in_release_loop(next(s, e).phase) || 0 <= retry_measure(
            next(s, e),
        ) < retry_measure(s),
{
}

/// One run of the window selector, driven one action at a time: the driver
/// performs `action()` and reports its result through `feed`.
pub struct Session {
    phase: Phase,
    prior: Option<u32>,
    policy: RetryPolicy,
    pool: Vec<char>,
    keys: KeyTable,
    tries_left: u32,
    grabbed: bool,
    labels: Vec<(char, u32)>,
    next_label: usize,
    realized: Vec<(char, u32)>,
    overlays: Vec<u32>,
    outcome: Option<Outcome>,
    release_failed: bool,
    destroyed: usize,
    destroyed_log: Ghost<Seq<u32>>,
    focus_log: Ghost<Seq<u32>>,
    grab_attempts: Ghost<nat>,
    grab_sleeps: Ghost<nat>,
    ungrab_attempts: Ghost<nat>,
    ungrab_sleeps: Ghost<nat>,
}

impl View for Session {
    type V = SessionState;

    closed spec fn view(&self) -> SessionState {
        SessionState {
            phase: self.phase,
            prior: self.prior,
            attempts: self.policy.attempts_spec(),
            delay_ms: self.policy.delay_spec(),
            pool: self.pool@,
            escape: self.keys.escape_code(),
            keys: self.keys.entries(),
            tries_left: self.tries_left as nat,
            grabbed: self.grabbed,
            labels: self.labels@,
            next_label: self.next_label as nat,
            realized: self.realized@,
            overlays: self.overlays@,
            outcome: self.outcome,
            release_failed: self.release_failed,
            destroyed: self.destroyed_log@,
            focus_requests: self.focus_log@,
            grab_attempts: self.grab_attempts@,
            grab_sleeps: self.grab_sleeps@,
            ungrab_attempts: self.ungrab_attempts@,
            ungrab_sleeps: self.ungrab_sleeps@,
        }
    }
}

impl Session {
    pub closed spec fn wf(&self) -> bool {
        &&& inv(self@)
        &&& self.destroyed == self.destroyed_log@.len()
    }

    /// A session that has done nothing yet; `prior` is the window focused now.
    pub fn new(prior: Option<u32>, policy: RetryPolicy, pool: Vec<char>, keys: KeyTable) -> (r: Session)
        ensures
            r.wf(),
            r@ == initial(
                prior,
                policy.attempts_spec(),
                policy.delay_spec(),
                pool@,
                keys.escape_code(),
                keys.entries(),
            ),
    {
        let attempts = policy.attempts();
        proof {
            lemma_initial_inv(
                prior,
                policy.attempts_spec(),
                policy.delay_spec(),
                pool@,
                keys.escape_code(),
                keys.entries(),
            );
        }
        Session {
            phase: Phase::Grab,
            prior,
            policy,
            pool,
            keys,
            tries_left: attempts,
            grabbed: false,
            labels: Vec::new(),
            next_label: 0,
            realized: Vec::new(),
            overlays: Vec::new(),
            outcome: None,
            release_failed: false,
            destroyed: 0,
            destroyed_log: Ghost(Seq::empty()),
            focus_log: Ghost(Seq::empty()),
            grab_attempts: Ghost(0),
            grab_sleeps: Ghost(0),
            ungrab_attempts: Ghost(0),
            ungrab_sleeps: Ghost(0),
        }
    }

    fn target(&self) -> (r: Option<u32>)
        ensures
            r == target(self@),
    {
        match self.outcome {
            Some(Outcome::Chosen(c)) => match window_for(&self.realized, c) {
                Some(w) => Some(w),
                None => self.prior,
            },
            _ => self.prior,
        }
    }

    /// What the driver is to do next.
    pub fn action(&self) -> (r: Action)
        requires
            self.wf(),
        ensures
            r == action_of(self@),
    {
        match self.phase {
            Phase::Grab => Action::TryGrab,
            Phase::GrabWait => Action::Sleep(self.policy.delay_ms()),
            Phase::FocusRoot => Action::FocusRoot,
            Phase::Collect => Action::ListCandidates,
            Phase::Render => {
                let l = self.labels[self.next_label];
                Action::ShowLabel(l.0, l.1)
            },
            Phase::Listen => Action::NextEvent,
            Phase::Flush => Action::Flush,
            Phase::Release => Action::TryUngrab,
            Phase::ReleaseWait => Action::Sleep(self.policy.delay_ms()),
            Phase::Destroy => Action::DestroyOverlay(self.overlays[self.destroyed]),
            Phase::Apply => match self.target() {
                Some(w) => Action::Focus(w),
                None => Action::Finish,
            },
            Phase::Done => Action::Finish,
        }
    }

    fn settle(&mut self)
        requires
            old(self).next_label <= old(self).labels@.len(),
            old(self).destroyed == old(self).destroyed_log@.len(),
        ensures
            final(self)@ == settle(old(self)@),
            final(self).destroyed == old(self).destroyed,
    {
        if self.phase == Phase::Render && self.next_label >= self.labels.len() {
            self.phase = Phase::Listen;
        } else if self.phase == Phase::Destroy && self.destroyed >= self.overlays.len() {
            self.phase = if self.target().is_some() {
                Phase::Apply
            } else {
                Phase::Done
            };
        }
    }

    fn begin_release(&mut self)
        ensures
            final(self)@ == begin_release(old(self)@),
            final(self).destroyed == old(self).destroyed,
    {
        self.phase = Phase::Release;
        self.tries_left = self.policy.attempts();
    }

    /// Advances the session by the result of the pending action. An event
    /// that does not answer that action changes nothing.
    pub fn feed(&mut self, e: Event)
        requires
            old(self).wf(),
        ensures
            final(self).wf(),
            final(self)@ == next(old(self)@, e@),
    {
        proof {
            lemma_next_inv(self@, e@);
        }
        match self.phase {
            Phase::Grab => {
                if let Event::Grab(ok) = e {
                    self.grab_attempts = Ghost(self.grab_attempts@ + 1);
                    if ok {
                        self.phase = Phase::FocusRoot;
                        self.grabbed = true;
                    } else {
                        self.phase = Phase::GrabWait;
                    }
                }
            },
            Phase::GrabWait => {
                if let Event::Completed = e {
                    self.grab_sleeps = Ghost(self.grab_sleeps@ + 1);
                    if self.tries_left <= 1 {
                        self.phase = Phase::Done;
                        self.tries_left = 0;
                    } else {
                        self.phase = Phase::Grab;
                        self.tries_left = self.tries_left - 1;
                    }
                }
            },
            Phase::FocusRoot => {
                if let Event::Completed = e {
                    self.phase = Phase::Collect;
                }
            },
            Phase::Collect => {
                if let Event::Candidates(c) = e {
                    self.labels = assign_labels(&c, &self.pool);
                    self.next_label = 0;
                    self.phase = Phase::Render;
                    self.settle();
                }
            },
            Phase::Render => {
                if let Event::Shown(r) = e {
                    let l = self.labels[self.next_label];
                    let len = self.labels.len();
                    assert(self.next_label < len);
                    let n = self.next_label + 1;
                    if let Some(id) = r {
                        self.overlays.push(id);
                        self.realized.push(l);
                    }
                    self.next_label = n;
                    self.settle();
                }
            },
            Phase::Listen => {
                if let Event::Input(ev) = e {
                    let st = classify(&self.keys, ev);
                    if st.flush {
                        self.phase = Phase::Flush;
                        self.outcome = st.outcome;
                    } else if st.outcome.is_some() {
                        self.outcome = st.outcome;
                        self.begin_release();
                    }
                }
            },
            Phase::Flush => {
                if let Event::Completed = e {
                    if self.outcome.is_some() {
                        self.begin_release();
                    } else {
                        self.phase = Phase::Listen;
                    }
                }
            },
            Phase::Release => {
                if let Event::Ungrab(ok) = e {
                    self.ungrab_attempts = Ghost(self.ungrab_attempts@ + 1);
                    if ok {
                        self.phase = Phase::Destroy;
                        self.settle();
                    } else {
                        self.phase = Phase::ReleaseWait;
                    }
                }
            },
            Phase::ReleaseWait => {
                if let Event::Completed = e {
                    self.ungrab_sleeps = Ghost(self.ungrab_sleeps@ + 1);
                    if self.tries_left <= 1 {
                        self.phase = Phase::Destroy;
                        self.tries_left = 0;
                        self.release_failed = true;
                        self.settle();
                    } else {
                        self.phase = Phase::Release;
                        self.tries_left = self.tries_left - 1;
                    }
                }
            },
            Phase::Destroy => {
                if let Event::Completed = e {
                    self.destroyed_log = Ghost(self.destroyed_log@.push(self.overlays@[self.destroyed as int]));
                    self.destroyed = self.destroyed + 1;
                    self.settle();
                }
            },
            Phase::Apply => {
                if let Event::Completed = e {
                    if let Some(w) = self.target() {
                        self.focus_log = Ghost(self.focus_log@.push(w));
                    }
                    self.phase = Phase::Done;
                }
            },
            Phase::Done => {},
        }
    }

    /// Every session value satisfies the invariant the laws above assume.
    pub proof fn lemma_wf_inv(&self)
        requires
            self.wf(),
        ensures
            inv(self@),
    {
    }

    /// How the selection ended, once it has.
    pub fn outcome(&self) -> (r: Option<Outcome>)
        ensures
            r == self@.outcome,
    {
        self.outcome
    }

    /// Whether the keyboard grab is known to be still held after every
    /// ungrab was refused.
    pub fn release_failed(&self) -> (r: bool)
        ensures
            r == self@.release_failed,
    {
        self.release_failed
    }

    pub fn is_done(&self) -> (r: bool)
        ensures
            r == (self@.phase == Phase::Done),
    {
        self.phase == Phase::Done
    }
}

} // verus!
