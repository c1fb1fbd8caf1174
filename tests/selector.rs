use easyfocus::keys::KeyTable;
use easyfocus::labels::{assign_labels, standard_pool, valid_pool, window_for};
use easyfocus::retry::RetryPolicy;
use easyfocus::selection::{classify, InputEvent, LoopStep, Outcome};
use easyfocus::session::{Action, Event, Session};

fn session(prior: Option<u32>, policy: RetryPolicy) -> Session {
    Session::new(prior, policy, standard_pool(), KeyTable::standard())
}

/// Feeds each event after recording the action it answers; returns the
/// actions seen, then the pending one.
fn drive(s: &mut Session, events: Vec<Event>) -> Vec<Action> {
    let mut seen = Vec::new();
    for e in events {
        seen.push(s.action());
        s.feed(e);
    }
    seen.push(s.action());
    seen
}

fn grab_and_label(s: &mut Session, cands: Vec<u32>, shown: Vec<Option<u32>>) -> Vec<Action> {
    let mut evs = vec![Event::Grab(true), Event::Completed, Event::Candidates(cands)];
    for o in shown {
        evs.push(Event::Shown(o));
    }
    drive(s, evs)
}

fn focus_count(actions: &[Action]) -> usize {
    actions.iter().filter(|a| matches!(a, Action::Focus(_))).count()
}

#[test]
fn labels_follow_pool_tail() {
    let r = assign_labels(&vec![11, 22, 33], &standard_pool());
    assert_eq!(r, vec![('a', 11), ('s', 22), ('d', 33)]);
}

#[test]
fn labels_stop_when_pool_runs_out() {
    let r = assign_labels(&vec![1, 2, 3], &vec!['x', 'y']);
    assert_eq!(r, vec![('y', 1), ('x', 2)]);
}

#[test]
fn labels_for_no_candidates() {
    assert!(assign_labels(&vec![], &standard_pool()).is_empty());
}

#[test]
fn labels_unique_and_from_pool() {
    let pool = standard_pool();
    let cands: Vec<u32> = (0..50).collect();
    let r = assign_labels(&cands, &pool);
    assert_eq!(r.len(), 36);
    for (i, (c, w)) in r.iter().enumerate() {
        assert!(pool.contains(c));
        assert_eq!(*w, i as u32);
        for (d, _) in &r[i + 1..] {
            assert_ne!(c, d);
        }
    }
}

#[test]
fn standard_pool_is_valid() {
    let pool = standard_pool();
    assert_eq!(pool.len(), 36);
    assert!(valid_pool(&pool));
    assert!(!valid_pool(&vec!['a', 'b', 'a']));
    assert!(!valid_pool(&vec!['a', '!']));
    assert!(valid_pool(&vec![]));
}

#[test]
fn window_lookup() {
    let l = vec![('a', 5), ('s', 6)];
    assert_eq!(window_for(&l, 's'), Some(6));
    assert_eq!(window_for(&l, 'q'), None);
}

#[test]
fn standard_key_table() {
    let t = KeyTable::standard();
    assert_eq!(t.escape(), 9);
    assert_eq!(t.char_for(24), Some('q'));
    assert_eq!(t.char_for(38), Some('a'));
    assert_eq!(t.char_for(19), Some('0'));
    assert_eq!(t.char_for(10), Some('1'));
    assert_eq!(t.char_for(9), None);
    assert_eq!(t.char_for(100), None);
}

#[test]
fn standard_key_table_is_one_to_one() {
    let t = KeyTable::standard();
    let mut chars: Vec<char> = (0..=255u8).filter_map(|code| t.char_for(code)).collect();
    assert_eq!(chars.len(), 36);
    assert!(chars.iter().all(|c| c.is_ascii_digit() || c.is_ascii_lowercase()));
    chars.sort();
    chars.dedup();
    assert_eq!(chars.len(), 36);
}

#[test]
fn custom_key_table() {
    let t = KeyTable::new(66, vec![(1, 'z')]);
    assert_eq!(t.escape(), 66);
    assert_eq!(t.char_for(1), Some('z'));
    assert_eq!(t.char_for(24), None);
}

#[test]
fn classify_events() {
    let t = KeyTable::standard();
    let end = |o| LoopStep { flush: false, outcome: Some(o) };
    assert_eq!(classify(&t, Some(InputEvent::KeyPress(9))), end(Outcome::Cancelled));
    assert_eq!(classify(&t, Some(InputEvent::KeyPress(24))), end(Outcome::Chosen('q')));
    assert_eq!(classify(&t, None), end(Outcome::StreamEnded));
    assert_eq!(
        classify(&t, Some(InputEvent::KeyPress(200))),
        LoopStep { flush: false, outcome: None }
    );
    let wait = LoopStep { flush: true, outcome: None };
    assert_eq!(classify(&t, Some(InputEvent::Expose)), wait);
    assert_eq!(classify(&t, Some(InputEvent::KeyRelease)), wait);
    assert_eq!(classify(&t, Some(InputEvent::Other(33))), wait);
    assert_eq!(
        classify(&t, Some(InputEvent::MappingNotify)),
        LoopStep { flush: true, outcome: Some(Outcome::StreamEnded) }
    );
}

#[test]
fn retry_policy_bounds() {
    assert!(RetryPolicy::new(0, 10).is_none());
    let p = RetryPolicy::new(3, 7).unwrap();
    assert_eq!(p.attempts(), 3);
    assert_eq!(p.delay_ms(), 7);
    let s = RetryPolicy::standard();
    assert_eq!((s.attempts(), s.delay_ms()), (50, 10));
}

#[test]
fn chosen_label_focuses_its_window_once() {
    let mut s = session(Some(7), RetryPolicy::standard());
    let mut seen = drive(&mut s, vec![Event::Grab(false), Event::Completed]);
    assert_eq!(seen, vec![Action::TryGrab, Action::Sleep(10), Action::TryGrab]);
    let cands: Vec<u32> = (1..=10).collect();
    let shown: Vec<Option<u32>> = (1..=10).map(|i| Some(1000 + i)).collect();
    seen = grab_and_label(&mut s, cands, shown);
    assert_eq!(seen[0], Action::TryGrab);
    assert_eq!(seen[1], Action::FocusRoot);
    assert_eq!(seen[2], Action::ListCandidates);
    assert_eq!(seen[3], Action::ShowLabel('a', 1));
    assert_eq!(seen[12], Action::ShowLabel('q', 10));
    assert_eq!(seen[13], Action::NextEvent);
    seen = drive(
        &mut s,
        vec![
            Event::Input(Some(InputEvent::Expose)),
            Event::Completed,
            Event::Input(Some(InputEvent::KeyPress(24))),
            Event::Ungrab(true),
        ],
    );
    assert_eq!(seen[..4], [Action::NextEvent, Action::Flush, Action::NextEvent, Action::TryUngrab]);
    assert_eq!(seen[4], Action::DestroyOverlay(1001));
    let mut all = Vec::new();
    for _ in 0..10 {
        all.push(s.action());
        s.feed(Event::Completed);
    }
    let destroyed: Vec<Action> = (1..=10).map(|i| Action::DestroyOverlay(1000 + i)).collect();
    assert_eq!(all, destroyed);
    let tail = drive(&mut s, vec![Event::Completed]);
    assert_eq!(tail, vec![Action::Focus(10), Action::Finish]);
    assert_eq!(focus_count(&tail), 1);
    assert_eq!(s.outcome(), Some(Outcome::Chosen('q')));
    assert!(s.is_done());
    assert!(!s.release_failed());
}

#[test]
fn escape_restores_prior_focus() {
    let mut s = session(Some(7), RetryPolicy::standard());
    grab_and_label(&mut s, vec![1, 2], vec![Some(50), Some(51)]);
    let seen = drive(
        &mut s,
        vec![
            Event::Input(Some(InputEvent::KeyPress(9))),
            Event::Ungrab(true),
            Event::Completed,
            Event::Completed,
            Event::Completed,
        ],
    );
    assert_eq!(
        seen,
        vec![
            Action::NextEvent,
            Action::TryUngrab,
            Action::DestroyOverlay(50),
            Action::DestroyOverlay(51),
            Action::Focus(7),
            Action::Finish,
        ]
    );
    assert_eq!(s.outcome(), Some(Outcome::Cancelled));
}

#[test]
fn escape_without_prior_focus_focuses_nothing() {
    let mut s = session(None, RetryPolicy::standard());
    grab_and_label(&mut s, vec![1], vec![Some(50)]);
    let seen = drive(
        &mut s,
        vec![Event::Input(Some(InputEvent::KeyPress(9))), Event::Ungrab(true), Event::Completed],
    );
    assert_eq!(seen.last(), Some(&Action::Finish));
    assert_eq!(focus_count(&seen), 0);
    assert!(s.is_done());
}

#[test]
fn grab_never_granted_is_a_no_op() {
    let mut s = session(Some(7), RetryPolicy::standard());
    let mut evs = Vec::new();
    for _ in 0..50 {
        evs.push(Event::Grab(false));
        evs.push(Event::Completed);
    }
    let seen = drive(&mut s, evs);
    assert_eq!(seen.len(), 101);
    let tries = seen.iter().filter(|a| **a == Action::TryGrab).count();
    let sleeps: Vec<&Action> = seen.iter().filter(|a| matches!(a, Action::Sleep(_))).collect();
    assert_eq!(tries, 50);
    assert_eq!(sleeps.len(), 50);
    let slept: u64 = sleeps.iter().map(|a| if let Action::Sleep(ms) = a { *ms } else { 0 }).sum();
    assert!(slept <= 50 * 10);
    assert_eq!(seen[100], Action::Finish);
    assert!(s.is_done());
    assert_eq!(s.outcome(), None);
    assert!(!seen.iter().any(|a| matches!(a, Action::ShowLabel(..) | Action::Focus(_) | Action::DestroyOverlay(_))));
}

#[test]
fn mapping_change_ends_selection() {
    let mut s = session(Some(3), RetryPolicy::standard());
    grab_and_label(&mut s, vec![1], vec![Some(40)]);
    let seen = drive(
        &mut s,
        vec![
            Event::Input(Some(InputEvent::MappingNotify)),
            Event::Completed,
            Event::Input(Some(InputEvent::KeyPress(38))),
            Event::Ungrab(true),
            Event::Completed,
            Event::Completed,
        ],
    );
    assert_eq!(
        seen,
        vec![
            Action::NextEvent,
            Action::Flush,
            Action::TryUngrab,
            Action::TryUngrab,
            Action::DestroyOverlay(40),
            Action::Focus(3),
            Action::Finish,
        ]
    );
    assert_eq!(s.outcome(), Some(Outcome::StreamEnded));
}

#[test]
fn stream_end_restores_prior_focus() {
    let mut s = session(Some(3), RetryPolicy::standard());
    grab_and_label(&mut s, vec![1], vec![Some(40)]);
    let seen = drive(&mut s, vec![Event::Input(None), Event::Ungrab(true), Event::Completed, Event::Completed]);
    assert_eq!(seen[4], Action::Finish);
    assert_eq!(seen[3], Action::Focus(3));
    assert_eq!(s.outcome(), Some(Outcome::StreamEnded));
}

#[test]
fn unknown_key_keeps_waiting() {
    let mut s = session(Some(3), RetryPolicy::standard());
    grab_and_label(&mut s, vec![1], vec![Some(40)]);
    let seen = drive(&mut s, vec![Event::Input(Some(InputEvent::KeyPress(200)))]);
    assert_eq!(seen, vec![Action::NextEvent, Action::NextEvent]);
    assert_eq!(s.outcome(), None);
}

#[test]
fn refused_ungrab_still_cleans_up() {
    let mut s = session(Some(3), RetryPolicy::new(3, 5).unwrap());
    grab_and_label(&mut s, vec![1, 2], vec![Some(40), Some(41)]);
    let seen = drive(
        &mut s,
        vec![
            Event::Input(Some(InputEvent::KeyPress(39))),
            Event::Ungrab(false),
            Event::Completed,
            Event::Ungrab(false),
            Event::Completed,
            Event::Ungrab(false),
            Event::Completed,
            Event::Completed,
            Event::Completed,
            Event::Completed,
        ],
    );
    assert_eq!(
        seen,
        vec![
            Action::NextEvent,
            Action::TryUngrab,
            Action::Sleep(5),
            Action::TryUngrab,
            Action::Sleep(5),
            Action::TryUngrab,
            Action::Sleep(5),
            Action::DestroyOverlay(40),
            Action::DestroyOverlay(41),
            Action::Focus(2),
            Action::Finish,
        ]
    );
    assert!(s.release_failed());
}

#[test]
fn undrawn_label_is_not_selectable() {
    let mut s = session(Some(9), RetryPolicy::standard());
    grab_and_label(&mut s, vec![1, 2], vec![None, Some(41)]);
    let seen = drive(
        &mut s,
        vec![
            Event::Input(Some(InputEvent::KeyPress(38))),
            Event::Ungrab(true),
            Event::Completed,
            Event::Completed,
        ],
    );
    assert_eq!(seen[2], Action::DestroyOverlay(41));
    assert_eq!(seen[3], Action::Focus(9));
    assert_eq!(s.outcome(), Some(Outcome::Chosen('a')));
}

#[test]
fn no_candidates_only_falls_back() {
    let mut s = session(Some(9), RetryPolicy::standard());
    let seen = grab_and_label(&mut s, vec![], vec![]);
    assert_eq!(seen.last(), Some(&Action::NextEvent));
    let seen = drive(
        &mut s,
        vec![Event::Input(Some(InputEvent::KeyPress(38))), Event::Ungrab(true), Event::Completed],
    );
    assert_eq!(seen, vec![Action::NextEvent, Action::TryUngrab, Action::Focus(9), Action::Finish]);
}

#[test]
fn unanswering_event_changes_nothing() {
    let mut s = session(Some(9), RetryPolicy::standard());
    let seen = drive(&mut s, vec![Event::Completed, Event::Input(None), Event::Shown(Some(4))]);
    assert_eq!(seen, vec![Action::TryGrab; 4]);
}
