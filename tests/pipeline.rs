use unwrap_paste::listener::{HotkeyListener, KeyEvent, KeyPhase};
use unwrap_paste::pipeline::{
    chord_action, Action, Chord, Completion, Key, Pipeline, PipelineError, Reply, KEY_DELAY_MS,
    SETTLE_DELAY_MS,
};

fn chord(letter: Key) -> Vec<Action> {
    vec![
        Action::Press(Key::ControlLeft),
        Action::Wait(KEY_DELAY_MS),
        Action::Press(letter),
        Action::Wait(KEY_DELAY_MS),
        Action::Release(letter),
        Action::Wait(KEY_DELAY_MS),
        Action::Release(Key::ControlLeft),
    ]
}

/// Drives a run, answering each action with the next reply, and returns
/// every action handed out.
fn drive(replies: Vec<Reply>) -> (Vec<Action>, Pipeline) {
    let mut p = Pipeline::new();
    let mut actions = vec![p.current()];
    for reply in replies {
        if p.is_finished() {
            break;
        }
        assert!(p.accepts(&reply));
        actions.push(p.advance(reply));
    }
    (actions, p)
}

fn dones(n: usize) -> Vec<Reply> {
    (0..n).map(|_| Reply::Done).collect()
}

fn copy_steps() -> Vec<Action> {
    let mut v = chord(Key::KeyC);
    v.push(Action::Wait(SETTLE_DELAY_MS));
    v.push(Action::ReadClipboard);
    v
}

#[test]
fn full_run_writes_flattened_text_and_pastes() {
    let mut replies = dones(8);
    replies.push(Reply::Text("Hello\r\nWorld\n!".to_string()));
    replies.extend(dones(9));
    let (actions, p) = drive(replies);
    let mut expected = copy_steps();
    expected.push(Action::WriteClipboard("Hello World !".to_string()));
    expected.push(Action::Wait(SETTLE_DELAY_MS));
    expected.extend(chord(Key::KeyV));
    expected.push(Action::Finish(Ok(Completion::Pasted)));
    assert_eq!(actions, expected);
    assert!(p.is_finished());
}

#[test]
fn empty_read_ends_without_write_or_paste() {
    let mut replies = dones(8);
    replies.push(Reply::Text(String::new()));
    let (actions, p) = drive(replies);
    let mut expected = copy_steps();
    expected.push(Action::Finish(Ok(Completion::SkippedEmpty)));
    assert_eq!(actions, expected);
    assert!(p.is_finished());
    assert!(!actions.iter().any(|a| matches!(a, Action::WriteClipboard(_))));
    assert!(!actions.iter().any(|a| *a == Action::Press(Key::KeyV)));
}

#[test]
fn copy_letter_failure_aborts_before_read() {
    let mut replies = dones(2);
    replies.push(Reply::Failed);
    let (actions, p) = drive(replies);
    assert_eq!(
        actions,
        vec![
            Action::Press(Key::ControlLeft),
            Action::Wait(KEY_DELAY_MS),
            Action::Press(Key::KeyC),
            Action::Finish(Err(PipelineError::SimulationFailure(Chord::Copy))),
        ]
    );
    assert!(p.is_finished());
    assert!(!actions.iter().any(|a| *a == Action::ReadClipboard));
    // The listener still answers the next press of its key.
    let listener = HotkeyListener::new(7);
    let press = KeyEvent { key: 7, phase: KeyPhase::Press };
    assert!(listener.should_run(&press));
    let (again, _) = drive(vec![Reply::Done]);
    assert_eq!(again[1], Action::Wait(KEY_DELAY_MS));
}

#[test]
fn failed_write_leaves_clipboard_and_skips_paste() {
    let mut replies = dones(8);
    replies.push(Reply::Text("a\nb".to_string()));
    replies.push(Reply::Failed);
    let (actions, p) = drive(replies);
    let mut expected = copy_steps();
    expected.push(Action::WriteClipboard("a b".to_string()));
    expected.push(Action::Finish(Err(PipelineError::ClipboardWriteFailure)));
    assert_eq!(actions, expected);
    assert!(p.is_finished());
    assert!(!actions.iter().any(|a| *a == Action::Press(Key::KeyV)));
    assert_eq!(actions.iter().filter(|a| matches!(a, Action::WriteClipboard(_))).count(), 1);
}

#[test]
fn failed_read_ends_the_run() {
    let mut replies = dones(8);
    replies.push(Reply::Failed);
    let (actions, p) = drive(replies);
    assert_eq!(
        actions.last(),
        Some(&Action::Finish(Err(PipelineError::ClipboardReadFailure)))
    );
    assert_eq!(actions.len(), 10);
    assert!(p.is_finished());
}

#[test]
fn paste_failure_is_reported_for_the_paste_chord() {
    let mut replies = dones(8);
    replies.push(Reply::Text("x".to_string()));
    replies.extend(dones(4));
    replies.push(Reply::Failed);
    let (actions, _) = drive(replies);
    assert_eq!(
        actions.last(),
        Some(&Action::Finish(Err(PipelineError::SimulationFailure(Chord::Paste))))
    );
    assert_eq!(actions[actions.len() - 2], Action::Press(Key::KeyV));
}

#[test]
fn modifier_failure_in_copy_chord() {
    let (actions, _) = drive(vec![Reply::Failed]);
    assert_eq!(
        actions,
        vec![
            Action::Press(Key::ControlLeft),
            Action::Finish(Err(PipelineError::SimulationFailure(Chord::Copy))),
        ]
    );
}

#[test]
fn replies_are_checked_against_the_action() {
    let p = Pipeline::new();
    assert!(p.accepts(&Reply::Done));
    assert!(p.accepts(&Reply::Failed));
    assert!(!p.accepts(&Reply::Text("t".to_string())));
    let mut p = Pipeline::new();
    p.advance(Reply::Done);
    // A pause always ends.
    assert!(!p.accepts(&Reply::Failed));
    let (_, finished) = drive(vec![Reply::Failed]);
    assert!(!finished.accepts(&Reply::Done));
}

#[test]
fn chord_steps_in_order() {
    for (i, a) in chord(Key::KeyV).into_iter().enumerate() {
        assert_eq!(chord_action(Chord::Paste, i), a);
    }
    for (i, a) in chord(Key::KeyC).into_iter().enumerate() {
        assert_eq!(chord_action(Chord::Copy, i), a);
    }
}

#[test]
fn listener_fires_on_trigger_press_only() {
    let l = HotkeyListener::new(42);
    assert_eq!(l.trigger(), 42);
    assert!(l.should_run(&KeyEvent { key: 42, phase: KeyPhase::Press }));
    assert!(!l.should_run(&KeyEvent { key: 42, phase: KeyPhase::Release }));
    assert!(!l.should_run(&KeyEvent { key: 41, phase: KeyPhase::Press }));
}
