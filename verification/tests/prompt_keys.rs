use pinentry::pinentry::Pinentry;
use pinentry::prompt::{
    prompt_texts,
    ends_input, event_step, key_step, prompt_look, Focus, Key, KeyAction, PromptLook, TermionEvent,
};

#[test]
fn focus_default_and_cycle() {
    let f = Focus::default();
    assert_eq!(f, Focus::Input);
    assert!(f.is_input());
    assert_eq!(f.next(), Focus::OkButton);
    assert_eq!(f.next().next(), Focus::Cancel);
    assert_eq!(f.next().next().next(), Focus::Input);
    assert!(!Focus::Cancel.is_input());
}

#[test]
fn tab_moves_focus_only() {
    assert_eq!(key_step(Focus::Input, Key::Char('\t')), (Focus::OkButton, KeyAction::Nothing));
    assert_eq!(key_step(Focus::Cancel, Key::Char('\t')), (Focus::Input, KeyAction::Nothing));
}

#[test]
fn escape_cancels_and_enter_submits() {
    for f in [Focus::Input, Focus::OkButton, Focus::Cancel] {
        assert_eq!(key_step(f, Key::Esc), (f, KeyAction::Cancel));
    }
    assert_eq!(key_step(Focus::Input, Key::Char('\n')), (Focus::Input, KeyAction::Submit));
    assert_eq!(key_step(Focus::OkButton, Key::Char('\n')), (Focus::OkButton, KeyAction::Submit));
    assert_eq!(key_step(Focus::Cancel, Key::Char('\n')), (Focus::Cancel, KeyAction::Cancel));
}

#[test]
fn editing_keys_on_input() {
    let f = Focus::Input;
    assert_eq!(key_step(f, Key::Char('a')), (f, KeyAction::Insert('a')));
    assert_eq!(key_step(f, Key::Ctrl('w')), (f, KeyAction::DeleteWord));
    assert_eq!(key_step(f, Key::Ctrl('u')), (f, KeyAction::DeleteLine));
    assert_eq!(key_step(f, Key::Backspace), (f, KeyAction::DeleteChar));
    assert_eq!(key_step(f, Key::Ctrl('x')), (f, KeyAction::Nothing));
    assert_eq!(key_step(f, Key::Other), (f, KeyAction::Nothing));
}

#[test]
fn editing_keys_ignored_on_buttons() {
    for f in [Focus::OkButton, Focus::Cancel] {
        for key in [Key::Char('a'), Key::Ctrl('w'), Key::Ctrl('u'), Key::Backspace] {
            assert_eq!(key_step(f, key), (f, KeyAction::Nothing));
        }
    }
}

#[test]
fn tick_changes_nothing() {
    assert_eq!(event_step(Focus::OkButton, TermionEvent::Tick), (Focus::OkButton, KeyAction::Nothing));
    assert_eq!(
        event_step(Focus::Input, TermionEvent::Input(Key::Char('x'))),
        (Focus::Input, KeyAction::Insert('x'))
    );
}

#[test]
fn input_ends_on_escape_or_enter() {
    assert!(ends_input(Key::Esc));
    assert!(ends_input(Key::Char('\n')));
    assert!(!ends_input(Key::Char('\t')));
    assert!(!ends_input(Key::Backspace));
}

#[test]
fn look_follows_focus() {
    assert_eq!(
        prompt_look(Focus::Input),
        PromptLook { cursor_shown: true, ok_highlighted: false, cancel_highlighted: false }
    );
    assert_eq!(
        prompt_look(Focus::OkButton),
        PromptLook { cursor_shown: false, ok_highlighted: true, cancel_highlighted: false }
    );
    assert_eq!(
        prompt_look(Focus::Cancel),
        PromptLook { cursor_shown: false, ok_highlighted: false, cancel_highlighted: true }
    );
}

#[test]
fn texts_come_from_the_state() {
    let mut p = Pinentry::default();
    let texts = prompt_texts(&p);
    assert_eq!(texts.ok_label, "<OK>");
    assert_eq!(texts.cancel_label, "<Cancel>");
    assert!(texts.title.is_none() && texts.prompt.is_none());
    p.ok = Some("Unlock".to_string());
    p.cancel = Some("Abort".to_string());
    p.prompt = Some("PIN:".to_string());
    p.title = Some("Key".to_string());
    p.description = Some("desc".to_string());
    let texts = prompt_texts(&p);
    assert_eq!(texts.ok_label, "Unlock");
    assert_eq!(texts.cancel_label, "Abort");
    assert_eq!(texts.prompt.as_deref(), Some("PIN:"));
    assert_eq!(texts.title.as_deref(), Some("Key"));
    assert_eq!(texts.description.as_deref(), Some("desc"));
    assert!(texts.error.is_none());
}
