use ratatui::style::{Modifier, Style};
use pinentry::prompt::KeyAction;
use pinentry::secret::SecretInput;

fn typed(actions: &[KeyAction]) -> String {
    let mut field = SecretInput::new();
    for a in actions {
        field.apply(*a);
    }
    field.secret()
}

fn chars(s: &str) -> Vec<KeyAction> {
    s.chars().map(KeyAction::Insert).collect()
}

#[test]
fn new_field_is_empty() {
    assert_eq!(SecretInput::new().secret(), "");
}

#[test]
fn typing_builds_the_secret() {
    assert_eq!(typed(&chars("s3cr3t")), "s3cr3t");
    assert_eq!(typed(&chars("äöü €")), "äöü €");
}

#[test]
fn backspace_removes_the_last_character() {
    let mut a = chars("abc");
    a.push(KeyAction::DeleteChar);
    assert_eq!(typed(&a), "ab");
    assert_eq!(typed(&[KeyAction::DeleteChar]), "");
}

#[test]
fn delete_line_clears_what_was_typed() {
    let mut a = chars("abc");
    a.push(KeyAction::DeleteLine);
    a.extend(chars("xy"));
    assert_eq!(typed(&a), "xy");
    assert_eq!(typed(&[KeyAction::DeleteLine]), "");
}

#[test]
fn delete_word_removes_the_last_word() {
    let mut a = chars("aaa bbb ccc");
    a.push(KeyAction::DeleteWord);
    assert_eq!(typed(&a), "aaa bbb ");
    a.push(KeyAction::DeleteWord);
    assert_eq!(typed(&a), "aaa ");
}

#[test]
fn carriage_return_starts_a_second_line() {
    let mut a = chars("ab");
    a.push(KeyAction::Insert('\r'));
    a.extend(chars("cd"));
    assert_eq!(typed(&a), "ab");
    a.push(KeyAction::DeleteLine);
    a.push(KeyAction::DeleteLine);
    assert_eq!(typed(&a), "ab");
}

#[test]
fn other_actions_and_looks_leave_the_text() {
    let mut field = SecretInput::new();
    for a in chars("pin") {
        field.apply(a);
    }
    field.apply(KeyAction::Nothing);
    field.apply(KeyAction::Submit);
    field.show_cursor(false);
    field.show_cursor(true);
    field.set_title(Some("PIN:".to_string()));
    field.set_title(None);
    assert_eq!(field.secret(), "pin");
}

#[test]
fn field_is_masked_with_a_plain_cursor_line_and_a_border() {
    let field = SecretInput::new();
    let widget = &field.field().widget;
    assert_eq!(widget.mask_char(), Some('*'));
    assert_eq!(widget.cursor_line_style(), Style::default());
    assert_eq!(widget.cursor_style(), Style::default().add_modifier(Modifier::REVERSED));
    assert!(widget.block().is_some());
}

#[test]
fn show_cursor_sets_the_cursor_style() {
    let mut field = SecretInput::new();
    field.show_cursor(false);
    assert_eq!(field.field().widget.cursor_style(), Style::default().add_modifier(Modifier::HIDDEN));
    field.show_cursor(true);
    assert_eq!(field.field().widget.cursor_style(), Style::default().add_modifier(Modifier::REVERSED));
    assert_eq!(field.field().widget.mask_char(), Some('*'));
}

#[test]
fn set_title_puts_a_titled_border() {
    let mut field = SecretInput::new();
    field.set_title(Some("PIN:".to_string()));
    let titled = format!("{:?}", field.field().widget.block());
    assert!(titled.contains("PIN:"));
    field.set_title(None);
    let plain = format!("{:?}", field.field().widget.block());
    assert!(!plain.contains("PIN:"));
    assert!(field.field().widget.block().is_some());
}

#[test]
fn delete_word_on_punctuation_and_empty() {
    let mut a = chars("foo(a)");
    a.push(KeyAction::DeleteWord);
    assert_eq!(typed(&a), "foo(a");
    assert_eq!(typed(&[KeyAction::DeleteWord]), "");
    let mut b = chars("   ");
    b.push(KeyAction::DeleteWord);
    assert_eq!(typed(&b), "");
}
