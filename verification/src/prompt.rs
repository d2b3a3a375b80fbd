//! The terminal prompt: which element has the focus, and what each key
//! does to the focus and to the typed text.

use vstd::prelude::*;
use vstd::string::*;

use crate::pinentry::Pinentry;
use crate::text::opt_view;

verus! {

/// Requests of the terminal side to the prompt.
pub enum TermAct {
    Stop,
}

/// The element of the prompt that keys go to.
#[derive(Debug, Clone, Copy, PartialEq, Eq, Structural)]
pub enum Focus {
    Input,
    OkButton,
    Cancel,
}

impl Default for Focus {
    fn default() -> (r: Self)
        ensures
            r == Focus::Input,
    {
        Focus::Input
    }
}

/// The element after `f` in the cycle input, OK, cancel.
pub open spec fn next_focus(f: Focus) -> Focus {
    match f {
        Focus::Input => Focus::OkButton,
        Focus::OkButton => Focus::Cancel,
        Focus::Cancel => Focus::Input,
    }
}

impl Focus {
    /// Whether the text input has the focus.
    pub fn is_input(&self) -> (r: bool)
        ensures
            r == (*self == Focus::Input),
    {
        *self == Focus::Input
    }

    /// The element that gets the focus next.
    #[must_use]
    pub fn next(&self) -> (r: Focus)
        ensures
            r == next_focus(*self),
    {
        match self {
            Focus::Input => Focus::OkButton,
            Focus::OkButton => Focus::Cancel,
            Focus::Cancel => Focus::Input,
        }
    }
}

/// A key that the terminal reported, as far as the prompt tells keys apart.
#[derive(Debug, Clone, Copy, PartialEq, Eq, Structural)]
pub enum Key {
    /// A character key, `'\n'` for enter and `'\t'` for tab among them.
    Char(char),
    /// A character key pressed with control.
    Ctrl(char),
    Esc,
    Backspace,
    /// Any other key.
    Other,
}

/// What the terminal side hands to the prompt.
#[derive(Debug, Clone, Copy, PartialEq, Eq, Structural)]
pub enum TermionEvent {
    Input(Key),
    Tick,
}

/// What the prompt does with a key.
#[derive(Debug, Clone, Copy, PartialEq, Eq, Structural)]
pub enum KeyAction {
    /// Nothing but, maybe, a change of focus.
    Nothing,
    /// The user cancelled the operation.
    Cancel,
    /// The user confirmed the typed text.
    Submit,
    /// Delete the word before the cursor.
    DeleteWord,
    /// Delete the line up to the cursor.
    DeleteLine,
    /// Delete the character before the cursor.
    DeleteChar,
    /// Insert this character at the cursor.
    Insert(char),
}

/// An action that changes the typed text.
pub open spec fn is_edit(a: KeyAction) -> bool {
    ||| a is DeleteWord
    ||| a is DeleteLine
    ||| a is DeleteChar
    ||| a is Insert
}

/// The focus and the action after `key` while `focus` has the focus.
pub open spec fn key_outcome(focus: Focus, key: Key) -> (Focus, KeyAction) {
    match key {
        Key::Esc => (focus, KeyAction::Cancel),
        Key::Char('\n') => (focus, if focus == Focus::Cancel { KeyAction::Cancel } else { KeyAction::Submit }),
        Key::Char('\t') => (next_focus(focus), KeyAction::Nothing),
        Key::Ctrl('w') => (focus, if focus == Focus::Input { KeyAction::DeleteWord } else { KeyAction::Nothing }),
        Key::Ctrl('u') => (focus, if focus == Focus::Input { KeyAction::DeleteLine } else { KeyAction::Nothing }),
        Key::Backspace => (focus, if focus == Focus::Input { KeyAction::DeleteChar } else { KeyAction::Nothing }),
        Key::Char(c) => (focus, if focus == Focus::Input { KeyAction::Insert(c) } else { KeyAction::Nothing }),
        _ => (focus, KeyAction::Nothing),
    }
}

/// The focus and the action after the event `ev`.
pub open spec fn event_outcome(focus: Focus, ev: TermionEvent) -> (Focus, KeyAction) {
    match ev {
        TermionEvent::Input(key) => key_outcome(focus, key),
        TermionEvent::Tick => (focus, KeyAction::Nothing),
    }
}

/// What the prompt does with `key` while `focus` has the focus, and where
/// the focus is afterwards.
pub fn key_step(focus: Focus, key: Key) -> (r: (Focus, KeyAction))
    ensures
        r == key_outcome(focus, key),
{
    match key {
        Key::Esc => (focus, KeyAction::Cancel),
        Key::Char('\n') => {
            if focus == Focus::Cancel {
                (focus, KeyAction::Cancel)
            } else {
                (focus, KeyAction::Submit)
            }
        },
        Key::Char('\t') => (focus.next(), KeyAction::Nothing),
        Key::Ctrl('w') => {
            if focus.is_input() {
                (focus, KeyAction::DeleteWord)
            } else {
                (focus, KeyAction::Nothing)
            }
        },
        Key::Ctrl('u') => {
            if focus.is_input() {
                (focus, KeyAction::DeleteLine)
            } else {
                (focus, KeyAction::Nothing)
            }
        },
        Key::Backspace => {
            if focus.is_input() {
                (focus, KeyAction::DeleteChar)
            } else {
                (focus, KeyAction::Nothing)
            }
        },
        Key::Char(c) => {
            if focus.is_input() {
                (focus, KeyAction::Insert(c))
            } else {
                (focus, KeyAction::Nothing)
            }
        },
        _ => (focus, KeyAction::Nothing),
    }
}

/// What the prompt does with the event `ev`, and where the focus is afterwards.
pub fn event_step(focus: Focus, ev: TermionEvent) -> (r: (Focus, KeyAction))
    ensures
        r == event_outcome(focus, ev),
{
    match ev {
        TermionEvent::Input(key) => key_step(focus, key),
        TermionEvent::Tick => (focus, KeyAction::Nothing),
    }
}

/// Whether the terminal stops reading keys after `key`: escape and enter end the input.
pub fn ends_input(key: Key) -> (r: bool)
    ensures
        r == (key == Key::Esc || key == Key::Char('\n')),
{
    match key {
        Key::Esc => true,
        Key::Char('\n') => true,
        _ => false,
    }
}

/// How the prompt shows the focus.
#[derive(Debug, Clone, Copy, PartialEq, Eq, Structural)]
pub struct PromptLook {
    /// The text cursor is drawn.
    pub cursor_shown: bool,
    /// The OK button is highlighted.
    pub ok_highlighted: bool,
    /// The cancel button is highlighted.
    pub cancel_highlighted: bool,
}

/// How the prompt shows that `focus` has the focus.
pub fn prompt_look(focus: Focus) -> (r: PromptLook)
    ensures
        r.cursor_shown == (focus == Focus::Input),
        r.ok_highlighted == (focus == Focus::OkButton),
        r.cancel_highlighted == (focus == Focus::Cancel),
{
    PromptLook {
        cursor_shown: focus == Focus::Input,
        ok_highlighted: focus == Focus::OkButton,
        cancel_highlighted: focus == Focus::Cancel,
    }
}

/// The texts the prompt shows, taken from the pinentry state.
#[derive(Debug, PartialEq, Eq)]
pub struct PromptTexts {
    /// The window title, if the client set one.
    pub title: Option<String>,
    /// The description above the input.
    pub description: Option<String>,
    /// The error message under the description.
    pub error: Option<String>,
    /// The prompt on the input field.
    pub prompt: Option<String>,
    /// The label of the OK button: the client's text, else `<OK>`.
    pub ok_label: String,
    /// The label of the cancel button: the client's text, else `<Cancel>`.
    pub cancel_label: String,
}

/// The label of a button: the client's text when set, else the default.
pub open spec fn label_of(text: Option<Seq<char>>, default: Seq<char>) -> Seq<char> {
    match text {
        Some(t) => t,
        None => default,
    }
}

/// A copy of an optional text.
fn copy_text(t: &Option<String>) -> (r: Option<String>)
    ensures
        opt_view(r) == opt_view(*t),
{
    match t {
        Some(s) => Some(s.clone()),
        None => None,
    }
}

/// The texts the prompt shows for the pinentry state `p`.
pub fn prompt_texts(p: &Pinentry) -> (r: PromptTexts)
    ensures
        opt_view(r.title) == p@.title,
        opt_view(r.description) == p@.description,
        opt_view(r.error) == p@.error,
        opt_view(r.prompt) == p@.prompt,
        r.ok_label@ == label_of(p@.ok, "<OK>"@),
        r.cancel_label@ == label_of(p@.cancel, "<Cancel>"@),
{
    let ok_label = match &p.ok {
        Some(t) => t.clone(),
        None => "<OK>".to_owned(),
    };
    let cancel_label = match &p.cancel {
        Some(t) => t.clone(),
        None => "<Cancel>".to_owned(),
    };
    PromptTexts {
        title: copy_text(&p.title),
        description: copy_text(&p.description),
        error: copy_text(&p.error),
        prompt: copy_text(&p.prompt),
        ok_label,
        cancel_label,
    }
}

/// The focus runs through the three elements in turn: three steps bring it
/// back, and no step leaves it where it was.
pub proof fn lemma_focus_cycle(f: Focus)
    ensures
        next_focus(next_focus(next_focus(f))) == f,
        next_focus(f) != f,
{
}

/// Only tab moves the focus, and it always moves it on by one.
pub proof fn lemma_only_tab_moves_focus(f: Focus, key: Key)
    ensures
        key_outcome(f, key).0 != f ==> key == Key::Char('\t'),
        key == Key::Char('\t') ==> key_outcome(f, key) == (next_focus(f), KeyAction::Nothing),
{
}

/// The typed text changes only while the text input has the focus.
pub proof fn lemma_edits_only_on_input(f: Focus, key: Key)
    ensures
        is_edit(key_outcome(f, key).1) ==> f == Focus::Input,
{
}

/// Escape always cancels; enter cancels on the cancel button and confirms
/// elsewhere.
pub proof fn lemma_escape_and_enter(f: Focus)
    ensures
        key_outcome(f, Key::Esc).1 == KeyAction::Cancel,
        key_outcome(f, Key::Char('\n')).1 == (if f == Focus::Cancel { KeyAction::Cancel } else { KeyAction::Submit }),
{
}

/// No key puts a newline or a tab into the typed text.
pub proof fn lemma_keys_insert_no_break_or_tab(f: Focus, key: Key)
    ensures
        key_outcome(f, key).1 matches KeyAction::Insert(c) ==> c != '\n' && c != '\t',
{
}

/// The focus after the keys `keys`, one after another, from `f`.
pub open spec fn focus_after(f: Focus, keys: Seq<Key>) -> Focus
    decreases keys.len(),
{
    if keys.len() == 0 {
        f
    } else {
        key_outcome(focus_after(f, keys.drop_last()), keys.last()).0
    }
}

/// How many tabs `keys` holds.
pub open spec fn tab_count(keys: Seq<Key>) -> nat
    decreases keys.len(),
{
    if keys.len() == 0 {
        0
    } else {
        tab_count(keys.drop_last()) + if keys.last() == Key::Char('\t') { 1nat } else { 0nat }
    }
}

/// The element `n` steps after `f` in the focus cycle.
pub open spec fn next_n(f: Focus, n: nat) -> Focus
    decreases n,
{
    if n == 0 {
        f
    } else {
        next_focus(next_n(f, (n - 1) as nat))
    }
}

/// Over any keys, the focus moves on by one for each tab and for nothing else.
pub proof fn lemma_focus_after_keys(f: Focus, keys: Seq<Key>)
    ensures
        focus_after(f, keys) == next_n(f, tab_count(keys)),
    decreases keys.len(),
{
    if keys.len() > 0 {
        lemma_focus_after_keys(f, keys.drop_last());
        lemma_only_tab_moves_focus(focus_after(f, keys.drop_last()), keys.last());
    }
}

/// While the input has the focus, every character key but enter and tab
/// types that very character and keeps the focus; on a button, no character
/// key types anything.
pub proof fn lemma_characters_are_typed(c: char)
    ensures
        c != '\n' && c != '\t' ==> key_outcome(Focus::Input, Key::Char(c)) == (Focus::Input, KeyAction::Insert(c)),
        c != '\n' && c != '\t' ==> key_outcome(Focus::OkButton, Key::Char(c)) == (Focus::OkButton, KeyAction::Nothing),
        c != '\n' && c != '\t' ==> key_outcome(Focus::Cancel, Key::Char(c)) == (Focus::Cancel, KeyAction::Nothing),
{
}

} // verus!
