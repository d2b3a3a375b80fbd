//! The text field the full-screen prompt reads the PIN into: a
//! `tui_textarea::TextArea`, driven by the prompt's key actions.

use vstd::prelude::*;

use crate::prompt::{key_outcome, lemma_keys_insert_no_break_or_tab, Focus, Key, KeyAction};
use crate::text::opt_view;

use ratatui::style::{Modifier, Style};
use ratatui::widgets::Block;
use tui_textarea::TextArea;

verus! {

/// The text field widget of `tui_textarea` that the PIN is typed into.
/// The widget is public for drawing only; every change goes through the
/// functions below.
#[verifier::external_body]
pub struct SecretArea {
    pub widget: TextArea<'static>,
}

/// The lines a text area holds.
pub uninterp spec fn area_lines(t: SecretArea) -> Seq<Seq<char>>;

/// The cursor of a text area: row and column, counted in characters.
pub uninterp spec fn area_cursor(t: SecretArea) -> (nat, nat);

/// Whether a text area has a selection under way.
pub uninterp spec fn area_selecting(t: SecretArea) -> bool;

/// Where `tui_textarea` finds the start of the word before column `col` of
/// `line` (`find_word_start_backward`), if anywhere.
pub uninterp spec fn word_start_before(line: Seq<char>, col: nat) -> Option<nat>;

/// A style of the cells of a text area.
#[derive(Debug, Clone, Copy, PartialEq, Eq, Structural)]
pub enum CellStyle {
    /// No colour and no modifier.
    Plain,
    /// Underlined.
    Underlined,
    /// Foreground and background swapped.
    Reversed,
    /// Not drawn.
    Hidden,
}

/// A border around a text area.
#[derive(Debug, PartialEq, Eq)]
pub enum Border {
    /// A plain line all around.
    Plain,
    /// A plain line all around with a title on it.
    Titled(String),
}

/// The view of a [`Border`].
pub enum BorderView {
    Plain,
    Titled(Seq<char>),
}

impl View for Border {
    type V = BorderView;

    open spec fn view(&self) -> BorderView {
        match self {
            Border::Plain => BorderView::Plain,
            Border::Titled(t) => BorderView::Titled(t@),
        }
    }
}

/// The character a text area draws in place of each character of its text, if any.
pub uninterp spec fn area_mask(t: SecretArea) -> Option<char>;

/// The style a text area draws its cursor in.
pub uninterp spec fn area_cursor_style(t: SecretArea) -> CellStyle;

/// The style a text area draws the line under the cursor in.
pub uninterp spec fn area_cursor_line_style(t: SecretArea) -> CellStyle;

/// The border a text area is drawn with, if any.
pub uninterp spec fn area_border(t: SecretArea) -> Option<BorderView>;

/// How a text area is drawn: mask, cursor and cursor line styles, border.
pub struct FieldLook {
    pub mask: Option<char>,
    pub cursor_style: CellStyle,
    pub cursor_line_style: CellStyle,
    pub border: Option<BorderView>,
}

/// How `t` is drawn.
pub open spec fn field_look(t: SecretArea) -> FieldLook {
    FieldLook {
        mask: area_mask(t),
        cursor_style: area_cursor_style(t),
        cursor_line_style: area_cursor_line_style(t),
        border: area_border(t),
    }
}

/// The lines of a text area and its cursor.
pub struct TextView {
    pub lines: Seq<Seq<char>>,
    pub row: nat,
    pub col: nat,
}

/// The lines and the cursor of `t`.
pub open spec fn text_view(t: SecretArea) -> TextView {
    TextView { lines: area_lines(t), row: area_cursor(t).0, col: area_cursor(t).1 }
}

/// At least one line, and the cursor on a line, within it or at its end.
pub open spec fn text_wf(v: TextView) -> bool {
    &&& v.lines.len() >= 1
    &&& v.row < v.lines.len()
    &&& v.col <= v.lines[v.row as int].len()
}

/// The line the cursor is on.
pub open spec fn cursor_line(v: TextView) -> Seq<char> {
    v.lines[v.row as int]
}

/// `v` with the cursor line replaced by `line` and the cursor at column `col`.
pub open spec fn with_line(v: TextView, line: Seq<char>, col: nat) -> TextView {
    TextView { lines: v.lines.update(v.row as int, line), row: v.row, col }
}

/// The cursor line joined to the line before it, the cursor at the joint;
/// nothing changes on the first line.
pub open spec fn after_join_previous(v: TextView) -> TextView {
    if v.row == 0 {
        v
    } else {
        let r = v.row as int;
        TextView {
            lines: v.lines.take(r - 1) + seq![v.lines[r - 1] + v.lines[r]] + v.lines.skip(r + 1),
            row: (r - 1) as nat,
            col: v.lines[r - 1].len(),
        }
    }
}

/// `c` inserted at the cursor; a newline or carriage return splits the line.
pub open spec fn after_insert(v: TextView, c: char) -> TextView {
    let line = cursor_line(v);
    if c == '\n' || c == '\r' {
        let r = v.row as int;
        TextView {
            lines: v.lines.take(r) + seq![line.take(v.col as int), line.skip(v.col as int)] + v.lines.skip(r + 1),
            row: v.row + 1,
            col: 0,
        }
    } else {
        with_line(v, line.take(v.col as int) + seq![c] + line.skip(v.col as int), v.col + 1)
    }
}

/// The character before the cursor removed; at the head of a line, the line
/// is joined to the one before.
pub open spec fn after_delete_char(v: TextView) -> TextView {
    let line = cursor_line(v);
    if v.col == 0 {
        after_join_previous(v)
    } else {
        with_line(v, line.take(v.col - 1) + line.skip(v.col as int), (v.col - 1) as nat)
    }
}

/// The text from the head of the line to the cursor removed; at the head of
/// a line, the line is joined to the one before.
pub open spec fn after_delete_line_head(v: TextView) -> TextView {
    if v.col == 0 {
        after_join_previous(v)
    } else {
        with_line(v, cursor_line(v).skip(v.col as int), 0)
    }
}

/// The word before the cursor removed.
pub open spec fn after_delete_word(v: TextView) -> TextView {
    let line = cursor_line(v);
    if word_start_before(line, v.col) matches Some(w) && w < v.col {
        let w = word_start_before(line, v.col)->0;
        with_line(v, line.take(w as int) + line.skip(v.col as int), w)
    } else if v.col > 0 {
        with_line(v, line.skip(v.col as int), 0)
    } else {
        after_join_previous(v)
    }
}

/// Calls `TextArea::default`: one empty line, the cursor at its head,
/// nothing selected, no mask, a reversed cursor on an underlined line, no
/// border.
#[verifier::external_body]
fn area_default() -> (r: SecretArea)
    ensures
        area_lines(r) == seq![Seq::<char>::empty()],
        area_cursor(r) == (0nat, 0nat),
        !area_selecting(r),
        area_mask(r) == None::<char>,
        area_cursor_style(r) == CellStyle::Reversed,
        area_cursor_line_style(r) == CellStyle::Underlined,
        area_border(r) == None::<BorderView>,
{
    SecretArea { widget: TextArea::default() }
}

/// Calls `TextArea::set_cursor_line_style` with the ratatui style that
/// `style` names; nothing else changes.
#[verifier::external_body]
fn area_set_cursor_line_style(t: &mut SecretArea, style: CellStyle)
    ensures
        area_cursor_line_style(*final(t)) == style,
        text_view(*final(t)) == text_view(*old(t)),
        area_selecting(*final(t)) == area_selecting(*old(t)),
        area_mask(*final(t)) == area_mask(*old(t)),
        area_cursor_style(*final(t)) == area_cursor_style(*old(t)),
        area_border(*final(t)) == area_border(*old(t)),
{
    t.widget.set_cursor_line_style(match style {
        CellStyle::Plain => Style::default(),
        CellStyle::Underlined => Style::default().add_modifier(Modifier::UNDERLINED),
        CellStyle::Reversed => Style::default().add_modifier(Modifier::REVERSED),
        CellStyle::Hidden => Style::default().add_modifier(Modifier::HIDDEN),
    });
}

/// Calls `TextArea::set_cursor_style` with the ratatui style that `style`
/// names; nothing else changes.
#[verifier::external_body]
fn area_set_cursor_style(t: &mut SecretArea, style: CellStyle)
    ensures
        area_cursor_style(*final(t)) == style,
        text_view(*final(t)) == text_view(*old(t)),
        area_selecting(*final(t)) == area_selecting(*old(t)),
        area_mask(*final(t)) == area_mask(*old(t)),
        area_cursor_line_style(*final(t)) == area_cursor_line_style(*old(t)),
        area_border(*final(t)) == area_border(*old(t)),
{
    t.widget.set_cursor_style(match style {
        CellStyle::Plain => Style::default(),
        CellStyle::Underlined => Style::default().add_modifier(Modifier::UNDERLINED),
        CellStyle::Reversed => Style::default().add_modifier(Modifier::REVERSED),
        CellStyle::Hidden => Style::default().add_modifier(Modifier::HIDDEN),
    });
}

/// Calls `TextArea::set_mask_char`; nothing else changes.
#[verifier::external_body]
fn area_set_mask(t: &mut SecretArea, mask: char)
    ensures
        area_mask(*final(t)) == Some(mask),
        text_view(*final(t)) == text_view(*old(t)),
        area_selecting(*final(t)) == area_selecting(*old(t)),
        area_cursor_style(*final(t)) == area_cursor_style(*old(t)),
        area_cursor_line_style(*final(t)) == area_cursor_line_style(*old(t)),
        area_border(*final(t)) == area_border(*old(t)),
{
    t.widget.set_mask_char(mask);
}

/// Calls `TextArea::set_block` with the ratatui block that `border` names;
/// nothing else changes.
#[verifier::external_body]
fn area_set_border(t: &mut SecretArea, border: Border)
    ensures
        area_border(*final(t)) == Some(border@),
        text_view(*final(t)) == text_view(*old(t)),
        area_selecting(*final(t)) == area_selecting(*old(t)),
        area_mask(*final(t)) == area_mask(*old(t)),
        area_cursor_style(*final(t)) == area_cursor_style(*old(t)),
        area_cursor_line_style(*final(t)) == area_cursor_line_style(*old(t)),
{
    t.widget.set_block(match border {
        Border::Plain => Block::bordered(),
        Border::Titled(title) => Block::bordered().title(title),
    });
}

/// Calls `TextArea::insert_char`: with nothing selected, `c` goes in at the
/// cursor as `after_insert` says.
#[verifier::external_body]
fn area_insert(t: &mut SecretArea, c: char)
    requires
        text_wf(text_view(*old(t))),
        !area_selecting(*old(t)),
    ensures
        area_lines(*final(t)) == after_insert(text_view(*old(t)), c).lines,
        area_cursor(*final(t)) == (after_insert(text_view(*old(t)), c).row, after_insert(text_view(*old(t)), c).col),
        !area_selecting(*final(t)),
        field_look(*final(t)) == field_look(*old(t)),
{
    t.widget.insert_char(c);
}

/// Calls `TextArea::delete_char`: with nothing selected, as `after_delete_char` says.
#[verifier::external_body]
fn area_delete_char(t: &mut SecretArea)
    requires
        text_wf(text_view(*old(t))),
        !area_selecting(*old(t)),
    ensures
        area_lines(*final(t)) == after_delete_char(text_view(*old(t))).lines,
        area_cursor(*final(t)) == (after_delete_char(text_view(*old(t))).row, after_delete_char(text_view(*old(t))).col),
        !area_selecting(*final(t)),
        field_look(*final(t)) == field_look(*old(t)),
{
    t.widget.delete_char();
}

/// Calls `TextArea::delete_line_by_head`: with nothing selected, as
/// `after_delete_line_head` says.
#[verifier::external_body]
fn area_delete_line_head(t: &mut SecretArea)
    requires
        text_wf(text_view(*old(t))),
        !area_selecting(*old(t)),
    ensures
        area_lines(*final(t)) == after_delete_line_head(text_view(*old(t))).lines,
        area_cursor(*final(t)) == (after_delete_line_head(text_view(*old(t))).row, after_delete_line_head(text_view(*old(t))).col),
        !area_selecting(*final(t)),
        field_look(*final(t)) == field_look(*old(t)),
{
    t.widget.delete_line_by_head();
}

/// Calls `TextArea::delete_word`: with nothing selected, as
/// `after_delete_word` says; a word found before the cursor starts left of it.
#[verifier::external_body]
fn area_delete_word(t: &mut SecretArea)
    requires
        text_wf(text_view(*old(t))),
        !area_selecting(*old(t)),
    ensures
        area_lines(*final(t)) == after_delete_word(text_view(*old(t))).lines,
        area_cursor(*final(t)) == (after_delete_word(text_view(*old(t))).row, after_delete_word(text_view(*old(t))).col)
            && (word_start_before(cursor_line(text_view(*old(t))), text_view(*old(t)).col) matches Some(w)
            ==> w < text_view(*old(t)).col),
        !area_selecting(*final(t)),
        field_look(*final(t)) == field_look(*old(t)),
{
    t.widget.delete_word();
}

/// Calls `TextArea::lines`: the lines, as owned strings.
#[verifier::external_body]
fn area_line_texts(t: &SecretArea) -> (r: Vec<String>)
    ensures
        r@.map_values(|s: String| s@) == area_lines(*t),
{
    t.widget.lines().to_vec()
}

/// The field after the prompt's action `a`: the edits change the text,
/// anything else leaves it.
pub open spec fn after_action(v: TextView, a: KeyAction) -> TextView {
    match a {
        KeyAction::Insert(c) => after_insert(v, c),
        KeyAction::DeleteChar => after_delete_char(v),
        KeyAction::DeleteLine => after_delete_line_head(v),
        KeyAction::DeleteWord => after_delete_word(v),
        _ => v,
    }
}

/// A line joined to the one before it keeps the field well formed.
proof fn lemma_join_keeps_wf(v: TextView)
    requires
        text_wf(v),
    ensures
        text_wf(after_join_previous(v)),
{
    if v.row > 0 {
        let w = after_join_previous(v);
        assert(w.lines.len() == v.lines.len() - 1);
        assert(w.lines[w.row as int] == v.lines[v.row - 1] + v.lines[v.row as int]);
    }
}

impl SecretArea {
    /// Well formed: at least one line, the cursor on a line within it or at
    /// its end, nothing selected, every character drawn as `*`, a plain
    /// cursor line, and a border.
    pub open spec fn wf(self) -> bool {
        &&& text_wf(text_view(self))
        &&& !area_selecting(self)
        &&& area_mask(self) == Some('*')
        &&& area_cursor_line_style(self) == CellStyle::Plain
        &&& area_border(self) is Some
    }

    /// An empty field, shown with a plain cursor line, `*` for every
    /// character, a visible cursor, and an untitled border.
    pub(crate) fn new() -> (r: SecretArea)
        ensures
            r.wf(),
            text_view(r) == (TextView { lines: seq![Seq::<char>::empty()], row: 0, col: 0 }),
            field_look(r) == (FieldLook {
                mask: Some('*'),
                cursor_style: CellStyle::Reversed,
                cursor_line_style: CellStyle::Plain,
                border: Some(BorderView::Plain),
            }),
    {
        let mut r = area_default();
        area_set_cursor_line_style(&mut r, CellStyle::Plain);
        area_set_mask(&mut r, '*');
        area_set_border(&mut r, Border::Plain);
        r
    }

    /// Carry out the prompt's action on the text.
    pub(crate) fn apply(&mut self, action: KeyAction)
        requires
            old(self).wf(),
        ensures
            final(self).wf(),
            text_view(*final(self)) == after_action(text_view(*old(self)), action),
            field_look(*final(self)) == field_look(*old(self)),
    {
        let ghost v = text_view(*self);
        match action {
            KeyAction::Insert(c) => {
                area_insert(self, c);
                proof {
                    let line = cursor_line(v);
                    if c == '\n' || c == '\r' {
                        let w = after_insert(v, c);
                        assert(w.lines.len() == v.lines.len() + 1);
                        assert(w.lines[w.row as int] == line.skip(v.col as int));
                    } else {
                        assert((line.take(v.col as int) + seq![c] + line.skip(v.col as int)).len() == line.len() + 1);
                    }
                }
            },
            KeyAction::DeleteChar => {
                area_delete_char(self);
                proof {
                    lemma_join_keeps_wf(v);
                }
            },
            KeyAction::DeleteLine => {
                area_delete_line_head(self);
                proof {
                    lemma_join_keeps_wf(v);
                }
            },
            KeyAction::DeleteWord => {
                area_delete_word(self);
                proof {
                    lemma_join_keeps_wf(v);
                }
            },
            _ => {},
        }
    }

    /// Draw the cursor reversed when `shown`, else hide it; nothing else changes.
    pub(crate) fn show_cursor(&mut self, shown: bool)
        requires
            old(self).wf(),
        ensures
            final(self).wf(),
            text_view(*final(self)) == text_view(*old(self)),
            field_look(*final(self)) == (FieldLook {
                cursor_style: if shown { CellStyle::Reversed } else { CellStyle::Hidden },
                ..field_look(*old(self))
            }),
    {
        let style = if shown { CellStyle::Reversed } else { CellStyle::Hidden };
        area_set_cursor_style(self, style);
    }

    /// Put `title` on the border (none: an untitled border); nothing else changes.
    pub(crate) fn set_title(&mut self, title: Option<String>)
        requires
            old(self).wf(),
        ensures
            final(self).wf(),
            text_view(*final(self)) == text_view(*old(self)),
            field_look(*final(self)) == (FieldLook { border: Some(border_for(opt_view(title))), ..field_look(*old(self)) }),
    {
        let border = match title {
            Some(t) => Border::Titled(t),
            None => Border::Plain,
        };
        area_set_border(self, border);
    }

    /// The typed secret: the first line of the field.
    pub(crate) fn secret(&self) -> (r: String)
        requires
            self.wf(),
        ensures
            r@ == area_lines(*self)[0],
    {
        let lines = area_line_texts(self);
        assert(lines@.map_values(|s: String| s@)[0] == lines@[0]@);
        lines[0].clone()
    }
}

/// The border that carries `title`: titled when there is one, else plain.
pub open spec fn border_for(title: Option<Seq<char>>) -> BorderView {
    match title {
        Some(t) => BorderView::Titled(t),
        None => BorderView::Plain,
    }
}

/// What a PIN field shows: its text and cursor, and how it is drawn.
pub struct FieldView {
    pub text: TextView,
    pub look: FieldLook,
}

/// The field the PIN is typed into. It always draws each character as `*`,
/// on a plain cursor line, inside a border.
pub struct SecretInput {
    field: SecretArea,
}

impl View for SecretInput {
    type V = FieldView;

    closed spec fn view(&self) -> FieldView {
        FieldView { text: text_view(self.field), look: field_look(self.field) }
    }
}

impl SecretInput {
    #[verifier::type_invariant]
    spec fn field_wf(self) -> bool {
        self.field.wf()
    }

    /// An empty field: no text, `*` for every character, a visible cursor
    /// on a plain line, and an untitled border.
    pub fn new() -> (r: SecretInput)
        ensures
            r@.text == (TextView { lines: seq![Seq::<char>::empty()], row: 0, col: 0 }),
            r@.look == (FieldLook {
                mask: Some('*'),
                cursor_style: CellStyle::Reversed,
                cursor_line_style: CellStyle::Plain,
                border: Some(BorderView::Plain),
            }),
    {
        SecretInput { field: SecretArea::new() }
    }

    /// Carry out the prompt's action on the text: the edits change it as
    /// `after_action` says, anything else leaves it; the look stays.
    pub fn apply(&mut self, action: KeyAction)
        ensures
            text_wf(final(self)@.text),
            final(self)@.text == after_action(old(self)@.text, action),
            final(self)@.look == old(self)@.look,
    {
        proof {
            use_type_invariant(&*self);
        }
        let mut field = SecretArea::new();
        std::mem::swap(&mut field, &mut self.field);
        field.apply(action);
        std::mem::swap(&mut field, &mut self.field);
    }

    /// Draw the cursor reversed when `shown`, else hide it; the text and
    /// the rest of the look stay.
    pub fn show_cursor(&mut self, shown: bool)
        ensures
            final(self)@.text == old(self)@.text,
            final(self)@.look == (FieldLook {
                cursor_style: if shown { CellStyle::Reversed } else { CellStyle::Hidden },
                ..old(self)@.look
            }),
    {
        proof {
            use_type_invariant(&*self);
        }
        let mut field = SecretArea::new();
        std::mem::swap(&mut field, &mut self.field);
        field.show_cursor(shown);
        std::mem::swap(&mut field, &mut self.field);
    }

    /// Put `title` on the border (none: an untitled border); the text and
    /// the rest of the look stay.
    pub fn set_title(&mut self, title: Option<String>)
        ensures
            final(self)@.text == old(self)@.text,
            final(self)@.look == (FieldLook { border: Some(border_for(opt_view(title))), ..old(self)@.look }),
    {
        proof {
            use_type_invariant(&*self);
        }
        let mut field = SecretArea::new();
        std::mem::swap(&mut field, &mut self.field);
        field.set_title(title);
        std::mem::swap(&mut field, &mut self.field);
    }

    /// The typed secret: the first line of the field.
    pub fn secret(&self) -> (r: String)
        ensures
            self@.text.lines.len() >= 1,
            r@ == self@.text.lines[0],
            self@.look.mask == Some('*'),
            self@.look.cursor_line_style == CellStyle::Plain,
            self@.look.border is Some,
    {
        proof {
            use_type_invariant(self);
        }
        self.field.secret()
    }

    /// The field, to draw its widget.
    pub fn field(&self) -> &SecretArea {
        &self.field
    }
}

/// An action that types on a single line: a character other than a line
/// break, backspace, deleting the word before the cursor, or deleting up to
/// the head of the line.
pub open spec fn is_typing(a: KeyAction) -> bool {
    ||| (a matches KeyAction::Insert(c) && c != '\n' && c != '\r')
    ||| a is DeleteChar
    ||| a is DeleteWord
    ||| a is DeleteLine
}

/// The text that the typing actions `actions` leave on an empty line.
pub open spec fn typed(actions: Seq<KeyAction>) -> Seq<char>
    decreases actions.len(),
{
    if actions.len() == 0 {
        Seq::empty()
    } else {
        let before = typed(actions.drop_last());
        match actions.last() {
            KeyAction::Insert(c) => before.push(c),
            KeyAction::DeleteChar => if before.len() > 0 {
                before.drop_last()
            } else {
                before
            },
            KeyAction::DeleteWord => if word_start_before(before, before.len()) matches Some(w) && w < before.len() {
                before.take(word_start_before(before, before.len())->0 as int)
            } else {
                Seq::empty()
            },
            KeyAction::DeleteLine => Seq::empty(),
            _ => before,
        }
    }
}

/// The field after the actions `actions`, one after another.
pub open spec fn after_actions(v: TextView, actions: Seq<KeyAction>) -> TextView
    decreases actions.len(),
{
    if actions.len() == 0 {
        v
    } else {
        after_action(after_actions(v, actions.drop_last()), actions.last())
    }
}

/// Typing on an empty field leaves one line, holding what `typed` says,
/// with the cursor at its end: the secret is the characters typed, less
/// those that backspace, deleting a word and deleting to the head of the
/// line took away.
pub proof fn lemma_typing_builds_secret(actions: Seq<KeyAction>)
    requires
        forall|i: int| 0 <= i < actions.len() ==> is_typing(#[trigger] actions[i]),
    ensures
        after_actions(TextView { lines: seq![Seq::<char>::empty()], row: 0, col: 0 }, actions)
            == (TextView { lines: seq![typed(actions)], row: 0, col: typed(actions).len() }),
    decreases actions.len(),
{
    if actions.len() > 0 {
        let prefix = actions.drop_last();
        assert forall|i: int| 0 <= i < prefix.len() implies is_typing(#[trigger] prefix[i]) by {
            assert(prefix[i] == actions[i]);
        }
        lemma_typing_builds_secret(prefix);
        let l = typed(prefix);
        let v = TextView { lines: seq![l], row: 0, col: l.len() };
        assert(is_typing(actions[actions.len() - 1]));
        match actions.last() {
            KeyAction::Insert(c) => {
                assert(l.take(l.len() as int) + seq![c] + l.skip(l.len() as int) =~= l.push(c));
                assert(seq![l].update(0, l.push(c)) =~= seq![l.push(c)]);
            },
            KeyAction::DeleteChar => {
                if l.len() > 0 {
                    assert(l.take(l.len() - 1) + l.skip(l.len() as int) =~= l.drop_last());
                    assert(seq![l].update(0, l.drop_last()) =~= seq![l.drop_last()]);
                }
            },
            KeyAction::DeleteWord => {
                assert(l.skip(l.len() as int) =~= Seq::<char>::empty());
                if word_start_before(l, l.len()) matches Some(w) && w < l.len() {
                    let w = word_start_before(l, l.len())->0;
                    assert(l.take(w as int) + l.skip(l.len() as int) =~= l.take(w as int));
                    assert(seq![l].update(0, l.take(w as int)) =~= seq![l.take(w as int)]);
                } else if l.len() > 0 {
                    assert(seq![l].update(0, Seq::<char>::empty()) =~= seq![Seq::<char>::empty()]);
                } else {
                    assert(l =~= Seq::<char>::empty());
                }
            },
            KeyAction::DeleteLine => {
                if l.len() > 0 {
                    assert(l.skip(l.len() as int) =~= Seq::<char>::empty());
                    assert(seq![l].update(0, Seq::<char>::empty()) =~= seq![Seq::<char>::empty()]);
                } else {
                    assert(l =~= Seq::<char>::empty());
                }
            },
            _ => {},
        }
    }
}

/// A text with no newline and no tab.
pub open spec fn no_break_or_tab(s: Seq<char>) -> bool {
    !s.contains('\n') && !s.contains('\t')
}

/// No line of the field holds a newline or a tab.
pub open spec fn clean_text(v: TextView) -> bool {
    forall|i: int| 0 <= i < v.lines.len() ==> no_break_or_tab(#[trigger] v.lines[i])
}

/// Parts of a clean text are clean.
proof fn lemma_clean_parts(s: Seq<char>, i: int)
    requires
        no_break_or_tab(s),
        0 <= i <= s.len(),
    ensures
        no_break_or_tab(s.take(i)),
        no_break_or_tab(s.skip(i)),
{
    assert forall|k: int| 0 <= k < s.take(i).len() implies s.take(i)[k] == s[k] by {}
    let t = s.skip(i);
    assert forall|k: int| 0 <= k < t.len() implies t[k] == s[k + i] by {}
    if s.take(i).contains('\n') || s.take(i).contains('\t') {
        let k = choose|k: int| 0 <= k < s.take(i).len() && (s.take(i)[k] == '\n' || s.take(i)[k] == '\t');
        assert(s[k] == s.take(i)[k]);
    }
    if t.contains('\n') || t.contains('\t') {
        let k = choose|k: int| 0 <= k < t.len() && (t[k] == '\n' || t[k] == '\t');
        assert(s[k + i] == t[k]);
    }
}

/// Clean texts joined, with a character between that is neither a newline
/// nor a tab, are clean.
proof fn lemma_clean_join(a: Seq<char>, mid: Seq<char>, b: Seq<char>)
    requires
        no_break_or_tab(a),
        no_break_or_tab(mid),
        no_break_or_tab(b),
    ensures
        no_break_or_tab(a + mid + b),
{
    let s = a + mid + b;
    if s.contains('\n') || s.contains('\t') {
        let k = choose|k: int| 0 <= k < s.len() && (s[k] == '\n' || s[k] == '\t');
        if k < a.len() {
            assert(s[k] == a[k]);
        } else if k < a.len() + mid.len() {
            assert(s[k] == mid[k - a.len()]);
        } else {
            assert(s[k] == b[k - a.len() - mid.len()]);
        }
    }
}

/// An edit that inserts no tab keeps every line free of newlines and tabs:
/// a newline or carriage return splits the line rather than entering it.
pub proof fn lemma_action_keeps_clean(v: TextView, a: KeyAction)
    requires
        text_wf(v),
        clean_text(v),
        !(a matches KeyAction::Insert(c) && c == '\t'),
    ensures
        clean_text(after_action(v, a)),
{
    let line = cursor_line(v);
    let r = v.row as int;
    let empty = Seq::<char>::empty();
    assert(no_break_or_tab(line));
    assert(no_break_or_tab(empty));
    if v.row > 0 {
        assert(no_break_or_tab(v.lines[r - 1]));
        lemma_clean_join(v.lines[r - 1], empty, line);
        assert(v.lines[r - 1] + empty + line =~= v.lines[r - 1] + line);
    }
    let w = after_action(v, a);
    match a {
        KeyAction::Insert(c) => {
            lemma_clean_parts(line, v.col as int);
            if c != '\n' && c != '\r' {
                assert(no_break_or_tab(seq![c])) by {
                    if seq![c].contains('\n') || seq![c].contains('\t') {
                        assert(seq![c][0] == c);
                    }
                }
                lemma_clean_join(line.take(v.col as int), seq![c], line.skip(v.col as int));
            }
        },
        KeyAction::DeleteChar => {
            if v.col > 0 {
                lemma_clean_parts(line, v.col - 1);
                lemma_clean_parts(line, v.col as int);
                lemma_clean_join(line.take(v.col - 1), empty, line.skip(v.col as int));
                assert(line.take(v.col - 1) + empty + line.skip(v.col as int) =~= line.take(v.col - 1) + line.skip(v.col as int));
            }
        },
        KeyAction::DeleteLine => {
            lemma_clean_parts(line, v.col as int);
        },
        KeyAction::DeleteWord => {
            lemma_clean_parts(line, v.col as int);
            if word_start_before(line, v.col) matches Some(x) && x < v.col {
                let x = word_start_before(line, v.col)->0;
                lemma_clean_parts(line, x as int);
                lemma_clean_join(line.take(x as int), empty, line.skip(v.col as int));
                assert(line.take(x as int) + empty + line.skip(v.col as int) =~= line.take(x as int) + line.skip(v.col as int));
            }
        },
        _ => {},
    }
    assert forall|i: int| 0 <= i < w.lines.len() implies no_break_or_tab(#[trigger] w.lines[i]) by {
        if v.row > 0 && (a is DeleteChar || a is DeleteLine || a is DeleteWord) && v.col == 0 {
            if i < r - 1 {
                assert(w.lines[i] == v.lines[i]);
            } else if i > r - 1 {
                assert(w.lines[i] == v.lines[i + 1]);
            }
        } else if a matches KeyAction::Insert(c) && (c == '\n' || c == '\r') {
            if i < r {
                assert(w.lines[i] == v.lines[i]);
            } else if i > r + 1 {
                assert(w.lines[i] == v.lines[i - 1]);
            }
        } else if i != r {
            assert(w.lines[i] == v.lines[i]);
        }
    }
}

/// Whatever keys the prompt gets, the field's lines stay free of newlines
/// and tabs; so does the secret, which is the first line.
pub proof fn lemma_prompt_keys_keep_clean(f: Focus, key: Key, v: TextView)
    requires
        text_wf(v),
        clean_text(v),
    ensures
        clean_text(after_action(v, key_outcome(f, key).1)),
{
    lemma_keys_insert_no_break_or_tab(f, key);
    lemma_action_keeps_clean(v, key_outcome(f, key).1);
}

} // verus!
