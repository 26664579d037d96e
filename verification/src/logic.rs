//! The editor's state machine: choosing a format, moving between fields,
//! editing the text of a field with a cursor that counts grapheme clusters,
//! and finishing. Every key leads to a next state; a key that asks for the
//! impossible (left of the first position, below the last field) changes
//! nothing.

use crate::citation::{ApaFormat, Citation};
use crate::grapheme::{
    clamp, delete_before, deleted_before, grapheme_clusters, insert, inserted, length_in_clusters,
};
use crate::schema::{ApaFormatType, Lang};
use vstd::prelude::*;

verus! {

/// The screens of the editor.
#[derive(Clone, Copy, Debug, PartialEq, Eq, Structural)]
pub enum LogicState {
    /// A format is being chosen.
    SelectingFormat,
    /// The fields of the chosen format are being filled in.
    EditState,
    /// The reference is finished; nothing changes any more.
    Result,
}

/// A key press.
#[derive(Clone, Copy, Debug, PartialEq, Eq, Structural)]
pub enum Key {
    Backspace,
    Left,
    Right,
    Up,
    Down,
    /// A character key; tab and enter arrive as the characters they type.
    Char(char),
    /// A character key pressed together with control.
    Ctrl(char),
    /// Any other key.
    Other,
}

/// The editor.
pub struct Logic {
    pub state: LogicState,
    /// While editing: `true` where keys type into the selected field,
    /// `false` where they move between fields.
    pub edit_state: bool,
    /// While choosing: the highlighted format. While editing: the selected
    /// field.
    pub selected: usize,
    /// The cursor in the selected field, counted in grapheme clusters.
    pub cursor_pos: usize,
    pub apa: ApaFormat,
}

/// The editor as plain values.
pub struct Editor {
    pub state: LogicState,
    pub edit_state: bool,
    pub selected: nat,
    pub cursor_pos: nat,
    pub apa: Citation,
}

impl View for Logic {
    type V = Editor;

    open spec fn view(&self) -> Editor {
        Editor {
            state: self.state,
            edit_state: self.edit_state,
            selected: self.selected as nat,
            cursor_pos: self.cursor_pos as nat,
            apa: self.apa@,
        }
    }
}

impl Editor {
    /// The editor before the first key: choosing, with the first format
    /// highlighted.
    pub open spec fn initial() -> Editor {
        Editor {
            state: LogicState::SelectingFormat,
            edit_state: true,
            selected: 0,
            cursor_pos: 0,
            apa: Citation::empty(ApaFormatType::Unselected, Lang::English),
        }
    }

    /// The text of the selected field.
    pub open spec fn text(self) -> Seq<char> {
        self.apa.texts[self.selected as int]
    }

    /// The number of grapheme clusters in the selected field.
    pub open spec fn text_len(self) -> nat {
        grapheme_clusters(self.text()).len()
    }

    /// The selected index names a field and the cursor stands in or directly
    /// behind that field's text.
    pub open spec fn in_bounds(self) -> bool {
        self.selected < self.apa.texts.len() && self.cursor_pos <= self.text_len()
    }

    /// The states that the editor can be in. A citation with a format keeps
    /// the selection and the cursor in bounds; while a format is being
    /// chosen the selection names one of the formats on offer.
    pub open spec fn wf(self) -> bool {
        &&& self.apa.wf()
        &&& self.state == LogicState::EditState ==> self.apa.format != ApaFormatType::Unselected
        &&& self.state == LogicState::SelectingFormat ==> self.selected
            < ApaFormatType::selectable().len() && self.cursor_pos == 0
        &&& self.apa.format != ApaFormatType::Unselected ==> self.in_bounds()
    }

    /// The editor with the text of the selected field replaced.
    pub open spec fn with_text(self, text: Seq<char>) -> Editor {
        Editor {
            apa: Citation { texts: self.apa.texts.update(self.selected as int, text), ..self.apa },
            ..self
        }
    }

    /// The editor with the cursor moved back into the selected field's text
    /// where it stood behind it.
    pub open spec fn clamped(self) -> Editor {
        Editor { cursor_pos: clamp(self.cursor_pos, self.text_len()), ..self }
    }

    /// Selects the next field, if there is one.
    pub open spec fn moved_down(self) -> Editor {
        if self.selected + 1 < self.apa.texts.len() {
            Editor { selected: self.selected + 1, ..self }.clamped()
        } else {
            self
        }
    }

    /// Selects the field before, if there is one.
    pub open spec fn moved_up(self) -> Editor {
        if self.selected != 0 {
            Editor { selected: (self.selected - 1) as nat, ..self }.clamped()
        } else {
            self
        }
    }

    /// Empties the selected field.
    pub open spec fn cleared(self) -> Editor {
        self.with_text(Seq::empty()).clamped()
    }

    /// Types the character `c` at the cursor.
    pub open spec fn typed(self, c: char) -> Editor {
        let (text, cursor) = inserted(self.text(), self.cursor_pos, seq![c]);
        Editor { cursor_pos: cursor, ..self.with_text(text) }.clamped()
    }

    /// Deletes the cluster before the cursor.
    pub open spec fn erased(self) -> Editor {
        let (text, cursor) = deleted_before(self.text(), self.cursor_pos);
        Editor { cursor_pos: cursor, ..self.with_text(text) }.clamped()
    }

    /// Switches between moving and typing, with the cursor behind the text
    /// of the selected field.
    pub open spec fn toggled(self) -> Editor {
        Editor { edit_state: !self.edit_state, cursor_pos: self.text_len(), ..self }
    }

    /// Starts a citation of the highlighted format, with every field empty
    /// and the first one selected.
    pub open spec fn confirmed(self) -> Editor {
        Editor {
            state: LogicState::EditState,
            selected: 0,
            apa: Citation::empty(
                ApaFormatType::selectable()[self.selected as int],
                self.apa.lang,
            ),
            ..self
        }
    }

    /// What a key does while a format is being chosen.
    pub open spec fn select_step(self, key: Key) -> Editor {
        match key {
            Key::Left => if self.selected != 0 {
                Editor { selected: (self.selected - 1) as nat, ..self }
            } else {
                self
            },
            Key::Right => if self.selected + 1 < ApaFormatType::selectable().len() {
                Editor { selected: self.selected + 1, ..self }
            } else {
                self
            },
            Key::Char(c) => if c == '\n' {
                self.confirmed()
            } else {
                self
            },
            _ => self,
        }
    }

    /// What a key does while the fields are being filled in.
    pub open spec fn edit_step(self, key: Key) -> Editor {
        match key {
            Key::Char(c) => if c == '\t' {
                self.toggled()
            } else if c == '\n' {
                self.moved_down()
            } else if self.edit_state {
                self.typed(c)
            } else if c == 'd' {
                self.cleared()
            } else {
                self
            },
            Key::Down => self.moved_down(),
            Key::Up => self.moved_up(),
            Key::Left => if self.edit_state && self.cursor_pos != 0 {
                Editor { cursor_pos: (self.cursor_pos - 1) as nat, ..self }
            } else {
                self
            },
            Key::Right => if self.edit_state && self.cursor_pos < self.text_len() {
                Editor { cursor_pos: self.cursor_pos + 1, ..self }
            } else {
                self
            },
            Key::Backspace => if self.edit_state && self.cursor_pos != 0 {
                self.erased()
            } else {
                self
            },
            _ => self,
        }
    }

    /// The state after `key`. Control-c finishes from every screen; the
    /// finished editor stays as it is.
    pub open spec fn step(self, key: Key) -> Editor {
        if self.state == LogicState::Result {
            self
        } else if key == Key::Ctrl('c') {
            Editor { state: LogicState::Result, ..self }
        } else if self.state == LogicState::EditState {
            self.edit_step(key)
        } else {
            self.select_step(key)
        }
    }

    /// The state after the keys of `keys`, one after the other.
    pub open spec fn run(self, keys: Seq<Key>) -> Editor
        decreases keys.len(),
    {
        if keys.len() == 0 {
            self
        } else {
            self.run(keys.drop_last()).step(keys.last())
        }
    }
}

impl Logic {
    /// The editor is in one of its states and its citation's tables hold
    /// the fields of its format.
    pub open spec fn wf(&self) -> bool {
        self.apa.wf() && self@.wf()
    }

    /// The editor before the first key.
    pub fn new() -> (logic: Logic)
        ensures
            logic.wf(),
            logic@ == Editor::initial(),
    {
        Logic {
            state: LogicState::SelectingFormat,
            edit_state: true,
            selected: 0,
            cursor_pos: 0,
            apa: ApaFormat::new(ApaFormatType::Unselected, None),
        }
    }

    /// Whether the editor is in one of its states.
    pub fn is_wf(&self) -> (ok: bool)
        ensures
            ok == self.wf(),
    {
        if !self.apa.is_wf() {
            return false;
        }
        let n = self.apa.format.field_count();
        if self.state == LogicState::EditState && n == 0 {
            return false;
        }
        if self.state == LogicState::SelectingFormat && (self.selected >= ApaFormatType::list().len()
            || self.cursor_pos != 0) {
            return false;
        }
        if n != 0 {
            if self.selected >= n {
                return false;
            }
            if self.cursor_pos > length_in_clusters(self.apa.text(self.selected)) {
                return false;
            }
        }
        true
    }

    /// Moves the cursor back into the text of the selected field where it
    /// stood behind it.
    fn clamp_cursor(&mut self)
        requires
            old(self).apa.wf(),
            old(self).selected < old(self)@.apa.texts.len(),
        ensures
            final(self)@ == old(self)@.clamped(),
            final(self).apa == old(self).apa,
    {
        let len = length_in_clusters(self.apa.text(self.selected));
        if self.cursor_pos > len {
            self.cursor_pos = len;
        }
    }

    fn move_down(&mut self)
        requires
            old(self).apa.wf(),
            old(self).selected < old(self)@.apa.texts.len(),
        ensures
            final(self)@ == old(self)@.moved_down(),
            final(self).apa == old(self).apa,
    {
        if self.selected + 1 < self.apa.format.field_count() {
            self.selected += 1;
            self.clamp_cursor();
        }
    }

    fn move_up(&mut self)
        requires
            old(self).apa.wf(),
            old(self).selected < old(self)@.apa.texts.len(),
        ensures
            final(self)@ == old(self)@.moved_up(),
            final(self).apa == old(self).apa,
    {
        if self.selected != 0 {
            self.selected -= 1;
            self.clamp_cursor();
        }
    }

    fn clear(&mut self)
        requires
            old(self).apa.wf(),
            old(self).selected < old(self)@.apa.texts.len(),
        ensures
            final(self)@ == old(self)@.cleared(),
            final(self).apa.wf(),
    {
        self.apa.set_text(self.selected, String::new());
        self.clamp_cursor();
    }

    fn type_char(&mut self, c: char)
        requires
            old(self).apa.wf(),
            old(self).selected < old(self)@.apa.texts.len(),
        ensures
            final(self)@ == old(self)@.typed(c),
            final(self).apa.wf(),
    {
        let mut cluster = String::new();
        cluster.push(c);
        let (text, cursor) = insert(self.apa.text(self.selected), self.cursor_pos, cluster.as_str());
        self.apa.set_text(self.selected, text);
        self.cursor_pos = cursor;
        self.clamp_cursor();
    }

    fn erase(&mut self)
        requires
            old(self).apa.wf(),
            old(self).selected < old(self)@.apa.texts.len(),
        ensures
            final(self)@ == old(self)@.erased(),
            final(self).apa.wf(),
    {
        let (text, cursor) = delete_before(self.apa.text(self.selected), self.cursor_pos);
        self.apa.set_text(self.selected, text);
        self.cursor_pos = cursor;
        self.clamp_cursor();
    }

    fn toggle(&mut self)
        requires
            old(self).apa.wf(),
            old(self).selected < old(self)@.apa.texts.len(),
        ensures
            final(self)@ == old(self)@.toggled(),
            final(self).apa == old(self).apa,
    {
        self.edit_state = !self.edit_state;
        self.cursor_pos = length_in_clusters(self.apa.text(self.selected));
    }

    fn confirm(&mut self)
        requires
            old(self).selected < ApaFormatType::selectable().len(),
        ensures
            final(self)@ == old(self)@.confirmed(),
            final(self).apa.wf(),
    {
        let formats = ApaFormatType::list();
        self.apa = ApaFormat::new(formats[self.selected], Some(self.apa.lang));
        self.selected = 0;
        self.state = LogicState::EditState;
    }

    fn select_key(&mut self, key: Key)
        requires
            old(self).wf(),
            old(self).state == LogicState::SelectingFormat,
        ensures
            final(self)@ == old(self)@.select_step(key),
            final(self).apa.wf(),
    {
        match key {
            Key::Left => {
                if self.selected != 0 {
                    self.selected -= 1;
                }
            },
            Key::Right => {
                if self.selected + 1 < ApaFormatType::list().len() {
                    self.selected += 1;
                }
            },
            Key::Char(c) => {
                if c == '\n' {
                    self.confirm();
                }
            },
            _ => {},
        }
    }

    fn edit_key(&mut self, key: Key)
        requires
            old(self).wf(),
            old(self).state == LogicState::EditState,
        ensures
            final(self)@ == old(self)@.edit_step(key),
            final(self).apa.wf(),
    {
        match key {
            Key::Char(c) => {
                if c == '\t' {
                    self.toggle();
                } else if c == '\n' {
                    self.move_down();
                } else if self.edit_state {
                    self.type_char(c);
                } else if c == 'd' {
                    self.clear();
                }
            },
            Key::Down => {
                self.move_down();
            },
            Key::Up => {
                self.move_up();
            },
            Key::Left => {
                if self.edit_state && self.cursor_pos != 0 {
                    self.cursor_pos -= 1;
                }
            },
            Key::Right => {
                if self.edit_state && self.cursor_pos < length_in_clusters(
                    self.apa.text(self.selected),
                ) {
                    self.cursor_pos += 1;
                }
            },
            Key::Backspace => {
                if self.edit_state && self.cursor_pos != 0 {
                    self.erase();
                }
            },
            _ => {},
        }
    }

    /// Takes one key and moves to the next state.
    pub fn handle_key(&mut self, key: Key)
        requires
            old(self).wf(),
        ensures
            final(self).wf(),
            final(self)@ == old(self)@.step(key),
    {
        proof {
            lemma_step_keeps_wf(self@, key);
        }
        let finish = key == Key::Ctrl('c');
        match self.state {
            LogicState::Result => {},
            LogicState::EditState => {
                if finish {
                    self.state = LogicState::Result;
                } else {
                    self.edit_key(key);
                }
            },
            LogicState::SelectingFormat => {
                if finish {
                    self.state = LogicState::Result;
                } else {
                    self.select_key(key);
                }
            },
        }
    }

    /// Takes one key if the editor is in one of its states, and says
    /// whether it was; an editor that is not stays as it is.
    pub fn try_handle_key(&mut self, key: Key) -> (handled: bool)
        ensures
            handled == old(self).wf(),
            handled ==> final(self).wf() && final(self)@ == old(self)@.step(key),
            !handled ==> *final(self) == *old(self),
    {
        if self.is_wf() {
            self.handle_key(key);
            true
        } else {
            false
        }
    }
}

/// No key leads out of the editor's states: after any key the selection
/// still names a field of the format and the cursor still stands within the
/// clusters of that field's text.
pub proof fn lemma_step_keeps_wf(s: Editor, key: Key)
    requires
        s.wf(),
    ensures
        s.step(key).wf(),
{
}

/// Every state that a sequence of keys reaches from the initial one is one
/// of the editor's states. Once a format is chosen, and so on every editing
/// screen, the selection names a field of the format and the cursor stands
/// within the clusters of that field's text.
pub proof fn lemma_reachable_wf(keys: Seq<Key>)
    ensures
        Editor::initial().run(keys).wf(),
        Editor::initial().run(keys).apa.format != ApaFormatType::Unselected ==> {
            let s = Editor::initial().run(keys);
            &&& s.selected < s.apa.format.keys().len()
            &&& s.cursor_pos <= grapheme_clusters(s.apa.texts[s.selected as int]).len()
        },
        Editor::initial().run(keys).state == LogicState::EditState ==> Editor::initial().run(
            keys,
        ).apa.format != ApaFormatType::Unselected,
    decreases keys.len(),
{
    if keys.len() > 0 {
        lemma_reachable_wf(keys.drop_last());
        lemma_step_keeps_wf(Editor::initial().run(keys.drop_last()), keys.last());
    }
}

/// Clearing a field that is already empty changes nothing.
pub proof fn lemma_clear_empty_is_noop(s: Editor)
    requires
        s.wf(),
        s.state == LogicState::EditState,
        !s.edit_state,
        s.text().len() == 0,
    ensures
        s.step(Key::Char('d')) == s,
{
    assert(s.text() =~= Seq::<char>::empty());
    assert(s.apa.texts.update(s.selected as int, Seq::empty()) =~= s.apa.texts);
}

/// Moving left changes nothing where there is nothing to the left: with
/// the first format highlighted, and with the cursor before the first
/// cluster of a field.
pub proof fn lemma_left_at_start_is_noop(s: Editor)
    requires
        s.wf(),
        s.state == LogicState::SelectingFormat && s.selected == 0 || s.state
            == LogicState::EditState && s.cursor_pos == 0,
    ensures
        s.step(Key::Left) == s,
{
}

/// Moving up from the first field changes nothing.
pub proof fn lemma_up_at_first_field_is_noop(s: Editor)
    requires
        s.wf(),
        s.selected == 0,
    ensures
        s.step(Key::Up) == s,
{
}

/// Confirming a format starts its citation afresh: whatever the fields
/// held before, the citation has the highlighted format and every field of
/// it is empty.
pub proof fn lemma_confirm_resets_fields(s: Editor)
    requires
        s.wf(),
        s.state == LogicState::SelectingFormat,
    ensures
        s.step(Key::Char('\n')).state == LogicState::EditState,
        s.step(Key::Char('\n')).selected == 0,
        s.step(Key::Char('\n')).apa.format == ApaFormatType::selectable()[s.selected as int],
        s.step(Key::Char('\n')).apa.texts.len() == s.step(
            Key::Char('\n'),
        ).apa.format.keys().len(),
        forall|i: int|
            0 <= i < s.step(Key::Char('\n')).apa.texts.len() ==> (#[trigger] s.step(
                Key::Char('\n'),
            ).apa.texts[i]).len() == 0,
{
}

} // verus!
