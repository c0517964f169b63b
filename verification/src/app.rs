//! The state of the program and the modal key handler: what each key does in
//! Normal, Visual and Insert mode.
//!
//! A key that a mode has no use for changes nothing.

use vstd::prelude::*;
use crate::action::Direction;
use crate::category::{Category, CategoryView};
use crate::edit::{move_left, stepped_left, stepped_right};
use crate::key_map::{
    KEYMAP_BACKSPACE, KEYMAP_D, KEYMAP_DELETE, KEYMAP_ESC, KEYMAP_G, KEYMAP_J, KEYMAP_K,
    KEYMAP_LEFT, KEYMAP_NEWLINE, KEYMAP_O, KEYMAP_PRINTABLE_FIRST, KEYMAP_PRINTABLE_LAST,
    KEYMAP_QUIT, KEYMAP_RIGHT, KEYMAP_SHIFT_A, KEYMAP_SHIFT_G, KEYMAP_SHIFT_I, KEYMAP_SHIFT_J,
    KEYMAP_SHIFT_K, KEYMAP_SHIFT_O, KEYMAP_TAB, KEYMAP_V,
};
use crate::mode::Mode;
use crate::selection::{texts, toggle_flips_one};
use crate::status::Status;
use crate::ui::{Ui, UiView};

verus! {

/// Everything the program knows between two key presses.
pub struct App {
    pub ui: Ui,
    /// The category that has the focus.
    pub status: Status,
    pub mode: Mode,
    /// The text cursor of Insert mode: a position in the text of the item
    /// under the cursor of the category in focus.
    pub cursor: usize,
    pub todos: Category,
    pub dones: Category,
    /// A message for the status line, shown until the next key.
    pub notification: String,
}

/// The state with its lists and texts as sequences.
pub struct AppView {
    pub ui: UiView,
    pub status: Status,
    pub mode: Mode,
    pub cursor: nat,
    pub todos: CategoryView,
    pub dones: CategoryView,
    pub notification: Seq<char>,
}

impl View for App {
    type V = AppView;

    open spec fn view(&self) -> AppView {
        AppView {
            ui: self.ui@,
            status: self.status,
            mode: self.mode,
            cursor: self.cursor as nat,
            todos: self.todos@,
            dones: self.dones@,
            notification: self.notification@,
        }
    }
}

/// What the status line says after a deletion.
pub open spec fn deletion_notice() -> Seq<char> {
    "Item moved to TODO"@
}

/// Whether `key` is a printable ASCII key.
pub open spec fn is_printable(key: i32) -> bool {
    KEYMAP_PRINTABLE_FIRST <= key <= KEYMAP_PRINTABLE_LAST
}

/// The character that a printable key types: the one with the key's code.
pub open spec fn key_char(key: i32) -> char {
    (key as u8) as char
}

impl AppView {
    /// The state at the start, with `todos` and `dones` as the two lists:
    /// Normal mode, the focus on the items to do, both cursors on the first
    /// item, nothing selected, no message, no frame open and no label placed.
    pub open spec fn initial(todos: Seq<Seq<char>>, dones: Seq<Seq<char>>) -> AppView {
        AppView {
            ui: UiView { quit: false, layouts: Seq::empty(), labels: Seq::empty() },
            status: Status::Todo,
            mode: Mode::Normal,
            cursor: 0,
            todos: CategoryView { items: todos, curr: 0, selected: Seq::empty() },
            dones: CategoryView { items: dones, curr: 0, selected: Seq::empty() },
            notification: Seq::empty(),
        }
    }

    /// The list of `status`.
    pub open spec fn list(self, status: Status) -> CategoryView {
        match status {
            Status::Todo => self.todos,
            Status::Done => self.dones,
        }
    }

    /// The list in focus.
    pub open spec fn active(self) -> CategoryView {
        self.list(self.status)
    }

    /// The list out of focus.
    pub open spec fn passive(self) -> CategoryView {
        self.list(self.status.other())
    }

    /// The state with `active` as the list in focus and `passive` as the
    /// other one.
    pub open spec fn with_lists(self, active: CategoryView, passive: CategoryView) -> AppView {
        match self.status {
            Status::Todo => AppView { todos: active, dones: passive, ..self },
            Status::Done => AppView { todos: passive, dones: active, ..self },
        }
    }

    /// The state with `active` as the list in focus.
    pub open spec fn with_active(self, active: CategoryView) -> AppView {
        self.with_lists(active, self.passive())
    }

    /// The state in `mode`, with the text cursor at `cursor`.
    pub open spec fn in_mode(self, mode: Mode, cursor: nat) -> AppView {
        AppView { mode, cursor, ..self }
    }

    /// The state with nothing selected in either list.
    pub open spec fn unmarked(self) -> AppView {
        AppView { todos: self.todos.unmarked(), dones: self.dones.unmarked(), ..self }
    }

    /// The state after `key` in Normal mode.
    pub open spec fn normal_step(self, key: i32) -> AppView {
        if key == KEYMAP_QUIT {
            AppView { ui: UiView { quit: !self.ui.quit, ..self.ui }, ..self }
        } else if key == KEYMAP_TAB {
            AppView { status: self.status.other(), ..self }
        } else if key == KEYMAP_V {
            self.unmarked().in_mode(Mode::Visual, 0)
        } else if key == KEYMAP_SHIFT_A {
            self.in_mode(Mode::Insert, self.active().current_len())
        } else if key == KEYMAP_SHIFT_I {
            self.in_mode(Mode::Insert, 0)
        } else if key == KEYMAP_O {
            self.with_active(self.active().opened(self.active().place_below())).in_mode(
                Mode::Insert,
                0,
            )
        } else if key == KEYMAP_SHIFT_O {
            self.with_active(self.active().opened(self.active().place_above())).in_mode(
                Mode::Insert,
                0,
            )
        } else if key == KEYMAP_J {
            self.with_active(self.active().moved(Direction::Down))
        } else if key == KEYMAP_K {
            self.with_active(self.active().moved(Direction::Up))
        } else if key == KEYMAP_G {
            self.with_active(self.active().moved(Direction::First))
        } else if key == KEYMAP_SHIFT_G {
            self.with_active(self.active().moved(Direction::Last))
        } else if key == KEYMAP_SHIFT_J {
            self.with_active(self.active().dragged(Direction::Down))
        } else if key == KEYMAP_SHIFT_K {
            self.with_active(self.active().dragged(Direction::Up))
        } else if key == KEYMAP_NEWLINE {
            self.with_lists(
                self.active().given(self.passive()),
                self.passive().taken(self.active()),
            )
        } else if key == KEYMAP_D && self.status == Status::Done {
            AppView { notification: deletion_notice(), ..self.with_active(self.active().deleted()) }
        } else {
            self
        }
    }

    /// The state after `key` in Visual mode.
    pub open spec fn visual_step(self, key: i32) -> AppView {
        if key == KEYMAP_TAB {
            AppView { status: self.status.other(), ..self.unmarked().in_mode(Mode::Normal, 0) }
        } else if key == KEYMAP_V {
            self.unmarked().in_mode(Mode::Normal, 0)
        } else if key == KEYMAP_J {
            self.with_active(self.active().marked(Direction::Down))
        } else if key == KEYMAP_K {
            self.with_active(self.active().marked(Direction::Up))
        } else if key == KEYMAP_NEWLINE && self.active().selected.len() > 0 {
            self.with_lists(self.active().purged(), self.passive().extended(self.active()))
        } else if key == KEYMAP_D && self.status == Status::Done && self.active().selected.len()
            > 0 {
            self.with_active(self.active().purged())
        } else {
            self
        }
    }

    /// The state after `key` in Insert mode.
    pub open spec fn insert_step(self, key: i32) -> AppView {
        if key == KEYMAP_ESC || key == KEYMAP_NEWLINE {
            self.in_mode(Mode::Normal, 0)
        } else if key == KEYMAP_LEFT {
            AppView { cursor: stepped_left(self.cursor), ..self }
        } else if key == KEYMAP_RIGHT {
            AppView { cursor: stepped_right(self.active().current_len(), self.cursor), ..self }
        } else if key == KEYMAP_DELETE {
            self.with_active(self.active().erased_forward(self.cursor))
        } else if key == KEYMAP_BACKSPACE {
            AppView {
                cursor: self.active().erased_back(self.cursor).1,
                ..self.with_active(self.active().erased_back(self.cursor).0)
            }
        } else if is_printable(key) {
            AppView {
                cursor: self.active().typed(self.cursor, key_char(key)).1,
                ..self.with_active(self.active().typed(self.cursor, key_char(key)).0)
            }
        } else {
            self
        }
    }

    /// What the modes keep true of the state between keys: texts are only
    /// selected in Visual mode, no text is selected twice, and the text
    /// cursor is inside the text under the cursor in Insert mode and at 0 in
    /// the other modes.
    pub open spec fn coherent(self) -> bool {
        &&& self.todos.selected.no_duplicates()
        &&& self.dones.selected.no_duplicates()
        &&& self.mode != Mode::Visual ==> self.todos.selected.len() == 0
            && self.dones.selected.len() == 0
        &&& self.mode != Mode::Insert ==> self.cursor == 0
        &&& self.mode == Mode::Insert ==> self.cursor <= self.active().current_len()
    }

    /// The state after `key`: the notification of the key before is gone,
    /// and the mode decides what the key does.
    pub open spec fn step(self, key: i32) -> AppView {
        let fresh = AppView { notification: Seq::empty(), ..self };
        match self.mode {
            Mode::Normal => fresh.normal_step(key),
            Mode::Visual => fresh.visual_step(key),
            Mode::Insert => fresh.insert_step(key),
        }
    }
}

/// In Visual mode, with something selected in the list in focus, the enter
/// key moves the selection over: no item that stays has a selected text,
/// every item whose text is not selected stays, the selected texts stand at
/// the end of the other list in the selection's order, and nothing is
/// selected any more. The mode, the focus and the cursors stay.
pub proof fn enter_moves_the_selection(s: AppView)
    requires
        s.mode == Mode::Visual,
        s.active().selected.len() > 0,
    ensures
        s.step(KEYMAP_NEWLINE).mode == Mode::Visual,
        s.step(KEYMAP_NEWLINE).status == s.status,
        s.step(KEYMAP_NEWLINE).active().curr == s.active().curr,
        s.step(KEYMAP_NEWLINE).passive().curr == s.passive().curr,
        s.step(KEYMAP_NEWLINE).active().selected.len() == 0,
        s.step(KEYMAP_NEWLINE).passive().selected == s.passive().selected,
        s.step(KEYMAP_NEWLINE).passive().items == s.passive().items + s.active().selected,
        s.step(KEYMAP_NEWLINE).active().items.len() <= s.active().items.len(),
        forall|i: int|
            0 <= i < s.step(KEYMAP_NEWLINE).active().items.len() ==> !s.active().selected.contains(
                #[trigger] s.step(KEYMAP_NEWLINE).active().items[i],
            ),
        forall|i: int|
            0 <= i < s.active().items.len() && !s.active().selected.contains(s.active().items[i])
                ==> s.step(KEYMAP_NEWLINE).active().items.contains(#[trigger] s.active().items[i]),
{
    let pred = |t: Seq<char>| !s.active().selected.contains(t);
    let kept = s.active().items.filter(pred);
    s.active().items.lemma_filter_len(pred);
    assert forall|i: int| 0 <= i < kept.len() implies !s.active().selected.contains(
        #[trigger] kept[i],
    ) by {
        s.active().items.lemma_filter_pred(pred, i);
    }
    assert forall|i: int|
        0 <= i < s.active().items.len() && !s.active().selected.contains(
            s.active().items[i],
        ) implies kept.contains(#[trigger] s.active().items[i]) by {
        s.active().items.lemma_filter_contains(pred, i);
    }
}

/// The state at the start is coherent.
pub proof fn initial_is_coherent(todos: Seq<Seq<char>>, dones: Seq<Seq<char>>)
    ensures
        AppView::initial(todos, dones).coherent(),
{
}

/// No key leads from a coherent state to one that is not.
pub proof fn step_keeps_coherent(s: AppView, key: i32)
    requires
        s.coherent(),
    ensures
        s.step(key).coherent(),
{
    let fresh = AppView { notification: Seq::empty(), ..s };
    let list = fresh.active();
    if s.mode == Mode::Visual && (key == KEYMAP_J || key == KEYMAP_K) && list.on_item() {
        toggle_flips_one(list.selected, list.current(), list.current());
    }
}

/// The character that the printable `key` types.
fn char_of_key(key: i32) -> (ch: char)
    requires
        is_printable(key),
    ensures
        ch == key_char(key),
{
    (key as u8) as char
}

impl App {
    /// The state at the start, with `todos` and `dones` as the two lists.
    pub fn new(todos: Vec<String>, dones: Vec<String>) -> (app: Self)
        ensures
            app@ == AppView::initial(texts(todos@), texts(dones@)),
    {
        App {
            ui: Ui::new(),
            status: Status::Todo,
            mode: Mode::Normal,
            cursor: 0,
            todos: Category::new(todos),
            dones: Category::new(dones),
            notification: String::new(),
        }
    }

    /// Whether the quit flag is set.
    pub fn should_quit(&self) -> (quit: bool)
        ensures
            quit == self@.ui.quit,
    {
        self.ui.should_quit()
    }

    /// Handles one key press.
    pub fn handle_key(&mut self, key: i32)
        ensures
            final(self)@ == old(self)@.step(key),
    {
        self.notification = String::new();
        match self.mode {
            Mode::Normal => self.normal_key(key),
            Mode::Visual => self.visual_key(key),
            Mode::Insert => self.insert_key(key),
        }
    }

    /// Handles a key as Normal mode reads it.
    pub fn normal_key(&mut self, key: i32)
        ensures
            final(self)@ == old(self)@.normal_step(key),
    {
        let on_done = self.status == Status::Done;
        let (active, passive) = match self.status {
            Status::Todo => (&mut self.todos, &mut self.dones),
            Status::Done => (&mut self.dones, &mut self.todos),
        };
        if key == KEYMAP_QUIT {
            self.ui.do_quit();
        } else if key == KEYMAP_TAB {
            self.status = self.status.toggle();
        } else if key == KEYMAP_V {
            active.unmark();
            passive.unmark();
            self.mode = Mode::Visual;
            self.cursor = 0;
        } else if key == KEYMAP_SHIFT_A {
            self.mode = Mode::Insert;
            self.cursor = active.current_len();
        } else if key == KEYMAP_SHIFT_I {
            self.mode = Mode::Insert;
            self.cursor = 0;
        } else if key == KEYMAP_O {
            active.open_below();
            self.mode = Mode::Insert;
            self.cursor = 0;
        } else if key == KEYMAP_SHIFT_O {
            active.open_above();
            self.mode = Mode::Insert;
            self.cursor = 0;
        } else if key == KEYMAP_J {
            active.go(Direction::Down);
        } else if key == KEYMAP_K {
            active.go(Direction::Up);
        } else if key == KEYMAP_G {
            active.go(Direction::First);
        } else if key == KEYMAP_SHIFT_G {
            active.go(Direction::Last);
        } else if key == KEYMAP_SHIFT_J {
            active.drag(Direction::Down);
        } else if key == KEYMAP_SHIFT_K {
            active.drag(Direction::Up);
        } else if key == KEYMAP_NEWLINE {
            active.transfer_to(passive);
        } else if key == KEYMAP_D && on_done {
            active.delete();
            self.notification = "Item moved to TODO".to_owned();
        }
    }

    /// Handles a key as Visual mode reads it.
    pub fn visual_key(&mut self, key: i32)
        ensures
            final(self)@ == old(self)@.visual_step(key),
    {
        let on_done = self.status == Status::Done;
        let (active, passive) = match self.status {
            Status::Todo => (&mut self.todos, &mut self.dones),
            Status::Done => (&mut self.dones, &mut self.todos),
        };
        if key == KEYMAP_TAB {
            active.unmark();
            passive.unmark();
            self.status = self.status.toggle();
            self.mode = Mode::Normal;
            self.cursor = 0;
        } else if key == KEYMAP_V {
            active.unmark();
            passive.unmark();
            self.mode = Mode::Normal;
            self.cursor = 0;
        } else if key == KEYMAP_J {
            active.mark(Direction::Down);
        } else if key == KEYMAP_K {
            active.mark(Direction::Up);
        } else if key == KEYMAP_NEWLINE && !active.selected.is_empty() {
            passive.extend_from(active);
            active.purge();
        } else if key == KEYMAP_D && on_done && !active.selected.is_empty() {
            active.purge();
        }
    }

    /// Handles a key as Insert mode reads it.
    pub fn insert_key(&mut self, key: i32)
        ensures
            final(self)@ == old(self)@.insert_step(key),
    {
        let active = match self.status {
            Status::Todo => &mut self.todos,
            Status::Done => &mut self.dones,
        };
        if key == KEYMAP_ESC || key == KEYMAP_NEWLINE {
            self.mode = Mode::Normal;
            self.cursor = 0;
        } else if key == KEYMAP_LEFT {
            move_left(&mut self.cursor);
        } else if key == KEYMAP_RIGHT {
            active.move_right(&mut self.cursor);
        } else if key == KEYMAP_DELETE {
            active.delete_forward(self.cursor);
        } else if key == KEYMAP_BACKSPACE {
            active.backspace(&mut self.cursor);
        } else if KEYMAP_PRINTABLE_FIRST <= key && key <= KEYMAP_PRINTABLE_LAST {
            active.type_char(&mut self.cursor, char_of_key(key));
        }
    }
}

} // verus!
