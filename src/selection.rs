//! The state machine behind the interactive picker: a cursor over a list of
//! labels, closed by a synthetic "Exit" entry, and the outcome of the session.
use vstd::prelude::*;
use crate::text::labels;

verus! {

/// A key press, as far as the picker tells keys apart.
#[derive(Clone, Copy, PartialEq, Eq, Debug)]
pub enum Key {
    Up,
    Down,
    Char(char),
    Ctrl(char),
    Other,
}

/// One item of the merged event stream: a key press or a timer tick.
pub enum Event<I> {
    Input(I),
    Tick,
}

/// How a selection session stands.
#[derive(Clone, Copy, PartialEq, Eq, Debug)]
pub enum Outcome {
    Running,
    Confirmed(usize),
    Cancelled,
}

/// Cursor and outcome of one picker session over `todos`, whose last
/// entry is the synthetic "Exit" label.
pub struct TodoApp {
    pub todos: Vec<String>,
    pub position: usize,
    pub to_delete: Option<usize>,
    pub should_quit: bool,
}

impl TodoApp {
    /// The cursor is a valid index, and a chosen entry is a real item.
    pub open spec fn wf(&self) -> bool {
        &&& self.todos@.len() >= 1
        &&& self.position < self.todos@.len()
        &&& !self.should_quit ==> self.to_delete is None
        &&& self.to_delete matches Some(i) ==> i + 1 < self.todos@.len()
    }

    pub open spec fn last_index(&self) -> int {
        self.todos@.len() - 1
    }

    pub open spec fn state_outcome(&self) -> Outcome {
        if !self.should_quit {
            Outcome::Running
        } else {
            match self.to_delete {
                Some(i) => Outcome::Confirmed(i),
                None => Outcome::Cancelled,
            }
        }
    }

    /// The state after a step down: one entry further, stopping at the last.
    pub open spec fn moved_down(self) -> TodoApp {
        if self.should_quit || self.position as int == self.last_index() {
            self
        } else {
            TodoApp { position: (self.position + 1) as usize, ..self }
        }
    }

    /// The state after a step up: one entry back, stopping at the first.
    pub open spec fn moved_up(self) -> TodoApp {
        if self.should_quit || self.position == 0 {
            self
        } else {
            TodoApp { position: (self.position - 1) as usize, ..self }
        }
    }

    /// The state after an explicit abort.
    pub open spec fn cancelled(self) -> TodoApp {
        if self.should_quit {
            self
        } else {
            TodoApp { should_quit: true, ..self }
        }
    }

    /// The state after confirming the entry under the cursor.
    pub open spec fn confirmed(self) -> TodoApp {
        if self.should_quit {
            self
        } else {
            TodoApp {
                should_quit: true,
                to_delete: if self.position as int == self.last_index() {
                    None
                } else {
                    Some(self.position)
                },
                ..self
            }
        }
    }

    /// The state after one event of the stream.
    pub open spec fn after(self, ev: Event<Key>) -> TodoApp {
        match ev {
            Event::Input(Key::Down) => self.moved_down(),
            Event::Input(Key::Up) => self.moved_up(),
            Event::Input(Key::Char(c)) => if c == '\n' { self.confirmed() } else { self },
            Event::Input(Key::Ctrl(c)) => if c == 'c' { self.cancelled() } else { self },
            _ => self,
        }
    }

    /// Starts a session over `items`, with "Exit" appended and the cursor
    /// on the first entry.
    pub fn new(items: &Vec<String>) -> (r: TodoApp)
        requires
            items@.len() < usize::MAX,
        ensures
            r.wf(),
            labels(r.todos@) == labels(items@).push("Exit"@),
            r.position == 0,
            r.state_outcome() == Outcome::Running,
    {
        let mut options: Vec<String> = Vec::new();
        let mut i: usize = 0;
        while i < items.len()
            invariant
                i <= items@.len(),
                labels(options@) == labels(items@.take(i as int)),
            decreases items@.len() - i,
        {
            let ghost prev = options@;
            options.push(String::from_str(items[i].as_str()));
            assert(items@.take(i as int + 1) =~= items@.take(i as int).push(items@[i as int]));
            assert(labels(options@) =~= labels(prev).push(items@[i as int]@));
            assert(labels(items@.take(i as int + 1)) =~= labels(items@.take(i as int)).push(
                items@[i as int]@,
            ));
            i = i + 1;
        }
        assert(items@.take(i as int) == items@);
        let ghost before = options@;
        options.push(String::from_str("Exit"));
        assert(labels(options@) =~= labels(before).push("Exit"@));
        TodoApp { todos: options, position: 0, to_delete: None, should_quit: false }
    }

    pub fn on_down(&mut self)
        requires
            old(self).wf(),
        ensures
            final(self).wf(),
            *final(self) == old(self).moved_down(),
    {
        if !self.should_quit && self.todos.len() - 1 != self.position {
            self.position += 1;
        }
    }

    pub fn on_up(&mut self)
        requires
            old(self).wf(),
        ensures
            final(self).wf(),
            *final(self) == old(self).moved_up(),
    {
        if !self.should_quit && self.position != 0 {
            self.position -= 1;
        }
    }

    pub fn on_cancel(&mut self)
        requires
            old(self).wf(),
        ensures
            final(self).wf(),
            *final(self) == old(self).cancelled(),
    {
        self.should_quit = true;
    }

    pub fn on_return(&mut self)
        requires
            old(self).wf(),
        ensures
            final(self).wf(),
            *final(self) == old(self).confirmed(),
    {
        if !self.should_quit {
            self.should_quit = true;
            self.to_delete = if self.position == self.todos.len() - 1 {
                None
            } else {
                Some(self.position)
            };
        }
    }
}

impl TodoApp {
    /// Applies one event: arrows move the cursor, Enter confirms, Ctrl-C
    /// aborts; any other key and every tick leave the state alone. Returns
    /// whether the state changed, that is whether the list must be drawn again.
    pub fn handle(&mut self, ev: Event<Key>) -> (changed: bool)
        requires
            old(self).wf(),
        ensures
            final(self).wf(),
            *final(self) == old(self).after(ev),
            changed == (*final(self) != *old(self)),
    {
        let before_pos = self.position;
        let before_quit = self.should_quit;
        match ev {
            Event::Input(Key::Down) => self.on_down(),
            Event::Input(Key::Up) => self.on_up(),
            Event::Input(Key::Char(c)) => {
                if c == '\n' {
                    self.on_return();
                }
            },
            Event::Input(Key::Ctrl(c)) => {
                if c == 'c' {
                    self.on_cancel();
                }
            },
            _ => {},
        }
        before_pos != self.position || before_quit != self.should_quit
    }

    /// The index of the chosen item, once one was confirmed.
    pub fn selected(&self) -> (r: Option<usize>)
        ensures
            r == match self.state_outcome() {
                Outcome::Confirmed(i) => Some(i),
                _ => None,
            },
    {
        if self.should_quit {
            self.to_delete
        } else {
            None
        }
    }

    /// How the session stands.
    pub fn outcome(&self) -> (r: Outcome)
        ensures
            r == self.state_outcome(),
    {
        if !self.should_quit {
            Outcome::Running
        } else {
            match self.to_delete {
                Some(i) => Outcome::Confirmed(i),
                None => Outcome::Cancelled,
            }
        }
    }
}

/// The state after a run of cursor moves: `true` steps down, `false` up.
pub open spec fn after_moves(s: TodoApp, moves: Seq<bool>) -> TodoApp
    decreases moves.len(),
{
    if moves.len() == 0 {
        s
    } else {
        let t = after_moves(s, moves.drop_last());
        if moves.last() {
            t.moved_down()
        } else {
            t.moved_up()
        }
    }
}

/// Whatever run of up and down moves is made, from whatever valid cursor,
/// the cursor stays a valid index of the list and the list is unchanged.
pub proof fn lemma_cursor_stays_in_range(s: TodoApp, moves: Seq<bool>)
    requires
        s.wf(),
    ensures
        after_moves(s, moves).wf(),
        0 <= after_moves(s, moves).position <= s.last_index(),
        after_moves(s, moves).todos == s.todos,
    decreases moves.len(),
{
    if moves.len() > 0 {
        lemma_cursor_stays_in_range(s, moves.drop_last());
    }
}

/// Confirming on the last entry ("Exit") always cancels, and on any other
/// entry confirms that entry, whatever moves came before.
pub proof fn lemma_confirm_outcome(s: TodoApp, moves: Seq<bool>)
    requires
        s.wf(),
        s.state_outcome() == Outcome::Running,
    ensures
        ({
            let t = after_moves(s, moves);
            t.confirmed().state_outcome() == if t.position as int == t.last_index() {
                Outcome::Cancelled
            } else {
                Outcome::Confirmed(t.position)
            }
        }),
{
    lemma_moves_keep_running(s, moves);
}

proof fn lemma_moves_keep_running(s: TodoApp, moves: Seq<bool>)
    requires
        s.wf(),
        !s.should_quit,
    ensures
        !after_moves(s, moves).should_quit,
    decreases moves.len(),
{
    if moves.len() > 0 {
        lemma_moves_keep_running(s, moves.drop_last());
    }
}

/// Once the session has ended, every transition and every event leaves the
/// state as it is.
pub proof fn lemma_terminal_is_fixed(s: TodoApp, ev: Event<Key>)
    requires
        s.wf(),
        s.state_outcome() != Outcome::Running,
    ensures
        s.moved_down() == s,
        s.moved_up() == s,
        s.cancelled() == s,
        s.confirmed() == s,
        s.after(ev) == s,
{
}

} // verus!
