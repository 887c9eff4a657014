//! The menu session: which prompt is open, and what each answer does to the
//! ledger.
//!
//! A session never reads or prints by itself. Its driver shows the prompt
//! that belongs to the current [`Mode`], reads a line, and hands it over:
//! as text with [`Session::enter_line`] where a menu choice or a name is
//! awaited, or, where an amount is awaited, as the number the line parsed
//! to (or `None`) with [`Session::enter_amount`]. What the driver then shows
//! is given back as [`Notice`]s.
use vstd::prelude::*;
use crate::ledger::{
    amount_of, distinct_names, has_name, inserted, removed, Book, Ledger,
    lemma_inserted_distinct, lemma_removed_distinct,
};
use crate::text::{is_quit, is_text, normalize, normalized, quit_token};

verus! {

/// The prompt a session has open.
#[derive(PartialEq, Eq, Structural, Clone, Copy, Debug)]
pub enum Mode {
    /// The main menu: a choice between viewing, adding, removing, editing and quitting.
    Menu,
    /// The name of an expense to add.
    AddName,
    /// The amount of the expense being added.
    AddAmount,
    /// The name of an expense to remove.
    RemoveName,
    /// The name of an expense to edit.
    EditName,
    /// The new amount of the expense being edited.
    EditAmount,
    /// The session has ended.
    Halted,
}

/// What the driver shows after an answer. `S` is the text type: `String`
/// for the values a session returns, `Seq<char>` in their model.
#[derive(Debug)]
pub enum Notice<S, V> {
    /// The menu choice as it was understood, trimmed and lowercased.
    Echo(S),
    /// One entry of the ledger, when the ledger is viewed.
    Entry(S, V),
    /// The ledger is viewed and has no entry.
    NoEntries,
    /// The menu choice is none of the menu's.
    InvalidCommand,
    /// The entry with this name and amount was removed.
    Removed(S, V),
    /// No entry with this name could be removed.
    NotRemoved(S),
    /// No entry with this name exists to be edited.
    NotFound(S),
}

impl<V> View for Notice<String, V> {
    type V = Notice<Seq<char>, V>;

    open spec fn view(&self) -> Notice<Seq<char>, V> {
        match self {
            Notice::Echo(s) => Notice::Echo(s@),
            Notice::Entry(s, v) => Notice::Entry(s@, *v),
            Notice::NoEntries => Notice::NoEntries,
            Notice::InvalidCommand => Notice::InvalidCommand,
            Notice::Removed(s, v) => Notice::Removed(s@, *v),
            Notice::NotRemoved(s) => Notice::NotRemoved(s@),
            Notice::NotFound(s) => Notice::NotFound(s@),
        }
    }
}

/// The model of a list of notices.
pub open spec fn notices_view<V>(n: Seq<Notice<String, V>>) -> Seq<Notice<Seq<char>, V>> {
    n.map_values(|x: Notice<String, V>| x@)
}

/// The model of a session: the open prompt, the name that an amount prompt
/// is for (empty at the other prompts), and the ledger.
pub struct State<V> {
    pub mode: Mode,
    pub pending: Seq<char>,
    pub book: Book<V>,
}

/// A prompt that takes a line of text.
pub open spec fn awaits_line(m: Mode) -> bool {
    m == Mode::Menu || m == Mode::AddName || m == Mode::RemoveName || m == Mode::EditName
}

/// A prompt that takes an amount.
pub open spec fn awaits_amount(m: Mode) -> bool {
    m == Mode::AddAmount || m == Mode::EditAmount
}

/// The state at prompt `m`, which is not an amount prompt, over ledger `b`.
pub open spec fn at<V>(m: Mode, b: Book<V>) -> State<V> {
    State { mode: m, pending: Seq::empty(), book: b }
}

/// What viewing the ledger shows: each entry in order, or that there is none.
pub open spec fn listing<V>(b: Book<V>) -> Seq<Notice<Seq<char>, V>> {
    if b.len() == 0 {
        seq![Notice::NoEntries]
    } else {
        b.map_values(|e: (Seq<char>, V)| Notice::Entry(e.0, e.1))
    }
}

/// The answer to the main menu, already normalised as `c`.
pub open spec fn menu_step<V>(b: Book<V>, c: Seq<char>) -> (State<V>, Seq<Notice<Seq<char>, V>>) {
    let echo = seq![Notice::Echo(c)];
    if c == seq!['1'] {
        (at(Mode::Menu, b), echo + listing(b))
    } else if c == seq!['2'] {
        (at(Mode::AddName, b), echo)
    } else if c == seq!['3'] {
        (at(Mode::RemoveName, b), echo)
    } else if c == seq!['4'] {
        (at(Mode::EditName, b), echo)
    } else if c == quit_token() {
        (at(Mode::Halted, b), echo)
    } else {
        (at(Mode::Menu, b), echo.push(Notice::InvalidCommand))
    }
}

/// The answer `line` at a prompt that takes a line: the next state and what
/// is shown.
pub open spec fn on_line<V>(s: State<V>, line: Seq<char>) -> (State<V>, Seq<Notice<Seq<char>, V>>) {
    on_token(s, normalized(line))
}

/// The answer at a prompt that takes a line, already normalised as `c`.
pub open spec fn on_token<V>(s: State<V>, c: Seq<char>) -> (State<V>, Seq<Notice<Seq<char>, V>>) {
    let b = s.book;
    match s.mode {
        Mode::Menu => menu_step(b, c),
        Mode::AddName => if c == quit_token() {
            (at(Mode::Menu, b), seq![])
        } else {
            (State { mode: Mode::AddAmount, pending: c, book: b }, seq![])
        },
        Mode::RemoveName => if c == quit_token() {
            (at(Mode::Menu, b), seq![])
        } else if has_name(b, c) {
            (at(Mode::Menu, removed(b, c)), seq![Notice::Removed(c, amount_of(b, c))])
        } else {
            (at(Mode::RemoveName, b), seq![Notice::NotRemoved(c)])
        },
        Mode::EditName => if c == quit_token() {
            (at(Mode::Menu, b), seq![])
        } else if has_name(b, c) {
            (State { mode: Mode::EditAmount, pending: c, book: b }, seq![])
        } else {
            (at(Mode::EditName, b), seq![Notice::NotFound(c)])
        },
        _ => (s, seq![]),
    }
}

/// The answer at an amount prompt: the amount the line parsed to, or `None`
/// where it is not a number. A number sets the pending name's amount and
/// closes the prompt; anything else leaves the prompt open.
pub open spec fn on_amount<V>(s: State<V>, amount: Option<V>) -> State<V> {
    match amount {
        Some(v) => if awaits_amount(s.mode) {
            at(Mode::Menu, inserted(s.book, s.pending, v))
        } else {
            s
        },
        None => s,
    }
}

/// The session's invariant: the ledger's names are distinct and none is the
/// quit sentinel; an amount prompt has a name, which for an edit is in the
/// ledger; other prompts have none.
pub open spec fn state_wf<V>(s: State<V>) -> bool {
    &&& distinct_names(s.book)
    &&& !has_name(s.book, quit_token())
    &&& (s.mode == Mode::AddAmount ==> s.pending != quit_token())
    &&& (s.mode == Mode::EditAmount ==> has_name(s.book, s.pending))
    &&& (!awaits_amount(s.mode) ==> s.pending == Seq::<char>::empty())
}

/// A running menu session over a ledger with amounts of type `V`.
pub struct Session<V> {
    ledger: Ledger<V>,
    mode: Mode,
    pending: String,
}

impl<V> View for Session<V> {
    type V = State<V>;

    closed spec fn view(&self) -> State<V> {
        State { mode: self.mode, pending: self.pending@, book: self.ledger@ }
    }
}

/// The notices that show ledger `l`, in order.
fn list_entries<V: Copy>(l: &Ledger<V>) -> (r: Vec<Notice<String, V>>)
    ensures
        notices_view(r@) == listing(l@),
{
    let es = l.entries();
    let ghost b = l@;
    let mut r: Vec<Notice<String, V>> = Vec::new();
    if es.len() == 0 {
        r.push(Notice::NoEntries);
        assert(notices_view(r@) =~= listing(b));
        return r;
    }
    let n = es.len();
    let mut i: usize = 0;
    while i < n
        invariant
            n == es@.len(),
            es@.map_values(|e: (String, V)| (e.0@, e.1)) == b,
            i <= n,
            r@.len() == i,
            forall|j: int| 0 <= j < i ==> (#[trigger] r@[j])@ == Notice::Entry(b[j].0, b[j].1),
        decreases n - i,
    {
        assert(es@[i as int].0@ == b[i as int].0 && es@[i as int].1 == b[i as int].1);
        let name = es[i].0.clone();
        r.push(Notice::Entry(name, es[i].1));
        i = i + 1;
    }
    assert(notices_view(r@) =~= listing(b));
    r
}

impl<V: Copy> Session<V> {
    /// The session's invariant.
    pub open spec fn wf(&self) -> bool {
        state_wf(self@)
    }

    /// A session at the main menu over `ledger`.
    pub fn new(ledger: Ledger<V>) -> (r: Self)
        requires
            ledger.wf(),
            !has_name(ledger@, quit_token()),
        ensures
            r.wf(),
            r@ == at(Mode::Menu, ledger@),
    {
        Session { ledger, mode: Mode::Menu, pending: String::new() }
    }

    /// A session at the main menu over the starting ledger.
    pub fn seeded(supermarket: V, telephone: V, electricity: V) -> (r: Self)
        ensures
            r.wf(),
            r@ == at(
                Mode::Menu,
                seq![
                    ("supermarket purchase"@, supermarket),
                    ("telephone bill"@, telephone),
                    ("electricity"@, electricity),
                ],
            ),
    {
        let ledger = Ledger::seeded(supermarket, telephone, electricity);
        proof {
            reveal_strlit("supermarket purchase");
            reveal_strlit("telephone bill");
            reveal_strlit("electricity");
            let b = ledger@;
            assert forall|i: int| 0 <= i < b.len() implies #[trigger] b[i].0 != quit_token() by {
                assert(b[i].0.len() != 1);
            }
        }
        Session::new(ledger)
    }

    /// The open prompt.
    pub fn mode(&self) -> (r: Mode)
        ensures
            r == self@.mode,
    {
        self.mode
    }

    /// The ledger.
    pub fn ledger(&self) -> (r: &Ledger<V>)
        ensures
            r@ == self@.book,
            self.wf() ==> r.wf(),
    {
        &self.ledger
    }

    /// Whether the open prompt takes an amount.
    pub fn expects_amount(&self) -> (r: bool)
        ensures
            r == awaits_amount(self@.mode),
    {
        self.mode == Mode::AddAmount || self.mode == Mode::EditAmount
    }

    /// Whether the session has ended.
    pub fn is_halted(&self) -> (r: bool)
        ensures
            r == (self@.mode == Mode::Halted),
    {
        self.mode == Mode::Halted
    }

    /// Answers a prompt that takes a line (the menu or a name prompt) with
    /// `line`, as typed; returns what is to be shown.
    pub fn enter_line(&mut self, line: &str) -> (r: Vec<Notice<String, V>>)
        requires
            old(self).wf(),
            awaits_line(old(self)@.mode),
        ensures
            final(self).wf(),
            final(self)@ == on_line(old(self)@, line@).0,
            notices_view(r@) == on_line(old(self)@, line@).1,
    {
        let c = normalize(line);
        self.enter_token(c)
    }

    /// Answers a prompt that takes a line with `c`, a line already trimmed
    /// and lowercased; returns what is to be shown.
    pub fn enter_token(&mut self, c: String) -> (r: Vec<Notice<String, V>>)
        requires
            old(self).wf(),
            awaits_line(old(self)@.mode),
        ensures
            final(self).wf(),
            final(self)@ == on_token(old(self)@, c@).0,
            notices_view(r@) == on_token(old(self)@, c@).1,
    {
        let ghost b = self.ledger@;
        proof {
            reveal_strlit("1");
            reveal_strlit("2");
            reveal_strlit("3");
            reveal_strlit("4");
            assert("1"@ =~= seq!['1']);
            assert("2"@ =~= seq!['2']);
            assert("3"@ =~= seq!['3']);
            assert("4"@ =~= seq!['4']);
        }
        match self.mode {
            Mode::Menu => {
                let mut out: Vec<Notice<String, V>> = Vec::new();
                out.push(Notice::Echo(c.clone()));
                if is_text(&c, "1") {
                    let mut l = list_entries(&self.ledger);
                    out.append(&mut l);
                } else if is_text(&c, "2") {
                    self.mode = Mode::AddName;
                } else if is_text(&c, "3") {
                    self.mode = Mode::RemoveName;
                } else if is_text(&c, "4") {
                    self.mode = Mode::EditName;
                } else if is_quit(&c) {
                    self.mode = Mode::Halted;
                } else {
                    out.push(Notice::InvalidCommand);
                }
                assert(notices_view(out@) =~= on_token(old(self)@, c@).1);
                out
            },
            Mode::AddName => {
                if is_quit(&c) {
                    self.mode = Mode::Menu;
                } else {
                    self.pending = c;
                    self.mode = Mode::AddAmount;
                }
                let out: Vec<Notice<String, V>> = Vec::new();
                assert(notices_view(out@) =~= on_token(old(self)@, c@).1);
                out
            },
            Mode::RemoveName => {
                let mut out: Vec<Notice<String, V>> = Vec::new();
                if is_quit(&c) {
                    self.mode = Mode::Menu;
                } else {
                    proof {
                        lemma_removed_distinct(b, c@);
                    }
                    match self.ledger.remove(c.as_str()) {
                        Some(v) => {
                            self.mode = Mode::Menu;
                            out.push(Notice::Removed(c, v));
                        },
                        None => {
                            out.push(Notice::NotRemoved(c));
                        },
                    }
                }
                assert(notices_view(out@) =~= on_token(old(self)@, c@).1);
                out
            },
            Mode::EditName => {
                let mut out: Vec<Notice<String, V>> = Vec::new();
                if is_quit(&c) {
                    self.mode = Mode::Menu;
                } else if self.ledger.contains_key(c.as_str()) {
                    self.pending = c;
                    self.mode = Mode::EditAmount;
                } else {
                    out.push(Notice::NotFound(c));
                }
                assert(notices_view(out@) =~= on_token(old(self)@, c@).1);
                out
            },
            _ => {
                let out: Vec<Notice<String, V>> = Vec::new();
                assert(notices_view(out@) =~= on_token(old(self)@, c@).1);
                out
            },
        }
    }

    /// Answers an amount prompt with the amount its line parsed to, or
    /// `None` where the line is not a number.
    pub fn enter_amount(&mut self, amount: Option<V>)
        requires
            old(self).wf(),
            awaits_amount(old(self)@.mode),
        ensures
            final(self).wf(),
            final(self)@ == on_amount(old(self)@, amount),
    {
        if let Some(v) = amount {
            let mut name = String::new();
            std::mem::swap(&mut name, &mut self.pending);
            proof {
                lemma_inserted_distinct(self.ledger@, name@, v);
            }
            self.ledger.insert(name, v);
            self.mode = Mode::Menu;
        }
    }
}

} // verus!
