//! What holds of every session, stated over the model of its steps.
//!
//! "Add" below is the menu choice `2`, a name, and an amount; "remove" and
//! "edit" are the choices `3` and `4` followed by a name; "view" is the
//! choice `1`. A choice or name is any line whose normalised form is that
//! text.
use vstd::prelude::*;
use crate::ledger::{
    amount_of, entries_named, has_name, inserted, lemma_entries_named_one, lemma_inserted_amount,
    index_of, lemma_inserted_distinct, lemma_removed_absent, Book,
};
use crate::session::{at, awaits_amount, on_amount, on_line, state_wf, Mode, Notice, State};
use crate::text::{normalized, quit_token};

verus! {

/// The menu's choices differ from each other.
proof fn lemma_choices_differ()
    ensures
        seq!['1'] != seq!['2'],
        seq!['1'] != seq!['3'],
        seq!['2'] != seq!['3'],
        seq!['2'] != quit_token(),
        seq!['3'] != quit_token(),
{
    assert(seq!['1'][0] != seq!['2'][0]);
    assert(seq!['1'][0] != seq!['3'][0]);
    assert(seq!['2'][0] != seq!['3'][0]);
    assert(seq!['2'][0] != quit_token()[0]);
    assert(seq!['3'][0] != quit_token()[0]);
}

/// The state after a complete add, begun at the menu.
pub open spec fn after_add<V>(s: State<V>, choice: Seq<char>, name: Seq<char>, v: V) -> State<V> {
    on_amount(on_line(on_line(s, choice).0, name).0, Some(v))
}

/// The state after the amount prompt of an add, reached from the menu.
pub open spec fn at_add_amount<V>(s: State<V>, choice: Seq<char>, name: Seq<char>) -> State<V> {
    on_line(on_line(s, choice).0, name).0
}

/// An add sets the name's amount, and nothing else.
pub proof fn lemma_add<V>(s: State<V>, choice: Seq<char>, name: Seq<char>, v: V)
    requires
        state_wf(s),
        s.mode == Mode::Menu,
        normalized(choice) == seq!['2'],
        normalized(name) != quit_token(),
    ensures
        after_add(s, choice, name, v) == at(Mode::Menu, inserted(s.book, normalized(name), v)),
        state_wf(after_add(s, choice, name, v)),
        has_name(after_add(s, choice, name, v).book, normalized(name)),
        amount_of(after_add(s, choice, name, v).book, normalized(name)) == v,
{
    lemma_choices_differ();
    lemma_inserted_amount(s.book, normalized(name), v);
    lemma_inserted_distinct(s.book, normalized(name), v);
    lemma_inserted_keeps_quit_out(s.book, normalized(name), v);
}

proof fn lemma_inserted_keeps_quit_out<V>(b: Book<V>, k: Seq<char>, v: V)
    requires
        !has_name(b, quit_token()),
        k != quit_token(),
    ensures
        !has_name(inserted(b, k, v), quit_token()),
{
    let r = inserted(b, k, v);
    assert forall|i: int| 0 <= i < r.len() implies #[trigger] r[i].0 != quit_token() by {
        if i < b.len() && r[i] == b[i] {
            assert(b[i].0 != quit_token());
        }
    }
}

/// After an add, viewing the ledger shows the added name with its amount.
pub proof fn lemma_add_then_view<V>(
    s: State<V>,
    add_choice: Seq<char>,
    name: Seq<char>,
    v: V,
    view_choice: Seq<char>,
)
    requires
        state_wf(s),
        s.mode == Mode::Menu,
        normalized(add_choice) == seq!['2'],
        normalized(name) != quit_token(),
        normalized(view_choice) == seq!['1'],
    ensures
        on_line(after_add(s, add_choice, name, v), view_choice).1.contains(
            Notice::Entry(normalized(name), v),
        ),
{
    lemma_add(s, add_choice, name, v);
    let k = normalized(name);
    let b = after_add(s, add_choice, name, v).book;
    let i = index_of(b, k);
    let out = on_line(after_add(s, add_choice, name, v), view_choice).1;
    assert(b.len() > 0);
    assert(out[i + 1] == Notice::<Seq<char>, V>::Entry(k, v));
}

/// Adding a name twice leaves one entry under it, with the second amount.
pub proof fn lemma_add_twice<V>(
    s: State<V>,
    choice1: Seq<char>,
    name1: Seq<char>,
    v1: V,
    choice2: Seq<char>,
    name2: Seq<char>,
    v2: V,
)
    requires
        state_wf(s),
        s.mode == Mode::Menu,
        normalized(choice1) == seq!['2'],
        normalized(choice2) == seq!['2'],
        normalized(name1) != quit_token(),
        normalized(name2) == normalized(name1),
    ensures
        entries_named(after_add(after_add(s, choice1, name1, v1), choice2, name2, v2).book,
            normalized(name1)) == seq![(normalized(name1), v2)],
{
    let k = normalized(name1);
    lemma_add(s, choice1, name1, v1);
    let s1 = after_add(s, choice1, name1, v1);
    lemma_add(s1, choice2, name2, v2);
    let b = after_add(s1, choice2, name2, v2).book;
    let i = index_of(b, k);
    lemma_entries_named_one(b, k, i);
}

/// Removing a name that the ledger lacks changes nothing and asks again.
pub proof fn lemma_remove_absent<V>(s: State<V>, name: Seq<char>)
    requires
        state_wf(s),
        s.mode == Mode::RemoveName,
        normalized(name) != quit_token(),
        !has_name(s.book, normalized(name)),
    ensures
        on_line(s, name).0 == s,
        on_line(s, name).1 == seq![Notice::<Seq<char>, V>::NotRemoved(normalized(name))],
{
}

/// Editing a name that the ledger lacks changes nothing and asks again.
pub proof fn lemma_edit_absent<V>(s: State<V>, name: Seq<char>)
    requires
        state_wf(s),
        s.mode == Mode::EditName,
        normalized(name) != quit_token(),
        !has_name(s.book, normalized(name)),
    ensures
        on_line(s, name).0 == s,
        on_line(s, name).1 == seq![Notice::<Seq<char>, V>::NotFound(normalized(name))],
{
}

/// The quit sentinel at a name prompt returns to the menu with the ledger
/// unchanged.
pub proof fn lemma_quit_at_name<V>(s: State<V>, name: Seq<char>)
    requires
        state_wf(s),
        s.mode == Mode::AddName || s.mode == Mode::RemoveName || s.mode == Mode::EditName,
        normalized(name) == quit_token(),
    ensures
        on_line(s, name).0 == at(Mode::Menu, s.book),
        on_line(s, name).1 == Seq::<Notice<Seq<char>, V>>::empty(),
{
}

/// A name added under one spelling is removed under any spelling with the
/// same normalised form.
pub proof fn lemma_add_then_remove<V>(
    s: State<V>,
    add_choice: Seq<char>,
    added: Seq<char>,
    v: V,
    remove_choice: Seq<char>,
    name: Seq<char>,
)
    requires
        state_wf(s),
        s.mode == Mode::Menu,
        normalized(add_choice) == seq!['2'],
        normalized(added) != quit_token(),
        normalized(remove_choice) == seq!['3'],
        normalized(name) == normalized(added),
    ensures
        ({
            let s1 = on_line(after_add(s, add_choice, added, v), remove_choice).0;
            &&& on_line(s1, name).1 == seq![Notice::Removed(normalized(name), v)]
            &&& on_line(s1, name).0.mode == Mode::Menu
            &&& !has_name(on_line(s1, name).0.book, normalized(name))
        }),
{
    lemma_choices_differ();
    lemma_add(s, add_choice, added, v);
    let b = after_add(s, add_choice, added, v).book;
    lemma_removed_absent(b, normalized(name));
}

/// An amount line that is not a number creates nothing and asks again; the
/// first number then sets the amount.
pub proof fn lemma_amount_retry<V>(
    s: State<V>,
    choice: Seq<char>,
    name: Seq<char>,
    v: V,
)
    requires
        state_wf(s),
        s.mode == Mode::Menu,
        normalized(choice) == seq!['2'],
        normalized(name) != quit_token(),
    ensures
        ({
            let s1 = at_add_amount(s, choice, name);
            &&& on_amount(s1, None) == s1
            &&& s1.mode == Mode::AddAmount
            &&& s1.book == s.book
            &&& on_amount(on_amount(s1, None), Some(v)) == after_add(s, choice, name, v)
        }),
{
    lemma_choices_differ();
}

/// A line that is not a number leaves any amount prompt as it was.
pub proof fn lemma_amount_not_a_number<V>(s: State<V>)
    requires
        awaits_amount(s.mode),
    ensures
        on_amount(s, None) == s,
{
}

} // verus!
