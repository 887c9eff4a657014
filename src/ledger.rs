//! The ledger: expense names, each with one amount.
//!
//! A ledger is modelled as the sequence of its entries, `(name, amount)`, in
//! the order in which the names were first added; no name occurs twice. The
//! amount is a type parameter: the ledger stores and hands back amounts and
//! never inspects them.
use vstd::prelude::*;

verus! {

/// The model of a ledger: its entries, in order.
pub type Book<V> = Seq<(Seq<char>, V)>;

/// No name occurs in two entries.
pub open spec fn distinct_names<V>(b: Book<V>) -> bool {
    forall|i: int, j: int|
        0 <= i < j < b.len() ==> #[trigger] b[i].0 != #[trigger] b[j].0
}

/// Some entry is named `k`.
pub open spec fn has_name<V>(b: Book<V>, k: Seq<char>) -> bool {
    exists|i: int| 0 <= i < b.len() && #[trigger] b[i].0 == k
}

/// The position of the entry named `k`, where there is one.
pub open spec fn index_of<V>(b: Book<V>, k: Seq<char>) -> int
    recommends
        has_name(b, k),
{
    choose|i: int| 0 <= i < b.len() && #[trigger] b[i].0 == k
}

/// The amount of the entry named `k`, where there is one.
pub open spec fn amount_of<V>(b: Book<V>, k: Seq<char>) -> V
    recommends
        has_name(b, k),
{
    b[index_of(b, k)].1
}

/// Whether an entry is named `k`.
pub open spec fn named<V>(k: Seq<char>) -> spec_fn((Seq<char>, V)) -> bool {
    |e: (Seq<char>, V)| e.0 == k
}

/// The entries named `k`, in order.
pub open spec fn entries_named<V>(b: Book<V>, k: Seq<char>) -> Book<V> {
    b.filter(named(k))
}

/// `b` after `k` is set to `v`: an entry named `k` takes the new amount in
/// place; otherwise a new entry comes last.
pub open spec fn inserted<V>(b: Book<V>, k: Seq<char>, v: V) -> Book<V> {
    if has_name(b, k) {
        b.update(index_of(b, k), (k, v))
    } else {
        b.push((k, v))
    }
}

/// `b` without the entry named `k`, if there is one.
pub open spec fn removed<V>(b: Book<V>, k: Seq<char>) -> Book<V> {
    if has_name(b, k) {
        b.remove(index_of(b, k))
    } else {
        b
    }
}

/// Where the names are distinct, the entry named `k` is the one at `i`.
pub proof fn lemma_index_of<V>(b: Book<V>, k: Seq<char>, i: int)
    requires
        distinct_names(b),
        0 <= i < b.len(),
        b[i].0 == k,
    ensures
        has_name(b, k),
        index_of(b, k) == i,
{
    assert(has_name(b, k));
    let j = index_of(b, k);
    if j != i {
        if j < i {
            assert(b[j].0 != b[i].0);
        } else {
            assert(b[i].0 != b[j].0);
        }
    }
}

/// Where no entry is named `k`, none is listed under `k`.
pub proof fn lemma_entries_named_none<V>(b: Book<V>, k: Seq<char>)
    requires
        !has_name(b, k),
    ensures
        entries_named(b, k) == Seq::<(Seq<char>, V)>::empty(),
    decreases b.len(),
{
    reveal(Seq::filter);
    if b.len() > 0 {
        let d = b.drop_last();
        assert forall|j: int| 0 <= j < d.len() implies #[trigger] d[j].0 != k by {
            assert(b[j].0 != k);
        }
        lemma_entries_named_none(d, k);
        assert(b.last().0 != k);
    }
}

/// Where the names are distinct and the entry at `i` is named `k`, it is
/// the only entry listed under `k`.
pub proof fn lemma_entries_named_one<V>(b: Book<V>, k: Seq<char>, i: int)
    requires
        distinct_names(b),
        0 <= i < b.len(),
        b[i].0 == k,
    ensures
        entries_named(b, k) == seq![b[i]],
    decreases b.len(),
{
    reveal(Seq::filter);
    let d = b.drop_last();
    if i == b.len() - 1 {
        assert forall|j: int| 0 <= j < d.len() implies #[trigger] d[j].0 != k by {
            assert(d[j] == b[j]);
            assert(b[j].0 != b[i].0);
        }
        lemma_entries_named_none(d, k);
        assert(entries_named(b, k) =~= seq![b[i]]);
    } else {
        assert(b.last().0 != b[i].0);
        assert forall|x: int, y: int| 0 <= x < y < d.len() implies #[trigger] d[x].0
            != #[trigger] d[y].0 by {
            assert(d[x] == b[x] && d[y] == b[y]);
            assert(b[x].0 != b[y].0);
        }
        assert(d[i] == b[i]);
        lemma_entries_named_one(d, k, i);
    }
}

/// Where the names are distinct, after `k` is set to `v` the entry named `k`
/// has amount `v`.
pub proof fn lemma_inserted_amount<V>(b: Book<V>, k: Seq<char>, v: V)
    requires
        distinct_names(b),
    ensures
        has_name(inserted(b, k, v), k),
        amount_of(inserted(b, k, v), k) == v,
        inserted(b, k, v).len() == if has_name(b, k) { b.len() } else { b.len() + 1 },
{
    lemma_inserted_distinct(b, k, v);
    let r = inserted(b, k, v);
    let i = if has_name(b, k) { index_of(b, k) } else { b.len() as int };
    assert(r[i].0 == k);
    lemma_index_of(r, k, i);
}

/// Where the names are distinct, after the entry named `k` is removed no
/// entry is named `k`.
pub proof fn lemma_removed_absent<V>(b: Book<V>, k: Seq<char>)
    requires
        distinct_names(b),
    ensures
        !has_name(removed(b, k), k),
        has_name(b, k) ==> removed(b, k).len() == b.len() - 1,
{
    if has_name(b, k) {
        let x = index_of(b, k);
        let r = removed(b, k);
        assert forall|i: int| 0 <= i < r.len() implies #[trigger] r[i].0 != k by {
            let bi = if i < x { i } else { i + 1 };
            assert(r[i] == b[bi]);
            if bi < x {
                assert(b[bi].0 != b[x].0);
            } else {
                assert(b[x].0 != b[bi].0);
            }
        }
    }
}

/// Setting an amount keeps the names distinct.
pub proof fn lemma_inserted_distinct<V>(b: Book<V>, k: Seq<char>, v: V)
    requires
        distinct_names(b),
    ensures
        distinct_names(inserted(b, k, v)),
{
    let r = inserted(b, k, v);
    if has_name(b, k) {
        let x = index_of(b, k);
        assert forall|i: int, j: int| 0 <= i < j < r.len() implies #[trigger] r[i].0
            != #[trigger] r[j].0 by {
            if i != x && j != x {
                assert(b[i].0 != b[j].0);
            } else if i == x {
                assert(b[i].0 != b[j].0);
            } else {
                assert(b[i].0 != b[j].0);
            }
        }
    } else {
        assert forall|i: int, j: int| 0 <= i < j < r.len() implies #[trigger] r[i].0
            != #[trigger] r[j].0 by {
            if j == b.len() {
                assert(r[i].0 == b[i].0);
            } else {
                assert(b[i].0 != b[j].0);
            }
        }
    }
}

/// Removing an entry keeps the names distinct.
pub proof fn lemma_removed_distinct<V>(b: Book<V>, k: Seq<char>)
    requires
        distinct_names(b),
    ensures
        distinct_names(removed(b, k)),
{
    let r = removed(b, k);
    if has_name(b, k) {
        let x = index_of(b, k);
        assert forall|i: int, j: int| 0 <= i < j < r.len() implies #[trigger] r[i].0
            != #[trigger] r[j].0 by {
            let bi = if i < x { i } else { i + 1 };
            let bj = if j < x { j } else { j + 1 };
            assert(r[i] == b[bi]);
            assert(r[j] == b[bj]);
            assert(b[bi].0 != b[bj].0);
        }
    }
}

/// A ledger of expenses with amounts of type `V`.
pub struct Ledger<V> {
    entries: Vec<(String, V)>,
}

impl<V> View for Ledger<V> {
    type V = Book<V>;

    closed spec fn view(&self) -> Book<V> {
        self.entries@.map_values(|e: (String, V)| (e.0@, e.1))
    }
}

impl<V: Copy> Ledger<V> {
    /// The ledger's invariant: no name occurs twice.
    pub open spec fn wf(&self) -> bool {
        distinct_names(self@)
    }

    /// An empty ledger.
    pub fn new() -> (r: Self)
        ensures
            r.wf(),
            r@ == Seq::<(Seq<char>, V)>::empty(),
    {
        let r = Ledger { entries: Vec::new() };
        assert(r@ =~= Seq::<(Seq<char>, V)>::empty());
        r
    }

    /// The ledger a session starts with: a supermarket purchase, a telephone
    /// bill and electricity, with the given amounts.
    pub fn seeded(supermarket: V, telephone: V, electricity: V) -> (r: Self)
        ensures
            r.wf(),
            r@ == seq![
                ("supermarket purchase"@, supermarket),
                ("telephone bill"@, telephone),
                ("electricity"@, electricity),
            ],
    {
        proof {
            reveal_strlit("supermarket purchase");
            reveal_strlit("telephone bill");
            reveal_strlit("electricity");
        }
        let mut entries: Vec<(String, V)> = Vec::new();
        entries.push(("supermarket purchase".to_owned(), supermarket));
        entries.push(("telephone bill".to_owned(), telephone));
        entries.push(("electricity".to_owned(), electricity));
        let r = Ledger { entries };
        assert(r@ =~= seq![
            ("supermarket purchase"@, supermarket),
            ("telephone bill"@, telephone),
            ("electricity"@, electricity),
        ]);
        assert(r@[0].0.len() != r@[1].0.len() && r@[0].0.len() != r@[2].0.len() && r@[1].0.len()
            != r@[2].0.len());
        r
    }

    /// The number of entries.
    pub fn len(&self) -> (r: usize)
        ensures
            r == self@.len(),
    {
        self.entries.len()
    }

    /// Whether the ledger has no entry.
    pub fn is_empty(&self) -> (r: bool)
        ensures
            r == (self@.len() == 0),
    {
        self.entries.len() == 0
    }

    /// The position of the entry named `key`.
    fn position(&self, key: &String) -> (r: Option<usize>)
        requires
            self.wf(),
        ensures
            match r {
                Some(i) => i < self@.len() && self@[i as int].0 == key@ && index_of(self@, key@)
                    == i,
                None => !has_name(self@, key@),
            },
    {
        let n = self.entries.len();
        let mut i: usize = 0;
        while i < n
            invariant
                self.wf(),
                n == self@.len(),
                i <= n,
                forall|j: int| 0 <= j < i ==> #[trigger] self@[j].0 != key@,
            decreases n - i,
        {
            assert(self@[i as int].0 == self.entries@[i as int].0@);
            if self.entries[i].0 == *key {
                proof {
                    lemma_index_of(self@, key@, i as int);
                }
                return Some(i);
            }
            i = i + 1;
        }
        None
    }

    /// Whether some entry is named `name`.
    pub fn contains_key(&self, name: &str) -> (r: bool)
        requires
            self.wf(),
        ensures
            r == has_name(self@, name@),
    {
        let key: String = name.to_owned();
        self.position(&key).is_some()
    }

    /// The amount of the entry named `name`, if there is one.
    pub fn get(&self, name: &str) -> (r: Option<V>)
        requires
            self.wf(),
        ensures
            r == (if has_name(self@, name@) {
                Some(amount_of(self@, name@))
            } else {
                None
            }),
    {
        let key: String = name.to_owned();
        match self.position(&key) {
            Some(i) => {
                assert(self@[i as int].1 == self.entries@[i as int].1);
                Some(self.entries[i].1)
            },
            None => None,
        }
    }

    /// Sets the amount of `name` to `amount`, replacing any amount it had.
    pub fn insert(&mut self, name: String, amount: V)
        requires
            old(self).wf(),
        ensures
            final(self).wf(),
            final(self)@ == inserted(old(self)@, name@, amount),
    {
        proof {
            lemma_inserted_distinct(self@, name@, amount);
        }
        match self.position(&name) {
            Some(i) => {
                let ghost k = name@;
                self.entries.set(i, (name, amount));
                assert(self@ =~= old(self)@.update(i as int, (k, amount)));
            },
            None => {
                let ghost k = name@;
                self.entries.push((name, amount));
                assert(self@ =~= old(self)@.push((k, amount)));
            },
        }
    }

    /// Removes the entry named `name` and returns its amount, if there is one.
    pub fn remove(&mut self, name: &str) -> (r: Option<V>)
        requires
            old(self).wf(),
        ensures
            final(self).wf(),
            final(self)@ == removed(old(self)@, name@),
            r == (if has_name(old(self)@, name@) {
                Some(amount_of(old(self)@, name@))
            } else {
                None
            }),
    {
        proof {
            lemma_removed_distinct(self@, name@);
        }
        let key: String = name.to_owned();
        match self.position(&key) {
            Some(i) => {
                let e = self.entries.remove(i);
                assert(self@ =~= old(self)@.remove(i as int));
                Some(e.1)
            },
            None => None,
        }
    }

    /// The entries, in order.
    pub fn entries(&self) -> (r: Vec<(String, V)>)
        ensures
            r@.map_values(|e: (String, V)| (e.0@, e.1)) == self@,
    {
        let n = self.entries.len();
        let mut r: Vec<(String, V)> = Vec::new();
        let mut i: usize = 0;
        while i < n
            invariant
                n == self@.len(),
                i <= n,
                r@.len() == i,
                forall|j: int| 0 <= j < i ==> (#[trigger] r@[j]).0@ == self@[j].0 && r@[j].1
                    == self@[j].1,
            decreases n - i,
        {
            let name = self.entries[i].0.clone();
            let amount = self.entries[i].1;
            r.push((name, amount));
            i = i + 1;
        }
        assert(r@.map_values(|e: (String, V)| (e.0@, e.1)) =~= self@);
        r
    }
}

} // verus!
