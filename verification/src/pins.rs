//! The pins of a lock file, by name.

use vstd::prelude::*;

use crate::pin::{Pin, PinView};
use crate::text::{
    char_seq_lt, lemma_char_seq_lt_asymmetric, lemma_char_seq_lt_total, lemma_char_seq_lt_transitive,
    str_eq, str_lt,
};

verus! {

/// Named pins, ordered by name as a `BTreeMap<String, Pin>` keeps them: the
/// names are strictly increasing, so none occurs twice.
pub struct NixPins {
    entries: Vec<(String, Pin)>,
}

/// The names are strictly increasing.
pub open spec fn names_sorted(entries: Seq<(Seq<char>, PinView)>) -> bool {
    forall|i: int, j: int|
        0 <= i < j < entries.len() ==> char_seq_lt(#[trigger] entries[i].0, #[trigger] entries[j].0)
}

/// No name occurs twice.
pub open spec fn names_distinct(entries: Seq<(Seq<char>, PinView)>) -> bool {
    forall|i: int, j: int|
        0 <= i < entries.len() && 0 <= j < entries.len() && i != j ==> #[trigger] entries[i].0
            != #[trigger] entries[j].0
}

/// How many entries have a name before `name`.
pub open spec fn count_before(entries: Seq<(Seq<char>, PinView)>, name: Seq<char>) -> int
    decreases entries.len(),
{
    if entries.len() == 0 {
        0
    } else {
        count_before(entries.drop_last(), name) + if char_seq_lt(entries.last().0, name) {
            1int
        } else {
            0int
        }
    }
}

/// The entries after `insert(name, pin)`: the entry of that name gets the new
/// pin in place, or a new entry goes in at its place in name order.
pub open spec fn inserted(entries: Seq<(Seq<char>, PinView)>, name: Seq<char>, pin: PinView) -> Seq<
    (Seq<char>, PinView),
> {
    if exists|i: int| 0 <= i < entries.len() && #[trigger] entries[i].0 == name {
        let i = choose|i: int| 0 <= i < entries.len() && #[trigger] entries[i].0 == name;
        entries.update(i, (name, pin))
    } else {
        entries.insert(count_before(entries, name), (name, pin))
    }
}

/// Sorted names are distinct.
pub proof fn lemma_sorted_distinct(entries: Seq<(Seq<char>, PinView)>)
    requires
        names_sorted(entries),
    ensures
        names_distinct(entries),
{
    assert forall|i: int, j: int|
        0 <= i < entries.len() && 0 <= j < entries.len() && i != j implies #[trigger] entries[i].0
        != #[trigger] entries[j].0 by {
        if i < j {
            lemma_char_seq_lt_asymmetric(entries[i].0, entries[i].0);
        } else {
            lemma_char_seq_lt_asymmetric(entries[j].0, entries[j].0);
        }
    };
}

/// When exactly the first `k` entries come before `name`, `k` of them do.
proof fn lemma_count_before_prefix(entries: Seq<(Seq<char>, PinView)>, name: Seq<char>, k: int)
    requires
        0 <= k <= entries.len(),
        forall|i: int| 0 <= i < k ==> char_seq_lt(#[trigger] entries[i].0, name),
        forall|i: int| k <= i < entries.len() ==> !char_seq_lt(#[trigger] entries[i].0, name),
    ensures
        count_before(entries, name) == k,
    decreases entries.len(),
{
    if entries.len() > 0 {
        let init = entries.drop_last();
        assert(entries.last() == entries[entries.len() - 1]);
        if k == entries.len() {
            assert forall|i: int| 0 <= i < k - 1 implies char_seq_lt(#[trigger] init[i].0, name) by {
                assert(init[i] == entries[i]);
            };
            lemma_count_before_prefix(init, name, k - 1);
        } else {
            assert forall|i: int| 0 <= i < k implies char_seq_lt(#[trigger] init[i].0, name) by {
                assert(init[i] == entries[i]);
            };
            assert forall|i: int| k <= i < init.len() implies !char_seq_lt(#[trigger] init[i].0, name) by {
                assert(init[i] == entries[i]);
            };
            lemma_count_before_prefix(init, name, k);
        }
    }
}

/// After `insert(name, pin)` the pins hold `pin` under `name`, every pin under
/// another name is still there, and there is one pin more exactly when `name`
/// was new.
pub proof fn law_insert_holds_new_and_keeps_others(
    entries: Seq<(Seq<char>, PinView)>,
    name: Seq<char>,
    pin: PinView,
)
    requires
        names_sorted(entries),
    ensures
        inserted(entries, name, pin).contains((name, pin)),
        forall|k: int|
            0 <= k < entries.len() && entries[k].0 != name ==> inserted(entries, name, pin).contains(
                #[trigger] entries[k],
            ),
        inserted(entries, name, pin).len() == entries.len() + if exists|i: int|
            0 <= i < entries.len() && #[trigger] entries[i].0 == name {
            0int
        } else {
            1int
        },
{
    let r = inserted(entries, name, pin);
    if exists|i: int| 0 <= i < entries.len() && #[trigger] entries[i].0 == name {
        let i = choose|i: int| 0 <= i < entries.len() && #[trigger] entries[i].0 == name;
        // the entry of that name is the only one
        lemma_sorted_distinct(entries);
        assert(r =~= entries.update(i, (name, pin)));
        assert(r[i] == (name, pin));
        assert forall|k: int| 0 <= k < entries.len() && entries[k].0 != name implies r.contains(
            #[trigger] entries[k],
        ) by {
            assert(r[k] == entries[k]);
        };
    } else {
        let p = count_before(entries, name);
        lemma_count_before_bounds(entries, name);
        assert(r[p] == (name, pin));
        assert forall|k: int| 0 <= k < entries.len() && entries[k].0 != name implies r.contains(
            #[trigger] entries[k],
        ) by {
            if k < p {
                assert(r[k] == entries[k]);
            } else {
                assert(r[k + 1] == entries[k]);
            }
        };
    }
}

proof fn lemma_count_before_bounds(entries: Seq<(Seq<char>, PinView)>, name: Seq<char>)
    ensures
        0 <= count_before(entries, name) <= entries.len(),
    decreases entries.len(),
{
    if entries.len() > 0 {
        lemma_count_before_bounds(entries.drop_last(), name);
    }
}

impl View for NixPins {
    type V = Seq<(Seq<char>, PinView)>;

    closed spec fn view(&self) -> Seq<(Seq<char>, PinView)> {
        self.entries@.map_values(|e: (String, Pin)| (e.0@, e.1@))
    }
}

impl NixPins {
    #[verifier::type_invariant]
    closed spec fn wf(self) -> bool {
        names_sorted(self@)
    }

    /// No pins.
    pub fn new() -> (r: Self)
        ensures
            r@ == Seq::<(Seq<char>, PinView)>::empty(),
    {
        let r = NixPins { entries: Vec::new() };
        assert(r@ =~= Seq::<(Seq<char>, PinView)>::empty());
        r
    }

    /// The names are strictly increasing.
    pub fn names_are_sorted(&self)
        ensures
            names_sorted(self@),
            names_distinct(self@),
    {
        proof {
            use_type_invariant(self);
            lemma_sorted_distinct(self@);
        }
    }

    /// The number of pins.
    pub fn len(&self) -> (r: usize)
        ensures
            r == self@.len(),
    {
        self.entries.len()
    }

    /// The name and pin at position `i`.
    pub fn entry(&self, i: usize) -> (r: (&String, &Pin))
        requires
            i < self@.len(),
        ensures
            r.0@ == self@[i as int].0,
            r.1@ == self@[i as int].1,
    {
        let e = &self.entries[i];
        (&e.0, &e.1)
    }

    /// Adds a pin under `name`, replacing the pin of that name if there is one.
    pub fn insert(&mut self, name: String, pin: Pin)
        ensures
            final(self)@ == inserted(old(self)@, name@, pin@),
    {
        proof {
            use_type_invariant(&*self);
        }
        let mut entries: Vec<(String, Pin)> = Vec::new();
        std::mem::swap(&mut entries, &mut self.entries);
        let ghost before = entries@.map_values(|e: (String, Pin)| (e.0@, e.1@));
        assert(before == old(self)@);
        let ghost name_v = name@;
        let ghost pin_v = pin@;
        let mut i: usize = 0;
        while i < entries.len() && str_lt(entries[i].0.as_str(), name.as_str())
            invariant
                i <= entries@.len(),
                entries@.map_values(|e: (String, Pin)| (e.0@, e.1@)) == before,
                names_sorted(before),
                before == old(self)@,
                name@ == name_v,
                forall|j: int| 0 <= j < i ==> char_seq_lt(#[trigger] before[j].0, name_v),
            decreases entries@.len() - i,
        {
            i = i + 1;
        }
        // every later name comes after the first one that is not before `name`
        proof {
            assert forall|j: int| i <= j < before.len() implies !char_seq_lt(#[trigger] before[j].0, name_v) by {
                assert(!char_seq_lt(before[i as int].0, name_v));
                if j > i && char_seq_lt(before[j].0, name_v) {
                    lemma_char_seq_lt_transitive(before[i as int].0, before[j].0, name_v);
                }
            };
            lemma_count_before_prefix(before, name_v, i as int);
        }
        if i < entries.len() && str_eq(entries[i].0.as_str(), name.as_str()) {
            proof {
                assert(before[i as int].0 == name_v);
                assert((choose|k: int| 0 <= k < before.len() && #[trigger] before[k].0 == name_v)
                    == i as int) by {
                    let k = choose|k: int| 0 <= k < before.len() && #[trigger] before[k].0 == name_v;
                    lemma_sorted_distinct(before);
                    if k != i as int {
                        assert(before[k].0 != before[i as int].0);
                    }
                };
            }
            entries.set(i, (name, pin));
            proof {
                let after = entries@.map_values(|e: (String, Pin)| (e.0@, e.1@));
                assert(after =~= before.update(i as int, (name_v, pin_v)));
                assert(names_sorted(after));
            }
            self.entries = entries;
        } else {
            proof {
                assert forall|k: int| 0 <= k < before.len() implies #[trigger] before[k].0 != name_v by {
                    if k == i as int {
                    } else if k < i {
                        lemma_char_seq_lt_asymmetric(name_v, name_v);
                    } else {
                        // before[i] is after `name`, before[k] after before[i]
                        lemma_char_seq_lt_total(before[i as int].0, name_v);
                        lemma_char_seq_lt_transitive(name_v, before[i as int].0, before[k].0);
                        lemma_char_seq_lt_asymmetric(name_v, name_v);
                    }
                };
                if i < before.len() {
                    lemma_char_seq_lt_total(before[i as int].0, name_v);
                }
            }
            entries.insert(i, (name, pin));
            proof {
                let after = entries@.map_values(|e: (String, Pin)| (e.0@, e.1@));
                assert(after =~= before.insert(i as int, (name_v, pin_v)));
                assert forall|a: int, b: int| 0 <= a < b < after.len() implies char_seq_lt(
                    #[trigger] after[a].0,
                    #[trigger] after[b].0,
                ) by {
                    if b < i {
                    } else if b == i {
                    } else if a < i {
                        // after[b] == before[b - 1], which is not before `name`
                        assert(after[b] == before[b - 1]);
                        lemma_char_seq_lt_total(before[i as int].0, name_v);
                        if b - 1 > i {
                            lemma_char_seq_lt_transitive(name_v, before[i as int].0, before[b - 1].0);
                        }
                        lemma_char_seq_lt_transitive(before[a].0, name_v, before[b - 1].0);
                    } else if a == i {
                        assert(after[b] == before[b - 1]);
                        if b - 1 > i {
                            lemma_char_seq_lt_transitive(name_v, before[i as int].0, before[b - 1].0);
                        }
                    } else {
                        assert(after[a] == before[a - 1]);
                        assert(after[b] == before[b - 1]);
                    }
                };
            }
            self.entries = entries;
        }
    }
}

} // verus!
