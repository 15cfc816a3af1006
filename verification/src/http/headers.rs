//! Header fields: a mapping from names to values that keeps the order in
//! which the names were first written.
use crate::text::str_eq;
use vstd::prelude::*;
use vstd::std_specs::cmp::PartialEqSpecImpl;

verus! {

/// Position of the first field of `h` at or after `from` that is named
/// `name`, or `h.len()` where there is none.
pub open spec fn position(h: Seq<(Seq<char>, Seq<char>)>, name: Seq<char>, from: int) -> int
    decreases h.len() - from,
{
    if from < 0 || from >= h.len() {
        h.len() as int
    } else if h[from].0 == name {
        from
    } else {
        position(h, name, from + 1)
    }
}

/// Whether `h` holds a field named `name`.
pub open spec fn has_name(h: Seq<(Seq<char>, Seq<char>)>, name: Seq<char>) -> bool {
    position(h, name, 0) < h.len()
}

/// The value of the field named `name`, where `h` holds one.
pub open spec fn value_of(h: Seq<(Seq<char>, Seq<char>)>, name: Seq<char>) -> Seq<char>
    recommends
        has_name(h, name),
{
    h[position(h, name, 0)].1
}

/// `h` after writing `value` under `name`: an existing field keeps its place
/// and takes the new value, a new one goes to the end.
pub open spec fn put(h: Seq<(Seq<char>, Seq<char>)>, name: Seq<char>, value: Seq<char>) -> Seq<
    (Seq<char>, Seq<char>),
> {
    let at = position(h, name, 0);
    if at < h.len() {
        h.update(at, (name, value))
    } else {
        h.push((name, value))
    }
}

/// No name occurs twice in `h`.
pub open spec fn distinct_names(h: Seq<(Seq<char>, Seq<char>)>) -> bool {
    forall|i: int, j: int| 0 <= i < j < h.len() ==> h[i].0 != h[j].0
}

/// The mapping that the fields of `h` stand for.
pub open spec fn as_map(h: Seq<(Seq<char>, Seq<char>)>) -> Map<Seq<char>, Seq<char>> {
    Map::new(|name: Seq<char>| has_name(h, name), |name: Seq<char>| value_of(h, name))
}

/// The fields that a vector of string pairs holds.
pub open spec fn fields_of(entries: Seq<(String, String)>) -> Seq<(Seq<char>, Seq<char>)> {
    Seq::new(entries.len(), |i: int| (entries[i].0@, entries[i].1@))
}

/// `position` stays within `from..=h.len()`, passes over no field named
/// `name` and stops on one or at the end.
pub proof fn lemma_position(h: Seq<(Seq<char>, Seq<char>)>, name: Seq<char>, from: int)
    requires
        0 <= from <= h.len(),
    ensures
        from <= position(h, name, from) <= h.len(),
        forall|j: int| from <= j < position(h, name, from) ==> (#[trigger] h[j]).0 != name,
        position(h, name, from) < h.len() ==> h[position(h, name, from)].0 == name,
    decreases h.len() - from,
{
    if from < h.len() && h[from].0 != name {
        lemma_position(h, name, from + 1);
    }
}

/// Writing a field keeps the names distinct.
pub proof fn lemma_put_distinct(h: Seq<(Seq<char>, Seq<char>)>, name: Seq<char>, value: Seq<char>)
    requires
        distinct_names(h),
    ensures
        distinct_names(put(h, name, value)),
{
    lemma_position(h, name, 0);
}

/// A field named `name` at `i` bounds the position of the first such field.
pub proof fn lemma_position_least(h: Seq<(Seq<char>, Seq<char>)>, name: Seq<char>, i: int)
    requires
        0 <= i < h.len(),
        h[i].0 == name,
    ensures
        position(h, name, 0) <= i,
{
    lemma_position(h, name, 0);
}

/// What a lookup finds after a write: under the written name the written
/// value, under every other name what was there before.
pub proof fn lemma_put_lookup(
    h: Seq<(Seq<char>, Seq<char>)>,
    name: Seq<char>,
    value: Seq<char>,
    k: Seq<char>,
)
    ensures
        has_name(put(h, name, value), k) == (k == name || has_name(h, k)),
        has_name(put(h, name, value), k) ==> value_of(put(h, name, value), k) == if k == name {
            value
        } else {
            value_of(h, k)
        },
{
    let g = put(h, name, value);
    let at = position(h, name, 0);
    let p = position(h, k, 0);
    let q = position(g, k, 0);
    lemma_position(h, name, 0);
    lemma_position(h, k, 0);
    lemma_position(g, k, 0);
    if at < h.len() {
        assert forall|i: int| 0 <= i < h.len() implies (#[trigger] g[i]).0 == h[i].0 by {}
        if p < h.len() {
            lemma_position_least(g, k, p);
            lemma_position_least(h, k, q);
        } else {
            if q < g.len() {
                lemma_position_least(h, k, q);
            }
        }
    } else {
        assert forall|i: int| 0 <= i < h.len() implies #[trigger] g[i] == h[i] by {}
        if p < h.len() {
            lemma_position_least(g, k, p);
            lemma_position_least(h, k, q);
            if k == name {
                lemma_position_least(h, name, p);
            }
        } else {
            if k == name {
                lemma_position_least(g, k, h.len() as int);
                if q < h.len() {
                    lemma_position_least(h, k, q);
                }
            } else {
                if q < g.len() {
                    if q < h.len() {
                        lemma_position_least(h, k, q);
                    }
                }
            }
        }
    }
}

/// Header fields are a mapping, and the last write wins: writing `value`
/// under `name` is `insert` on the mapping that the fields stand for.
pub proof fn lemma_put_is_insert(h: Seq<(Seq<char>, Seq<char>)>, name: Seq<char>, value: Seq<char>)
    ensures
        as_map(put(h, name, value)) == as_map(h).insert(name, value),
{
    let g = put(h, name, value);
    assert forall|k: Seq<char>|
        as_map(g).dom().contains(k) == #[trigger] as_map(h).insert(name, value).dom().contains(
            k,
        ) by {
        lemma_put_lookup(h, name, value, k);
    }
    assert forall|k: Seq<char>| #[trigger] as_map(g).dom().contains(k) implies as_map(g)[k]
        == as_map(h).insert(name, value)[k] by {
        lemma_put_lookup(h, name, value, k);
    }
}

/// Whether every field of `a` stands in `b` with the same value.
pub open spec fn covered_by(a: Seq<(Seq<char>, Seq<char>)>, b: Seq<(Seq<char>, Seq<char>)>) -> bool {
    forall|i: int|
        0 <= i < a.len() ==> has_name(b, (#[trigger] a[i]).0) && value_of(b, a[i].0) == a[i].1
}

/// Fields with distinct names stand for the same mapping exactly when each
/// side holds every field of the other.
pub proof fn lemma_same_map(a: Seq<(Seq<char>, Seq<char>)>, b: Seq<(Seq<char>, Seq<char>)>)
    requires
        distinct_names(a),
        distinct_names(b),
    ensures
        (as_map(a) == as_map(b)) == (covered_by(a, b) && covered_by(b, a)),
{
    if covered_by(a, b) && covered_by(b, a) {
        assert forall|k: Seq<char>|
            as_map(a).dom().contains(k) == #[trigger] as_map(b).dom().contains(k) by {
            lemma_position(a, k, 0);
            lemma_position(b, k, 0);
        }
        assert forall|k: Seq<char>| #[trigger] as_map(a).dom().contains(k) implies as_map(a)[k]
            == as_map(b)[k] by {
            lemma_position(a, k, 0);
        }
        assert(as_map(a) =~= as_map(b));
    }
    if as_map(a) == as_map(b) {
        lemma_map_covers(a, b);
        lemma_map_covers(b, a);
    }
}

/// Where two sequences of fields stand for the same mapping and the names
/// of the first are distinct, the second holds every field of the first.
proof fn lemma_map_covers(a: Seq<(Seq<char>, Seq<char>)>, b: Seq<(Seq<char>, Seq<char>)>)
    requires
        distinct_names(a),
        as_map(a) == as_map(b),
    ensures
        covered_by(a, b),
{
    assert forall|i: int| 0 <= i < a.len() implies has_name(b, (#[trigger] a[i]).0) && value_of(
        b,
        a[i].0,
    ) == a[i].1 by {
        let k = a[i].0;
        lemma_position_least(a, k, i);
        lemma_position(a, k, 0);
        assert(as_map(a).dom().contains(k));
        assert(as_map(a)[k] == as_map(b)[k]);
    }
}

/// The header fields of a message.
#[derive(Debug)]
pub struct Headers {
    entries: Vec<(String, String)>,
}

impl View for Headers {
    type V = Seq<(Seq<char>, Seq<char>)>;

    closed spec fn view(&self) -> Seq<(Seq<char>, Seq<char>)> {
        fields_of(self.entries@)
    }
}

impl Headers {
    #[verifier::type_invariant]
    spec fn well_formed(&self) -> bool {
        distinct_names(fields_of(self.entries@))
    }

    /// No fields.
    pub fn new() -> (h: Headers)
        ensures
            h@ == Seq::<(Seq<char>, Seq<char>)>::empty(),
    {
        let h = Headers { entries: Vec::new() };
        h
    }

    /// The number of fields.
    pub fn len(&self) -> (n: usize)
        ensures
            n == self@.len(),
    {
        self.entries.len()
    }

    /// Whether there is no field.
    pub fn is_empty(&self) -> (r: bool)
        ensures
            r == (self@.len() == 0),
    {
        self.entries.len() == 0
    }

    /// The fields in order, each a name and its value.
    pub fn entries(&self) -> (r: &Vec<(String, String)>)
        ensures
            fields_of(r@) == self@,
            distinct_names(self@),
    {
        proof {
            use_type_invariant(self);
        }
        &self.entries
    }

    /// Position of the field named `name`; the number of fields where there
    /// is none.
    fn find(&self, name: &str) -> (at: usize)
        ensures
            at == position(self@, name@, 0),
            at <= self@.len(),
            self@.len() == self.entries.len(),
    {
        let mut i: usize = 0;
        while i < self.entries.len() && !str_eq(self.entries[i].0.as_str(), name)
            invariant
                i <= self.entries.len(),
                position(self@, name@, 0) == position(self@, name@, i as int),
                self@.len() == self.entries.len(),
            decreases self.entries.len() - i,
        {
            i += 1;
        }
        i
    }

    /// Whether a field is named `name`.
    pub fn contains_key(&self, name: &str) -> (r: bool)
        ensures
            r == has_name(self@, name@),
    {
        self.find(name) < self.entries.len()
    }

    /// The value of the field named `name`.
    pub fn get(&self, name: &str) -> (r: Option<&String>)
        ensures
            match r {
                Some(value) => has_name(self@, name@) && value@ == value_of(self@, name@),
                None => !has_name(self@, name@),
            },
    {
        let at = self.find(name);
        if at < self.entries.len() {
            Some(&self.entries[at].1)
        } else {
            None
        }
    }

    /// Writes `value` under `name`, in place of the value that the name had.
    pub fn insert(&mut self, name: String, value: String)
        ensures
            final(self)@ == put(old(self)@, name@, value@),
    {
        proof {
            use_type_invariant(&*self);
            lemma_put_distinct(self@, name@, value@);
        }
        let at = self.find(name.as_str());
        let mut entries: Vec<(String, String)> = Vec::new();
        std::mem::swap(&mut self.entries, &mut entries);
        if at < entries.len() {
            entries.set(at, (name, value));
        } else {
            entries.push((name, value));
        }
        assert(fields_of(entries@) =~= put(old(self)@, name@, value@));
        std::mem::swap(&mut self.entries, &mut entries);
    }
    /// Whether every field stands in `other` with the same value.
    fn covered(&self, other: &Headers) -> (r: bool)
        ensures
            r == covered_by(self@, other@),
    {
        let mut i: usize = 0;
        while i < self.entries.len()
            invariant
                i <= self.entries.len(),
                self@.len() == self.entries.len(),
                forall|j: int|
                    0 <= j < i ==> has_name(other@, (#[trigger] self@[j]).0) && value_of(
                        other@,
                        self@[j].0,
                    ) == self@[j].1,
            decreases self.entries.len() - i,
        {
            assert(self@[i as int] == (self.entries[i as int].0@, self.entries[i as int].1@));
            let same = match other.get(self.entries[i].0.as_str()) {
                Some(value) => str_eq(value.as_str(), self.entries[i].1.as_str()),
                None => false,
            };
            if !same {
                return false;
            }
            i += 1;
        }
        true
    }
}

impl PartialEq for Headers {
    /// Two sets of header fields are equal when they stand for the same
    /// mapping, in whatever order they were written.
    fn eq(&self, other: &Headers) -> (r: bool) {
        proof {
            use_type_invariant(self);
            use_type_invariant(other);
            lemma_same_map(self@, other@);
        }
        self.covered(other) && other.covered(self)
    }
}

impl PartialEqSpecImpl for Headers {
    open spec fn obeys_eq_spec() -> bool {
        true
    }

    open spec fn eq_spec(&self, other: &Headers) -> bool {
        as_map(self@) == as_map(other@)
    }
}

} // verus!
