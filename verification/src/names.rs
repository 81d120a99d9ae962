use vstd::prelude::*;

verus! {

/// No name stands at two places of the sequence.
pub open spec fn names_distinct<V>(entries: Seq<(Seq<char>, V)>) -> bool {
    forall|i: int, j: int|
        0 <= i < j < entries.len() ==> (#[trigger] entries[i]).0 != (#[trigger] entries[j]).0
}

/// The name stands somewhere in the sequence.
pub open spec fn has_name<V>(entries: Seq<(Seq<char>, V)>, name: Seq<char>) -> bool {
    exists|i: int| 0 <= i < entries.len() && (#[trigger] entries[i]).0 == name
}

/// A place at which the name stands, where it stands at one.
pub open spec fn place_of<V>(entries: Seq<(Seq<char>, V)>, name: Seq<char>) -> int {
    choose|i: int| 0 <= i < entries.len() && (#[trigger] entries[i]).0 == name
}

/// The entries as a map from each name to its value.
pub open spec fn as_map<V>(entries: Seq<(Seq<char>, V)>) -> Map<Seq<char>, V> {
    Map::new(|name: Seq<char>| has_name(entries, name), |name: Seq<char>| entries[place_of(entries, name)].1)
}

/// The entries after a value was put under a name: in place of the value that
/// the name had, or at the end where the name is new.
pub open spec fn put<V>(entries: Seq<(Seq<char>, V)>, name: Seq<char>, value: V) -> Seq<
    (Seq<char>, V),
> {
    if has_name(entries, name) {
        entries.update(place_of(entries, name), (name, value))
    } else {
        entries.push((name, value))
    }
}

/// The entries after a name was taken out.
pub open spec fn take<V>(entries: Seq<(Seq<char>, V)>, name: Seq<char>) -> Seq<(Seq<char>, V)> {
    if has_name(entries, name) {
        entries.remove(place_of(entries, name))
    } else {
        entries
    }
}

/// The value under a name, if the name has one.
pub open spec fn value_of<V>(entries: Seq<(Seq<char>, V)>, name: Seq<char>) -> Option<V> {
    if has_name(entries, name) {
        Some(entries[place_of(entries, name)].1)
    } else {
        None
    }
}

/// The entries with each value replaced by what `f` makes of it.
pub open spec fn project<V, W>(entries: Seq<(Seq<char>, V)>, f: spec_fn(V) -> W) -> Seq<
    (Seq<char>, W),
> {
    Seq::new(entries.len(), |i: int| (entries[i].0, f(entries[i].1)))
}

/// In a sequence of distinct names, a name found at a place stands at that
/// place and nowhere else.
pub proof fn lemma_place_of<V>(entries: Seq<(Seq<char>, V)>, i: int)
    requires
        names_distinct(entries),
        0 <= i < entries.len(),
    ensures
        has_name(entries, entries[i].0),
        place_of(entries, entries[i].0) == i,
        as_map(entries)[entries[i].0] == entries[i].1,
{
    let j = place_of(entries, entries[i].0);
    if j < i {
        assert(entries[j].0 != entries[i].0);
    } else if i < j {
        assert(entries[i].0 != entries[j].0);
    }
}

struct Entry<V> {
    name: String,
    value: V,
}

/// A map from names to values that keeps its entries in the order in which
/// their names came in.
pub struct NameMap<V> {
    entries: Vec<Entry<V>>,
}

impl<V> View for NameMap<V> {
    type V = Seq<(Seq<char>, V)>;

    closed spec fn view(&self) -> Seq<(Seq<char>, V)> {
        Seq::new(self.entries.len() as nat, |i: int| (self.entries[i].name@, self.entries[i].value))
    }
}

impl<V> NameMap<V> {
    /// Every name occurs once.
    pub open spec fn wf(&self) -> bool {
        names_distinct(self@)
    }

    /// An empty map.
    pub fn new() -> (map: Self)
        ensures
            map@ == Seq::<(Seq<char>, V)>::empty(),
            map.wf(),
    {
        NameMap { entries: Vec::new() }
    }

    /// The number of entries.
    pub fn len(&self) -> (n: usize)
        ensures
            n == self@.len(),
    {
        self.entries.len()
    }

    /// The name at a place.
    pub fn name_at(&self, i: usize) -> (name: &String)
        requires
            i < self@.len(),
        ensures
            name@ == self@[i as int].0,
    {
        &self.entries[i].name
    }

    /// The value at a place.
    pub fn value_at(&self, i: usize) -> (value: &V)
        requires
            i < self@.len(),
        ensures
            *value == self@[i as int].1,
    {
        &self.entries[i].value
    }

    /// The place at which a name stands.
    pub fn position(&self, name: &String) -> (place: Option<usize>)
        requires
            self.wf(),
        ensures
            place.is_some() == has_name(self@, name@),
            place matches Some(i) ==> i < self@.len() && self@[i as int].0 == name@ && i
                == place_of(self@, name@),
    {
        let mut i: usize = 0;
        while i < self.entries.len()
            invariant
                i <= self.entries.len(),
                self.wf(),
                forall|j: int| 0 <= j < i ==> (#[trigger] self@[j]).0 != name@,
            decreases self.entries.len() - i,
        {
            if self.entries[i].name == *name {
                proof {
                    lemma_place_of(self@, i as int);
                }
                return Some(i);
            }
            i += 1;
        }
        None
    }

    /// Whether the name has an entry.
    pub fn contains_key(&self, name: &String) -> (found: bool)
        requires
            self.wf(),
        ensures
            found == has_name(self@, name@),
            found == as_map(self@).contains_key(name@),
    {
        self.position(name).is_some()
    }

    /// The value under a name.
    pub fn get(&self, name: &String) -> (value: Option<&V>)
        requires
            self.wf(),
        ensures
            match value {
                Some(v) => value_of(self@, name@) == Some(*v),
                None => value_of(self@, name@) is None,
            },
    {
        match self.position(name) {
            Some(i) => Some(&self.entries[i].value),
            None => None,
        }
    }

    /// Puts a value under a name. A name that is new goes to the end; one
    /// that is there keeps its place, and the value that it had comes back.
    pub fn insert(&mut self, name: String, value: V) -> (previous: Option<V>)
        requires
            old(self).wf(),
        ensures
            final(self).wf(),
            previous == value_of(old(self)@, name@),
            final(self)@ == put(old(self)@, name@, value),
            as_map(final(self)@) == as_map(old(self)@).insert(name@, value),
    {
        let ghost before = self@;
        match self.position(&name) {
            Some(i) => {
                let mut entry = Entry { name, value };
                std::mem::swap(&mut self.entries[i], &mut entry);
                assert(self@ == before.update(i as int, (name@, value)));
                proof {
                    lemma_put(before, name@, value);
                }
                Some(entry.value)
            },
            None => {
                self.entries.push(Entry { name, value });
                assert(self@ == before.push((name@, value)));
                proof {
                    lemma_put(before, name@, value);
                }
                None
            },
        }
    }

    /// Takes a name out, and gives back the value that it had.
    pub fn remove(&mut self, name: &String) -> (removed: Option<V>)
        requires
            old(self).wf(),
        ensures
            final(self).wf(),
            removed == value_of(old(self)@, name@),
            final(self)@ == take(old(self)@, name@),
            as_map(final(self)@) == as_map(old(self)@).remove(name@),
    {
        let ghost before = self@;
        match self.position(name) {
            Some(i) => {
                let entry = self.entries.remove(i);
                assert(self@ == before.remove(i as int));
                proof {
                    lemma_take(before, name@);
                }
                Some(entry.value)
            },
            None => {
                proof {
                    lemma_take(before, name@);
                }
                None
            },
        }
    }

    /// Takes every entry out.
    pub fn clear(&mut self)
        ensures
            final(self)@ == Seq::<(Seq<char>, V)>::empty(),
            final(self).wf(),
    {
        self.entries.clear();
    }
}

/// Putting a value under a name keeps the names distinct, sets that name and
/// leaves every other name as it was.
pub proof fn lemma_put<V>(entries: Seq<(Seq<char>, V)>, name: Seq<char>, value: V)
    requires
        names_distinct(entries),
    ensures
        names_distinct(put(entries, name, value)),
        as_map(put(entries, name, value)) == as_map(entries).insert(name, value),
        has_name(put(entries, name, value), name),
        value_of(put(entries, name, value), name) == Some(value),
        forall|other: Seq<char>|
            other != name ==> has_name(put(entries, name, value), other) == has_name(
                entries,
                other,
            ) && #[trigger] value_of(put(entries, name, value), other) == value_of(entries, other),
{
    let after = put(entries, name, value);
    let p = if has_name(entries, name) {
        place_of(entries, name)
    } else {
        entries.len() as int
    };
    assert(after[p] == (name, value));
    assert forall|i: int, j: int| 0 <= i < j < after.len() implies (#[trigger] after[i]).0 != (
    #[trigger] after[j]).0 by {
        if i != p && j != p {
            assert(entries[i].0 != entries[j].0);
        } else if i == p && has_name(entries, name) {
            assert(entries[i].0 != entries[j].0);
        } else if j == p && has_name(entries, name) {
            assert(entries[i].0 != entries[j].0);
        } else {
            assert(i < entries.len());
            assert(entries[i].0 != name);
        }
    }
    lemma_place_of(after, p);
    assert forall|k: Seq<char>| k != name implies has_name(after, k) == has_name(entries, k)
        && #[trigger] value_of(after, k) == value_of(entries, k) by {
        if has_name(after, k) {
            let i = place_of(after, k);
            assert(i != p);
            assert(entries[i].0 == k);
            lemma_place_of(after, i);
            lemma_place_of(entries, i);
        }
        if has_name(entries, k) {
            let i = place_of(entries, k);
            assert(after[i].0 == k);
            lemma_place_of(after, i);
            lemma_place_of(entries, i);
        }
    }
    assert forall|k: Seq<char>| #[trigger] has_name(after, k) == (k == name || has_name(entries, k)) by {
        if k != name {
            assert(value_of(after, k) == value_of(entries, k));
        }
    }
    assert forall|k: Seq<char>| has_name(after, k) implies #[trigger] as_map(after)[k] == as_map(
        entries,
    ).insert(name, value)[k] by {
        if k != name {
            assert(value_of(after, k) == value_of(entries, k));
        }
    }
    assert(as_map(after) =~= as_map(entries).insert(name, value));
}

/// Taking a name out keeps the names distinct, removes that name and leaves
/// every other name as it was.
pub proof fn lemma_take<V>(entries: Seq<(Seq<char>, V)>, name: Seq<char>)
    requires
        names_distinct(entries),
    ensures
        names_distinct(take(entries, name)),
        as_map(take(entries, name)) == as_map(entries).remove(name),
        !has_name(take(entries, name), name),
        forall|other: Seq<char>|
            other != name ==> has_name(take(entries, name), other) == has_name(entries, other)
                && #[trigger] value_of(take(entries, name), other) == value_of(entries, other),
{
    let after = take(entries, name);
    if has_name(entries, name) {
        let p = place_of(entries, name);
        assert forall|i: int, j: int| 0 <= i < j < after.len() implies (#[trigger] after[i]).0 != (
        #[trigger] after[j]).0 by {
            let oi = if i < p { i } else { i + 1 };
            let oj = if j < p { j } else { j + 1 };
            assert(entries[oi].0 != entries[oj].0);
        }
        if has_name(after, name) {
            let i = place_of(after, name);
            let oi = if i < p { i } else { i + 1 };
            assert(entries[oi].0 == name);
            lemma_place_of(entries, oi);
        }
        assert forall|k: Seq<char>| k != name implies has_name(after, k) == has_name(entries, k)
            && #[trigger] value_of(after, k) == value_of(entries, k) by {
            if has_name(after, k) {
                let i = place_of(after, k);
                let oi = if i < p { i } else { i + 1 };
                assert(entries[oi].0 == k);
                lemma_place_of(after, i);
                lemma_place_of(entries, oi);
            }
            if has_name(entries, k) {
                let oi = place_of(entries, k);
                let i = if oi < p { oi } else { oi - 1 };
                assert(after[i].0 == k);
                lemma_place_of(after, i);
                lemma_place_of(entries, oi);
            }
        }
    }
    assert forall|k: Seq<char>| #[trigger] has_name(after, k) == (k != name && has_name(entries, k)) by {
        if k != name {
            assert(value_of(after, k) == value_of(entries, k));
        }
    }
    assert forall|k: Seq<char>| has_name(after, k) implies #[trigger] as_map(after)[k] == as_map(
        entries,
    )[k] by {
        assert(value_of(after, k) == value_of(entries, k));
    }
    assert(as_map(after) =~= as_map(entries).remove(name));
}

/// Replacing the values keeps the names and their places: a name is found
/// in the projected entries exactly where it was found before.
pub proof fn lemma_project<V, W>(entries: Seq<(Seq<char>, V)>, f: spec_fn(V) -> W)
    requires
        names_distinct(entries),
    ensures
        names_distinct(project(entries, f)),
        forall|name: Seq<char>| #[trigger]
            has_name(project(entries, f), name) == has_name(entries, name),
        forall|name: Seq<char>|
            has_name(entries, name) ==> #[trigger] place_of(project(entries, f), name) == place_of(
                entries,
                name,
            ),
        forall|name: Seq<char>, value: V| #[trigger]
            project(put(entries, name, value), f) == put(project(entries, f), name, f(value)),
        forall|name: Seq<char>| #[trigger]
            project(take(entries, name), f) == take(project(entries, f), name),
{
    let projected = project(entries, f);
    assert forall|i: int, j: int| 0 <= i < j < projected.len() implies (
    #[trigger] projected[i]).0 != (#[trigger] projected[j]).0 by {
        assert(entries[i].0 != entries[j].0);
    }
    assert forall|name: Seq<char>| #[trigger]
        has_name(projected, name) == has_name(entries, name) by {
        if has_name(projected, name) {
            let i = place_of(projected, name);
            assert(entries[i].0 == name);
        }
        if has_name(entries, name) {
            let i = place_of(entries, name);
            assert(projected[i].0 == name);
        }
    }
    assert forall|name: Seq<char>| has_name(entries, name) implies #[trigger] place_of(
        projected,
        name,
    ) == place_of(entries, name) by {
        let i = place_of(entries, name);
        assert(projected[i].0 == name);
        lemma_place_of(projected, i);
    }
    assert forall|name: Seq<char>, value: V| #[trigger]
        project(put(entries, name, value), f) == put(projected, name, f(value)) by {
        assert(project(put(entries, name, value), f) =~= put(projected, name, f(value)));
    }
    assert forall|name: Seq<char>| #[trigger]
        project(take(entries, name), f) == take(projected, name) by {
        assert(project(take(entries, name), f) =~= take(projected, name));
    }
}

} // verus!
