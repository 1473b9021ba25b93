//! A table of values by name.

use vstd::prelude::*;

verus! {

/// The map that a list of names stands for, together with the list of the
/// values that belong to them, position by position.
pub open spec fn table<T>(names: Seq<Seq<char>>, values: Seq<T>) -> Map<Seq<char>, T> {
    Map::new(
        |name: Seq<char>| names.contains(name),
        |name: Seq<char>| values[names.index_of(name)],
    )
}

/// Where no name occurs twice, each position of the two lists is one entry
/// of the table.
pub proof fn lemma_table_entry<T>(names: Seq<Seq<char>>, values: Seq<T>, i: int)
    requires
        names.no_duplicates(),
        0 <= i < names.len(),
    ensures
        table(names, values).contains_key(names[i]),
        table(names, values)[names[i]] == values[i],
{
    assert(names.contains(names[i]));
    assert(names.index_of(names[i]) == i);
}

proof fn lemma_table_update<T>(names: Seq<Seq<char>>, values: Seq<T>, i: int, value: T)
    requires
        names.no_duplicates(),
        0 <= i < names.len(),
        names.len() == values.len(),
    ensures
        table(names, values.update(i, value)) == table(names, values).insert(names[i], value),
{
    let after = table(names, values.update(i, value));
    assert forall|name: Seq<char>| names.contains(name) implies #[trigger] after[name] == table(
        names,
        values,
    ).insert(names[i], value)[name] by {
        let j = names.index_of(name);
        lemma_table_entry(names, values, j);
    }
    assert(after =~= table(names, values).insert(names[i], value));
}

proof fn lemma_table_push<T>(names: Seq<Seq<char>>, values: Seq<T>, name: Seq<char>, value: T)
    requires
        names.no_duplicates(),
        !names.contains(name),
        names.len() == values.len(),
    ensures
        names.push(name).no_duplicates(),
        table(names.push(name), values.push(value)) == table(names, values).insert(name, value),
{
    let longer = names.push(name);
    assert(longer.no_duplicates()) by {
        assert forall|i: int, j: int| 0 <= i < longer.len() && 0 <= j < longer.len() && i != j
            implies longer[i] != longer[j] by {
            if i < names.len() {
                assert(names.contains(names[i]));
            }
            if j < names.len() {
                assert(names.contains(names[j]));
            }
        }
    }
    let after = table(longer, values.push(value));
    let wanted = table(names, values).insert(name, value);
    assert forall|key: Seq<char>| after.contains_key(key) <==> wanted.contains_key(key) by {
        if names.contains(key) {
            let j = names.index_of(key);
            assert(longer[j] == key);
        }
        if longer.contains(key) {
            let j = longer.index_of(key);
            if j < names.len() {
                assert(names[j] == key);
            }
        }
        assert(longer[names.len() as int] == name);
    }
    assert forall|key: Seq<char>| after.contains_key(key) implies after[key] == wanted[key] by {
        let j = longer.index_of(key);
        lemma_table_entry(longer, values.push(value), j);
        if j < names.len() {
            assert(names[j] == key);
            lemma_table_entry(names, values, j);
        }
    }
    assert(after =~= wanted);
}

proof fn lemma_table_remove<T>(names: Seq<Seq<char>>, values: Seq<T>, i: int)
    requires
        names.no_duplicates(),
        0 <= i < names.len(),
        names.len() == values.len(),
    ensures
        names.remove(i).no_duplicates(),
        table(names.remove(i), values.remove(i)) == table(names, values).remove(names[i]),
{
    let shorter = names.remove(i);
    let after = table(shorter, values.remove(i));
    let wanted = table(names, values).remove(names[i]);
    assert forall|key: Seq<char>| after.contains_key(key) <==> wanted.contains_key(key) by {
        if shorter.contains(key) {
            let j = shorter.index_of(key);
            if j < i {
                assert(names[j] == key);
            } else {
                assert(names[j + 1] == key);
            }
        }
        if names.contains(key) && key != names[i] {
            let j = names.index_of(key);
            if j < i {
                assert(shorter[j] == key);
            } else {
                assert(shorter[j - 1] == key);
            }
        }
    }
    assert forall|key: Seq<char>| after.contains_key(key) implies after[key] == wanted[key] by {
        let j = shorter.index_of(key);
        lemma_table_entry(shorter, values.remove(i), j);
        if j < i {
            lemma_table_entry(names, values, j);
        } else {
            lemma_table_entry(names, values, j + 1);
        }
    }
    assert(after =~= wanted);
}

/// One named value.
#[derive(Debug)]
struct Entry<V> {
    name: String,
    value: V,
}

/// A table of values by name, in which no name occurs twice. It keeps its
/// entries in the order in which their names first came in.
#[derive(Debug)]
pub struct Registry<V: View> {
    entries: Vec<Entry<V>>,
}

impl<V: View> View for Registry<V> {
    type V = Map<Seq<char>, V::V>;

    open spec fn view(&self) -> Map<Seq<char>, V::V> {
        table(self.names(), self.values())
    }
}

impl<V: View> Registry<V> {
    spec fn names_of(entries: Seq<Entry<V>>) -> Seq<Seq<char>> {
        Seq::new(entries.len(), |i: int| entries[i].name@)
    }

    spec fn values_of(entries: Seq<Entry<V>>) -> Seq<V::V> {
        Seq::new(entries.len(), |i: int| entries[i].value@)
    }

    /// The names, in the order in which the registry keeps them.
    pub closed spec fn names(&self) -> Seq<Seq<char>> {
        Self::names_of(self.entries@)
    }

    /// The values, each at the position of its name.
    pub closed spec fn values(&self) -> Seq<V::V> {
        Self::values_of(self.entries@)
    }

    #[verifier::type_invariant]
    spec fn names_are_distinct(&self) -> bool {
        self.names().no_duplicates()
    }

    /// A registry without entries.
    pub fn new() -> (registry: Self)
        ensures
            registry.names() == Seq::<Seq<char>>::empty(),
            registry.values() == Seq::<V::V>::empty(),
            registry@ == Map::<Seq<char>, V::V>::empty(),
    {
        let registry = Registry { entries: Vec::new() };
        assert(registry.names() =~= Seq::<Seq<char>>::empty());
        assert(registry.values() =~= Seq::<V::V>::empty());
        assert(registry@ =~= Map::<Seq<char>, V::V>::empty());
        registry
    }

    /// The number of entries.
    pub fn len(&self) -> (n: usize)
        ensures
            n == self.names().len(),
            n == self.values().len(),
            n == self@.len(),
            self@.dom().finite(),
            self.names().no_duplicates(),
    {
        proof {
            use_type_invariant(self);
            self.names().unique_seq_to_set();
            assert(self@.dom() =~= self.names().to_set());
        }
        self.entries.len()
    }

    /// The position of `name` among the names, if it is one of them.
    fn position(&self, name: &str) -> (found: Option<usize>)
        ensures
            match found {
                Some(i) => i < self.names().len() && self.names()[i as int] == name@,
                None => !self.names().contains(name@),
            },
    {
        let wanted = name.to_owned();
        let mut i: usize = 0;
        while i < self.entries.len()
            invariant
                i <= self.entries@.len(),
                wanted@ == name@,
                forall|j: int| 0 <= j < i ==> self.names()[j] != name@,
            decreases self.entries@.len() - i,
        {
            if self.entries[i].name == wanted {
                return Some(i);
            }
            i += 1;
        }
        None
    }

    /// Whether `name` has an entry.
    pub fn contains(&self, name: &str) -> (found: bool)
        ensures
            found == self@.contains_key(name@),
    {
        self.position(name).is_some()
    }

    /// The value entered under `name`.
    pub fn get(&self, name: &str) -> (found: Option<&V>)
        ensures
            found is Some <==> self@.contains_key(name@),
            found matches Some(value) ==> value@ == self@[name@],
    {
        match self.position(name) {
            Some(i) => {
                proof {
                    use_type_invariant(self);
                    lemma_table_entry(self.names(), self.values(), i as int);
                }
                Some(&self.entries[i].value)
            },
            None => None,
        }
    }

    /// Enters `value` under `name`. The value of a name that is already there
    /// is replaced where it stands; a new name goes to the end.
    pub fn insert(&mut self, name: String, value: V)
        ensures
            final(self)@ == old(self)@.insert(name@, value@),
            final(self).names() == if old(self)@.contains_key(name@) {
                old(self).names()
            } else {
                old(self).names().push(name@)
            },
    {
        proof {
            use_type_invariant(&*self);
        }
        let found = self.position(name.as_str());
        let ghost names = self.names();
        let ghost values = self.values();
        let mut entries: Vec<Entry<V>> = Vec::new();
        std::mem::swap(&mut entries, &mut self.entries);
        match found {
            Some(i) => {
                entries.set(i, Entry { name, value });
                proof {
                    lemma_table_update(names, values, i as int, value@);
                    assert(Self::names_of(entries@) =~= names);
                    assert(Self::values_of(entries@) =~= values.update(i as int, value@));
                }
            },
            None => {
                entries.push(Entry { name, value });
                proof {
                    lemma_table_push(names, values, name@, value@);
                    assert(Self::names_of(entries@) =~= names.push(name@));
                    assert(Self::values_of(entries@) =~= values.push(value@));
                }
            },
        }
        self.entries = entries;
    }

    /// Takes the entry of `name` out and returns its value. The entries that
    /// stay keep their order.
    pub fn remove(&mut self, name: &str) -> (removed: Option<V>)
        ensures
            final(self)@ == old(self)@.remove(name@),
            removed is Some <==> old(self)@.contains_key(name@),
            removed matches Some(value) ==> value@ == old(self)@[name@],
            final(self).names() == if old(self)@.contains_key(name@) {
                old(self).names().remove(old(self).names().index_of(name@))
            } else {
                old(self).names()
            },
    {
        proof {
            use_type_invariant(&*self);
        }
        let ghost names = self.names();
        let ghost values = self.values();
        match self.position(name) {
            Some(i) => {
                let mut entries: Vec<Entry<V>> = Vec::new();
                std::mem::swap(&mut entries, &mut self.entries);
                let entry = entries.remove(i);
                proof {
                    lemma_table_entry(names, values, i as int);
                    lemma_table_remove(names, values, i as int);
                    assert(names.index_of(name@) == i);
                    assert(Self::names_of(entries@) =~= names.remove(i as int));
                    assert(Self::values_of(entries@) =~= values.remove(i as int));
                }
                self.entries = entries;
                Some(entry.value)
            },
            None => {
                assert(self@ =~= self@.remove(name@));
                None
            },
        }
    }

    /// The name and the value at position `i`, for each position below `len()`.
    pub fn entry(&self, i: usize) -> (found: Option<(&str, &V)>)
        ensures
            found is Some <==> i < self.names().len(),
            found matches Some((name, value)) ==> {
                &&& name@ == self.names()[i as int]
                &&& value@ == self.values()[i as int]
                &&& self@.contains_key(name@)
                &&& self@[name@] == value@
            },
    {
        if i < self.entries.len() {
            proof {
                use_type_invariant(self);
                lemma_table_entry(self.names(), self.values(), i as int);
            }
            Some((self.entries[i].name.as_str(), &self.entries[i].value))
        } else {
            None
        }
    }
}

} // verus!
