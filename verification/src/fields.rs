use crate::manager::FieldType;
use vstd::prelude::*;
use vstd::string::StringExecFns;

verus! {

/// The fields of a collection: a map from field name to field type, kept
/// as a list in which no name occurs twice.
#[derive(Debug)]
pub struct FieldMap {
    entries: Vec<(String, FieldType)>,
}

/// Whether no name occurs twice in `entries`.
spec fn distinct_names(entries: Seq<(String, FieldType)>) -> bool {
    forall|i: int, j: int|
        0 <= i < j < entries.len() ==> (#[trigger] entries[i]).0@ != (#[trigger] entries[j]).0@
}

/// Whether some entry of `entries` has the name `name`.
spec fn has_name(entries: Seq<(String, FieldType)>, name: Seq<char>) -> bool {
    exists|i: int| 0 <= i < entries.len() && (#[trigger] entries[i]).0@ == name
}

/// The map that a list of entries stands for. A later entry would hide an
/// earlier one of the same name.
spec fn to_map(entries: Seq<(String, FieldType)>) -> Map<Seq<char>, FieldType>
    decreases entries.len(),
{
    if entries.len() == 0 {
        Map::empty()
    } else {
        to_map(entries.drop_last()).insert(entries.last().0@, entries.last().1)
    }
}

/// The map's keys are the names that occur in the list.
proof fn lemma_to_map_dom(entries: Seq<(String, FieldType)>)
    ensures
        forall|name: Seq<char>|
            #![trigger to_map(entries).dom().contains(name)]
            #![trigger has_name(entries, name)]
            to_map(entries).dom().contains(name) <==> has_name(entries, name),
    decreases entries.len(),
{
    if entries.len() > 0 {
        let front = entries.drop_last();
        lemma_to_map_dom(front);
        assert forall|name: Seq<char>|
            #![trigger to_map(entries).dom().contains(name)]
            #![trigger has_name(entries, name)]
            to_map(entries).dom().contains(name) <==> has_name(entries, name) by {
            if to_map(entries).dom().contains(name) {
                if name == entries.last().0@ {
                    assert(entries[entries.len() - 1].0@ == name);
                } else {
                    assert(to_map(front).dom().contains(name));
                    assert(has_name(front, name));
                    let i = choose|i: int| 0 <= i < front.len() && (#[trigger] front[i]).0@ == name;
                    assert(entries[i].0@ == name);
                }
            }
            if has_name(entries, name) {
                let i = choose|i: int|
                    0 <= i < entries.len() && (#[trigger] entries[i]).0@ == name;
                if i < entries.len() - 1 {
                    assert(front[i].0@ == name);
                    assert(has_name(front, name));
                }
            }
        }
    }
}

/// Where no name occurs twice, each entry's name maps to that entry's type.
proof fn lemma_to_map_value(entries: Seq<(String, FieldType)>, i: int)
    requires
        distinct_names(entries),
        0 <= i < entries.len(),
    ensures
        to_map(entries).dom().contains(entries[i].0@),
        to_map(entries)[entries[i].0@] == entries[i].1,
    decreases entries.len(),
{
    let front = entries.drop_last();
    if i < entries.len() - 1 {
        assert forall|a: int, b: int| 0 <= a < b < front.len() implies (#[trigger] front[a]).0@ != (
        #[trigger] front[b]).0@ by {
            assert(entries[a].0@ != entries[b].0@);
        }
        lemma_to_map_value(front, i);
        assert(front[i] == entries[i]);
        assert(entries[i].0@ != entries[entries.len() - 1].0@);
    }
}

/// Where no name occurs twice, the map has as many keys as the list has
/// entries.
proof fn lemma_to_map_len(entries: Seq<(String, FieldType)>)
    requires
        distinct_names(entries),
    ensures
        to_map(entries).dom().finite(),
        to_map(entries).dom().len() == entries.len(),
    decreases entries.len(),
{
    if entries.len() > 0 {
        let front = entries.drop_last();
        assert forall|a: int, b: int| 0 <= a < b < front.len() implies (#[trigger] front[a]).0@ != (
        #[trigger] front[b]).0@ by {
            assert(entries[a].0@ != entries[b].0@);
        }
        lemma_to_map_len(front);
        lemma_to_map_dom(front);
        let last_name = entries.last().0@;
        if has_name(front, last_name) {
            let i = choose|i: int| 0 <= i < front.len() && (#[trigger] front[i]).0@ == last_name;
            assert(entries[i].0@ != entries[entries.len() - 1].0@);
        }
        assert(!to_map(front).dom().contains(last_name));
    }
}

/// Replacing the entry of a name by another entry of the same name is an
/// insertion into the map.
proof fn lemma_to_map_update(
    entries: Seq<(String, FieldType)>,
    i: int,
    name: String,
    field_type: FieldType,
)
    requires
        distinct_names(entries),
        0 <= i < entries.len(),
        entries[i].0@ == name@,
    ensures
        distinct_names(entries.update(i, (name, field_type))),
        to_map(entries.update(i, (name, field_type))) == to_map(entries).insert(
            name@,
            field_type,
        ),
{
    let updated = entries.update(i, (name, field_type));
    assert forall|a: int, b: int| 0 <= a < b < updated.len() implies (#[trigger] updated[a]).0@ != (
    #[trigger] updated[b]).0@ by {
        assert(entries[a].0@ != entries[b].0@);
    }
    lemma_to_map_dom(entries);
    lemma_to_map_dom(updated);
    let expected = to_map(entries).insert(name@, field_type);
    assert forall|key: Seq<char>| to_map(updated).dom().contains(key) <==> expected.dom().contains(
        key,
    ) by {
        if has_name(updated, key) {
            let j = choose|j: int| 0 <= j < updated.len() && (#[trigger] updated[j]).0@ == key;
            assert(entries[j].0@ == key);
        }
        if has_name(entries, key) {
            let j = choose|j: int| 0 <= j < entries.len() && (#[trigger] entries[j]).0@ == key;
            assert(updated[j].0@ == key);
        }
        if key == name@ {
            assert(updated[i].0@ == key);
        }
    }
    assert forall|key: Seq<char>| to_map(updated).dom().contains(key) implies to_map(updated)[key]
        == expected[key] by {
        let j = choose|j: int| 0 <= j < updated.len() && (#[trigger] updated[j]).0@ == key;
        lemma_to_map_value(updated, j);
        if j != i {
            lemma_to_map_value(entries, j);
            if j < i {
                assert(entries[j].0@ != entries[i].0@);
            } else {
                assert(entries[i].0@ != entries[j].0@);
            }
        }
    }
    assert(to_map(updated) =~= expected);
}

impl View for FieldMap {
    type V = Map<Seq<char>, FieldType>;

    closed spec fn view(&self) -> Map<Seq<char>, FieldType> {
        to_map(self.entries@)
    }
}

impl Clone for FieldMap {
    /// A map with the same fields.
    fn clone(&self) -> (copy: FieldMap)
        ensures
            copy@ == self@,
    {
        proof {
            use_type_invariant(self);
        }
        let mut entries: Vec<(String, FieldType)> = Vec::new();
        let mut i: usize = 0;
        while i < self.entries.len()
            invariant
                i <= self.entries.len(),
                entries@ == self.entries@.take(i as int),
            decreases self.entries.len() - i,
        {
            entries.push((self.entries[i].0.clone(), self.entries[i].1));
            proof {
                assert(entries@ =~= self.entries@.take(i + 1));
            }
            i = i + 1;
        }
        proof {
            assert(entries@ =~= self.entries@);
        }
        FieldMap { entries }
    }
}

impl FieldMap {
    #[verifier::type_invariant]
    spec fn well_formed(&self) -> bool {
        distinct_names(self.entries@)
    }

    /// A map without fields.
    pub fn new() -> (fields: FieldMap)
        ensures
            fields@ == Map::<Seq<char>, FieldType>::empty(),
    {
        FieldMap { entries: Vec::new() }
    }

    /// The number of fields.
    pub fn len(&self) -> (n: usize)
        ensures
            self@.dom().finite(),
            n == self@.dom().len(),
    {
        proof {
            use_type_invariant(self);
            lemma_to_map_len(self.entries@);
        }
        self.entries.len()
    }

    /// The place of the entry named `name`, or the number of entries where
    /// there is none.
    fn position(&self, name: &String) -> (i: usize)
        ensures
            i <= self.entries@.len(),
            i < self.entries@.len() ==> self.entries@[i as int].0@ == name@,
            forall|k: int| 0 <= k < i ==> (#[trigger] self.entries@[k]).0@ != name@,
    {
        let mut i: usize = 0;
        while i < self.entries.len()
            invariant
                i <= self.entries.len(),
                forall|k: int| 0 <= k < i ==> (#[trigger] self.entries@[k]).0@ != name@,
            decreases self.entries.len() - i,
        {
            if self.entries[i].0 == *name {
                return i;
            }
            i = i + 1;
        }
        i
    }

    /// The type of the field `name`, if the collection has such a field.
    pub fn get(&self, name: &str) -> (found: Option<FieldType>)
        ensures
            found == if self@.dom().contains(name@) {
                Some(self@[name@])
            } else {
                None
            },
    {
        proof {
            use_type_invariant(self);
            lemma_to_map_dom(self.entries@);
        }
        let wanted = String::from_str(name);
        let i = self.position(&wanted);
        if i < self.entries.len() {
            proof {
                lemma_to_map_value(self.entries@, i as int);
            }
            Some(self.entries[i].1)
        } else {
            assert(!has_name(self.entries@, name@));
            None
        }
    }

    /// Gives the field `name` the type `field_type`, and returns the type
    /// that it had before, if it was there.
    pub fn insert(&mut self, name: String, field_type: FieldType) -> (previous: Option<FieldType>)
        ensures
            final(self)@ == old(self)@.insert(name@, field_type),
            previous == if old(self)@.dom().contains(name@) {
                Some(old(self)@[name@])
            } else {
                None
            },
    {
        proof {
            use_type_invariant(&*self);
            lemma_to_map_dom(self.entries@);
        }
        let i = self.position(&name);
        let mut entries: Vec<(String, FieldType)> = Vec::new();
        std::mem::swap(&mut entries, &mut self.entries);
        let previous = if i < entries.len() {
            let previous = entries[i].1;
            proof {
                lemma_to_map_value(entries@, i as int);
                lemma_to_map_update(entries@, i as int, name, field_type);
            }
            entries.set(i, (name, field_type));
            Some(previous)
        } else {
            proof {
                assert(!has_name(entries@, name@));
                let grown = entries@.push((name, field_type));
                assert(grown.drop_last() == entries@);
                assert forall|a: int, b: int| 0 <= a < b < grown.len() implies (
                #[trigger] grown[a]).0@ != (#[trigger] grown[b]).0@ by {
                    if b < entries@.len() {
                        assert(entries@[a].0@ != entries@[b].0@);
                    } else {
                        assert(entries@[a].0@ != name@);
                    }
                }
            }
            entries.push((name, field_type));
            None
        };
        self.entries = entries;
        previous
    }
}

} // verus!
