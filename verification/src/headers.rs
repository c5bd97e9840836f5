//! A set of HTTP headers: each name at most once, with its value.

use crate::text::same_text;
use vstd::prelude::*;

verus! {

/// One header line.
#[derive(Debug)]
pub struct Header {
    pub name: String,
    pub value: String,
}

/// A header set. Its view is the map from each name to its value.
///
/// Names are compared character by character: the library writes each of
/// its header names in one spelling only.
#[derive(Debug)]
pub struct Headers {
    entries: Vec<Header>,
}

/// Whether some entry of `entries` carries `name`.
pub open spec fn names(entries: Seq<Header>, name: Seq<char>) -> bool {
    exists|i: int| 0 <= i < entries.len() && #[trigger] entries[i].name@ == name
}

/// The position of an entry of `entries` that carries `name`.
pub open spec fn position(entries: Seq<Header>, name: Seq<char>) -> int {
    choose|i: int| 0 <= i < entries.len() && #[trigger] entries[i].name@ == name
}

/// Whether no two entries of `entries` carry the same name.
pub open spec fn distinct(entries: Seq<Header>) -> bool {
    forall|i: int, j: int|
        0 <= i < j < entries.len() ==> #[trigger] entries[i].name@ != #[trigger] entries[j].name@
}

/// The map that a list of entries with distinct names stands for.
pub open spec fn as_map(entries: Seq<Header>) -> Map<Seq<char>, Seq<char>> {
    Map::new(
        |name: Seq<char>| names(entries, name),
        |name: Seq<char>| entries[position(entries, name)].value@,
    )
}

proof fn lemma_entry_in_map(entries: Seq<Header>, i: int)
    requires
        distinct(entries),
        0 <= i < entries.len(),
    ensures
        as_map(entries).contains_key(entries[i].name@),
        as_map(entries)[entries[i].name@] == entries[i].value@,
{
    let name = entries[i].name@;
    assert(names(entries, name));
    let p = position(entries, name);
    assert(0 <= p < entries.len() && entries[p].name@ == name);
    if p < i {
        assert(entries[p].name@ != entries[i].name@);
    } else if i < p {
        assert(entries[i].name@ != entries[p].name@);
    }
}

proof fn lemma_replace_entry(entries: Seq<Header>, i: int, header: Header)
    requires
        distinct(entries),
        0 <= i < entries.len(),
        entries[i].name@ == header.name@,
    ensures
        distinct(entries.update(i, header)),
        as_map(entries.update(i, header)) == as_map(entries).insert(header.name@, header.value@),
{
    let after = entries.update(i, header);
    assert forall|a: int, b: int| 0 <= a < b < after.len() implies #[trigger] after[a].name@
        != #[trigger] after[b].name@ by {
        assert(after[a].name@ == entries[a].name@);
        assert(after[b].name@ == entries[b].name@);
        assert(entries[a].name@ != entries[b].name@);
    }
    let want = as_map(entries).insert(header.name@, header.value@);
    assert forall|name: Seq<char>| as_map(after).contains_key(name) <==> want.contains_key(
        name,
    ) by {
        if names(after, name) {
            let p = position(after, name);
            assert(entries[p].name@ == after[p].name@);
        }
        if names(entries, name) {
            let p = position(entries, name);
            assert(after[p].name@ == entries[p].name@);
        }
        if name == header.name@ {
            assert(after[i].name@ == name);
        }
    }
    assert forall|name: Seq<char>| as_map(after).contains_key(name) implies as_map(after)[name]
        == want[name] by {
        let p = position(after, name);
        lemma_entry_in_map(after, p);
        if p != i {
            assert(after[p] == entries[p]);
            lemma_entry_in_map(entries, p);
            if p < i {
                assert(entries[p].name@ != entries[i].name@);
            } else {
                assert(entries[i].name@ != entries[p].name@);
            }
        }
    }
    assert(as_map(after) =~= want);
}

proof fn lemma_push_entry(entries: Seq<Header>, header: Header)
    requires
        distinct(entries),
        !names(entries, header.name@),
    ensures
        distinct(entries.push(header)),
        as_map(entries.push(header)) == as_map(entries).insert(header.name@, header.value@),
{
    let after = entries.push(header);
    let last = entries.len() as int;
    assert forall|a: int, b: int| 0 <= a < b < after.len() implies #[trigger] after[a].name@
        != #[trigger] after[b].name@ by {
        assert(after[a] == entries[a]);
        if b < last {
            assert(after[b] == entries[b]);
            assert(entries[a].name@ != entries[b].name@);
        } else {
            assert(after[b] == header);
            assert(entries[a].name@ != header.name@);
        }
    }
    let want = as_map(entries).insert(header.name@, header.value@);
    assert forall|name: Seq<char>| as_map(after).contains_key(name) <==> want.contains_key(
        name,
    ) by {
        if names(after, name) {
            let p = position(after, name);
            if p < last {
                assert(entries[p].name@ == after[p].name@);
            }
        }
        if names(entries, name) {
            let p = position(entries, name);
            assert(after[p].name@ == entries[p].name@);
        }
        if name == header.name@ {
            assert(after[last].name@ == name);
        }
    }
    assert forall|name: Seq<char>| as_map(after).contains_key(name) implies as_map(after)[name]
        == want[name] by {
        let p = position(after, name);
        lemma_entry_in_map(after, p);
        if p < last {
            assert(after[p] == entries[p]);
            lemma_entry_in_map(entries, p);
        }
    }
    assert(as_map(after) =~= want);
}

impl View for Headers {
    type V = Map<Seq<char>, Seq<char>>;

    closed spec fn view(&self) -> Map<Seq<char>, Seq<char>> {
        as_map(self.entries@)
    }
}

impl Headers {
    #[verifier::type_invariant]
    spec fn no_name_twice(self) -> bool {
        distinct(self.entries@)
    }

    /// The empty header set.
    pub fn new() -> (headers: Headers)
        ensures
            headers@ == Map::<Seq<char>, Seq<char>>::empty(),
    {
        let headers = Headers { entries: Vec::new() };
        assert(headers@ =~= Map::<Seq<char>, Seq<char>>::empty());
        headers
    }

    /// Sets `name` to `value`, in place of any value that it had.
    pub fn set(&mut self, name: &str, value: &str)
        ensures
            final(self)@ == old(self)@.insert(name@, value@),
    {
        proof {
            use_type_invariant(&*self);
        }
        let header = Header { name: String::from_str(name), value: String::from_str(value) };
        let mut entries: Vec<Header> = Vec::new();
        core::mem::swap(&mut self.entries, &mut entries);
        let mut i: usize = 0;
        while i < entries.len()
            invariant
                i <= entries@.len(),
                entries@ == old(self).entries@,
                distinct(entries@),
                header.name@ == name@,
                header.value@ == value@,
                forall|j: int| 0 <= j < i ==> (#[trigger] entries@[j]).name@ != name@,
            decreases entries@.len() - i,
        {
            if same_text(entries[i].name.as_str(), name) {
                proof {
                    lemma_replace_entry(entries@, i as int, header);
                }
                entries.set(i, header);
                self.entries = entries;
                return ;
            }
            i = i + 1;
        }
        proof {
            lemma_push_entry(entries@, header);
        }
        entries.push(header);
        self.entries = entries;
    }

    /// The value that `name` has, if it has one.
    pub fn get(&self, name: &str) -> (value: Option<&str>)
        ensures
            match value {
                Some(text) => self@.contains_key(name@) && self@[name@] == text@,
                None => !self@.contains_key(name@),
            },
    {
        proof {
            use_type_invariant(self);
        }
        let mut i: usize = 0;
        while i < self.entries.len()
            invariant
                i <= self.entries@.len(),
                distinct(self.entries@),
                forall|j: int| 0 <= j < i ==> (#[trigger] self.entries@[j]).name@ != name@,
            decreases self.entries@.len() - i,
        {
            if same_text(self.entries[i].name.as_str(), name) {
                proof {
                    lemma_entry_in_map(self.entries@, i as int);
                }
                return Some(self.entries[i].value.as_str());
            }
            i = i + 1;
        }
        None
    }

    /// Whether the set holds no header.
    pub fn is_empty(&self) -> (empty: bool)
        ensures
            empty == (self@ == Map::<Seq<char>, Seq<char>>::empty()),
    {
        proof {
            use_type_invariant(self);
            if self.entries@.len() > 0 {
                lemma_entry_in_map(self.entries@, 0);
            } else {
                assert(self@ =~= Map::<Seq<char>, Seq<char>>::empty());
            }
        }
        self.entries.len() == 0
    }

    /// The headers one by one, each name once.
    pub fn entries(&self) -> (entries: &Vec<Header>)
        ensures
            distinct(entries@),
            as_map(entries@) == self@,
    {
        proof {
            use_type_invariant(self);
        }
        &self.entries
    }

    /// A copy of the set.
    pub fn duplicate(&self) -> (copy: Headers)
        ensures
            copy@ == self@,
    {
        proof {
            use_type_invariant(self);
        }
        let mut entries: Vec<Header> = Vec::new();
        let mut i: usize = 0;
        while i < self.entries.len()
            invariant
                i <= self.entries@.len(),
                entries@.len() == i,
                forall|j: int|
                    0 <= j < i ==> (#[trigger] entries@[j]).name@ == self.entries@[j].name@
                        && entries@[j].value@ == self.entries@[j].value@,
            decreases self.entries@.len() - i,
        {
            let header = Header {
                name: String::from_str(self.entries[i].name.as_str()),
                value: String::from_str(self.entries[i].value.as_str()),
            };
            entries.push(header);
            i = i + 1;
        }
        proof {
            lemma_same_entries(self.entries@, entries@);
        }
        Headers { entries }
    }
}

proof fn lemma_same_entries(a: Seq<Header>, b: Seq<Header>)
    requires
        distinct(a),
        a.len() == b.len(),
        forall|j: int|
            0 <= j < a.len() ==> (#[trigger] b[j]).name@ == a[j].name@ && b[j].value@
                == a[j].value@,
    ensures
        distinct(b),
        as_map(b) == as_map(a),
{
    assert forall|i: int, j: int| 0 <= i < j < b.len() implies #[trigger] b[i].name@
        != #[trigger] b[j].name@ by {
        assert(a[i].name@ != a[j].name@);
    }
    assert forall|name: Seq<char>| as_map(a).contains_key(name) <==> as_map(b).contains_key(
        name,
    ) by {
        if names(a, name) {
            let p = position(a, name);
            assert(b[p].name@ == name);
        }
        if names(b, name) {
            let p = position(b, name);
            assert(a[p].name@ == name);
        }
    }
    assert forall|name: Seq<char>| as_map(a).contains_key(name) implies as_map(a)[name] == as_map(
        b,
    )[name] by {
        let p = position(a, name);
        lemma_entry_in_map(a, p);
        assert(b[p].name@ == name);
        lemma_entry_in_map(b, p);
    }
    assert(as_map(a) =~= as_map(b));
}

} // verus!
