//! Lexicographic order of names and a map from names to values kept in that
//! order, as an ordered map with string keys keeps its entries.
use vstd::prelude::*;

use crate::text::chars_of;

verus! {

/// Strict lexicographic order of character sequences by code point, which is
/// also the byte order of their UTF-8 encodings.
pub open spec fn name_lt(a: Seq<char>, b: Seq<char>) -> bool
    decreases a.len(),
{
    if a.len() == 0 {
        b.len() > 0
    } else if b.len() == 0 {
        false
    } else if a[0] != b[0] {
        a[0] < b[0]
    } else {
        name_lt(a.drop_first(), b.drop_first())
    }
}

/// No name is before itself.
pub proof fn lemma_name_lt_irreflexive(a: Seq<char>)
    ensures
        !name_lt(a, a),
    decreases a.len(),
{
    if a.len() > 0 {
        lemma_name_lt_irreflexive(a.drop_first());
    }
}

/// The order is transitive.
pub proof fn lemma_name_lt_transitive(a: Seq<char>, b: Seq<char>, c: Seq<char>)
    requires
        name_lt(a, b),
        name_lt(b, c),
    ensures
        name_lt(a, c),
    decreases a.len(),
{
    if a.len() > 0 && b.len() > 0 && c.len() > 0 {
        if a[0] == b[0] && b[0] == c[0] {
            lemma_name_lt_transitive(a.drop_first(), b.drop_first(), c.drop_first());
        }
    }
}

/// Two different names are ordered one way or the other.
pub proof fn lemma_name_lt_total(a: Seq<char>, b: Seq<char>)
    ensures
        a == b || name_lt(a, b) || name_lt(b, a),
    decreases a.len(),
{
    if a.len() == 0 && b.len() == 0 {
        assert(a =~= b);
    } else if a.len() == 0 {
        assert(name_lt(a, b));
    } else if b.len() == 0 {
        assert(name_lt(b, a));
    } else if a[0] == b[0] {
        lemma_name_lt_total(a.drop_first(), b.drop_first());
        if a.drop_first() == b.drop_first() {
            assert(a =~= seq![a[0]] + a.drop_first());
            assert(b =~= seq![b[0]] + b.drop_first());
        }
    } else {

        if a[0] < b[0] {
            assert(name_lt(a, b));
        } else {
            assert(name_lt(b, a));
        }
    }
}

/// Executable form of [`name_lt`].
pub fn chars_lt(a: &[char], b: &[char]) -> (r: bool)
    ensures
        r == name_lt(a@, b@),
{
    let mut i: usize = 0;
    assert(a@.skip(0) =~= a@);
    assert(b@.skip(0) =~= b@);
    while i < a.len() && i < b.len()
        invariant
            i <= a.len(),
            i <= b.len(),
            name_lt(a@, b@) == name_lt(a@.skip(i as int), b@.skip(i as int)),
        decreases a.len() - i,
    {
        let ghost sa = a@.skip(i as int);
        let ghost sb = b@.skip(i as int);
        assert(sa[0] == a@[i as int]);
        assert(sb[0] == b@[i as int]);
        if a[i] != b[i] {
            return a[i] < b[i];
        }
        assert(sa.drop_first() =~= a@.skip(i + 1));
        assert(sb.drop_first() =~= b@.skip(i + 1));
        i = i + 1;
    }
    i == a.len() && i < b.len()
}

/// Executable form of [`name_lt`] on strings.
pub fn str_lt(a: &str, b: &str) -> (r: bool)
    ensures
        r == name_lt(a@, b@),
{
    let va = chars_of(a);
    let vb = chars_of(b);
    chars_lt(va.as_slice(), vb.as_slice())
}

/// The names of a sequence of named entries.
pub open spec fn keys_of<V>(s: Seq<(String, V)>) -> Seq<Seq<char>> {
    s.map_values(|e: (String, V)| e.0@)
}

/// Entries are in strictly increasing name order, so no name occurs twice.
pub open spec fn sorted_keys<V>(s: Seq<(String, V)>) -> bool {
    forall|i: int, j: int| 0 <= i < j < s.len() ==> name_lt(#[trigger] s[i].0@, #[trigger] s[j].0@)
}

/// No name occurs twice among the entries.
pub open spec fn unique_keys<V>(s: Seq<(String, V)>) -> bool {
    forall|i: int, j: int| 0 <= i < j < s.len() ==> #[trigger] s[i].0@ != #[trigger] s[j].0@
}

/// Entries in name order have unique names.
pub proof fn lemma_sorted_is_unique<V>(s: Seq<(String, V)>)
    requires
        sorted_keys(s),
    ensures
        unique_keys(s),
{
    assert forall|i: int, j: int| 0 <= i < j < s.len() implies #[trigger] s[i].0@ != #[trigger] s[j].0@ by {
        if s[i].0@ == s[j].0@ {
            lemma_name_lt_irreflexive(s[i].0@);
        }
    }
}

/// Position of the entry named `k`, if any.
pub open spec fn position_of<V>(s: Seq<(String, V)>, k: Seq<char>) -> Option<int> {
    if exists|i: int| 0 <= i < s.len() && s[i].0@ == k {
        Some(choose|i: int| 0 <= i < s.len() && s[i].0@ == k)
    } else {
        None
    }
}

/// The value stored under `k`, if any.
pub open spec fn lookup<V>(s: Seq<(String, V)>, k: Seq<char>) -> Option<V> {
    match position_of(s, k) {
        Some(i) => Some(s[i].1),
        None => None,
    }
}

/// In a sorted sequence, an entry with a given name is the only one.
pub proof fn lemma_sorted_unique<V>(s: Seq<(String, V)>, i: int, j: int)
    requires
        sorted_keys(s),
        0 <= i < s.len(),
        0 <= j < s.len(),
        s[i].0@ == s[j].0@,
    ensures
        i == j,
{
    if i < j {
        lemma_name_lt_irreflexive(s[i].0@);
    } else if j < i {
        lemma_name_lt_irreflexive(s[i].0@);
    }
}

/// `new` is `old` with `value` stored under `name`: an entry with that name
/// is replaced in place, or a new entry is inserted.
pub open spec fn inserted<V>(old: Seq<(String, V)>, new: Seq<(String, V)>, name: String, value: V) -> bool {
    &&& position_of(old, name@) matches Some(i) ==> new == old.update(i, (name, value))
    &&& position_of(old, name@) is None ==> exists|p: int|
        0 <= p <= old.len() && new == old.insert(p, (name, value))
}

/// `new` is `old` without the entry named `name`.
pub open spec fn removed<V>(old: Seq<(String, V)>, new: Seq<(String, V)>, name: Seq<char>) -> bool {
    &&& position_of(old, name) matches Some(i) ==> new == old.remove(i)
    &&& position_of(old, name) is None ==> new == old
}

/// Where names are unique, the value stored under an entry's name is that
/// entry's.
pub proof fn lemma_lookup_at<V>(s: Seq<(String, V)>, i: int)
    requires
        unique_keys(s),
        0 <= i < s.len(),
    ensures
        lookup(s, s[i].0@) == Some(s[i].1),
        position_of(s, s[i].0@) == Some(i),
{
    let c = choose|j: int| 0 <= j < s.len() && s[j].0@ == s[i].0@;
    if c < i {
        assert(s[c].0@ != s[i].0@);
    } else if i < c {
        assert(s[i].0@ != s[c].0@);
    }
}

/// No entry has the name, so nothing is stored under it.
pub proof fn lemma_lookup_absent<V>(s: Seq<(String, V)>, k: Seq<char>)
    requires
        forall|i: int| 0 <= i < s.len() ==> (#[trigger] s[i]).0@ != k,
    ensures
        lookup(s, k) is None,
        position_of(s, k) is None,
{
}

/// After storing `value` under `name`, looking `name` up gives `value`, and
/// every other name gives what it gave before.
pub proof fn lemma_insert_lookup<V>(
    old: Seq<(String, V)>,
    new: Seq<(String, V)>,
    name: String,
    value: V,
    k: Seq<char>,
)
    requires
        unique_keys(old),
        unique_keys(new),
        inserted(old, new, name, value),
    ensures
        lookup(new, name@) == Some(value),
        k != name@ ==> lookup(new, k) == lookup(old, k),
{
    match position_of(old, name@) {
        Some(i) => {
            lemma_lookup_at(new, i);
            if k != name@ {
                if exists|j: int| 0 <= j < old.len() && old[j].0@ == k {
                    let j = choose|j: int| 0 <= j < old.len() && old[j].0@ == k;
                    lemma_lookup_at(old, j);
                    lemma_lookup_at(new, j);
                } else {
                    assert forall|j: int| 0 <= j < new.len() implies (#[trigger] new[j]).0@ != k by {
                        if j != i {
                            assert(new[j] == old[j]);
                        }
                    }
                    lemma_lookup_absent(new, k);
                }
            }
        },
        None => {
            let p = choose|p: int| 0 <= p <= old.len() && new == old.insert(p, (name, value));
            lemma_lookup_at(new, p);
            if k != name@ {
                if exists|j: int| 0 <= j < old.len() && old[j].0@ == k {
                    let j = choose|j: int| 0 <= j < old.len() && old[j].0@ == k;
                    lemma_lookup_at(old, j);
                    if j < p {
                        lemma_lookup_at(new, j);
                    } else {
                        assert(new[j + 1] == old[j]);
                        lemma_lookup_at(new, j + 1);
                    }
                } else {
                    assert forall|j: int| 0 <= j < new.len() implies (#[trigger] new[j]).0@ != k by {
                        if j < p {
                            assert(new[j] == old[j]);
                        } else if j > p {
                            assert(new[j] == old[j - 1]);
                        }
                    }
                    lemma_lookup_absent(new, k);
                }
            }
        },
    }
}

/// After removing `name`, nothing is stored under it, and every other name
/// gives what it gave before.
pub proof fn lemma_remove_lookup<V>(
    old: Seq<(String, V)>,
    new: Seq<(String, V)>,
    name: Seq<char>,
    k: Seq<char>,
)
    requires
        unique_keys(old),
        removed(old, new, name),
    ensures
        lookup(new, name) is None,
        k != name ==> lookup(new, k) == lookup(old, k),
{
    match position_of(old, name) {
        Some(i) => {
            assert forall|j: int| 0 <= j < new.len() implies (#[trigger] new[j]).0@ != name by {
                let j2 = if j < i { j } else { j + 1 };
                assert(new[j] == old[j2]);
                if new[j].0@ == name {
                    if j2 < i {
                        assert(old[j2].0@ != old[i].0@);
                    } else {
                        assert(old[i].0@ != old[j2].0@);
                    }
                }
            }
            lemma_lookup_absent(new, name);
            assert(unique_keys(new)) by {
                assert forall|a: int, b: int| 0 <= a < b < new.len() implies #[trigger] new[a].0@
                    != #[trigger] new[b].0@ by {
                    let a2 = if a < i { a } else { a + 1 };
                    let b2 = if b < i { b } else { b + 1 };
                    assert(new[a] == old[a2]);
                    assert(new[b] == old[b2]);
                }
            }
            if k != name {
                if exists|j: int| 0 <= j < old.len() && old[j].0@ == k {
                    let j = choose|j: int| 0 <= j < old.len() && old[j].0@ == k;
                    lemma_lookup_at(old, j);
                    if j < i {
                        assert(new[j] == old[j]);
                        lemma_lookup_at(new, j);
                    } else {
                        assert(j != i);
                        assert(new[j - 1] == old[j]);
                        lemma_lookup_at(new, j - 1);
                    }
                } else {
                    assert forall|j: int| 0 <= j < new.len() implies (#[trigger] new[j]).0@ != k by {
                        if j < i {
                            assert(new[j] == old[j]);
                        } else {
                            assert(new[j] == old[j + 1]);
                        }
                    }
                    lemma_lookup_absent(new, k);
                }
            }
        },
        None => {},
    }
}

/// Names mapped to values, kept sorted by name with each name at most once.
pub struct NameMap<V> {
    entries: Vec<(String, V)>,
}

impl<V> View for NameMap<V> {
    type V = Seq<(String, V)>;

    closed spec fn view(&self) -> Seq<(String, V)> {
        self.entries@
    }
}

impl<V> NameMap<V> {
    #[verifier::type_invariant]
    spec fn inv(self) -> bool {
        sorted_keys(self.entries@)
    }

    /// An empty map.
    pub fn new() -> (m: Self)
        ensures
            m@ == Seq::<(String, V)>::empty(),
            sorted_keys(m@),
    {
        NameMap { entries: Vec::new() }
    }

    /// Number of entries.
    pub fn len(&self) -> (r: usize)
        ensures
            r == self@.len(),
            sorted_keys(self@),
    {
        proof {
            use_type_invariant(self);
        }
        self.entries.len()
    }

    /// Position of the entry named `name`.
    pub fn find(&self, name: &str) -> (r: Option<usize>)
        ensures
            r matches Some(i) ==> i < self@.len() && self@[i as int].0@ == name@,
            r is None ==> forall|i: int| 0 <= i < self@.len() ==> self@[i].0@ != name@,
            r matches Some(i) ==> position_of(self@, name@) == Some(i as int),
            r is None ==> position_of(self@, name@) is None,
            sorted_keys(self@),
    {
        proof {
            use_type_invariant(self);
        }
        let key = chars_of(name);
        let mut i: usize = 0;
        while i < self.entries.len()
            invariant
                key@ == name@,
                i <= self.entries@.len(),
                sorted_keys(self.entries@),
                forall|j: int| 0 <= j < i ==> self.entries@[j].0@ != name@,
            decreases self.entries.len() - i,
        {
            let k = chars_of(self.entries[i].0.as_str());
            if crate::text::chars_eq(k.as_slice(), key.as_slice()) {
                proof {
                    let c = choose|j: int| 0 <= j < self@.len() && self@[j].0@ == name@;
                    lemma_sorted_unique(self@, c, i as int);
                }
                return Some(i);
            }
            i = i + 1;
        }
        None
    }

    /// The value stored under `name`.
    pub fn get(&self, name: &str) -> (r: Option<&V>)
        ensures
            r matches Some(v) ==> lookup(self@, name@) == Some(*v),
            r is None ==> lookup(self@, name@) is None,
            sorted_keys(self@),
    {
        match self.find(name) {
            Some(i) => Some(&self.entries[i].1),
            None => None,
        }
    }

    /// Stores `value` under `name`, replacing an entry with that name or
    /// inserting a new one at its place in name order.
    pub fn insert(&mut self, name: String, value: V)
        ensures
            inserted(old(self)@, final(self)@, name, value),
            sorted_keys(final(self)@),
    {
        proof {
            use_type_invariant(&*self);
        }
        let key = chars_of(name.as_str());
        let mut i: usize = 0;
        while i < self.entries.len()
            invariant
                key@ == name@,
                i <= self.entries@.len(),
                forall|j: int| 0 <= j < i ==> name_lt(self.entries@[j].0@, name@),
                sorted_keys(self.entries@),
            ensures
                i <= self.entries@.len(),
                forall|j: int| 0 <= j < i ==> name_lt(self.entries@[j].0@, name@),
                i < self.entries@.len() ==> !name_lt(self.entries@[i as int].0@, name@),
            decreases self.entries.len() - i,
        {
            let k = chars_of(self.entries[i].0.as_str());
            if !chars_lt(k.as_slice(), key.as_slice()) {
                break;
            }
            i = i + 1;
        }
        let ghost before = self.entries@;
        if i < self.entries.len() && crate::text::chars_eq(
            chars_of(self.entries[i].0.as_str()).as_slice(),
            key.as_slice(),
        ) {
            proof {
                let c = choose|j: int| 0 <= j < before.len() && before[j].0@ == name@;
                lemma_sorted_unique(before, c, i as int);
                assert forall|a: int, b: int| 0 <= a < b < before.len() implies name_lt(
                    #[trigger] before.update(i as int, (name, value))[a].0@,
                    #[trigger] before.update(i as int, (name, value))[b].0@,
                ) by {
                    assert(name_lt(before[a].0@, before[b].0@));
                }
            }
            let mut entries: Vec<(String, V)> = Vec::new();
            std::mem::swap(&mut entries, &mut self.entries);
            entries.set(i, (name, value));
            self.entries = entries;
        } else {
            proof {
                assert forall|j: int| 0 <= j < before.len() implies before[j].0@ != name@ by {
                    if j < i {
                        assert(name_lt(before[j].0@, name@));
                        lemma_name_lt_irreflexive(name@);
                    } else {
                        lemma_name_lt_total(before[i as int].0@, name@);
                        if j > i {
                            assert(name_lt(before[i as int].0@, before[j].0@));
                            lemma_name_lt_transitive(name@, before[i as int].0@, before[j].0@);
                            lemma_name_lt_irreflexive(name@);
                        }
                    }
                }
                assert forall|j: int| i <= j < before.len() implies name_lt(
                    name@,
                    #[trigger] before[j].0@,
                ) by {
                    lemma_name_lt_total(before[i as int].0@, name@);
                    if j > i {
                        assert(name_lt(before[i as int].0@, before[j].0@));
                        lemma_name_lt_transitive(name@, before[i as int].0@, before[j].0@);
                    }
                }
            }
            let mut entries: Vec<(String, V)> = Vec::new();
            std::mem::swap(&mut entries, &mut self.entries);
            entries.insert(i, (name, value));
            proof {
                let after = entries@;
                assert forall|a: int, b: int| 0 <= a < b < after.len() implies name_lt(
                    #[trigger] after[a].0@,
                    #[trigger] after[b].0@,
                ) by {
                    if b < i {
                    } else if b == i {
                    } else if a < i {
                        assert(name_lt(before[a].0@, name@));
                        assert(name_lt(name@, before[b - 1].0@));
                        lemma_name_lt_transitive(before[a].0@, name@, before[b - 1].0@);
                    } else if a == i {
                    } else {
                        assert(name_lt(before[a - 1].0@, before[b - 1].0@));
                    }
                }
            }
            self.entries = entries;
        }
    }

    /// Removes the entry named `name`, returning its value.
    pub fn remove(&mut self, name: &str) -> (r: Option<V>)
        ensures
            removed(old(self)@, final(self)@, name@),
            r == lookup(old(self)@, name@),
            sorted_keys(final(self)@),
    {
        proof {
            use_type_invariant(&*self);
        }
        match self.find(name) {
            Some(i) => {
                let ghost before = self.entries@;
                let mut entries: Vec<(String, V)> = Vec::new();
                std::mem::swap(&mut entries, &mut self.entries);
                let (_, v) = entries.remove(i);
                proof {
                    let after = entries@;
                    assert forall|a: int, b: int| 0 <= a < b < after.len() implies name_lt(
                        #[trigger] after[a].0@,
                        #[trigger] after[b].0@,
                    ) by {
                        if a < i && b < i {
                        } else if a < i {
                            assert(name_lt(before[a].0@, before[b + 1].0@));
                        } else {
                            assert(name_lt(before[a + 1].0@, before[b + 1].0@));
                        }
                    }
                }
                self.entries = entries;
                Some(v)
            },
            None => None,
        }
    }

    /// The entries in name order.
    pub fn into_entries(self) -> (r: Vec<(String, V)>)
        ensures
            r@ == self@,
            sorted_keys(r@),
    {
        proof {
            use_type_invariant(&self);
        }
        self.entries
    }
}


/// `old` with `value` stored under `name`: an entry with that name is
/// replaced in place, or the new entry follows all the others.
pub open spec fn with_entry<V>(old: Seq<(String, V)>, name: String, value: V) -> Seq<(String, V)> {
    match position_of(old, name@) {
        Some(i) => old.update(i, (name, value)),
        None => old.push((name, value)),
    }
}

/// Storing an entry in place or after the others is one way of storing it.
pub proof fn lemma_with_entry_inserted<V>(old: Seq<(String, V)>, name: String, value: V)
    requires
        unique_keys(old),
    ensures
        inserted(old, with_entry(old, name, value), name, value),
        unique_keys(with_entry(old, name, value)),
{
    let new = with_entry(old, name, value);
    match position_of(old, name@) {
        Some(i) => {
            assert forall|a: int, b: int| 0 <= a < b < new.len() implies #[trigger] new[a].0@
                != #[trigger] new[b].0@ by {
                if a == i {
                    assert(old[i].0@ != old[b].0@);
                } else if b == i {
                    assert(old[a].0@ != old[i].0@);
                } else {
                    assert(old[a].0@ != old[b].0@);
                }
            }
        },
        None => {
            assert(new == old.insert(old.len() as int, (name, value)));
            assert forall|a: int, b: int| 0 <= a < b < new.len() implies #[trigger] new[a].0@
                != #[trigger] new[b].0@ by {
                if b == old.len() {
                    assert(old[a].0@ != name@);
                } else {
                    assert(old[a].0@ != old[b].0@);
                }
            }
        },
    }
}

/// Names mapped to values in the order in which they were first stored,
/// each name at most once.
pub struct NameList<V> {
    entries: Vec<(String, V)>,
}

impl<V> View for NameList<V> {
    type V = Seq<(String, V)>;

    closed spec fn view(&self) -> Seq<(String, V)> {
        self.entries@
    }
}

impl<V> NameList<V> {
    #[verifier::type_invariant]
    spec fn inv(self) -> bool {
        unique_keys(self.entries@)
    }

    /// An empty list.
    pub fn new() -> (m: Self)
        ensures
            m@ == Seq::<(String, V)>::empty(),
    {
        NameList { entries: Vec::new() }
    }

    /// Number of entries.
    pub fn len(&self) -> (r: usize)
        ensures
            r == self@.len(),
            unique_keys(self@),
    {
        proof {
            use_type_invariant(self);
        }
        self.entries.len()
    }

    /// Position of the entry named `name`.
    pub fn find(&self, name: &str) -> (r: Option<usize>)
        ensures
            r matches Some(i) ==> i < self@.len() && self@[i as int].0@ == name@,
            r matches Some(i) ==> position_of(self@, name@) == Some(i as int),
            r is None ==> position_of(self@, name@) is None,
            unique_keys(self@),
    {
        proof {
            use_type_invariant(self);
        }
        let key = chars_of(name);
        let mut i: usize = 0;
        while i < self.entries.len()
            invariant
                key@ == name@,
                i <= self.entries@.len(),
                unique_keys(self.entries@),
                forall|j: int| 0 <= j < i ==> self.entries@[j].0@ != name@,
            decreases self.entries.len() - i,
        {
            let k = chars_of(self.entries[i].0.as_str());
            if crate::text::chars_eq(k.as_slice(), key.as_slice()) {
                proof {
                    lemma_lookup_at(self@, i as int);
                }
                return Some(i);
            }
            i = i + 1;
        }
        None
    }

    /// The value stored under `name`.
    pub fn get(&self, name: &str) -> (r: Option<&V>)
        ensures
            r matches Some(v) ==> lookup(self@, name@) == Some(*v),
            r is None ==> lookup(self@, name@) is None,
            unique_keys(self@),
    {
        match self.find(name) {
            Some(i) => Some(&self.entries[i].1),
            None => None,
        }
    }

    /// Stores `value` under `name`, replacing an entry with that name in
    /// place or adding it after all the others.
    pub fn insert(&mut self, name: String, value: V)
        ensures
            final(self)@ == with_entry(old(self)@, name, value),
            inserted(old(self)@, final(self)@, name, value),
            unique_keys(final(self)@),
    {
        proof {
            use_type_invariant(&*self);
        }
        let ghost before = self.entries@;
        let ghost gname = name;
        let ghost gvalue = value;
        proof {
            lemma_with_entry_inserted(before, name, value);
        }
        let found = self.find(name.as_str());
        let mut entries: Vec<(String, V)> = Vec::new();
        std::mem::swap(&mut entries, &mut self.entries);
        match found {
            Some(i) => {
                entries.set(i, (name, value));
            },
            None => {
                entries.push((name, value));
            },
        }
        assert(entries@ == with_entry(before, gname, gvalue));
        self.entries = entries;
    }

    /// Removes the entry named `name`, returning its value.
    pub fn remove(&mut self, name: &str) -> (r: Option<V>)
        ensures
            removed(old(self)@, final(self)@, name@),
            r == lookup(old(self)@, name@),
            unique_keys(final(self)@),
    {
        proof {
            use_type_invariant(&*self);
        }
        match self.find(name) {
            Some(i) => {
                let ghost before = self.entries@;
                let mut entries: Vec<(String, V)> = Vec::new();
                std::mem::swap(&mut entries, &mut self.entries);
                let (_, v) = entries.remove(i);
                proof {
                    let after = entries@;
                    assert forall|a: int, b: int| 0 <= a < b < after.len() implies #[trigger] after[a].0@
                        != #[trigger] after[b].0@ by {
                        let a2 = if a < i { a } else { a + 1 };
                        let b2 = if b < i { b } else { b + 1 };
                        assert(before[a2].0@ != before[b2].0@);
                    }
                }
                self.entries = entries;
                Some(v)
            },
            None => None,
        }
    }

    /// The entries in the order in which they were first stored.
    pub fn into_entries(self) -> (r: Vec<(String, V)>)
        ensures
            r@ == self@,
            unique_keys(r@),
    {
        proof {
            use_type_invariant(&self);
        }
        self.entries
    }
}

} // verus!
