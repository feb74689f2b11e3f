//! An insertion-ordered table in which no key occurs twice.
//!
//! A table is modelled by the sequence of its entries, each a key's model
//! beside a value's model. Keys are compared by a relation of their own, so a
//! table can also hold items that count as the same although they differ.

use vstd::prelude::*;

verus! {

/// A value with a mathematical model.
pub trait Modeled {
    type Model;

    spec fn model(&self) -> Self::Model;
}

/// A value that can serve as a key: it says when two models name the same
/// key, and decides it at run time.
pub trait Keyed: Modeled + Sized {
    spec fn same(a: Self::Model, b: Self::Model) -> bool;

    fn matches(&self, other: &Self) -> (out: bool)
        ensures
            out == Self::same(self.model(), other.model()),
    ;
}

impl Modeled for () {
    type Model = ();

    open spec fn model(&self) -> () {
        ()
    }
}

impl Modeled for String {
    type Model = Seq<char>;

    open spec fn model(&self) -> Seq<char> {
        self@
    }
}

impl Keyed for String {
    open spec fn same(a: Seq<char>, b: Seq<char>) -> bool {
        a == b
    }

    fn matches(&self, other: &Self) -> (out: bool) {
        *self == *other
    }
}

impl<T: Modeled> Modeled for Vec<T> {
    type Model = Seq<T::Model>;

    open spec fn model(&self) -> Seq<T::Model> {
        Seq::new(self@.len(), |i: int| self@[i].model())
    }
}

impl<'a, T: Modeled> Modeled for &'a T {
    type Model = T::Model;

    open spec fn model(&self) -> T::Model {
        (**self).model()
    }
}

impl<T: Modeled> Modeled for Option<T> {
    type Model = Option<T::Model>;

    open spec fn model(&self) -> Option<T::Model> {
        match self {
            Some(value) => Some(value.model()),
            None => None,
        }
    }
}

/// `i` is the first place in `s` whose key is the same as `k`.
pub open spec fn first_match<K: Keyed, W>(s: Seq<(K::Model, W)>, k: K::Model, i: int) -> bool {
    &&& 0 <= i < s.len()
    &&& K::same(s[i].0, k)
    &&& forall|j: int| 0 <= j < i ==> !K::same(#[trigger] s[j].0, k)
}

pub open spec fn has_key<K: Keyed, W>(s: Seq<(K::Model, W)>, k: K::Model) -> bool {
    exists|i: int| first_match::<K, W>(s, k, i)
}

pub open spec fn index_of<K: Keyed, W>(s: Seq<(K::Model, W)>, k: K::Model) -> int {
    choose|i: int| first_match::<K, W>(s, k, i)
}

/// The value stored under `k`, if any.
pub open spec fn lookup<K: Keyed, W>(s: Seq<(K::Model, W)>, k: K::Model) -> Option<W> {
    if has_key::<K, W>(s, k) {
        Some(s[index_of::<K, W>(s, k)].1)
    } else {
        None
    }
}

/// `s` with `w` stored under `k`: in place of the old value where the key is
/// present (the stored key stays), at the end otherwise.
pub open spec fn put<K: Keyed, W>(s: Seq<(K::Model, W)>, k: K::Model, w: W) -> Seq<(K::Model, W)> {
    if has_key::<K, W>(s, k) {
        let i = index_of::<K, W>(s, k);
        s.update(i, (s[i].0, w))
    } else {
        s.push((k, w))
    }
}

/// `s` with `(k, w)` added at the end unless the key is present.
pub open spec fn put_absent<K: Keyed, W>(s: Seq<(K::Model, W)>, k: K::Model, w: W) -> Seq<
    (K::Model, W),
> {
    if has_key::<K, W>(s, k) {
        s
    } else {
        s.push((k, w))
    }
}

/// `s` without the entry of `k`.
pub open spec fn without<K: Keyed, W>(s: Seq<(K::Model, W)>, k: K::Model) -> Seq<(K::Model, W)> {
    if has_key::<K, W>(s, k) {
        s.remove(index_of::<K, W>(s, k))
    } else {
        s
    }
}

/// No key of `s` is the same as a later one.
pub open spec fn distinct<K: Keyed, W>(s: Seq<(K::Model, W)>) -> bool {
    forall|i: int, j: int| 0 <= i < j < s.len() ==> !K::same(#[trigger] s[i].0, #[trigger] s[j].0)
}

pub proof fn lemma_first_match_unique<K: Keyed, W>(s: Seq<(K::Model, W)>, k: K::Model, i: int)
    requires
        first_match::<K, W>(s, k, i),
    ensures
        has_key::<K, W>(s, k),
        index_of::<K, W>(s, k) == i,
{
    let j = index_of::<K, W>(s, k);
    assert(first_match::<K, W>(s, k, j));
    if j < i {
        assert(!K::same(s[j].0, k));
    } else if i < j {
        assert(!K::same(s[i].0, k));
    }
}

pub proof fn lemma_no_match<K: Keyed, W>(s: Seq<(K::Model, W)>, k: K::Model)
    requires
        forall|j: int| 0 <= j < s.len() ==> !K::same(#[trigger] s[j].0, k),
    ensures
        !has_key::<K, W>(s, k),
{
    if has_key::<K, W>(s, k) {
        let i = index_of::<K, W>(s, k);
        assert(first_match::<K, W>(s, k, i));
        assert(!K::same(s[i].0, k));
    }
}

/// A key that matches somewhere has a first match.
pub proof fn lemma_some_match<K: Keyed, W>(s: Seq<(K::Model, W)>, k: K::Model, i: int)
    requires
        0 <= i < s.len(),
        K::same(s[i].0, k),
    ensures
        has_key::<K, W>(s, k),
        index_of::<K, W>(s, k) <= i,
    decreases i,
{
    if exists|j: int| 0 <= j < i && K::same(#[trigger] s[j].0, k) {
        let j = choose|j: int| 0 <= j < i && K::same(#[trigger] s[j].0, k);
        lemma_some_match::<K, W>(s, k, j);
    } else {
        assert(first_match::<K, W>(s, k, i));
        lemma_first_match_unique::<K, W>(s, k, i);
    }
}

/// The models of a sequence of entries, place by place.
pub open spec fn entries_model<K: Keyed, V: Modeled>(items: Seq<(K, V)>) -> Seq<
    (K::Model, V::Model),
> {
    Seq::new(items.len(), |i: int| (items[i].0.model(), items[i].1.model()))
}

/// A key that is absent matches at no place.
pub proof fn lemma_absent_everywhere<K: Keyed, W>(s: Seq<(K::Model, W)>, k: K::Model)
    requires
        !has_key::<K, W>(s, k),
    ensures
        forall|j: int| 0 <= j < s.len() ==> !K::same(#[trigger] s[j].0, k),
{
    assert forall|j: int| 0 <= j < s.len() implies !K::same(#[trigger] s[j].0, k) by {
        if K::same(s[j].0, k) {
            lemma_some_match::<K, W>(s, k, j);
        }
    }
}

pub struct Table<K: Keyed, V: Modeled> {
    items: Vec<(K, V)>,
}

impl<K: Keyed, V: Modeled> Modeled for Table<K, V> {
    type Model = Seq<(K::Model, V::Model)>;

    closed spec fn model(&self) -> Seq<(K::Model, V::Model)> {
        entries_model(self.items@)
    }
}

impl<K: Keyed, V: Modeled> View for Table<K, V> {
    type V = Seq<(K::Model, V::Model)>;

    open spec fn view(&self) -> Seq<(K::Model, V::Model)> {
        self.model()
    }
}

impl<K: Keyed, V: Modeled> Table<K, V> {
    #[verifier::type_invariant]
    spec fn no_key_twice(self) -> bool {
        distinct::<K, V::Model>(self.model())
    }

    /// Moves the entries out, leaving the table empty.
    fn take_items(&mut self) -> (items: Vec<(K, V)>)
        ensures
            entries_model(items@) == old(self)@,
            distinct::<K, V::Model>(old(self)@),
            final(self)@ == Seq::<(K::Model, V::Model)>::empty(),
    {
        proof {
            use_type_invariant(&*self);
        }
        let mut items: Vec<(K, V)> = Vec::new();
        assert(entries_model(items@) =~= Seq::<(K::Model, V::Model)>::empty());
        core::mem::swap(&mut self.items, &mut items);
        items
    }

    /// Moves entries into an empty table.
    fn put_items(&mut self, items: Vec<(K, V)>)
        requires
            distinct::<K, V::Model>(entries_model(items@)),
        ensures
            final(self)@ == entries_model(items@),
    {
        let mut items = items;
        core::mem::swap(&mut self.items, &mut items);
    }

    pub fn new() -> (out: Self)
        ensures
            out@ == Seq::<(K::Model, V::Model)>::empty(),
    {
        let out = Table { items: Vec::new() };
        assert(out.model() =~= Seq::<(K::Model, V::Model)>::empty());
        out
    }

    /// What the type keeps true of every table.
    pub fn keys_are_distinct(&self)
        ensures
            distinct::<K, V::Model>(self@),
    {
        proof {
            use_type_invariant(self);
        }
    }

    pub fn len(&self) -> (out: usize)
        ensures
            out == self@.len(),
    {
        self.items.len()
    }

    pub fn is_empty(&self) -> (out: bool)
        ensures
            out == (self@.len() == 0),
    {
        self.items.len() == 0
    }

    /// The place of `key`, if it is present.
    pub fn find(&self, key: &K) -> (out: Option<usize>)
        ensures
            match out {
                Some(i) => first_match::<K, V::Model>(self@, key.model(), i as int),
                None => !has_key::<K, V::Model>(self@, key.model()),
            },
    {
        let mut i: usize = 0;
        while i < self.items.len()
            invariant
                i <= self.items@.len(),
                forall|j: int| 0 <= j < i ==> !K::same(#[trigger] self@[j].0, key.model()),
            decreases self.items@.len() - i,
        {
            if self.items[i].0.matches(key) {
                assert(self@[i as int].0 == self.items@[i as int].0.model());
                return Some(i);
            }
            assert(self@[i as int].0 == self.items@[i as int].0.model());
            i += 1;
        }
        proof {
            lemma_no_match::<K, V::Model>(self@, key.model());
        }
        None
    }

    pub fn contains_key(&self, key: &K) -> (out: bool)
        ensures
            out == has_key::<K, V::Model>(self@, key.model()),
    {
        self.find(key).is_some()
    }

    pub fn get(&self, key: &K) -> (out: Option<&V>)
        ensures
            out.model() == lookup::<K, V::Model>(self@, key.model()),
    {
        match self.find(key) {
            Some(i) => {
                proof {
                    lemma_first_match_unique::<K, V::Model>(self@, key.model(), i as int);
                }
                Some(&self.items[i].1)
            },
            None => None,
        }
    }

    /// The key and the value at place `i`.
    pub fn entry(&self, i: usize) -> (out: (&K, &V))
        requires
            i < self@.len(),
        ensures
            (out.0.model(), out.1.model()) == self@[i as int],
    {
        (&self.items[i].0, &self.items[i].1)
    }

    /// Stores `value` under `key`. A key that is present keeps its place and
    /// its stored form; only the value changes.
    pub fn insert(&mut self, key: K, value: V)
        ensures
            final(self)@ == put::<K, V::Model>(old(self)@, key.model(), value.model()),
    {
        proof {
            use_type_invariant(&*self);
        }
        match self.find(&key) {
            Some(i) => {
                proof {
                    lemma_first_match_unique::<K, V::Model>(self@, key.model(), i as int);
                }
                let mut items = self.take_items();
                let (stored, _) = items.remove(i);
                items.insert(i, (stored, value));
                assert(entries_model(items@) =~= put::<K, V::Model>(
                    old(self)@,
                    key.model(),
                    value.model(),
                ));
                self.put_items(items);
            },
            None => {
                let mut items = self.take_items();
                proof {
                    lemma_absent_everywhere::<K, V::Model>(old(self)@, key.model());
                }
                items.push((key, value));
                assert(entries_model(items@) =~= put::<K, V::Model>(
                    old(self)@,
                    key.model(),
                    value.model(),
                ));
                self.put_items(items);
            },
        }
    }

    /// Adds `(key, value)` unless the key is present; says whether it did.
    pub fn insert_absent(&mut self, key: K, value: V) -> (added: bool)
        ensures
            final(self)@ == put_absent::<K, V::Model>(old(self)@, key.model(), value.model()),
            added == !has_key::<K, V::Model>(old(self)@, key.model()),
    {
        proof {
            use_type_invariant(&*self);
        }
        match self.find(&key) {
            Some(_) => false,
            None => {
                let mut items = self.take_items();
                proof {
                    lemma_absent_everywhere::<K, V::Model>(old(self)@, key.model());
                }
                items.push((key, value));
                assert(entries_model(items@) =~= put_absent::<K, V::Model>(
                    old(self)@,
                    key.model(),
                    value.model(),
                ));
                self.put_items(items);
                true
            },
        }
    }

    /// Puts `value` in place of the value at place `i` and hands the old
    /// value back. The key stays.
    pub fn set_value(&mut self, i: usize, value: V) -> (out: V)
        requires
            i < old(self)@.len(),
        ensures
            final(self)@ == old(self)@.update(i as int, (old(self)@[i as int].0, value.model())),
            out.model() == old(self)@[i as int].1,
    {
        let mut items = self.take_items();
        let (stored, out) = items.remove(i);
        items.insert(i, (stored, value));
        assert(entries_model(items@) =~= old(self)@.update(
            i as int,
            (old(self)@[i as int].0, value.model()),
        ));
        self.put_items(items);
        out
    }

    /// Takes the entry of `key` out and hands back its value.
    pub fn remove(&mut self, key: &K) -> (out: Option<V>)
        ensures
            final(self)@ == without::<K, V::Model>(old(self)@, key.model()),
            out.model() == lookup::<K, V::Model>(old(self)@, key.model()),
    {
        proof {
            use_type_invariant(&*self);
        }
        match self.find(key) {
            Some(i) => {
                proof {
                    lemma_first_match_unique::<K, V::Model>(self@, key.model(), i as int);
                }
                let mut items = self.take_items();
                let (_, value) = items.remove(i);
                assert(entries_model(items@) =~= without::<K, V::Model>(old(self)@, key.model()));
                self.put_items(items);
                Some(value)
            },
            None => None,
        }
    }

    /// Takes the entry at place `i` out.
    pub fn remove_at(&mut self, i: usize) -> (out: (K, V))
        requires
            i < old(self)@.len(),
        ensures
            final(self)@ == old(self)@.remove(i as int),
            (out.0.model(), out.1.model()) == old(self)@[i as int],
    {
        proof {
            use_type_invariant(&*self);
        }
        let mut items = self.take_items();
        let out = items.remove(i);
        assert(entries_model(items@) =~= old(self)@.remove(i as int));
        self.put_items(items);
        out
    }

    /// Puts an entry at place `i`. Its key must not be in the table.
    pub fn insert_at(&mut self, i: usize, key: K, value: V)
        requires
            i <= old(self)@.len(),
            forall|j: int|
                0 <= j < old(self)@.len() ==> !K::same(#[trigger] old(self)@[j].0, key.model())
                    && !K::same(key.model(), old(self)@[j].0),
        ensures
            final(self)@ == old(self)@.insert(i as int, (key.model(), value.model())),
    {
        proof {
            use_type_invariant(&*self);
        }
        let mut items = self.take_items();
        items.insert(i, (key, value));
        assert(entries_model(items@) =~= old(self)@.insert(i as int, (key.model(), value.model())));
        self.put_items(items);
    }
}

} // verus!
