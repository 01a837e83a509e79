//! The detail mapping that accompanies every error: string keys, tagged values.

use vstd::prelude::*;

verus! {

/// A value without structure.
#[derive(Clone, Copy, Debug, PartialEq, Eq)]
pub enum Scalar {
    Unit,
    Bool(bool),
    U8(u8),
    U16(u16),
    U32(u32),
    U64(u64),
    I8(i8),
    I16(i16),
    I32(i32),
    I64(i64),
    /// The bit pattern of a single-precision number.
    Single(u32),
    /// The bit pattern of a double-precision number.
    Double(u64),
    Char(char),
}

/// A tagged value of the detail mapping.
#[derive(Debug)]
pub enum ContextValue {
    Scalar(Scalar),
    Text(String),
    Bytes(Vec<u8>),
    Optional(Option<Box<ContextValue>>),
    Newtype(Box<ContextValue>),
    List(Vec<ContextValue>),
    Dict(Vec<(ContextValue, ContextValue)>),
}

/// What a `ContextValue` stands for.
pub enum ValueModel {
    Scalar(Scalar),
    Text(Seq<char>),
    Bytes(Seq<u8>),
    Optional(Option<Box<ValueModel>>),
    Newtype(Box<ValueModel>),
    List(Seq<ValueModel>),
    Dict(Seq<(ValueModel, ValueModel)>),
}

impl ContextValue {
    /// The mathematical value, structure by structure.
    pub open spec fn model(&self) -> ValueModel
        decreases self,
    {
        match self {
            ContextValue::Scalar(s) => ValueModel::Scalar(*s),
            ContextValue::Text(t) => ValueModel::Text(t@),
            ContextValue::Bytes(b) => ValueModel::Bytes(b@),
            ContextValue::Optional(None) => ValueModel::Optional(None),
            ContextValue::Optional(Some(inner)) => ValueModel::Optional(
                Some(Box::new(inner.model())),
            ),
            ContextValue::Newtype(inner) => ValueModel::Newtype(Box::new(inner.model())),
            ContextValue::List(items) => ValueModel::List(
                Seq::new(
                    items@.len(),
                    |i: int|
                        if 0 <= i < items@.len() {
                            items@[i].model()
                        } else {
                            ValueModel::Scalar(Scalar::Unit)
                        },
                ),
            ),
            ContextValue::Dict(pairs) => ValueModel::Dict(
                Seq::new(
                    pairs@.len(),
                    |i: int|
                        if 0 <= i < pairs@.len() {
                            (pairs@[i].0.model(), pairs@[i].1.model())
                        } else {
                            (ValueModel::Scalar(Scalar::Unit), ValueModel::Scalar(Scalar::Unit))
                        },
                ),
            ),
        }
    }

    /// A text value.
    pub fn text(content: &str) -> (v: ContextValue)
        ensures
            v@ == ValueModel::Text(content@),
    {
        ContextValue::Text(String::from_str(content))
    }
}

impl View for ContextValue {
    type V = ValueModel;

    open spec fn view(&self) -> ValueModel {
        self.model()
    }
}

impl Clone for ContextValue {
    fn clone(&self) -> (r: Self)
        ensures
            r@ == self@,
    {
        self.duplicate()
    }
}

impl ContextValue {
    /// A copy that stands for the same value.
    #[verifier::loop_isolation(false)]
    pub fn duplicate(&self) -> (r: Self)
        ensures
            r@ == self@,
        decreases self,
    {
        match self {
            ContextValue::Scalar(s) => ContextValue::Scalar(*s),
            ContextValue::Text(t) => ContextValue::Text(t.clone()),
            ContextValue::Bytes(b) => ContextValue::Bytes(b.clone()),
            ContextValue::Optional(None) => ContextValue::Optional(None),
            ContextValue::Optional(Some(inner)) => {
                let copy = inner.duplicate();
                ContextValue::Optional(Some(Box::new(copy)))
            },
            ContextValue::Newtype(inner) => {
                let copy = inner.duplicate();
                ContextValue::Newtype(Box::new(copy))
            },
            ContextValue::List(items) => {
                let mut out: Vec<ContextValue> = Vec::new();
                let mut i: usize = 0;
                while i < items.len()
                    invariant
                        *self == ContextValue::List(*items),
                        i <= items.len(),
                        out.len() == i,
                        forall|j: int| 0 <= j < i ==> (#[trigger] out@[j])@ == items@[j]@,
                    decreases items.len() - i,
                {
                    assert(decreases_to!(*items => items[i as int]));
                    let copy = items[i].duplicate();
                    out.push(copy);
                    i += 1;
                }
                let r = ContextValue::List(out);
                assert(r@->List_0 =~= self@->List_0);
                r
            },
            ContextValue::Dict(pairs) => {
                let mut out: Vec<(ContextValue, ContextValue)> = Vec::new();
                let mut i: usize = 0;
                while i < pairs.len()
                    invariant
                        *self == ContextValue::Dict(*pairs),
                        i <= pairs.len(),
                        out.len() == i,
                        forall|j: int|
                            0 <= j < i ==> (#[trigger] out@[j]).0@ == pairs@[j].0@ && out@[j].1@
                                == pairs@[j].1@,
                    decreases pairs.len() - i,
                {
                    assert(decreases_to!(*pairs => pairs[i as int]));
                    let key = pairs[i].0.duplicate();
                    let value = pairs[i].1.duplicate();
                    out.push((key, value));
                    i += 1;
                }
                let r = ContextValue::Dict(out);
                assert(r@->Dict_0 =~= self@->Dict_0);
                r
            },
        }
    }
}

/// The mapping that a list of entries stands for: a later entry for a key
/// replaces an earlier one.
pub open spec fn entries_map(entries: Seq<(String, ContextValue)>) -> Map<Seq<char>, ValueModel>
    decreases entries.len(),
{
    if entries.len() == 0 {
        Map::empty()
    } else {
        entries_map(entries.drop_last()).insert(entries.last().0@, entries.last().1@)
    }
}

/// The entry at `at` decides the lookup of `key` when no later entry has that key.
pub proof fn lemma_entries_map_hit(entries: Seq<(String, ContextValue)>, key: Seq<char>, at: int)
    requires
        0 <= at < entries.len(),
        entries[at].0@ == key,
        forall|j: int| at < j < entries.len() ==> (#[trigger] entries[j]).0@ != key,
    ensures
        entries_map(entries).contains_key(key),
        entries_map(entries)[key] == entries[at].1@,
    decreases entries.len(),
{
    if at < entries.len() - 1 {
        let front = entries.drop_last();
        assert(forall|j: int| at < j < front.len() ==> (#[trigger] front[j]) == entries[j]);
        lemma_entries_map_hit(front, key, at);
    }
}

/// A key that no entry has is not in the mapping.
pub proof fn lemma_entries_map_miss(entries: Seq<(String, ContextValue)>, key: Seq<char>)
    requires
        forall|j: int| 0 <= j < entries.len() ==> (#[trigger] entries[j]).0@ != key,
    ensures
        !entries_map(entries).contains_key(key),
    decreases entries.len(),
{
    if entries.len() > 0 {
        let front = entries.drop_last();
        assert(forall|j: int| 0 <= j < front.len() ==> (#[trigger] front[j]) == entries[j]);
        lemma_entries_map_miss(front, key);
    }
}

/// Replacing the value of the last entry that has a key binds the key anew
/// and changes nothing else.
pub proof fn lemma_entries_map_replace(
    entries: Seq<(String, ContextValue)>,
    at: int,
    entry: (String, ContextValue),
)
    requires
        0 <= at < entries.len(),
        entries[at].0@ == entry.0@,
        forall|j: int| at < j < entries.len() ==> (#[trigger] entries[j]).0@ != entry.0@,
    ensures
        entries_map(entries.update(at, entry)) == entries_map(entries).insert(entry.0@, entry.1@),
    decreases entries.len(),
{
    let changed = entries.update(at, entry);
    let front = entries.drop_last();
    if at == entries.len() - 1 {
        assert(changed.drop_last() =~= front);
        assert(entries_map(changed) =~= entries_map(entries).insert(entry.0@, entry.1@));
    } else {
        assert(changed.drop_last() =~= front.update(at, entry));
        assert(changed.last() == entries.last());
        assert(entries.last() == entries[entries.len() - 1]);
        assert(forall|j: int| at < j < front.len() ==> (#[trigger] front[j]) == entries[j]);
        lemma_entries_map_replace(front, at, entry);
        assert(entries_map(changed) =~= entries_map(entries).insert(entry.0@, entry.1@));
    }
}

/// A key that no entry has can be added to a list of distinct keys.
pub proof fn lemma_distinct_after_push(
    entries: Seq<(String, ContextValue)>,
    entry: (String, ContextValue),
)
    requires
        distinct_keys(entries),
        forall|j: int| 0 <= j < entries.len() ==> (#[trigger] entries[j]).0@ != entry.0@,
    ensures
        distinct_keys(entries.push(entry)),
{
}

/// A list of distinct keys stands for a mapping of as many keys.
pub proof fn lemma_entries_map_size(entries: Seq<(String, ContextValue)>)
    requires
        distinct_keys(entries),
    ensures
        entries_map(entries).dom().finite(),
        entries_map(entries).dom().len() == entries.len(),
    decreases entries.len(),
{
    if entries.len() > 0 {
        let front = entries.drop_last();
        assert(forall|j: int| 0 <= j < front.len() ==> (#[trigger] front[j]) == entries[j]);
        assert(entries.last() == entries[entries.len() - 1]);
        lemma_entries_map_size(front);
        lemma_entries_map_miss(front, entries.last().0@);
        assert(entries_map(entries).dom() =~= entries_map(front).dom().insert(entries.last().0@));
    }
}

/// Lists that agree entry by entry stand for the same mapping.
pub proof fn lemma_entries_map_agree(
    a: Seq<(String, ContextValue)>,
    b: Seq<(String, ContextValue)>,
)
    requires
        a.len() == b.len(),
        forall|j: int|
            0 <= j < a.len() ==> (#[trigger] a[j]).0@ == b[j].0@ && a[j].1@ == b[j].1@,
    ensures
        entries_map(a) == entries_map(b),
    decreases a.len(),
{
    if a.len() > 0 {
        let fa = a.drop_last();
        let fb = b.drop_last();
        assert(forall|j: int| 0 <= j < fa.len() ==> (#[trigger] fa[j]) == a[j]);
        assert(forall|j: int| 0 <= j < fb.len() ==> (#[trigger] fb[j]) == b[j]);
        assert(a.last() == a[a.len() - 1]);
        assert(b.last() == b[b.len() - 1]);
        lemma_entries_map_agree(fa, fb);
    }
}

/// Whether no two entries have the same key.
pub open spec fn distinct_keys(entries: Seq<(String, ContextValue)>) -> bool {
    forall|i: int, j: int|
        0 <= i < j < entries.len() ==> (#[trigger] entries[i]).0@ != (#[trigger] entries[j]).0@
}

/// The detail mapping: string keys, tagged values. Each key is held once,
/// in the place where it was first inserted.
#[derive(Debug)]
pub struct Context {
    entries: Vec<(String, ContextValue)>,
}

impl View for Context {
    type V = Map<Seq<char>, ValueModel>;

    closed spec fn view(&self) -> Map<Seq<char>, ValueModel> {
        entries_map(self.entries@)
    }
}

impl Context {
    #[verifier::type_invariant]
    spec fn well_formed(&self) -> bool {
        distinct_keys(self.entries@)
    }

    /// The empty mapping.
    pub fn new() -> (c: Context)
        ensures
            c@ == Map::<Seq<char>, ValueModel>::empty(),
    {
        Context { entries: Vec::new() }
    }

    /// Binds `key` to `value`, replacing what `key` was bound to.
    pub fn insert(&mut self, key: String, value: ContextValue)
        ensures
            final(self)@ == old(self)@.insert(key@, value@),
    {
        proof {
            use_type_invariant(&*self);
        }
        let mut entries: Vec<(String, ContextValue)> = Vec::new();
        std::mem::swap(&mut entries, &mut self.entries);
        let ghost before = entries@;
        let mut i: usize = entries.len();
        let mut found: Option<usize> = None;
        while i > 0 && found.is_none()
            invariant
                i <= entries.len(),
                entries@ == before,
                found is None ==> forall|j: int|
                    i <= j < before.len() ==> (#[trigger] before[j]).0@ != key@,
                found is Some ==> found->Some_0 == i && i < before.len() && before[i as int].0@
                    == key@ && forall|j: int|
                    i < j < before.len() ==> (#[trigger] before[j]).0@ != key@,
            decreases i + if found is None { 1int } else { 0int },
        {
            if entries[i - 1].0 == key {
                found = Some(i - 1);
            }
            i -= 1;
        }
        match found {
            Some(at) => {
                proof {
                    lemma_entries_map_replace(before, at as int, (key, value));
                }
                entries.set(at, (key, value));
            },
            None => {
                entries.push((key, value));
                proof {
                    assert(entries@.drop_last() =~= before);
                    lemma_distinct_after_push(before, (key, value));
                }
            },
        }
        self.entries = entries;
    }

    /// The value that `key` is bound to.
    pub fn get(&self, key: &str) -> (r: Option<&ContextValue>)
        ensures
            match r {
                Some(v) => self@.contains_key(key@) && v@ == self@[key@],
                None => !self@.contains_key(key@),
            },
    {
        let wanted = String::from_str(key);
        let mut i: usize = self.entries.len();
        while i > 0
            invariant
                i <= self.entries.len(),
                wanted@ == key@,
                forall|j: int| i <= j < self.entries.len() ==> (#[trigger] self.entries@[j]).0@ != key@,
            decreases i,
        {
            i -= 1;
            if self.entries[i].0 == wanted {
                proof {
                    lemma_entries_map_hit(self.entries@, key@, i as int);
                }
                return Some(&self.entries[i].1);
            }
        }
        proof {
            lemma_entries_map_miss(self.entries@, key@);
        }
        None
    }

    /// Whether `key` is bound.
    pub fn contains_key(&self, key: &str) -> (r: bool)
        ensures
            r == self@.contains_key(key@),
    {
        self.get(key).is_some()
    }

    /// How many keys are bound.
    pub fn len(&self) -> (n: usize)
        ensures
            n == self@.dom().len(),
            self@.dom().finite(),
    {
        proof {
            use_type_invariant(self);
            lemma_entries_map_size(self.entries@);
        }
        self.entries.len()
    }

    /// The entries, each key once, in the order in which the keys were
    /// first inserted.
    pub fn into_entries(self) -> (r: Vec<(String, ContextValue)>)
        ensures
            entries_map(r@) == self@,
            distinct_keys(r@),
    {
        proof {
            use_type_invariant(&self);
        }
        self.entries
    }
}

impl Clone for Context {
    fn clone(&self) -> (r: Self)
        ensures
            r@ == self@,
    {
        let mut out: Vec<(String, ContextValue)> = Vec::new();
        let mut i: usize = 0;
        while i < self.entries.len()
            invariant
                i <= self.entries.len(),
                out.len() == i,
                forall|j: int|
                    0 <= j < i ==> (#[trigger] out@[j]).0@ == self.entries@[j].0@ && out@[j].1@
                        == self.entries@[j].1@,
            decreases self.entries.len() - i,
        {
            let key = self.entries[i].0.clone();
            let value = self.entries[i].1.duplicate();
            out.push((key, value));
            i += 1;
        }
        proof {
            use_type_invariant(self);
            lemma_entries_map_agree(out@, self.entries@);
        }
        Context { entries: out }
    }
}

} // verus!
