//! The tagged key/value envelope carried across the broker channel: a
//! mapping from string keys to tagged values, looked up by first match.
//!
//! By default an envelope enforces unique keys, and inserting a duplicate
//! is refused; an envelope created with [`NvFlag::NoUnique`] accepts
//! duplicates, and lookups then see the earliest insertion.

use vstd::prelude::*;

verus! {

/// How an envelope treats duplicate keys.
#[derive(Clone, Copy, Debug, PartialEq, Eq, Structural)]
pub enum NvFlag {
    /// Keys are unique; inserting an existing key is refused.
    Unique,
    /// Duplicate keys are accepted.
    NoUnique,
}

/// A failure of an envelope operation.
#[derive(Clone, Copy, Debug, PartialEq, Eq, Structural)]
pub enum NvError {
    /// The key is already present and the envelope enforces unique keys.
    Exists,
}

/// One tagged value of an envelope.
#[derive(Debug)]
pub enum NvValue {
    /// An unsigned number.
    Number(u64),
    /// A text string.
    Text(String),
    /// A raw byte blob.
    Binary(Vec<u8>),
    /// A file descriptor number.
    Descriptor(i32),
    /// A nested envelope, carried whole.
    Nested(Box<NvList>),
}

/// One key/value entry of an envelope.
#[derive(Debug)]
pub struct NvPair {
    /// The entry's key.
    pub key: String,
    /// The entry's value.
    pub value: NvValue,
}

/// The value of the first entry with the given key, if any.
pub open spec fn lookup_pairs(pairs: Seq<NvPair>, key: Seq<char>) -> Option<NvValue>
    decreases pairs.len(),
{
    if pairs.len() == 0 {
        None
    } else if pairs.first().key@ == key {
        Some(pairs.first().value)
    } else {
        lookup_pairs(pairs.drop_first(), key)
    }
}

/// Skipping entries whose keys all differ from `key` does not change the
/// first match.
proof fn lemma_lookup_skip(pairs: Seq<NvPair>, key: Seq<char>, i: int)
    requires
        0 <= i <= pairs.len(),
        forall|j: int| 0 <= j < i ==> pairs[j].key@ != key,
    ensures
        lookup_pairs(pairs, key) == lookup_pairs(pairs.skip(i), key),
    decreases i,
{
    if i > 0 {
        lemma_lookup_skip(pairs, key, i - 1);
        assert(pairs.skip(i - 1).first() == pairs[i - 1]);
        assert(pairs.skip(i - 1).drop_first() =~= pairs.skip(i));
    } else {
        assert(pairs.skip(0) =~= pairs);
    }
}

/// What appending one entry does to every lookup: an existing first match
/// stays, and the new entry answers only its own, previously absent, key.
proof fn lemma_lookup_push(pairs: Seq<NvPair>, p: NvPair, k: Seq<char>)
    ensures
        lookup_pairs(pairs.push(p), k) == (if lookup_pairs(pairs, k) is Some {
            lookup_pairs(pairs, k)
        } else if p.key@ == k {
            Some(p.value)
        } else {
            Option::<NvValue>::None
        }),
    decreases pairs.len(),
{
    assert(pairs.push(p)[pairs.len() as int] == p);
    assert(pairs.push(p).len() == pairs.len() + 1);
    if pairs.len() == 0 {
        assert(pairs.push(p).first() == p);
        assert(pairs.push(p).drop_first() =~= Seq::<NvPair>::empty());
        assert(lookup_pairs(pairs.push(p), k) == (if p.key@ == k {
            Some(p.value)
        } else {
            lookup_pairs(pairs.push(p).drop_first(), k)
        }));
        assert(lookup_pairs(Seq::<NvPair>::empty(), k) is None);
        assert(lookup_pairs(pairs, k) is None);
    } else {
        assert(pairs.push(p)[0] == pairs[0]);
        assert(pairs.push(p).first() == pairs.first());
        assert(pairs.push(p).drop_first() =~= pairs.drop_first().push(p));
        lemma_lookup_push(pairs.drop_first(), p, k);
        assert(lookup_pairs(pairs.push(p), k) == (if pairs.first().key@ == k {
            Some(pairs.first().value)
        } else {
            lookup_pairs(pairs.drop_first().push(p), k)
        }));
        assert(lookup_pairs(pairs, k) == (if pairs.first().key@ == k {
            Some(pairs.first().value)
        } else {
            lookup_pairs(pairs.drop_first(), k)
        }));
    }
}

/// A lookup misses exactly when no entry has the key.
proof fn lemma_lookup_none(pairs: Seq<NvPair>, key: Seq<char>)
    ensures
        (lookup_pairs(pairs, key) is None) <==> (forall|i: int|
            0 <= i < pairs.len() ==> pairs[i].key@ != key),
    decreases pairs.len(),
{
    if pairs.len() > 0 {
        lemma_lookup_none(pairs.drop_first(), key);
        assert forall|i: int| 0 <= i < pairs.drop_first().len() implies pairs.drop_first()[i]
            == pairs[i + 1] by {}
        if lookup_pairs(pairs, key) is None {
            assert forall|i: int| 0 <= i < pairs.len() implies pairs[i].key@ != key by {
                if i > 0 {
                    assert(pairs[i] == pairs.drop_first()[i - 1]);
                }
            }
        }
    }
}

/// What replacing the first entry of a key in place does to every lookup:
/// the key now answers the new value, every other key is untouched.
proof fn lemma_lookup_update(pairs: Seq<NvPair>, i: int, p: NvPair, k: Seq<char>)
    requires
        0 <= i < pairs.len(),
        pairs[i].key@ == p.key@,
        forall|j: int| 0 <= j < i ==> pairs[j].key@ != p.key@,
    ensures
        lookup_pairs(pairs.update(i, p), k) == (if p.key@ == k {
            Some(p.value)
        } else {
            lookup_pairs(pairs, k)
        }),
    decreases i,
{
    if i == 0 {
        assert(pairs.update(0, p).first() == p);
        assert(pairs.update(0, p).drop_first() =~= pairs.drop_first());
    } else {
        assert(pairs.update(i, p).first() == pairs.first());
        assert(pairs.update(i, p).drop_first() =~= pairs.drop_first().update(i - 1, p));
        assert forall|j: int| 0 <= j < i - 1 implies pairs.drop_first()[j].key@ != p.key@ by {
            assert(pairs.drop_first()[j] == pairs[j + 1]);
        }
        assert(pairs.drop_first()[i - 1] == pairs[i]);
        lemma_lookup_update(pairs.drop_first(), i - 1, p, k);
    }
}

/// A tagged key/value envelope.
#[derive(Debug)]
pub struct NvList {
    flag: NvFlag,
    pairs: Vec<NvPair>,
}

impl NvList {
    /// A unique-keys envelope never holds two entries with one key.
    #[verifier::type_invariant]
    pub closed spec fn wf(self) -> bool {
        self.flag == NvFlag::Unique ==> forall|i: int, j: int|
            #![trigger self.pairs@[i], self.pairs@[j]]
            0 <= i < j < self.pairs@.len() ==> self.pairs@[i].key@ != self.pairs@[j].key@
    }

    /// The envelope's entries, in insertion order.
    pub closed spec fn spec_pairs(self) -> Seq<NvPair> {
        self.pairs@
    }

    /// The envelope's duplicate-key mode.
    pub closed spec fn spec_flag(self) -> NvFlag {
        self.flag
    }

    /// The value of the first entry with this key, if any.
    pub open spec fn spec_lookup(self, key: Seq<char>) -> Option<NvValue> {
        lookup_pairs(self.spec_pairs(), key)
    }

    /// The number this key maps to, if it maps to a number.
    pub open spec fn spec_get_number(self, key: Seq<char>) -> Option<u64> {
        match self.spec_lookup(key) {
            Some(NvValue::Number(n)) => Some(n),
            _ => None,
        }
    }

    /// The text this key maps to, if it maps to text.
    pub open spec fn spec_get_text(self, key: Seq<char>) -> Option<Seq<char>> {
        match self.spec_lookup(key) {
            Some(NvValue::Text(s)) => Some(s@),
            _ => None,
        }
    }

    /// An empty envelope.
    pub fn new(flag: NvFlag) -> (nvl: NvList)
        ensures
            nvl.spec_pairs() == Seq::<NvPair>::empty(),
            nvl.spec_flag() == flag,
    {
        NvList { flag, pairs: Vec::new() }
    }

    /// How many entries the envelope holds.
    pub fn len(&self) -> (n: usize)
        ensures
            n == self.spec_pairs().len(),
    {
        self.pairs.len()
    }

    /// Whether the envelope holds no entry.
    pub fn is_empty(&self) -> (r: bool)
        ensures
            r == (self.spec_pairs().len() == 0),
    {
        self.pairs.len() == 0
    }

    /// Find the first entry with this key.
    fn find(&self, key: &str) -> (r: Option<usize>)
        ensures
            match r {
                Some(i) => i < self.spec_pairs().len() && self.spec_pairs()[i as int].key@ == key@
                    && self.spec_lookup(key@) == Some(self.spec_pairs()[i as int].value) && (
                    forall|j: int| 0 <= j < i ==> self.spec_pairs()[j].key@ != key@),
                None => self.spec_lookup(key@) is None,
            },
    {
        let owned = key.to_owned();
        let n = self.pairs.len();
        let mut i: usize = 0;
        while i < n
            invariant
                n == self.pairs@.len(),
                i <= n,
                owned@ == key@,
                forall|j: int| 0 <= j < i ==> self.pairs@[j].key@ != key@,
            decreases n - i,
        {
            if self.pairs[i].key == owned {
                proof {
                    lemma_lookup_skip(self.pairs@, key@, i as int);
                    assert(self.pairs@.skip(i as int).first() == self.pairs@[i as int]);
                }
                return Some(i);
            }
            i = i + 1;
        }
        proof {
            lemma_lookup_skip(self.pairs@, key@, n as int);
            assert(self.pairs@.skip(n as int) =~= Seq::<NvPair>::empty());
        }
        None
    }

    /// A borrow of the value the key maps to, if any.
    pub fn get(&self, key: &str) -> (r: Option<&NvValue>)
        ensures
            match r {
                Some(v) => self.spec_lookup(key@) == Some(*v),
                None => self.spec_lookup(key@) is None,
            },
    {
        match self.find(key) {
            Some(i) => Some(&self.pairs[i].value),
            None => None,
        }
    }

    /// Whether the key maps to anything.
    pub fn contains_key(&self, key: &str) -> (r: bool)
        ensures
            r == (self.spec_lookup(key@) is Some),
    {
        self.find(key).is_some()
    }

    /// The number the key maps to, if it maps to a number.
    pub fn get_number(&self, key: &str) -> (r: Option<u64>)
        ensures
            r == self.spec_get_number(key@),
    {
        match self.get(key) {
            Some(NvValue::Number(n)) => Some(*n),
            _ => None,
        }
    }

    /// A copy of the text the key maps to, if it maps to text.
    pub fn get_string(&self, key: &str) -> (r: Option<String>)
        ensures
            match r {
                Some(s) => self.spec_get_text(key@) == Some(s@),
                None => self.spec_get_text(key@) is None,
            },
    {
        match self.get(key) {
            Some(NvValue::Text(s)) => Some(s.clone()),
            _ => None,
        }
    }

    /// Append an entry.  Refused when the envelope enforces unique keys and
    /// the key is already present; lookups of every other key are
    /// unaffected, and in a duplicate-accepting envelope an earlier entry
    /// keeps answering its key.
    pub fn insert(&mut self, key: &str, value: NvValue) -> (r: Result<(), NvError>)
        ensures
            r is Ok <==> (old(self).spec_flag() == NvFlag::NoUnique || old(self).spec_lookup(key@)
                is None),
            r is Ok ==> final(self).spec_pairs().len() == old(self).spec_pairs().len() + 1,
            r is Ok ==> final(self).spec_pairs().last().key@ == key@,
            r is Ok ==> final(self).spec_pairs().last().value == value,
            r is Ok ==> final(self).spec_pairs().drop_last() == old(self).spec_pairs(),
            r is Ok ==> final(self).spec_lookup(key@) == (if old(self).spec_lookup(key@) is Some {
                old(self).spec_lookup(key@)
            } else {
                Some(value)
            }),
            forall|k: Seq<char>|
                k != key@ ==> final(self).spec_lookup(k) == old(self).spec_lookup(k),
            final(self).spec_flag() == old(self).spec_flag(),
            r is Err ==> *final(self) == *old(self) && r == Err::<(), NvError>(NvError::Exists),
    {
        proof {
            use_type_invariant(&*self);
        }
        let unique = matches!(self.flag, NvFlag::Unique);
        if unique && self.contains_key(key) {
            return Err(NvError::Exists);
        }
        let p = NvPair { key: key.to_owned(), value };
        proof {
            let pairs = self.pairs@;
            assert forall|k: Seq<char>| true implies lookup_pairs(pairs.push(p), k) == (if
                lookup_pairs(pairs, k) is Some {
                lookup_pairs(pairs, k)
            } else if p.key@ == k {
                Some(p.value)
            } else {
                Option::<NvValue>::None
            }) by {
                lemma_lookup_push(pairs, p, k);
            }
            if self.flag == NvFlag::Unique {
                lemma_lookup_none(pairs, key@);
            }
        }
        let mut pairs = Vec::new();
        std::mem::swap(&mut pairs, &mut self.pairs);
        pairs.push(p);
        std::mem::swap(&mut pairs, &mut self.pairs);
        Ok(())
    }

    /// Append a number entry; see [`NvList::insert`].
    pub fn insert_number(&mut self, key: &str, value: u64) -> (r: Result<(), NvError>)
        ensures
            r is Ok <==> (old(self).spec_flag() == NvFlag::NoUnique || old(self).spec_lookup(key@)
                is None),
            r is Ok ==> final(self).spec_lookup(key@) == (if old(self).spec_lookup(key@) is Some {
                old(self).spec_lookup(key@)
            } else {
                Some(NvValue::Number(value))
            }),
            forall|k: Seq<char>|
                k != key@ ==> final(self).spec_lookup(k) == old(self).spec_lookup(k),
            final(self).spec_flag() == old(self).spec_flag(),
            r is Err ==> *final(self) == *old(self) && r == Err::<(), NvError>(NvError::Exists),
    {
        self.insert(key, NvValue::Number(value))
    }

    /// Append a text entry; see [`NvList::insert`].
    pub fn insert_string(&mut self, key: &str, value: &str) -> (r: Result<(), NvError>)
        ensures
            r is Ok <==> (old(self).spec_flag() == NvFlag::NoUnique || old(self).spec_lookup(key@)
                is None),
            r is Ok ==> final(self).spec_get_text(key@) == (if old(self).spec_lookup(key@) is Some {
                old(self).spec_get_text(key@)
            } else {
                Some(value@)
            }),
            forall|k: Seq<char>|
                k != key@ ==> final(self).spec_lookup(k) == old(self).spec_lookup(k),
            final(self).spec_flag() == old(self).spec_flag(),
            r is Err ==> *final(self) == *old(self) && r == Err::<(), NvError>(NvError::Exists),
    {
        self.insert(key, NvValue::Text(value.to_owned()))
    }

    /// Make the key map to this number, replacing the entry in place if the
    /// key is present and appending one otherwise.  Every other key keeps
    /// its value.  This is how the framing layer owns a reserved key.
    pub fn set_number(&mut self, key: &str, value: u64)
        ensures
            final(self).spec_lookup(key@) == Some(NvValue::Number(value)),
            final(self).spec_get_number(key@) == Some(value),
            forall|k: Seq<char>|
                k != key@ ==> final(self).spec_lookup(k) == old(self).spec_lookup(k),
            final(self).spec_flag() == old(self).spec_flag(),
    {
        proof {
            use_type_invariant(&*self);
        }
        match self.find(key) {
            Some(i) => {
                let p = NvPair { key: key.to_owned(), value: NvValue::Number(value) };
                proof {
                    let pairs = self.pairs@;
                    assert forall|k: Seq<char>| true implies lookup_pairs(
                        pairs.update(i as int, p),
                        k,
                    ) == (if p.key@ == k {
                        Some(p.value)
                    } else {
                        lookup_pairs(pairs, k)
                    }) by {
                        lemma_lookup_update(pairs, i as int, p, k);
                    }
                }
                let mut pairs = Vec::new();
                std::mem::swap(&mut pairs, &mut self.pairs);
                pairs[i] = p;
                std::mem::swap(&mut pairs, &mut self.pairs);
            },
            None => {
                let p = NvPair { key: key.to_owned(), value: NvValue::Number(value) };
                proof {
                    let pairs = self.pairs@;
                    assert forall|k: Seq<char>| true implies lookup_pairs(pairs.push(p), k) == (if
                        lookup_pairs(pairs, k) is Some {
                        lookup_pairs(pairs, k)
                    } else if p.key@ == k {
                        Some(p.value)
                    } else {
                        Option::<NvValue>::None
                    }) by {
                        lemma_lookup_push(pairs, p, k);
                    }
                    lemma_lookup_none(pairs, key@);
                }
                let mut pairs = Vec::new();
                std::mem::swap(&mut pairs, &mut self.pairs);
                pairs.push(p);
                std::mem::swap(&mut pairs, &mut self.pairs);
            },
        }
    }
}

} // verus!
