//! The property bag and the entity. A bag maps property names (unique) to
//! store values; typed reads and writes go through the value codec, and a
//! missing property falls back to the type's optional reading or raises an
//! error. An entity is an optional key, a bag, and optional opaque version
//! metadata used as an optimistic-concurrency precondition.

use vstd::prelude::*;

use crate::deserialize::Deserialize;
use crate::error::DatastoreParseError;
use crate::error::DatastorersError;
use crate::key::Key;
use crate::serialize::Serialize;
use crate::values::value_view;
use crate::values::DatastoreValue;
use crate::values::ValueView;

verus! {

/// The mapping a sequence of name/value pairs stands for: read front to back,
/// a later pair with the same name wins.
pub open spec fn pairs_map(s: Seq<(String, DatastoreValue)>) -> Map<Seq<char>, ValueView>
    decreases s.len(),
{
    if s.len() == 0 {
        Map::empty()
    } else {
        pairs_map(s.drop_last()).insert(s.last().0@, value_view(s.last().1))
    }
}

/// No two pairs carry the same name.
pub open spec fn pairs_wf(s: Seq<(String, DatastoreValue)>) -> bool {
    forall|i: int, j: int| 0 <= i < j < s.len() ==> (#[trigger] s[i].0@) != (#[trigger] s[j].0@)
}

/// A name is in the mapping exactly when some pair carries it.
pub proof fn lemma_pairs_map_dom(s: Seq<(String, DatastoreValue)>)
    ensures
        forall|i: int| 0 <= i < s.len() ==> pairs_map(s).dom().contains(#[trigger] s[i].0@),
        forall|k: Seq<char>|
            #[trigger] pairs_map(s).dom().contains(k) ==> exists|i: int|
                0 <= i < s.len() && (#[trigger] s[i].0@) == k,
    decreases s.len(),
{
    if s.len() > 0 {
        lemma_pairs_map_dom(s.drop_last());
        assert forall|i: int| 0 <= i < s.len() implies pairs_map(s).dom().contains(
            #[trigger] s[i].0@,
        ) by {
            if i < s.len() - 1 {
                assert(s.drop_last()[i] == s[i]);
            }
        }
        assert forall|k: Seq<char>| #[trigger] pairs_map(s).dom().contains(k) implies exists|i: int|
            0 <= i < s.len() && (#[trigger] s[i].0@) == k by {
            if k != s.last().0@ {
                assert(pairs_map(s.drop_last()).dom().contains(k));
                let i = choose|i: int|
                    0 <= i < s.drop_last().len() && (#[trigger] s.drop_last()[i].0@) == k;
                assert(s.drop_last()[i] == s[i]);
                assert(0 <= i < s.len() && s[i].0@ == k);
            } else {
                let j = s.len() - 1;
                assert(0 <= j < s.len() && s[j].0@ == k);
            }
        }
    }
}

/// In a well-formed sequence, the mapping reads each pair's value at its name.
pub proof fn lemma_pairs_map_get(s: Seq<(String, DatastoreValue)>, i: int)
    requires
        pairs_wf(s),
        0 <= i < s.len(),
    ensures
        pairs_map(s).dom().contains(s[i].0@),
        pairs_map(s)[s[i].0@] == value_view(s[i].1),
    decreases s.len(),
{
    lemma_pairs_map_dom(s);
    if i < s.len() - 1 {
        assert(pairs_wf(s.drop_last()));
        assert(s.drop_last()[i] == s[i]);
        lemma_pairs_map_get(s.drop_last(), i);
        assert(s[i].0@ != s.last().0@);
    }
}

/// Removing the pair at a name removes exactly that name from the mapping.
pub proof fn lemma_pairs_map_remove(s: Seq<(String, DatastoreValue)>, i: int)
    requires
        pairs_wf(s),
        0 <= i < s.len(),
    ensures
        pairs_wf(s.remove(i)),
        pairs_map(s.remove(i)) == pairs_map(s).remove(s[i].0@),
    decreases s.len(),
{
    lemma_pairs_map_dom(s.drop_last());
    assert(pairs_wf(s.remove(i))) by {
        assert forall|m: int, n: int| 0 <= m < n < s.remove(i).len() implies (#[trigger] s.remove(
            i,
        )[m].0@) != (#[trigger] s.remove(i)[n].0@) by {
            let m0 = if m < i {
                m
            } else {
                m + 1
            };
            let n0 = if n < i {
                n
            } else {
                n + 1
            };
            assert(s.remove(i)[m] == s[m0] && s.remove(i)[n] == s[n0]);
        }
    }
    if i == s.len() - 1 {
        assert(s.remove(i) =~= s.drop_last());
        assert(!pairs_map(s.drop_last()).dom().contains(s[i].0@)) by {
            lemma_pairs_map_dom(s.drop_last());
            if pairs_map(s.drop_last()).dom().contains(s[i].0@) {
                let m = choose|m: int|
                    0 <= m < s.drop_last().len() && (#[trigger] s.drop_last()[m].0@) == s[i].0@;
                assert(s[m].0@ == s[i].0@);
            }
        }
        assert(pairs_map(s.remove(i)) =~= pairs_map(s).remove(s[i].0@));
    } else {
        assert(pairs_wf(s.drop_last()));
        lemma_pairs_map_remove(s.drop_last(), i);
        assert(s.remove(i).drop_last() =~= s.drop_last().remove(i));
        assert(s.remove(i).last() == s.last());
        assert(s.remove(i).len() == s.len() - 1);
        assert(pairs_map(s.remove(i)) == pairs_map(s.drop_last().remove(i)).insert(
            s.last().0@,
            value_view(s.last().1),
        ));
        assert(s[i].0@ != s.last().0@);
        assert(pairs_map(s.remove(i)) =~= pairs_map(s).remove(s[i].0@));
    }
}

/// Replacing the pair at a name overwrites exactly that name in the mapping.
pub proof fn lemma_pairs_map_update(
    s: Seq<(String, DatastoreValue)>,
    i: int,
    p: (String, DatastoreValue),
)
    requires
        pairs_wf(s),
        0 <= i < s.len(),
        p.0@ == s[i].0@,
    ensures
        pairs_wf(s.update(i, p)),
        pairs_map(s.update(i, p)) == pairs_map(s).insert(p.0@, value_view(p.1)),
    decreases s.len(),
{
    assert(pairs_wf(s.update(i, p))) by {
        assert forall|m: int, n: int| 0 <= m < n < s.update(i, p).len() implies (#[trigger] s.update(
            i,
            p,
        )[m].0@) != (#[trigger] s.update(i, p)[n].0@) by {
            assert(s.update(i, p)[m].0@ == s[m].0@ && s.update(i, p)[n].0@ == s[n].0@);
        }
    }
    if i == s.len() - 1 {
        assert(s.update(i, p).drop_last() =~= s.drop_last());
        assert(s.update(i, p).last() == p);
        assert(pairs_map(s.update(i, p)) =~= pairs_map(s).insert(p.0@, value_view(p.1)));
    } else {
        assert(pairs_wf(s.drop_last()));
        assert(s.drop_last()[i] == s[i]);
        lemma_pairs_map_update(s.drop_last(), i, p);
        assert(s.update(i, p).drop_last() =~= s.drop_last().update(i, p));
        assert(s.update(i, p).last() == s.last());
        assert(s[i].0@ != s.last().0@);
        assert(pairs_map(s.update(i, p)) =~= pairs_map(s).insert(p.0@, value_view(p.1)));
    }
}

/// An ordered-by-name property map: property names are unique, values are
/// store values. Reads remove the property they read.
#[derive(Debug)]
pub struct DatastoreProperties {
    entries: Vec<(String, DatastoreValue)>,
}

impl View for DatastoreProperties {
    type V = Map<Seq<char>, ValueView>;

    /// The mapping from property names to store-value shapes.
    closed spec fn view(&self) -> Map<Seq<char>, ValueView> {
        pairs_map(self.entries@)
    }
}

impl DatastoreProperties {
    /// Names are unique.
    pub closed spec fn wf(self) -> bool {
        pairs_wf(self.entries@)
    }

    /// An empty property map.
    pub fn new() -> (r: DatastoreProperties)
        ensures
            r.wf(),
            r@ == Map::<Seq<char>, ValueView>::empty(),
    {
        DatastoreProperties { entries: Vec::new() }
    }

    /// Build a property map from name/value pairs; a later pair with the same
    /// name wins.
    #[verifier::loop_isolation(false)]
    pub fn from_pairs(pairs: Vec<(String, DatastoreValue)>) -> (r: DatastoreProperties)
        ensures
            r.wf(),
            r@ == pairs_map(pairs@),
    {
        let ghost orig = pairs@;
        let mut rest = pairs;
        let mut out = DatastoreProperties::new();
        while rest.len() > 0
            invariant
                out.wf(),
                orig =~= orig.take(orig.len() - rest@.len()) + rest@,
                out@ == pairs_map(orig.take(orig.len() - rest@.len())),
            decreases rest@.len(),
        {
            let ghost pre = rest@;
            let ghost k = orig.len() - pre.len();
            let p = rest.remove(0);
            proof {
                assert(pre.remove(0) =~= pre.drop_first());
                assert(orig[k as int] == p);
                assert(orig.take(k + 1).drop_last() =~= orig.take(k as int));
                assert(orig.take(k + 1).last() == p);
                assert(orig =~= orig.take(k + 1) + rest@);
            }
            out.insert_value(p.0, p.1);
        }
        proof {
            assert(orig.take(orig.len() as int) =~= orig);
        }
        out
    }

    /// The name/value pairs, names unique.
    pub fn into_pairs(self) -> (r: Vec<(String, DatastoreValue)>)
        requires
            self.wf(),
        ensures
            pairs_wf(r@),
            pairs_map(r@) == self@,
    {
        self.entries
    }

    /// Set the property to a store value, replacing any previous value.
    #[verifier::loop_isolation(false)]
    pub fn insert_value(&mut self, name: String, value: DatastoreValue)
        requires
            old(self).wf(),
        ensures
            final (self).wf(),
            final (self)@ == old(self)@.insert(name@, value_view(value)),
    {
        let ghost s0 = self.entries@;
        let mut j: usize = 0;
        while j < self.entries.len()
            invariant
                j <= s0.len(),
                self.entries@ == s0,
                forall|m: int| 0 <= m < j ==> (#[trigger] s0[m].0@) != name@,
            decreases s0.len() - j,
        {
            let hit = self.entries[j].0.eq(&name);
            if hit {
                self.entries[j] = (name, value);
                proof {
                    lemma_pairs_map_update(s0, j as int, self.entries@[j as int]);
                }
                return ;
            }
            j += 1;
        }
        self.entries.push((name, value));
        proof {
            assert(self.entries@.drop_last() =~= s0);
            assert(pairs_wf(self.entries@)) by {
                assert forall|m: int, n: int| 0 <= m < n < self.entries@.len() implies (
                #[trigger] self.entries@[m].0@) != (#[trigger] self.entries@[n].0@) by {
                    if n == self.entries@.len() - 1 {
                        assert(s0[m].0@ != name@);
                    } else {
                        assert(s0[m].0@ != s0[n].0@);
                    }
                }
            }
        }
    }

    /// Take the property's store value out of the map, if it is present.
    #[verifier::loop_isolation(false)]
    pub fn remove_value(&mut self, name: &str) -> (r: Option<DatastoreValue>)
        requires
            old(self).wf(),
        ensures
            final (self).wf(),
            match r {
                Some(v) => old(self)@.dom().contains(name@) && value_view(v) == old(self)@[name@]
                    && final (self)@ == old(self)@.remove(name@),
                None => !old(self)@.dom().contains(name@) && final (self)@ == old(self)@,
            },
    {
        let ghost s0 = self.entries@;
        let key = name.to_owned();
        let mut j: usize = 0;
        while j < self.entries.len()
            invariant
                j <= s0.len(),
                self.entries@ == s0,
                forall|m: int| 0 <= m < j ==> (#[trigger] s0[m].0@) != name@,
            decreases s0.len() - j,
        {
            let hit = self.entries[j].0.eq(&key);
            if hit {
                proof {
                    lemma_pairs_map_get(s0, j as int);
                    lemma_pairs_map_remove(s0, j as int);
                }
                let v = self.entries.remove(j);
                return Some(v.1);
            }
            j += 1;
        }
        proof {
            lemma_pairs_map_dom(s0);
            if pairs_map(s0).dom().contains(name@) {
                let i = choose|i: int| 0 <= i < s0.len() && (#[trigger] s0[i].0@) == name@;
                assert(false);
            }
        }
        None
    }

    /// Read and remove the named property as a native value. A present
    /// property is parsed by the codec; an absent one falls back to the
    /// type's optional reading, or fails with a missing-value error.
    pub fn get<T: Deserialize>(&mut self, name: &str) -> (r: Result<T, DatastorersError>)
        requires
            old(self).wf(),
        ensures
            final (self).wf(),
            old(self)@.dom().contains(name@) ==> {
                &&& final (self)@ == old(self)@.remove(name@)
                &&& match r {
                    Ok(x) => T::deser_spec(old(self)@[name@]) == Ok::<
                        T::V,
                        crate::error::DatastoreDeserializeError,
                    >(x.deep_view()),
                    Err(e) => (e matches DatastorersError::DatastoreDeserializeError(de)
                        && T::deser_spec(old(self)@[name@]) == Err::<
                        T::V,
                        crate::error::DatastoreDeserializeError,
                    >(de)),
                }
            },
            !old(self)@.dom().contains(name@) ==> {
                &&& final (self)@ == old(self)@
                &&& match r {
                    Ok(x) => T::missing_spec() == Some(x.deep_view()),
                    Err(e) => T::missing_spec() is None && e == DatastorersError::ParseError(
                        DatastoreParseError::NoSuchValue,
                    ),
                }
            },
    {
        match self.remove_value(name) {
            Some(value) => match T::deserialize(value) {
                Ok(x) => Ok(x),
                Err(e) => Err(DatastorersError::DatastoreDeserializeError(e)),
            },
            None => match T::default_missing() {
                Some(def) => Ok(def),
                None => Err(DatastorersError::ParseError(DatastoreParseError::NoSuchValue)),
            },
        }
    }

    /// Serialize a native value into the named property. A value that
    /// serializes to nothing (an absent optional) leaves the map unchanged —
    /// the property is omitted, not stored as null. When the value is
    /// lossless, reading the property back yields the value again.
    pub fn set<T: Serialize>(&mut self, name: &str, value: T) -> (r: Result<(), DatastorersError>)
        requires
            old(self).wf(),
        ensures
            final (self).wf(),
            match r {
                Ok(_) => match value.ser_spec() {
                    Ok(Some(vv)) => final (self)@ == old(self)@.insert(name@, vv) && (
                    value.lossless() ==> T::deser_spec(vv) == Ok::<
                        T::V,
                        crate::error::DatastoreDeserializeError,
                    >(value.deep_view())),
                    Ok(None) => final (self)@ == old(self)@ && (value.lossless()
                        ==> T::missing_spec() == Some(value.deep_view())),
                    Err(_) => false,
                },
                Err(e) => final (self)@ == old(self)@ && (e
                    matches DatastorersError::DatastoreSerializeError(se) && value.ser_spec()
                    == Err::<Option<ValueView>, crate::error::DatastoreSerializeError>(se)),
            },
    {
        match value.serialize() {
            Ok(Some(v)) => {
                self.insert_value(name.to_owned(), v);
                Ok(())
            },
            Ok(None) => Ok(()),
            Err(e) => Err(DatastorersError::DatastoreSerializeError(e)),
        }
    }
}

/// Metadata riding along an entity: the opaque server-issued version stamp.
/// It is never interpreted by the client, only echoed back on the next write
/// as a concurrency precondition.
#[derive(Debug, Clone, Copy, PartialEq, Eq, Structural)]
pub struct EntityMeta {
    pub version: Option<i64>,
}

impl Default for EntityMeta {
    fn default() -> (r: EntityMeta)
        ensures
            r.version is None,
    {
        EntityMeta { version: None }
    }
}

/// An entity: an optional (possibly partial) key, a property map, and
/// optional version metadata.
#[derive(Debug)]
pub struct DatastoreEntity {
    key: Option<Key>,
    properties: DatastoreProperties,
    meta: EntityMeta,
}

impl DatastoreEntity {
    /// The entity's key, if it carries one.
    pub closed spec fn spec_key(self) -> Option<Key> {
        self.key
    }

    /// The entity's property map.
    pub closed spec fn spec_properties(self) -> DatastoreProperties {
        self.properties
    }

    /// The entity's version stamp, if the store has issued one.
    pub closed spec fn spec_version(self) -> Option<i64> {
        self.meta.version
    }

    /// The property map's names are unique.
    pub open spec fn wf(self) -> bool {
        self.spec_properties().wf()
    }

    /// Assemble an entity.
    pub fn from(key: Option<Key>, properties: DatastoreProperties, version: Option<i64>) -> (r:
        DatastoreEntity)
        ensures
            r.spec_key() == key,
            r.spec_properties() == properties,
            r.spec_version() == version,
    {
        DatastoreEntity { key, properties, meta: EntityMeta { version } }
    }

    /// A copy of the entity's key, if it carries one.
    pub fn key(&self) -> (r: Option<Key>)
        ensures
            match (r, self.spec_key()) {
                (Some(k), Some(k0)) => k@ == k0@,
                (None, None) => true,
                _ => false,
            },
    {
        match &self.key {
            Some(k) => Some(k.duplicate()),
            None => None,
        }
    }

    /// Whether the entity carries a key at all.
    pub fn has_key(&self) -> (r: bool)
        ensures
            r == (self.spec_key() is Some),
    {
        self.key.is_some()
    }

    /// Replace the entity's key.
    pub fn set_key(&mut self, key: Option<Key>)
        ensures
            final (self).spec_key() == key,
            final (self).spec_properties() == old(self).spec_properties(),
            final (self).spec_version() == old(self).spec_version(),
    {
        self.key = key;
    }

    /// The entity's version stamp, if the store has issued one.
    pub fn version(&self) -> (r: Option<i64>)
        ensures
            r == self.spec_version(),
    {
        self.meta.version
    }

    /// Take the entity apart into its property map.
    pub fn into_properties(self) -> (r: DatastoreProperties)
        ensures
            r == self.spec_properties(),
    {
        self.properties
    }

    /// Read the identifier chain of the template's shape out of the entity's
    /// key. An entity without a key at all, where one is required, fails
    /// `NoKey`.
    pub fn key_chain(&self, template: &crate::key::KeyPathElement) -> (r: Result<
        crate::key::KeyPathElement,
        DatastorersError,
    >)
        ensures
            match self.spec_key() {
                None => (r matches Err(e) && e == DatastorersError::DatastoreKeyError(
                    crate::error::DatastoreKeyError::NoKey,
                )),
                Some(k) => match r {
                    Ok(c) => crate::key::parse_key(*template, k) == Ok::<
                        crate::key::KeyPathElement,
                        crate::error::DatastoreKeyError,
                    >(c),
                    Err(e) => (e matches DatastorersError::DatastoreKeyError(ke)
                        && crate::key::parse_key(*template, k) == Err::<
                        crate::key::KeyPathElement,
                        crate::error::DatastoreKeyError,
                    >(ke)),
                },
            },
    {
        match &self.key {
            None => Err(
                DatastorersError::DatastoreKeyError(crate::error::DatastoreKeyError::NoKey),
            ),
            Some(k) => template.from_key(k),
        }
    }

    /// Take the entity apart: key, property map, version.
    pub fn into_parts(self) -> (r: (Option<Key>, DatastoreProperties, Option<i64>))
        ensures
            r.0 == self.spec_key(),
            r.1 == self.spec_properties(),
            r.2 == self.spec_version(),
    {
        let DatastoreEntity { key, properties, meta } = self;
        (key, properties, meta.version)
    }
}

} // verus!
