//! Hierarchical entity identity: a key is a non-empty path of elements, each
//! carrying a kind and an id, a name, or neither ("unassigned"). An identifier
//! chain is the typed mirror of a key path: a composition of id-typed and
//! name-typed links ending in a terminator. A chain flattens into a key,
//! root-first, and is read back out of a key by structural validation.
//!
//! Only a path's last element may be unassigned: ancestors are always
//! concrete, and only the entity's own identity may be pending. This rule is
//! applied uniformly to id-typed and name-typed links.

use vstd::prelude::*;

use crate::error::DatastoreKeyError;
use crate::error::DatastorersError;

verus! {

/// One element of a key path: a kind plus at most one of an id or a name.
#[derive(Debug, Clone, PartialEq, Eq)]
pub struct PathElement {
    pub kind: Option<String>,
    pub id: Option<i64>,
    pub name: Option<String>,
}

/// A hierarchical key: an ordered path of elements, root first. A key without
/// a path, or with an empty path, is invalid for identification purposes and
/// is rejected when an identifier chain is read from it.
#[derive(Debug, Clone, PartialEq, Eq)]
pub struct Key {
    pub path: Option<Vec<PathElement>>,
}

impl View for Key {
    type V = Option<Seq<PathElement>>;

    /// A key's shape: its path as a sequence of elements, if it has one.
    open spec fn view(&self) -> Option<Seq<PathElement>> {
        match self.path {
            Some(p) => Some(p@),
            None => None,
        }
    }
}

impl PathElement {
    /// An exact copy of the element.
    pub fn duplicate(&self) -> (r: PathElement)
        ensures
            r == *self,
    {
        PathElement {
            kind: match &self.kind {
                Some(k) => Some(k.clone()),
                None => None,
            },
            id: self.id,
            name: match &self.name {
                Some(n) => Some(n.clone()),
                None => None,
            },
        }
    }
}

impl Key {
    /// A copy of the key with the same shape.
    pub fn duplicate(&self) -> (r: Key)
        ensures
            r@ == self@,
    {
        match &self.path {
            None => Key { path: None },
            Some(p) => {
                let mut out: Vec<PathElement> = Vec::new();
                let mut j: usize = 0;
                while j < p.len()
                    invariant
                        j <= p@.len(),
                        out@.len() == j,
                        forall|m: int| 0 <= m < j ==> out@[m] == p@[m],
                    decreases p@.len() - j,
                {
                    out.push(p[j].duplicate());
                    j += 1;
                }
                proof {
                    assert(out@ =~= p@);
                }
                Key { path: Some(out) }
            },
        }
    }

    /// Whether the key has a non-empty path whose last element carries an id
    /// or a name: the shape an already-persisted entity's key has.
    pub open spec fn spec_leaf_assigned(self) -> bool {
        match self.path {
            Some(p) => p@.len() > 0 && (p@.last().id is Some || p@.last().name is Some),
            None => false,
        }
    }

    /// Whether the key identifies a persisted entity: a non-empty path whose
    /// last element carries an id or a name.
    pub fn leaf_assigned(&self) -> (r: bool)
        ensures
            r == self.spec_leaf_assigned(),
    {
        match &self.path {
            Some(p) => {
                if p.len() == 0 {
                    false
                } else {
                    let last = &p[p.len() - 1];
                    last.id.is_some() || last.name.is_some()
                }
            },
            None => false,
        }
    }
}

/// The identity a single chain link carries.
#[derive(Debug, Clone, PartialEq, Eq)]
pub enum Identifier {
    /// A numeric id.
    Id(i64),
    /// A string name.
    Name(String),
    /// No identity yet: the entity is not persisted.
    Unassigned,
}

/// The terminator of an identifier chain: it stands after the leaf link and
/// requires no further path elements.
#[derive(Debug, Clone, PartialEq, Eq)]
pub struct IdentifierNone {}

impl IdentifierNone {
    pub fn none() -> (r: IdentifierNone)
        ensures
            r == (IdentifierNone {  }),
    {
        IdentifierNone {  }
    }
}

/// An id-typed link: its path element carries this kind and a numeric id,
/// or no identity at all while the entity is not yet persisted.
#[derive(Debug, PartialEq, Eq)]
pub struct IdentifierId {
    pub kind: String,
    pub id: Option<i64>,
    pub child: Box<KeyPathElement>,
}

/// A name-typed link: its path element carries this kind and a string name,
/// or no identity at all while the entity is not yet persisted.
#[derive(Debug, PartialEq, Eq)]
pub struct IdentifierName {
    pub kind: String,
    pub name: Option<String>,
    pub child: Box<KeyPathElement>,
}

/// One link of an identifier chain: an id-typed link, a name-typed link, or
/// the terminator.
#[derive(Debug, PartialEq, Eq)]
pub enum KeyPathElement {
    IdLink(IdentifierId),
    NameLink(IdentifierName),
    EndLink(IdentifierNone),
}

impl IdentifierId {
    /// Build an id-typed link over the given child chain.
    pub fn id(kind: &str, id: Option<i64>, child: KeyPathElement) -> (r: KeyPathElement)
        ensures
            r matches KeyPathElement::IdLink(l) && l.kind@ == kind@ && l.id == id
                && *l.child == child,
    {
        KeyPathElement::IdLink(IdentifierId { kind: kind.to_owned(), id, child: Box::new(child) })
    }
}

impl IdentifierName {
    /// Build a name-typed link over the given child chain.
    pub fn name(kind: &str, name: Option<String>, child: KeyPathElement) -> (r: KeyPathElement)
        ensures
            r matches KeyPathElement::NameLink(l) && l.kind@ == kind@ && l.name == name
                && *l.child == child,
    {
        KeyPathElement::NameLink(
            IdentifierName { kind: kind.to_owned(), name, child: Box::new(child) },
        )
    }
}

/// How many links a chain holds, the terminator not counted.
pub open spec fn chain_len(c: KeyPathElement) -> nat
    decreases c,
{
    match c {
        KeyPathElement::IdLink(l) => 1 + chain_len(*l.child),
        KeyPathElement::NameLink(l) => 1 + chain_len(*l.child),
        KeyPathElement::EndLink(_) => 0,
    }
}

/// The path elements a chain writes into a key, root first.
pub open spec fn chain_segments(c: KeyPathElement) -> Seq<PathElement>
    decreases c,
{
    match c {
        KeyPathElement::IdLink(l) => seq![
            (PathElement { kind: Some(l.kind), id: l.id, name: None }),
        ] + chain_segments(*l.child),
        KeyPathElement::NameLink(l) => seq![
            (PathElement { kind: Some(l.kind), id: None, name: l.name }),
        ] + chain_segments(*l.child),
        KeyPathElement::EndLink(_) => Seq::empty(),
    }
}

/// Reading a chain out of a path, directed by a template chain whose kinds
/// and link types (not identities) prescribe the expected shape. At each
/// position the element must exist and carry the template's kind; an id-typed
/// link takes the element's id, a name-typed link its name; an element
/// without an identity is accepted only at the path's last position. Path
/// elements beyond the template's depth are ignored.
pub open spec fn parse_chain(template: KeyPathElement, path: Seq<PathElement>, index: int) -> Result<
    KeyPathElement,
    DatastoreKeyError,
>
    decreases template,
{
    match template {
        KeyPathElement::EndLink(_) => Ok(KeyPathElement::EndLink(IdentifierNone {  })),
        KeyPathElement::IdLink(l) => {
            if index < 0 || index >= path.len() {
                Err(DatastoreKeyError::NoKeyPathElement)
            } else {
                let elem = path[index];
                match elem.kind {
                    None => Err(DatastoreKeyError::NoKind),
                    Some(k) => {
                        if k@ != l.kind@ {
                            Err((DatastoreKeyError::WrongKind { expected: l.kind, found: k }))
                        } else {
                            match elem.id {
                                Some(i) => match parse_chain(*l.child, path, index + 1) {
                                    Ok(child) => Ok(
                                        KeyPathElement::IdLink(
                                            IdentifierId {
                                                kind: l.kind,
                                                id: Some(i),
                                                child: Box::new(child),
                                            },
                                        ),
                                    ),
                                    Err(e) => Err(e),
                                },
                                None => {
                                    if index == path.len() - 1 {
                                        match parse_chain(*l.child, path, index + 1) {
                                            Ok(child) => Ok(
                                                KeyPathElement::IdLink(
                                                    IdentifierId {
                                                        kind: l.kind,
                                                        id: None,
                                                        child: Box::new(child),
                                                    },
                                                ),
                                            ),
                                            Err(e) => Err(e),
                                        }
                                    } else {
                                        Err(DatastoreKeyError::ExpectedId)
                                    }
                                },
                            }
                        }
                    },
                }
            }
        },
        KeyPathElement::NameLink(l) => {
            if index < 0 || index >= path.len() {
                Err(DatastoreKeyError::NoKeyPathElement)
            } else {
                let elem = path[index];
                match elem.kind {
                    None => Err(DatastoreKeyError::NoKind),
                    Some(k) => {
                        if k@ != l.kind@ {
                            Err((DatastoreKeyError::WrongKind { expected: l.kind, found: k }))
                        } else {
                            match elem.name {
                                Some(n) => match parse_chain(*l.child, path, index + 1) {
                                    Ok(child) => Ok(
                                        KeyPathElement::NameLink(
                                            IdentifierName {
                                                kind: l.kind,
                                                name: Some(n),
                                                child: Box::new(child),
                                            },
                                        ),
                                    ),
                                    Err(e) => Err(e),
                                },
                                None => {
                                    if index == path.len() - 1 {
                                        match parse_chain(*l.child, path, index + 1) {
                                            Ok(child) => Ok(
                                                KeyPathElement::NameLink(
                                                    IdentifierName {
                                                        kind: l.kind,
                                                        name: None,
                                                        child: Box::new(child),
                                                    },
                                                ),
                                            ),
                                            Err(e) => Err(e),
                                        }
                                    } else {
                                        Err(DatastoreKeyError::ExpectedName)
                                    }
                                },
                            }
                        }
                    },
                }
            }
        },
    }
}

/// Reading a chain out of a whole key: a key without a path is rejected, so
/// is one with an empty path; otherwise the path is read from its root.
pub open spec fn parse_key(template: KeyPathElement, key: Key) -> Result<
    KeyPathElement,
    DatastoreKeyError,
> {
    match key.path {
        None => Err(DatastoreKeyError::NoKeyPath),
        Some(p) => if p@.len() == 0 {
            Err(DatastoreKeyError::NoKeyPathElement)
        } else {
            parse_chain(template, p@, 0)
        },
    }
}

impl KeyPathElement {
    /// The terminator chain.
    pub fn end() -> (r: KeyPathElement)
        ensures
            r == KeyPathElement::EndLink((IdentifierNone {  })),
    {
        KeyPathElement::EndLink(IdentifierNone::none())
    }

    /// The identity this link carries.
    pub fn identifier(&self) -> (r: Identifier)
        ensures
            r == match *self {
                KeyPathElement::IdLink(l) => match l.id {
                    Some(i) => Identifier::Id(i),
                    None => Identifier::Unassigned,
                },
                KeyPathElement::NameLink(l) => match l.name {
                    Some(n) => Identifier::Name(n),
                    None => Identifier::Unassigned,
                },
                KeyPathElement::EndLink(_) => Identifier::Unassigned,
            },
    {
        match self {
            KeyPathElement::IdLink(l) => match l.id {
                Some(i) => Identifier::Id(i),
                None => Identifier::Unassigned,
            },
            KeyPathElement::NameLink(l) => match &l.name {
                Some(n) => Identifier::Name(n.clone()),
                None => Identifier::Unassigned,
            },
            KeyPathElement::EndLink(_) => Identifier::Unassigned,
        }
    }

    /// The kind this link declares; the terminator declares none.
    pub fn kind(&self) -> (r: &str)
        ensures
            r@ == self.spec_kind(),
    {
        match self {
            KeyPathElement::IdLink(l) => l.kind.as_str(),
            KeyPathElement::NameLink(l) => l.kind.as_str(),
            KeyPathElement::EndLink(_) => "",
        }
    }

    /// The kind this link declares, as a character sequence.
    pub open spec fn spec_kind(self) -> Seq<char> {
        match self {
            KeyPathElement::IdLink(l) => l.kind@,
            KeyPathElement::NameLink(l) => l.kind@,
            KeyPathElement::EndLink(_) => ""@,
        }
    }

    /// Append this chain's path elements, root first, to the key. A key
    /// without a path is left untouched.
    pub fn fill_key(&self, key: &mut Key)
        ensures
            match old(key).path {
                Some(p) => (final (key).path matches Some(q) && q@ == p@ + chain_segments(*self)),
                None => final (key).path is None,
            },
        decreases *self,
    {
        match self {
            KeyPathElement::IdLink(l) => {
                match &mut key.path {
                    Some(path) => path.push(
                        PathElement { kind: Some(l.kind.clone()), id: l.id, name: None },
                    ),
                    None => (),
                }
                l.child.fill_key(key);
                proof {
                    if old(key).path is Some {
                        assert(key.path->Some_0@ =~= old(key).path->Some_0@ + chain_segments(
                            *self,
                        ));
                    }
                }
            },
            KeyPathElement::NameLink(l) => {
                match &mut key.path {
                    Some(path) => path.push(
                        PathElement { kind: Some(l.kind.clone()), id: None, name: l.name.clone() },
                    ),
                    None => (),
                }
                l.child.fill_key(key);
                proof {
                    if old(key).path is Some {
                        assert(key.path->Some_0@ =~= old(key).path->Some_0@ + chain_segments(
                            *self,
                        ));
                    }
                }
            },
            KeyPathElement::EndLink(_) => {
                proof {
                    assert(old(key).path matches Some(p) ==> p@ =~= p@ + chain_segments(*self));
                }
            },
        }
    }

    /// Flatten the chain, root first, into a fresh key.
    pub fn get_key(&self) -> (r: Key)
        ensures
            r.path matches Some(p) && p@ == chain_segments(*self),
    {
        let mut key = Key { path: Some(Vec::new()) };
        self.fill_key(&mut key);
        proof {
            assert(key.path matches Some(p) ==> p@ =~= chain_segments(*self));
        }
        key
    }

    /// Read a chain of this template's shape out of a path, starting at the
    /// given position.
    pub fn from_path_elements(&self, path: &Vec<PathElement>, index: usize) -> (r: Result<
        KeyPathElement,
        DatastorersError,
    >)
        ensures
            match r {
                Ok(c) => parse_chain(*self, path@, index as int) == Ok::<
                    KeyPathElement,
                    DatastoreKeyError,
                >(c),
                Err(e) => (e matches DatastorersError::DatastoreKeyError(ke) && parse_chain(
                    *self,
                    path@,
                    index as int,
                ) == Err::<KeyPathElement, DatastoreKeyError>(ke)),
            },
        decreases *self,
    {
        match self {
            KeyPathElement::EndLink(_) => Ok(KeyPathElement::EndLink(IdentifierNone::none())),
            KeyPathElement::IdLink(l) => {
                if index >= path.len() {
                    Err(DatastorersError::DatastoreKeyError(DatastoreKeyError::NoKeyPathElement))
                } else {
                    let elem = &path[index];
                    match &elem.kind {
                        None => Err(DatastorersError::DatastoreKeyError(DatastoreKeyError::NoKind)),
                        Some(k) => {
                            if !k.eq(&l.kind) {
                                Err(
                                    DatastorersError::DatastoreKeyError(
                                        (DatastoreKeyError::WrongKind {
                                            expected: l.kind.clone(),
                                            found: k.clone(),
                                        }),
                                    ),
                                )
                            } else {
                                match elem.id {
                                    Some(i) => {
                                        let child = l.child.from_path_elements(path, index + 1)?;
                                        Ok(
                                            KeyPathElement::IdLink(
                                                IdentifierId {
                                                    kind: l.kind.clone(),
                                                    id: Some(i),
                                                    child: Box::new(child),
                                                },
                                            ),
                                        )
                                    },
                                    None => {
                                        if index == path.len() - 1 {
                                            let child = l.child.from_path_elements(
                                                path,
                                                index + 1,
                                            )?;
                                            Ok(
                                                KeyPathElement::IdLink(
                                                    IdentifierId {
                                                        kind: l.kind.clone(),
                                                        id: None,
                                                        child: Box::new(child),
                                                    },
                                                ),
                                            )
                                        } else {
                                            Err(
                                                DatastorersError::DatastoreKeyError(
                                                    DatastoreKeyError::ExpectedId,
                                                ),
                                            )
                                        }
                                    },
                                }
                            }
                        },
                    }
                }
            },
            KeyPathElement::NameLink(l) => {
                if index >= path.len() {
                    Err(DatastorersError::DatastoreKeyError(DatastoreKeyError::NoKeyPathElement))
                } else {
                    let elem = &path[index];
                    match &elem.kind {
                        None => Err(DatastorersError::DatastoreKeyError(DatastoreKeyError::NoKind)),
                        Some(k) => {
                            if !k.eq(&l.kind) {
                                Err(
                                    DatastorersError::DatastoreKeyError(
                                        (DatastoreKeyError::WrongKind {
                                            expected: l.kind.clone(),
                                            found: k.clone(),
                                        }),
                                    ),
                                )
                            } else {
                                match &elem.name {
                                    Some(n) => {
                                        let child = l.child.from_path_elements(path, index + 1)?;
                                        Ok(
                                            KeyPathElement::NameLink(
                                                IdentifierName {
                                                    kind: l.kind.clone(),
                                                    name: Some(n.clone()),
                                                    child: Box::new(child),
                                                },
                                            ),
                                        )
                                    },
                                    None => {
                                        if index == path.len() - 1 {
                                            let child = l.child.from_path_elements(
                                                path,
                                                index + 1,
                                            )?;
                                            Ok(
                                                KeyPathElement::NameLink(
                                                    IdentifierName {
                                                        kind: l.kind.clone(),
                                                        name: None,
                                                        child: Box::new(child),
                                                    },
                                                ),
                                            )
                                        } else {
                                            Err(
                                                DatastorersError::DatastoreKeyError(
                                                    DatastoreKeyError::ExpectedName,
                                                ),
                                            )
                                        }
                                    },
                                }
                            }
                        },
                    }
                }
            },
        }
    }

    /// Read a chain of this template's shape out of a whole key.
    pub fn from_key(&self, key: &Key) -> (r: Result<KeyPathElement, DatastorersError>)
        ensures
            match r {
                Ok(c) => parse_key(*self, *key) == Ok::<KeyPathElement, DatastoreKeyError>(c),
                Err(e) => (e matches DatastorersError::DatastoreKeyError(ke) && parse_key(
                    *self,
                    *key,
                ) == Err::<KeyPathElement, DatastoreKeyError>(ke)),
            },
    {
        match &key.path {
            None => Err(DatastorersError::DatastoreKeyError(DatastoreKeyError::NoKeyPath)),
            Some(p) => {
                if p.len() == 0 {
                    Err(DatastorersError::DatastoreKeyError(DatastoreKeyError::NoKeyPathElement))
                } else {
                    self.from_path_elements(p, 0)
                }
            },
        }
    }
}

/// Whether every link above the leaf carries a concrete identity. Only the
/// chain's last link may be unassigned.
pub open spec fn ancestors_assigned(c: KeyPathElement) -> bool
    decreases c,
{
    match c {
        KeyPathElement::IdLink(l) => (chain_len(*l.child) == 0 || l.id is Some)
            && ancestors_assigned(*l.child),
        KeyPathElement::NameLink(l) => (chain_len(*l.child) == 0 || l.name is Some)
            && ancestors_assigned(*l.child),
        KeyPathElement::EndLink(_) => true,
    }
}

/// A chain writes as many path elements as it has links.
pub proof fn lemma_chain_segments_len(c: KeyPathElement)
    ensures
        chain_segments(c).len() == chain_len(c),
    decreases c,
{
    match c {
        KeyPathElement::IdLink(l) => lemma_chain_segments_len(*l.child),
        KeyPathElement::NameLink(l) => lemma_chain_segments_len(*l.child),
        KeyPathElement::EndLink(_) => (),
    }
}

proof fn lemma_chain_len_zero(c: KeyPathElement)
    requires
        chain_len(c) == 0,
    ensures
        c == KeyPathElement::EndLink((IdentifierNone {  })),
{
    match c {
        KeyPathElement::IdLink(_) => assert(false),
        KeyPathElement::NameLink(_) => assert(false),
        KeyPathElement::EndLink(n) => assert(n == (IdentifierNone {  })),
    }
}

proof fn lemma_parse_chain_inverts(c: KeyPathElement, path: Seq<PathElement>, index: int)
    requires
        0 <= index,
        path.len() == index + chain_len(c),
        path.subrange(index, path.len() as int) == chain_segments(c),
        ancestors_assigned(c),
    ensures
        parse_chain(c, path, index) == Ok::<KeyPathElement, DatastoreKeyError>(c),
    decreases c,
{
    lemma_chain_segments_len(c);
    match c {
        KeyPathElement::EndLink(n) => {
            assert(n == (IdentifierNone {  }));
        },
        KeyPathElement::IdLink(l) => {
            let segs = chain_segments(c);
            let rest = chain_segments(*l.child);
            let sub = path.subrange(index, path.len() as int);
            lemma_chain_segments_len(*l.child);
            assert(sub[0] == path[index]);
            assert(path[index] == segs[0]);
            assert forall|j: int| 0 <= j < rest.len() implies #[trigger] path.subrange(
                index + 1,
                path.len() as int,
            )[j] == rest[j] by {
                assert(sub[j + 1] == path[index + j + 1]);
                assert(segs[j + 1] == rest[j]);
            }
            assert(path.subrange(index + 1, path.len() as int) =~= rest);
            lemma_parse_chain_inverts(*l.child, path, index + 1);
            if l.id is None {
                assert(chain_len(*l.child) == 0);
                lemma_chain_len_zero(*l.child);
                assert(index == path.len() - 1);
            }
        },
        KeyPathElement::NameLink(l) => {
            let segs = chain_segments(c);
            let rest = chain_segments(*l.child);
            let sub = path.subrange(index, path.len() as int);
            lemma_chain_segments_len(*l.child);
            assert(sub[0] == path[index]);
            assert(path[index] == segs[0]);
            assert forall|j: int| 0 <= j < rest.len() implies #[trigger] path.subrange(
                index + 1,
                path.len() as int,
            )[j] == rest[j] by {
                assert(sub[j + 1] == path[index + j + 1]);
                assert(segs[j + 1] == rest[j]);
            }
            assert(path.subrange(index + 1, path.len() as int) =~= rest);
            lemma_parse_chain_inverts(*l.child, path, index + 1);
            if l.name is None {
                assert(chain_len(*l.child) == 0);
                lemma_chain_len_zero(*l.child);
                assert(index == path.len() - 1);
            }
        },
    }
}

/// Key-path symmetry: a chain of one or more links, every link above the leaf
/// concrete, read back out of the key it flattens into is the chain itself.
pub proof fn lemma_key_path_symmetry(c: KeyPathElement, key: Key)
    requires
        chain_len(c) >= 1,
        ancestors_assigned(c),
        key.path matches Some(p) && p@ == chain_segments(c),
    ensures
        parse_key(c, key) == Ok::<KeyPathElement, DatastoreKeyError>(c),
{
    lemma_chain_segments_len(c);
    let p = key.path->Some_0;
    assert(p@.subrange(0, p@.len() as int) =~= p@);
    lemma_parse_chain_inverts(c, p@, 0);
}

} // verus!
