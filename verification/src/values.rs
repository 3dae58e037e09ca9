//! The store's value union: exactly one tag is active. Scalars are carried
//! as plain values; blobs and timestamps are carried in their wire text form
//! (base64, RFC 3339); lists nest arbitrarily; a key may be nested as a
//! value. Doubles are carried by their raw bit pattern, since this library
//! never computes on them.

use vstd::prelude::*;

use crate::key::Key;

verus! {

broadcast use
    vstd::std_specs::vec::axiom_vec_index_decreases,
    vstd::std_specs::vec::axiom_vec_decreases_to_view,
    vstd::seq::axiom_seq_index_decreases,
;

/// A double-precision floating-point value, held as its raw bit pattern.
/// The store treats doubles as opaque payloads; callers that need the number
/// convert at the boundary.
#[derive(Debug, Clone, Copy, PartialEq, Eq, Structural)]
pub struct DoubleBits {
    pub bits: u64,
}

impl DoubleBits {
    pub fn from_bits(bits: u64) -> (r: DoubleBits)
        ensures
            r == (DoubleBits { bits }),
    {
        DoubleBits { bits }
    }
}

impl DeepView for DoubleBits {
    type V = DoubleBits;

    open spec fn deep_view(&self) -> DoubleBits {
        *self
    }
}

/// A store value: a tagged union of which exactly one tag is active.
#[derive(Debug, PartialEq)]
pub enum DatastoreValue {
    /// An explicit null.
    NullValue,
    BooleanValue(bool),
    IntegerValue(i64),
    DoubleValue(DoubleBits),
    StringValue(String),
    /// Raw bytes, carried as standard base64 text.
    BlobValue(String),
    /// A UTC instant, carried as RFC 3339 text.
    TimestampValue(String),
    /// An ordered list of store values.
    ArrayValue(Vec<DatastoreValue>),
    /// A nested key.
    KeyValue(Key),
}

/// The mathematical shape of a store value: strings by their character
/// sequences, lists by the sequence of their members' shapes.
pub enum ValueView {
    Null,
    Boolean(bool),
    Integer(i64),
    Double(u64),
    Str(Seq<char>),
    Blob(Seq<char>),
    Ts(Seq<char>),
    Arr(Seq<ValueView>),
    KeyV(Key),
}

/// The shape of a store value.
pub open spec fn value_view(v: DatastoreValue) -> ValueView
    decreases v,
{
    match v {
        DatastoreValue::NullValue => ValueView::Null,
        DatastoreValue::BooleanValue(b) => ValueView::Boolean(b),
        DatastoreValue::IntegerValue(i) => ValueView::Integer(i),
        DatastoreValue::DoubleValue(d) => ValueView::Double(d.bits),
        DatastoreValue::StringValue(s) => ValueView::Str(s@),
        DatastoreValue::BlobValue(s) => ValueView::Blob(s@),
        DatastoreValue::TimestampValue(s) => ValueView::Ts(s@),
        DatastoreValue::ArrayValue(a) => {
            proof {
                assert(decreases_to!(v => a));
                assert(decreases_to!(a => a@));
            }
            ValueView::Arr(views_of_seq(a@))
        },
        DatastoreValue::KeyValue(k) => ValueView::KeyV(k),
    }
}

/// The shapes of a sequence of store values, memberwise.
pub open spec fn views_of_seq(s: Seq<DatastoreValue>) -> Seq<ValueView>
    decreases s,
{
    if s.len() == 0 {
        Seq::empty()
    } else {
        seq![value_view(s[0])] + views_of_seq(s.drop_first())
    }
}

/// `views_of_seq` is the memberwise image of `value_view`.
pub proof fn lemma_views_of_seq(s: Seq<DatastoreValue>)
    ensures
        views_of_seq(s).len() == s.len(),
        forall|i: int| 0 <= i < s.len() ==> #[trigger] views_of_seq(s)[i] == value_view(s[i]),
    decreases s.len(),
{
    if s.len() > 0 {
        lemma_views_of_seq(s.drop_first());
        assert forall|i: int| 0 <= i < s.len() implies #[trigger] views_of_seq(s)[i] == value_view(
            s[i],
        ) by {
            if i > 0 {
                assert(views_of_seq(s)[i] == views_of_seq(s.drop_first())[i - 1]);
                assert(s.drop_first()[i - 1] == s[i]);
            }
        }
    }
}

impl View for DatastoreValue {
    type V = ValueView;

    open spec fn view(&self) -> ValueView {
        value_view(*self)
    }
}

} // verus!
