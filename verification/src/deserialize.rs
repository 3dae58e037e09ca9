//! The store-to-native half of the value codec. Each native type states which
//! store-value shape it accepts, what that shape parses to, and what an absent
//! property yields: required types yield nothing (the property bag raises an
//! error), optional types fall back to a value.

use vstd::prelude::*;

use crate::bytes::base64_decode;
use crate::bytes::base64_decode_of;
use crate::bytes::Bytes;
use crate::datetime::parse_rfc3339_millis;
use crate::datetime::rfc3339_parse_millis;
use crate::datetime::Timestamp;
use crate::error::DatastoreDeserializeError;
use crate::values::lemma_views_of_seq;
use crate::values::value_view;
use crate::values::views_of_seq;
use crate::values::DatastoreValue;
use crate::values::DoubleBits;
use crate::values::ValueView;

verus! {

/// Conversion from a store value back to a native value.
pub trait Deserialize: DeepView + Sized {
    /// The parse of a store-value shape into this type's mathematical value:
    /// which shapes are accepted, what they parse to, and which error any
    /// other shape raises.
    spec fn deser_spec(v: ValueView) -> Result<Self::V, DatastoreDeserializeError>;

    /// What an absent property yields: nothing for required types, a value
    /// for types with an optional reading.
    spec fn missing_spec() -> Option<Self::V>;

    /// Parse a store value into a native value.
    fn deserialize(value: DatastoreValue) -> (r: Result<Self, DatastoreDeserializeError>)
        ensures
            match r {
                Ok(x) => Self::deser_spec(value@) == Ok::<Self::V, DatastoreDeserializeError>(
                    x.deep_view(),
                ),
                Err(e) => Self::deser_spec(value@) == Err::<Self::V, DatastoreDeserializeError>(e),
            },
    ;

    /// The value an absent property falls back to, if any.
    fn default_missing() -> (r: Option<Self>)
        ensures
            match r {
                Some(x) => Self::missing_spec() == Some(x.deep_view()),
                None => Self::missing_spec() is None,
            },
    ;
}

impl Deserialize for String {
    open spec fn deser_spec(v: ValueView) -> Result<Seq<char>, DatastoreDeserializeError> {
        match v {
            ValueView::Str(s) => Ok(s),
            _ => Err(DatastoreDeserializeError::NoSuchValue),
        }
    }

    open spec fn missing_spec() -> Option<Seq<char>> {
        None
    }

    fn deserialize(value: DatastoreValue) -> (r: Result<Self, DatastoreDeserializeError>) {
        match value {
            DatastoreValue::StringValue(s) => Ok(s),
            _ => Err(DatastoreDeserializeError::NoSuchValue),
        }
    }

    fn default_missing() -> (r: Option<Self>) {
        None
    }
}

impl Deserialize for i64 {
    open spec fn deser_spec(v: ValueView) -> Result<i64, DatastoreDeserializeError> {
        match v {
            ValueView::Integer(i) => Ok(i),
            _ => Err(DatastoreDeserializeError::NoSuchValue),
        }
    }

    open spec fn missing_spec() -> Option<i64> {
        None
    }

    fn deserialize(value: DatastoreValue) -> (r: Result<Self, DatastoreDeserializeError>) {
        match value {
            DatastoreValue::IntegerValue(i) => Ok(i),
            _ => Err(DatastoreDeserializeError::NoSuchValue),
        }
    }

    fn default_missing() -> (r: Option<Self>) {
        None
    }
}

impl Deserialize for bool {
    open spec fn deser_spec(v: ValueView) -> Result<bool, DatastoreDeserializeError> {
        match v {
            ValueView::Boolean(b) => Ok(b),
            _ => Err(DatastoreDeserializeError::NoSuchValue),
        }
    }

    open spec fn missing_spec() -> Option<bool> {
        None
    }

    fn deserialize(value: DatastoreValue) -> (r: Result<Self, DatastoreDeserializeError>) {
        match value {
            DatastoreValue::BooleanValue(b) => Ok(b),
            _ => Err(DatastoreDeserializeError::NoSuchValue),
        }
    }

    fn default_missing() -> (r: Option<Self>) {
        None
    }
}

impl Deserialize for DoubleBits {
    open spec fn deser_spec(v: ValueView) -> Result<DoubleBits, DatastoreDeserializeError> {
        match v {
            ValueView::Double(bits) => Ok((DoubleBits { bits })),
            _ => Err(DatastoreDeserializeError::NoSuchValue),
        }
    }

    open spec fn missing_spec() -> Option<DoubleBits> {
        None
    }

    fn deserialize(value: DatastoreValue) -> (r: Result<Self, DatastoreDeserializeError>) {
        match value {
            DatastoreValue::DoubleValue(d) => Ok(d),
            _ => Err(DatastoreDeserializeError::NoSuchValue),
        }
    }

    fn default_missing() -> (r: Option<Self>) {
        None
    }
}

impl Deserialize for Bytes {
    open spec fn deser_spec(v: ValueView) -> Result<Seq<u8>, DatastoreDeserializeError> {
        match v {
            ValueView::Blob(s) => match base64_decode_of(s) {
                Some(b) => Ok(b),
                None => Err(DatastoreDeserializeError::Base64DecodeError),
            },
            _ => Err(DatastoreDeserializeError::NoSuchValue),
        }
    }

    open spec fn missing_spec() -> Option<Seq<u8>> {
        None
    }

    fn deserialize(value: DatastoreValue) -> (r: Result<Self, DatastoreDeserializeError>) {
        match value {
            DatastoreValue::BlobValue(s) => match base64_decode(s.as_str()) {
                Some(v) => Ok(Bytes(v)),
                None => Err(DatastoreDeserializeError::Base64DecodeError),
            },
            _ => Err(DatastoreDeserializeError::NoSuchValue),
        }
    }

    fn default_missing() -> (r: Option<Self>) {
        None
    }
}

impl Deserialize for Timestamp {
    open spec fn deser_spec(v: ValueView) -> Result<Timestamp, DatastoreDeserializeError> {
        match v {
            ValueView::Ts(s) => match rfc3339_parse_millis(s) {
                Some(m) => Ok((Timestamp { millis: m })),
                None => Err(DatastoreDeserializeError::ParseError),
            },
            _ => Err(DatastoreDeserializeError::NoSuchValue),
        }
    }

    open spec fn missing_spec() -> Option<Timestamp> {
        None
    }

    fn deserialize(value: DatastoreValue) -> (r: Result<Self, DatastoreDeserializeError>) {
        match value {
            DatastoreValue::TimestampValue(s) => match parse_rfc3339_millis(s.as_str()) {
                Some(m) => Ok(Timestamp::from_millis(m)),
                None => Err(DatastoreDeserializeError::ParseError),
            },
            _ => Err(DatastoreDeserializeError::NoSuchValue),
        }
    }

    fn default_missing() -> (r: Option<Self>) {
        None
    }
}

impl<T: Deserialize> Deserialize for Option<T> {
    /// A present value parses as the inner type and is wrapped; only the
    /// "wrong tag" rejection is softened to a present absence. Any other
    /// parse error on a present value still propagates.
    open spec fn deser_spec(v: ValueView) -> Result<Option<T::V>, DatastoreDeserializeError> {
        match T::deser_spec(v) {
            Ok(x) => Ok(Some(x)),
            Err(DatastoreDeserializeError::NoSuchValue) => Ok(None),
            Err(e) => Err(e),
        }
    }

    /// An absent property reads as `None` rather than an error.
    open spec fn missing_spec() -> Option<Option<T::V>> {
        Some(None)
    }

    fn deserialize(value: DatastoreValue) -> (r: Result<Self, DatastoreDeserializeError>) {
        match T::deserialize(value) {
            Ok(v) => Ok(Some(v)),
            Err(e) => match e {
                DatastoreDeserializeError::NoSuchValue => Ok(None),
                _ => Err(e),
            },
        }
    }

    fn default_missing() -> (r: Option<Self>) {
        Some(None)
    }
}

/// The memberwise parse of a sequence of store-value shapes: every member
/// must parse, and the first member error is the sequence's error.
pub open spec fn deser_seq<T: Deserialize>(s: Seq<ValueView>) -> Result<
    Seq<T::V>,
    DatastoreDeserializeError,
>
    decreases s.len(),
{
    if s.len() == 0 {
        Ok(Seq::empty())
    } else {
        match T::deser_spec(s[0]) {
            Err(e) => Err(e),
            Ok(x) => match deser_seq::<T>(s.drop_first()) {
                Err(e) => Err(e),
                Ok(xs) => Ok(seq![x] + xs),
            },
        }
    }
}

/// Extending a parsed sequence by one member on the right.
pub proof fn lemma_deser_seq_snoc<T: Deserialize>(s: Seq<ValueView>, v: ValueView)
    ensures
        deser_seq::<T>(s.push(v)) == match deser_seq::<T>(s) {
            Err(e) => Err::<Seq<T::V>, DatastoreDeserializeError>(e),
            Ok(xs) => match T::deser_spec(v) {
                Err(e) => Err::<Seq<T::V>, DatastoreDeserializeError>(e),
                Ok(x) => Ok::<Seq<T::V>, DatastoreDeserializeError>(xs.push(x)),
            },
        },
    decreases s.len(),
{
    if s.len() == 0 {
        assert(s.push(v).drop_first() =~= Seq::empty());
        assert(deser_seq::<T>(Seq::empty()) == Ok::<Seq<T::V>, DatastoreDeserializeError>(
            Seq::empty(),
        ));
        if T::deser_spec(v) is Ok {
            let x = T::deser_spec(v)->Ok_0;
            assert(seq![x] + Seq::<T::V>::empty() =~= Seq::<T::V>::empty().push(x));
        }
    } else {
        assert(s.push(v).drop_first() =~= s.drop_first().push(v));
        assert(s.push(v)[0] == s[0]);
        lemma_deser_seq_snoc::<T>(s.drop_first(), v);
        if T::deser_spec(s[0]) is Ok && deser_seq::<T>(s.drop_first()) is Ok && T::deser_spec(v)
            is Ok {
            let x0 = T::deser_spec(s[0])->Ok_0;
            let xs = deser_seq::<T>(s.drop_first())->Ok_0;
            let x = T::deser_spec(v)->Ok_0;
            assert(seq![x0] + xs.push(x) =~= (seq![x0] + xs).push(x));
        }
    }
}

impl<T: Deserialize> Deserialize for Vec<T> {
    /// Only a list parses; its members parse memberwise, an empty list parses
    /// to an empty vector, and an absent property is an error (unlike an
    /// optional scalar, a vector has no missing fallback).
    open spec fn deser_spec(v: ValueView) -> Result<Seq<T::V>, DatastoreDeserializeError> {
        match v {
            ValueView::Arr(s) => deser_seq::<T>(s),
            _ => Err(DatastoreDeserializeError::NoSuchValue),
        }
    }

    open spec fn missing_spec() -> Option<Seq<T::V>> {
        None
    }

    #[verifier::loop_isolation(false)]
    fn deserialize(value: DatastoreValue) -> (r: Result<Self, DatastoreDeserializeError>) {
        match value {
            DatastoreValue::ArrayValue(a) => {
                let ghost orig_views = views_of_seq(a@);
                let mut rest = a;
                let mut result: Vec<T> = Vec::new();
                proof {
                    assert(result.deep_view() + Seq::<T::V>::empty() =~= result.deep_view());
                }
                while rest.len() > 0
                    invariant
                        deser_seq::<T>(orig_views) == match deser_seq::<T>(views_of_seq(rest@)) {
                            Err(e) => Err::<Seq<T::V>, DatastoreDeserializeError>(e),
                            Ok(xs) => Ok::<Seq<T::V>, DatastoreDeserializeError>(
                                result.deep_view() + xs,
                            ),
                        },
                    decreases rest@.len(),
                {
                    let ghost pre = rest@;
                    let x = rest.remove(0);
                    proof {
                        assert(pre.remove(0) =~= pre.drop_first());
                        lemma_views_of_seq(pre);
                        assert(views_of_seq(pre)[0] == value_view(x));
                        assert(views_of_seq(pre).drop_first() =~= views_of_seq(pre.drop_first()))
                            by {
                            lemma_views_of_seq(pre.drop_first());
                        }
                    }
                    match T::deserialize(x) {
                        Err(e) => {
                            proof {
                                assert(views_of_seq(pre).len() == pre.len());
                                assert(deser_seq::<T>(views_of_seq(pre)) == Err::<
                                    Seq<T::V>,
                                    DatastoreDeserializeError,
                                >(e));
                            }
                            return Err(e);
                        },
                        Ok(item) => {
                            let ghost pre_result = result.deep_view();
                            result.push(item);
                            proof {
                                assert(result.deep_view() =~= pre_result.push(item.deep_view()));
                                if deser_seq::<T>(views_of_seq(rest@)) is Ok {
                                    let xs = deser_seq::<T>(views_of_seq(rest@))->Ok_0;
                                    assert(pre_result + (seq![item.deep_view()] + xs)
                                        =~= result.deep_view() + xs);
                                }
                            }
                        },
                    }
                }
                proof {
                    assert(views_of_seq(rest@) =~= Seq::empty());
                    assert(result.deep_view() + Seq::<T::V>::empty() =~= result.deep_view());
                }
                Ok(result)
            },
            _ => Err(DatastoreDeserializeError::NoSuchValue),
        }
    }

    fn default_missing() -> (r: Option<Self>) {
        None
    }
}

} // verus!
