//! The native-to-store half of the value codec, and the codec's round-trip
//! law: deserializing what a value serialized to yields the value back
//! (timestamps at millisecond resolution), stated as part of `serialize`'s
//! contract. The one exception is a value that vanishes when serialized — an
//! absent optional, on its own or as a list member — which `lossless`
//! excludes.

use vstd::prelude::*;

use crate::bytes::base64_encode;
use crate::bytes::base64_of;
use crate::datetime::format_rfc3339_millis;
use crate::datetime::rfc3339_millis_of;
use crate::datetime::Timestamp;
use crate::datetime::TIMESTAMP_MILLIS_MAX;
use crate::datetime::TIMESTAMP_MILLIS_MIN;
use crate::bytes::Bytes;
use crate::deserialize::deser_seq;
use crate::deserialize::lemma_deser_seq_snoc;
use crate::deserialize::Deserialize;
use crate::error::DatastoreSerializeError;
use crate::error::DatastoreDeserializeError;
use crate::values::lemma_views_of_seq;
use crate::values::value_view;
use crate::values::views_of_seq;
use crate::values::DatastoreValue;
use crate::values::DoubleBits;
use crate::values::ValueView;

verus! {

/// Conversion from a native value to a store value.
///
/// `serialize`'s contract carries the codec's round-trip law: whenever a
/// value is lossless and serializes to a store value, deserializing that
/// store value yields the original back.
pub trait Serialize: Deserialize {
    /// What this value serializes to: a store-value shape, nothing (the
    /// property is omitted entirely), or a serialization error.
    spec fn ser_spec(self) -> Result<Option<ValueView>, DatastoreSerializeError>;

    /// Whether a round trip preserves this value. Scalars always round-trip;
    /// an optional that is absent, or a list with a member that vanishes when
    /// serialized, does not.
    spec fn lossless(self) -> bool;

    /// Turn a native value into a store value, or into nothing when the
    /// property is to be omitted.
    fn serialize(self) -> (r: Result<Option<DatastoreValue>, DatastoreSerializeError>)
        ensures
            match r {
                Ok(Some(v)) => self.ser_spec() == Ok::<Option<ValueView>, DatastoreSerializeError>(
                    Some(v@),
                ) && (self.lossless() ==> Self::deser_spec(v@) == Ok::<
                    Self::V,
                    DatastoreDeserializeError,
                >(self.deep_view())),
                Ok(None) => self.ser_spec() == Ok::<Option<ValueView>, DatastoreSerializeError>(
                    None,
                ) && (self.lossless() ==> Self::missing_spec() == Some(self.deep_view())),
                Err(e) => self.ser_spec() == Err::<Option<ValueView>, DatastoreSerializeError>(e),
            },
    ;
}

impl Serialize for String {
    open spec fn ser_spec(self) -> Result<Option<ValueView>, DatastoreSerializeError> {
        Ok(Some(ValueView::Str(self@)))
    }

    open spec fn lossless(self) -> bool {
        true
    }

    fn serialize(self) -> (r: Result<Option<DatastoreValue>, DatastoreSerializeError>) {
        Ok(Some(DatastoreValue::StringValue(self)))
    }
}

impl Serialize for i64 {
    open spec fn ser_spec(self) -> Result<Option<ValueView>, DatastoreSerializeError> {
        Ok(Some(ValueView::Integer(self)))
    }

    open spec fn lossless(self) -> bool {
        true
    }

    fn serialize(self) -> (r: Result<Option<DatastoreValue>, DatastoreSerializeError>) {
        Ok(Some(DatastoreValue::IntegerValue(self)))
    }
}

impl Serialize for bool {
    open spec fn ser_spec(self) -> Result<Option<ValueView>, DatastoreSerializeError> {
        Ok(Some(ValueView::Boolean(self)))
    }

    open spec fn lossless(self) -> bool {
        true
    }

    fn serialize(self) -> (r: Result<Option<DatastoreValue>, DatastoreSerializeError>) {
        Ok(Some(DatastoreValue::BooleanValue(self)))
    }
}

impl Serialize for DoubleBits {
    open spec fn ser_spec(self) -> Result<Option<ValueView>, DatastoreSerializeError> {
        Ok(Some(ValueView::Double(self.bits)))
    }

    open spec fn lossless(self) -> bool {
        true
    }

    fn serialize(self) -> (r: Result<Option<DatastoreValue>, DatastoreSerializeError>) {
        Ok(Some(DatastoreValue::DoubleValue(self)))
    }
}

impl Serialize for Bytes {
    open spec fn ser_spec(self) -> Result<Option<ValueView>, DatastoreSerializeError> {
        Ok(Some(ValueView::Blob(base64_of(self.0@))))
    }

    open spec fn lossless(self) -> bool {
        true
    }

    fn serialize(self) -> (r: Result<Option<DatastoreValue>, DatastoreSerializeError>) {
        let encoded = base64_encode(&self.0);
        Ok(Some(DatastoreValue::BlobValue(encoded)))
    }
}

impl Serialize for Timestamp {
    /// An instant outside the wire format's four-digit-year range cannot be
    /// rendered and fails; every other instant renders as RFC 3339 text
    /// truncated to milliseconds.
    open spec fn ser_spec(self) -> Result<Option<ValueView>, DatastoreSerializeError> {
        if self.representable() {
            Ok(Some(ValueView::Ts(rfc3339_millis_of(self.millis))))
        } else {
            Err(DatastoreSerializeError::DateTimeError)
        }
    }

    open spec fn lossless(self) -> bool {
        true
    }

    fn serialize(self) -> (r: Result<Option<DatastoreValue>, DatastoreSerializeError>) {
        if TIMESTAMP_MILLIS_MIN <= self.millis && self.millis <= TIMESTAMP_MILLIS_MAX {
            let rendered = format_rfc3339_millis(self.millis);
            Ok(Some(DatastoreValue::TimestampValue(rendered)))
        } else {
            Err(DatastoreSerializeError::DateTimeError)
        }
    }
}

impl<T: Serialize> Serialize for Option<T> {
    /// An absent optional serializes to nothing: the property is omitted from
    /// the property map entirely, not stored as an explicit null.
    open spec fn ser_spec(self) -> Result<Option<ValueView>, DatastoreSerializeError> {
        match self {
            Some(x) => x.ser_spec(),
            None => Ok(None),
        }
    }

    /// A present optional round-trips when its content does and does not
    /// itself vanish; an absent optional reads back absent.
    open spec fn lossless(self) -> bool {
        match self {
            Some(x) => x.lossless() && (x.ser_spec() matches Ok(Some(_))),
            None => true,
        }
    }

    fn serialize(self) -> (r: Result<Option<DatastoreValue>, DatastoreSerializeError>) {
        match self {
            Some(x) => {
                let inner = x.serialize();
                proof {
                    if self.lossless() && inner is Ok && inner->Ok_0 is Some {
                        let v = inner->Ok_0->Some_0;
                        assert(Self::deser_spec(v@) == Ok::<
                            Option<T::V>,
                            DatastoreDeserializeError,
                        >(Some(x.deep_view())));
                    }
                }
                inner
            },
            None => Ok(None),
        }
    }
}

/// The memberwise serialization of a sequence of native values: a member that
/// serializes to nothing vanishes from the list, and the first member error
/// is the sequence's error.
pub open spec fn ser_seq<T: Serialize>(s: Seq<T>) -> Result<
    Seq<ValueView>,
    DatastoreSerializeError,
>
    decreases s.len(),
{
    if s.len() == 0 {
        Ok(Seq::empty())
    } else {
        match s[0].ser_spec() {
            Err(e) => Err(e),
            Ok(None) => ser_seq::<T>(s.drop_first()),
            Ok(Some(v)) => match ser_seq::<T>(s.drop_first()) {
                Err(e) => Err(e),
                Ok(vs) => Ok(seq![v] + vs),
            },
        }
    }
}

/// Extending a serialized sequence by one member on the right.
pub proof fn lemma_ser_seq_snoc<T: Serialize>(s: Seq<T>, x: T)
    ensures
        ser_seq::<T>(s.push(x)) == match ser_seq::<T>(s) {
            Err(e) => Err::<Seq<ValueView>, DatastoreSerializeError>(e),
            Ok(vs) => match x.ser_spec() {
                Err(e) => Err::<Seq<ValueView>, DatastoreSerializeError>(e),
                Ok(None) => Ok::<Seq<ValueView>, DatastoreSerializeError>(vs),
                Ok(Some(v)) => Ok::<Seq<ValueView>, DatastoreSerializeError>(vs.push(v)),
            },
        },
    decreases s.len(),
{
    if s.len() == 0 {
        assert(s.push(x).drop_first() =~= Seq::empty());
        assert(ser_seq::<T>(Seq::empty()) == Ok::<Seq<ValueView>, DatastoreSerializeError>(
            Seq::empty(),
        ));
        if x.ser_spec() is Ok && x.ser_spec()->Ok_0 is Some {
            let v = x.ser_spec()->Ok_0->Some_0;
            assert(seq![v] + Seq::<ValueView>::empty() =~= Seq::<ValueView>::empty().push(v));
        }
    } else {
        assert(s.push(x).drop_first() =~= s.drop_first().push(x));
        assert(s.push(x)[0] == s[0]);
        lemma_ser_seq_snoc::<T>(s.drop_first(), x);
        if s[0].ser_spec() is Ok && s[0].ser_spec()->Ok_0 is Some && ser_seq::<T>(s.drop_first())
            is Ok && x.ser_spec() is Ok && x.ser_spec()->Ok_0 is Some {
            let v0 = s[0].ser_spec()->Ok_0->Some_0;
            let v = x.ser_spec()->Ok_0->Some_0;
            let vs = ser_seq::<T>(s.drop_first())->Ok_0;
            assert(seq![v0] + vs.push(v) =~= (seq![v0] + vs).push(v));
        }
    }
}

/// Whether every member of a sequence round-trips and none vanishes when
/// serialized.
pub open spec fn seq_lossless<T: Serialize>(s: Seq<T>) -> bool {
    forall|i: int|
        0 <= i < s.len() ==> (#[trigger] s[i].lossless() && (s[i].ser_spec() matches Ok(Some(_))))
}

impl<T: Serialize> Serialize for Vec<T> {
    /// A vector serializes to a list of its members' serializations, members
    /// that serialize to nothing left out; it is never omitted itself, so an
    /// empty vector is stored as a present, empty list.
    open spec fn ser_spec(self) -> Result<Option<ValueView>, DatastoreSerializeError> {
        match ser_seq::<T>(self@) {
            Err(e) => Err(e),
            Ok(vs) => Ok(Some(ValueView::Arr(vs))),
        }
    }

    /// A vector round-trips when every member round-trips and no member
    /// vanishes from the list.
    open spec fn lossless(self) -> bool {
        seq_lossless::<T>(self@)
    }

    #[verifier::loop_isolation(false)]
    fn serialize(self) -> (r: Result<Option<DatastoreValue>, DatastoreSerializeError>) {
        let ghost orig: Seq<T> = self@;
        let mut rest = self;
        let mut arr: Vec<DatastoreValue> = Vec::new();
        let ghost mut done: Seq<T> = Seq::empty();
        proof {
            assert(views_of_seq(arr@) =~= Seq::empty());
            assert(done.map_values(|t: T| t.deep_view()) =~= Seq::empty());
        }
        while rest.len() > 0
            invariant
                orig =~= done + rest@,
                ser_seq::<T>(done) == Ok::<Seq<ValueView>, DatastoreSerializeError>(
                    views_of_seq(arr@),
                ),
                ser_seq::<T>(orig) == match ser_seq::<T>(rest@) {
                    Err(e) => Err::<Seq<ValueView>, DatastoreSerializeError>(e),
                    Ok(ws) => Ok::<Seq<ValueView>, DatastoreSerializeError>(
                        views_of_seq(arr@) + ws,
                    ),
                },
                seq_lossless::<T>(orig) ==> deser_seq::<T>(views_of_seq(arr@)) == Ok::<
                    Seq<T::V>,
                    DatastoreDeserializeError,
                >(done.map_values(|t: T| t.deep_view())),
            decreases rest@.len(),
        {
            let ghost pre = rest@;
            let ghost pre_arr_views = views_of_seq(arr@);
            let ghost pre_done = done;
            let x = rest.remove(0);
            proof {
                assert(pre.remove(0) =~= pre.drop_first());
                assert(orig =~= pre_done.push(x) + rest@);
            }
            let serialized = x.serialize();
            match serialized {
                Err(e) => {
                    proof {
                        assert(ser_seq::<T>(pre) == Err::<Seq<ValueView>, DatastoreSerializeError>(
                            e,
                        ));
                    }
                    return Err(e);
                },
                Ok(None) => {
                    proof {
                        done = pre_done.push(x);
                        lemma_ser_seq_snoc::<T>(pre_done, x);
                        if seq_lossless::<T>(orig) {
                            let k = pre_done.len() as int;
                            assert(orig.len() == pre_done.len() + pre.len());
                            assert(orig[k] == x);
                            assert(orig[k].lossless());
                            assert(orig[k].ser_spec() matches Ok(Some(_)));
                            assert(false);
                        }
                    }
                },
                Ok(Some(val)) => {
                    let ghost vv = value_view(val);
                    let ghost pre_arr = arr@;
                    arr.push(val);
                    proof {
                        done = pre_done.push(x);
                        lemma_ser_seq_snoc::<T>(pre_done, x);
                        lemma_views_of_seq(arr@);
                        lemma_views_of_seq(pre_arr);
                        assert(views_of_seq(arr@) =~= pre_arr_views.push(vv));
                        if seq_lossless::<T>(orig) {
                            let k = pre_done.len() as int;
                            assert(orig.len() == pre_done.len() + pre.len());
                            assert(orig[k] == x);
                            assert(orig[k].lossless());
                            assert(orig[k].ser_spec() matches Ok(Some(_)));
                            lemma_deser_seq_snoc::<T>(pre_arr_views, vv);
                            assert(done.map_values(|t: T| t.deep_view()) =~= pre_done.map_values(
                                |t: T| t.deep_view(),
                            ).push(x.deep_view()));
                        }
                        if ser_seq::<T>(rest@) is Ok {
                            let ws = ser_seq::<T>(rest@)->Ok_0;
                            assert(pre_arr_views + (seq![vv] + ws) =~= views_of_seq(arr@) + ws);
                        }
                    }
                },
            }
        }
        proof {
            assert(rest@ =~= Seq::empty());
            assert(views_of_seq(arr@) + Seq::<ValueView>::empty() =~= views_of_seq(arr@));
            assert(done =~= orig);
            if seq_lossless::<T>(orig) {
                assert(orig.map_values(|t: T| t.deep_view()) =~= self.deep_view());
            }
        }
        Ok(Some(DatastoreValue::ArrayValue(arr)))
    }
}

} // verus!
