//! Bidirectional conversion between native typed values and dynamic
//! values. A type is encodable if it deterministically produces a
//! dynamic value, and decodable if it can consume one, either yielding a
//! native value or failing with a descriptive conversion error. Optional
//! values encode absence as nil and decode nil back to absence; numeric
//! decodes are range-checked rather than silently truncating.

use vstd::prelude::*;
use crate::object::{Object, ObjectKind, ObjectTag, Ownership};
use crate::error::ConversionError;

verus! {

/// A type that can deterministically produce a dynamic value.
pub trait ToObject {
    /// Whether `o` is the dynamic encoding of this value.
    spec fn represents(&self, o: Object) -> bool;

    /// Encodes this value as an owned dynamic value; never fails for
    /// the supported built-in set.
    fn to_obj(&self) -> (r: Object)
        ensures
            self.represents(r),
    ;
}

/// A type that can attempt to consume a dynamic value, either succeeding
/// with a native value or failing with a descriptive conversion error.
pub trait FromObject: Sized {
    /// Whether decoding accepts `o`.
    spec fn accepts(o: Object) -> bool;

    /// Whether `v` is the native value decoded from `o`; meaningful on
    /// accepted shapes.
    spec fn decoded(o: Object, v: Self) -> bool;

    /// The error reported for `o`; meaningful on rejected shapes.
    spec fn decode_err(o: Object) -> ConversionError;

    /// Decodes `o`, succeeding exactly on the accepted shapes.
    fn from_obj(o: &Object) -> (r: Result<Self, ConversionError>)
        ensures
            r is Ok <==> Self::accepts(*o),
            r matches Ok(v) ==> Self::decoded(*o, v),
            r matches Err(e) ==> e == Self::decode_err(*o),
    ;
}

impl ToObject for bool {
    open spec fn represents(&self, o: Object) -> bool {
        o == (Object { mode: Ownership::Owned, id: 0, kind: ObjectKind::Boolean(*self) })
    }

    fn to_obj(&self) -> (r: Object) {
        Object::boolean(*self)
    }
}

impl FromObject for bool {
    open spec fn accepts(o: Object) -> bool {
        o.kind is Boolean
    }

    open spec fn decoded(o: Object, v: Self) -> bool {
        o.kind == ObjectKind::Boolean(v)
    }

    open spec fn decode_err(o: Object) -> ConversionError {
        ConversionError::WrongTag { expected: ObjectTag::Boolean, actual: o.tag() }
    }

    fn from_obj(o: &Object) -> (r: Result<Self, ConversionError>) {
        match &o.kind {
            ObjectKind::Boolean(b) => Ok(*b),
            _ => Err(ConversionError::WrongTag {
                expected: ObjectTag::Boolean,
                actual: o.tag_of(),
            }),
        }
    }
}

impl ToObject for i64 {
    open spec fn represents(&self, o: Object) -> bool {
        o == (Object { mode: Ownership::Owned, id: 0, kind: ObjectKind::Integer(*self) })
    }

    fn to_obj(&self) -> (r: Object) {
        Object::integer(*self)
    }
}

impl FromObject for i64 {
    open spec fn accepts(o: Object) -> bool {
        o.kind is Integer
    }

    open spec fn decoded(o: Object, v: Self) -> bool {
        o.kind == ObjectKind::Integer(v)
    }

    open spec fn decode_err(o: Object) -> ConversionError {
        ConversionError::WrongTag { expected: ObjectTag::Integer, actual: o.tag() }
    }

    fn from_obj(o: &Object) -> (r: Result<Self, ConversionError>) {
        match &o.kind {
            ObjectKind::Integer(n) => Ok(*n),
            _ => Err(ConversionError::WrongTag {
                expected: ObjectTag::Integer,
                actual: o.tag_of(),
            }),
        }
    }
}

impl ToObject for i32 {
    open spec fn represents(&self, o: Object) -> bool {
        o == (Object { mode: Ownership::Owned, id: 0, kind: ObjectKind::Integer(*self as i64) })
    }

    fn to_obj(&self) -> (r: Object) {
        Object::integer(*self as i64)
    }
}

impl FromObject for i32 {
    open spec fn accepts(o: Object) -> bool {
        o.kind matches ObjectKind::Integer(n) && i32::MIN as i64 <= n <= i32::MAX as i64
    }

    open spec fn decoded(o: Object, v: Self) -> bool {
        o.kind == ObjectKind::Integer(v as i64)
    }

    open spec fn decode_err(o: Object) -> ConversionError {
        if o.kind is Integer {
            ConversionError::OutOfRange { value: o.kind->Integer_0 }
        } else {
            ConversionError::WrongTag { expected: ObjectTag::Integer, actual: o.tag() }
        }
    }

    fn from_obj(o: &Object) -> (r: Result<Self, ConversionError>) {
        match &o.kind {
            ObjectKind::Integer(n) => {
                if i32::MIN as i64 <= *n && *n <= i32::MAX as i64 {
                    Ok(*n as i32)
                } else {
                    Err(ConversionError::OutOfRange { value: *n })
                }
            },
            _ => Err(ConversionError::WrongTag {
                expected: ObjectTag::Integer,
                actual: o.tag_of(),
            }),
        }
    }
}

impl ToObject for u32 {
    open spec fn represents(&self, o: Object) -> bool {
        o == (Object { mode: Ownership::Owned, id: 0, kind: ObjectKind::Integer(*self as i64) })
    }

    fn to_obj(&self) -> (r: Object) {
        Object::integer(*self as i64)
    }
}

impl FromObject for u32 {
    open spec fn accepts(o: Object) -> bool {
        o.kind matches ObjectKind::Integer(n) && 0 <= n <= u32::MAX as i64
    }

    open spec fn decoded(o: Object, v: Self) -> bool {
        o.kind == ObjectKind::Integer(v as i64)
    }

    open spec fn decode_err(o: Object) -> ConversionError {
        if o.kind is Integer {
            ConversionError::OutOfRange { value: o.kind->Integer_0 }
        } else {
            ConversionError::WrongTag { expected: ObjectTag::Integer, actual: o.tag() }
        }
    }

    fn from_obj(o: &Object) -> (r: Result<Self, ConversionError>) {
        match &o.kind {
            ObjectKind::Integer(n) => {
                if 0 <= *n && *n <= u32::MAX as i64 {
                    Ok(*n as u32)
                } else {
                    Err(ConversionError::OutOfRange { value: *n })
                }
            },
            _ => Err(ConversionError::WrongTag {
                expected: ObjectTag::Integer,
                actual: o.tag_of(),
            }),
        }
    }
}

/// A double-precision float carried as its raw bit pattern, so that the
/// layer itself never computes on floating point.
#[derive(Clone, Copy, PartialEq, Eq, Structural, Debug)]
pub struct FloatBits {
    pub bits: u64,
}

impl ToObject for FloatBits {
    open spec fn represents(&self, o: Object) -> bool {
        o == (Object { mode: Ownership::Owned, id: 0, kind: ObjectKind::Float(self.bits) })
    }

    fn to_obj(&self) -> (r: Object) {
        Object::float_bits(self.bits)
    }
}

impl FromObject for FloatBits {
    open spec fn accepts(o: Object) -> bool {
        o.kind is Float
    }

    open spec fn decoded(o: Object, v: Self) -> bool {
        o.kind == ObjectKind::Float(v.bits)
    }

    open spec fn decode_err(o: Object) -> ConversionError {
        ConversionError::WrongTag { expected: ObjectTag::Float, actual: o.tag() }
    }

    fn from_obj(o: &Object) -> (r: Result<Self, ConversionError>) {
        match &o.kind {
            ObjectKind::Float(bits) => Ok(FloatBits { bits: *bits }),
            _ => Err(ConversionError::WrongTag {
                expected: ObjectTag::Float,
                actual: o.tag_of(),
            }),
        }
    }
}

impl ToObject for Vec<u8> {
    open spec fn represents(&self, o: Object) -> bool {
        &&& o.mode is Owned
        &&& o.id == 0
        &&& o.kind matches ObjectKind::Text(bs) && bs@ == self@
    }

    fn to_obj(&self) -> (r: Object) {
        let mut bytes: Vec<u8> = Vec::new();
        let mut i: usize = 0;
        while i < self.len()
            invariant
                i <= self.len(),
                bytes@ == self@.subrange(0, i as int),
            decreases self.len() - i,
        {
            bytes.push(self[i]);
            i += 1;
        }
        proof {
            assert(bytes@ =~= self@);
        }
        Object::text(bytes)
    }
}

impl FromObject for Vec<u8> {
    open spec fn accepts(o: Object) -> bool {
        o.kind is Text
    }

    open spec fn decoded(o: Object, v: Self) -> bool {
        o.kind matches ObjectKind::Text(bs) && v@ == bs@
    }

    open spec fn decode_err(o: Object) -> ConversionError {
        ConversionError::WrongTag { expected: ObjectTag::Text, actual: o.tag() }
    }

    fn from_obj(o: &Object) -> (r: Result<Self, ConversionError>) {
        match &o.kind {
            ObjectKind::Text(bs) => {
                let mut bytes: Vec<u8> = Vec::new();
                let mut i: usize = 0;
                while i < bs.len()
                    invariant
                        i <= bs.len(),
                        bytes@ == bs@.subrange(0, i as int),
                    decreases bs.len() - i,
                {
                    bytes.push(bs[i]);
                    i += 1;
                }
                proof {
                    assert(bytes@ =~= bs@);
                }
                Ok(bytes)
            },
            _ => Err(ConversionError::WrongTag {
                expected: ObjectTag::Text,
                actual: o.tag_of(),
            }),
        }
    }
}

impl<T: ToObject> ToObject for Option<T> {
    open spec fn represents(&self, o: Object) -> bool {
        match self {
            Option::None => o == (Object {
                mode: Ownership::Owned,
                id: 0,
                kind: ObjectKind::Nil,
            }),
            Option::Some(x) => x.represents(o),
        }
    }

    fn to_obj(&self) -> (r: Object) {
        match self {
            Option::None => Object::nil(),
            Option::Some(x) => x.to_obj(),
        }
    }
}

impl<T: FromObject> FromObject for Option<T> {
    open spec fn accepts(o: Object) -> bool {
        o.kind is Nil || T::accepts(o)
    }

    open spec fn decoded(o: Object, v: Self) -> bool {
        if o.kind is Nil {
            v is None
        } else {
            v matches Some(x) && T::decoded(o, x)
        }
    }

    open spec fn decode_err(o: Object) -> ConversionError {
        T::decode_err(o)
    }

    fn from_obj(o: &Object) -> (r: Result<Self, ConversionError>) {
        match &o.kind {
            ObjectKind::Nil => Ok(None),
            _ => match T::from_obj(o) {
                Ok(v) => Ok(Some(v)),
                Err(e) => Err(e),
            },
        }
    }
}

/// Encodes a sequence of encodable values as an owned dynamic sequence,
/// preserving iteration order.
pub fn encode_seq<T: ToObject>(xs: &Vec<T>) -> (r: Object)
    ensures
        r.mode is Owned,
        r.id == 0,
        r.kind matches ObjectKind::Sequence(cs) && cs@.len() == xs@.len() && forall|i: int|
            0 <= i < xs@.len() ==> xs@[i].represents(#[trigger] cs@[i]),
{
    let mut cs: Vec<Object> = Vec::new();
    let mut i: usize = 0;
    while i < xs.len()
        invariant
            i <= xs.len(),
            cs@.len() == i as int,
            forall|j: int| 0 <= j < i ==> xs@[j].represents(#[trigger] cs@[j]),
        decreases xs.len() - i,
    {
        cs.push(xs[i].to_obj());
        i += 1;
    }
    Object::sequence(cs)
}

/// Encodes typed key-value pairs as an owned dynamic mapping, preserving
/// insertion order exactly; duplicate keys are stored as given.
pub fn encode_mapping<K: ToObject, V: ToObject>(pairs: &Vec<(K, V)>) -> (r: Object)
    ensures
        r.mode is Owned,
        r.id == 0,
        r.kind matches ObjectKind::Mapping(ms) && ms@.len() == pairs@.len() && forall|i: int|
            0 <= i < pairs@.len() ==> pairs@[i].0.represents(#[trigger] ms@[i].0)
                && pairs@[i].1.represents(ms@[i].1),
{
    let mut ms: Vec<(Object, Object)> = Vec::new();
    let mut i: usize = 0;
    while i < pairs.len()
        invariant
            i <= pairs.len(),
            ms@.len() == i as int,
            forall|j: int| 0 <= j < i ==> pairs@[j].0.represents(#[trigger] ms@[j].0)
                && pairs@[j].1.represents(ms@[j].1),
        decreases pairs.len() - i,
    {
        let k = pairs[i].0.to_obj();
        let v = pairs[i].1.to_obj();
        let ghost ms_before = ms@;
        ms.push((k, v));
        proof {
            assert(ms@[i as int] == (k, v));
            assert(forall|j: int| 0 <= j < i ==> ms@[j] == ms_before[j]);
        }
        i += 1;
    }
    Object::mapping(ms)
}

/// Decodes a dynamic sequence elementwise into decodable values. It
/// succeeds exactly when the value is a sequence all of whose children
/// decode; otherwise it reports the sequence's wrong tag, or the error
/// of the first child that fails.
pub fn decode_seq<T: FromObject>(o: &Object) -> (r: Result<Vec<T>, ConversionError>)
    ensures
        r is Ok <==> (o.kind matches ObjectKind::Sequence(cs) && forall|i: int|
            0 <= i < cs@.len() ==> T::accepts(#[trigger] cs@[i])),
        r matches Ok(v) ==> (o.kind matches ObjectKind::Sequence(cs) && v@.len() == cs@.len()
            && forall|i: int| 0 <= i < cs@.len() ==> T::decoded(#[trigger] cs@[i], v@[i])),
        !(o.kind is Sequence) ==> r == Err::<Vec<T>, ConversionError>(
            ConversionError::WrongTag { expected: ObjectTag::Sequence, actual: o.tag() },
        ),
        r matches Err(e) ==> (o.kind matches ObjectKind::Sequence(cs) ==> exists|i: int|
            0 <= i < cs@.len() && !T::accepts(#[trigger] cs@[i]) && (forall|j: int|
                0 <= j < i ==> T::accepts(#[trigger] cs@[j])) && e == T::decode_err(cs@[i])),
{
    match &o.kind {
        ObjectKind::Sequence(cs) => {
            let mut out: Vec<T> = Vec::new();
            let mut i: usize = 0;
            while i < cs.len()
                invariant
                    o.kind == ObjectKind::Sequence(*cs),
                    i <= cs.len(),
                    out@.len() == i as int,
                    forall|j: int| 0 <= j < i ==> T::accepts(#[trigger] cs@[j]),
                    forall|j: int| 0 <= j < i ==> T::decoded(#[trigger] cs@[j], out@[j]),
                decreases cs.len() - i,
            {
                match T::from_obj(&cs[i]) {
                    Ok(v) => {
                        out.push(v);
                    },
                    Err(e) => {
                        proof {
                            assert(o.kind matches ObjectKind::Sequence(cc) && cc == *cs);
                            assert(!T::accepts(cs@[i as int]));
                            assert(!(forall|k: int|
                                0 <= k < cs@.len() ==> T::accepts(#[trigger] cs@[k])));
                            assert(exists|k: int|
                                0 <= k < cs@.len() && !T::accepts(#[trigger] cs@[k]) && (
                                forall|j: int| 0 <= j < k ==> T::accepts(#[trigger] cs@[j]))
                                    && e == T::decode_err(cs@[k])) by {
                                assert(0 <= (i as int) && (i as int) < cs@.len()
                                    && !T::accepts(cs@[i as int])
                                    && (forall|j: int|
                                    0 <= j < i as int ==> T::accepts(#[trigger] cs@[j]))
                                    && e == T::decode_err(cs@[i as int]));
                            }
                        }
                        return Err(e);
                    },
                }
                i += 1;
            }
            Ok(out)
        },
        _ => Err(ConversionError::WrongTag {
            expected: ObjectTag::Sequence,
            actual: o.tag_of(),
        }),
    }
}

/// Lowers message chunks, each a text with an optional highlight-group
/// name, to the sequence-of-pairs argument the message-echoing call
/// expects: one two-element sequence per chunk, an absent group
/// lowering to nil.
pub fn echo_chunks(chunks: &Vec<(Vec<u8>, Option<Vec<u8>>)>) -> (r: Object)
    ensures
        r.mode is Owned,
        r.id == 0,
        r.kind matches ObjectKind::Sequence(cs) && cs@.len() == chunks@.len() && forall|i: int|
            0 <= i < chunks@.len() ==> {
                &&& (#[trigger] cs@[i]).mode is Owned
                &&& cs@[i].id == 0
                &&& cs@[i].kind matches ObjectKind::Sequence(pair) && pair@.len() == 2
                    && chunks@[i].0.represents(pair@[0]) && chunks@[i].1.represents(pair@[1])
            },
{
    let mut cs: Vec<Object> = Vec::new();
    let mut i: usize = 0;
    while i < chunks.len()
        invariant
            i <= chunks.len(),
            cs@.len() == i as int,
            forall|j: int| 0 <= j < i ==> {
                &&& (#[trigger] cs@[j]).mode is Owned
                &&& cs@[j].id == 0
                &&& cs@[j].kind matches ObjectKind::Sequence(pair) && pair@.len() == 2
                    && chunks@[j].0.represents(pair@[0]) && chunks@[j].1.represents(pair@[1])
            },
        decreases chunks.len() - i,
    {
        let text = chunks[i].0.to_obj();
        let group = chunks[i].1.to_obj();
        let mut pair: Vec<Object> = Vec::new();
        pair.push(text);
        pair.push(group);
        proof {
            assert(pair@.len() == 2);
            assert(pair@[0] == text && pair@[1] == group);
        }
        let ghost cs_before = cs@;
        cs.push(Object::sequence(pair));
        proof {
            assert(forall|j: int| 0 <= j < i ==> cs@[j] == cs_before[j]);
        }
        i += 1;
    }
    Object::sequence(cs)
}

/// Decodes a dynamic mapping pairwise into decodable keys and values,
/// keeping insertion order. It succeeds exactly when the value is a
/// mapping all of whose keys and values decode; otherwise it reports
/// the mapping's wrong tag, or the error of the first pair member that
/// fails, the key checked before its value.
pub fn decode_mapping<K: FromObject, V: FromObject>(o: &Object) -> (r: Result<
    Vec<(K, V)>,
    ConversionError,
>)
    ensures
        r is Ok <==> (o.kind matches ObjectKind::Mapping(ms) && forall|i: int|
            0 <= i < ms@.len() ==> K::accepts((#[trigger] ms@[i]).0) && V::accepts(ms@[i].1)),
        r matches Ok(v) ==> (o.kind matches ObjectKind::Mapping(ms) && v@.len() == ms@.len()
            && forall|i: int| 0 <= i < ms@.len() ==> K::decoded((#[trigger] ms@[i]).0, v@[i].0)
                && V::decoded(ms@[i].1, v@[i].1)),
        !(o.kind is Mapping) ==> r == Err::<Vec<(K, V)>, ConversionError>(
            ConversionError::WrongTag { expected: ObjectTag::Mapping, actual: o.tag() },
        ),
        r matches Err(e) ==> (o.kind matches ObjectKind::Mapping(ms) ==> exists|i: int|
            0 <= i < ms@.len() && ((!K::accepts((#[trigger] ms@[i]).0) && e == K::decode_err(
                ms@[i].0,
            )) || (!V::accepts(ms@[i].1) && e == V::decode_err(ms@[i].1)))),
{
    match &o.kind {
        ObjectKind::Mapping(ms) => {
            let mut out: Vec<(K, V)> = Vec::new();
            let mut i: usize = 0;
            while i < ms.len()
                invariant
                    o.kind == ObjectKind::Mapping(*ms),
                    i <= ms.len(),
                    out@.len() == i as int,
                    forall|j: int|
                        0 <= j < i ==> K::accepts((#[trigger] ms@[j]).0) && V::accepts(ms@[j].1),
                    forall|j: int|
                        0 <= j < i ==> K::decoded((#[trigger] ms@[j]).0, out@[j].0) && V::decoded(
                            ms@[j].1,
                            out@[j].1,
                        ),
                decreases ms.len() - i,
            {
                let k = match K::from_obj(&ms[i].0) {
                    Ok(k) => k,
                    Err(e) => {
                        proof {
                            assert(o.kind matches ObjectKind::Mapping(mm) && mm == *ms);
                            assert(!K::accepts(ms@[i as int].0));
                            assert(!(forall|t: int|
                                0 <= t < ms@.len() ==> K::accepts((#[trigger] ms@[t]).0)
                                    && V::accepts(ms@[t].1)));
                            assert(exists|t: int|
                                0 <= t < ms@.len() && ((!K::accepts((#[trigger] ms@[t]).0)
                                    && e == K::decode_err(ms@[t].0)) || (!V::accepts(ms@[t].1)
                                    && e == V::decode_err(ms@[t].1))));
                        }
                        return Err(e);
                    },
                };
                let v = match V::from_obj(&ms[i].1) {
                    Ok(v) => v,
                    Err(e) => {
                        proof {
                            assert(o.kind matches ObjectKind::Mapping(mm) && mm == *ms);
                            assert(!V::accepts(ms@[i as int].1));
                            assert(!(forall|t: int|
                                0 <= t < ms@.len() ==> K::accepts((#[trigger] ms@[t]).0)
                                    && V::accepts(ms@[t].1)));
                            assert(exists|t: int|
                                0 <= t < ms@.len() && ((!K::accepts((#[trigger] ms@[t]).0)
                                    && e == K::decode_err(ms@[t].0)) || (!V::accepts(ms@[t].1)
                                    && e == V::decode_err(ms@[t].1))));
                        }
                        return Err(e);
                    },
                };
                let ghost out_before = out@;
                out.push((k, v));
                proof {
                    assert(out@[i as int] == (k, v));
                    assert(forall|j: int| 0 <= j < i ==> out@[j] == out_before[j]);
                }
                i += 1;
            }
            Ok(out)
        },
        _ => Err(ConversionError::WrongTag {
            expected: ObjectTag::Mapping,
            actual: o.tag_of(),
        }),
    }
}

/// Round trip for booleans: decoding any encoding of `x` is accepted
/// and yields `x` back.
pub proof fn lemma_round_trip_bool(x: bool, o: Object, y: bool)
    requires
        x.represents(o),
    ensures
        <bool as FromObject>::accepts(o),
        <bool as FromObject>::decoded(o, y) ==> y == x,
{
}

/// Round trip for wide integers: decoding any encoding of `x` is
/// accepted and yields `x` back.
pub proof fn lemma_round_trip_i64(x: i64, o: Object, y: i64)
    requires
        x.represents(o),
    ensures
        <i64 as FromObject>::accepts(o),
        <i64 as FromObject>::decoded(o, y) ==> y == x,
{
}

/// Round trip for narrow signed integers: every `i32` fits the wide
/// integer shape it encodes to, so decoding its encoding is accepted
/// and yields it back. The narrowing is visible only when decoding a
/// wide integer that no `i32` produced.
pub proof fn lemma_round_trip_i32(x: i32, o: Object, y: i32)
    requires
        x.represents(o),
    ensures
        <i32 as FromObject>::accepts(o),
        <i32 as FromObject>::decoded(o, y) ==> y == x,
{
}

/// Round trip for narrow unsigned integers, as for `i32`.
pub proof fn lemma_round_trip_u32(x: u32, o: Object, y: u32)
    requires
        x.represents(o),
    ensures
        <u32 as FromObject>::accepts(o),
        <u32 as FromObject>::decoded(o, y) ==> y == x,
{
}

/// Round trip for float bit patterns: decoding any encoding of `x` is
/// accepted and yields `x` back.
pub proof fn lemma_round_trip_float(x: FloatBits, o: Object, y: FloatBits)
    requires
        x.represents(o),
    ensures
        <FloatBits as FromObject>::accepts(o),
        <FloatBits as FromObject>::decoded(o, y) ==> y == x,
{
}

/// Round trip for text: decoding any encoding of `x` is accepted and
/// yields bytes equal to `x`'s.
pub proof fn lemma_round_trip_text(x: Vec<u8>, o: Object, y: Vec<u8>)
    requires
        x.represents(o),
    ensures
        <Vec<u8> as FromObject>::accepts(o),
        <Vec<u8> as FromObject>::decoded(o, y) ==> y@ == x@,
{
}

} // verus!
