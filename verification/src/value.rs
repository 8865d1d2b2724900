//! Typed INFO values, and the reserved values by which the binary format
//! marks a missing value and the end of a vector.
//!
//! A floating-point number is held as the 32 bits of its IEEE 754 single
//! precision form, so that the reserved bit patterns keep their identity.

use vstd::prelude::*;

use crate::names::{clone_names, views};
use crate::schema::FieldType;

verus! {

/// The integer that the format writes for a missing value.
pub const INT_MISSING: i32 = -2147483648;

/// The integer with which the format pads a vector behind its last value.
pub const INT_VECTOR_END: i32 = -2147483647;

/// The bit pattern that the format writes for a missing floating-point value.
pub const FLOAT_MISSING: u32 = 0x7F80_0001;

/// The bit pattern with which the format pads a vector of floating-point values.
pub const FLOAT_VECTOR_END: u32 = 0x7F80_0002;

/// The values of one INFO field on one record. In a list of numbers each
/// position is either a value or explicitly missing.
#[derive(Debug)]
pub enum InfoValue {
    Integer(Vec<Option<i32>>),
    Float(Vec<Option<u32>>),
    String(Vec<String>),
    Flag,
}

/// The values of one INFO field as a mathematical value.
pub enum InfoValueView {
    Integer(Seq<Option<i32>>),
    Float(Seq<Option<u32>>),
    String(Seq<Seq<char>>),
    Flag,
}

impl InfoValueView {
    /// The field type that values of this shape belong to.
    pub open spec fn kind(self) -> FieldType {
        match self {
            InfoValueView::Integer(_) => FieldType::Integer,
            InfoValueView::Float(_) => FieldType::Float,
            InfoValueView::String(_) => FieldType::String,
            InfoValueView::Flag => FieldType::Flag,
        }
    }

    /// Whether this is a list without values. A flag is never empty.
    pub open spec fn is_empty(self) -> bool {
        match self {
            InfoValueView::Integer(v) => v.len() == 0,
            InfoValueView::Float(v) => v.len() == 0,
            InfoValueView::String(v) => v.len() == 0,
            InfoValueView::Flag => false,
        }
    }

    /// The value that stands for "declared but not set": the empty list of
    /// the given type.
    pub open spec fn empty_of(ty: FieldType) -> InfoValueView {
        match ty {
            FieldType::Integer => InfoValueView::Integer(Seq::empty()),
            FieldType::Float => InfoValueView::Float(Seq::empty()),
            FieldType::String => InfoValueView::String(Seq::empty()),
            FieldType::Flag => InfoValueView::Flag,
        }
    }

    /// Whether no value that is present collides with a reserved value of
    /// the format.
    pub open spec fn canonical(self) -> bool {
        match self {
            InfoValueView::Integer(v) => canonical_integers(v),
            InfoValueView::Float(v) => canonical_floats(v),
            _ => true,
        }
    }
}

impl View for InfoValue {
    type V = InfoValueView;

    open spec fn view(&self) -> InfoValueView {
        match self {
            InfoValue::Integer(v) => InfoValueView::Integer(v@),
            InfoValue::Float(v) => InfoValueView::Float(v@),
            InfoValue::String(v) => InfoValueView::String(views(v@)),
            InfoValue::Flag => InfoValueView::Flag,
        }
    }
}

/// A copy of a list of optional integers.
fn clone_integers(v: &Vec<Option<i32>>) -> (r: Vec<Option<i32>>)
    ensures
        r@ == v@,
{
    let mut r: Vec<Option<i32>> = Vec::new();
    let mut i: usize = 0;
    while i < v.len()
        invariant
            0 <= i <= v.len(),
            r@ == v@.subrange(0, i as int),
        decreases v.len() - i,
    {
        r.push(v[i]);
        assert(r@ =~= v@.subrange(0, i as int + 1));
        i = i + 1;
    }
    assert(r@ =~= v@);
    r
}

/// A copy of a list of optional bit patterns.
fn clone_floats(v: &Vec<Option<u32>>) -> (r: Vec<Option<u32>>)
    ensures
        r@ == v@,
{
    let mut r: Vec<Option<u32>> = Vec::new();
    let mut i: usize = 0;
    while i < v.len()
        invariant
            0 <= i <= v.len(),
            r@ == v@.subrange(0, i as int),
        decreases v.len() - i,
    {
        r.push(v[i]);
        assert(r@ =~= v@.subrange(0, i as int + 1));
        i = i + 1;
    }
    assert(r@ =~= v@);
    r
}

impl Clone for InfoValue {
    fn clone(&self) -> (r: Self)
        ensures
            r@ == self@,
    {
        match self {
            InfoValue::Integer(v) => InfoValue::Integer(clone_integers(v)),
            InfoValue::Float(v) => InfoValue::Float(clone_floats(v)),
            InfoValue::String(v) => InfoValue::String(clone_names(v)),
            InfoValue::Flag => InfoValue::Flag,
        }
    }
}

impl InfoValue {
    /// The field type that these values belong to.
    pub fn kind(&self) -> (ty: FieldType)
        ensures
            ty == self@.kind(),
    {
        match self {
            InfoValue::Integer(_) => FieldType::Integer,
            InfoValue::Float(_) => FieldType::Float,
            InfoValue::String(_) => FieldType::String,
            InfoValue::Flag => FieldType::Flag,
        }
    }

    /// Whether this is a list without values.
    pub fn is_empty(&self) -> (r: bool)
        ensures
            r == self@.is_empty(),
    {
        match self {
            InfoValue::Integer(v) => v.len() == 0,
            InfoValue::Float(v) => v.len() == 0,
            InfoValue::String(v) => {
                assert(views(v@).len() == v@.len());
                v.len() == 0
            },
            InfoValue::Flag => false,
        }
    }

    /// The empty list of the given type.
    pub fn empty_of(ty: FieldType) -> (r: InfoValue)
        ensures
            r@ == InfoValueView::empty_of(ty),
    {
        match ty {
            FieldType::Integer => InfoValue::Integer(Vec::new()),
            FieldType::Float => InfoValue::Float(Vec::new()),
            FieldType::String => {
                let v: Vec<String> = Vec::new();
                assert(views(v@) =~= Seq::empty());
                InfoValue::String(v)
            },
            FieldType::Flag => InfoValue::Flag,
        }
    }
}

/// The length of a raw vector of integers up to its padding: the index of the
/// first end marker, or the whole length where there is none.
pub open spec fn integers_len(raw: Seq<i32>) -> nat
    decreases raw.len(),
{
    if raw.len() == 0 || raw[0] == INT_VECTOR_END {
        0
    } else {
        1 + integers_len(raw.drop_first())
    }
}

/// What one raw integer stands for.
pub open spec fn decode_integer(x: i32) -> Option<i32> {
    if x == INT_MISSING {
        None
    } else {
        Some(x)
    }
}

/// How a value, or its absence, is written as a raw integer.
pub open spec fn encode_integer(v: Option<i32>) -> i32 {
    match v {
        Some(x) => x,
        None => INT_MISSING,
    }
}

/// The values of a raw vector of integers: what stands before the padding,
/// with the missing marker read as an absent value.
pub open spec fn decode_integers(raw: Seq<i32>) -> Seq<Option<i32>> {
    Seq::new(integers_len(raw), |i: int| decode_integer(raw[i]))
}

/// The raw vector that holds `values`, without padding.
pub open spec fn encode_integers(values: Seq<Option<i32>>) -> Seq<i32> {
    Seq::new(values.len(), |i: int| encode_integer(values[i]))
}

/// Whether no value that is present is one of the two reserved integers.
pub open spec fn canonical_integers(values: Seq<Option<i32>>) -> bool {
    forall|i: int|
        0 <= i < values.len() ==> #[trigger] values[i] != Some(INT_MISSING) && values[i] != Some(
            INT_VECTOR_END,
        )
}

/// The length of a raw vector of bit patterns up to its padding.
pub open spec fn floats_len(raw: Seq<u32>) -> nat
    decreases raw.len(),
{
    if raw.len() == 0 || raw[0] == FLOAT_VECTOR_END {
        0
    } else {
        1 + floats_len(raw.drop_first())
    }
}

/// What one raw bit pattern stands for.
pub open spec fn decode_float(x: u32) -> Option<u32> {
    if x == FLOAT_MISSING {
        None
    } else {
        Some(x)
    }
}

/// How a floating-point value, or its absence, is written as a raw bit pattern.
pub open spec fn encode_float(v: Option<u32>) -> u32 {
    match v {
        Some(x) => x,
        None => FLOAT_MISSING,
    }
}

/// The values of a raw vector of bit patterns.
pub open spec fn decode_floats(raw: Seq<u32>) -> Seq<Option<u32>> {
    Seq::new(floats_len(raw), |i: int| decode_float(raw[i]))
}

/// The raw vector that holds `values`, without padding.
pub open spec fn encode_floats(values: Seq<Option<u32>>) -> Seq<u32> {
    Seq::new(values.len(), |i: int| encode_float(values[i]))
}

/// Whether no value that is present is one of the two reserved bit patterns.
pub open spec fn canonical_floats(values: Seq<Option<u32>>) -> bool {
    forall|i: int|
        0 <= i < values.len() ==> #[trigger] values[i] != Some(FLOAT_MISSING) && values[i] != Some(
            FLOAT_VECTOR_END,
        )
}

/// A raw vector's values end at the first end marker, or at its end.
pub proof fn lemma_integers_len(raw: Seq<i32>, n: int)
    requires
        0 <= n <= raw.len(),
        forall|j: int| 0 <= j < n ==> raw[j] != INT_VECTOR_END,
        n == raw.len() || raw[n] == INT_VECTOR_END,
    ensures
        integers_len(raw) == n,
    decreases n,
{
    if n > 0 {
        let rest = raw.drop_first();
        assert forall|j: int| 0 <= j < n - 1 implies rest[j] != INT_VECTOR_END by {
            assert(rest[j] == raw[j + 1]);
        }
        lemma_integers_len(rest, n - 1);
    }
}

/// A raw vector's values end at the first end marker, or at its end.
pub proof fn lemma_floats_len(raw: Seq<u32>, n: int)
    requires
        0 <= n <= raw.len(),
        forall|j: int| 0 <= j < n ==> raw[j] != FLOAT_VECTOR_END,
        n == raw.len() || raw[n] == FLOAT_VECTOR_END,
    ensures
        floats_len(raw) == n,
    decreases n,
{
    if n > 0 {
        let rest = raw.drop_first();
        assert forall|j: int| 0 <= j < n - 1 implies rest[j] != FLOAT_VECTOR_END by {
            assert(rest[j] == raw[j + 1]);
        }
        lemma_floats_len(rest, n - 1);
    }
}

/// Reads one raw bit pattern: the value it holds, or `None` for the missing marker.
pub fn read_float(x: u32) -> (r: Option<u32>)
    ensures
        r == decode_float(x),
{
    if x == FLOAT_MISSING {
        None
    } else {
        Some(x)
    }
}

/// Writes one floating-point value, or its absence, as a raw bit pattern.
pub fn write_float(v: Option<u32>) -> (r: u32)
    ensures
        r == encode_float(v),
{
    match v {
        Some(x) => x,
        None => FLOAT_MISSING,
    }
}

/// Reads one raw integer: the value it holds, or `None` for the missing marker.
pub fn read_integer(x: i32) -> (r: Option<i32>)
    ensures
        r == decode_integer(x),
{
    if x == INT_MISSING {
        None
    } else {
        Some(x)
    }
}

/// Writes one integer, or its absence, as a raw integer.
pub fn write_integer(v: Option<i32>) -> (r: i32)
    ensures
        r == encode_integer(v),
{
    match v {
        Some(x) => x,
        None => INT_MISSING,
    }
}

/// Reads the values of a raw vector of integers.
pub fn read_integers(raw: &Vec<i32>) -> (r: Vec<Option<i32>>)
    ensures
        r@ == decode_integers(raw@),
{
    let mut r: Vec<Option<i32>> = Vec::new();
    let mut i: usize = 0;
    while i < raw.len() && raw[i] != INT_VECTOR_END
        invariant
            0 <= i <= raw.len(),
            r.len() == i,
            forall|j: int| 0 <= j < i ==> raw@[j] != INT_VECTOR_END,
            forall|j: int| 0 <= j < i ==> r@[j] == decode_integer(raw@[j]),
        decreases raw.len() - i,
    {
        r.push(read_integer(raw[i]));
        i = i + 1;
    }
    proof {
        lemma_integers_len(raw@, i as int);
        assert(r@ =~= decode_integers(raw@));
    }
    r
}

/// Writes values as a raw vector of integers.
pub fn write_integers(values: &Vec<Option<i32>>) -> (r: Vec<i32>)
    ensures
        r@ == encode_integers(values@),
{
    let mut r: Vec<i32> = Vec::new();
    let mut i: usize = 0;
    while i < values.len()
        invariant
            0 <= i <= values.len(),
            r.len() == i,
            forall|j: int| 0 <= j < i ==> r@[j] == encode_integer(values@[j]),
        decreases values.len() - i,
    {
        r.push(write_integer(values[i]));
        i = i + 1;
    }
    assert(r@ =~= encode_integers(values@));
    r
}

/// Reads the values of a raw vector of floating-point bit patterns.
pub fn read_floats(raw: &Vec<u32>) -> (r: Vec<Option<u32>>)
    ensures
        r@ == decode_floats(raw@),
{
    let mut r: Vec<Option<u32>> = Vec::new();
    let mut i: usize = 0;
    while i < raw.len() && raw[i] != FLOAT_VECTOR_END
        invariant
            0 <= i <= raw.len(),
            r.len() == i,
            forall|j: int| 0 <= j < i ==> raw@[j] != FLOAT_VECTOR_END,
            forall|j: int| 0 <= j < i ==> r@[j] == decode_float(raw@[j]),
        decreases raw.len() - i,
    {
        r.push(read_float(raw[i]));
        i = i + 1;
    }
    proof {
        lemma_floats_len(raw@, i as int);
        assert(r@ =~= decode_floats(raw@));
    }
    r
}

/// Writes values as a raw vector of floating-point bit patterns.
pub fn write_floats(values: &Vec<Option<u32>>) -> (r: Vec<u32>)
    ensures
        r@ == encode_floats(values@),
{
    let mut r: Vec<u32> = Vec::new();
    let mut i: usize = 0;
    while i < values.len()
        invariant
            0 <= i <= values.len(),
            r.len() == i,
            forall|j: int| 0 <= j < i ==> r@[j] == encode_float(values@[j]),
        decreases values.len() - i,
    {
        r.push(write_float(values[i]));
        i = i + 1;
    }
    assert(r@ =~= encode_floats(values@));
    r
}

/// Values that avoid the reserved integers come back unchanged from the raw
/// vector they were written to.
pub proof fn lemma_integers_round_trip(values: Seq<Option<i32>>)
    requires
        canonical_integers(values),
    ensures
        decode_integers(encode_integers(values)) == values,
{
    let raw = encode_integers(values);
    assert forall|j: int| 0 <= j < raw.len() implies raw[j] != INT_VECTOR_END by {
        assert(values[j] != Some(INT_VECTOR_END));
    }
    lemma_integers_len(raw, raw.len() as int);
    assert forall|j: int| 0 <= j < values.len() implies decode_integer(raw[j]) == values[j] by {
        assert(values[j] != Some(INT_MISSING));
    }
    assert(decode_integers(raw) =~= values);
}

/// Values that avoid the reserved bit patterns come back unchanged from the
/// raw vector they were written to.
pub proof fn lemma_floats_round_trip(values: Seq<Option<u32>>)
    requires
        canonical_floats(values),
    ensures
        decode_floats(encode_floats(values)) == values,
{
    let raw = encode_floats(values);
    assert forall|j: int| 0 <= j < raw.len() implies raw[j] != FLOAT_VECTOR_END by {
        assert(values[j] != Some(FLOAT_VECTOR_END));
    }
    lemma_floats_len(raw, raw.len() as int);
    assert forall|j: int| 0 <= j < values.len() implies decode_float(raw[j]) == values[j] by {
        assert(values[j] != Some(FLOAT_MISSING));
    }
    assert(decode_floats(raw) =~= values);
}

} // verus!
