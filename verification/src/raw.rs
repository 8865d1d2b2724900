//! The raw record: what a codec hands over for one variant call, with names
//! given by numeric id and values as the binary format holds them.

use vstd::prelude::*;

use crate::names::{clone_names, views};
use crate::schema::FieldType;
use crate::value::{
    decode_floats, decode_integers, encode_floats, encode_integers, read_floats, read_integers,
    write_floats, write_integers, InfoValue, InfoValueView,
};

verus! {

/// The raw values of one INFO field.
#[derive(Debug)]
pub enum RawValue {
    /// Integers, with the reserved values for "missing" and "end of vector".
    Integers(Vec<i32>),
    /// Bit patterns of floating-point numbers, with their reserved values.
    Floats(Vec<u32>),
    Strings(Vec<String>),
    Flag,
}

/// The raw values of one INFO field as a mathematical value.
pub enum RawValueView {
    Integers(Seq<i32>),
    Floats(Seq<u32>),
    Strings(Seq<Seq<char>>),
    Flag,
}

impl View for RawValue {
    type V = RawValueView;

    open spec fn view(&self) -> RawValueView {
        match self {
            RawValue::Integers(v) => RawValueView::Integers(v@),
            RawValue::Floats(v) => RawValueView::Floats(v@),
            RawValue::Strings(v) => RawValueView::Strings(views(v@)),
            RawValue::Flag => RawValueView::Flag,
        }
    }
}

impl RawValueView {
    /// The field type that values of this shape belong to.
    pub open spec fn kind(self) -> FieldType {
        match self {
            RawValueView::Integers(_) => FieldType::Integer,
            RawValueView::Floats(_) => FieldType::Float,
            RawValueView::Strings(_) => FieldType::String,
            RawValueView::Flag => FieldType::Flag,
        }
    }

    /// The raw values that hold `value`, without padding.
    pub open spec fn encode(value: InfoValueView) -> RawValueView {
        match value {
            InfoValueView::Integer(v) => RawValueView::Integers(encode_integers(v)),
            InfoValueView::Float(v) => RawValueView::Floats(encode_floats(v)),
            InfoValueView::String(v) => RawValueView::Strings(v),
            InfoValueView::Flag => RawValueView::Flag,
        }
    }

    /// The typed values that the raw values stand for.
    pub open spec fn decode(self) -> InfoValueView {
        match self {
            RawValueView::Integers(v) => InfoValueView::Integer(decode_integers(v)),
            RawValueView::Floats(v) => InfoValueView::Float(decode_floats(v)),
            RawValueView::Strings(v) => InfoValueView::String(v),
            RawValueView::Flag => InfoValueView::Flag,
        }
    }
}

impl RawValue {
    /// The field type that these values belong to.
    pub fn kind(&self) -> (ty: FieldType)
        ensures
            ty == self@.kind(),
    {
        match self {
            RawValue::Integers(_) => FieldType::Integer,
            RawValue::Floats(_) => FieldType::Float,
            RawValue::Strings(_) => FieldType::String,
            RawValue::Flag => FieldType::Flag,
        }
    }

    /// The raw values that hold `value`.
    pub fn encode(value: &InfoValue) -> (r: RawValue)
        ensures
            r@ == RawValueView::encode(value@),
    {
        match value {
            InfoValue::Integer(v) => RawValue::Integers(write_integers(v)),
            InfoValue::Float(v) => RawValue::Floats(write_floats(v)),
            InfoValue::String(v) => RawValue::Strings(clone_names(v)),
            InfoValue::Flag => RawValue::Flag,
        }
    }

    /// The typed values that these raw values stand for.
    pub fn decode(&self) -> (r: InfoValue)
        ensures
            r@ == self@.decode(),
    {
        match self {
            RawValue::Integers(v) => InfoValue::Integer(read_integers(v)),
            RawValue::Floats(v) => InfoValue::Float(read_floats(v)),
            RawValue::Strings(v) => InfoValue::String(clone_names(v)),
            RawValue::Flag => InfoValue::Flag,
        }
    }
}

/// One INFO field of a raw record: the numeric id of the field and its values.
#[derive(Debug)]
pub struct RawInfo {
    pub key: usize,
    pub value: RawValue,
}

/// One INFO field of a raw record as a mathematical value.
pub struct RawInfoView {
    pub key: usize,
    pub value: RawValueView,
}

impl View for RawInfo {
    type V = RawInfoView;

    open spec fn view(&self) -> RawInfoView {
        RawInfoView { key: self.key, value: self.value@ }
    }
}

/// One variant call as a codec hands it over.
#[derive(Debug)]
pub struct RawRecord {
    /// The numeric id of the contig.
    pub contig: usize,
    /// The 0-based position of the first base.
    pub start: i64,
    /// The end of the variant, exclusive, where the record carries one of its
    /// own; `None` where it follows from the reference allele.
    pub end: Option<i64>,
    pub id: String,
    /// The alleles, the reference allele first.
    pub alleles: Vec<String>,
    /// The bit pattern of the quality score.
    pub qual: u32,
    /// The numeric ids of the active filters.
    pub filters: Vec<usize>,
    pub info: Vec<RawInfo>,
}

/// A raw record as a mathematical value.
pub struct RawRecordView {
    pub contig: usize,
    pub start: i64,
    pub end: Option<i64>,
    pub id: Seq<char>,
    pub alleles: Seq<Seq<char>>,
    pub qual: u32,
    pub filters: Seq<usize>,
    pub info: Seq<RawInfoView>,
}

/// The views of a list of raw INFO fields, in order.
pub open spec fn raw_info_views(entries: Seq<RawInfo>) -> Seq<RawInfoView> {
    entries.map_values(|e: RawInfo| e@)
}

impl View for RawRecord {
    type V = RawRecordView;

    open spec fn view(&self) -> RawRecordView {
        RawRecordView {
            contig: self.contig,
            start: self.start,
            end: self.end,
            id: self.id@,
            alleles: views(self.alleles@),
            qual: self.qual,
            filters: self.filters@,
            info: raw_info_views(self.info@),
        }
    }
}

} // verus!
