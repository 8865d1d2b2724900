//! The record as a mathematical value, and what each operation on a record
//! means for it. The executable record is held to these definitions.

use vstd::prelude::*;

use crate::error::{Error, Namespace};
use crate::idset::dedup;
use crate::raw::{RawInfoView, RawRecordView};
use crate::registry::RegistryView;
use crate::schema::FieldType;
use crate::value::{decode_float, InfoValueView};

verus! {

/// One variant call as a mathematical value. Contig, filters and INFO fields
/// are given by their numeric ids in the registry the record belongs to.
pub struct RecordView {
    pub contig: usize,
    /// The 0-based position of the first base.
    pub start: i64,
    /// The end of the variant, exclusive.
    pub end: i64,
    pub id: Seq<char>,
    /// The alleles, the reference allele first.
    pub alleles: Seq<Seq<char>>,
    /// The bit pattern of the quality score; `None` where it is missing.
    pub qual: Option<u32>,
    /// The active filters, in order. Empty means that no filter has been
    /// applied yet, which is not the same as the single filter `PASS`.
    pub filters: Seq<usize>,
    /// The values of the INFO fields that are set on this record.
    pub info: Map<usize, InfoValueView>,
    /// The generation of the registry when the record was decoded.
    pub generation: nat,
}

/// The numeric ids of the filters named by `names`, in order; `None` where a
/// name is not declared.
pub open spec fn resolve_filters(reg: RegistryView, names: Seq<Seq<char>>) -> Option<Seq<usize>> {
    if forall|i: int| 0 <= i < names.len() ==> reg.filter_index(#[trigger] names[i]) is Some {
        Some(Seq::new(names.len(), |i: int| reg.filter_index(names[i])->0 as usize))
    } else {
        None
    }
}

/// The INFO values after `value` has been set for `key`: held in place of
/// what was there, or nothing held where `value` is an empty list.
pub open spec fn put_info(
    info: Map<usize, InfoValueView>,
    key: usize,
    value: InfoValueView,
) -> Map<usize, InfoValueView> {
    if value.is_empty() {
        info.remove(key)
    } else {
        info.insert(key, value)
    }
}

/// The INFO values that a list of raw fields stands for: each field set in
/// turn.
pub open spec fn decoded_info(entries: Seq<RawInfoView>) -> Map<usize, InfoValueView>
    decreases entries.len(),
{
    if entries.len() == 0 {
        Map::empty()
    } else {
        put_info(
            decoded_info(entries.drop_last()),
            entries.last().key,
            entries.last().value.decode(),
        )
    }
}

/// Whether `reg` declares every field of `entries`, with the type of the
/// values that the field holds.
pub open spec fn info_typed(entries: Seq<RawInfoView>, reg: RegistryView) -> bool {
    forall|i: int|
        0 <= i < entries.len() ==> (#[trigger] entries[i]).key < reg.info.len()
            && entries[i].value.kind() == reg.info[entries[i].key as int].ty
}

/// Whether a raw record can be read under `reg`: every numeric id is
/// declared, every field holds values of its declared type, there is a
/// reference allele, and the end that follows from it can be held.
pub open spec fn decodable(raw: RawRecordView, reg: RegistryView) -> bool {
    &&& raw.contig < reg.contigs.len()
    &&& raw.alleles.len() >= 1
    &&& raw.end is None ==> raw.start + raw.alleles[0].len() <= i64::MAX
    &&& forall|i: int| 0 <= i < raw.filters.len() ==> #[trigger] raw.filters[i] < reg.filters.len()
    &&& info_typed(raw.info, reg)
}

/// The record that a raw record stands for under `reg`.
pub open spec fn decode(raw: RawRecordView, reg: RegistryView) -> Option<RecordView> {
    if decodable(raw, reg) {
        Some(
            RecordView {
                contig: raw.contig,
                start: raw.start,
                end: match raw.end {
                    Some(e) => e,
                    None => (raw.start + raw.alleles[0].len()) as i64,
                },
                id: raw.id,
                alleles: raw.alleles,
                qual: decode_float(raw.qual),
                filters: dedup(raw.filters),
                info: decoded_info(raw.info),
                generation: reg.generation,
            },
        )
    } else {
        None
    }
}

impl RecordView {
    /// There is a reference allele, no filter is active twice, and no INFO
    /// field is held with an empty list.
    pub open spec fn wf(self) -> bool {
        &&& self.alleles.len() >= 1
        &&& self.filters.no_duplicates()
        &&& forall|k: usize| self.info.contains_key(k) ==> !(#[trigger] self.info[k]).is_empty()
    }

    /// Whether every numeric id of the record is declared in `reg`, and every
    /// INFO field holds values of the type that `reg` declares for it.
    pub open spec fn valid_for(self, reg: RegistryView) -> bool {
        &&& self.contig < reg.contigs.len()
        &&& forall|i: int|
            0 <= i < self.filters.len() ==> #[trigger] self.filters[i] < reg.filters.len()
        &&& forall|k: usize| #[trigger]
            self.info.contains_key(k) ==> k < reg.info.len() && self.info[k].kind()
                == reg.info[k as int].ty
    }

    /// The name of the record's contig.
    pub open spec fn chrom(self, reg: RegistryView) -> Result<Seq<char>, Error> {
        if self.contig < reg.contigs.len() {
            Ok(reg.contigs[self.contig as int])
        } else {
            Err(Error::NotFound(Namespace::Contig))
        }
    }

    /// The reference allele.
    pub open spec fn ref_allele(self) -> Seq<char> {
        self.alleles[0]
    }

    /// The alternate alleles, in order.
    pub open spec fn alt_alleles(self) -> Seq<Seq<char>> {
        self.alleles.subrange(1, self.alleles.len() as int)
    }

    /// The names of the active filters, in order.
    pub open spec fn filter_names(self, reg: RegistryView) -> Result<Seq<Seq<char>>, Error> {
        if forall|i: int|
            0 <= i < self.filters.len() ==> #[trigger] self.filters[i] < reg.filters.len() {
            Ok(Seq::new(self.filters.len(), |i: int| reg.filters[self.filters[i] as int].id))
        } else {
            Err(Error::NotFound(Namespace::Filter))
        }
    }

    /// The record after its filters have been replaced by those named.
    /// Nothing changes unless every name is declared.
    pub open spec fn set_filter(self, reg: RegistryView, names: Seq<Seq<char>>) -> Result<
        RecordView,
        Error,
    > {
        match resolve_filters(reg, names) {
            Some(ids) => Ok(RecordView { filters: dedup(ids), ..self }),
            None => Err(Error::NotFound(Namespace::Filter)),
        }
    }

    /// The values of the INFO field `tag`: what is set on the record, or the
    /// empty list of the declared type where nothing is set. An undeclared
    /// tag is an error, and so is a flag, which has no values.
    pub open spec fn info_value(self, reg: RegistryView, tag: Seq<char>) -> Result<
        InfoValueView,
        Error,
    > {
        match reg.info_index(tag) {
            None => Err(Error::NotFound(Namespace::Info)),
            Some(i) => if reg.info[i].ty == FieldType::Flag {
                Err(Error::UnsupportedOperation)
            } else if self.info.contains_key(i as usize) {
                Ok(self.info[i as usize])
            } else {
                Ok(InfoValueView::empty_of(reg.info[i].ty))
            },
        }
    }

    /// The record after `value` has replaced the values of the INFO field
    /// `tag`. The tag must be declared, not as a flag, and `value` must be of
    /// the declared type.
    pub open spec fn set_info(self, reg: RegistryView, tag: Seq<char>, value: InfoValueView)
        -> Result<RecordView, Error> {
        match reg.info_index(tag) {
            None => Err(Error::NotFound(Namespace::Info)),
            Some(i) => if reg.info[i].ty == FieldType::Flag {
                Err(Error::UnsupportedOperation)
            } else if value.kind() != reg.info[i].ty {
                Err(Error::TypeMismatch { expected: reg.info[i].ty, supplied: value.kind() })
            } else {
                Ok(RecordView { info: put_info(self.info, i as usize, value), ..self })
            },
        }
    }

    /// Whether the flag `tag` is set. The tag must be declared as a flag.
    pub open spec fn flag(self, reg: RegistryView, tag: Seq<char>) -> Result<bool, Error> {
        match reg.info_index(tag) {
            None => Err(Error::NotFound(Namespace::Info)),
            Some(i) => if reg.info[i].ty != FieldType::Flag {
                Err(Error::UnsupportedOperation)
            } else {
                Ok(self.info.contains_key(i as usize))
            },
        }
    }

    /// The record after the flag `tag` has been set or cleared.
    pub open spec fn set_flag(self, reg: RegistryView, tag: Seq<char>, present: bool) -> Result<
        RecordView,
        Error,
    > {
        match reg.info_index(tag) {
            None => Err(Error::NotFound(Namespace::Info)),
            Some(i) => if reg.info[i].ty != FieldType::Flag {
                Err(Error::UnsupportedOperation)
            } else if present {
                Ok(RecordView { info: self.info.insert(i as usize, InfoValueView::Flag), ..self })
            } else {
                Ok(RecordView { info: self.info.remove(i as usize), ..self })
            },
        }
    }
}

} // verus!
