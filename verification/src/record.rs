//! The variant record: one call, read and changed under the registry of its
//! dataset.

use vstd::prelude::*;
use vstd::string::StrSliceExecFns;
use vstd::string::StringExecFns;

use crate::error::{Error, Namespace};
use crate::idset::{dedup_ids, lemma_dedup};
use crate::laws::{
    lemma_set_filter_keeps_valid, lemma_set_flag_keeps_valid, lemma_set_info_keeps_valid,
};
use crate::model;
use crate::model::{decoded_info, info_typed, resolve_filters, RecordView};
use crate::names::{clone_names, views};
use crate::raw::{raw_info_views, RawInfo, RawRecord};
use crate::registry::HeaderRegistry;
use crate::schema::FieldType;
use crate::store::InfoStore;
use crate::value::{read_float, InfoValue};

verus! {

/// One variant call. A record does not hold its registry: the operations
/// that need one take it as an argument.
#[derive(Debug)]
pub struct VariantRecord {
    contig: usize,
    start: i64,
    end: i64,
    id: String,
    alleles: Vec<String>,
    qual: Option<u32>,
    filters: Vec<usize>,
    info: InfoStore,
    generation: u128,
}

impl View for VariantRecord {
    type V = RecordView;

    closed spec fn view(&self) -> RecordView {
        RecordView {
            contig: self.contig,
            start: self.start,
            end: self.end,
            id: self.id@,
            alleles: views(self.alleles@),
            qual: self.qual,
            filters: self.filters@,
            info: self.info@,
            generation: self.generation as nat,
        }
    }
}

/// Reads the INFO fields of a raw record into a store, or fails on the first
/// field that `registry` does not declare with the type of its values.
fn decode_info(entries: &Vec<RawInfo>, registry: &HeaderRegistry) -> (r: Option<InfoStore>)
    ensures
        match r {
            Some(store) => {
                &&& info_typed(raw_info_views(entries@), registry@)
                &&& store@ == decoded_info(raw_info_views(entries@))
                &&& forall|k: usize| #[trigger]
                    store@.contains_key(k) ==> k < registry@.info.len() && !store@[k].is_empty()
                        && store@[k].kind() == registry@.info[k as int].ty
            },
            None => !info_typed(raw_info_views(entries@), registry@),
        },
{
    let mut store = InfoStore::new();
    let ghost all = raw_info_views(entries@);
    let declared_fields = registry.info_count();
    let mut i: usize = 0;
    while i < entries.len()
        invariant
            0 <= i <= entries.len(),
            all == raw_info_views(entries@),
            declared_fields == registry@.info.len(),
            info_typed(all.subrange(0, i as int), registry@),
            store@ == decoded_info(all.subrange(0, i as int)),
            forall|k: usize| #[trigger]
                store@.contains_key(k) ==> k < registry@.info.len() && !store@[k].is_empty()
                    && store@[k].kind() == registry@.info[k as int].ty,
        decreases entries.len() - i,
    {
        let entry = &entries[i];
        assert(all[i as int] == entry@);
        let declared = match registry.info_type_at(entry.key) {
            Ok(ty) => ty,
            Err(_) => {
                return None;
            },
        };
        if entry.value.kind() != declared {
            return None;
        }
        let value = entry.value.decode();
        proof {
            let next = all.subrange(0, i as int + 1);
            assert(next.drop_last() =~= all.subrange(0, i as int));
            assert(next.last() == entries@[i as int]@);
            assert forall|j: int| 0 <= j < next.len() implies (#[trigger] next[j]).key
                < registry@.info.len() && next[j].value.kind()
                == registry@.info[next[j].key as int].ty by {
                if j < i {
                    assert(next[j] == all.subrange(0, i as int)[j]);
                }
            }
        }
        if value.is_empty() {
            store.remove(entry.key);
        } else {
            store.put(entry.key, value);
        }
        i = i + 1;
    }
    proof {
        assert(all.subrange(0, i as int) =~= all);
    }
    Some(store)
}

/// Whether every id of `ids` is below `bound`.
fn all_below(ids: &Vec<usize>, bound: usize) -> (r: bool)
    ensures
        r == (forall|i: int| 0 <= i < ids.len() ==> #[trigger] ids@[i] < bound),
{
    let mut i: usize = 0;
    while i < ids.len()
        invariant
            0 <= i <= ids.len(),
            forall|j: int| 0 <= j < i ==> #[trigger] ids@[j] < bound,
        decreases ids.len() - i,
    {
        if ids[i] >= bound {
            return false;
        }
        i = i + 1;
    }
    true
}

impl VariantRecord {
    /// What every record made by this module satisfies.
    pub open spec fn wf(&self) -> bool {
        self@.wf()
    }

    /// Reads a raw record under `registry`. A raw record that names an id
    /// that `registry` does not declare, holds values of another type than
    /// declared, has no reference allele, or ends beyond what can be held, is
    /// malformed.
    pub fn decode(raw: &RawRecord, registry: &HeaderRegistry) -> (r: Result<VariantRecord, Error>)
        ensures
            match model::decode(raw@, registry@) {
                Some(v) => r matches Ok(rec) && rec@ == v && rec.wf() && rec@.valid_for(
                    registry@,
                ),
                None => r matches Err(e) && e == Error::Decode,
            },
    {
        if raw.contig >= registry.contig_count() {
            return Err(Error::Decode);
        }
        if raw.alleles.len() == 0 {
            assert(views(raw.alleles@).len() == 0);
            return Err(Error::Decode);
        }
        assert(views(raw.alleles@).len() == raw.alleles.len());
        let end = match raw.end {
            Some(e) => e,
            None => {
                let n = raw.alleles[0].as_str().unicode_len();
                assert(n == raw@.alleles[0].len());
                if raw.start as i128 + n as i128 > i64::MAX as i128 {
                    return Err(Error::Decode);
                }
                (raw.start as i128 + n as i128) as i64
            },
        };
        if !all_below(&raw.filters, registry.filter_count()) {
            return Err(Error::Decode);
        }
        let info = match decode_info(&raw.info, registry) {
            Some(store) => store,
            None => {
                return Err(Error::Decode);
            },
        };
        let filters = dedup_ids(&raw.filters);
        let qual = read_float(raw.qual);
        proof {
            lemma_dedup(raw.filters@);
            assert forall|i: int| 0 <= i < filters@.len() implies #[trigger] filters@[i]
                < registry@.filters.len() by {
                assert(filters@.contains(filters@[i]));
                assert(raw.filters@.contains(filters@[i]));
            }
        }
        let rec = VariantRecord {
            contig: raw.contig,
            start: raw.start,
            end,
            id: raw.id.clone(),
            alleles: clone_names(&raw.alleles),
            qual,
            filters,
            info,
            generation: registry.generation(),
        };
        Ok(rec)
    }

    /// The generation of the registry when the record was decoded.
    pub fn generation(&self) -> (g: u128)
        ensures
            g == self@.generation,
    {
        self.generation
    }

    /// The numeric id of the record's contig.
    pub fn contig_id(&self) -> (id: usize)
        ensures
            id == self@.contig,
    {
        self.contig
    }

    /// The name of the record's contig.
    pub fn chrom(&self, registry: &HeaderRegistry) -> (r: Result<String, Error>)
        ensures
            match self@.chrom(registry@) {
                Ok(name) => r matches Ok(s) && s@ == name,
                Err(e) => r matches Err(x) && x == e,
            },
    {
        registry.resolve_contig(self.contig)
    }

    /// The 0-based position of the first base.
    pub fn pos(&self) -> (p: i64)
        ensures
            p == self@.start,
    {
        self.start
    }

    /// The 0-based position of the first base; the same as `pos`.
    pub fn start(&self) -> (p: i64)
        ensures
            p == self@.start,
    {
        self.start
    }

    /// The end of the variant, exclusive, as the record was decoded with it.
    pub fn end(&self) -> (p: i64)
        ensures
            p == self@.end,
    {
        self.end
    }

    /// The identifier of the record, `.` where it has none.
    pub fn id(&self) -> (s: String)
        ensures
            s@ == self@.id,
    {
        self.id.clone()
    }

    /// Replaces the identifier of the record.
    pub fn set_id(&mut self, id: &str)
        ensures
            final(self)@ == (RecordView { id: id@, ..old(self)@ }),
    {
        self.id = String::from_str(id);
    }

    /// The reference allele.
    pub fn ref_allele(&self) -> (s: String)
        requires
            self.wf(),
        ensures
            s@ == self@.ref_allele(),
    {
        assert(views(self.alleles@).len() == self.alleles.len());
        self.alleles[0].clone()
    }

    /// The alternate alleles, in order.
    pub fn alt_alleles(&self) -> (r: Vec<String>)
        requires
            self.wf(),
        ensures
            views(r@) == self@.alt_alleles(),
    {
        let mut r: Vec<String> = Vec::new();
        let mut i: usize = 1;
        assert(views(self.alleles@).len() == self.alleles.len());
        while i < self.alleles.len()
            invariant
                1 <= i <= self.alleles.len(),
                r.len() == i - 1,
                forall|j: int| 0 <= j < r.len() ==> r@[j]@ == self.alleles@[j + 1]@,
            decreases self.alleles.len() - i,
        {
            r.push(self.alleles[i].clone());
            i = i + 1;
        }
        assert(views(r@) =~= self@.alt_alleles());
        r
    }

    /// The bit pattern of the quality score; `None` where it is missing.
    pub fn qual(&self) -> (q: Option<u32>)
        ensures
            q == self@.qual,
    {
        self.qual
    }

    /// Replaces the quality score. `None` stores "missing", which reads back
    /// as `None`.
    pub fn set_qual(&mut self, qual: Option<u32>)
        ensures
            final(self)@ == (RecordView { qual, ..old(self)@ }),
    {
        self.qual = qual;
    }

    /// The numeric ids of the active filters, in order.
    pub fn filter_ids(&self) -> (r: Vec<usize>)
        ensures
            r@ == self@.filters,
    {
        self.filters.clone()
    }

    /// The names of the active filters, in order.
    pub fn filter(&self, registry: &HeaderRegistry) -> (r: Result<Vec<String>, Error>)
        ensures
            match self@.filter_names(registry@) {
                Ok(names) => r matches Ok(v) && views(v@) == names,
                Err(e) => r matches Err(x) && x == e,
            },
    {
        let mut names: Vec<String> = Vec::new();
        let mut i: usize = 0;
        while i < self.filters.len()
            invariant
                0 <= i <= self.filters.len(),
                names.len() == i,
                forall|j: int| 0 <= j < i ==> #[trigger] self.filters@[j] < registry@.filters.len(),
                forall|j: int|
                    0 <= j < i ==> names@[j]@ == registry@.filters[self.filters@[j] as int].id,
            decreases self.filters.len() - i,
        {
            match registry.resolve_filter(self.filters[i]) {
                Ok(name) => {
                    names.push(name);
                },
                Err(_) => {
                    assert(!(self@.filters[i as int] < registry@.filters.len()));
                    return Err(Error::NotFound(Namespace::Filter));
                },
            }
            i = i + 1;
        }
        assert(views(names@) =~= self@.filter_names(registry@)->Ok_0);
        Ok(names)
    }

    /// Replaces the active filters by those named, in the order given; a name
    /// given twice counts once. Every name must be declared as a filter:
    /// otherwise the record is left as it was.
    pub fn set_filter(&mut self, registry: &HeaderRegistry, names: &Vec<String>) -> (r: Result<
        (),
        Error,
    >)
        ensures
            match old(self)@.set_filter(registry@, views(names@)) {
                Ok(after) => r is Ok && final(self)@ == after,
                Err(e) => r == Err::<(), Error>(e) && final(self)@ == old(self)@,
            },
            old(self).wf() ==> final(self).wf(),
            old(self)@.valid_for(registry@) ==> final(self)@.valid_for(registry@),
    {
        let ghost wanted = views(names@);
        let mut ids: Vec<usize> = Vec::new();
        let mut i: usize = 0;
        while i < names.len()
            invariant
                0 <= i <= names.len(),
                wanted == views(names@),
                ids.len() == i,
                forall|j: int|
                    0 <= j < i ==> registry@.filter_index(#[trigger] wanted[j]) == Some(
                        ids@[j] as int,
                    ),
            decreases names.len() - i,
        {
            assert(wanted[i as int] == names@[i as int]@);
            match registry.name_to_filter(names[i].as_str()) {
                Ok(id) => {
                    ids.push(id);
                },
                Err(_) => {
                    assert(registry@.filter_index(wanted[i as int]) is None);
                    return Err(Error::NotFound(Namespace::Filter));
                },
            }
            i = i + 1;
        }
        proof {
            assert(ids@ =~= resolve_filters(registry@, wanted)->0);
            registry.lemma_ids_fit();
            lemma_set_filter_keeps_valid(self@, registry@, wanted);
        }
        self.filters = dedup_ids(&ids);
        Ok(())
    }

    /// Whether `tag` is declared as an INFO field. This says nothing about
    /// whether the record holds a value for it, and it never fails.
    pub fn has_info(&self, registry: &HeaderRegistry, tag: &str) -> (r: bool)
        ensures
            r == registry@.has_info(tag@),
    {
        registry.has_info(tag)
    }

    /// The values of the INFO field `tag`; the empty list of the declared
    /// type where the record holds none.
    pub fn info(&self, registry: &HeaderRegistry, tag: &str) -> (r: Result<InfoValue, Error>)
        ensures
            match self@.info_value(registry@, tag@) {
                Ok(v) => r matches Ok(x) && x@ == v,
                Err(e) => r matches Err(x) && x == e,
            },
    {
        let key = match registry.name_to_info(tag) {
            Ok(key) => key,
            Err(e) => {
                return Err(e);
            },
        };
        let declared = match registry.info_type_at(key) {
            Ok(ty) => ty,
            Err(e) => {
                return Err(e);
            },
        };
        if declared == FieldType::Flag {
            return Err(Error::UnsupportedOperation);
        }
        match self.info.get(key) {
            Some(v) => Ok(v.clone()),
            None => Ok(InfoValue::empty_of(declared)),
        }
    }

    /// Replaces the values of the INFO field `tag`; an empty list clears the
    /// field. A failure leaves the record as it was.
    pub fn set_info(&mut self, registry: &HeaderRegistry, tag: &str, value: InfoValue) -> (r:
        Result<(), Error>)
        ensures
            match old(self)@.set_info(registry@, tag@, value@) {
                Ok(after) => r is Ok && final(self)@ == after,
                Err(e) => r == Err::<(), Error>(e) && final(self)@ == old(self)@,
            },
            old(self).wf() ==> final(self).wf(),
            old(self)@.valid_for(registry@) ==> final(self)@.valid_for(registry@),
    {
        let key = match registry.name_to_info(tag) {
            Ok(key) => key,
            Err(e) => {
                return Err(e);
            },
        };
        let declared = match registry.info_type_at(key) {
            Ok(ty) => ty,
            Err(e) => {
                return Err(e);
            },
        };
        if declared == FieldType::Flag {
            return Err(Error::UnsupportedOperation);
        }
        let supplied = value.kind();
        if supplied != declared {
            return Err(Error::TypeMismatch { expected: declared, supplied });
        }
        proof {
            registry.lemma_ids_fit();
            lemma_set_info_keeps_valid(self@, registry@, tag@, value@);
        }
        if value.is_empty() {
            self.info.remove(key);
        } else {
            self.info.put(key, value);
        }
        Ok(())
    }

    /// Whether the flag `tag` is set on the record.
    pub fn flag(&self, registry: &HeaderRegistry, tag: &str) -> (r: Result<bool, Error>)
        ensures
            r == self@.flag(registry@, tag@),
    {
        let key = match registry.name_to_info(tag) {
            Ok(key) => key,
            Err(e) => {
                return Err(e);
            },
        };
        let declared = match registry.info_type_at(key) {
            Ok(ty) => ty,
            Err(e) => {
                return Err(e);
            },
        };
        if declared != FieldType::Flag {
            return Err(Error::UnsupportedOperation);
        }
        Ok(self.info.get(key).is_some())
    }

    /// Sets or clears the flag `tag`. A failure leaves the record as it was.
    pub fn set_flag(&mut self, registry: &HeaderRegistry, tag: &str, present: bool) -> (r: Result<
        (),
        Error,
    >)
        ensures
            match old(self)@.set_flag(registry@, tag@, present) {
                Ok(after) => r is Ok && final(self)@ == after,
                Err(e) => r == Err::<(), Error>(e) && final(self)@ == old(self)@,
            },
            old(self).wf() ==> final(self).wf(),
            old(self)@.valid_for(registry@) ==> final(self)@.valid_for(registry@),
    {
        let key = match registry.name_to_info(tag) {
            Ok(key) => key,
            Err(e) => {
                return Err(e);
            },
        };
        let declared = match registry.info_type_at(key) {
            Ok(ty) => ty,
            Err(e) => {
                return Err(e);
            },
        };
        if declared != FieldType::Flag {
            return Err(Error::UnsupportedOperation);
        }
        proof {
            registry.lemma_ids_fit();
            lemma_set_flag_keeps_valid(self@, registry@, tag@, present);
        }
        if present {
            self.info.put(key, InfoValue::Flag);
        } else {
            self.info.remove(key);
        }
        Ok(())
    }
}

} // verus!
