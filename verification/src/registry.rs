//! The header registry: contigs, samples and the declared INFO, FILTER and
//! FORMAT fields of one dataset.

use vstd::prelude::*;
use vstd::string::StringExecFns;

use crate::error::{Error, Namespace};
use crate::names::{
    clone_names, find_name, lemma_position, lemma_position_absent, lemma_position_first,
    lemma_position_push, position, views,
};
use crate::render::{
    append_column_line, append_contig_lines, append_filter_lines, append_schema_lines,
    column_line, contig_lines, filter_lines, schema_lines,
};
use crate::schema::{ids, schema_views, Cardinality, FieldSchema, FieldSchemaView, FieldType};

verus! {

/// The entry that every registry declares first in its FILTER namespace.
pub open spec fn pass_filter() -> FieldSchemaView {
    FieldSchemaView {
        id: "PASS"@,
        number: Cardinality::Fixed(0),
        ty: FieldType::Flag,
        description: "All filters passed"@,
    }
}

/// A registry as a mathematical value. The index of a name in its list is the
/// numeric id by which records refer to it.
pub struct RegistryView {
    pub contigs: Seq<Seq<char>>,
    pub samples: Seq<Seq<char>>,
    pub info: Seq<FieldSchemaView>,
    pub filters: Seq<FieldSchemaView>,
    pub format: Seq<FieldSchemaView>,
    /// How many times the registry has been changed since it was made.
    pub generation: nat,
}

impl RegistryView {
    /// A registry with nothing declared but the `PASS` filter.
    pub open spec fn empty() -> RegistryView {
        RegistryView {
            contigs: Seq::empty(),
            samples: Seq::empty(),
            info: Seq::empty(),
            filters: seq![pass_filter()],
            format: Seq::empty(),
            generation: 0,
        }
    }

    /// No name is declared twice in its namespace, and `PASS` is filter 0.
    pub open spec fn wf(self) -> bool {
        &&& self.contigs.no_duplicates()
        &&& self.samples.no_duplicates()
        &&& ids(self.info).no_duplicates()
        &&& ids(self.filters).no_duplicates()
        &&& ids(self.format).no_duplicates()
        &&& self.filters.len() > 0
        &&& self.filters[0].id == "PASS"@
    }

    /// Whether every numeric id of the registry fits in a machine word, as it
    /// does for every registry held in memory.
    pub open spec fn fits(self) -> bool {
        &&& self.contigs.len() <= usize::MAX
        &&& self.samples.len() <= usize::MAX
        &&& self.info.len() <= usize::MAX
        &&& self.filters.len() <= usize::MAX
        &&& self.format.len() <= usize::MAX
    }

    /// The numeric id of the contig `name`, if it is declared.
    pub open spec fn contig_index(self, name: Seq<char>) -> Option<int> {
        position(self.contigs, name)
    }

    /// The numeric id of the sample `name`, if it is declared.
    pub open spec fn sample_index(self, name: Seq<char>) -> Option<int> {
        position(self.samples, name)
    }

    /// The numeric id of the INFO field `id`, if it is declared.
    pub open spec fn info_index(self, id: Seq<char>) -> Option<int> {
        position(ids(self.info), id)
    }

    /// The numeric id of the filter `id`, if it is declared.
    pub open spec fn filter_index(self, id: Seq<char>) -> Option<int> {
        position(ids(self.filters), id)
    }

    /// The numeric id of the FORMAT field `id`, if it is declared.
    pub open spec fn format_index(self, id: Seq<char>) -> Option<int> {
        position(ids(self.format), id)
    }

    /// Whether the INFO field `id` is declared.
    pub open spec fn has_info(self, id: Seq<char>) -> bool {
        self.info_index(id) is Some
    }

    /// The registry after `name` has been declared as a contig: unchanged where
    /// it already was.
    pub open spec fn add_contig(self, name: Seq<char>) -> RegistryView {
        if self.contig_index(name) is Some {
            self
        } else {
            RegistryView {
                contigs: self.contigs.push(name),
                generation: self.generation + 1,
                ..self
            }
        }
    }

    /// The registry after `name` has been declared as a sample: unchanged where
    /// it already was.
    pub open spec fn add_sample(self, name: Seq<char>) -> RegistryView {
        if self.sample_index(name) is Some {
            self
        } else {
            RegistryView {
                samples: self.samples.push(name),
                generation: self.generation + 1,
                ..self
            }
        }
    }

    /// The registry after a filter has been declared: unchanged where the id
    /// already was.
    pub open spec fn add_filter(self, id: Seq<char>, description: Seq<char>) -> RegistryView {
        if self.filter_index(id) is Some {
            self
        } else {
            RegistryView {
                filters: self.filters.push(
                    FieldSchemaView {
                        id,
                        number: Cardinality::Fixed(0),
                        ty: FieldType::Flag,
                        description,
                    },
                ),
                generation: self.generation + 1,
                ..self
            }
        }
    }

    /// What declaring an INFO field gives. An id that is already declared is
    /// refused where type or cardinality differ, and changes nothing where they
    /// agree; a new id is appended.
    pub open spec fn add_info(self, schema: FieldSchemaView) -> Result<RegistryView, Error> {
        match self.info_index(schema.id) {
            Some(i) => if self.info[i].compatible(schema) {
                Ok(self)
            } else {
                Err(Error::SchemaConflict)
            },
            None => Ok(
                RegistryView {
                    info: self.info.push(schema),
                    generation: self.generation + 1,
                    ..self
                },
            ),
        }
    }

    /// What declaring a FORMAT field gives, by the rules of `add_info`.
    pub open spec fn add_format(self, schema: FieldSchemaView) -> Result<RegistryView, Error> {
        match self.format_index(schema.id) {
            Some(i) => if self.format[i].compatible(schema) {
                Ok(self)
            } else {
                Err(Error::SchemaConflict)
            },
            None => Ok(
                RegistryView {
                    format: self.format.push(schema),
                    generation: self.generation + 1,
                    ..self
                },
            ),
        }
    }

    /// The header as text: the format line, then the FILTER, INFO and FORMAT
    /// declarations and the contigs, each list in the order of its numeric
    /// ids, then the line that names the columns.
    pub open spec fn render(self) -> Seq<char> {
        "##fileformat=VCFv4.2\n"@ + filter_lines(self.filters) + schema_lines(self.info, "INFO"@)
            + schema_lines(self.format, "FORMAT"@) + contig_lines(self.contigs) + column_line(
            self.samples,
        )
    }

    /// The number of entries over all five lists.
    pub open spec fn entries(self) -> nat {
        self.contigs.len() + self.samples.len() + self.info.len() + self.filters.len()
            + self.format.len()
    }
}

/// Appending a name that does not occur keeps a list free of duplicates.
pub proof fn lemma_push_no_duplicates(names: Seq<Seq<char>>, name: Seq<char>)
    requires
        names.no_duplicates(),
        position(names, name) is None,
    ensures
        names.push(name).no_duplicates(),
{
    lemma_position(names, name);
}

/// A registry's lists are held in memory, so their lengths add up to far less
/// than the change counter can hold.
proof fn lemma_entries_bounded(r: &HeaderRegistry)
    ensures
        r@.entries() <= 5 * usize::MAX,
{
    assert(r@.contigs.len() == r.contigs.len());
    assert(r@.samples.len() == r.samples.len());
    assert(r@.info.len() == r.info.len());
    assert(r@.filters.len() == r.filters.len());
    assert(r@.format.len() == r.format.len());
}

/// Looks `id` up in a list of declared fields.
pub fn find_schema(entries: &Vec<FieldSchema>, id: &str) -> (r: Option<usize>)
    ensures
        match r {
            Some(i) => i < entries.len() && position(ids(schema_views(entries@)), id@) == Some(
                i as int,
            ),
            None => position(ids(schema_views(entries@)), id@) is None,
        },
{
    let wanted = String::from_str(id);
    let ghost all = ids(schema_views(entries@));
    let mut i: usize = 0;
    while i < entries.len()
        invariant
            0 <= i <= entries.len(),
            wanted@ == id@,
            all == ids(schema_views(entries@)),
            forall|j: int| 0 <= j < i ==> all[j] != id@,
        decreases entries.len() - i,
    {
        if entries[i].id == wanted {
            proof {
                lemma_position_first(all, id@, i as int);
            }
            return Some(i);
        }
        i = i + 1;
    }
    proof {
        lemma_position_absent(all, id@);
    }
    None
}

/// The header of one dataset. Records refer to its contigs, filters and INFO
/// fields by their index, so entries are only ever appended.
pub struct HeaderRegistry {
    contigs: Vec<String>,
    samples: Vec<String>,
    info: Vec<FieldSchema>,
    filters: Vec<FieldSchema>,
    format: Vec<FieldSchema>,
    generation: u128,
}

impl View for HeaderRegistry {
    type V = RegistryView;

    closed spec fn view(&self) -> RegistryView {
        RegistryView {
            contigs: views(self.contigs@),
            samples: views(self.samples@),
            info: schema_views(self.info@),
            filters: schema_views(self.filters@),
            format: schema_views(self.format@),
            generation: self.generation as nat,
        }
    }
}

impl HeaderRegistry {
    /// What every registry made by this module satisfies: its view is well
    /// formed, and it has been changed fewer times than it has entries.
    pub open spec fn wf(&self) -> bool {
        &&& self@.wf()
        &&& self@.generation < self@.entries()
    }

    /// Every list of a registry is held in memory, so a numeric id fits in a
    /// machine word.
    pub proof fn lemma_ids_fit(&self)
        ensures
            self@.fits(),
    {
        lemma_entries_bounded(self);
        assert(self@.contigs.len() == self.contigs.len());
        assert(self@.samples.len() == self.samples.len());
        assert(self@.info.len() == self.info.len());
        assert(self@.filters.len() == self.filters.len());
        assert(self@.format.len() == self.format.len());
    }

    /// A registry that declares only the `PASS` filter.
    pub fn new() -> (r: HeaderRegistry)
        ensures
            r@ == RegistryView::empty(),
            r.wf(),
    {
        let mut filters: Vec<FieldSchema> = Vec::new();
        filters.push(
            FieldSchema::new("PASS", Cardinality::Fixed(0), FieldType::Flag, "All filters passed"),
        );
        let r = HeaderRegistry {
            contigs: Vec::new(),
            samples: Vec::new(),
            info: Vec::new(),
            filters,
            format: Vec::new(),
            generation: 0,
        };
        proof {
            assert(r@.contigs =~= Seq::empty());
            assert(r@.samples =~= Seq::empty());
            assert(r@.info =~= Seq::empty());
            assert(r@.format =~= Seq::empty());
            assert(r@.filters =~= seq![pass_filter()]);
            assert(ids(r@.filters) =~= seq!["PASS"@]);
        }
        r
    }

    /// Declares a contig and returns its numeric id; a name that is already
    /// declared keeps its id and changes nothing.
    pub fn add_contig(&mut self, name: &str) -> (id: usize)
        requires
            old(self).wf(),
        ensures
            final(self).wf(),
            final(self)@ == old(self)@.add_contig(name@),
            final(self)@.contig_index(name@) == Some(id as int),
    {
        proof {
            lemma_position_push(self@.contigs, name@, name@);
        }
        match find_name(&self.contigs, name) {
            Some(i) => i,
            None => {
                let id = self.contigs.len();
                let owned = String::from_str(name);
                proof {
                    lemma_entries_bounded(self);
                    lemma_push_no_duplicates(self@.contigs, name@);
                    assert(views(self.contigs@.push(owned)) =~= views(self.contigs@).push(name@));
                }
                self.contigs.push(owned);
                self.generation = self.generation + 1;
                id
            },
        }
    }

    /// Declares a sample and returns its numeric id; a name that is already
    /// declared keeps its id and changes nothing.
    pub fn add_sample(&mut self, name: &str) -> (id: usize)
        requires
            old(self).wf(),
        ensures
            final(self).wf(),
            final(self)@ == old(self)@.add_sample(name@),
            final(self)@.sample_index(name@) == Some(id as int),
    {
        proof {
            lemma_position_push(self@.samples, name@, name@);
        }
        match find_name(&self.samples, name) {
            Some(i) => i,
            None => {
                let id = self.samples.len();
                let owned = String::from_str(name);
                proof {
                    lemma_entries_bounded(self);
                    lemma_push_no_duplicates(self@.samples, name@);
                    assert(views(self.samples@.push(owned)) =~= views(self.samples@).push(name@));
                }
                self.samples.push(owned);
                self.generation = self.generation + 1;
                id
            },
        }
    }

    /// Declares a filter and returns its numeric id; an id that is already
    /// declared keeps its entry and changes nothing.
    pub fn add_filter(&mut self, id: &str, description: &str) -> (index: usize)
        requires
            old(self).wf(),
        ensures
            final(self).wf(),
            final(self)@ == old(self)@.add_filter(id@, description@),
            final(self)@.filter_index(id@) == Some(index as int),
    {
        proof {
            lemma_position_push(ids(self@.filters), id@, id@);
        }
        match find_schema(&self.filters, id) {
            Some(i) => i,
            None => {
                let index = self.filters.len();
                let entry = FieldSchema::new(id, Cardinality::Fixed(0), FieldType::Flag, description);
                proof {
                    lemma_entries_bounded(self);
                    lemma_push_no_duplicates(ids(self@.filters), id@);
                    assert(schema_views(self.filters@.push(entry)) =~= self@.filters.push(entry@));
                    assert(ids(self@.filters.push(entry@)) =~= ids(self@.filters).push(id@));
                }
                self.filters.push(entry);
                self.generation = self.generation + 1;
                index
            },
        }
    }

    /// Declares an INFO field. An id that is already declared with another
    /// type or cardinality is refused; one declared with the same is left as it
    /// is. A new id is appended and can be used by records at once.
    pub fn add_info_schema(&mut self, schema: FieldSchema) -> (r: Result<(), Error>)
        requires
            old(self).wf(),
        ensures
            final(self).wf(),
            match old(self)@.add_info(schema@) {
                Ok(after) => r is Ok && final(self)@ == after,
                Err(e) => r == Err::<(), Error>(e) && final(self)@ == old(self)@,
            },
    {
        match find_schema(&self.info, schema.id.as_str()) {
            Some(i) => {
                let known = &self.info[i];
                if known.number == schema.number && known.ty == schema.ty {
                    Ok(())
                } else {
                    Err(Error::SchemaConflict)
                }
            },
            None => {
                proof {
                    lemma_entries_bounded(self);
                    lemma_push_no_duplicates(ids(self@.info), schema@.id);
                    assert(schema_views(self.info@.push(schema)) =~= self@.info.push(schema@));
                    assert(ids(self@.info.push(schema@)) =~= ids(self@.info).push(schema@.id));
                }
                self.info.push(schema);
                self.generation = self.generation + 1;
                Ok(())
            },
        }
    }

    /// Declares a FORMAT field, by the rules of `add_info_schema`.
    pub fn add_format_schema(&mut self, schema: FieldSchema) -> (r: Result<(), Error>)
        requires
            old(self).wf(),
        ensures
            final(self).wf(),
            match old(self)@.add_format(schema@) {
                Ok(after) => r is Ok && final(self)@ == after,
                Err(e) => r == Err::<(), Error>(e) && final(self)@ == old(self)@,
            },
    {
        match find_schema(&self.format, schema.id.as_str()) {
            Some(i) => {
                let known = &self.format[i];
                if known.number == schema.number && known.ty == schema.ty {
                    Ok(())
                } else {
                    Err(Error::SchemaConflict)
                }
            },
            None => {
                proof {
                    lemma_entries_bounded(self);
                    lemma_push_no_duplicates(ids(self@.format), schema@.id);
                    assert(schema_views(self.format@.push(schema)) =~= self@.format.push(schema@));
                    assert(ids(self@.format.push(schema@)) =~= ids(self@.format).push(schema@.id));
                }
                self.format.push(schema);
                self.generation = self.generation + 1;
                Ok(())
            },
        }
    }

    /// The name of the contig with the numeric id `id`.
    pub fn resolve_contig(&self, id: usize) -> (r: Result<String, Error>)
        ensures
            match r {
                Ok(name) => id < self@.contigs.len() && name@ == self@.contigs[id as int],
                Err(e) => id >= self@.contigs.len() && e == Error::NotFound(Namespace::Contig),
            },
    {
        if id < self.contigs.len() {
            Ok(self.contigs[id].clone())
        } else {
            Err(Error::NotFound(Namespace::Contig))
        }
    }

    /// The numeric id of the contig named `name`.
    pub fn name_to_contig(&self, name: &str) -> (r: Result<usize, Error>)
        ensures
            match r {
                Ok(i) => self@.contig_index(name@) == Some(i as int) && i < self@.contigs.len(),
                Err(e) => self@.contig_index(name@) is None && e == Error::NotFound(Namespace::Contig),
            },
    {
        match find_name(&self.contigs, name) {
            Some(i) => Ok(i),
            None => Err(Error::NotFound(Namespace::Contig)),
        }
    }

    /// The name of the sample with the numeric id `id`.
    pub fn resolve_sample(&self, id: usize) -> (r: Result<String, Error>)
        ensures
            match r {
                Ok(name) => id < self@.samples.len() && name@ == self@.samples[id as int],
                Err(e) => id >= self@.samples.len() && e == Error::NotFound(Namespace::Sample),
            },
    {
        if id < self.samples.len() {
            Ok(self.samples[id].clone())
        } else {
            Err(Error::NotFound(Namespace::Sample))
        }
    }

    /// The numeric id of the sample named `name`.
    pub fn name_to_sample(&self, name: &str) -> (r: Result<usize, Error>)
        ensures
            match r {
                Ok(i) => self@.sample_index(name@) == Some(i as int) && i < self@.samples.len(),
                Err(e) => self@.sample_index(name@) is None && e == Error::NotFound(Namespace::Sample),
            },
    {
        match find_name(&self.samples, name) {
            Some(i) => Ok(i),
            None => Err(Error::NotFound(Namespace::Sample)),
        }
    }

    /// The id of the filter with the numeric id `id`.
    pub fn resolve_filter(&self, id: usize) -> (r: Result<String, Error>)
        ensures
            match r {
                Ok(name) => id < self@.filters.len() && name@ == self@.filters[id as int].id,
                Err(e) => id >= self@.filters.len() && e == Error::NotFound(Namespace::Filter),
            },
    {
        if id < self.filters.len() {
            Ok(self.filters[id].id.clone())
        } else {
            Err(Error::NotFound(Namespace::Filter))
        }
    }

    /// The numeric id of the filter `name`.
    pub fn name_to_filter(&self, name: &str) -> (r: Result<usize, Error>)
        ensures
            match r {
                Ok(i) => self@.filter_index(name@) == Some(i as int) && i < self@.filters.len(),
                Err(e) => self@.filter_index(name@) is None && e == Error::NotFound(Namespace::Filter),
            },
    {
        match find_schema(&self.filters, name) {
            Some(i) => Ok(i),
            None => Err(Error::NotFound(Namespace::Filter)),
        }
    }

    /// The numeric id of the INFO field `id`.
    pub fn name_to_info(&self, id: &str) -> (r: Result<usize, Error>)
        ensures
            match r {
                Ok(i) => self@.info_index(id@) == Some(i as int) && i < self@.info.len(),
                Err(e) => self@.info_index(id@) is None && e == Error::NotFound(Namespace::Info),
            },
    {
        match find_schema(&self.info, id) {
            Some(i) => Ok(i),
            None => Err(Error::NotFound(Namespace::Info)),
        }
    }

    /// The declared type of the INFO field with the numeric id `key`.
    pub fn info_type_at(&self, key: usize) -> (r: Result<FieldType, Error>)
        ensures
            match r {
                Ok(ty) => key < self@.info.len() && ty == self@.info[key as int].ty,
                Err(e) => key >= self@.info.len() && e == Error::NotFound(Namespace::Info),
            },
    {
        if key < self.info.len() {
            Ok(self.info[key].ty)
        } else {
            Err(Error::NotFound(Namespace::Info))
        }
    }

    /// The declaration of the INFO field with the numeric id `key`.
    pub fn resolve_info(&self, key: usize) -> (r: Result<FieldSchema, Error>)
        ensures
            match r {
                Ok(schema) => key < self@.info.len() && schema@ == self@.info[key as int],
                Err(e) => key >= self@.info.len() && e == Error::NotFound(Namespace::Info),
            },
    {
        if key < self.info.len() {
            Ok(self.info[key].clone())
        } else {
            Err(Error::NotFound(Namespace::Info))
        }
    }

    /// The declaration of the INFO field `id`.
    pub fn info_schema(&self, id: &str) -> (r: Result<FieldSchema, Error>)
        ensures
            match self@.info_index(id@) {
                Some(i) => r matches Ok(schema) && schema@ == self@.info[i],
                None => r matches Err(e) && e == Error::NotFound(Namespace::Info),
            },
    {
        match find_schema(&self.info, id) {
            Some(i) => Ok(self.info[i].clone()),
            None => Err(Error::NotFound(Namespace::Info)),
        }
    }

    /// The declaration of the FORMAT field `id`.
    pub fn format_schema(&self, id: &str) -> (r: Result<FieldSchema, Error>)
        ensures
            match self@.format_index(id@) {
                Some(i) => r matches Ok(schema) && schema@ == self@.format[i],
                None => r matches Err(e) && e == Error::NotFound(Namespace::Format),
            },
    {
        match find_schema(&self.format, id) {
            Some(i) => Ok(self.format[i].clone()),
            None => Err(Error::NotFound(Namespace::Format)),
        }
    }

    /// Whether the INFO field `id` is declared. Never fails.
    pub fn has_info(&self, id: &str) -> (r: bool)
        ensures
            r == self@.has_info(id@),
    {
        find_schema(&self.info, id).is_some()
    }

    /// The names of the samples, in the order of their numeric ids; empty for
    /// a dataset without per-sample columns.
    pub fn samples(&self) -> (r: Vec<String>)
        ensures
            views(r@) == self@.samples,
    {
        clone_names(&self.samples)
    }

    /// The names of the contigs, in the order of their numeric ids.
    pub fn contigs(&self) -> (r: Vec<String>)
        ensures
            views(r@) == self@.contigs,
    {
        clone_names(&self.contigs)
    }

    /// The header as text. The same registry always gives the same text.
    pub fn render(&self) -> (s: String)
        ensures
            s@ == self@.render(),
    {
        let mut s = String::from_str("##fileformat=VCFv4.2\n");
        append_filter_lines(&mut s, &self.filters);
        append_schema_lines(&mut s, &self.info, "INFO");
        append_schema_lines(&mut s, &self.format, "FORMAT");
        append_contig_lines(&mut s, &self.contigs);
        append_column_line(&mut s, &self.samples);
        s
    }

    /// The number of declared contigs.
    pub fn contig_count(&self) -> (n: usize)
        ensures
            n == self@.contigs.len(),
    {
        self.contigs.len()
    }

    /// The number of declared filters, `PASS` included.
    pub fn filter_count(&self) -> (n: usize)
        ensures
            n == self@.filters.len(),
    {
        self.filters.len()
    }

    /// The number of declared INFO fields.
    pub fn info_count(&self) -> (n: usize)
        ensures
            n == self@.info.len(),
    {
        self.info.len()
    }

    /// The number of changes made to the registry so far.
    pub fn generation(&self) -> (g: u128)
        ensures
            g == self@.generation,
    {
        self.generation
    }
}

} // verus!
