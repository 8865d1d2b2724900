//! What holds of registries and records, whatever their contents.

use vstd::prelude::*;

use crate::error::{Error, Namespace};
use crate::idset::{dedup, lemma_dedup, lemma_dedup_unchanged};
use crate::model;
use crate::model::{decoded_info, put_info, resolve_filters, RecordView};
use crate::names::{lemma_position, lemma_position_push};
use crate::raw::{RawInfoView, RawRecordView, RawValueView};
use crate::registry::{lemma_push_no_duplicates, RegistryView};
use crate::schema::{ids, FieldSchemaView, FieldType};
use crate::value::{lemma_floats_round_trip, lemma_integers_round_trip, InfoValueView};

verus! {

/// Values of the declared type that are set for a declared field are the
/// values read back for it.
pub proof fn lemma_set_info_round_trip(
    r: RecordView,
    reg: RegistryView,
    tag: Seq<char>,
    value: InfoValueView,
)
    requires
        reg.info_index(tag) matches Some(i) && reg.info[i].ty != FieldType::Flag && value.kind()
            == reg.info[i].ty,
    ensures
        r.set_info(reg, tag, value) matches Ok(after) && after.info_value(reg, tag) == Ok::<
            InfoValueView,
            Error,
        >(value),
{
    let i = reg.info_index(tag)->0;
    if value.is_empty() {
        match value {
            InfoValueView::Integer(v) => {
                assert(v =~= Seq::empty());
            },
            InfoValueView::Float(v) => {
                assert(v =~= Seq::empty());
            },
            InfoValueView::String(v) => {
                assert(v =~= Seq::empty());
            },
            InfoValueView::Flag => {},
        }
    }
}

/// Setting a field replaces what was held for it: what is read back does not
/// depend on what the record held before.
pub proof fn lemma_set_info_replaces(
    r: RecordView,
    reg: RegistryView,
    tag: Seq<char>,
    first: InfoValueView,
    second: InfoValueView,
)
    requires
        r.set_info(reg, tag, first) is Ok,
        r.set_info(reg, tag, second) is Ok,
    ensures
        r.set_info(reg, tag, first)->Ok_0.set_info(reg, tag, second) == r.set_info(
            reg,
            tag,
            second,
        ),
{
    let i = reg.info_index(tag)->0 as usize;
    assert(put_info(put_info(r.info, i, first), i, second) =~= put_info(r.info, i, second));
}

/// Values come back unchanged from their raw form, and the raw form is of
/// the same type, provided that no value that is present is one of the
/// format's reserved values.
pub proof fn lemma_raw_value_round_trip(value: InfoValueView)
    requires
        value.canonical(),
    ensures
        RawValueView::encode(value).kind() == value.kind(),
        RawValueView::encode(value).decode() == value,
{
    match value {
        InfoValueView::Integer(v) => {
            lemma_integers_round_trip(v);
        },
        InfoValueView::Float(v) => {
            lemma_floats_round_trip(v);
        },
        _ => {},
    }
}

/// A field that is declared, but for which the record holds nothing, is
/// present in the registry and reads as the empty list of its type.
pub proof fn lemma_declared_but_absent(r: RecordView, reg: RegistryView, tag: Seq<char>)
    requires
        reg.info_index(tag) matches Some(i) && reg.info[i].ty != FieldType::Flag
            && !r.info.contains_key(i as usize),
    ensures
        reg.has_info(tag),
        r.info_value(reg, tag) matches Ok(v) && v.is_empty() && v.kind()
            == reg.info[reg.info_index(tag)->0].ty,
{
}

/// A decoded record holds nothing for a field that the raw record does not
/// name.
pub proof fn lemma_decoded_info_absent(entries: Seq<RawInfoView>, key: usize)
    requires
        forall|i: int| 0 <= i < entries.len() ==> (#[trigger] entries[i]).key != key,
    ensures
        !decoded_info(entries).contains_key(key),
    decreases entries.len(),
{
    if entries.len() > 0 {
        let front = entries.drop_last();
        assert forall|i: int| 0 <= i < front.len() implies (#[trigger] front[i]).key != key by {
            assert(front[i] == entries[i]);
        }
        lemma_decoded_info_absent(front, key);
        assert(entries.last() == entries[entries.len() - 1]);
    }
}

/// A freshly decoded record whose raw form names no value for a declared
/// field reads that field as the empty list of its type, and the field is
/// reported as declared.
pub proof fn lemma_decoded_absent_reads_empty(
    raw: RawRecordView,
    reg: RegistryView,
    tag: Seq<char>,
)
    requires
        reg.fits(),
        model::decode(raw, reg) is Some,
        reg.info_index(tag) matches Some(i) && reg.info[i].ty != FieldType::Flag && forall|
            j: int,
        |
            0 <= j < raw.info.len() ==> (#[trigger] raw.info[j]).key != i,
    ensures
        reg.has_info(tag),
        model::decode(raw, reg)->0.info_value(reg, tag) == Ok::<InfoValueView, Error>(
            InfoValueView::empty_of(reg.info[reg.info_index(tag)->0].ty),
        ),
{
    let i = reg.info_index(tag)->0;
    lemma_position(ids(reg.info), tag);
    lemma_decoded_info_absent(raw.info, i as usize);
}

/// Reading or setting a field that was never declared fails as not found,
/// whatever the record holds and whatever values are handed in; asking
/// whether it is declared answers no.
pub proof fn lemma_undeclared_access(
    r: RecordView,
    reg: RegistryView,
    tag: Seq<char>,
    value: InfoValueView,
)
    requires
        reg.info_index(tag) is None,
    ensures
        !reg.has_info(tag),
        r.info_value(reg, tag) == Err::<InfoValueView, Error>(Error::NotFound(Namespace::Info)),
        r.set_info(reg, tag, value) == Err::<RecordView, Error>(
            Error::NotFound(Namespace::Info),
        ),
{
}

/// Values of another kind than the declared type are refused, with both
/// kinds named.
pub proof fn lemma_type_mismatch(
    r: RecordView,
    reg: RegistryView,
    tag: Seq<char>,
    value: InfoValueView,
)
    requires
        reg.info_index(tag) matches Some(i) && reg.info[i].ty != FieldType::Flag && value.kind()
            != reg.info[i].ty,
    ensures
        r.set_info(reg, tag, value) == Err::<RecordView, Error>(
            Error::TypeMismatch {
                expected: reg.info[reg.info_index(tag)->0].ty,
                supplied: value.kind(),
            },
        ),
{
}

/// The numeric ids that names resolve to are declared, and distinct for
/// distinct names.
pub proof fn lemma_resolve_filters(reg: RegistryView, names: Seq<Seq<char>>)
    requires
        reg.fits(),
        resolve_filters(reg, names) is Some,
    ensures
        resolve_filters(reg, names)->0.len() == names.len(),
        forall|i: int|
            0 <= i < names.len() ==> (#[trigger] resolve_filters(reg, names)->0[i])
                < reg.filters.len() && reg.filters[resolve_filters(reg, names)->0[i] as int].id
                == names[i],
        names.no_duplicates() ==> resolve_filters(reg, names)->0.no_duplicates(),
{
    let found = resolve_filters(reg, names)->0;
    assert forall|i: int| 0 <= i < names.len() implies (#[trigger] found[i]) < reg.filters.len()
        && reg.filters[found[i] as int].id == names[i] by {
        lemma_position(ids(reg.filters), names[i]);
        assert(reg.filter_index(names[i]) is Some);
    }
    if names.no_duplicates() {
        assert forall|i: int, j: int| 0 <= i < found.len() && 0 <= j < found.len() && i != j implies found[i] != found[j] by {
            assert(reg.filters[found[i] as int].id == names[i]);
            assert(reg.filters[found[j] as int].id == names[j]);
        }
    }
}

/// Setting filters replaces them: the filters afterwards are those named, in
/// the order given, whatever was active before.
pub proof fn lemma_set_filter_replaces(r: RecordView, reg: RegistryView, names: Seq<Seq<char>>)
    requires
        reg.fits(),
        names.no_duplicates(),
        forall|i: int| 0 <= i < names.len() ==> reg.filter_index(#[trigger] names[i]) is Some,
    ensures
        r.set_filter(reg, names) matches Ok(after) && after.filter_names(reg) == Ok::<
            Seq<Seq<char>>,
            Error,
        >(names),
{
    lemma_resolve_filters(reg, names);
    let found = resolve_filters(reg, names)->0;
    lemma_dedup_unchanged(found);
    let after = r.set_filter(reg, names)->Ok_0;
    assert(after.filters == found);
    assert(after.filter_names(reg)->Ok_0 =~= names);
}

/// Setting filters is all or nothing: one undeclared name among those given
/// makes the call fail as not found.
pub proof fn lemma_set_filter_undeclared(
    r: RecordView,
    reg: RegistryView,
    names: Seq<Seq<char>>,
    i: int,
)
    requires
        0 <= i < names.len(),
        reg.filter_index(names[i]) is None,
    ensures
        r.set_filter(reg, names) == Err::<RecordView, Error>(Error::NotFound(Namespace::Filter)),
{
}

/// Declaring an INFO field keeps a registry well formed.
pub proof fn lemma_add_info_wf(reg: RegistryView, schema: FieldSchemaView)
    requires
        reg.wf(),
        reg.add_info(schema) is Ok,
    ensures
        reg.add_info(schema)->Ok_0.wf(),
{
    if reg.info_index(schema.id) is None {
        lemma_push_no_duplicates(ids(reg.info), schema.id);
        assert(ids(reg.info.push(schema)) =~= ids(reg.info).push(schema.id));
    }
}

/// Declaring the same INFO field a second time succeeds and changes nothing:
/// the id is declared once.
pub proof fn lemma_add_info_idempotent(reg: RegistryView, schema: FieldSchemaView)
    requires
        reg.wf(),
        reg.add_info(schema) is Ok,
    ensures
        reg.add_info(schema) matches Ok(once) && once.add_info(schema) == Ok::<
            RegistryView,
            Error,
        >(once) && once.info_index(schema.id) is Some && ids(once.info).no_duplicates(),
{
    lemma_add_info_wf(reg, schema);
    let once = reg.add_info(schema)->Ok_0;
    lemma_position_push(ids(reg.info), schema.id, schema.id);
    match reg.info_index(schema.id) {
        Some(i) => {},
        None => {
            assert(ids(reg.info.push(schema)) =~= ids(reg.info).push(schema.id));
            assert(once.info_index(schema.id) == Some(reg.info.len() as int));
        },
    }
}

/// Declaring an id again with another type or another cardinality is a
/// conflict.
pub proof fn lemma_add_info_conflict(reg: RegistryView, schema: FieldSchemaView)
    requires
        reg.info_index(schema.id) matches Some(i) && (reg.info[i].ty != schema.ty
            || reg.info[i].number != schema.number),
    ensures
        reg.add_info(schema) == Err::<RegistryView, Error>(Error::SchemaConflict),
{
}

/// A new INFO field is declared by one change: the generation goes up by
/// one, the field gets the next numeric id, and every other declaration
/// stays where it was.
pub proof fn lemma_add_info_appends(reg: RegistryView, schema: FieldSchemaView, tag: Seq<char>)
    requires
        reg.info_index(schema.id) is None,
    ensures
        reg.add_info(schema) matches Ok(after) && after.generation == reg.generation + 1
            && after.info_index(schema.id) == Some(reg.info.len() as int)
            && after.info[reg.info.len() as int] == schema && (reg.info_index(tag) matches Some(i)
            ==> after.info_index(tag) == Some(i) && after.info[i] == reg.info[i]),
{
    let after = reg.add_info(schema)->Ok_0;
    assert(ids(reg.info.push(schema)) =~= ids(reg.info).push(schema.id));
    lemma_position_push(ids(reg.info), schema.id, schema.id);
    lemma_position_push(ids(reg.info), schema.id, tag);
    lemma_position(ids(reg.info), tag);
}

/// Records stay valid when an INFO field is declared, and read as before:
/// they hold nothing for the new field.
pub proof fn lemma_add_info_keeps_records(
    r: RecordView,
    reg: RegistryView,
    schema: FieldSchemaView,
    tag: Seq<char>,
)
    requires
        reg.fits(),
        r.valid_for(reg),
        reg.add_info(schema) is Ok,
    ensures
        r.valid_for(reg.add_info(schema)->Ok_0),
        reg.has_info(tag) ==> reg.add_info(schema)->Ok_0.has_info(tag) && reg.add_info(
            schema,
        )->Ok_0.info_index(tag) == reg.info_index(tag) && r.info_value(
            reg.add_info(schema)->Ok_0,
            tag,
        ) == r.info_value(reg, tag),
        reg.info_index(schema.id) is None ==> !r.info.contains_key(reg.info.len() as usize),
{
    let after = reg.add_info(schema)->Ok_0;
    if reg.info_index(schema.id) is None {
        assert(ids(reg.info.push(schema)) =~= ids(reg.info).push(schema.id));
        lemma_position_push(ids(reg.info), schema.id, tag);
        lemma_position(ids(reg.info), tag);
        assert forall|k: usize| #[trigger] r.info.contains_key(k) implies k < after.info.len()
            && r.info[k].kind() == after.info[k as int].ty by {
            assert(k < reg.info.len());
        }
    }
}

/// Setting a field keeps a record well formed and valid for its registry.
pub proof fn lemma_set_info_keeps_valid(
    r: RecordView,
    reg: RegistryView,
    tag: Seq<char>,
    value: InfoValueView,
)
    requires
        reg.fits(),
        r.set_info(reg, tag, value) is Ok,
    ensures
        r.wf() ==> r.set_info(reg, tag, value)->Ok_0.wf(),
        r.valid_for(reg) ==> r.set_info(reg, tag, value)->Ok_0.valid_for(reg),
{
    lemma_position(ids(reg.info), tag);
}

/// Setting or clearing a flag keeps a record well formed and valid for its
/// registry.
pub proof fn lemma_set_flag_keeps_valid(
    r: RecordView,
    reg: RegistryView,
    tag: Seq<char>,
    present: bool,
)
    requires
        reg.fits(),
        r.set_flag(reg, tag, present) is Ok,
    ensures
        r.wf() ==> r.set_flag(reg, tag, present)->Ok_0.wf(),
        r.valid_for(reg) ==> r.set_flag(reg, tag, present)->Ok_0.valid_for(reg),
{
    lemma_position(ids(reg.info), tag);
}

/// A flag that has been set reads as set, and one that has been cleared as
/// not set.
pub proof fn lemma_set_flag_round_trip(
    r: RecordView,
    reg: RegistryView,
    tag: Seq<char>,
    present: bool,
)
    requires
        reg.info_index(tag) matches Some(i) && reg.info[i].ty == FieldType::Flag,
    ensures
        r.set_flag(reg, tag, present) matches Ok(after) && after.flag(reg, tag) == Ok::<
            bool,
            Error,
        >(present),
{
}

/// Setting filters keeps a record well formed and valid for its registry.
pub proof fn lemma_set_filter_keeps_valid(r: RecordView, reg: RegistryView, names: Seq<Seq<char>>)
    requires
        reg.fits(),
        r.set_filter(reg, names) is Ok,
    ensures
        r.wf() ==> r.set_filter(reg, names)->Ok_0.wf(),
        r.valid_for(reg) ==> r.set_filter(reg, names)->Ok_0.valid_for(reg),
{
    lemma_resolve_filters(reg, names);
    let found = resolve_filters(reg, names)->0;
    lemma_dedup(found);
    let after = r.set_filter(reg, names)->Ok_0;
    assert forall|i: int| 0 <= i < after.filters.len() implies #[trigger] after.filters[i]
        < reg.filters.len() by {
        assert(dedup(found).contains(after.filters[i]));
        assert(found.contains(after.filters[i]));
        let j = choose|j: int| 0 <= j < found.len() && found[j] == after.filters[i];
        assert(found[j] < reg.filters.len());
    }
}

} // verus!
