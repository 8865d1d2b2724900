use bcf_reader::error::{Error, Namespace};
use bcf_reader::raw::{RawInfo, RawRecord, RawValue};
use bcf_reader::record::VariantRecord;
use bcf_reader::registry::HeaderRegistry;
use bcf_reader::schema::{Cardinality, FieldSchema, FieldType};
use bcf_reader::value::{InfoValue, FLOAT_MISSING, INT_MISSING, INT_VECTOR_END};

fn registry() -> HeaderRegistry {
    let mut reg = HeaderRegistry::new();
    reg.add_contig("chr1");
    reg.add_filter("q10", "Quality below 10");
    reg.add_filter("s50", "Less than half of the samples have data");
    for schema in [
        FieldSchema::new("DP", Cardinality::Fixed(1), FieldType::Integer, "Total depth"),
        FieldSchema::new("AF", Cardinality::PerAllele, FieldType::Float, "Allele frequency"),
        FieldSchema::new("AA", Cardinality::Fixed(1), FieldType::String, "Ancestral allele"),
        FieldSchema::new("DB", Cardinality::Fixed(0), FieldType::Flag, "dbSNP membership"),
    ] {
        assert_eq!(reg.add_info_schema(schema), Ok(()));
    }
    reg
}

fn raw_record() -> RawRecord {
    RawRecord {
        contig: 0,
        start: 100,
        end: None,
        id: ".".to_string(),
        alleles: vec!["A".to_string(), "T".to_string()],
        qual: 30.0f32.to_bits(),
        filters: vec![0],
        info: vec![RawInfo { key: 0, value: RawValue::Integers(vec![10]) }],
    }
}

fn record(reg: &HeaderRegistry) -> VariantRecord {
    VariantRecord::decode(&raw_record(), reg).unwrap()
}

fn integers(r: Result<InfoValue, Error>) -> Vec<Option<i32>> {
    match r {
        Ok(InfoValue::Integer(v)) => v,
        other => panic!("not a list of integers: {:?}", other),
    }
}

fn floats(r: Result<InfoValue, Error>) -> Vec<Option<u32>> {
    match r {
        Ok(InfoValue::Float(v)) => v,
        other => panic!("not a list of floating-point values: {:?}", other),
    }
}

fn strings(r: Result<InfoValue, Error>) -> Vec<String> {
    match r {
        Ok(InfoValue::String(v)) => v,
        other => panic!("not a list of strings: {:?}", other),
    }
}

fn names(list: &[&str]) -> Vec<String> {
    list.iter().map(|s| s.to_string()).collect()
}

#[test]
fn end_to_end_scenario() {
    let mut reg = HeaderRegistry::new();
    reg.add_contig("chr1");
    let dp = FieldSchema::new("DP", Cardinality::Fixed(1), FieldType::Integer, "Total depth");
    assert_eq!(reg.add_info_schema(dp), Ok(()));
    let rec = VariantRecord::decode(&raw_record(), &reg).unwrap();
    assert_eq!(rec.chrom(&reg), Ok("chr1".to_string()));
    assert_eq!(rec.pos(), 100);
    assert_eq!(rec.start(), 100);
    assert_eq!(rec.end(), 101);
    assert_eq!(rec.ref_allele(), "A");
    assert_eq!(rec.alt_alleles(), vec!["T".to_string()]);
    assert_eq!(rec.qual().map(f32::from_bits), Some(30.0));
    assert_eq!(rec.filter(&reg), Ok(vec!["PASS".to_string()]));
    assert_eq!(integers(rec.info(&reg, "DP")), vec![Some(10)]);
    assert!(rec.has_info(&reg, "DP"));
    assert!(!rec.has_info(&reg, "AF"));
    assert_eq!(rec.generation(), reg.generation());
    assert_eq!(rec.contig_id(), 0);
}

#[test]
fn set_info_round_trips_for_each_type() {
    let reg = registry();
    let mut rec = record(&reg);
    assert_eq!(rec.set_info(&reg, "DP", InfoValue::Integer(vec![Some(42), None, Some(-7)])), Ok(()));
    assert_eq!(integers(rec.info(&reg, "DP")), vec![Some(42), None, Some(-7)]);
    let af = vec![Some(0.25f32.to_bits()), None, Some(0.5f32.to_bits())];
    assert_eq!(rec.set_info(&reg, "AF", InfoValue::Float(af.clone())), Ok(()));
    assert_eq!(floats(rec.info(&reg, "AF")), af);
    assert_eq!(rec.set_info(&reg, "AA", InfoValue::String(names(&["G", "C"]))), Ok(()));
    assert_eq!(strings(rec.info(&reg, "AA")), names(&["G", "C"]));
    assert_eq!(integers(rec.info(&reg, "DP")), vec![Some(42), None, Some(-7)]);
}

#[test]
fn set_info_replaces_prior_value() {
    let reg = registry();
    let mut rec = record(&reg);
    assert_eq!(rec.set_info(&reg, "DP", InfoValue::Integer(vec![Some(1), Some(2)])), Ok(()));
    assert_eq!(rec.set_info(&reg, "DP", InfoValue::Integer(vec![Some(3)])), Ok(()));
    assert_eq!(integers(rec.info(&reg, "DP")), vec![Some(3)]);
}

#[test]
fn set_info_with_empty_list_clears_the_field() {
    let reg = registry();
    let mut rec = record(&reg);
    assert_eq!(rec.set_info(&reg, "DP", InfoValue::Integer(vec![])), Ok(()));
    assert_eq!(integers(rec.info(&reg, "DP")), Vec::<Option<i32>>::new());
    assert!(rec.has_info(&reg, "DP"));
}

#[test]
fn declared_but_absent_reads_as_empty_list() {
    let reg = registry();
    let rec = record(&reg);
    assert!(rec.has_info(&reg, "AF"));
    assert_eq!(floats(rec.info(&reg, "AF")), Vec::<Option<u32>>::new());
    assert!(rec.has_info(&reg, "AA"));
    assert_eq!(strings(rec.info(&reg, "AA")), Vec::<String>::new());
}

#[test]
fn undeclared_access_is_not_found() {
    let reg = registry();
    let mut rec = record(&reg);
    assert_eq!(rec.info(&reg, "NOPE").unwrap_err(), Error::NotFound(Namespace::Info));
    assert_eq!(
        rec.set_info(&reg, "NOPE", InfoValue::Integer(vec![Some(1)])),
        Err(Error::NotFound(Namespace::Info))
    );
    assert!(!rec.has_info(&reg, "NOPE"));
    assert_eq!(rec.flag(&reg, "NOPE"), Err(Error::NotFound(Namespace::Info)));
    assert_eq!(rec.set_flag(&reg, "NOPE", true), Err(Error::NotFound(Namespace::Info)));
    assert_eq!(integers(rec.info(&reg, "DP")), vec![Some(10)]);
}

#[test]
fn type_check_rejects_strings_for_float_field() {
    let reg = registry();
    let mut rec = record(&reg);
    assert_eq!(
        rec.set_info(&reg, "AF", InfoValue::String(names(&["not-a-number"]))),
        Err(Error::TypeMismatch { expected: FieldType::Float, supplied: FieldType::String })
    );
    assert_eq!(floats(rec.info(&reg, "AF")), Vec::<Option<u32>>::new());
    assert_eq!(
        rec.set_info(&reg, "DP", InfoValue::Float(vec![Some(1.5f32.to_bits())])),
        Err(Error::TypeMismatch { expected: FieldType::Integer, supplied: FieldType::Float })
    );
    assert_eq!(
        rec.set_info(&reg, "AA", InfoValue::Flag),
        Err(Error::TypeMismatch { expected: FieldType::String, supplied: FieldType::Flag })
    );
    assert_eq!(integers(rec.info(&reg, "DP")), vec![Some(10)]);
}

#[test]
fn flag_fields_take_no_values() {
    let reg = registry();
    let mut rec = record(&reg);
    assert_eq!(
        rec.set_info(&reg, "DB", InfoValue::Integer(vec![Some(1)])),
        Err(Error::UnsupportedOperation)
    );
    assert_eq!(rec.set_info(&reg, "DB", InfoValue::Flag), Err(Error::UnsupportedOperation));
    assert_eq!(rec.info(&reg, "DB").unwrap_err(), Error::UnsupportedOperation);
    assert_eq!(rec.flag(&reg, "DB"), Ok(false));
    assert_eq!(rec.set_flag(&reg, "DB", true), Ok(()));
    assert_eq!(rec.flag(&reg, "DB"), Ok(true));
    assert_eq!(rec.set_flag(&reg, "DB", false), Ok(()));
    assert_eq!(rec.flag(&reg, "DB"), Ok(false));
    assert_eq!(rec.flag(&reg, "DP"), Err(Error::UnsupportedOperation));
    assert_eq!(rec.set_flag(&reg, "DP", true), Err(Error::UnsupportedOperation));
    assert_eq!(integers(rec.info(&reg, "DP")), vec![Some(10)]);
}

#[test]
fn set_filter_replaces_the_filters() {
    let reg = registry();
    let mut raw = raw_record();
    raw.filters = vec![1];
    let mut rec = VariantRecord::decode(&raw, &reg).unwrap();
    assert_eq!(rec.filter(&reg), Ok(names(&["q10"])));
    assert_eq!(rec.set_filter(&reg, &names(&["PASS"])), Ok(()));
    assert_eq!(rec.filter(&reg), Ok(names(&["PASS"])));
    assert_eq!(rec.filter_ids(), vec![0]);
}

#[test]
fn set_filter_is_all_or_nothing() {
    let reg = registry();
    let mut raw = raw_record();
    raw.filters = vec![1];
    let mut rec = VariantRecord::decode(&raw, &reg).unwrap();
    assert_eq!(
        rec.set_filter(&reg, &names(&["PASS", "UNDECLARED_FILTER"])),
        Err(Error::NotFound(Namespace::Filter))
    );
    assert_eq!(rec.filter(&reg), Ok(names(&["q10"])));
}

#[test]
fn set_filter_keeps_order_and_counts_a_name_once() {
    let reg = registry();
    let mut rec = record(&reg);
    assert_eq!(rec.set_filter(&reg, &names(&["s50", "q10", "s50"])), Ok(()));
    assert_eq!(rec.filter(&reg), Ok(names(&["s50", "q10"])));
    assert_eq!(rec.filter_ids(), vec![2, 1]);
}

#[test]
fn no_filter_is_not_pass() {
    let reg = registry();
    let mut rec = record(&reg);
    assert_eq!(rec.filter(&reg), Ok(names(&["PASS"])));
    assert_eq!(rec.set_filter(&reg, &Vec::new()), Ok(()));
    assert_eq!(rec.filter(&reg), Ok(Vec::<String>::new()));
}

#[test]
fn id_is_replaced_wholesale() {
    let reg = registry();
    let mut rec = record(&reg);
    assert_eq!(rec.id(), ".");
    rec.set_id("rs123;rs456");
    assert_eq!(rec.id(), "rs123;rs456");
    rec.set_id("");
    assert_eq!(rec.id(), "");
}

#[test]
fn missing_quality_round_trips() {
    let reg = registry();
    let mut rec = record(&reg);
    rec.set_qual(None);
    assert_eq!(rec.qual(), None);
    rec.set_qual(Some(0.0f32.to_bits()));
    assert_eq!(rec.qual(), Some(0));
    rec.set_qual(Some(12.5f32.to_bits()));
    assert_eq!(rec.qual().map(f32::from_bits), Some(12.5));
    let mut raw = raw_record();
    raw.qual = FLOAT_MISSING;
    assert_eq!(VariantRecord::decode(&raw, &reg).unwrap().qual(), None);
}

#[test]
fn end_override_is_exposed_as_decoded() {
    let reg = registry();
    let mut raw = raw_record();
    raw.alleles = vec!["ACGT".to_string(), "<DEL>".to_string()];
    assert_eq!(VariantRecord::decode(&raw, &reg).unwrap().end(), 104);
    raw.end = Some(5000);
    let rec = VariantRecord::decode(&raw, &reg).unwrap();
    assert_eq!(rec.end(), 5000);
    assert_eq!(rec.start(), 100);
    assert_eq!(rec.ref_allele(), "ACGT");
    assert_eq!(rec.alt_alleles(), names(&["<DEL>"]));
}

#[test]
fn record_without_alternate_alleles() {
    let reg = registry();
    let mut raw = raw_record();
    raw.alleles = vec!["A".to_string()];
    let rec = VariantRecord::decode(&raw, &reg).unwrap();
    assert_eq!(rec.alt_alleles(), Vec::<String>::new());
}

#[test]
fn decode_reads_reserved_values() {
    let reg = registry();
    let mut raw = raw_record();
    raw.info = vec![
        RawInfo {
            key: 0,
            value: RawValue::Integers(vec![5, INT_MISSING, 7, INT_VECTOR_END, 9]),
        },
        RawInfo { key: 1, value: RawValue::Floats(vec![FLOAT_MISSING, 0.5f32.to_bits()]) },
        RawInfo { key: 2, value: RawValue::Strings(names(&["C"])) },
        RawInfo { key: 3, value: RawValue::Flag },
    ];
    let rec = VariantRecord::decode(&raw, &reg).unwrap();
    assert_eq!(integers(rec.info(&reg, "DP")), vec![Some(5), None, Some(7)]);
    assert_eq!(floats(rec.info(&reg, "AF")), vec![None, Some(0.5f32.to_bits())]);
    assert_eq!(strings(rec.info(&reg, "AA")), names(&["C"]));
    assert_eq!(rec.flag(&reg, "DB"), Ok(true));
}

#[test]
fn decode_sets_fields_in_turn() {
    let reg = registry();
    let mut raw = raw_record();
    raw.info = vec![
        RawInfo { key: 0, value: RawValue::Integers(vec![1]) },
        RawInfo { key: 0, value: RawValue::Integers(vec![2, 3]) },
        RawInfo { key: 2, value: RawValue::Strings(names(&["C"])) },
        RawInfo { key: 2, value: RawValue::Strings(Vec::new()) },
    ];
    raw.filters = vec![2, 1, 2];
    let rec = VariantRecord::decode(&raw, &reg).unwrap();
    assert_eq!(integers(rec.info(&reg, "DP")), vec![Some(2), Some(3)]);
    assert_eq!(strings(rec.info(&reg, "AA")), Vec::<String>::new());
    assert_eq!(rec.filter(&reg), Ok(names(&["s50", "q10"])));
}

#[test]
fn decode_rejects_malformed_records() {
    let reg = registry();
    let mut raw = raw_record();
    raw.contig = 1;
    assert_eq!(VariantRecord::decode(&raw, &reg).unwrap_err(), Error::Decode);
    let mut raw = raw_record();
    raw.alleles = Vec::new();
    assert_eq!(VariantRecord::decode(&raw, &reg).unwrap_err(), Error::Decode);
    let mut raw = raw_record();
    raw.filters = vec![0, 3];
    assert_eq!(VariantRecord::decode(&raw, &reg).unwrap_err(), Error::Decode);
    let mut raw = raw_record();
    raw.info = vec![RawInfo { key: 4, value: RawValue::Integers(vec![1]) }];
    assert_eq!(VariantRecord::decode(&raw, &reg).unwrap_err(), Error::Decode);
    let mut raw = raw_record();
    raw.info = vec![RawInfo { key: 0, value: RawValue::Floats(vec![1]) }];
    assert_eq!(VariantRecord::decode(&raw, &reg).unwrap_err(), Error::Decode);
    let mut raw = raw_record();
    raw.start = i64::MAX;
    assert_eq!(VariantRecord::decode(&raw, &reg).unwrap_err(), Error::Decode);
    raw.end = Some(i64::MAX);
    assert_eq!(VariantRecord::decode(&raw, &reg).unwrap().end(), i64::MAX);
    let mut raw = raw_record();
    raw.start = i64::MAX - 1;
    assert_eq!(VariantRecord::decode(&raw, &reg).unwrap().end(), i64::MAX);
}

#[test]
fn records_survive_schema_growth() {
    let mut reg = registry();
    let mut rec = record(&reg);
    let before = rec.generation();
    let mq = FieldSchema::new("MQ", Cardinality::Fixed(1), FieldType::Integer, "Mapping quality");
    assert_eq!(
        rec.set_info(&reg, "MQ", InfoValue::Integer(vec![Some(60)])),
        Err(Error::NotFound(Namespace::Info))
    );
    assert_eq!(reg.add_info_schema(mq), Ok(()));
    assert_eq!(reg.generation(), before + 1);
    assert_eq!(rec.generation(), before);
    assert_eq!(integers(rec.info(&reg, "DP")), vec![Some(10)]);
    assert_eq!(integers(rec.info(&reg, "MQ")), Vec::<Option<i32>>::new());
    assert_eq!(rec.set_info(&reg, "MQ", InfoValue::Integer(vec![Some(60)])), Ok(()));
    assert_eq!(integers(rec.info(&reg, "MQ")), vec![Some(60)]);
    assert_eq!(rec.chrom(&reg), Ok("chr1".to_string()));
}

#[test]
fn stale_ids_are_not_found() {
    let reg = registry();
    let rec = record(&reg);
    let bare = HeaderRegistry::new();
    assert_eq!(rec.chrom(&bare), Err(Error::NotFound(Namespace::Contig)));
    let mut raw = raw_record();
    raw.filters = vec![0, 2];
    let rec = VariantRecord::decode(&raw, &reg).unwrap();
    assert_eq!(rec.filter(&bare), Err(Error::NotFound(Namespace::Filter)));
}
