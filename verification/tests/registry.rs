use bcf_reader::error::{Error, Namespace};
use bcf_reader::registry::HeaderRegistry;
use bcf_reader::schema::{Cardinality, FieldSchema, FieldType};
use bcf_reader::text::{parse_decimal, render_decimal};

fn dp() -> FieldSchema {
    FieldSchema::new("DP", Cardinality::Fixed(1), FieldType::Integer, "Total depth")
}

#[test]
fn new_registry_declares_only_pass() {
    let reg = HeaderRegistry::new();
    assert_eq!(reg.generation(), 0);
    assert_eq!(reg.filter_count(), 1);
    assert_eq!(reg.contig_count(), 0);
    assert_eq!(reg.info_count(), 0);
    assert_eq!(reg.name_to_filter("PASS"), Ok(0));
    assert_eq!(reg.resolve_filter(0), Ok("PASS".to_string()));
    assert!(reg.samples().is_empty());
}

#[test]
fn contigs_resolve_both_ways() {
    let mut reg = HeaderRegistry::new();
    assert_eq!(reg.add_contig("chr1"), 0);
    assert_eq!(reg.add_contig("chr2"), 1);
    assert_eq!(reg.resolve_contig(1), Ok("chr2".to_string()));
    assert_eq!(reg.name_to_contig("chr1"), Ok(0));
    assert_eq!(reg.resolve_contig(2), Err(Error::NotFound(Namespace::Contig)));
    assert_eq!(reg.name_to_contig("chrX"), Err(Error::NotFound(Namespace::Contig)));
    assert_eq!(reg.contigs(), vec!["chr1".to_string(), "chr2".to_string()]);
}

#[test]
fn declaring_a_contig_twice_changes_nothing() {
    let mut reg = HeaderRegistry::new();
    assert_eq!(reg.add_contig("chr1"), 0);
    let generation = reg.generation();
    assert_eq!(reg.add_contig("chr1"), 0);
    assert_eq!(reg.generation(), generation);
    assert_eq!(reg.contig_count(), 1);
}

#[test]
fn samples_keep_their_order() {
    let mut reg = HeaderRegistry::new();
    assert!(reg.samples().is_empty());
    assert_eq!(reg.add_sample("NA12878"), 0);
    assert_eq!(reg.add_sample("NA12891"), 1);
    assert_eq!(reg.add_sample("NA12878"), 0);
    assert_eq!(reg.samples(), vec!["NA12878".to_string(), "NA12891".to_string()]);
    assert_eq!(reg.name_to_sample("NA12891"), Ok(1));
    assert_eq!(reg.resolve_sample(0), Ok("NA12878".to_string()));
    assert_eq!(reg.resolve_sample(5), Err(Error::NotFound(Namespace::Sample)));
    assert_eq!(reg.name_to_sample("nobody"), Err(Error::NotFound(Namespace::Sample)));
}

#[test]
fn filters_get_ids_after_pass() {
    let mut reg = HeaderRegistry::new();
    assert_eq!(reg.add_filter("q10", "Quality below 10"), 1);
    assert_eq!(reg.add_filter("PASS", "again"), 0);
    assert_eq!(reg.add_filter("q10", "other words"), 1);
    assert_eq!(reg.filter_count(), 2);
    assert_eq!(reg.generation(), 1);
    assert_eq!(reg.name_to_filter("q10"), Ok(1));
    assert_eq!(reg.name_to_filter("q20"), Err(Error::NotFound(Namespace::Filter)));
    assert_eq!(reg.resolve_filter(2), Err(Error::NotFound(Namespace::Filter)));
}

#[test]
fn add_info_schema_makes_field_usable() {
    let mut reg = HeaderRegistry::new();
    assert!(!reg.has_info("DP"));
    assert_eq!(reg.info_schema("DP").unwrap_err(), Error::NotFound(Namespace::Info));
    assert_eq!(reg.add_info_schema(dp()), Ok(()));
    assert!(reg.has_info("DP"));
    assert_eq!(reg.generation(), 1);
    let schema = reg.info_schema("DP").unwrap();
    assert_eq!(schema.id, "DP");
    assert_eq!(schema.number, Cardinality::Fixed(1));
    assert_eq!(schema.ty, FieldType::Integer);
    assert_eq!(schema.description, "Total depth");
    assert_eq!(reg.name_to_info("DP"), Ok(0));
    assert_eq!(reg.info_type_at(0), Ok(FieldType::Integer));
    assert_eq!(reg.info_type_at(1), Err(Error::NotFound(Namespace::Info)));
}

#[test]
fn add_info_schema_twice_is_idempotent() {
    let mut reg = HeaderRegistry::new();
    assert_eq!(reg.add_info_schema(dp()), Ok(()));
    let generation = reg.generation();
    let text = reg.render();
    assert_eq!(reg.add_info_schema(dp()), Ok(()));
    assert_eq!(reg.info_count(), 1);
    assert_eq!(reg.generation(), generation);
    assert_eq!(reg.render(), text);
}

#[test]
fn add_info_schema_with_other_type_conflicts() {
    let mut reg = HeaderRegistry::new();
    assert_eq!(reg.add_info_schema(dp()), Ok(()));
    let other = FieldSchema::new("DP", Cardinality::Fixed(1), FieldType::Float, "Total depth");
    assert_eq!(reg.add_info_schema(other), Err(Error::SchemaConflict));
    assert_eq!(reg.info_count(), 1);
    assert_eq!(reg.info_schema("DP").unwrap().ty, FieldType::Integer);
    assert_eq!(reg.generation(), 1);
}

#[test]
fn add_info_schema_with_other_number_conflicts() {
    let mut reg = HeaderRegistry::new();
    assert_eq!(reg.add_info_schema(dp()), Ok(()));
    let other = FieldSchema::new("DP", Cardinality::Variable, FieldType::Integer, "Total depth");
    assert_eq!(reg.add_info_schema(other), Err(Error::SchemaConflict));
    assert_eq!(reg.info_schema("DP").unwrap().number, Cardinality::Fixed(1));
}

#[test]
fn add_info_schema_keeps_first_description() {
    let mut reg = HeaderRegistry::new();
    assert_eq!(reg.add_info_schema(dp()), Ok(()));
    let reworded = FieldSchema::new("DP", Cardinality::Fixed(1), FieldType::Integer, "Depth");
    assert_eq!(reg.add_info_schema(reworded), Ok(()));
    assert_eq!(reg.info_schema("DP").unwrap().description, "Total depth");
    assert_eq!(reg.generation(), 1);
}

#[test]
fn info_ids_are_case_sensitive() {
    let mut reg = HeaderRegistry::new();
    assert_eq!(reg.add_info_schema(dp()), Ok(()));
    assert!(!reg.has_info("dp"));
    let lower = FieldSchema::new("dp", Cardinality::Fixed(1), FieldType::Float, "lower case");
    assert_eq!(reg.add_info_schema(lower), Ok(()));
    assert_eq!(reg.info_count(), 2);
}

#[test]
fn format_namespace_is_separate_from_info() {
    let mut reg = HeaderRegistry::new();
    assert_eq!(reg.add_info_schema(dp()), Ok(()));
    let format_dp = FieldSchema::new("DP", Cardinality::Fixed(1), FieldType::Float, "Read depth");
    assert_eq!(reg.add_format_schema(format_dp), Ok(()));
    let clash = FieldSchema::new("DP", Cardinality::Fixed(1), FieldType::Integer, "Read depth");
    assert_eq!(reg.add_format_schema(clash), Err(Error::SchemaConflict));
    assert_eq!(reg.info_schema("DP").unwrap().ty, FieldType::Integer);
    assert_eq!(reg.generation(), 2);
}

#[test]
fn info_line_has_the_canonical_shape() {
    let schema = dp();
    assert_eq!(
        schema.info_line(),
        "##INFO=<ID=DP,Number=1,Type=Integer,Description=\"Total depth\">"
    );
    let af = FieldSchema::new("AF", Cardinality::PerAllele, FieldType::Float, "Allele frequency");
    assert_eq!(
        af.info_line(),
        "##INFO=<ID=AF,Number=A,Type=Float,Description=\"Allele frequency\">"
    );
    assert_eq!(
        af.line("FORMAT"),
        "##FORMAT=<ID=AF,Number=A,Type=Float,Description=\"Allele frequency\">"
    );
    assert_eq!(af.filter_line(), "##FILTER=<ID=AF,Description=\"Allele frequency\">");
}

#[test]
fn render_of_an_empty_registry() {
    let reg = HeaderRegistry::new();
    assert_eq!(
        reg.render(),
        "##fileformat=VCFv4.2\n\
         ##FILTER=<ID=PASS,Description=\"All filters passed\">\n\
         #CHROM\tPOS\tID\tREF\tALT\tQUAL\tFILTER\tINFO\n"
    );
}

#[test]
fn render_lists_every_declaration() {
    let mut reg = HeaderRegistry::new();
    reg.add_contig("chr1");
    reg.add_filter("q10", "Quality below 10");
    assert_eq!(reg.add_info_schema(dp()), Ok(()));
    let gt = FieldSchema::new("GT", Cardinality::Fixed(1), FieldType::String, "Genotype");
    assert_eq!(reg.add_format_schema(gt), Ok(()));
    reg.add_sample("s1");
    reg.add_sample("s2");
    assert_eq!(
        reg.render(),
        "##fileformat=VCFv4.2\n\
         ##FILTER=<ID=PASS,Description=\"All filters passed\">\n\
         ##FILTER=<ID=q10,Description=\"Quality below 10\">\n\
         ##INFO=<ID=DP,Number=1,Type=Integer,Description=\"Total depth\">\n\
         ##FORMAT=<ID=GT,Number=1,Type=String,Description=\"Genotype\">\n\
         ##contig=<ID=chr1>\n\
         #CHROM\tPOS\tID\tREF\tALT\tQUAL\tFILTER\tINFO\tFORMAT\ts1\ts2\n"
    );
    assert_eq!(reg.render(), reg.render());
}

#[test]
fn cardinality_is_read_as_written() {
    assert_eq!(Cardinality::parse("A"), Some(Cardinality::PerAllele));
    assert_eq!(Cardinality::parse("G"), Some(Cardinality::PerGenotype));
    assert_eq!(Cardinality::parse("."), Some(Cardinality::Variable));
    assert_eq!(Cardinality::parse("0"), Some(Cardinality::Fixed(0)));
    assert_eq!(Cardinality::parse("12"), Some(Cardinality::Fixed(12)));
    assert_eq!(Cardinality::parse("4294967295"), Some(Cardinality::Fixed(u32::MAX)));
    assert_eq!(Cardinality::parse("4294967296"), None);
    assert_eq!(Cardinality::parse("99999999999999999999999"), None);
    assert_eq!(Cardinality::parse(""), None);
    assert_eq!(Cardinality::parse("R"), None);
    assert_eq!(Cardinality::parse("-1"), None);
    assert_eq!(Cardinality::parse("1a"), None);
    for c in [
        Cardinality::Fixed(0),
        Cardinality::Fixed(7),
        Cardinality::Fixed(1234567890),
        Cardinality::PerAllele,
        Cardinality::PerGenotype,
        Cardinality::Variable,
    ] {
        assert_eq!(Cardinality::parse(&c.render()), Some(c));
    }
}

#[test]
fn decimal_numerals() {
    assert_eq!(render_decimal(0), "0");
    assert_eq!(render_decimal(9), "9");
    assert_eq!(render_decimal(10), "10");
    assert_eq!(render_decimal(4294967295), "4294967295");
    assert_eq!(parse_decimal("007"), Some(7));
    assert_eq!(parse_decimal("0000000000004294967295"), Some(4294967295));
    assert_eq!(parse_decimal("٣"), None);
    assert_eq!(parse_decimal(" 1"), None);
}

#[test]
fn field_type_is_read_as_written() {
    for ty in [FieldType::Integer, FieldType::Float, FieldType::String, FieldType::Flag] {
        assert_eq!(FieldType::parse(ty.name()), Some(ty));
    }
    assert_eq!(FieldType::Integer.name(), "Integer");
    assert_eq!(FieldType::Float.name(), "Float");
    assert_eq!(FieldType::String.name(), "String");
    assert_eq!(FieldType::Flag.name(), "Flag");
    assert_eq!(FieldType::parse("integer"), None);
    assert_eq!(FieldType::parse(""), None);
    assert_eq!(FieldType::parse("Character"), None);
}

#[test]
fn schema_is_built_from_header_values() {
    let schema = FieldSchema::parse("AF", "A", "Float", "Allele frequency").unwrap();
    assert_eq!(schema.id, "AF");
    assert_eq!(schema.number, Cardinality::PerAllele);
    assert_eq!(schema.ty, FieldType::Float);
    assert_eq!(schema.description, "Allele frequency");
    assert!(FieldSchema::parse("AF", "x", "Float", "").is_none());
    assert!(FieldSchema::parse("AF", "1", "Double", "").is_none());
    let copy = schema.clone();
    assert_eq!(copy.info_line(), schema.info_line());
}

#[test]
fn format_schema_is_looked_up_by_id() {
    let mut reg = HeaderRegistry::new();
    let gt = FieldSchema::new("GT", Cardinality::Fixed(1), FieldType::String, "Genotype");
    assert_eq!(reg.add_format_schema(gt), Ok(()));
    assert_eq!(reg.format_schema("GT").unwrap().ty, FieldType::String);
    assert_eq!(reg.format_schema("DP").unwrap_err(), Error::NotFound(Namespace::Format));
    assert!(!reg.has_info("GT"));
}

#[test]
fn info_fields_resolve_by_numeric_id() {
    let mut reg = HeaderRegistry::new();
    assert_eq!(reg.add_info_schema(dp()), Ok(()));
    assert_eq!(reg.resolve_info(0).unwrap().id, "DP");
    assert_eq!(reg.resolve_info(1).unwrap_err(), Error::NotFound(Namespace::Info));
}
