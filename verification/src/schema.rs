//! Field definitions: value type, cardinality, and the declared schema of a field.

use vstd::prelude::*;
use vstd::string::StringExecFns;

use crate::text::{
    decimal, is_digit, lemma_decimal_round_trip, parse_decimal, parse_decimal_spec,
    render_decimal, str_eq,
};

verus! {

/// The kind of value an INFO or FORMAT field carries.
#[derive(Clone, Copy, Debug, PartialEq, Eq, Structural)]
pub enum FieldType {
    Integer,
    Float,
    String,
    /// Presence only: a flag carries no value.
    Flag,
}

/// How many values a field carries per record.
#[derive(Clone, Copy, Debug, PartialEq, Eq, Structural)]
pub enum Cardinality {
    /// Exactly this many values.
    Fixed(u32),
    /// One value per alternate allele, written `A`.
    PerAllele,
    /// One value per genotype, written `G`.
    PerGenotype,
    /// Any number of values, written `.`.
    Variable,
}

impl FieldType {
    /// The name of the type as a header line writes it.
    pub open spec fn name_spec(self) -> Seq<char> {
        match self {
            FieldType::Integer => "Integer"@,
            FieldType::Float => "Float"@,
            FieldType::String => "String"@,
            FieldType::Flag => "Flag"@,
        }
    }

    /// The type that a header line's `Type` value names, if any.
    pub open spec fn parse_spec(s: Seq<char>) -> Option<FieldType> {
        if s == "Integer"@ {
            Some(FieldType::Integer)
        } else if s == "Float"@ {
            Some(FieldType::Float)
        } else if s == "String"@ {
            Some(FieldType::String)
        } else if s == "Flag"@ {
            Some(FieldType::Flag)
        } else {
            None
        }
    }

    /// The name of the type as a header line writes it.
    pub fn name(&self) -> (s: &'static str)
        ensures
            s@ == self.name_spec(),
    {
        match self {
            FieldType::Integer => "Integer",
            FieldType::Float => "Float",
            FieldType::String => "String",
            FieldType::Flag => "Flag",
        }
    }

    /// Reads the `Type` value of a header line.
    pub fn parse(s: &str) -> (r: Option<FieldType>)
        ensures
            r == FieldType::parse_spec(s@),
    {
        if str_eq(s, "Integer") {
            Some(FieldType::Integer)
        } else if str_eq(s, "Float") {
            Some(FieldType::Float)
        } else if str_eq(s, "String") {
            Some(FieldType::String)
        } else if str_eq(s, "Flag") {
            Some(FieldType::Flag)
        } else {
            None
        }
    }

    /// Reading a type's name gives the type back.
    pub proof fn lemma_parse_name(self)
        ensures
            FieldType::parse_spec(self.name_spec()) == Some(self),
    {
        reveal_strlit("Integer");
        reveal_strlit("Float");
        reveal_strlit("String");
        reveal_strlit("Flag");
        assert("Integer"@[0] == 'I');
        assert("Float"@[1] == 'l');
        assert("String"@[0] == 'S');
        assert("Flag"@.len() == 4);
    }
}

impl Cardinality {
    /// The cardinality as a header line's `Number` value writes it.
    pub open spec fn render_spec(self) -> Seq<char> {
        match self {
            Cardinality::Fixed(n) => decimal(n as nat),
            Cardinality::PerAllele => "A"@,
            Cardinality::PerGenotype => "G"@,
            Cardinality::Variable => "."@,
        }
    }

    /// The cardinality that a header line's `Number` value stands for, if any.
    pub open spec fn parse_spec(s: Seq<char>) -> Option<Cardinality> {
        if s == "A"@ {
            Some(Cardinality::PerAllele)
        } else if s == "G"@ {
            Some(Cardinality::PerGenotype)
        } else if s == "."@ {
            Some(Cardinality::Variable)
        } else {
            match parse_decimal_spec(s) {
                Some(n) => Some(Cardinality::Fixed(n)),
                None => None,
            }
        }
    }

    /// Writes the cardinality as the `Number` value of a header line.
    pub fn render(&self) -> (s: String)
        ensures
            s@ == self.render_spec(),
    {
        match self {
            Cardinality::Fixed(n) => render_decimal(*n),
            Cardinality::PerAllele => String::from_str("A"),
            Cardinality::PerGenotype => String::from_str("G"),
            Cardinality::Variable => String::from_str("."),
        }
    }

    /// Reads the `Number` value of a header line.
    pub fn parse(s: &str) -> (r: Option<Cardinality>)
        ensures
            r == Cardinality::parse_spec(s@),
    {
        if str_eq(s, "A") {
            Some(Cardinality::PerAllele)
        } else if str_eq(s, "G") {
            Some(Cardinality::PerGenotype)
        } else if str_eq(s, ".") {
            Some(Cardinality::Variable)
        } else {
            match parse_decimal(s) {
                Some(n) => Some(Cardinality::Fixed(n)),
                None => None,
            }
        }
    }
}

impl Cardinality {
    /// Reading a cardinality as it is written gives the cardinality back.
    pub proof fn lemma_parse_render(self)
        ensures
            Cardinality::parse_spec(self.render_spec()) == Some(self),
    {
        reveal_strlit("A");
        reveal_strlit("G");
        reveal_strlit(".");
        match self {
            Cardinality::Fixed(n) => {
                lemma_decimal_round_trip(n as nat);
                let s = decimal(n as nat);
                assert(is_digit(s[0]));
                assert("A"@[0] == 'A');
                assert("G"@[0] == 'G');
                assert("."@[0] == '.');
            },
            Cardinality::PerAllele => {},
            Cardinality::PerGenotype => {
                assert("G"@[0] == 'G');
                assert("A"@[0] == 'A');
            },
            Cardinality::Variable => {
                assert("G"@[0] == 'G');
                assert("A"@[0] == 'A');
                assert("."@[0] == '.');
            },
        }
    }
}

/// One declared field: its id, how many values it carries, of which type, and
/// a description in free text.
#[derive(Debug)]
pub struct FieldSchema {
    pub id: String,
    pub number: Cardinality,
    pub ty: FieldType,
    pub description: String,
}

/// A declared field as a mathematical value.
pub struct FieldSchemaView {
    pub id: Seq<char>,
    pub number: Cardinality,
    pub ty: FieldType,
    pub description: Seq<char>,
}

impl View for FieldSchema {
    type V = FieldSchemaView;

    open spec fn view(&self) -> FieldSchemaView {
        FieldSchemaView {
            id: self.id@,
            number: self.number,
            ty: self.ty,
            description: self.description@,
        }
    }
}

impl Clone for FieldSchema {
    fn clone(&self) -> (r: Self)
        ensures
            r@ == self@,
    {
        FieldSchema {
            id: self.id.clone(),
            number: self.number,
            ty: self.ty,
            description: self.description.clone(),
        }
    }
}

impl FieldSchemaView {
    /// The header line that declares this field in the namespace `kind`
    /// (`INFO` or `FORMAT`), without a line end.
    pub open spec fn line(self, kind: Seq<char>) -> Seq<char> {
        "##"@ + kind + "=<ID="@ + self.id + ",Number="@ + self.number.render_spec() + ",Type="@
            + self.ty.name_spec() + ",Description=\""@ + self.description + "\">"@
    }

    /// The header line that declares this entry as a filter, without a line end.
    pub open spec fn filter_line(self) -> Seq<char> {
        "##FILTER=<ID="@ + self.id + ",Description=\""@ + self.description + "\">"@
    }

    /// Whether `other` declares the same value type and cardinality.
    pub open spec fn compatible(self, other: FieldSchemaView) -> bool {
        self.number == other.number && self.ty == other.ty
    }
}

/// The ids of a list of declared fields, in order.
pub open spec fn ids(entries: Seq<FieldSchemaView>) -> Seq<Seq<char>> {
    entries.map_values(|e: FieldSchemaView| e.id)
}

/// The views of a list of declared fields, in order.
pub open spec fn schema_views(entries: Seq<FieldSchema>) -> Seq<FieldSchemaView> {
    entries.map_values(|e: FieldSchema| e@)
}

impl FieldSchema {
    /// A schema with the given values.
    pub fn new(id: &str, number: Cardinality, ty: FieldType, description: &str) -> (r: FieldSchema)
        ensures
            r@ == (FieldSchemaView { id: id@, number, ty, description: description@ }),
    {
        FieldSchema {
            id: String::from_str(id),
            number,
            ty,
            description: String::from_str(description),
        }
    }

    /// Builds a schema from the four values of a header line, reading `number`
    /// and `ty` as the header writes them. `None` where either cannot be read.
    pub fn parse(id: &str, number: &str, ty: &str, description: &str) -> (r: Option<FieldSchema>)
        ensures
            match (Cardinality::parse_spec(number@), FieldType::parse_spec(ty@)) {
                (Some(n), Some(t)) => r matches Some(schema) && schema@ == (FieldSchemaView {
                    id: id@,
                    number: n,
                    ty: t,
                    description: description@,
                }),
                _ => r is None,
            },
    {
        match (Cardinality::parse(number), FieldType::parse(ty)) {
            (Some(n), Some(t)) => Some(FieldSchema::new(id, n, t, description)),
            _ => None,
        }
    }

    /// The header line that declares this field in the namespace `kind`.
    pub fn line(&self, kind: &str) -> (s: String)
        ensures
            s@ == self@.line(kind@),
    {
        let mut s = String::from_str("##");
        s.append(kind);
        s.append("=<ID=");
        s.append(self.id.as_str());
        s.append(",Number=");
        s.append(self.number.render().as_str());
        s.append(",Type=");
        s.append(self.ty.name());
        s.append(",Description=\"");
        s.append(self.description.as_str());
        s.append("\">");
        s
    }

    /// The `##INFO` header line of this field.
    pub fn info_line(&self) -> (s: String)
        ensures
            s@ == self@.line("INFO"@),
    {
        self.line("INFO")
    }

    /// The `##FILTER` header line of this entry.
    pub fn filter_line(&self) -> (s: String)
        ensures
            s@ == self@.filter_line(),
    {
        let mut s = String::from_str("##FILTER=<ID=");
        s.append(self.id.as_str());
        s.append(",Description=\"");
        s.append(self.description.as_str());
        s.append("\">");
        s
    }
}

} // verus!
