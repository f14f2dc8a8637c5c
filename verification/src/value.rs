//! Values handed to the engine as table-function arguments, and qualified
//! names of catalog entries.

use vstd::prelude::*;

verus! {

/// A constant value, as an argument of a table function.
#[derive(Debug, Clone, PartialEq, Eq)]
pub enum Value {
    Boolean(bool),
    Integer(i32),
    BigInt(i64),
    Varchar(String),
}

/// A name as written in a query: the table (or function) name, optionally
/// qualified by schema, and by catalog before that.
#[derive(Debug, Clone, PartialEq, Eq)]
pub struct QualifiedName {
    pub catalog: Option<String>,
    pub schema: Option<String>,
    pub table: Option<String>,
}

impl QualifiedName {
    /// An unqualified name.
    pub fn unqualified(table: String) -> (r: QualifiedName)
        ensures
            r == (QualifiedName { catalog: None, schema: None, table: Some(table) }),
    {
        QualifiedName { catalog: None, schema: None, table: Some(table) }
    }

    /// A name qualified by catalog and schema.
    pub fn qualified(catalog: String, schema: String, table: String) -> (r: QualifiedName)
        ensures
            r == (QualifiedName { catalog: Some(catalog), schema: Some(schema), table: Some(table) }),
    {
        QualifiedName { catalog: Some(catalog), schema: Some(schema), table: Some(table) }
    }
}

/// The parts of an optional name part: none, or that one part.
pub open spec fn optional_part(part: Option<String>) -> Seq<String> {
    match part {
        Some(p) => seq![p],
        None => Seq::empty(),
    }
}

/// The parts of a qualified name as the engine takes them, outermost first
/// (catalog, schema, table): only the parts present, and none at all when
/// the table is missing or a catalog is given without a schema, which no
/// engine name expresses.
pub open spec fn name_parts(name: QualifiedName) -> Option<Seq<String>> {
    if name.table is None || (name.catalog is Some && name.schema is None) {
        None
    } else {
        Some(optional_part(name.catalog) + optional_part(name.schema) + seq![name.table->0])
    }
}

/// The qualified name of engine parts, outermost first: the last part is the
/// table, the one before it the schema, the one before that the catalog.
pub open spec fn name_of_parts(parts: Seq<String>) -> QualifiedName {
    let n = parts.len() as int;
    QualifiedName {
        catalog: if n >= 3 { Some(parts[n - 3]) } else { None },
        schema: if n >= 2 { Some(parts[n - 2]) } else { None },
        table: if n >= 1 { Some(parts[n - 1]) } else { None },
    }
}

impl QualifiedName {
    /// The parts the engine takes for this name, outermost first; `None` when
    /// the table is missing or a catalog is given without a schema.
    pub fn parts(&self) -> (r: Option<Vec<String>>)
        ensures
            r is Some <==> name_parts(*self) is Some,
            r matches Some(v) ==> v@ == name_parts(*self)->0,
    {
        let table = match &self.table {
            Some(t) => t,
            None => return None,
        };
        let mut parts: Vec<String> = Vec::new();
        match &self.catalog {
            Some(c) => {
                match &self.schema {
                    Some(_) => parts.push(c.clone()),
                    None => return None,
                }
            },
            None => {},
        }
        match &self.schema {
            Some(s) => parts.push(s.clone()),
            None => {},
        }
        parts.push(table.clone());
        assert(parts@ =~= optional_part(self.catalog) + optional_part(self.schema) + seq![*table]);
        Some(parts)
    }

    /// The name of engine parts, outermost first: the last part is the
    /// table, then schema and catalog before it.
    pub fn from_parts(parts: &Vec<String>) -> (r: QualifiedName)
        ensures
            r == name_of_parts(parts@),
    {
        let n = parts.len();
        let catalog = if n >= 3 { Some(parts[n - 3].clone()) } else { None };
        let schema = if n >= 2 { Some(parts[n - 2].clone()) } else { None };
        let table = if n >= 1 { Some(parts[n - 1].clone()) } else { None };
        QualifiedName { catalog, schema, table }
    }
}

/// Reading a name back from its engine parts gives the name itself.
pub proof fn lemma_name_parts_round_trip(name: QualifiedName)
    requires
        name_parts(name) is Some,
    ensures
        name_of_parts(name_parts(name)->0) == name,
{
}

/// The engine parts of the name read back from one to three parts are those
/// parts.
pub proof fn lemma_parts_name_round_trip(parts: Seq<String>)
    requires
        1 <= parts.len() <= 3,
    ensures
        name_parts(name_of_parts(parts)) == Some(parts),
{
    assert(name_parts(name_of_parts(parts))->0 =~= parts);
}

} // verus!
