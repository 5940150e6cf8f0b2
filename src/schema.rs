use vstd::prelude::*;
use crate::text::{lemma_name_lt_transitive, name_less, name_lt, strictly_ascending};

verus! {

/// The closed set of column data types.
#[derive(Clone, Copy, Debug, PartialEq, Eq, Structural)]
pub enum ColumnDataType {
    Integer,
    String,
    Float,
    DateTime,
}

/// One column of a table.
#[derive(Clone, Copy, Debug, PartialEq, Eq, Structural)]
pub struct Column {
    pub datatype: ColumnDataType,
}

/// A table: its columns, by name, in the order in which they are generated.
#[derive(Debug)]
pub struct Table {
    pub columns: Vec<(String, Column)>,
}

/// The abstract value of a column list: names with their data types.
pub type ColumnsView = Seq<(Seq<char>, ColumnDataType)>;

/// The abstract value of a table list: names with their columns.
pub type TablesView = Seq<(Seq<char>, ColumnsView)>;

pub open spec fn column_entry_view(p: (String, Column)) -> (Seq<char>, ColumnDataType) {
    (p.0@, p.1.datatype)
}

impl View for Table {
    type V = ColumnsView;

    open spec fn view(&self) -> ColumnsView {
        self.columns@.map_values(|p: (String, Column)| column_entry_view(p))
    }
}

pub open spec fn table_entry_view(p: (String, Table)) -> (Seq<char>, ColumnsView) {
    (p.0@, p.1@)
}

/// A whole configuration: a version tag and the tables, in generation order.
/// Well-formed (`wf`) when tables and columns are sorted by name, each name once.
#[derive(Debug)]
pub struct Conf {
    pub version: String,
    pub tables: Vec<(String, Table)>,
}

impl Conf {
    pub open spec fn tables_view(&self) -> TablesView {
        self.tables@.map_values(|p: (String, Table)| table_entry_view(p))
    }
}

/// The data type that a configuration names by `s`, if any.
pub open spec fn tag_of(s: Seq<char>) -> Option<ColumnDataType> {
    if s == "Integer"@ {
        Some(ColumnDataType::Integer)
    } else if s == "String"@ {
        Some(ColumnDataType::String)
    } else if s == "Float"@ {
        Some(ColumnDataType::Float)
    } else if s == "DateTime"@ {
        Some(ColumnDataType::DateTime)
    } else {
        None
    }
}

impl ColumnDataType {
    /// Recognizes the name of a data type.
    pub fn from_name(name: &str) -> (r: Option<ColumnDataType>)
        ensures
            r == tag_of(name@),
    {
        let s = name.to_owned();
        if s == "Integer".to_owned() {
            Some(ColumnDataType::Integer)
        } else if s == "String".to_owned() {
            Some(ColumnDataType::String)
        } else if s == "Float".to_owned() {
            Some(ColumnDataType::Float)
        } else if s == "DateTime".to_owned() {
            Some(ColumnDataType::DateTime)
        } else {
            None
        }
    }
}

/// The version tag of a configuration that names none.
pub fn default_version() -> (r: String)
    ensures
        r@ == "v1"@,
{
    "v1".to_owned()
}

/// Why a configuration could not be loaded.
#[derive(Debug, PartialEq, Eq)]
pub enum LoadError {
    /// A column names a data type outside the closed set.
    UnknownDataType { table: String, column: String, datatype: String },
    /// A table name does not come strictly after the one before it.
    TableOutOfOrder { table: String },
    /// A column name does not come strictly after the one before it.
    ColumnOutOfOrder { table: String, column: String },
}

/// A table as read from a configuration: column names with data type names.
pub type RawTable = Vec<(String, String)>;

/// Whether every column of every table names a known data type.
pub open spec fn all_known(raw: Seq<(String, RawTable)>) -> bool {
    forall|i: int, j: int|
        0 <= i < raw.len() && 0 <= j < raw[i].1@.len() ==> (#[trigger] tag_of(raw[i].1@[j].1@)) is Some
}

pub open spec fn raw_table_names(raw: Seq<(String, RawTable)>) -> Seq<Seq<char>> {
    raw.map_values(|t: (String, RawTable)| t.0@)
}

pub open spec fn raw_column_names(raw: RawTable) -> Seq<Seq<char>> {
    raw@.map_values(|c: (String, String)| c.0@)
}

/// Whether the names of the tables, and of each table's columns, are
/// strictly ascending.
pub open spec fn all_ascending(raw: Seq<(String, RawTable)>) -> bool {
    &&& strictly_ascending(raw_table_names(raw))
    &&& forall|i: int| 0 <= i < raw.len() ==> strictly_ascending(#[trigger] raw_column_names(raw[i].1))
}

/// The columns that a raw table stands for, where every data type is known.
pub open spec fn columns_of(raw: RawTable) -> ColumnsView {
    raw@.map_values(|c: (String, String)| (c.0@, tag_of(c.1@).unwrap()))
}

/// The tables that a raw table list stands for, where every data type is known.
pub open spec fn tables_of(raw: Seq<(String, RawTable)>) -> TablesView {
    raw.map_values(|t: (String, RawTable)| (t.0@, columns_of(t.1)))
}

pub open spec fn column_names(cols: ColumnsView) -> Seq<Seq<char>> {
    cols.map_values(|c: (Seq<char>, ColumnDataType)| c.0)
}

pub open spec fn table_names(ts: TablesView) -> Seq<Seq<char>> {
    ts.map_values(|e: (Seq<char>, ColumnsView)| e.0)
}

fn columns_from_names(table: &String, raw: &RawTable) -> (r: Result<Table, LoadError>)
    ensures
        r is Ok <==> (forall|j: int| 0 <= j < raw@.len() ==> (#[trigger] tag_of(raw@[j].1@)) is Some)
            && strictly_ascending(raw_column_names(*raw)),
        r matches Ok(t) ==> t@ == columns_of(*raw),
        r matches Err(LoadError::UnknownDataType { table: tn, column, datatype }) ==> {
            &&& tn@ == table@
            &&& exists|j: int|
                0 <= j < raw@.len() && (#[trigger] raw@[j]).0@ == column@ && raw@[j].1@ == datatype@
                    && tag_of(datatype@) is None
        },
        r matches Err(LoadError::ColumnOutOfOrder { table: tn, column }) ==> {
            &&& tn@ == table@
            &&& exists|j: int|
                0 < j < raw@.len() && (#[trigger] raw@[j]).0@ == column@ && !name_lt(raw@[j - 1].0@, column@)
        },
        !(r matches Err(LoadError::TableOutOfOrder { .. })),
{
    let ghost names = raw_column_names(*raw);
    let mut columns: Vec<(String, Column)> = Vec::new();
    let mut j: usize = 0;
    while j < raw.len()
        invariant
            j <= raw.len(),
            names == raw_column_names(*raw),
            columns@.len() == j,
            forall|k: int| 0 <= k < j ==> (#[trigger] tag_of(raw@[k].1@)) is Some,
            forall|k: int, l: int| 0 <= k < l < j ==> name_lt(#[trigger] names[k], #[trigger] names[l]),
            forall|k: int|
                0 <= k < j ==> #[trigger] column_entry_view(columns@[k]) == (
                raw@[k].0@,
                tag_of(raw@[k].1@).unwrap(),
            ),
        decreases raw.len() - j,
    {
        if j > 0 && !name_less(raw[j - 1].0.as_str(), raw[j].0.as_str()) {
            assert(!name_lt(names[j - 1], names[j as int]));
            return Err(LoadError::ColumnOutOfOrder { table: table.clone(), column: raw[j].0.clone() });
        }
        proof {
            assert forall|k: int, l: int| 0 <= k < l < j + 1 implies name_lt(#[trigger] names[k], #[trigger] names[l]) by {
                if l == j && k < j - 1 {
                    lemma_name_lt_transitive(names[k], names[j - 1], names[l]);
                }
            }
        }
        match ColumnDataType::from_name(raw[j].1.as_str()) {
            Some(d) => {
                columns.push((raw[j].0.clone(), Column { datatype: d }));
            },
            None => {
                return Err(
                    LoadError::UnknownDataType {
                        table: table.clone(),
                        column: raw[j].0.clone(),
                        datatype: raw[j].1.clone(),
                    },
                );
            },
        }
        j += 1;
    }
    let t = Table { columns };
    assert(t@ =~= columns_of(*raw));
    Ok(t)
}

impl Conf {
    /// Well-formed: table names, and each table's column names, strictly
    /// ascending, so that names are unique and the order of generation is
    /// fixed by the names alone.
    pub open spec fn wf(&self) -> bool {
        &&& strictly_ascending(table_names(self.tables_view()))
        &&& forall|i: int|
            0 <= i < self.tables@.len() ==> strictly_ascending(
                #[trigger] column_names(self.tables_view()[i].1),
            )
    }

    /// Builds a configuration from the values a configuration file holds:
    /// an optional version tag, and tables of columns with data type names.
    /// Fails exactly when some column names an unknown data type, or some
    /// table or column name does not come strictly after the one before it.
    pub fn from_parts(version: Option<String>, tables: Vec<(String, RawTable)>) -> (r: Result<
        Conf,
        LoadError,
    >)
        ensures
            r is Ok <==> all_known(tables@) && all_ascending(tables@),
            r matches Ok(c) ==> {
                &&& c.wf()
                &&& c.version@ == (match version {
                    Some(v) => v@,
                    None => "v1"@,
                })
                &&& c.tables_view() == tables_of(tables@)
            },
            r matches Err(LoadError::UnknownDataType { table, column, datatype }) ==> exists|
                i: int,
                j: int,
            |
                0 <= i < tables@.len() && 0 <= j < tables@[i].1@.len() && tables@[i].0@ == table@
                    && (#[trigger] tables@[i].1@[j]).0@ == column@ && tables@[i].1@[j].1@ == datatype@
                    && tag_of(datatype@) is None,
            r matches Err(LoadError::TableOutOfOrder { table }) ==> exists|i: int|
                0 < i < tables@.len() && (#[trigger] tables@[i]).0@ == table@ && !name_lt(
                    tables@[i - 1].0@,
                    table@,
                ),
            r matches Err(LoadError::ColumnOutOfOrder { table, column }) ==> exists|i: int, j: int|
                0 <= i < tables@.len() && 0 < j < tables@[i].1@.len() && tables@[i].0@ == table@
                    && (#[trigger] tables@[i].1@[j]).0@ == column@ && !name_lt(
                    tables@[i].1@[j - 1].0@,
                    column@,
                ),
    {
        let ghost names = raw_table_names(tables@);
        let mut out: Vec<(String, Table)> = Vec::new();
        let mut i: usize = 0;
        while i < tables.len()
            invariant
                i <= tables.len(),
                names == raw_table_names(tables@),
                out@.len() == i,
                forall|k: int, j: int|
                    0 <= k < i && 0 <= j < tables@[k].1@.len() ==> (#[trigger] tag_of(
                        tables@[k].1@[j].1@,
                    )) is Some,
                forall|k: int, l: int| 0 <= k < l < i ==> name_lt(#[trigger] names[k], #[trigger] names[l]),
                forall|k: int| 0 <= k < i ==> strictly_ascending(#[trigger] raw_column_names(tables@[k].1)),
                forall|k: int|
                    0 <= k < i ==> #[trigger] table_entry_view(out@[k]) == (
                    tables@[k].0@,
                    columns_of(tables@[k].1),
                ),
            decreases tables.len() - i,
        {
            if i > 0 && !name_less(tables[i - 1].0.as_str(), tables[i].0.as_str()) {
                assert(!name_lt(names[i - 1], names[i as int]));
                return Err(LoadError::TableOutOfOrder { table: tables[i].0.clone() });
            }
            proof {
                assert forall|k: int, l: int| 0 <= k < l < i + 1 implies name_lt(#[trigger] names[k], #[trigger] names[l]) by {
                    if l == i && k < i - 1 {
                        lemma_name_lt_transitive(names[k], names[i - 1], names[l]);
                    }
                }
            }
            match columns_from_names(&tables[i].0, &tables[i].1) {
                Ok(t) => {
                    out.push((tables[i].0.clone(), t));
                },
                Err(e) => {
                    proof {
                        if let LoadError::UnknownDataType { column, datatype, .. } = &e {
                            let j = choose|j: int|
                                0 <= j < tables@[i as int].1@.len() && (#[trigger] tables@[i as int].1@[j]).0@
                                    == column@ && tables@[i as int].1@[j].1@ == datatype@ && tag_of(datatype@) is None;
                            assert(tag_of(tables@[i as int].1@[j].1@) is None);
                        }
                        if !strictly_ascending(raw_column_names(tables@[i as int].1)) {
                            assert(!all_ascending(tables@));
                        }
                    }
                    return Err(e);
                },
            }
            i += 1;
        }
        let version = match version {
            Some(v) => v,
            None => default_version(),
        };
        let c = Conf { version, tables: out };
        assert(c.tables_view() =~= tables_of(tables@));
        proof {
            let tv = c.tables_view();
            assert(table_names(tv) =~= names);
            assert forall|k: int| 0 <= k < c.tables@.len() implies strictly_ascending(
                #[trigger] column_names(c.tables_view()[k].1),
            ) by {
                assert(column_names(tv[k].1) =~= raw_column_names(tables@[k].1));
            }
        }
        Ok(c)
    }
}

} // verus!
