//! The schema of a table: where it is kept, and what makes it valid.

use vstd::prelude::*;

verus! {

/// The names of a schema's columns, as plain values.
pub open spec fn column_names(columns: Seq<String>) -> Seq<Seq<char>> {
    Seq::new(columns.len(), |i: int| columns[i]@)
}

/// No name occurs twice.
pub open spec fn distinct(names: Seq<Seq<char>>) -> bool {
    forall|i: int, j: int| 0 <= i < j < names.len() ==> names[i] != names[j]
}

/// Where the schema of the table `table_name` is kept: the file of that name,
/// with the extension `toml`, in the directory `tables` below the working
/// directory.
pub fn schema_path(table_name: &str) -> (path: String)
    ensures
        path@ == "./tables/"@ + table_name@ + ".toml"@,
{
    let mut path = String::new();
    path.push_str("./tables/");
    path.push_str(table_name);
    path.push_str(".toml");
    proof {
        assert(path@ =~= "./tables/"@ + table_name@ + ".toml"@);
    }
    path
}

/// Why a list of column names is no schema.
#[derive(Clone, Copy, PartialEq, Eq, Structural, Debug)]
pub enum SchemaError {
    /// The list is empty.
    NoColumns,
    /// A name occurs twice.
    DuplicateColumn,
}

impl SchemaError {
    /// The error in words.
    pub open spec fn spec_message(self) -> Seq<char> {
        match self {
            SchemaError::NoColumns => "the schema has no columns"@,
            SchemaError::DuplicateColumn => "the schema names a column twice"@,
        }
    }

    /// The error in words.
    pub fn message(self) -> (message: String)
        ensures
            message@ == self.spec_message(),
    {
        match self {
            SchemaError::NoColumns => "the schema has no columns".to_owned(),
            SchemaError::DuplicateColumn => "the schema names a column twice".to_owned(),
        }
    }
}

/// Whether a name occurs twice among the columns.
pub fn has_duplicate(columns: &Vec<String>) -> (found: bool)
    ensures
        found == !distinct(column_names(columns@)),
{
    let ghost names = column_names(columns@);
    let mut j: usize = 0;
    while j < columns.len()
        invariant
            j <= columns@.len(),
            names == column_names(columns@),
            forall|a: int, b: int| 0 <= a < b < j ==> names[a] != names[b],
        decreases columns@.len() - j,
    {
        let mut i: usize = 0;
        while i < j
            invariant
                i <= j < columns@.len(),
                names == column_names(columns@),
                forall|a: int| 0 <= a < i ==> names[a] != names[j as int],
            decreases j - i,
        {
            if columns[i] == columns[j] {
                proof {
                    assert(names[i as int] == names[j as int]);
                }
                return true;
            }
            i = i + 1;
        }
        j = j + 1;
    }
    false
}

/// The schema of one table: its column names in declaration order, at least
/// one, and none twice.
#[derive(Debug)]
pub struct Table {
    columns: Vec<String>,
}

impl View for Table {
    type V = Seq<Seq<char>>;

    closed spec fn view(&self) -> Seq<Seq<char>> {
        column_names(self.columns@)
    }
}

impl Table {
    #[verifier::type_invariant]
    spec fn valid(&self) -> bool {
        &&& self.columns@.len() > 0
        &&& distinct(column_names(self.columns@))
    }

    /// The schema with these columns. An empty list is refused, and so is
    /// one that holds a name twice.
    pub fn new(columns: Vec<String>) -> (table: Result<Table, SchemaError>)
        ensures
            columns@.len() == 0 ==> table == Err::<Table, SchemaError>(SchemaError::NoColumns),
            columns@.len() > 0 && !distinct(column_names(columns@)) ==> table == Err::<
                Table,
                SchemaError,
            >(SchemaError::DuplicateColumn),
            columns@.len() > 0 && distinct(column_names(columns@)) ==> table.is_ok()
                && table.unwrap()@ == column_names(columns@),
    {
        if columns.len() == 0 {
            Err(SchemaError::NoColumns)
        } else if has_duplicate(&columns) {
            Err(SchemaError::DuplicateColumn)
        } else {
            Ok(Table { columns })
        }
    }

    /// The column names, in declaration order.
    pub fn columns(&self) -> (columns: &Vec<String>)
        ensures
            column_names(columns@) == self@,
            columns@.len() > 0,
            distinct(self@),
    {
        proof {
            use_type_invariant(self);
        }
        &self.columns
    }

    /// The column names, in declaration order.
    pub fn into_columns(self) -> (columns: Vec<String>)
        ensures
            column_names(columns@) == self@,
            columns@.len() > 0,
            distinct(self@),
    {
        proof {
            use_type_invariant(&self);
        }
        self.columns
    }
}

} // verus!
