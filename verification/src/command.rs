//! The internal commands: the restricted form in which a statement reaches the
//! executor, with the mathematical model of each type.

use vstd::prelude::*;

verus! {

/// The type of a column.
#[derive(Clone, Copy, Debug, PartialEq, Eq, Structural)]
pub enum ColumnType {
    Integer,
    Text,
    /// Any declared type that is neither of the two above.
    Unknown,
}

/// A modifier of a column.
#[derive(Clone, Copy, Debug, PartialEq, Eq, Structural)]
pub enum ColumnModifier {
    NotNull,
    PrimaryKey,
    Unique,
}

/// One column of a table to create: its name, its type and its modifiers,
/// a set kept in the order in which each was first written.
#[derive(Clone, Debug, PartialEq, Eq)]
pub struct ColumnDefinition {
    pub name: String,
    pub column_type: ColumnType,
    pub options: Vec<ColumnModifier>,
}

/// The model of a `ColumnDefinition`.
pub struct ColumnModel {
    pub name: Seq<char>,
    pub column_type: ColumnType,
    pub options: Seq<ColumnModifier>,
}

impl ColumnModel {
    /// A column is well formed when none of its modifiers stands twice.
    pub open spec fn well_formed(self) -> bool {
        self.options.no_duplicates()
    }
}

impl View for ColumnDefinition {
    type V = ColumnModel;

    open spec fn view(&self) -> ColumnModel {
        ColumnModel { name: self.name@, column_type: self.column_type, options: self.options@ }
    }
}

impl DeepView for ColumnDefinition {
    type V = ColumnModel;

    open spec fn deep_view(&self) -> ColumnModel {
        self@
    }
}

/// A literal as it was written: quoted text, or a number kept as its digits.
#[derive(Clone, Debug, PartialEq, Eq)]
pub enum Literal {
    Text(String),
    Number(String),
}

/// The model of a `Literal`.
pub enum LiteralModel {
    Text(Seq<char>),
    Number(Seq<char>),
}

impl View for Literal {
    type V = LiteralModel;

    open spec fn view(&self) -> LiteralModel {
        match *self {
            Literal::Text(s) => LiteralModel::Text(s@),
            Literal::Number(n) => LiteralModel::Number(n@),
        }
    }
}

impl DeepView for Literal {
    type V = LiteralModel;

    open spec fn deep_view(&self) -> LiteralModel {
        self@
    }
}

/// A column set against a literal: `column = literal`. It serves as an
/// equality predicate of a WHERE clause and as an assignment of a SET clause.
#[derive(Clone, Debug, PartialEq, Eq)]
pub struct Equality {
    pub column: String,
    pub literal: Literal,
}

/// The model of an `Equality`.
pub struct EqualityModel {
    pub column: Seq<char>,
    pub literal: LiteralModel,
}

impl View for Equality {
    type V = EqualityModel;

    open spec fn view(&self) -> EqualityModel {
        EqualityModel { column: self.column@, literal: self.literal@ }
    }
}

impl DeepView for Equality {
    type V = EqualityModel;

    open spec fn deep_view(&self) -> EqualityModel {
        self@
    }
}

/// A validated command. A table name in a command is a single identifier.
#[derive(Clone, Debug, PartialEq, Eq)]
pub enum Command {
    CreateTable { table: String, columns: Vec<ColumnDefinition> },
    /// One row to insert: its values in order, each bound as a parameter.
    Insert { table: String, values: Vec<String> },
    /// A read of `columns`, each a column reference as written, from the rows
    /// that meet every predicate.
    Select { table: String, columns: Vec<String>, predicates: Vec<Equality> },
    Update { table: String, assignments: Vec<Equality>, predicates: Vec<Equality> },
    Drop { table: String },
}

/// The model of a `Command`.
pub enum CommandModel {
    CreateTable { table: Seq<char>, columns: Seq<ColumnModel> },
    Insert { table: Seq<char>, values: Seq<Seq<char>> },
    Select { table: Seq<char>, columns: Seq<Seq<char>>, predicates: Seq<EqualityModel> },
    Update { table: Seq<char>, assignments: Seq<EqualityModel>, predicates: Seq<EqualityModel> },
    Drop { table: Seq<char> },
}

impl View for Command {
    type V = CommandModel;

    open spec fn view(&self) -> CommandModel {
        match *self {
            Command::CreateTable { table, columns } => CommandModel::CreateTable {
                table: table@,
                columns: columns.deep_view(),
            },
            Command::Insert { table, values } => CommandModel::Insert {
                table: table@,
                values: values.deep_view(),
            },
            Command::Select { table, columns, predicates } => CommandModel::Select {
                table: table@,
                columns: columns.deep_view(),
                predicates: predicates.deep_view(),
            },
            Command::Update { table, assignments, predicates } => CommandModel::Update {
                table: table@,
                assignments: assignments.deep_view(),
                predicates: predicates.deep_view(),
            },
            Command::Drop { table } => CommandModel::Drop { table: table@ },
        }
    }
}

impl DeepView for Command {
    type V = CommandModel;

    open spec fn deep_view(&self) -> CommandModel {
        self@
    }
}

impl CommandModel {
    /// The table that the command is about.
    pub open spec fn table(self) -> Seq<char> {
        match self {
            CommandModel::CreateTable { table, .. } => table,
            CommandModel::Insert { table, .. } => table,
            CommandModel::Select { table, .. } => table,
            CommandModel::Update { table, .. } => table,
            CommandModel::Drop { table } => table,
        }
    }

    /// Whether the command passes the chaos gate: creating a table and
    /// inserting a row do, the other commands never do.
    pub open spec fn is_gated(self) -> bool {
        self is CreateTable || self is Insert
    }
}

impl Command {
    /// The table that the command is about.
    pub fn table(&self) -> (name: &str)
        ensures
            name@ == self@.table(),
    {
        match self {
            Command::CreateTable { table, .. } => table.as_str(),
            Command::Insert { table, .. } => table.as_str(),
            Command::Select { table, .. } => table.as_str(),
            Command::Update { table, .. } => table.as_str(),
            Command::Drop { table } => table.as_str(),
        }
    }

    /// Whether the command passes the chaos gate.
    pub fn is_gated(&self) -> (gated: bool)
        ensures
            gated == self@.is_gated(),
    {
        match self {
            Command::CreateTable { .. } => true,
            Command::Insert { .. } => true,
            _ => false,
        }
    }
}

} // verus!
