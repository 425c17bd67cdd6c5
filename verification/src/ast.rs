//! Parsed statements, reduced to what the translator reads of them: names as
//! lists of segments, columns, literal terms and comparisons. Every shape the
//! translator does not look into is an `Other`.

use vstd::prelude::*;

verus! {

/// An operand or a value: an identifier, a literal, or anything else.
#[derive(Clone, Debug, PartialEq, Eq)]
pub enum Term {
    /// A plain identifier, without its quotes.
    Identifier(String),
    /// A single-quoted string, without its quotes.
    Text(String),
    /// A number, as its digits.
    Number(String),
    /// Any other expression.
    Other,
}

/// The model of a `Term`.
pub enum TermModel {
    Identifier(Seq<char>),
    Text(Seq<char>),
    Number(Seq<char>),
    Other,
}

impl View for Term {
    type V = TermModel;

    open spec fn view(&self) -> TermModel {
        match *self {
            Term::Identifier(s) => TermModel::Identifier(s@),
            Term::Text(s) => TermModel::Text(s@),
            Term::Number(s) => TermModel::Number(s@),
            Term::Other => TermModel::Other,
        }
    }
}

impl DeepView for Term {
    type V = TermModel;

    open spec fn deep_view(&self) -> TermModel {
        self@
    }
}

/// The condition of a WHERE clause.
#[derive(Clone, Debug, PartialEq, Eq)]
pub enum Condition {
    /// `left <operator> right`; `equality` says whether the operator is `=`.
    Comparison { left: Term, equality: bool, right: Term },
    /// Any other expression.
    Other,
}

/// The model of a `Condition`.
pub enum ConditionModel {
    Comparison { left: TermModel, equality: bool, right: TermModel },
    Other,
}

impl View for Condition {
    type V = ConditionModel;

    open spec fn view(&self) -> ConditionModel {
        match *self {
            Condition::Comparison { left, equality, right } => ConditionModel::Comparison {
                left: left@,
                equality,
                right: right@,
            },
            Condition::Other => ConditionModel::Other,
        }
    }
}

impl DeepView for Condition {
    type V = ConditionModel;

    open spec fn deep_view(&self) -> ConditionModel {
        self@
    }
}

/// The type that a column was declared with.
#[derive(Clone, Copy, Debug, PartialEq, Eq, Structural)]
pub enum DeclaredType {
    Integer,
    Text,
    Other,
}

/// A constraint written behind a column.
#[derive(Clone, Copy, Debug, PartialEq, Eq, Structural)]
pub enum Constraint {
    NotNull,
    /// `PRIMARY KEY` where `is_primary` holds, else `UNIQUE`.
    Unique { is_primary: bool },
    Other,
}

/// A column of a CREATE TABLE statement.
#[derive(Clone, Debug, PartialEq, Eq)]
pub struct ColumnSpec {
    pub name: String,
    pub declared: DeclaredType,
    pub constraints: Vec<Constraint>,
}

/// The model of a `ColumnSpec`.
pub struct ColumnSpecModel {
    pub name: Seq<char>,
    pub declared: DeclaredType,
    pub constraints: Seq<Constraint>,
}

impl View for ColumnSpec {
    type V = ColumnSpecModel;

    open spec fn view(&self) -> ColumnSpecModel {
        ColumnSpecModel {
            name: self.name@,
            declared: self.declared,
            constraints: self.constraints@,
        }
    }
}

impl DeepView for ColumnSpec {
    type V = ColumnSpecModel;

    open spec fn deep_view(&self) -> ColumnSpecModel {
        self@
    }
}

/// One assignment of a SET clause: the target as it was written, and the
/// value.
#[derive(Clone, Debug, PartialEq, Eq)]
pub struct SetClause {
    pub target: String,
    pub value: Term,
}

/// The model of a `SetClause`.
pub struct SetClauseModel {
    pub target: Seq<char>,
    pub value: TermModel,
}

impl View for SetClause {
    type V = SetClauseModel;

    open spec fn view(&self) -> SetClauseModel {
        SetClauseModel { target: self.target@, value: self.value@ }
    }
}

impl DeepView for SetClause {
    type V = SetClauseModel;

    open spec fn deep_view(&self) -> SetClauseModel {
        self@
    }
}

/// What a statement reads from or writes to.
#[derive(Clone, Debug, PartialEq, Eq)]
pub enum TableRef {
    /// A table, by the segments of its name.
    Named(Vec<String>),
    /// Anything else: a subquery, a function, a join tree.
    Other,
}

/// The model of a `TableRef`.
pub enum TableRefModel {
    Named(Seq<Seq<char>>),
    Other,
}

impl View for TableRef {
    type V = TableRefModel;

    open spec fn view(&self) -> TableRefModel {
        match *self {
            TableRef::Named(name) => TableRefModel::Named(name.deep_view()),
            TableRef::Other => TableRefModel::Other,
        }
    }
}

impl DeepView for TableRef {
    type V = TableRefModel;

    open spec fn deep_view(&self) -> TableRefModel {
        self@
    }
}

/// Where the rows of an INSERT come from.
#[derive(Clone, Debug, PartialEq, Eq)]
pub enum RowSource {
    /// A VALUES list: the rows, each a list of terms.
    Values(Vec<Vec<Term>>),
    /// Any other query.
    Other,
    /// No source at all.
    Missing,
}

/// The model of a `RowSource`.
pub enum RowSourceModel {
    Values(Seq<Seq<TermModel>>),
    Other,
    Missing,
}

impl View for RowSource {
    type V = RowSourceModel;

    open spec fn view(&self) -> RowSourceModel {
        match *self {
            RowSource::Values(rows) => RowSourceModel::Values(rows.deep_view()),
            RowSource::Other => RowSourceModel::Other,
            RowSource::Missing => RowSourceModel::Missing,
        }
    }
}

/// The body of a query.
#[derive(Clone, Debug, PartialEq, Eq)]
pub enum QueryBody {
    /// A plain SELECT: the projected items, the sources, and the WHERE
    /// condition if there is one. A projected item that is a column
    /// reference (a name, a qualified name, `*` or a qualified `*`) stands as
    /// it was written; any other item is `None`.
    Select { projection: Vec<Option<String>>, from: Vec<TableRef>, selection: Option<Condition> },
    /// Anything else: a set operation, a VALUES list, a nested query.
    Other,
}

/// The model of a `QueryBody`.
pub enum QueryBodyModel {
    Select {
        projection: Seq<Option<Seq<char>>>,
        from: Seq<TableRefModel>,
        selection: Option<ConditionModel>,
    },
    Other,
}

impl View for QueryBody {
    type V = QueryBodyModel;

    open spec fn view(&self) -> QueryBodyModel {
        match *self {
            QueryBody::Select { projection, from, selection } => QueryBodyModel::Select {
                projection: projection.deep_view(),
                from: from.deep_view(),
                selection: selection.deep_view(),
            },
            QueryBody::Other => QueryBodyModel::Other,
        }
    }
}

/// One parsed statement.
#[derive(Clone, Debug, PartialEq, Eq)]
pub enum ParsedStatement {
    CreateTable { name: Vec<String>, columns: Vec<ColumnSpec> },
    Insert { table: Vec<String>, source: RowSource },
    Query { body: QueryBody },
    Update { table: TableRef, assignments: Vec<SetClause>, selection: Option<Condition> },
    Drop { names: Vec<Vec<String>> },
    /// Any other statement.
    Other,
}

/// The model of a `ParsedStatement`.
pub enum ParsedStatementModel {
    CreateTable { name: Seq<Seq<char>>, columns: Seq<ColumnSpecModel> },
    Insert { table: Seq<Seq<char>>, source: RowSourceModel },
    Query { body: QueryBodyModel },
    Update {
        table: TableRefModel,
        assignments: Seq<SetClauseModel>,
        selection: Option<ConditionModel>,
    },
    Drop { names: Seq<Seq<Seq<char>>> },
    Other,
}

impl View for ParsedStatement {
    type V = ParsedStatementModel;

    open spec fn view(&self) -> ParsedStatementModel {
        match *self {
            ParsedStatement::CreateTable { name, columns } => ParsedStatementModel::CreateTable {
                name: name.deep_view(),
                columns: columns.deep_view(),
            },
            ParsedStatement::Insert { table, source } => ParsedStatementModel::Insert {
                table: table.deep_view(),
                source: source@,
            },
            ParsedStatement::Query { body } => ParsedStatementModel::Query { body: body@ },
            ParsedStatement::Update { table, assignments, selection } => ParsedStatementModel::Update {
                table: table@,
                assignments: assignments.deep_view(),
                selection: selection.deep_view(),
            },
            ParsedStatement::Drop { names } => ParsedStatementModel::Drop { names: names.deep_view() },
            ParsedStatement::Other => ParsedStatementModel::Other,
        }
    }
}

impl DeepView for ParsedStatement {
    type V = ParsedStatementModel;

    open spec fn deep_view(&self) -> ParsedStatementModel {
        self@
    }
}

} // verus!
