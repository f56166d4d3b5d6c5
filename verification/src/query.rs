//! Base queries: the columns that a query puts out, the relation of the
//! system catalog that it reads, and the condition that it reads it under.

use vstd::prelude::*;

verus! {

/// One output column of a query.
#[derive(Clone, Copy, Debug, PartialEq, Eq)]
pub enum Column {
    /// A column of the relation, put out under its own name.
    Plain { name: &'static str },
    /// An expression, put out under the given name.
    Derived { expr: &'static str, name: &'static str },
}

impl Column {
    /// The name under which the column appears in the result.
    pub open spec fn name(self) -> Seq<char> {
        match self {
            Column::Plain { name } => name@,
            Column::Derived { name, .. } => name@,
        }
    }

    /// The column as an item of a select list.
    pub open spec fn text(self) -> Seq<char> {
        match self {
            Column::Plain { name } => name@,
            Column::Derived { expr, name } => expr@ + " AS "@ + name@,
        }
    }

    /// The name under which the column appears in the result.
    pub fn output_name(&self) -> (s: &'static str)
        ensures
            s@ == self.name(),
    {
        match *self {
            Column::Plain { name } => name,
            Column::Derived { name, .. } => name,
        }
    }

    /// Appends the column, as an item of a select list, to `out`.
    pub fn push_to(&self, out: &mut String)
        ensures
            final(out)@ == old(out)@ + self.text(),
    {
        match *self {
            Column::Plain { name } => out.append(name),
            Column::Derived { expr, name } => {
                out.append(expr);
                out.append(" AS ");
                out.append(name);
            },
        }
    }
}

/// The names of the given columns, in order.
pub open spec fn column_names(columns: Seq<Column>) -> Seq<Seq<char>> {
    columns.map_values(|c: Column| c.name())
}

/// The select list of the given columns: their texts, separated by `, `.
pub open spec fn select_list(columns: Seq<Column>) -> Seq<char>
    decreases columns.len(),
{
    if columns.len() == 0 {
        Seq::empty()
    } else if columns.len() == 1 {
        columns[0].text()
    } else {
        select_list(columns.drop_last()) + ", "@ + columns.last().text()
    }
}

/// What a modifier does to the condition of a listing: nothing, or it
/// joins one more test to it.
#[derive(Clone, Copy, Debug, PartialEq, Eq)]
pub enum Modifier {
    /// The condition is the test of the scope alone.
    Alone,
    /// A row is kept if it meets the test of the scope or this one.
    Or(&'static str),
    /// A row is kept if it meets the test of the scope and this one.
    And(&'static str),
}

impl Modifier {
    /// Whether a row is kept, given whether it meets the test of the scope
    /// and whether it meets the joined test.
    pub open spec fn combined(self, in_scope: bool, joined: bool) -> bool {
        match self {
            Modifier::Alone => in_scope,
            Modifier::Or(_) => in_scope || joined,
            Modifier::And(_) => in_scope && joined,
        }
    }

    /// Whether a row is kept, given whether it meets the test of the scope
    /// and whether it meets the joined test.
    pub fn combine(&self, in_scope: bool, joined: bool) -> (kept: bool)
        ensures
            kept == self.combined(in_scope, joined),
    {
        match *self {
            Modifier::Alone => in_scope,
            Modifier::Or(_) => in_scope || joined,
            Modifier::And(_) => in_scope && joined,
        }
    }
}

/// For each test, given as SQL text, whether it holds: what a row of a
/// relation comes to, as far as a condition can tell.
pub type Truth = spec_fn(Seq<char>) -> bool;

/// What a condition is, apart from how its text is held in memory.
pub struct ConditionView {
    pub scope: Seq<char>,
    pub modifier: Modifier,
}

impl ConditionView {
    /// The condition as SQL text.
    pub open spec fn text(self) -> Seq<char> {
        match self.modifier {
            Modifier::Alone => self.scope,
            Modifier::Or(test) => self.scope + " OR "@ + test@,
            Modifier::And(test) => self.scope + " AND "@ + test@,
        }
    }

    /// Whether the condition keeps a row of which the tests come out as
    /// `row` says.
    pub open spec fn holds(self, row: Truth) -> bool {
        match self.modifier {
            Modifier::Alone => self.modifier.combined(row(self.scope), true),
            Modifier::Or(test) => self.modifier.combined(row(self.scope), row(test@)),
            Modifier::And(test) => self.modifier.combined(row(self.scope), row(test@)),
        }
    }
}

/// The condition of a base query: the test that picks out what lies in the
/// scope of the listing, and what a modifier joins to it.
#[derive(Clone, Debug, PartialEq, Eq)]
pub struct Condition {
    /// The test of the scope, as SQL text.
    pub scope: String,
    pub modifier: Modifier,
}

impl View for Condition {
    type V = ConditionView;

    open spec fn view(&self) -> ConditionView {
        ConditionView { scope: self.scope@, modifier: self.modifier }
    }
}

impl Condition {
    /// Appends the condition, as SQL text, to `out`.
    pub fn push_to(&self, out: &mut String)
        ensures
            final(out)@ == old(out)@ + self@.text(),
    {
        out.append(self.scope.as_str());
        match self.modifier {
            Modifier::Alone => {},
            Modifier::Or(test) => {
                out.append(" OR ");
                out.append(test);
            },
            Modifier::And(test) => {
                out.append(" AND ");
                out.append(test);
            },
        }
    }
}

/// What an optional condition is, apart from how its text is held.
pub open spec fn condition_view(condition: Option<Condition>) -> Option<ConditionView> {
    match condition {
        Some(condition) => Some(condition@),
        None => None,
    }
}

/// What a base query is, apart from how its parts are held in memory.
pub struct BaseQueryView {
    pub columns: Seq<Column>,
    pub relation: Seq<char>,
    pub condition: Option<ConditionView>,
}

impl BaseQueryView {
    /// The query as SQL text.
    pub open spec fn text(self) -> Seq<char> {
        let head = "SELECT "@ + select_list(self.columns) + " FROM "@ + self.relation;
        match self.condition {
            Some(condition) => head + " WHERE "@ + condition.text(),
            None => head,
        }
    }
}

/// A query over the system catalog that a listing starts from.
#[derive(Clone, Debug, PartialEq, Eq)]
pub struct BaseQuery {
    /// The output columns, left to right.
    pub columns: Vec<Column>,
    /// What stands after `FROM`.
    pub relation: &'static str,
    /// What stands after `WHERE`, if the query has a condition.
    pub condition: Option<Condition>,
}

impl View for BaseQuery {
    type V = BaseQueryView;

    open spec fn view(&self) -> BaseQueryView {
        BaseQueryView {
            columns: self.columns@,
            relation: self.relation@,
            condition: condition_view(self.condition),
        }
    }
}

impl BaseQuery {
    /// The query as SQL text.
    pub fn render(&self) -> (sql: String)
        ensures
            sql@ == self@.text(),
    {
        let mut sql = String::from_str("SELECT ");
        let ghost head = sql@;
        let mut i: usize = 0;
        while i < self.columns.len()
            invariant
                i <= self.columns.len(),
                sql@ == head + select_list(self.columns@.take(i as int)),
            decreases self.columns.len() - i,
        {
            if i > 0 {
                sql.append(", ");
            }
            self.columns[i].push_to(&mut sql);
            proof {
                let before = self.columns@.take(i as int);
                let after = self.columns@.take(i + 1);
                assert(after.drop_last() == before);
            }
            i += 1;
        }
        assert(self.columns@.take(i as int) == self.columns@);
        sql.append(" FROM ");
        sql.append(self.relation);
        match &self.condition {
            Some(condition) => {
                sql.append(" WHERE ");
                condition.push_to(&mut sql);
            },
            None => {},
        }
        sql
    }
}

} // verus!
