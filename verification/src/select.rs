//! From a base query to the query that is planned: the user's filter and a
//! fixed order are put around it, and the result goes back through the
//! parser into the pipeline.

use vstd::prelude::*;
use crate::context::{ParserError, Pipeline, PipelineError, Statement};
use crate::error::{Defect, PlanError};
use crate::text::{push_string_literal, string_literal};

verus! {

/// What a `SHOW` statement keeps of the rows of its listing.
#[derive(Clone, Debug, PartialEq, Eq)]
pub enum ShowStatementFilter {
    /// The rows whose `name` matches the pattern.
    Like(String),
    /// The rows of which the expression, given as SQL text, holds. It may
    /// name any output column of the listing.
    Where(String),
}

/// The condition that a filter stands for. No filter keeps every row.
pub open spec fn filter_condition(filter: Option<ShowStatementFilter>) -> Seq<char> {
    match filter {
        Some(ShowStatementFilter::Like(pattern)) => "name LIKE "@ + string_literal(pattern@),
        Some(ShowStatementFilter::Where(expr)) => expr@,
        None => "true"@,
    }
}

/// The query that is planned for a listing: the rows of `query` that meet
/// the filter, in ascending order of all their columns, left to right.
/// An order that `query` itself asks for has no effect on it.
pub open spec fn select_text(query: Seq<char>, filter: Option<ShowStatementFilter>) -> Seq<char> {
    "SELECT * FROM ("@ + query + ") AS q WHERE "@ + filter_condition(filter)
        + " ORDER BY q.* ASC"@
}

/// Puts the filter and the fixed order around `query`.
pub fn select_sql(query: &str, filter: &Option<ShowStatementFilter>) -> (sql: String)
    ensures
        sql@ == select_text(query@, *filter),
{
    let mut sql = String::from_str("SELECT * FROM (");
    sql.append(query);
    sql.append(") AS q WHERE ");
    match filter {
        Some(ShowStatementFilter::Like(pattern)) => {
            sql.append("name LIKE ");
            push_string_literal(&mut sql, pattern.as_str());
        },
        Some(ShowStatementFilter::Where(expr)) => {
            sql.append(expr.as_str());
        },
        None => {
            sql.append("true");
        },
    }
    sql.append(" ORDER BY q.* ASC");
    sql
}

/// What the parser's answer to a query of this crate comes to: the one
/// `SELECT` statement that it holds, or the defect that it shows.
pub open spec fn only_select<S>(parsed: Result<Vec<Statement<S>>, ParserError>) -> Result<
    S,
    Defect,
> {
    match parsed {
        Err(e) => Err(Defect::InvalidSql(e)),
        Ok(statements) => if statements@.len() != 1 {
            Err(Defect::NotOneStatement { count: statements@.len() as usize })
        } else {
            match statements@[0] {
                Statement::Select(select) => Ok(select),
                Statement::Other => Err(Defect::NotSelect),
            }
        },
    }
}

/// Takes the one `SELECT` statement out of the parser's answer, or names
/// the defect.
pub fn into_select<S>(parsed: Result<Vec<Statement<S>>, ParserError>) -> (r: Result<S, Defect>)
    ensures
        r == only_select(parsed),
{
    match parsed {
        Err(e) => Err(Defect::InvalidSql(e)),
        Ok(mut statements) => {
            let count = statements.len();
            if count != 1 {
                Err(Defect::NotOneStatement { count })
            } else {
                match statements.remove(0) {
                    Statement::Select(select) => Ok(select),
                    Statement::Other => Err(Defect::NotSelect),
                }
            }
        },
    }
}

/// The pipeline's answer as this crate hands it on: its result as it came,
/// its error as it came, marked as the pipeline's.
pub open spec fn from_pipeline<T>(answer: Result<T, PipelineError>) -> Result<
    T,
    PlanError,
> {
    match answer {
        Ok(value) => Ok(value),
        Err(e) => Err(PlanError::Pipeline(e)),
    }
}

/// An intermediate result of planning a `SHOW` statement: the query that
/// stands for it, parsed, and the context it was parsed in.
///
/// It can be asked for the shape of its result, or turned into a plan.
pub struct ShowSelect<'a, C: Pipeline> {
    scx: &'a C,
    stmt: C::Select,
}

/// Whether `made` is what becomes of the parser's answer `parsed`: the
/// `SELECT` it holds, with the context, or the defect it shows.
pub open spec fn reentered<'a, C: Pipeline>(
    scx: &'a C,
    parsed: Result<Vec<Statement<C::Select>>, ParserError>,
    made: Result<ShowSelect<'a, C>, PlanError>,
) -> bool {
    match only_select(parsed) {
        Ok(select) => made matches Ok(show) && show.context() == scx && show.statement()
            == select,
        Err(defect) => made == Err::<ShowSelect<'a, C>, PlanError>(PlanError::Defect(defect)),
    }
}

/// Whether `made` is what becomes of the query `text` when `scx` parses it.
pub open spec fn select_made<'a, C: Pipeline>(
    scx: &'a C,
    text: Seq<char>,
    made: Result<ShowSelect<'a, C>, PlanError>,
) -> bool {
    exists|sql: String, parsed: Result<Vec<Statement<C::Select>>, ParserError>|
        sql@ == text && #[trigger] call_ensures(C::parse, (scx, &sql), parsed) && reentered(
            scx,
            parsed,
            made,
        )
}

impl<'a, C: Pipeline> ShowSelect<'a, C> {
    /// The context that the query was parsed in.
    pub closed spec fn context(&self) -> &'a C {
        self.scx
    }

    /// The parsed query.
    pub closed spec fn statement(&self) -> C::Select {
        self.stmt
    }

    /// Makes a `ShowSelect` from a query that provides the base data and
    /// an optional filter on that data.
    ///
    /// A pattern is matched against the column `name`, so `query` has to
    /// put out a column of that name where a pattern may be given.
    pub fn new(scx: &'a C, query: String, filter: Option<ShowStatementFilter>) -> (made: Result<
        ShowSelect<'a, C>,
        PlanError,
    >)
        ensures
            select_made(scx, select_text(query@, filter), made),
    {
        let sql = select_sql(query.as_str(), &filter);
        let parsed = scx.parse(&sql);
        match into_select(parsed) {
            Ok(stmt) => Ok(ShowSelect { scx, stmt }),
            Err(defect) => Err(PlanError::Defect(defect)),
        }
    }

    /// Computes the shape of the result: what the pipeline's description
    /// of the parsed query, with no parameter bound, comes to.
    pub fn describe(self) -> (r: Result<C::Desc, PlanError>)
        ensures
            exists|params: Vec<C::Param>, described: Result<C::Desc, PipelineError>|
                params@.len() == 0 && #[trigger] call_ensures(
                    C::describe_select,
                    (self.context(), self.statement(), params),
                    described,
                ) && r == from_pipeline(described),
    {
        let params: Vec<C::Param> = Vec::new();
        let described = self.scx.describe_select(self.stmt, params);
        assert(call_ensures(
            C::describe_select,
            (self.context(), self.statement(), params),
            described,
        ));
        match described {
            Ok(desc) => Ok(desc),
            Err(e) => Err(PlanError::Pipeline(e)),
        }
    }

    /// Turns the query into a plan: what the pipeline's plan of the parsed
    /// query, with no parameter bound, comes to.
    pub fn handle(self) -> (r: Result<C::Plan, PlanError>)
        ensures
            exists|params: Vec<C::Param>, planned: Result<C::Plan, PipelineError>|
                params@.len() == 0 && #[trigger] call_ensures(
                    C::plan_select,
                    (self.context(), self.statement(), params),
                    planned,
                ) && r == from_pipeline(planned),
    {
        let params: Vec<C::Param> = Vec::new();
        let planned = self.scx.plan_select(self.stmt, params);
        assert(call_ensures(C::plan_select, (self.context(), self.statement(), params), planned));
        match planned {
            Ok(plan) => Ok(plan),
            Err(e) => Err(PlanError::Pipeline(e)),
        }
    }
}

} // verus!
