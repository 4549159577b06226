//! Questions about traces that the dashboard asks.

use crate::json::{Fields, JsonTree, list, text, trees, uint, value_tree};
use crate::sql::{Statement, StatementView};
use crate::text::{borrowed, decimal, opt_text};
use crate::trace_db::{SELECT_TRACES, list_traces, trace_conditions, where_clause};
use serde_json::Value;
use vstd::prelude::*;

verus! {

/// The greatest number of traces that a client gets.
pub const MAX_TRACE_LIMIT: u32 = 200;

/// The parameters of a question for traces.
pub struct TraceListParams {
    pub service: Option<String>,
    pub status: Option<i32>,
    pub min_duration_ms: Option<u64>,
    pub limit: Option<u32>,
    pub offset: Option<u32>,
}

/// The number of traces that a client gets.
pub open spec fn trace_limit(limit: Option<u32>) -> u32 {
    match limit {
        Some(n) => if n > MAX_TRACE_LIMIT {
            MAX_TRACE_LIMIT
        } else {
            n
        },
        None => 50,
    }
}

/// The number of traces that are left out at the start.
pub open spec fn trace_offset(offset: Option<u32>) -> u32 {
    match offset {
        Some(n) => n,
        None => 0,
    }
}

/// Handles a question for traces: the query that counts them and the one that lists
/// them.
pub fn traces_list_handler(params: &TraceListParams) -> (r: (Statement, Statement))
    requires
        params.min_duration_ms matches Some(ms) ==> ms * 1000000 <= u64::MAX,
    ensures
        ({
            let clause = where_clause(
                trace_conditions(opt_text(params.service), params.status, params.min_duration_ms),
            );
            &&& r.0@ == StatementView::of("SELECT COUNT(*) FROM traces "@ + clause)
            &&& r.1@ == StatementView::of(
                SELECT_TRACES@ + clause + "\n         ORDER BY start_time_ns DESC\n         LIMIT "@
                    + decimal(trace_limit(params.limit) as nat) + " OFFSET "@ + decimal(
                    trace_offset(params.offset) as nat,
                ),
            )
        }),
{
    let limit: u32 = match params.limit {
        Some(n) => if n > MAX_TRACE_LIMIT {
            MAX_TRACE_LIMIT
        } else {
            n
        },
        None => 50,
    };
    let offset: u32 = match params.offset {
        Some(n) => n,
        None => 0,
    };
    list_traces(borrowed(&params.service), params.status, params.min_duration_ms, limit, offset)
}

/// No client gets more traces than the greatest number, whatever it asks for.
pub proof fn law_trace_limits_are_bounded(limit: Option<u32>)
    ensures
        trace_limit(limit) <= 200,
{
}

/// The answer to a question for traces: the traces and how many there are in all, or
/// the error.
pub fn traces_listed(found: Result<(Vec<Value>, u32), String>) -> (r: Value)
    ensures
        value_tree(r) == (match found {
            Ok(page) => JsonTree::empty().with("traces"@, JsonTree::List(trees(page.0@))).with(
                "count"@,
                JsonTree::UInt(page.1 as u64),
            ),
            Err(error) => JsonTree::empty().with("traces"@, JsonTree::List(Seq::empty())).with(
                "count"@,
                JsonTree::UInt(0),
            ).text("error"@, error@),
        }),
{
    match found {
        Ok(page) => Fields::new().with("traces", list(page.0)).with(
            "count",
            uint(page.1 as u64),
        ).done(),
        Err(error) => {
            let none: Vec<Value> = Vec::new();
            assert(trees(none@) =~= Seq::empty());
            Fields::new().with("traces", list(none)).with("count", uint(0)).text(
                "error",
                error.as_str(),
            ).done()
        },
    }
}

/// The answer to a question for a trace: the trace with its spans, or the error. A
/// trace that is not there is an error of its own.
pub fn trace_detail_handler(found: Result<(Option<Value>, Vec<Value>), String>) -> (r: Value)
    ensures
        value_tree(r) == (match found {
            Ok((Some(trace), spans)) => JsonTree::empty().with("trace"@, value_tree(trace)).with(
                "spans"@,
                JsonTree::List(trees(spans@)),
            ),
            Ok((None, _)) => JsonTree::empty().text("error"@, "trace not found"@),
            Err(error) => JsonTree::empty().text("error"@, error@),
        }),
{
    match found {
        Ok((trace, spans)) => match trace {
            Some(trace) => Fields::new().with("trace", trace).with("spans", list(spans)).done(),
            None => Fields::new().text("error", "trace not found").done(),
        },
        Err(error) => Fields::new().text("error", error.as_str()).done(),
    }
}

} // verus!
