//! Decoding of the service's reply into a table or an error.
//!
//! The reply is a JSON object `{"code": ..., "msg": ..., "data": {"fields":
//! [...], "items": [[...], ...]}}`. A non-zero code is a service error
//! carrying `msg`; a zero code must come with well-formed tabular data, and
//! anything else is a parse error.

use crate::error::ErrorModel;
use crate::error::TushareError;
use crate::json::bool_of;
use crate::json::doc_of;
use crate::json::elems_of;
use crate::json::get_member;
use crate::json::int_of;
use crate::json::member_of;
use crate::json::null_of;
use crate::json::number_of;
use crate::json::parse_document;
use crate::json::str_of;
use crate::json::text_of;
use crate::json::value_text;
use crate::table::rows_view;
use crate::table::strs_view;
use crate::table::Table;
use crate::table::TableModel;
use vstd::prelude::*;

verus! {

/// The one parse-failure outcome: the service said yes but sent a payload
/// that does not decode to a table.
pub open spec fn parse_err() -> ErrorModel {
    ErrorModel::Parse("malformed response body"@)
}

/// The error message of a non-success reply: its `msg` member when that is
/// a string, empty otherwise.
pub open spec fn msg_model(v: serde_json::Value) -> Seq<char> {
    match member_of(v, "msg"@) {
        Some(m) => match str_of(m) {
            Some(s) => s,
            None => Seq::empty(),
        },
        None => Seq::empty(),
    }
}

/// The text of one table cell: a string stands as itself, a boolean as
/// `true` or `false`, null as the empty text, a number as its JSON text;
/// nested arrays and objects have no cell text.
pub open spec fn cell_model(v: serde_json::Value) -> Option<Seq<char>> {
    match str_of(v) {
        Some(s) => Some(s),
        None => match bool_of(v) {
            Some(b) => Some(if b {
                "true"@
            } else {
                "false"@
            }),
            None => if null_of(v) {
                Some(Seq::empty())
            } else if number_of(v) {
                Some(text_of(v))
            } else {
                None
            },
        },
    }
}

/// The cell texts of the row elements from position `i` on; nothing if any
/// element has no cell text.
pub open spec fn cells_model(cs: Seq<serde_json::Value>, i: int) -> Option<Seq<Seq<char>>>
    decreases cs.len() - i,
{
    if i < 0 || i >= cs.len() {
        Some(Seq::empty())
    } else {
        match cell_model(cs[i]) {
            None => None,
            Some(t) => match cells_model(cs, i + 1) {
                None => None,
                Some(rest) => Some(seq![t] + rest),
            },
        }
    }
}

/// The column names from position `i` on; nothing if any is not a string.
pub open spec fn cols_model(fs: Seq<serde_json::Value>, i: int) -> Option<Seq<Seq<char>>>
    decreases fs.len() - i,
{
    if i < 0 || i >= fs.len() {
        Some(Seq::empty())
    } else {
        match str_of(fs[i]) {
            None => None,
            Some(s) => match cols_model(fs, i + 1) {
                None => None,
                Some(rest) => Some(seq![s] + rest),
            },
        }
    }
}

/// The decoded rows from position `i` on; nothing if any row is not an
/// array, has a cell without text, or has not exactly `ncols` cells.
pub open spec fn rows_model(items: Seq<serde_json::Value>, ncols: nat, i: int) -> Option<
    Seq<Seq<Seq<char>>>,
>
    decreases items.len() - i,
{
    if i < 0 || i >= items.len() {
        Some(Seq::empty())
    } else {
        match elems_of(items[i]) {
            None => None,
            Some(cells) => match cells_model(cells, 0) {
                None => None,
                Some(ts) => if ts.len() == ncols {
                    match rows_model(items, ncols, i + 1) {
                        None => None,
                        Some(rest) => Some(seq![ts] + rest),
                    }
                } else {
                    None
                },
            },
        }
    }
}

/// What a parsed reply decodes to: the service error it reports, the table
/// it carries, or the one parse-failure outcome.
pub open spec fn reply_model(v: serde_json::Value) -> Result<TableModel, ErrorModel> {
    match member_of(v, "code"@) {
        None => Err(parse_err()),
        Some(code_v) => match int_of(code_v) {
            None => Err(parse_err()),
            Some(code) => if code != 0 {
                Err(ErrorModel::Service(msg_model(v)))
            } else {
                match member_of(v, "data"@) {
                    None => Err(parse_err()),
                    Some(d) => match member_of(d, "fields"@) {
                        None => Err(parse_err()),
                        Some(f) => match elems_of(f) {
                            None => Err(parse_err()),
                            Some(fs) => match cols_model(fs, 0) {
                                None => Err(parse_err()),
                                Some(cols) => match member_of(d, "items"@) {
                                    None => Err(parse_err()),
                                    Some(item_v) => match elems_of(item_v) {
                                        None => Err(parse_err()),
                                        Some(items) => match rows_model(items, cols.len(), 0) {
                                            None => Err(parse_err()),
                                            Some(rows) => Ok(
                                                (TableModel { columns: cols, rows: rows }),
                                            ),
                                        },
                                    },
                                },
                            },
                        },
                    },
                }
            },
        },
    }
}

/// What a reply body text decodes to: a parse failure when it is not JSON,
/// else what its parsed value decodes to.
pub open spec fn reply_outcome(s: Seq<char>) -> Result<TableModel, ErrorModel> {
    match doc_of(s) {
        None => Err(parse_err()),
        Some(v) => reply_model(v),
    }
}

/// The model of an executable decoding result.
pub open spec fn result_model(r: Result<Table, TushareError>) -> Result<TableModel, ErrorModel> {
    match r {
        Ok(t) => Ok(t@),
        Err(e) => Err(e@),
    }
}

/// A decoded row set has exactly `ncols` cells in every row.
proof fn lemma_rows_model_wf(items: Seq<serde_json::Value>, ncols: nat, i: int)
    requires
        rows_model(items, ncols, i) is Some,
    ensures
        (match rows_model(items, ncols, i) {
            Some(rs) => forall|j: int| 0 <= j < rs.len() ==> (#[trigger] rs[j]).len() == ncols,
            None => true,
        }),
    decreases items.len() - i,
{
    if 0 <= i < items.len() {
        lemma_rows_model_wf(items, ncols, i + 1);
    }
}

/// The parse-failure error value.
fn parse_error() -> (r: TushareError)
    ensures
        r@ == parse_err(),
{
    TushareError::Parse("malformed response body".to_owned())
}

/// The cell text of one value, as [`cell_model`] gives it.
fn cell_string(v: &serde_json::Value) -> (r: Option<String>)
    ensures
        (match r {
            Some(s) => cell_model(*v) == Some(s@),
            None => cell_model(*v) is None,
        }),
{
    match v.as_str() {
        Some(s) => Some(s.to_owned()),
        None => match v.as_bool() {
            Some(b) => Some(if b {
                "true".to_owned()
            } else {
                "false".to_owned()
            }),
            None => if v.is_null() {
                Some(String::new())
            } else if v.is_number() {
                Some(value_text(v))
            } else {
                None
            },
        },
    }
}

/// The cell texts of the elements from position `i` on.
fn collect_cells(cs: &Vec<serde_json::Value>, i: usize) -> (r: Option<Vec<String>>)
    requires
        i <= cs.len(),
    ensures
        (match r {
            Some(out) => cells_model(cs@, i as int) == Some(strs_view(out@)),
            None => cells_model(cs@, i as int) is None,
        }),
    decreases cs.len() - i,
{
    if i == cs.len() {
        let out: Vec<String> = Vec::new();
        proof {
            assert(strs_view(out@) =~= Seq::<Seq<char>>::empty());
        }
        Some(out)
    } else {
        match cell_string(&cs[i]) {
            None => None,
            Some(t) => match collect_cells(cs, i + 1) {
                None => None,
                Some(mut rest) => {
                    let ghost rest0 = rest@;
                    let ghost tv = t@;
                    rest.insert(0, t);
                    proof {
                        assert(strs_view(rest@) =~= seq![tv] + strs_view(rest0));
                    }
                    Some(rest)
                },
            },
        }
    }
}

/// The column names from position `i` on.
fn collect_cols(fs: &Vec<serde_json::Value>, i: usize) -> (r: Option<Vec<String>>)
    requires
        i <= fs.len(),
    ensures
        (match r {
            Some(out) => cols_model(fs@, i as int) == Some(strs_view(out@)),
            None => cols_model(fs@, i as int) is None,
        }),
    decreases fs.len() - i,
{
    if i == fs.len() {
        let out: Vec<String> = Vec::new();
        proof {
            assert(strs_view(out@) =~= Seq::<Seq<char>>::empty());
        }
        Some(out)
    } else {
        match fs[i].as_str() {
            None => None,
            Some(s) => match collect_cols(fs, i + 1) {
                None => None,
                Some(mut rest) => {
                    let t = s.to_owned();
                    let ghost rest0 = rest@;
                    let ghost tv = t@;
                    rest.insert(0, t);
                    proof {
                        assert(strs_view(rest@) =~= seq![tv] + strs_view(rest0));
                    }
                    Some(rest)
                },
            },
        }
    }
}

/// The decoded rows from position `i` on.
fn collect_rows(items: &Vec<serde_json::Value>, ncols: usize, i: usize) -> (r: Option<
    Vec<Vec<String>>,
>)
    requires
        i <= items.len(),
    ensures
        (match r {
            Some(out) => rows_model(items@, ncols as nat, i as int) == Some(rows_view(out@)),
            None => rows_model(items@, ncols as nat, i as int) is None,
        }),
    decreases items.len() - i,
{
    if i == items.len() {
        let out: Vec<Vec<String>> = Vec::new();
        proof {
            assert(rows_view(out@) =~= Seq::<Seq<Seq<char>>>::empty());
        }
        Some(out)
    } else {
        match items[i].as_array() {
            None => None,
            Some(cells) => match collect_cells(cells, 0) {
                None => None,
                Some(row) => {
                    if row.len() == ncols {
                        match collect_rows(items, ncols, i + 1) {
                            None => None,
                            Some(mut rest) => {
                                let ghost rest0 = rest@;
                                let ghost rv = strs_view(row@);
                                rest.insert(0, row);
                                proof {
                                    assert(rows_view(rest@) =~= seq![rv] + rows_view(rest0));
                                }
                                Some(rest)
                            },
                        }
                    } else {
                        None
                    }
                },
            },
        }
    }
}

/// Decodes one parsed reply value, exactly as [`reply_model`] says: the
/// reported service error verbatim, the carried table, or a parse error.
pub fn interpret_reply(v: &serde_json::Value) -> (r: Result<Table, TushareError>)
    ensures
        result_model(r) == reply_model(*v),
        (match r {
            Ok(t) => t@.wf(),
            Err(_) => true,
        }),
{
    let code_v = match get_member(v, "code") {
        None => {
            return Err(parse_error());
        },
        Some(c) => c,
    };
    let code = match code_v.as_i64() {
        None => {
            return Err(parse_error());
        },
        Some(c) => c,
    };
    if code != 0 {
        let msg = match get_member(v, "msg") {
            Some(m) => match m.as_str() {
                Some(s) => s.to_owned(),
                None => String::new(),
            },
            None => String::new(),
        };
        return Err(TushareError::Service(msg));
    }
    let data = match get_member(v, "data") {
        None => {
            return Err(parse_error());
        },
        Some(d) => d,
    };
    let fields = match get_member(data, "fields") {
        None => {
            return Err(parse_error());
        },
        Some(f) => f,
    };
    let fs = match fields.as_array() {
        None => {
            return Err(parse_error());
        },
        Some(a) => a,
    };
    let columns = match collect_cols(fs, 0) {
        None => {
            return Err(parse_error());
        },
        Some(c) => c,
    };
    let item_v = match get_member(data, "items") {
        None => {
            return Err(parse_error());
        },
        Some(iv) => iv,
    };
    let items = match item_v.as_array() {
        None => {
            return Err(parse_error());
        },
        Some(a) => a,
    };
    let rows = match collect_rows(items, columns.len(), 0) {
        None => {
            return Err(parse_error());
        },
        Some(rs) => rs,
    };
    proof {
        lemma_rows_model_wf(items@, columns@.len() as nat, 0);
    }
    Ok(Table { columns, rows })
}

/// Decodes one reply body text, exactly as [`reply_outcome`] says.
pub fn handle_reply(reply: &str) -> (r: Result<Table, TushareError>)
    ensures
        result_model(r) == reply_outcome(reply@),
        (match r {
            Ok(t) => t@.wf(),
            Err(_) => true,
        }),
{
    match parse_document(reply) {
        None => Err(parse_error()),
        Some(v) => interpret_reply(&v),
    }
}

} // verus!
