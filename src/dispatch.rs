//! Answers to the host's calls: `ping`, `call` and `shutdown`.
use vstd::prelude::*;
use crate::column::{kind_name, Column, ColumnType, ColumnValue};
use crate::context::{decode_context, json_decode_error, QueryContext};
use crate::plugin::{row_is_map, Row, TableColumns, TablePlugin, TableRows};
use crate::status::{
    is_application, is_protocol, lemma_push_mapped, payload_view, wire_is_map, success_status, wire_view, ApplicationErrorKind,
    Error, ExtensionResponse, ExtensionStatus, ProtocolErrorKind, WireMap, EXT_SUCCESS,
};

verus! {

/// The value of the first entry of `m` under `key`.
pub open spec fn lookup(m: Seq<(String, String)>, key: Seq<char>) -> Option<Seq<char>>
    decreases m.len(),
{
    if m.len() == 0 {
        None
    } else if m[0].0@ == key {
        Some(m[0].1@)
    } else {
        lookup(m.drop_first(), key)
    }
}

/// The value of a request's field.
pub fn request_field(request: &WireMap, key: &str) -> (r: Option<String>)
    ensures
        match r {
            Some(v) => lookup(request@, key@) == Some(v@),
            None => lookup(request@, key@) is None,
        },
{
    let k = String::from_str(key);
    let mut i: usize = 0;
    proof {
        assert(request@.subrange(0, request@.len() as int) =~= request@);
    }
    while i < request.len()
        invariant
            i <= request.len(),
            k@ == key@,
            lookup(request@, key@) == lookup(request@.subrange(i as int, request@.len() as int), key@),
        decreases request.len() - i,
    {
        if request[i].0 == k {
            return Some(request[i].1.clone());
        }
        proof {
            assert(request@.subrange(i as int, request@.len() as int).drop_first()
                =~= request@.subrange(i + 1, request@.len() as int));
        }
        i = i + 1;
    }
    None
}

/// The message for a call that lacks a field.
pub open spec fn missing_field_message(item: Seq<char>, field: Seq<char>) -> Seq<char> {
    "request to `"@ + item + "` missing required field `"@ + field + "`"@
}

/// The message for a context that does not decode.
pub open spec fn context_error_message(error: Seq<char>, context: Seq<char>) -> Seq<char> {
    "got error deserializing context: "@ + error + "\n"@ + context
}

/// The message for an action that a table does not have.
pub open spec fn unsupported_message(action: Seq<char>) -> Seq<char> {
    "action `"@ + action + "` not supported on plugin type `table`"@
}

/// What a call turns into, decided from its item name and request alone.
pub enum CallPlan {
    /// A required field is missing or does not decode: an application
    /// error of kind `ProtocolError` with this message.
    Invalid(Seq<char>),
    /// The action is not one a table has: a protocol error of kind
    /// `NotImplemented` with this message.
    Unsupported(Seq<char>),
    Generate,
    Columns,
}

/// The plan of a call: `action` is required; `generate` also requires a
/// `context` that decodes; `columns` needs nothing more; any other action is
/// not implemented.
pub open spec fn call_plan(item: Seq<char>, request: Seq<(String, String)>) -> CallPlan {
    match lookup(request, "action"@) {
        None => CallPlan::Invalid(missing_field_message(item, "action"@)),
        Some(action) => if action == "generate"@ {
            match lookup(request, "context"@) {
                None => CallPlan::Invalid(missing_field_message(item, "context"@)),
                Some(context) => match json_decode_error(context) {
                    Some(e) => CallPlan::Invalid(context_error_message(e, context)),
                    None => CallPlan::Generate,
                },
            }
        } else if action == "columns"@ {
            CallPlan::Columns
        } else {
            CallPlan::Unsupported(unsupported_message(action))
        },
    }
}

/// A call the runtime can carry out.
pub enum Action {
    Generate(QueryContext),
    Columns,
}

/// Whether `r` is what `plan` calls for.
pub open spec fn follows_plan(plan: CallPlan, r: Result<Action, Error>) -> bool {
    match plan {
        CallPlan::Invalid(message) => r matches Err(e) && is_application(
            e,
            ApplicationErrorKind::ProtocolError,
            message,
        ),
        CallPlan::Unsupported(message) => r matches Err(e) && is_protocol(
            e,
            ProtocolErrorKind::NotImplemented,
            message,
        ),
        CallPlan::Generate => r matches Ok(Action::Generate(_)),
        CallPlan::Columns => r matches Ok(Action::Columns),
    }
}

/// The fault for a context that does not decode.
pub fn context_fault(error: &str, context: &str) -> (r: Error)
    ensures
        is_application(r, ApplicationErrorKind::ProtocolError, context_error_message(error@, context@)),
{
    let mut m = String::from_str("got error deserializing context: ");
    m.append(error);
    m.append("\n");
    m.append(context);
    Error::Application { kind: ApplicationErrorKind::ProtocolError, message: m }
}

fn missing_field(item: &str, field: &str) -> (r: Error)
    ensures
        is_application(r, ApplicationErrorKind::ProtocolError, missing_field_message(item@, field@)),
{
    let mut m = String::from_str("request to `");
    m.append(item);
    m.append("` missing required field `");
    m.append(field);
    m.append("`");
    Error::Application { kind: ApplicationErrorKind::ProtocolError, message: m }
}

fn unsupported(action: &str) -> (r: Error)
    ensures
        is_protocol(r, ProtocolErrorKind::NotImplemented, unsupported_message(action@)),
{
    let mut m = String::from_str("action `");
    m.append(action);
    m.append("` not supported on plugin type `table`");
    Error::Protocol { kind: ProtocolErrorKind::NotImplemented, message: m }
}

/// Reads a call's request: which action it asks for, with its decoded
/// context, or the fault that ends it.
pub fn plan_call(item: &str, request: &WireMap) -> (r: Result<Action, Error>)
    ensures
        follows_plan(call_plan(item@, request@), r),
{
    let action = match request_field(request, "action") {
        Some(a) => a,
        None => return Err(missing_field(item, "action")),
    };
    if action == String::from_str("generate") {
        let context = match request_field(request, "context") {
            Some(c) => c,
            None => return Err(missing_field(item, "context")),
        };
        match decode_context(context.as_str()) {
            Ok(query) => Ok(Action::Generate(query)),
            Err(e) => Err(context_fault(e.as_str(), context.as_str())),
        }
    } else if action == String::from_str("columns") {
        Ok(Action::Columns)
    } else {
        Err(unsupported(action.as_str()))
    }
}


/// A row as the wire carries it: each name with its value's text.
pub open spec fn row_wire(row: Seq<(String, ColumnValue)>) -> Seq<(Seq<char>, Seq<char>)> {
    row.map_values(|p: (String, ColumnValue)| (p.0@, p.1.spec_text()))
}

/// The descriptor of a column in a `columns` answer.
pub open spec fn column_entry(c: Column) -> Seq<(Seq<char>, Seq<char>)> {
    seq![("name"@, c.name@), ("type"@, kind_name(c.kind))]
}

/// A successful response whose payload reads as `payload`.
pub open spec fn is_success_with(
    r: Result<ExtensionResponse, Error>,
    payload: Seq<Seq<(Seq<char>, Seq<char>)>>,
) -> bool {
    match r {
        Ok(resp) => match (resp.status, resp.response) {
            (Some(s), Some(p)) => s.is_plain_success() && payload_view(p) == payload,
            _ => false,
        },
        Err(_) => false,
    }
}

/// Whether `r` answers a `generate` call whose plugin gave `g`.
pub open spec fn generate_answer(g: Result<TableRows, String>, r: Result<ExtensionResponse, Error>) -> bool {
    match g {
        Ok(rows) => is_success_with(r, rows@.map_values(|row: Row| row_wire(row@))),
        Err(m) => r matches Err(e) && is_application(e, ApplicationErrorKind::InternalError, m@),
    }
}

/// Whether `r` answers a `columns` call whose plugin gave `c`.
pub open spec fn columns_answer(c: Result<TableColumns, String>, r: Result<ExtensionResponse, Error>) -> bool {
    match c {
        Ok(cols) => is_success_with(r, cols@.map_values(|col: Column| column_entry(col))),
        Err(m) => r matches Err(e) && is_application(e, ApplicationErrorKind::InternalError, m@),
    }
}

/// A row's wire form keeps its names, so it is a map exactly when the row is.
proof fn lemma_row_wire_names(row: Seq<(String, ColumnValue)>)
    ensures
        row_is_map(row) <==> wire_is_map(row_wire(row)),
{
    let w = row_wire(row);
    assert(w.len() == row.len());
    if row_is_map(row) {
        assert forall|i: int, j: int| 0 <= i < j < w.len() implies w[i].0 != w[j].0 by {
            assert(w[i].0 == row[i].0@);
            assert(w[j].0 == row[j].0@);
        }
    }
    if wire_is_map(w) {
        assert forall|i: int, j: int| 0 <= i < j < row.len() implies row[i].0@ != row[j].0@ by {
            assert(w[i].0 == row[i].0@);
            assert(w[j].0 == row[j].0@);
        }
    }
}

/// Whether every row that the plugin gave as a map is a map in the payload
/// of the response `r`.
pub open spec fn rows_stay_maps(g: Result<TableRows, String>, r: Result<ExtensionResponse, Error>) -> bool {
    match (g, r) {
        (Ok(rows), Ok(resp)) => match resp.response {
            Some(p) => p@.len() == rows@.len() && forall|k: int| 0 <= k < p@.len() ==> (row_is_map(
                #[trigger] rows@[k]@,
            ) <==> wire_is_map(wire_view(p@[k]))),
            None => false,
        },
        _ => true,
    }
}

/// A row in the wire's string-keyed form.
pub fn row_to_wire(row: &Row) -> (r: WireMap)
    ensures
        wire_view(r) == row_wire(row@),
        row_is_map(row@) <==> wire_is_map(wire_view(r)),
{
    let mut out: WireMap = Vec::new();
    let mut i: usize = 0;
    while i < row.len()
        invariant
            i <= row.len(),
            out@.len() == i,
            wire_view(out) == row_wire(row@.subrange(0, i as int)),
        decreases row.len() - i,
    {
        let name = row[i].0.clone();
        let text = row[i].1.to_string();
        proof {
            lemma_push_mapped(
                out@,
                (name, text),
                row@,
                i as int,
                |p: (String, String)| (p.0@, p.1@),
                |p: (String, ColumnValue)| (p.0@, p.1.spec_text()),
            );
        }
        out.push((name, text));
        i = i + 1;
    }
    proof {
        assert(row@.subrange(0, row@.len() as int) =~= row@);
        lemma_row_wire_names(row@);
    }
    out
}

/// A column's descriptor: its name under `name`, its kind's wire name under `type`.
pub fn column_to_wire(c: &Column) -> (r: WireMap)
    ensures
        wire_view(r) == column_entry(*c),
{
    let (name, kind) = c.to_pair();
    let mut out: WireMap = Vec::new();
    out.push((String::from_str("name"), name));
    out.push((String::from_str("type"), kind));
    proof {
        assert(wire_view(out) =~= column_entry(*c));
    }
    out
}

/// The response to a `generate` call, from what the plugin gave: every row in
/// order, each value as its text; a plugin failure becomes an internal error
/// carrying the plugin's message.
pub fn generate_response(g: Result<TableRows, String>) -> (r: Result<ExtensionResponse, Error>)
    ensures
        generate_answer(g, r),
        rows_stay_maps(g, r),
{
    match g {
        Ok(rows) => {
            let mut out: Vec<WireMap> = Vec::new();
            let mut i: usize = 0;
            while i < rows.len()
                invariant
                    i <= rows.len(),
                    out@.len() == i,
                    payload_view(out) == rows@.subrange(0, i as int).map_values(|row: Row| row_wire(row@)),
                decreases rows.len() - i,
            {
                let w = row_to_wire(&rows[i]);
                proof {
                    lemma_push_mapped(out@, w, rows@, i as int, |m: WireMap| wire_view(m), |row: Row| row_wire(row@));
                }
                out.push(w);
                i = i + 1;
            }
            proof {
                assert(rows@.subrange(0, rows@.len() as int) =~= rows@);
                assert(payload_view(out).len() == out@.len());
                assert forall|k: int| 0 <= k < out@.len() implies (row_is_map(#[trigger] rows@[k]@)
                    <==> wire_is_map(wire_view(out@[k]))) by {
                    assert(payload_view(out)[k] == wire_view(out@[k]));
                    assert(rows@.map_values(|row: Row| row_wire(row@))[k] == row_wire(rows@[k]@));
                    lemma_row_wire_names(rows@[k]@);
                }
            }
            Ok(ExtensionResponse { status: Some(success_status()), response: Some(out) })
        },
        Err(m) => Err(Error::Application { kind: ApplicationErrorKind::InternalError, message: m }),
    }
}

/// The response to a `columns` call, from what the plugin gave: one
/// descriptor per column, in order; a plugin failure becomes an internal
/// error carrying the plugin's message.
pub fn columns_response(c: Result<TableColumns, String>) -> (r: Result<ExtensionResponse, Error>)
    ensures
        columns_answer(c, r),
{
    match c {
        Ok(cols) => {
            let mut out: Vec<WireMap> = Vec::new();
            let mut i: usize = 0;
            while i < cols.len()
                invariant
                    i <= cols.len(),
                    out@.len() == i,
                    payload_view(out) == cols@.subrange(0, i as int).map_values(|col: Column| column_entry(col)),
                decreases cols.len() - i,
            {
                let w = column_to_wire(&cols[i]);
                proof {
                    lemma_push_mapped(out@, w, cols@, i as int, |m: WireMap| wire_view(m), |col: Column| column_entry(col));
                }
                out.push(w);
                i = i + 1;
            }
            proof {
                assert(cols@.subrange(0, cols@.len() as int) =~= cols@);
            }
            Ok(ExtensionResponse { status: Some(success_status()), response: Some(out) })
        },
        Err(m) => Err(Error::Application { kind: ApplicationErrorKind::InternalError, message: m }),
    }
}

/// Answers a ping: success with the message `OK`, whatever the plugin's state.
pub fn handle_ping() -> (r: ExtensionStatus)
    ensures
        r.code == Some(EXT_SUCCESS),
        r.message matches Some(m) && m@ == "OK"@,
        r.uuid is None,
{
    ExtensionStatus { code: Some(EXT_SUCCESS), message: Some(String::from_str("OK")), uuid: None }
}

/// Answers a call addressed to the table `item`. A fault of the request is
/// answered without asking the plugin anything; `columns` asks only for the
/// schema and `generate` only for rows.
pub fn handle_call<T: TablePlugin>(plugin: &T, registry: &str, item: &str, request: &WireMap) -> (r: Result<ExtensionResponse, Error>)
    ensures
        match call_plan(item@, request@) {
            CallPlan::Invalid(message) => r matches Err(e) && is_application(
            e,
            ApplicationErrorKind::ProtocolError,
            message,
        ),
        CallPlan::Unsupported(message) => r matches Err(e) && is_protocol(
            e,
            ProtocolErrorKind::NotImplemented,
            message,
        ),
            CallPlan::Generate => exists|g: Result<TableRows, String>| generate_answer(g, r),
            CallPlan::Columns => exists|c: Result<TableColumns, String>| columns_answer(c, r),
        },
        lookup(request@, "action"@) is None ==> (r matches Err(e) && is_application(
            e,
            ApplicationErrorKind::ProtocolError,
            missing_field_message(item@, "action"@),
        )),
        lookup(request@, "action"@) == Some("generate"@) && lookup(request@, "context"@) is Some
            && json_decode_error(lookup(request@, "context"@)->0) is Some ==> (r matches Err(e)
            && is_application(
            e,
            ApplicationErrorKind::ProtocolError,
            context_error_message(
                json_decode_error(lookup(request@, "context"@)->0)->0,
                lookup(request@, "context"@)->0,
            ),
        )),
        lookup(request@, "action"@) is Some && lookup(request@, "action"@)->0 != "generate"@
            && lookup(request@, "action"@)->0 != "columns"@ ==> (r matches Err(e) && is_protocol(
            e,
            ProtocolErrorKind::NotImplemented,
            unsupported_message(lookup(request@, "action"@)->0),
        )),
{
    match plan_call(item, request) {
        Err(e) => Err(e),
        Ok(Action::Generate(query)) => {
            let g = plugin.generate(&query);
            let r = generate_response(g);
            proof {
                assert(generate_answer(g, r));
            }
            r
        },
        Ok(Action::Columns) => {
            let c = plugin.columns();
            let r = columns_response(c);
            proof {
                assert(columns_answer(c, r));
            }
            r
        },
    }
}

/// Answers a shutdown: runs the plugin's hook and reports success, since the
/// host does not expect a shutdown to fail.
pub fn handle_shutdown<T: TablePlugin>(plugin: &T) -> (r: Result<(), Error>)
    ensures
        r is Ok,
{
    plugin.shutdown();
    Ok(())
}

} // verus!
