use std::cell::Cell;

use osquery::{
    column_routes, columns_response, generate_response, handle_call, handle_ping, handle_shutdown,
    plan_call, registration, request_field, routes, Action, ApplicationErrorKind, Column, ColumnValue,
    Error, ExampleTable, ProtocolErrorKind, QueryContext, SpyIO, TableColumns, TablePlugin, TableRows,
    WireMap,
};

fn request(pairs: &[(&str, &str)]) -> WireMap {
    pairs.iter().map(|(k, v)| (k.to_string(), v.to_string())).collect()
}

fn pairs(m: &WireMap) -> Vec<(&str, &str)> {
    m.iter().map(|(k, v)| (k.as_str(), v.as_str())).collect()
}

struct Counting {
    generated: Cell<u32>,
    fail: bool,
}

impl TablePlugin for Counting {
    fn name(&self) -> String {
        "counting".to_string()
    }

    fn generate(&self, _query: &QueryContext) -> Result<TableRows, String> {
        self.generated.set(self.generated.get() + 1);
        if self.fail {
            Err("source unavailable".to_string())
        } else {
            Ok(vec![vec![("n".to_string(), ColumnValue::integer(1))]])
        }
    }

    fn columns(&self) -> Result<TableColumns, String> {
        if self.fail {
            Err("no schema".to_string())
        } else {
            Ok(vec![Column::integer("n")])
        }
    }

    fn shutdown(&self) {}
}

fn counting(fail: bool) -> Counting {
    Counting { generated: Cell::new(0), fail }
}

#[test]
fn missing_action_is_protocol_fault() {
    let p = counting(false);
    let r = handle_call(&p, "table", "counting", &request(&[("context", "{}")]));
    assert_eq!(
        r,
        Err(Error::Application {
            kind: ApplicationErrorKind::ProtocolError,
            message: "request to `counting` missing required field `action`".to_string()
        })
    );
    let r = handle_call(&p, "table", "counting", &request(&[]));
    assert!(matches!(r, Err(Error::Application { kind: ApplicationErrorKind::ProtocolError, .. })));
    assert_eq!(p.generated.get(), 0);
}

#[test]
fn generate_without_context_is_protocol_fault() {
    let p = counting(false);
    let r = handle_call(&p, "table", "counting", &request(&[("action", "generate")]));
    assert_eq!(
        r,
        Err(Error::Application {
            kind: ApplicationErrorKind::ProtocolError,
            message: "request to `counting` missing required field `context`".to_string()
        })
    );
    assert_eq!(p.generated.get(), 0);
}

#[test]
fn undecodable_context_is_protocol_fault_without_generate() {
    let p = counting(false);
    let r = handle_call(&p, "table", "counting", &request(&[("action", "generate"), ("context", "{not json")]));
    match r {
        Err(Error::Application { kind, message }) => {
            assert_eq!(kind, ApplicationErrorKind::ProtocolError);
            assert!(message.starts_with("got error deserializing context: "));
            assert!(message.ends_with("\n{not json"));
            assert!(message.len() > "got error deserializing context: \n{not json".len());
        }
        other => panic!("unexpected {:?}", other),
    }
    assert_eq!(p.generated.get(), 0);
}

#[test]
fn unknown_action_is_not_implemented() {
    let p = counting(false);
    let r = handle_call(&p, "table", "counting", &request(&[("action", "unknown")]));
    assert_eq!(
        r,
        Err(Error::Protocol {
            kind: ProtocolErrorKind::NotImplemented,
            message: "action `unknown` not supported on plugin type `table`".to_string()
        })
    );
    assert_eq!(p.generated.get(), 0);
}

#[test]
fn columns_lists_schema_without_generate() {
    let p = ExampleTable;
    let r = handle_call(&p, "table", "example_table", &request(&[("action", "columns")])).unwrap();
    assert_eq!(r.status.unwrap().code, Some(0));
    let payload = r.response.unwrap();
    let got: Vec<Vec<(&str, &str)>> = payload.iter().map(pairs).collect();
    assert_eq!(
        got,
        vec![
            vec![("name", "text"), ("type", "TEXT")],
            vec![("name", "integer"), ("type", "INTEGER")],
            vec![("name", "big_int"), ("type", "BIGINT")],
            vec![("name", "double"), ("type", "DOUBLE")],
        ]
    );
    let c = counting(false);
    let r = handle_call(&c, "table", "counting", &request(&[("action", "columns")]));
    assert!(r.is_ok());
    assert_eq!(c.generated.get(), 0);
}

#[test]
fn end_to_end_example_row() {
    let p = ExampleTable;
    let r = handle_call(&p, "table", "example_table", &request(&[("action", "generate"), ("context", "{}")]))
        .unwrap();
    let status = r.status.unwrap();
    assert_eq!(status.code, Some(0));
    assert_eq!(status.message, None);
    let payload = r.response.unwrap();
    assert_eq!(payload.len(), 1);
    let pi = std::f64::consts::PI.to_string();
    let mut row = pairs(&payload[0]);
    row.sort();
    assert_eq!(
        row,
        vec![
            ("big_int", "-123456789"),
            ("double", pi.as_str()),
            ("integer", "123"),
            ("text", "hello_world"),
        ]
    );
}

#[test]
fn plugin_failure_is_internal_error() {
    let p = counting(true);
    let r = handle_call(&p, "table", "counting", &request(&[("action", "generate"), ("context", "{}")]));
    assert_eq!(
        r,
        Err(Error::Application {
            kind: ApplicationErrorKind::InternalError,
            message: "source unavailable".to_string()
        })
    );
    assert_eq!(p.generated.get(), 1);
    let r = handle_call(&p, "table", "counting", &request(&[("action", "columns")]));
    assert_eq!(
        r,
        Err(Error::Application { kind: ApplicationErrorKind::InternalError, message: "no schema".to_string() })
    );
}

#[test]
fn ping_always_succeeds() {
    let s = handle_ping();
    assert_eq!(s.code, Some(0));
    assert_eq!(s.message, Some("OK".to_string()));
    assert_eq!(s.uuid, None);
}

#[test]
fn shutdown_always_succeeds() {
    assert_eq!(handle_shutdown(&counting(true)), Ok(()));
    assert_eq!(handle_shutdown(&ExampleTable), Ok(()));
}

#[test]
fn request_field_lookup() {
    let r = request(&[("action", "generate"), ("context", "{}")]);
    assert_eq!(request_field(&r, "context"), Some("{}".to_string()));
    assert_eq!(request_field(&r, "missing"), None);
}

#[test]
fn plan_call_decodes_context() {
    let r = plan_call("t", &request(&[("action", "generate"), ("context", "{\"constraints\": []}")]));
    assert!(matches!(r, Ok(Action::Generate(_))));
    let r = plan_call("t", &request(&[("action", "columns")]));
    assert!(matches!(r, Ok(Action::Columns)));
}

#[test]
fn response_builders() {
    let r = generate_response(Ok(vec![])).unwrap();
    assert_eq!(r.response, Some(vec![]));
    let r = generate_response(Ok(vec![vec![
        ("a".to_string(), ColumnValue::big_int(5)),
        ("b".to_string(), ColumnValue::text("x")),
    ]]))
    .unwrap();
    assert_eq!(pairs(&r.response.unwrap()[0]), vec![("a", "5"), ("b", "x")]);
    let r = columns_response(Ok(vec![])).unwrap();
    assert_eq!(r.response, Some(vec![]));
}

#[test]
fn routes_describe_each_column() {
    let got: Vec<Vec<(&str, &str)>> = Vec::new();
    let rs = routes(&ExampleTable);
    let mut got = got;
    for r in rs.iter() {
        got.push(pairs(r));
    }
    assert_eq!(got.len(), 4);
    assert_eq!(got[0], vec![("id", "column"), ("name", "text"), ("type", "TEXT"), ("op", "0")]);
    assert_eq!(got[3], vec![("id", "column"), ("name", "double"), ("type", "DOUBLE"), ("op", "0")]);
    assert!(routes(&counting(true)).is_empty());
    assert_eq!(column_routes(&vec![]).len(), 0);
}

#[test]
fn registration_records() {
    let (info, registry) = registration(&ExampleTable, "1.2.3");
    assert_eq!(info.name, Some("example_table".to_string()));
    assert_eq!(info.version, "1.2.3");
    assert_eq!(info.sdk_version, None);
    assert_eq!(registry.registry, "table");
    assert_eq!(registry.plugin, "example_table");
    assert_eq!(registry.routes.len(), 4);
}

#[test]
fn spy_clone_keeps_preview() {
    let s = SpyIO::new(5u8, 16);
    let c: Result<SpyIO<u8>, String> = s.try_clone(Ok(6u8));
    let c = c.unwrap();
    assert_eq!(*c.inner(), 6);
    assert_eq!(c.preview(), 16);
    let e: Result<SpyIO<u8>, String> = s.try_clone(Err("closed".to_string()));
    assert_eq!(e.err(), Some("closed".to_string()));
    assert_eq!(s.shown(40), (16, true));
    assert_eq!(s.shown(3), (3, false));
    assert_eq!(s.shown(16), (16, false));
}
