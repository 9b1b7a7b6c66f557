use osquery::{
    derive_endpoint, worker_step, ProtocolErrorKind, WorkerStep, ApplicationErrorKind, Client, Error, ExampleTable, ExtensionStatus,
    TransportErrorKind,
};

#[test]
fn derive_endpoint_appends_route_id() {
    assert_eq!(
        derive_endpoint("/home/user/.host/shell.em", 42).unwrap(),
        "/home/user/.host/shell.em.42"
    );
}

#[test]
fn derive_endpoint_keeps_directory() {
    let p = derive_endpoint("/var/osquery/osquery.em", 7).unwrap();
    assert!(p.starts_with("/var/osquery/"));
    assert_eq!(p.rsplit('/').next().unwrap(), "osquery.em.7");
    assert_eq!(derive_endpoint("shell.em", 0).unwrap(), "shell.em.0");
    assert_eq!(derive_endpoint("/tmp/s", -5).unwrap(), "/tmp/s.-5");
}

#[test]
fn derive_endpoint_refuses_paths_without_file() {
    for p in ["", "/", "//", "/tmp/..", "/tmp/../", ".", "./", "..", "/."] {
        assert_eq!(
            derive_endpoint(p, 1),
            Err(Error::Transport { kind: TransportErrorKind::Unknown, message: p.to_string() })
        );
    }
}

#[test]
fn derive_endpoint_normalises_like_path() {
    assert_eq!(derive_endpoint("/tmp/sock/", 42).unwrap(), "/tmp/sock.42");
    assert_eq!(derive_endpoint("a/.", 42).unwrap(), "a.42");
    assert_eq!(derive_endpoint("a//b", 42).unwrap(), "a/b.42");
    assert_eq!(derive_endpoint("./b", 42).unwrap(), "./b.42");
    assert_eq!(derive_endpoint("a/./b/./", 42).unwrap(), "a/b.42");
    assert_eq!(derive_endpoint("/b", 42).unwrap(), "/b.42");
    assert_eq!(derive_endpoint("../b", 42).unwrap(), "../b.42");
}

#[test]
fn derive_endpoint_matches_std_path() {
    for p in ["/home/user/.host/shell.em", "/tmp/sock/", "a/.", "a//b", "./b", "a/./b/./", "/b", "x", "/x/y/z.em"] {
        let mut expected = std::path::PathBuf::from(p);
        let mut name = expected.file_name().unwrap().to_os_string();
        name.push(".-7");
        expected.set_file_name(name);
        assert_eq!(derive_endpoint(p, -7).unwrap(), expected.to_str().unwrap());
    }
    for p in ["", "/", "/tmp/..", "."] {
        assert!(std::path::Path::new(p).file_name().is_none());
        assert!(derive_endpoint(p, 1).is_err());
    }
}

#[test]
fn client_socket_path() {
    let c = Client::new("/home/user/.host/shell.em");
    assert_eq!(c.socket_path(42).unwrap(), "/home/user/.host/shell.em.42");
}

#[test]
fn status_ok_passes_message_on_success() {
    let s = ExtensionStatus { code: Some(0), message: Some("fine".to_string()), uuid: None };
    assert_eq!(s.ok(), Ok(Some("fine".to_string())));
}

#[test]
fn status_ok_reports_failure() {
    let s = ExtensionStatus { code: Some(1), message: Some("nope".to_string()), uuid: None };
    assert_eq!(
        s.ok(),
        Err(Error::Application { kind: ApplicationErrorKind::InternalError, message: "nope".to_string() })
    );
    let s = ExtensionStatus { code: None, message: None, uuid: None };
    assert_eq!(
        s.ok(),
        Err(Error::Application {
            kind: ApplicationErrorKind::InternalError,
            message: "Unknown error occurred!".to_string()
        })
    );
}

#[test]
fn registration_gives_handle_at_derived_endpoint() {
    let c = Client::new("/home/user/.host/shell.em");
    let s = ExtensionStatus { code: Some(0), message: None, uuid: Some(42) };
    let h = c.accept_registration(s, ExampleTable).unwrap();
    assert_eq!(h.socket_path(), "/home/user/.host/shell.em.42");
}

#[test]
fn registration_without_uuid_is_protocol_error() {
    let c = Client::new("/home/user/.host/shell.em");
    let s = ExtensionStatus { code: Some(0), message: None, uuid: None };
    let r = c.accept_registration(s, ExampleTable);
    assert_eq!(
        r.err(),
        Some(Error::Application {
            kind: ApplicationErrorKind::ProtocolError,
            message: "Got no UUID from osquery".to_string()
        })
    );
}

#[test]
fn registration_failure_status_is_passed_on() {
    let c = Client::new("/home/user/.host/shell.em");
    let s = ExtensionStatus { code: Some(1), message: Some("duplicate".to_string()), uuid: Some(3) };
    let r = c.accept_registration(s, ExampleTable);
    assert_eq!(
        r.err(),
        Some(Error::Application { kind: ApplicationErrorKind::InternalError, message: "duplicate".to_string() })
    );
}

#[test]
fn registration_with_bad_host_path_fails() {
    let c = Client::new("/tmp/..");
    let s = ExtensionStatus { code: Some(0), message: None, uuid: Some(3) };
    let r = c.accept_registration(s, ExampleTable);
    assert!(matches!(r, Err(Error::Transport { .. })));
}

#[test]
fn worker_steps() {
    assert_eq!(worker_step(&Ok(())), WorkerStep::Continue);
    let eof = Error::Transport { kind: TransportErrorKind::EndOfFile, message: "eof".to_string() };
    assert_eq!(worker_step(&Err(eof)), WorkerStep::Closed);
    let broken = Error::Transport { kind: TransportErrorKind::Unknown, message: "reset".to_string() };
    assert_eq!(worker_step(&Err(broken)), WorkerStep::Failed);
    let bad = Error::Protocol { kind: ProtocolErrorKind::InvalidData, message: "bad".to_string() };
    assert_eq!(worker_step(&Err(bad)), WorkerStep::Failed);
}

#[test]
fn extension_codes() {
    assert_eq!(osquery::ExtensionCode::ExtSuccess.value(), osquery::EXT_SUCCESS);
    assert_eq!(osquery::ExtensionCode::ExtFailed.value(), 1);
    assert_eq!(osquery::ExtensionCode::ExtFatal.value(), 2);
}

#[test]
fn context_fault_message() {
    assert_eq!(
        osquery::context_fault("EOF while parsing", "{"),
        Error::Application {
            kind: ApplicationErrorKind::ProtocolError,
            message: "got error deserializing context: EOF while parsing\n{".to_string()
        }
    );
}
