//! The extension's side of the registration handshake with the host.
use vstd::prelude::*;
use crate::column::{kind_name, Column};
use crate::endpoint::{derive_endpoint, endpoint_path, file_name};
use crate::plugin::{TableColumns, TablePlugin};
use crate::status::{
    is_application, lemma_push_mapped, payload_view, wire_view, ApplicationErrorKind, Error, ExtensionStatus,
    TransportErrorKind, WireMap, EXT_SUCCESS,
};

verus! {

/// The route descriptor of a column: `id`, `name`, `type` and `op`.
pub open spec fn route_entry(c: Column) -> Seq<(Seq<char>, Seq<char>)> {
    seq![("id"@, "column"@), ("name"@, c.name@), ("type"@, kind_name(c.kind)), ("op"@, "0"@)]
}

/// The route descriptors of a schema, one per column, in order.
pub open spec fn schema_routes(cols: Seq<Column>) -> Seq<Seq<(Seq<char>, Seq<char>)>> {
    cols.map_values(|c: Column| route_entry(c))
}

/// Whether `routes` are what a plugin registers when asking it for its
/// schema gave `c`: the schema's routes, or none where it failed.
pub open spec fn routes_answer(c: Result<TableColumns, String>, routes: Seq<Seq<(Seq<char>, Seq<char>)>>) -> bool {
    match c {
        Ok(cols) => routes == schema_routes(cols@),
        Err(_) => routes.len() == 0,
    }
}

fn route_of(c: &Column) -> (r: WireMap)
    ensures
        wire_view(r) == route_entry(*c),
{
    let (name, kind) = c.to_pair();
    let mut out: WireMap = Vec::new();
    out.push((String::from_str("id"), String::from_str("column")));
    out.push((String::from_str("name"), name));
    out.push((String::from_str("type"), kind));
    out.push((String::from_str("op"), String::from_str("0")));
    proof {
        assert(wire_view(out) =~= route_entry(*c));
    }
    out
}

/// The route descriptors of a schema: one per column, in order.
pub fn column_routes(cols: &TableColumns) -> (r: Vec<WireMap>)
    ensures
        payload_view(r) == schema_routes(cols@),
{
    let mut out: Vec<WireMap> = Vec::new();
    let mut i: usize = 0;
    while i < cols.len()
        invariant
            i <= cols.len(),
            out@.len() == i,
            payload_view(out) == schema_routes(cols@.subrange(0, i as int)),
        decreases cols.len() - i,
    {
        let w = route_of(&cols[i]);
        proof {
            lemma_push_mapped(out@, w, cols@, i as int, |m: WireMap| wire_view(m), |c: Column| route_entry(c));
        }
        out.push(w);
        i = i + 1;
    }
    proof {
        assert(cols@.subrange(0, cols@.len() as int) =~= cols@);
    }
    out
}

/// The routes a plugin registers: those of its schema, or none where the
/// plugin cannot give its schema.
pub fn routes<T: TablePlugin>(plugin: &T) -> (r: Vec<WireMap>)
    ensures
        exists|c: Result<TableColumns, String>| routes_answer(c, payload_view(r)),
{
    let c = plugin.columns();
    match c {
        Ok(cols) => {
            let r = column_routes(&cols);
            proof {
                assert(routes_answer(Ok::<TableColumns, String>(cols), payload_view(r)));
            }
            r
        },
        Err(m) => {
            let r: Vec<WireMap> = Vec::new();
            proof {
                assert(routes_answer(Err::<TableColumns, String>(m), payload_view(r)));
            }
            r
        },
    }
}

/// What an extension tells the host about itself.
#[derive(Clone, Debug, PartialEq)]
pub struct InternalExtensionInfo {
    pub name: Option<String>,
    pub version: String,
    pub sdk_version: Option<String>,
    pub min_sdk_version: Option<String>,
}

/// The registry an extension registers: under the registry `table`, the
/// plugin's name with its routes.
#[derive(Clone, Debug, PartialEq)]
pub struct ExtensionRegistry {
    pub registry: String,
    pub plugin: String,
    pub routes: Vec<WireMap>,
}

/// The two records of a registration request for `plugin`, an extension of
/// the given version: its info, named after the plugin, and its registry.
pub fn registration<T: TablePlugin>(plugin: &T, version: &str) -> (r: (InternalExtensionInfo, ExtensionRegistry))
    ensures
        r.0.name matches Some(n) && n@ == r.1.plugin@,
        r.0.version@ == version@,
        r.0.sdk_version is None,
        r.0.min_sdk_version is None,
        r.1.registry@ == "table"@,
        exists|c: Result<TableColumns, String>| routes_answer(c, payload_view(r.1.routes)),
{
    let name = plugin.name();
    let info = InternalExtensionInfo {
        name: Some(name.clone()),
        version: String::from_str(version),
        sdk_version: None,
        min_sdk_version: None,
    };
    let rs = routes(plugin);
    let registry = ExtensionRegistry { registry: String::from_str("table"), plugin: name, routes: rs };
    proof {
        let c = choose|c: Result<TableColumns, String>| routes_answer(c, payload_view(rs));
        assert(routes_answer(c, payload_view(registry.routes)));
    }
    (info, registry)
}

/// A registered table, ready to be served at its endpoint.
#[derive(Debug)]
pub struct Handle<T> {
    socket_path: String,
    server: T,
}

impl<T> Handle<T> {
    pub closed spec fn spec_socket_path(&self) -> Seq<char> {
        self.socket_path@
    }

    pub closed spec fn spec_server(&self) -> T {
        self.server
    }

    pub fn new(path: &str, server: T) -> (r: Handle<T>)
        ensures
            r.spec_socket_path() == path@,
            r.spec_server() == server,
    {
        Handle { socket_path: String::from_str(path), server }
    }

    /// The endpoint the table is served at.
    pub fn socket_path(&self) -> (r: &str)
        ensures
            r@ == self.spec_socket_path(),
    {
        self.socket_path.as_str()
    }

    /// The table.
    pub fn server(&self) -> (r: &T)
        ensures
            *r == self.spec_server(),
    {
        &self.server
    }

    /// The endpoint and the table.
    pub fn into_parts(self) -> (r: (String, T))
        ensures
            r.0@ == self.spec_socket_path(),
            r.1 == self.spec_server(),
    {
        (self.socket_path, self.server)
    }
}

/// The manager client's addressing state: the host's endpoint path.
#[derive(Clone, Debug)]
pub struct Client {
    socket_path: String,
}

/// The message of a success that carries no route id.
pub open spec fn no_uuid_message() -> Seq<char> {
    "Got no UUID from osquery"@
}

impl Client {
    pub closed spec fn spec_socket_path(&self) -> Seq<char> {
        self.socket_path@
    }

    /// A client of the host listening at `path`.
    pub fn new(path: &str) -> (r: Client)
        ensures
            r.spec_socket_path() == path@,
    {
        Client { socket_path: String::from_str(path) }
    }

    /// The endpoint of the extension with route id `uuid`, beside the host's.
    pub fn socket_path(&self, uuid: i64) -> (r: Result<String, Error>)
        ensures
            file_name(self.spec_socket_path()) is Some ==> (r matches Ok(p) && p@ == endpoint_path(
                self.spec_socket_path(),
                uuid as int,
            )),
            file_name(self.spec_socket_path()) is None ==> (r matches Err(Error::Transport { kind, message })
                && kind == TransportErrorKind::Unknown && message@ == self.spec_socket_path()),
    {
        derive_endpoint(self.socket_path.as_str(), uuid)
    }

    /// Ends the handshake with the status the host answered: a failure
    /// status is passed on, a success without a route id is a protocol
    /// error, and a success with one gives the table's handle at its
    /// endpoint.
    pub fn accept_registration<T>(&self, status: ExtensionStatus, plugin: T) -> (r: Result<Handle<T>, Error>)
        ensures
            status.code != Some(EXT_SUCCESS) ==> (r matches Err(e) && is_application(
                e,
                ApplicationErrorKind::InternalError,
                match status.message {
                    Some(m) => m@,
                    None => "Unknown error occurred!"@,
                },
            )),
            status.code == Some(EXT_SUCCESS) && status.uuid is None ==> (r matches Err(e)
                && is_application(e, ApplicationErrorKind::ProtocolError, no_uuid_message())),
            status.code == Some(EXT_SUCCESS) && status.uuid is Some ==> (
                file_name(self.spec_socket_path()) is Some <==> r is Ok),
            status.code == Some(EXT_SUCCESS) && status.uuid is Some && file_name(self.spec_socket_path()) is Some
                ==> (r matches Ok(h) && h.spec_socket_path() == endpoint_path(
                self.spec_socket_path(),
                status.uuid->0 as int,
            ) && h.spec_server() == plugin),
    {
        let uuid = status.uuid;
        match status.ok() {
            Err(e) => return Err(e),
            Ok(_) => {},
        }
        let uuid = match uuid {
            Some(u) => u,
            None => {
                return Err(Error::Application {
                    kind: ApplicationErrorKind::ProtocolError,
                    message: String::from_str("Got no UUID from osquery"),
                })
            },
        };
        let path = self.socket_path(uuid)?;
        Ok(Handle::new(path.as_str(), plugin))
    }
}

} // verus!
