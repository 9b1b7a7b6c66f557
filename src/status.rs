//! Status records, responses and the faults a call can end in.
use vstd::prelude::*;

verus! {

/// The status codes the host defines.
#[derive(Clone, Copy, Debug, PartialEq, Eq, Structural)]
pub enum ExtensionCode {
    ExtSuccess,
    ExtFailed,
    ExtFatal,
}

impl ExtensionCode {
    pub open spec fn spec_value(self) -> i32 {
        match self {
            ExtensionCode::ExtSuccess => 0,
            ExtensionCode::ExtFailed => 1,
            ExtensionCode::ExtFatal => 2,
        }
    }

    /// The code's number on the wire.
    pub fn value(self) -> (r: i32)
        ensures
            r == self.spec_value(),
    {
        match self {
            ExtensionCode::ExtSuccess => 0,
            ExtensionCode::ExtFailed => 1,
            ExtensionCode::ExtFatal => 2,
        }
    }
}

/// The number of the success code.
pub const EXT_SUCCESS: i32 = 0;

/// Kinds of transport fault.
#[derive(Clone, Copy, Debug, PartialEq, Eq, Structural)]
pub enum TransportErrorKind {
    Unknown,
    NotOpen,
    AlreadyOpen,
    TimedOut,
    EndOfFile,
}

/// Kinds of protocol fault.
#[derive(Clone, Copy, Debug, PartialEq, Eq, Structural)]
pub enum ProtocolErrorKind {
    Unknown,
    InvalidData,
    NotImplemented,
}

/// Kinds of application fault.
#[derive(Clone, Copy, Debug, PartialEq, Eq, Structural)]
pub enum ApplicationErrorKind {
    Unknown,
    InternalError,
    ProtocolError,
}

/// How a call or a step of the handshake failed.
#[derive(Clone, Debug, PartialEq)]
pub enum Error {
    /// The channel itself failed: no endpoint, a refused connection, a
    /// broken stream, an address that cannot be used.
    Transport { kind: TransportErrorKind, message: String },
    /// The peer sent something malformed, incomplete or unsupported.
    Protocol { kind: ProtocolErrorKind, message: String },
    /// The call was well formed but could not be carried out.
    Application { kind: ApplicationErrorKind, message: String },
}

/// A fault of the application kind with the given message.
pub open spec fn is_application(e: Error, kind: ApplicationErrorKind, message: Seq<char>) -> bool {
    e matches Error::Application { kind: k, message: m } && k == kind && m@ == message
}

/// A fault of the protocol kind with the given message.
pub open spec fn is_protocol(e: Error, kind: ProtocolErrorKind, message: Seq<char>) -> bool {
    e matches Error::Protocol { kind: k, message: m } && k == kind && m@ == message
}

/// The status record the host and the extension exchange.
#[derive(Clone, Debug, PartialEq)]
pub struct ExtensionStatus {
    pub code: Option<i32>,
    pub message: Option<String>,
    pub uuid: Option<i64>,
}

/// The message given when a failed status carries none.
pub open spec fn unknown_error_message() -> Seq<char> {
    "Unknown error occurred!"@
}

impl ExtensionStatus {
    /// Success, with no message and no route id.
    pub open spec fn is_plain_success(&self) -> bool {
        self.code == Some(EXT_SUCCESS) && self.message is None && self.uuid is None
    }

    /// The message of a successful status, or the failure it reports.
    pub fn ok(self) -> (r: Result<Option<String>, Error>)
        ensures
            self.code == Some(EXT_SUCCESS) ==> r == Ok::<Option<String>, Error>(self.message),
            self.code != Some(EXT_SUCCESS) ==> (r matches Err(e) && is_application(
                e,
                ApplicationErrorKind::InternalError,
                match self.message {
                    Some(m) => m@,
                    None => unknown_error_message(),
                },
            )),
    {
        if self.code == Some(EXT_SUCCESS) {
            return Ok(self.message);
        }
        let message = match self.message {
            Some(m) => m,
            None => String::from_str("Unknown error occurred!"),
        };
        Err(Error::Application { kind: ApplicationErrorKind::InternalError, message })
    }
}

/// A plain success status.
pub fn success_status() -> (r: ExtensionStatus)
    ensures
        r.is_plain_success(),
{
    ExtensionStatus { code: Some(EXT_SUCCESS), message: None, uuid: None }
}

/// A string-keyed record of the wire: a row, a column descriptor, a route.
/// Its names are distinct where it stands for a map (`wire_is_map`).
pub type WireMap = Vec<(String, String)>;

/// A wire record's names are distinct: it is a map from name to text.
pub open spec fn wire_is_map(m: Seq<(Seq<char>, Seq<char>)>) -> bool {
    forall|i: int, j: int| 0 <= i < j < m.len() ==> m[i].0 != m[j].0
}

/// The entries of a wire record as text pairs.
pub open spec fn wire_view(m: WireMap) -> Seq<(Seq<char>, Seq<char>)> {
    m@.map_values(|p: (String, String)| (p.0@, p.1@))
}

/// Extending a sequence by one element extends its image under `f` by the
/// image of that element, when the image so far is that of a prefix of `src`
/// under `g` and the element's image is that of the next element of `src`.
pub proof fn lemma_push_mapped<A, B, C>(
    prev: Seq<A>,
    x: A,
    src: Seq<C>,
    i: int,
    f: spec_fn(A) -> B,
    g: spec_fn(C) -> B,
)
    requires
        0 <= i < src.len(),
        prev.map_values(f) == src.subrange(0, i).map_values(g),
        f(x) == g(src[i]),
    ensures
        prev.push(x).map_values(f) == src.subrange(0, i + 1).map_values(g),
{
    assert(prev.map_values(f).len() == prev.len());
    assert(src.subrange(0, i).map_values(g).len() == i);
    assert(prev.len() == i);
    assert forall|j: int| 0 <= j < i + 1 implies prev.push(x).map_values(f)[j] == src.subrange(0, i + 1).map_values(g)[j] by {
        assert(prev.push(x).map_values(f)[j] == f(prev.push(x)[j]));
        assert(src.subrange(0, i + 1).map_values(g)[j] == g(src.subrange(0, i + 1)[j]));
        if j < i {
            assert(prev.map_values(f)[j] == f(prev[j]));
            assert(src.subrange(0, i).map_values(g)[j] == g(src.subrange(0, i)[j]));
            assert(prev.push(x)[j] == prev[j]);
            assert(prev.map_values(f)[j] == src.subrange(0, i).map_values(g)[j]);
            assert(src.subrange(0, i)[j] == src.subrange(0, i + 1)[j]);
        } else {
            assert(prev.push(x)[j] == x);
            assert(src.subrange(0, i + 1)[j] == src[i]);
        }
    }
    assert(prev.push(x).map_values(f) =~= src.subrange(0, i + 1).map_values(g));
}

/// The answer to a call: a status and, on success, a payload.
#[derive(Clone, Debug, PartialEq)]
pub struct ExtensionResponse {
    pub status: Option<ExtensionStatus>,
    pub response: Option<Vec<WireMap>>,
}

/// The payload of a response as text pairs.
pub open spec fn payload_view(p: Vec<WireMap>) -> Seq<Seq<(Seq<char>, Seq<char>)>> {
    p@.map_values(|m: WireMap| wire_view(m))
}

} // verus!
