//! The ScreenCast portal session: request tokens, source selection options,
//! recognising a request's reply, and reading the stream list it returns.
use vstd::prelude::*;

use crate::portal::types::{
    portal_response_spec, source_type_code, source_type_from_code_spec, CursorMode, PersistMode,
    PortalResponse, SourceType, Stream,
};
use crate::text::str_eq;

verus! {


/// A D-Bus value as the stream list is read: integers, structures, arrays,
/// string-keyed dictionaries, and anything else. A value boxed in a variant
/// is read as the value inside it.
pub enum Variant {
    U32(u32),
    I32(i32),
    Structure(Vec<Variant>),
    Array(Vec<Variant>),
    Dict(Vec<(String, Variant)>),
    Other,
}

/// The value under `key` in a dictionary (the first entry with that key).
pub open spec fn dict_get(d: Seq<(String, Variant)>, key: Seq<char>) -> Option<Variant>
    decreases d.len(),
{
    if d.len() == 0 {
        None
    } else if d[0].0@ == key {
        Some(d[0].1)
    } else {
        dict_get(d.drop_first(), key)
    }
}

/// A pair property: a structure whose first two fields are `i32`s.
pub open spec fn pair_of(v: Option<Variant>) -> Option<(i32, i32)> {
    match v {
        Some(Variant::Structure(f)) => if f@.len() >= 2 {
            match (f@[0], f@[1]) {
                (Variant::I32(x), Variant::I32(y)) => Some((x, y)),
                _ => None,
            }
        } else {
            None
        },
        _ => None,
    }
}

/// One entry of the stream list: a structure of a `u32` node id and a
/// dictionary of properties. Entries of another shape are skipped; a
/// missing property dictionary gives a monitor at the origin with no size;
/// missing position or size read as `(0, 0)`; a missing source type reads
/// as a monitor.
pub open spec fn stream_of_item(item: Variant) -> Option<Stream> {
    match item {
        Variant::Structure(fields) => if fields@.len() < 2 {
            None
        } else {
            match fields@[0] {
                Variant::U32(node_id) => match fields@[1] {
                    Variant::Dict(props) => Some(
                        Stream {
                            node_id,
                            position: match pair_of(dict_get(props@, "position"@)) {
                                Some(p) => p,
                                None => (0, 0),
                            },
                            size: match pair_of(dict_get(props@, "size"@)) {
                                Some(p) => p,
                                None => (0, 0),
                            },
                            source_type: match dict_get(props@, "source_type"@) {
                                Some(Variant::U32(t)) => source_type_from_code_spec(t),
                                _ => SourceType::Monitor,
                            },
                        },
                    ),
                    _ => Some(
                        Stream {
                            node_id,
                            position: (0, 0),
                            size: (0, 0),
                            source_type: SourceType::Monitor,
                        },
                    ),
                },
                _ => None,
            }
        },
        _ => None,
    }
}

/// The streams of a list of entries, in order, skipping malformed entries.
pub open spec fn streams_of(items: Seq<Variant>) -> Seq<Stream>
    decreases items.len(),
{
    if items.len() == 0 {
        seq![]
    } else {
        let rest = streams_of(items.drop_last());
        match stream_of_item(items.last()) {
            Some(s) => rest.push(s),
            None => rest,
        }
    }
}

fn dict_lookup<'a>(d: &'a Vec<(String, Variant)>, key: &str) -> (r: Option<&'a Variant>)
    ensures
        match r {
            Some(v) => dict_get(d@, key@) == Some(*v),
            None => dict_get(d@, key@) is None,
        },
{
    let mut i: usize = 0;
    assert(d@.skip(0) =~= d@);
    while i < d.len()
        invariant
            i <= d@.len(),
            dict_get(d@, key@) == dict_get(d@.skip(i as int), key@),
        decreases d.len() - i,
    {
        assert(d@.skip(i as int).drop_first() =~= d@.skip(i + 1));
        if str_eq(d[i].0.as_str(), key) {
            return Some(&d[i].1);
        }
        i = i + 1;
    }
    None
}

/// Reads a pair property `(x, y)` of a stream's property dictionary.
pub fn get_pair_prop(dict: &Vec<(String, Variant)>, key: &str) -> (r: Option<(i32, i32)>)
    ensures
        r == pair_of(dict_get(dict@, key@)),
{
    match dict_lookup(dict, key) {
        Some(Variant::Structure(f)) => {
            if f.len() < 2 {
                return None;
            }
            match (&f[0], &f[1]) {
                (Variant::I32(x), Variant::I32(y)) => Some((*x, *y)),
                _ => None,
            }
        },
        _ => None,
    }
}

fn read_stream(item: &Variant) -> (r: Option<Stream>)
    ensures
        r == stream_of_item(*item),
{
    match item {
        Variant::Structure(fields) => {
            if fields.len() < 2 {
                return None;
            }
            let node_id = match &fields[0] {
                Variant::U32(n) => *n,
                _ => {
                    return None;
                },
            };
            match &fields[1] {
                Variant::Dict(props) => {
                    let position = match get_pair_prop(props, "position") {
                        Some(p) => p,
                        None => (0, 0),
                    };
                    let size = match get_pair_prop(props, "size") {
                        Some(p) => p,
                        None => (0, 0),
                    };
                    let source_type = match dict_lookup(props, "source_type") {
                        Some(Variant::U32(t)) => SourceType::from_code(*t),
                        _ => SourceType::Monitor,
                    };
                    Some(Stream { node_id, position, size, source_type })
                },
                _ => Some(
                    Stream { node_id, position: (0, 0), size: (0, 0), source_type: SourceType::Monitor },
                ),
            }
        },
        _ => None,
    }
}

/// The reply to a session start had no stream list.
#[derive(Debug, Clone, Copy, PartialEq, Eq, Structural)]
pub struct MissingStreams;

impl MissingStreams {
    pub fn message(&self) -> (r: &'static str)
        ensures
            r@ == "portal response missing streams"@,
    {
        "portal response missing streams"
    }
}

/// Reads the `streams` value of a session-start reply: missing is an error,
/// anything but an array is an empty list, and an array gives its
/// well-formed entries in order.
pub fn parse_streams(raw: Option<&Variant>) -> (r: Result<Vec<Stream>, MissingStreams>)
    ensures
        match raw {
            None => r is Err,
            Some(Variant::Array(items)) => r is Ok && r->Ok_0@ == streams_of(items@),
            Some(_) => r is Ok && r->Ok_0@.len() == 0,
        },
{
    let raw = match raw {
        Some(v) => v,
        None => {
            return Err(MissingStreams);
        },
    };
    let items = match raw {
        Variant::Array(a) => a,
        _ => {
            return Ok(Vec::new());
        },
    };
    let mut streams: Vec<Stream> = Vec::new();
    let mut i: usize = 0;
    while i < items.len()
        invariant
            i <= items@.len(),
            streams@ == streams_of(items@.subrange(0, i as int)),
        decreases items.len() - i,
    {
        let ghost prefix = items@.subrange(0, i + 1);
        assert(prefix.drop_last() =~= items@.subrange(0, i as int));
        assert(prefix.last() == items@[i as int]);
        match read_stream(&items[i]) {
            Some(st) => streams.push(st),
            None => {},
        }
        i = i + 1;
    }
    assert(items@.subrange(0, items@.len() as int) =~= items@);
    Ok(streams)
}

/// Which portal request a handle token belongs to.
#[derive(Debug, Clone, Copy, PartialEq, Eq, Structural)]
pub enum RequestKind {
    CreateSession,
    SelectSources,
    Start,
}

/// The handle token of a request: "mediasnare_", a step name for the later
/// requests, and the process id.
pub open spec fn handle_token_spec(kind: RequestKind, pid: u32) -> Seq<char> {
    "mediasnare_"@ + match kind {
        RequestKind::CreateSession => Seq::<char>::empty(),
        RequestKind::SelectSources => "sel_"@,
        RequestKind::Start => "start_"@,
    } + crate::text::dec_nat(pid as nat)
}

pub fn handle_token(kind: RequestKind, pid: u32) -> (r: String)
    ensures
        r@ == handle_token_spec(kind, pid),
{
    let mut r = "mediasnare_".to_owned();
    match kind {
        RequestKind::CreateSession => {},
        RequestKind::SelectSources => r.append("sel_"),
        RequestKind::Start => r.append("start_"),
    }
    let digits = crate::text::format_u64(pid as u64);
    r.append(digits.as_str());
    assert(r@ =~= handle_token_spec(kind, pid));
    r
}

/// The options of a source selection.
pub struct SourceSelection {
    /// The source type's portal value.
    pub types: u32,
    /// Several sources may be chosen.
    pub multiple: bool,
    pub cursor_mode: u32,
    pub persist_mode: u32,
    /// A token from an earlier session, to skip the permission dialog.
    pub restore_token: Option<String>,
}

pub fn source_selection(
    source_type: SourceType,
    cursor_mode: CursorMode,
    persist_mode: PersistMode,
    restore_token: Option<&str>,
) -> (r: SourceSelection)
    ensures
        r.types == source_type_code(source_type),
        r.multiple,
        r.cursor_mode == cursor_mode.code_spec(),
        r.persist_mode == persist_mode.code_spec(),
        match restore_token {
            Some(t) => r.restore_token is Some && r.restore_token->Some_0@ == t@,
            None => r.restore_token is None,
        },
{
    SourceSelection {
        types: source_type.code(),
        multiple: true,
        cursor_mode: cursor_mode.code(),
        persist_mode: persist_mode.code(),
        restore_token: match restore_token {
            Some(t) => Some(t.to_owned()),
            None => None,
        },
    }
}

/// Whether a bus message is the `Response` signal of the given request.
pub fn is_request_response(path: Option<&str>, member: Option<&str>, request_path: &str) -> (r: bool)
    ensures
        r == (path is Some && path->Some_0@ == request_path@ && member is Some
            && member->Some_0@ == "Response"@),
{
    match (path, member) {
        (Some(p), Some(m)) => str_eq(p, request_path) && str_eq(m, "Response"),
        _ => false,
    }
}

/// How a request ended, by its response code.
#[derive(Debug, Clone, Copy, PartialEq, Eq, Structural)]
pub enum ResponseOutcome {
    /// The results are handed back.
    Results,
    /// The user cancelled: reported as the quiet cancel marker.
    Cancelled,
    /// "portal returned error response"
    Failed,
}

pub fn response_outcome(code: u32) -> (r: ResponseOutcome)
    ensures
        r == (match portal_response_spec(code) {
            PortalResponse::Success => ResponseOutcome::Results,
            PortalResponse::UserCancelled => ResponseOutcome::Cancelled,
            PortalResponse::Other => ResponseOutcome::Failed,
        }),
{
    match PortalResponse::from(code) {
        PortalResponse::Success => ResponseOutcome::Results,
        PortalResponse::UserCancelled => ResponseOutcome::Cancelled,
        PortalResponse::Other => ResponseOutcome::Failed,
    }
}
} // verus!
