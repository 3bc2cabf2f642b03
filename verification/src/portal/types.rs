//! Portal D-Bus types: cursor modes, source types and persist modes with
//! their spec values, streams, and response codes.
use vstd::prelude::*;

verus! {

#[derive(Debug, Clone, Copy, PartialEq, Eq, Structural)]
pub enum CursorMode {
    Hidden,
    Embedded,
    Metadata,
}

#[derive(Debug, Clone, Copy, PartialEq, Eq, Structural)]
pub enum SourceType {
    Monitor,
    Window,
    Virtual,
}

#[derive(Debug, Clone, Copy, PartialEq, Eq, Structural)]
pub enum PersistMode {
    DoNotPersist,
    TransientOnly,
    Persistent,
}

impl CursorMode {
    pub open spec fn code_spec(&self) -> u32 {
        match *self {
            CursorMode::Hidden => 1u32,
            CursorMode::Embedded => 2u32,
            CursorMode::Metadata => 4u32,
        }
    }

    /// The portal's uint32 value.
    pub fn code(&self) -> (r: u32)
        ensures
            r == self.code_spec(),
    {
        match self {
            CursorMode::Hidden => 1,
            CursorMode::Embedded => 2,
            CursorMode::Metadata => 4,
        }
    }
}

pub open spec fn source_type_code(t: SourceType) -> u32 {
    match t {
        SourceType::Monitor => 1u32,
        SourceType::Window => 2u32,
        SourceType::Virtual => 4u32,
    }
}

/// The source type a stream's `source_type` property names: 1 is a monitor,
/// 2 a window, anything else virtual.
pub open spec fn source_type_from_code_spec(code: u32) -> SourceType {
    if code == 1 {
        SourceType::Monitor
    } else if code == 2 {
        SourceType::Window
    } else {
        SourceType::Virtual
    }
}

impl SourceType {
    /// The portal's uint32 value.
    pub fn code(&self) -> (r: u32)
        ensures
            r == source_type_code(*self),
    {
        match self {
            SourceType::Monitor => 1,
            SourceType::Window => 2,
            SourceType::Virtual => 4,
        }
    }

    pub fn from_code(code: u32) -> (r: SourceType)
        ensures
            r == source_type_from_code_spec(code),
    {
        if code == 1 {
            SourceType::Monitor
        } else if code == 2 {
            SourceType::Window
        } else {
            SourceType::Virtual
        }
    }
}

/// A source type's portal value reads back as the same source type.
pub proof fn lemma_source_type_code_round_trip(t: SourceType)
    ensures
        source_type_from_code_spec(source_type_code(t)) == t,
{
}

impl PersistMode {
    pub open spec fn code_spec(&self) -> u32 {
        match *self {
            PersistMode::DoNotPersist => 0u32,
            PersistMode::TransientOnly => 1u32,
            PersistMode::Persistent => 2u32,
        }
    }

    /// The portal's uint32 value.
    pub fn code(&self) -> (r: u32)
        ensures
            r == self.code_spec(),
    {
        match self {
            PersistMode::DoNotPersist => 0,
            PersistMode::TransientOnly => 1,
            PersistMode::Persistent => 2,
        }
    }
}

/// A single PipeWire stream returned when a screencast session starts.
#[derive(Debug, Clone, Copy)]
pub struct Stream {
    /// PipeWire node id, passed to the source's `path` property.
    pub node_id: u32,
    /// Position on the logical screen (x, y).
    pub position: (i32, i32),
    /// Dimensions in pixels.
    pub size: (i32, i32),
    pub source_type: SourceType,
}

/// Response code of a portal request.
#[derive(Debug, Clone, Copy, PartialEq, Eq, Structural)]
pub enum PortalResponse {
    Success,
    UserCancelled,
    Other,
}

/// 0 is success, 1 a user cancel, anything else another failure.
pub open spec fn portal_response_spec(v: u32) -> PortalResponse {
    if v == 0 {
        PortalResponse::Success
    } else if v == 1 {
        PortalResponse::UserCancelled
    } else {
        PortalResponse::Other
    }
}

impl From<u32> for PortalResponse {
    fn from(v: u32) -> (r: Self) {
        if v == 0 {
            PortalResponse::Success
        } else if v == 1 {
            PortalResponse::UserCancelled
        } else {
            PortalResponse::Other
        }
    }
}

impl vstd::std_specs::convert::FromSpecImpl<u32> for PortalResponse {
    open spec fn obeys_from_spec() -> bool {
        true
    }

    open spec fn from_spec(v: u32) -> Self {
        portal_response_spec(v)
    }
}

} // verus!
