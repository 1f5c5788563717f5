//! SAI object types whose statistics the pipeline handles.

use vstd::prelude::*;

verus! {

/// SAI object types (`sai_object_type_t`) with counters in the pipeline.
#[derive(Debug, Clone, Copy, PartialEq, Eq, Structural, Hash)]
pub enum SaiObjectType {
    Port,
    Queue,
    BufferPool,
    IngressPriorityGroup,
}

impl SaiObjectType {
    /// Numeric identifier of the object type.
    pub open spec fn spec_id(self) -> u32 {
        match self {
            Self::Port => 1,
            Self::Queue => 21,
            Self::BufferPool => 24,
            Self::IngressPriorityGroup => 26,
        }
    }

    /// Name of the object type in the C headers.
    pub open spec fn spec_c_name(self) -> Seq<char> {
        match self {
            Self::Port => "SAI_OBJECT_TYPE_PORT"@,
            Self::Queue => "SAI_OBJECT_TYPE_QUEUE"@,
            Self::BufferPool => "SAI_OBJECT_TYPE_BUFFER_POOL"@,
            Self::IngressPriorityGroup => "SAI_OBJECT_TYPE_INGRESS_PRIORITY_GROUP"@,
        }
    }

    /// Suffix of the C name after `SAI_OBJECT_TYPE_`.
    pub open spec fn spec_suffix(self) -> Seq<char> {
        match self {
            Self::Port => "PORT"@,
            Self::Queue => "QUEUE"@,
            Self::BufferPool => "BUFFER_POOL"@,
            Self::IngressPriorityGroup => "INGRESS_PRIORITY_GROUP"@,
        }
    }

    /// Short name of the object type, as reports show it.
    pub open spec fn spec_short_name(self) -> Seq<char> {
        match self {
            Self::Port => "Port"@,
            Self::Queue => "Queue"@,
            Self::BufferPool => "BufferPool"@,
            Self::IngressPriorityGroup => "IngressPriorityGroup"@,
        }
    }

    /// The object type with numeric identifier `value`, if any.
    pub open spec fn from_u32_spec(value: u32) -> Option<Self> {
        if value == 1 {
            Some(Self::Port)
        } else if value == 21 {
            Some(Self::Queue)
        } else if value == 24 {
            Some(Self::BufferPool)
        } else if value == 26 {
            Some(Self::IngressPriorityGroup)
        } else {
            None
        }
    }

    pub fn from_u32(value: u32) -> (r: Option<Self>)
        ensures
            r == Self::from_u32_spec(value),
            r matches Some(v) ==> v.spec_id() == value,
            r is None ==> forall|v: Self| v.spec_id() != value,
    {
        match value {
            1 => Some(Self::Port),
            21 => Some(Self::Queue),
            24 => Some(Self::BufferPool),
            26 => Some(Self::IngressPriorityGroup),
            _ => None,
        }
    }

    pub fn to_u32(self) -> (r: u32)
        ensures
            r == self.spec_id(),
    {
        match self {
            Self::Port => 1,
            Self::Queue => 21,
            Self::BufferPool => 24,
            Self::IngressPriorityGroup => 26,
        }
    }

    pub fn to_c_name(self) -> (r: &'static str)
        ensures
            r@ == self.spec_c_name(),
    {
        match self {
            Self::Port => "SAI_OBJECT_TYPE_PORT",
            Self::Queue => "SAI_OBJECT_TYPE_QUEUE",
            Self::BufferPool => "SAI_OBJECT_TYPE_BUFFER_POOL",
            Self::IngressPriorityGroup => "SAI_OBJECT_TYPE_INGRESS_PRIORITY_GROUP",
        }
    }

    pub fn suffix(self) -> (r: &'static str)
        ensures
            r@ == self.spec_suffix(),
    {
        match self {
            Self::Port => "PORT",
            Self::Queue => "QUEUE",
            Self::BufferPool => "BUFFER_POOL",
            Self::IngressPriorityGroup => "INGRESS_PRIORITY_GROUP",
        }
    }

    pub fn short_name(self) -> (r: &'static str)
        ensures
            r@ == self.spec_short_name(),
    {
        match self {
            Self::Port => "Port",
            Self::Queue => "Queue",
            Self::BufferPool => "BufferPool",
            Self::IngressPriorityGroup => "IngressPriorityGroup",
        }
    }
}

} // verus!
