//! Messages exchanged between the pipeline's stages.

use vstd::prelude::*;
use crate::stats::names_view;

verus! {

/// A session's template bundle and object names, or the session's removal.
#[derive(Debug, Clone)]
pub struct IPFixTemplatesMessage {
    pub key: String,
    pub templates: Option<Vec<u8>>,
    pub object_names: Option<Vec<String>>,
    pub is_delete: bool,
}

impl IPFixTemplatesMessage {
    /// An upsert of session `key`.
    pub fn new(key: String, templates: Vec<u8>, object_names: Option<Vec<String>>) -> (r: Self)
        ensures
            r.key@ == key@,
            r.templates matches Some(t) && t@ == templates@,
            match (r.object_names, object_names) {
                (Some(a), Some(b)) => names_view(a@) == names_view(b@),
                (None, None) => true,
                _ => false,
            },
            !r.is_delete,
    {
        IPFixTemplatesMessage { key, templates: Some(templates), object_names, is_delete: false }
    }

    /// The removal of session `key`.
    pub fn delete(key: String) -> (r: Self)
        ensures
            r.key@ == key@,
            r.templates is None,
            r.object_names is None,
            r.is_delete,
    {
        IPFixTemplatesMessage { key, templates: None, object_names: None, is_delete: true }
    }
}

/// Family and multicast group to connect the data socket to.
#[derive(Debug)]
pub struct SocketConnect {
    pub family: String,
    pub group: String,
}

/// Commands to the data ingress.
#[derive(Debug)]
pub enum NetlinkCommand {
    Close,
    Reconnect,
    SocketConnect(SocketConnect),
}

/// Configuration table of stream telemetry (not read by the pipeline).
pub struct SwssCfgStreamTelemetry {}

/// Configuration table of telemetry groups (not read by the pipeline).
pub struct SwssCfgTelemetryGroup {}

/// Streaming state of a telemetry session.
#[derive(Debug, Clone, Copy, PartialEq, Eq, Structural)]
pub enum SessionStatus {
    Enabled,
    Disabled,
}

/// Kind of a telemetry session.
#[derive(Debug, Clone, Copy, PartialEq, Eq, Structural)]
pub enum SessionType {
    Ipfix,
}

/// A telemetry session as the state database holds it.
pub struct SwssStateTelemetrySession {
    pub session_status: SessionStatus,
    pub session_type: SessionType,
    pub session_template: Vec<u8>,
}

} // verus!
