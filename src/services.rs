//! The service ports of a camera (its own port, HTTP, HTTPS, RTMP, RTSP and
//! ONVIF): the command-line request, and how it changes a port record.
use vstd::prelude::*;
use vstd::string::StringExecFns;

use crate::error::Error;
use crate::model::BcMeta;

verus! {

/// The services command: turn a camera's service on or off, or move its port.
pub struct Opt {
    /// The name of the camera, as in the configuration.
    pub camera: String,
    pub service: Services,
    pub cmd: PortAction,
}

#[derive(Clone, Copy, Debug, PartialEq, Eq, Structural)]
pub enum Services {
    Baichuan,
    Http,
    Https,
    Rtmp,
    Rtsp,
    Onvif,
}

#[derive(Clone, Copy, Debug, PartialEq, Eq, Structural)]
pub enum PortAction {
    /// Show the current settings.
    Get,
    /// Turn the service on.
    On,
    /// Turn the service off.
    Off,
    /// Set both the port and on or off.
    PortAndState { port: u32, enabled: bool },
    /// Set the port.
    Port { port: u32 },
}

/// Reads an on/off word: `true`, `on` and `yes` mean on; `false`, `off` and
/// `no` mean off; anything else is not understood.
pub fn onoff_parse(src: &str) -> (r: Option<bool>)
    ensures
        r == if src@ == "true"@ || src@ == "on"@ || src@ == "yes"@ {
            Some(true)
        } else if src@ == "false"@ || src@ == "off"@ || src@ == "no"@ {
            Some(false)
        } else {
            None::<bool>
        },
{
    let s = String::from_str(src);
    if s == String::from_str("true") || s == String::from_str("on") || s == String::from_str("yes") {
        Some(true)
    } else if s == String::from_str("false") || s == String::from_str("off") || s
        == String::from_str("no") {
        Some(false)
    } else {
        None
    }
}

/// What an action asks of the service: on or off, and a port.
pub fn port_request(action: PortAction) -> (r: (Option<bool>, Option<u32>))
    ensures
        r == match action {
            PortAction::Get => (None::<bool>, None::<u32>),
            PortAction::On => (Some(true), None::<u32>),
            PortAction::Off => (Some(false), None::<u32>),
            PortAction::PortAndState { port, enabled } => (Some(enabled), Some(port)),
            PortAction::Port { port } => (None::<bool>, Some(port)),
        },
{
    match action {
        PortAction::Get => (None, None),
        PortAction::On => (Some(true), None),
        PortAction::Off => (Some(false), None),
        PortAction::PortAndState { port, enabled } => (Some(enabled), Some(port)),
        PortAction::Port { port } => (None, Some(port)),
    }
}

/// The settings of one service port as the camera reports them.
#[derive(Clone, Copy, Debug, PartialEq, Eq, Structural)]
pub struct ServicePort {
    pub enable: Option<u8>,
    pub port: u32,
}

/// The record to send back: `enable` becomes 1 or 0 when on or off is
/// requested, `port` the requested port; what is not requested stays.
pub fn apply_port_request(current: ServicePort, set_on: Option<bool>, set_port: Option<u32>) -> (r:
    ServicePort)
    ensures
        r.enable == match set_on {
            Some(true) => Some(1u8),
            Some(false) => Some(0u8),
            None => current.enable,
        },
        r.port == match set_port {
            Some(p) => p,
            None => current.port,
        },
{
    let mut next = current;
    match set_on {
        Some(enabled) => {
            next.enable = Some(if enabled { 1 } else { 0 });
        },
        None => {},
    }
    match set_port {
        Some(port) => {
            next.port = port;
        },
        None => {},
    }
    next
}

/// Another service that must change first: ONVIF cannot run without RTSP, so
/// RTSP is turned on before ONVIF is, and ONVIF is turned off before RTSP is.
pub fn service_dependency(service: Services, set_on: Option<bool>) -> (r: Option<(Services, bool)>)
    ensures
        r == match (service, set_on) {
            (Services::Onvif, Some(true)) => Some((Services::Rtsp, true)),
            (Services::Rtsp, Some(false)) => Some((Services::Onvif, false)),
            _ => None::<(Services, bool)>,
        },
{
    match (service, set_on) {
        (Services::Onvif, Some(true)) => Some((Services::Rtsp, true)),
        (Services::Rtsp, Some(false)) => Some((Services::Onvif, false)),
        _ => None,
    }
}

/// A reply to a command: code 200 is success, any other code makes the
/// service unavailable for that message id.
pub fn reply_ok(meta: &BcMeta) -> (r: Result<(), Error>)
    ensures
        r == if meta.response_code == 200 {
            Ok::<(), Error>(())
        } else {
            Err(Error::CameraServiceUnavailable { id: meta.msg_id, code: meta.response_code })
        },
{
    if meta.response_code == 200 {
        Ok(())
    } else {
        Err(Error::CameraServiceUnavailable { id: meta.msg_id, code: meta.response_code })
    }
}

/// What follows a reply to a read of the service ports.
#[derive(Debug, PartialEq, Eq)]
pub enum ReplyAction {
    /// The reply holds the answer.
    Accept,
    /// Ask again after half a second.
    Retry,
    /// Give up with this error.
    Fail(Error),
}

/// A read answered with code 400 is asked again, five times at most; code
/// 200 is accepted; any other code is an error.
pub fn read_reply(msg_id: u32, retries: usize, code: u16) -> (r: ReplyAction)
    ensures
        r == if code == 200 {
            ReplyAction::Accept
        } else if code == 400 && retries < 5 {
            ReplyAction::Retry
        } else {
            ReplyAction::Fail(Error::CameraServiceUnavailable { id: msg_id, code })
        },
{
    if code == 200 {
        ReplyAction::Accept
    } else if code == 400 && retries < 5 {
        ReplyAction::Retry
    } else {
        ReplyAction::Fail(Error::CameraServiceUnavailable { id: msg_id, code })
    }
}

/// A write succeeds on code 200, or on silence (`None`): some firmwares never
/// acknowledge a write.
pub fn write_reply(msg_id: u32, code: Option<u16>) -> (r: Result<(), Error>)
    ensures
        r == match code {
            None => Ok::<(), Error>(()),
            Some(c) => if c == 200 {
                Ok::<(), Error>(())
            } else {
                Err(Error::CameraServiceUnavailable { id: msg_id, code: c })
            },
        },
{
    match code {
        None => Ok(()),
        Some(c) => if c == 200 {
            Ok(())
        } else {
            Err(Error::CameraServiceUnavailable { id: msg_id, code: c })
        },
    }
}

} // verus!
