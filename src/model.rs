//! The messages of the control protocol and the state of one connection.
use vstd::prelude::*;

use crate::crypto::EncryptionProtocol;
use std::collections::HashSet;

verus! {

pub const MAGIC_HEADER: u32 = 0x0abcdef0;

/// The byte-reversed magic number, which some cameras send as a hint about
/// the endianness of a binary payload; all header fields stay little-endian.
pub const MAGIC_HEADER_REV: u32 = 0x0fedcba0;

pub const MSG_ID_LOGIN: u32 = 1;
pub const MSG_ID_LOGOUT: u32 = 2;
pub const MSG_ID_VIDEO: u32 = 3;
pub const MSG_ID_VIDEO_STOP: u32 = 4;
pub const MSG_ID_TALKABILITY: u32 = 10;
pub const MSG_ID_TALKRESET: u32 = 11;
pub const MSG_ID_PTZ_CONTROL: u32 = 18;
pub const MSG_ID_PTZ_CONTROL_PRESET: u32 = 19;
pub const MSG_ID_REBOOT: u32 = 23;
pub const MSG_ID_MOTION_REQUEST: u32 = 31;
pub const MSG_ID_MOTION: u32 = 33;
pub const MSG_ID_SET_SERVICE_PORTS: u32 = 36;
pub const MSG_ID_GET_SERVICE_PORTS: u32 = 37;
pub const MSG_ID_GET_EMAIL: u32 = 42;
pub const MSG_ID_SET_EMAIL: u32 = 43;
pub const MSG_ID_GET_ABILITY_SUPPORT: u32 = 58;
pub const MSG_ID_UPDATE_USER_LIST: u32 = 59;
pub const MSG_ID_VERSION: u32 = 80;
pub const MSG_ID_PING: u32 = 93;
pub const MSG_ID_GET_GENERAL: u32 = 104;
pub const MSG_ID_SET_GENERAL: u32 = 105;
pub const MSG_ID_SNAP: u32 = 109;
pub const MSG_ID_UID: u32 = 114;
pub const MSG_ID_PUSH_INFO: u32 = 124;
pub const MSG_ID_TEST_EMAIL: u32 = 141;
pub const MSG_ID_STREAM_INFO_LIST: u32 = 146;
pub const MSG_ID_ABILITY_INFO: u32 = 151;
pub const MSG_ID_GET_PTZ_PRESET: u32 = 190;
pub const MSG_ID_GET_SUPPORT: u32 = 199;
pub const MSG_ID_TALKCONFIG: u32 = 201;
pub const MSG_ID_TALK: u32 = 202;
pub const MSG_ID_GET_LED_STATUS: u32 = 208;
pub const MSG_ID_SET_LED_STATUS: u32 = 209;
pub const MSG_ID_GET_PIR_ALARM: u32 = 212;
pub const MSG_ID_START_PIR_ALARM: u32 = 213;
pub const MSG_ID_SET_EMAIL_TASK: u32 = 216;
pub const MSG_ID_GET_EMAIL_TASK: u32 = 217;
pub const MSG_ID_UDP_KEEP_ALIVE: u32 = 234;
pub const MSG_ID_BATTERY_INFO_LIST: u32 = 252;
pub const MSG_ID_BATTERY_INFO: u32 = 253;
pub const MSG_ID_PLAY_AUDIO: u32 = 263;
pub const MSG_ID_FLOODLIGHT_MANUAL: u32 = 288;
pub const MSG_ID_FLOODLIGHT_TASKS_WRITE: u32 = 290;
pub const MSG_ID_FLOODLIGHT_STATUS_LIST: u32 = 291;
pub const MSG_ID_GET_ZOOM_FOCUS: u32 = 294;
pub const MSG_ID_SET_ZOOM_FOCUS: u32 = 295;
pub const MSG_ID_FLOODLIGHT_TASKS_READ: u32 = 438;

/// The class of the legacy login message.
pub const CLASS_LEGACY: u16 = 0x6514;
/// A modern message whose header has no payload offset.
pub const CLASS_MODERN_NO_OFFSET: u16 = 0x6614;
/// A modern message whose header carries a payload offset.
pub const CLASS_MODERN_OFFSET: u16 = 0x6414;
/// The class of most modern messages; its header carries a payload offset.
pub const CLASS_MODERN: u16 = 0x0000;

/// An empty password in the legacy login: 32 NUL characters.
pub const EMPTY_LEGACY_PASSWORD: &'static str = "\0\0\0\0\0\0\0\0\0\0\0\0\0\0\0\0\0\0\0\0\0\0\0\0\0\0\0\0\0\0\0\0";

/// The length of the legacy login body.
pub const LEGACY_LOGIN_BODY_LEN: u32 = 1836;

/// Whether the header of a message of this class carries a payload offset.
pub open spec fn spec_has_payload_offset(class: u16) -> bool {
    class == 0x6414 || class == 0x0000
}

pub fn has_payload_offset(class: u16) -> (r: bool)
    ensures
        r == spec_has_payload_offset(class),
{
    class == 0x6414 || class == 0x0000
}

/// The parts of the header that describe the message rather than its body.
#[derive(Clone, Copy, Debug, PartialEq, Eq, Structural)]
pub struct BcMeta {
    /// What the message is about.
    pub msg_id: u32,
    /// Zero but on video recorders.
    pub channel_id: u8,
    /// Zero for the clear stream, one for the fluent stream.
    pub stream_type: u8,
    /// Zero in a request; the camera's answer code in a reply.
    pub response_code: u16,
    /// Matches a reply to its request; the camera echoes it.
    pub msg_num: u16,
    /// Selects the framing: see `has_payload_offset` and `BcHeader::is_modern`.
    pub class: u16,
}

/// The header of a message as it stands on the wire.
#[derive(Clone, Copy, Debug, PartialEq, Eq, Structural)]
pub struct BcHeader {
    pub body_len: u32,
    pub msg_id: u32,
    pub channel_id: u8,
    pub stream_type: u8,
    pub msg_num: u16,
    pub response_code: u16,
    pub class: u16,
    pub payload_offset: Option<u32>,
}

impl BcHeader {
    pub open spec fn spec_is_modern(&self) -> bool {
        self.class != 0x6514
    }

    pub open spec fn spec_to_meta(&self) -> BcMeta {
        BcMeta {
            msg_id: self.msg_id,
            channel_id: self.channel_id,
            stream_type: self.stream_type,
            response_code: self.response_code,
            msg_num: self.msg_num,
            class: self.class,
        }
    }

    /// Whether the payload offset is present exactly for the classes that carry one.
    pub open spec fn well_formed(&self) -> bool {
        self.payload_offset.is_some() == spec_has_payload_offset(self.class)
    }

    /// Every class but the legacy one is modern.
    pub fn is_modern(&self) -> (r: bool)
        ensures
            r == self.spec_is_modern(),
    {
        self.class != 0x6514
    }

    /// The header without the fields that describe the body.
    pub fn to_meta(&self) -> (r: BcMeta)
        ensures
            r == self.spec_to_meta(),
    {
        BcMeta {
            msg_id: self.msg_id,
            msg_num: self.msg_num,
            channel_id: self.channel_id,
            response_code: self.response_code,
            stream_type: self.stream_type,
            class: self.class,
        }
    }

    /// A header for `meta` with a body of `body_len` bytes whose payload
    /// starts at `payload_offset`.
    pub fn from_meta(meta: &BcMeta, body_len: u32, payload_offset: Option<u32>) -> (r: BcHeader)
        ensures
            r.spec_to_meta() == *meta,
            r.body_len == body_len,
            r.payload_offset == payload_offset,
    {
        BcHeader {
            payload_offset,
            body_len,
            msg_id: meta.msg_id,
            channel_id: meta.channel_id,
            stream_type: meta.stream_type,
            response_code: meta.response_code,
            msg_num: meta.msg_num,
            class: meta.class,
        }
    }
}

/// What the codec reads of the extension document that precedes a payload.
#[derive(Clone, Copy, Debug, PartialEq, Eq, Structural, Default)]
pub struct Extension {
    /// `1` when the payload, and those after it with the same number, are binary.
    pub binary_data: Option<u32>,
    /// How many bytes of an AES-padded binary payload are data.
    pub encrypt_len: Option<u32>,
    /// The channel that the payload is for.
    pub channel_id: Option<u8>,
}

impl Extension {
    pub open spec fn spec_is_binary(&self) -> bool {
        self.binary_data == Some(1u32)
    }
}

/// A modern payload: an XML document (as its decrypted text) or binary data.
#[derive(Clone, Debug, PartialEq, Eq)]
pub enum BcPayloads {
    BcXml(Vec<u8>),
    Binary(Vec<u8>),
}

/// The contents of a payload.
pub enum PayloadView {
    Xml(Seq<u8>),
    Binary(Seq<u8>),
}

impl View for BcPayloads {
    type V = PayloadView;

    open spec fn view(&self) -> PayloadView {
        match self {
            BcPayloads::BcXml(x) => PayloadView::Xml(x@),
            BcPayloads::Binary(b) => PayloadView::Binary(b@),
        }
    }
}

/// The contents of an optional payload.
pub open spec fn payload_view(p: Option<BcPayloads>) -> Option<PayloadView> {
    match p {
        Some(x) => Some(x@),
        None => None,
    }
}

/// The body of a modern message: an optional extension, then an optional payload.
#[derive(Clone, Debug, PartialEq, Eq)]
pub struct ModernMsg {
    pub extension: Option<Extension>,
    pub payload: Option<BcPayloads>,
}

/// The legacy messages; only the login is understood.
#[derive(Clone, Debug, PartialEq, Eq)]
pub enum LegacyMsg {
    /// The two fixed-width fields of a legacy login.
    LoginMsg { username: String, password: String },
    /// The request to move on to the modern protocol.
    LoginUpgrade,
    /// Any other legacy message.
    UnknownMsg,
}

#[derive(Clone, Debug, PartialEq, Eq)]
pub enum BcBody {
    LegacyMsg(LegacyMsg),
    ModernMsg(ModernMsg),
}

/// A whole message.
#[derive(Clone, Debug, PartialEq, Eq)]
pub struct Bc {
    pub meta: BcMeta,
    pub body: BcBody,
}

impl Bc {
    /// A message with an XML payload only.
    pub fn new_from_xml(meta: BcMeta, xml: Vec<u8>) -> (r: Bc)
        ensures
            r == (Bc {
                meta,
                body: BcBody::ModernMsg(
                    ModernMsg { extension: None, payload: Some(BcPayloads::BcXml(xml)) },
                ),
            }),
    {
        Self::new(meta, None, Some(BcPayloads::BcXml(xml)))
    }

    /// A message with an extension only.
    pub fn new_from_ext(meta: BcMeta, ext: Extension) -> (r: Bc)
        ensures
            r == (Bc {
                meta,
                body: BcBody::ModernMsg(ModernMsg { extension: Some(ext), payload: None }),
            }),
    {
        Self::new(meta, Some(ext), None)
    }

    /// A message that is a header only.
    pub fn new_from_meta(meta: BcMeta) -> (r: Bc)
        ensures
            r == (Bc {
                meta,
                body: BcBody::ModernMsg(ModernMsg { extension: None, payload: None }),
            }),
    {
        Self::new(meta, None, None)
    }

    /// A message with both an extension and an XML payload.
    pub fn new_from_ext_xml(meta: BcMeta, ext: Extension, xml: Vec<u8>) -> (r: Bc)
        ensures
            r == (Bc {
                meta,
                body: BcBody::ModernMsg(
                    ModernMsg { extension: Some(ext), payload: Some(BcPayloads::BcXml(xml)) },
                ),
            }),
    {
        Self::new(meta, Some(ext), Some(BcPayloads::BcXml(xml)))
    }

    /// A modern message from its parts.
    pub fn new(meta: BcMeta, extension: Option<Extension>, payload: Option<BcPayloads>) -> (r: Bc)
        ensures
            r == (Bc { meta, body: BcBody::ModernMsg(ModernMsg { extension, payload }) }),
    {
        Bc { meta, body: BcBody::ModernMsg(ModernMsg { extension, payload }) }
    }
}

/// The credentials of a camera user.
#[derive(Clone, Debug, PartialEq, Eq, Default)]
pub struct Credentials {
    pub username: String,
    pub password: Option<String>,
}

/// The state of one connection: the negotiated cipher and the message
/// numbers whose payloads are binary.
#[derive(Debug)]
pub struct BcContext {
    pub credentials: Credentials,
    pub in_bin_mode: HashSet<u16>,
    pub encryption_protocol: EncryptionProtocol,
    pub debug: bool,
}

impl BcContext {
    pub fn new(credentials: Credentials) -> (r: BcContext)
        ensures
            r.credentials == credentials,
            r.in_bin_mode@ == Set::<u16>::empty(),
            r.encryption_protocol == EncryptionProtocol::Unencrypted,
            !r.debug,
    {
        BcContext {
            credentials,
            in_bin_mode: HashSet::new(),
            encryption_protocol: EncryptionProtocol::Unencrypted,
            debug: false,
        }
    }

    pub fn new_with_encryption(encryption_protocol: EncryptionProtocol) -> (r: BcContext)
        ensures
            r.credentials.username@ == Seq::<char>::empty(),
            r.credentials.password is None,
            r.in_bin_mode@ == Set::<u16>::empty(),
            r.encryption_protocol == encryption_protocol,
            !r.debug,
    {
        BcContext {
            credentials: Credentials { username: String::new(), password: None },
            in_bin_mode: HashSet::new(),
            encryption_protocol,
            debug: false,
        }
    }

    pub fn set_encrypted(&mut self, encryption_protocol: EncryptionProtocol)
        ensures
            final(self).encryption_protocol == encryption_protocol,
            final(self).in_bin_mode@ == old(self).in_bin_mode@,
            final(self).credentials == old(self).credentials,
            final(self).debug == old(self).debug,
    {
        self.encryption_protocol = encryption_protocol;
    }

    pub fn get_encrypted(&self) -> (r: &EncryptionProtocol)
        ensures
            *r == self.encryption_protocol,
    {
        &self.encryption_protocol
    }

    /// Marks the payloads of messages numbered `msg_num` as binary.
    pub fn binary_on(&mut self, msg_num: u16)
        ensures
            final(self).in_bin_mode@ == old(self).in_bin_mode@.insert(msg_num),
            final(self).encryption_protocol == old(self).encryption_protocol,
            final(self).credentials == old(self).credentials,
            final(self).debug == old(self).debug,
    {
        self.in_bin_mode.insert(msg_num);
    }

    /// Ends the binary stream of messages numbered `msg_num`.
    pub fn binary_off(&mut self, msg_num: u16)
        ensures
            final(self).in_bin_mode@ == old(self).in_bin_mode@.remove(msg_num),
            final(self).encryption_protocol == old(self).encryption_protocol,
            final(self).credentials == old(self).credentials,
            final(self).debug == old(self).debug,
    {
        self.in_bin_mode.remove(&msg_num);
    }

    /// Whether the payloads of messages numbered `msg_num` are binary.
    pub fn is_binary(&self, msg_num: u16) -> (r: bool)
        ensures
            r == self.in_bin_mode@.contains(msg_num),
    {
        self.in_bin_mode.contains(&msg_num)
    }

    pub fn debug_on(&mut self)
        ensures
            final(self).debug,
            final(self).in_bin_mode@ == old(self).in_bin_mode@,
            final(self).encryption_protocol == old(self).encryption_protocol,
            final(self).credentials == old(self).credentials,
    {
        self.debug = true;
    }
}

} // verus!
