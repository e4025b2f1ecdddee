//! Reading and writing messages of the control protocol.
//!
//! Reading happens in two steps. `bc_frame` splits the bytes into a header,
//! the decrypted extension document and the payload as it arrived. Once the
//! extension document is decoded, `Bc::deserialize` decides how the payload
//! is decrypted and whether it is binary.
use vstd::prelude::*;
use vstd::bytes::*;
use vstd::slice::slice_subrange;
use vstd::string::StringSliceAdditionalSpecFns;
use vstd::utf8::{decode_utf8, valid_utf8};

use crate::crypto::EncryptionProtocol;
use crate::error::Error;
use crate::model::{
    payload_view, BcBody, BcPayloads, Bc, BcContext, Extension, LegacyMsg, ModernMsg, PayloadView,
    CLASS_LEGACY, LEGACY_LOGIN_BODY_LEN, MSG_ID_LOGIN, BcMeta,
    has_payload_offset, spec_has_payload_offset, BcHeader, MAGIC_HEADER, MAGIC_HEADER_REV,
};

verus! {

pub open spec fn le_u32_at(b: Seq<u8>, i: int) -> u32 {
    spec_u32_from_le_bytes(b.subrange(i, i + 4))
}

pub open spec fn le_u16_at(b: Seq<u8>, i: int) -> u16 {
    spec_u16_from_le_bytes(b.subrange(i, i + 2))
}

pub open spec fn valid_magic(m: u32) -> bool {
    m == MAGIC_HEADER || m == MAGIC_HEADER_REV
}

/// The length of the header of a message of this class.
pub open spec fn header_len(class: u16) -> nat {
    if spec_has_payload_offset(class) {
        24
    } else {
        20
    }
}

/// The header that the bytes hold, all fields little-endian after the magic.
pub open spec fn decode_header(b: Seq<u8>) -> BcHeader {
    let class = le_u16_at(b, 18);
    BcHeader {
        msg_id: le_u32_at(b, 4),
        body_len: le_u32_at(b, 8),
        channel_id: b[12],
        stream_type: b[13],
        msg_num: le_u16_at(b, 14),
        response_code: le_u16_at(b, 16),
        class,
        payload_offset: if spec_has_payload_offset(class) {
            Some(le_u32_at(b, 20))
        } else {
            None
        },
    }
}

/// The bytes of a header, with the usual magic number.
pub open spec fn encode_header(h: BcHeader) -> Seq<u8> {
    spec_u32_to_le_bytes(MAGIC_HEADER) + spec_u32_to_le_bytes(h.msg_id) + spec_u32_to_le_bytes(
        h.body_len,
    ) + seq![h.channel_id, h.stream_type] + spec_u16_to_le_bytes(h.msg_num)
        + spec_u16_to_le_bytes(h.response_code) + spec_u16_to_le_bytes(h.class) + match h.payload_offset {
        Some(o) => spec_u32_to_le_bytes(o),
        None => Seq::empty(),
    }
}

fn read_u32(buf: &[u8], i: usize) -> (r: u32)
    requires
        i <= 20,
        i + 4 <= buf@.len(),
    ensures
        r == le_u32_at(buf@, i as int),
{
    u32_from_le_bytes(slice_subrange(buf, i, i + 4))
}

fn read_u16(buf: &[u8], i: usize) -> (r: u16)
    requires
        i <= 20,
        i + 2 <= buf@.len(),
    ensures
        r == le_u16_at(buf@, i as int),
{
    u16_from_le_bytes(slice_subrange(buf, i, i + 2))
}

/// Reads the header at the start of `buf`, and how many bytes it takes.
pub fn bc_header(buf: &[u8]) -> (r: Result<(BcHeader, usize), Error>)
    ensures
        buf@.len() < 4 ==> r == Err::<(BcHeader, usize), Error>(Error::Truncated),
        buf@.len() >= 4 && !valid_magic(le_u32_at(buf@, 0)) ==> r == Err::<(BcHeader, usize), Error>(
            Error::BadMagic,
        ),
        buf@.len() >= 4 && valid_magic(le_u32_at(buf@, 0)) && buf@.len() < 20 ==> r == Err::<
            (BcHeader, usize),
            Error,
        >(Error::Truncated),
        buf@.len() >= 20 && valid_magic(le_u32_at(buf@, 0)) ==> r == if buf@.len() < header_len(
            le_u16_at(buf@, 18),
        ) {
            Err::<(BcHeader, usize), Error>(Error::Truncated)
        } else {
            Ok((decode_header(buf@), header_len(le_u16_at(buf@, 18)) as usize))
        },
        r matches Ok((h, n)) ==> h.well_formed() && n == header_len(h.class),
{
    if buf.len() < 4 {
        return Err(Error::Truncated);
    }
    let magic = read_u32(buf, 0);
    if magic != MAGIC_HEADER && magic != MAGIC_HEADER_REV {
        return Err(Error::BadMagic);
    }
    if buf.len() < 20 {
        return Err(Error::Truncated);
    }
    let msg_id = read_u32(buf, 4);
    let body_len = read_u32(buf, 8);
    let channel_id = buf[12];
    let stream_type = buf[13];
    let msg_num = read_u16(buf, 14);
    let response_code = read_u16(buf, 16);
    let class = read_u16(buf, 18);
    let payload_offset = if has_payload_offset(class) {
        if buf.len() < 24 {
            return Err(Error::Truncated);
        }
        Some(read_u32(buf, 20))
    } else {
        None
    };
    let len: usize = if payload_offset.is_some() {
        24
    } else {
        20
    };
    Ok(
        (
            BcHeader {
                body_len,
                msg_id,
                channel_id,
                stream_type,
                msg_num,
                response_code,
                class,
                payload_offset,
            },
            len,
        ),
    )
}

fn push_all(out: &mut Vec<u8>, bytes: Vec<u8>)
    ensures
        final(out)@ == old(out)@ + bytes@,
{
    let mut b = bytes;
    out.append(&mut b);
}

/// Writes a header with the usual magic number.
pub fn write_header(h: &BcHeader) -> (r: Vec<u8>)
    ensures
        r@ == encode_header(*h),
{
    let mut out: Vec<u8> = u32_to_le_bytes(MAGIC_HEADER);
    push_all(&mut out, u32_to_le_bytes(h.msg_id));
    push_all(&mut out, u32_to_le_bytes(h.body_len));
    out.push(h.channel_id);
    out.push(h.stream_type);
    push_all(&mut out, u16_to_le_bytes(h.msg_num));
    push_all(&mut out, u16_to_le_bytes(h.response_code));
    push_all(&mut out, u16_to_le_bytes(h.class));
    match h.payload_offset {
        Some(o) => push_all(&mut out, u32_to_le_bytes(o)),
        None => {},
    }
    assert(out@ =~= encode_header(*h));
    out
}

/// The header laws: a well-formed header reads back from its bytes, taking
/// exactly its length, with the payload offset present exactly for the classes
/// that carry one.
pub proof fn lemma_header_round_trip(h: BcHeader)
    requires
        h.well_formed(),
    ensures
        encode_header(h).len() == header_len(h.class),
        valid_magic(le_u32_at(encode_header(h), 0)),
        decode_header(encode_header(h)) == h,
{
    lemma_auto_spec_u32_to_from_le_bytes();
    lemma_auto_spec_u16_to_from_le_bytes();
    let b = encode_header(h);
    assert(b.subrange(0, 4) =~= spec_u32_to_le_bytes(MAGIC_HEADER));
    assert(b.subrange(4, 8) =~= spec_u32_to_le_bytes(h.msg_id));
    assert(b.subrange(8, 12) =~= spec_u32_to_le_bytes(h.body_len));
    assert(b.subrange(14, 16) =~= spec_u16_to_le_bytes(h.msg_num));
    assert(b.subrange(16, 18) =~= spec_u16_to_le_bytes(h.response_code));
    assert(b.subrange(18, 20) =~= spec_u16_to_le_bytes(h.class));
    match h.payload_offset {
        Some(o) => {
            assert(b.subrange(20, 24) =~= spec_u32_to_le_bytes(o));
        },
        None => {},
    }
}

/// The reversed magic number reads the same header as the usual one: the
/// magic says nothing about the other fields.
pub proof fn lemma_reversed_magic_same_header(b: Seq<u8>)
    requires
        b.len() >= 20,
        b.len() >= header_len(le_u16_at(b, 18)),
    ensures
        decode_header(spec_u32_to_le_bytes(MAGIC_HEADER_REV) + b.subrange(4, b.len() as int))
            == decode_header(spec_u32_to_le_bytes(MAGIC_HEADER) + b.subrange(4, b.len() as int)),
        valid_magic(
            le_u32_at(spec_u32_to_le_bytes(MAGIC_HEADER_REV) + b.subrange(4, b.len() as int), 0),
        ),
        valid_magic(
            le_u32_at(spec_u32_to_le_bytes(MAGIC_HEADER) + b.subrange(4, b.len() as int), 0),
        ),
{
    lemma_auto_spec_u32_to_from_le_bytes();
    let rest = b.subrange(4, b.len() as int);
    let x = spec_u32_to_le_bytes(MAGIC_HEADER_REV) + rest;
    let y = spec_u32_to_le_bytes(MAGIC_HEADER) + rest;
    assert(x.subrange(0, 4) =~= spec_u32_to_le_bytes(MAGIC_HEADER_REV));
    assert(y.subrange(0, 4) =~= spec_u32_to_le_bytes(MAGIC_HEADER));
    assert(x.subrange(4, x.len() as int) =~= y.subrange(4, y.len() as int));
    assert forall|i: int, j: int| 4 <= i <= j <= x.len() implies #[trigger] x.subrange(i, j)
        =~= y.subrange(i, j) by {
        assert(x.subrange(i, j) =~= rest.subrange(i - 4, j - 4));
        assert(y.subrange(i, j) =~= rest.subrange(i - 4, j - 4));
    }
    assert(x[12] == y[12]);
    assert(x[13] == y[13]);
    assert(x.subrange(4, 8) =~= y.subrange(4, 8));
    assert(x.subrange(8, 12) =~= y.subrange(8, 12));
    assert(x.subrange(14, 16) =~= y.subrange(14, 16));
    assert(x.subrange(16, 18) =~= y.subrange(16, 18));
    assert(x.subrange(18, 20) =~= y.subrange(18, 20));
    assert(x.subrange(18, 20) =~= b.subrange(18, 20));
    if x.len() >= 24 {
        assert(x.subrange(20, 24) =~= y.subrange(20, 24));
    }
}

/// Relies on String::from_utf8: it succeeds exactly on UTF-8 input, and the
/// string then holds the characters that the bytes encode.
#[verifier::external_body]
fn utf8_string(b: &[u8]) -> (r: Option<String>)
    ensures
        r is Some <==> valid_utf8(b@),
        r matches Some(s) ==> s@ == decode_utf8(b@),
{
    String::from_utf8(b.to_vec()).ok()
}

/// The two 32-byte text fields of a legacy login.
pub fn bc_legacy_login_msg(buf: &[u8]) -> (r: Result<LegacyMsg, Error>)
    ensures
        buf@.len() < 64 ==> r == Err::<LegacyMsg, Error>(Error::Truncated),
        buf@.len() >= 64 ==> (r is Ok <==> valid_utf8(buf@.subrange(0, 32)) && valid_utf8(
            buf@.subrange(32, 64),
        )),
        r matches Ok(m) ==> m matches LegacyMsg::LoginMsg { username, password } && username@
            == decode_utf8(buf@.subrange(0, 32)) && password@ == decode_utf8(buf@.subrange(32, 64)),
        buf@.len() >= 64 && r is Err ==> r == Err::<LegacyMsg, Error>(Error::MalformedPayload),
{
    if buf.len() < 64 {
        return Err(Error::Truncated);
    }
    let username = match utf8_string(slice_subrange(buf, 0, 32)) {
        Some(s) => s,
        None => return Err(Error::MalformedPayload),
    };
    let password = match utf8_string(slice_subrange(buf, 32, 64)) {
        Some(s) => s,
        None => return Err(Error::MalformedPayload),
    };
    Ok(LegacyMsg::LoginMsg { username, password })
}

/// A body as it was framed: a legacy message, or the decrypted extension
/// document and the payload as it arrived.
#[derive(Clone, Debug, PartialEq, Eq)]
pub enum FrameBody {
    Legacy(LegacyMsg),
    Modern { extension: Vec<u8>, payload: Vec<u8> },
}

/// A message whose extension document is not decoded yet.
#[derive(Clone, Debug, PartialEq, Eq)]
pub struct BcFrame {
    pub header: BcHeader,
    pub body: FrameBody,
}

/// The length of the extension of a modern message.
pub open spec fn ext_len(h: BcHeader) -> int {
    match h.payload_offset {
        Some(o) => o as int,
        None => 0,
    }
}

/// Why the bytes do not start with a whole message, if they do not.
pub open spec fn frame_error(b: Seq<u8>) -> Option<Error> {
    if b.len() < 4 {
        Some(Error::Truncated)
    } else if !valid_magic(le_u32_at(b, 0)) {
        Some(Error::BadMagic)
    } else if b.len() < 20 || b.len() < header_len(le_u16_at(b, 18)) {
        Some(Error::Truncated)
    } else {
        let h = decode_header(b);
        let hl = header_len(h.class) as int;
        if h.spec_is_modern() {
            if ext_len(h) > h.body_len {
                Some(Error::MalformedPayload)
            } else if b.len() < hl + h.body_len {
                Some(Error::Truncated)
            } else {
                None
            }
        } else if h.msg_id == MSG_ID_LOGIN {
            if b.len() < hl + 64 {
                Some(Error::Truncated)
            } else if !valid_utf8(b.subrange(hl, hl + 32)) || !valid_utf8(
                b.subrange(hl + 32, hl + 64),
            ) {
                Some(Error::MalformedPayload)
            } else {
                None
            }
        } else {
            None
        }
    }
}

/// Splits the message at the start of `buf` into its header and body, and
/// says how many bytes it took. The extension of a modern message is
/// decrypted with the connection's cipher at the channel's offset; the payload
/// is left as it came, since how to decrypt it depends on the extension.
pub fn bc_frame(context: &BcContext, buf: &[u8]) -> (r: Result<(BcFrame, usize), Error>)
    ensures
        r matches Ok((f, n)) ==> {
            let hl = header_len(f.header.class) as int;
            &&& buf@.len() >= hl
            &&& f.header == decode_header(buf@)
            &&& valid_magic(le_u32_at(buf@, 0))
            &&& f.header.well_formed()
            &&& if f.header.spec_is_modern() {
                &&& ext_len(f.header) <= f.header.body_len
                &&& n == hl + f.header.body_len
                &&& n <= buf@.len()
                &&& f.body matches FrameBody::Modern { extension, payload }
                &&& extension@ == context.encryption_protocol.decrypt_spec(
                    f.header.channel_id as u32,
                    buf@.subrange(hl as int, hl + ext_len(f.header)),
                )
                &&& payload@ == buf@.subrange(hl + ext_len(f.header), n as int)
            } else if f.header.msg_id == MSG_ID_LOGIN {
                &&& n == hl + 64
                &&& n <= buf@.len()
                &&& f.body matches FrameBody::Legacy(LegacyMsg::LoginMsg { username, password })
                &&& username@ == decode_utf8(buf@.subrange(hl as int, hl + 32))
                &&& password@ == decode_utf8(buf@.subrange(hl + 32, hl + 64))
            } else {
                &&& n == hl
                &&& f.body == FrameBody::Legacy(LegacyMsg::UnknownMsg)
            }
        },
        r is Err <==> frame_error(buf@) is Some,
        r matches Err(e) ==> frame_error(buf@) == Some(e),
{
    let (header, hl) = match bc_header(buf) {
        Ok(v) => v,
        Err(e) => return Err(e),
    };
    let rest = slice_subrange(buf, hl, buf.len());
    if header.is_modern() {
        let el: u32 = match header.payload_offset {
            Some(o) => o,
            None => 0,
        };
        if el > header.body_len {
            return Err(Error::MalformedPayload);
        }
        if rest.len() < header.body_len as usize {
            return Err(Error::Truncated);
        }
        let ext_raw = slice_subrange(rest, 0, el as usize);
        let payload_raw = slice_subrange(rest, el as usize, header.body_len as usize);
        let extension = context.encryption_protocol.decrypt(header.channel_id as u32, ext_raw);
        let payload = vstd::slice::slice_to_vec(payload_raw);
        let n = hl + header.body_len as usize;
        assert(ext_raw@ =~= buf@.subrange(hl as int, hl + ext_len(header)));
        assert(payload@ =~= buf@.subrange(hl + ext_len(header), n as int));
        Ok((BcFrame { header, body: FrameBody::Modern { extension, payload } }, n))
    } else if header.msg_id == MSG_ID_LOGIN {
        if rest.len() >= 64 {
            assert(rest@.subrange(0, 32) =~= buf@.subrange(hl as int, hl + 32));
            assert(rest@.subrange(32, 64) =~= buf@.subrange(hl + 32, hl + 64));
        }
        let msg = match bc_legacy_login_msg(rest) {
            Ok(m) => m,
            Err(e) => return Err(e),
        };
        Ok((BcFrame { header, body: FrameBody::Legacy(msg) }, hl + 64))
    } else {
        Ok((BcFrame { header, body: FrameBody::Legacy(LegacyMsg::UnknownMsg) }, hl))
    }
}

/// The cipher of a payload. A login reply whose code has `0xdd` as its high
/// byte sets the method: none when the low byte is zero, else the XOR cipher.
/// Other login traffic never uses AES: it falls back to the XOR cipher. All
/// else uses the connection's cipher.
pub open spec fn payload_protocol(
    msg_id: u32,
    response_code: u16,
    current: EncryptionProtocol,
) -> EncryptionProtocol {
    if msg_id == 1 && (response_code >> 8) & 0xff == 0xdd {
        if response_code & 0xff == 0 {
            EncryptionProtocol::Unencrypted
        } else {
            EncryptionProtocol::BCEncrypt
        }
    } else if msg_id == 1 && current.is_aes() {
        EncryptionProtocol::BCEncrypt
    } else {
        current
    }
}

/// Picks the cipher of a payload, in both directions.
pub fn payload_protocol_for(msg_id: u32, response_code: u16, current: &EncryptionProtocol) -> (r:
    EncryptionProtocol)
    ensures
        r == payload_protocol(msg_id, response_code, *current),
{
    if msg_id == 1 && (response_code >> 8) & 0xff == 0xdd {
        if response_code & 0xff == 0 {
            EncryptionProtocol::Unencrypted
        } else {
            EncryptionProtocol::BCEncrypt
        }
    } else if msg_id == 1 {
        match current {
            EncryptionProtocol::Aes { .. } | EncryptionProtocol::FullAes { .. } => {
                EncryptionProtocol::BCEncrypt
            },
            _ => *current,
        }
    } else {
        *current
    }
}

/// Login messages are never AES-encrypted, whatever the connection negotiated:
/// their payloads go out, and are read, with the XOR cipher or none.
pub proof fn lemma_login_never_aes(response_code: u16, current: EncryptionProtocol)
    ensures
        !payload_protocol(MSG_ID_LOGIN, response_code, current).is_aes(),
        payload_protocol(MSG_ID_LOGIN, response_code, current) == EncryptionProtocol::BCEncrypt
            || payload_protocol(MSG_ID_LOGIN, response_code, current)
            == EncryptionProtocol::Unencrypted,
{
}

/// Whether an extension marks its payload as binary.
pub open spec fn flags_binary(ext: Option<Extension>) -> bool {
    ext matches Some(e) && e.spec_is_binary()
}

/// The payload of a modern message, or the error, given the connection's
/// cipher, the numbers in binary mode, the header, the decoded extension and
/// the payload bytes as they arrived.
pub open spec fn modern_payload(
    current: EncryptionProtocol,
    binary_mode: Set<u16>,
    h: BcHeader,
    ext: Option<Extension>,
    raw: Seq<u8>,
) -> Result<Option<PayloadView>, Error> {
    if raw.len() == 0 {
        Ok(None)
    } else {
        let plain = payload_protocol(h.msg_id, h.response_code, current).decrypt_spec(
            h.channel_id as u32,
            raw,
        );
        if binary_mode.contains(h.msg_num) || flags_binary(ext) {
            let cut = if flags_binary(ext) {
                ext.unwrap().encrypt_len
            } else {
                None
            };
            match (current, cut) {
                (EncryptionProtocol::FullAes { .. }, Some(n)) => if n <= raw.len() {
                    Ok(Some(PayloadView::Binary(plain.subrange(0, n as int))))
                } else {
                    Err(Error::MalformedPayload)
                },
                _ => Ok(Some(PayloadView::Binary(raw))),
            }
        } else {
            Ok(Some(PayloadView::Xml(plain)))
        }
    }
}

/// The binary-mode set after a message: an extension that marks its payload
/// binary adds the message's number.
pub open spec fn binary_mode_after(binary_mode: Set<u16>, h: BcHeader, ext: Option<Extension>) -> Set<
    u16,
> {
    if flags_binary(ext) {
        binary_mode.insert(h.msg_num)
    } else {
        binary_mode
    }
}

/// Decodes the body of a modern message from its decoded extension and its
/// payload bytes, and records a binary stream that the extension announces.
pub fn bc_modern_msg(
    context: &mut BcContext,
    header: &BcHeader,
    extension: Option<Extension>,
    payload_buf: &[u8],
) -> (r: Result<ModernMsg, Error>)
    ensures
        match r {
            Ok(m) => m.extension == extension && modern_payload(
                old(context).encryption_protocol,
                old(context).in_bin_mode@,
                *header,
                extension,
                payload_buf@,
            ) == Ok::<Option<PayloadView>, Error>(payload_view(m.payload)),
            Err(e) => modern_payload(
                old(context).encryption_protocol,
                old(context).in_bin_mode@,
                *header,
                extension,
                payload_buf@,
            ) == Err::<Option<PayloadView>, Error>(e),
        },
        final(context).in_bin_mode@ == binary_mode_after(old(context).in_bin_mode@, *header, extension),
        final(context).encryption_protocol == old(context).encryption_protocol,
        final(context).credentials == old(context).credentials,
        final(context).debug == old(context).debug,
{
    let flagged = match extension {
        Some(e) => match e.binary_data {
            Some(b) => b == 1,
            None => false,
        },
        None => false,
    };
    let cut = if flagged {
        match extension {
            Some(e) => e.encrypt_len,
            None => None,
        }
    } else {
        None
    };
    let in_mode = context.is_binary(header.msg_num);
    if flagged {
        context.binary_on(header.msg_num);
    }
    let payload = if payload_buf.len() > 0 {
        let protocol = payload_protocol_for(
            header.msg_id,
            header.response_code,
            &context.encryption_protocol,
        );
        let plain = protocol.decrypt(header.channel_id as u32, payload_buf);
        if in_mode || flagged {
            match (&context.encryption_protocol, cut) {
                (EncryptionProtocol::FullAes { .. }, Some(n)) => {
                    if n as usize > payload_buf.len() {
                        return Err(Error::MalformedPayload);
                    }
                    let data = vstd::slice::slice_to_vec(
                        slice_subrange(plain.as_slice(), 0, n as usize),
                    );
                    Some(BcPayloads::Binary(data))
                },
                _ => Some(BcPayloads::Binary(vstd::slice::slice_to_vec(payload_buf))),
            }
        } else {
            Some(BcPayloads::BcXml(plain))
        }
    } else {
        None
    };
    Ok(ModernMsg { extension, payload })
}

impl Bc {
    /// Finishes reading a framed message, given its extension document decoded
    /// (`None` when it is absent or did not decode). A header whose payload
    /// offset is zero or absent has no extension; an extension that did not
    /// decode makes the message malformed.
    pub fn deserialize(context: &mut BcContext, frame: BcFrame, extension: Option<Extension>) -> (r:
        Result<Bc, Error>)
        ensures
            r matches Ok(m) ==> m.meta == frame.header.spec_to_meta(),
            match frame.body {
                FrameBody::Legacy(l) => r == Ok::<Bc, Error>(
                    Bc { meta: frame.header.spec_to_meta(), body: BcBody::LegacyMsg(l) },
                ) && final(context).in_bin_mode@ == old(context).in_bin_mode@,
                FrameBody::Modern { extension: doc, payload } => {
                    let ext = if ext_len(frame.header) > 0 {
                        extension
                    } else {
                        None
                    };
                    if ext_len(frame.header) > 0 && extension is None {
                        r == Err::<Bc, Error>(Error::MalformedPayload) && final(context).in_bin_mode@
                            == old(context).in_bin_mode@
                    } else {
                        &&& final(context).in_bin_mode@ == binary_mode_after(
                            old(context).in_bin_mode@,
                            frame.header,
                            ext,
                        )
                        &&& match r {
                            Ok(m) => m.body matches BcBody::ModernMsg(mm) && mm.extension == ext
                                && modern_payload(
                                old(context).encryption_protocol,
                                old(context).in_bin_mode@,
                                frame.header,
                                ext,
                                payload@,
                            ) == Ok::<Option<PayloadView>, Error>(payload_view(mm.payload)),
                            Err(e) => modern_payload(
                                old(context).encryption_protocol,
                                old(context).in_bin_mode@,
                                frame.header,
                                ext,
                                payload@,
                            ) == Err::<Option<PayloadView>, Error>(e),
                        }
                    }
                },
            },
            final(context).encryption_protocol == old(context).encryption_protocol,
            final(context).credentials == old(context).credentials,
    {
        let meta = frame.header.to_meta();
        let header = frame.header;
        match frame.body {
            FrameBody::Legacy(l) => Ok(Bc { meta, body: BcBody::LegacyMsg(l) }),
            FrameBody::Modern { extension: doc, payload } => {
                let el: u32 = match header.payload_offset {
                    Some(o) => o,
                    None => 0,
                };
                let ext = if el > 0 {
                    extension
                } else {
                    None
                };
                if el > 0 && extension.is_none() {
                    return Err(Error::MalformedPayload);
                }
                match bc_modern_msg(context, &header, ext, payload.as_slice()) {
                    Ok(m) => Ok(Bc { meta, body: BcBody::ModernMsg(m) }),
                    Err(e) => Err(e),
                }
            },
        }
    }
}

/// The header that `meta` gets over a body of `body_len` bytes whose
/// extension takes `ext_len` of them.
pub open spec fn header_for(meta: BcMeta, body_len: u32, ext_len: u32) -> BcHeader {
    BcHeader {
        body_len,
        msg_id: meta.msg_id,
        channel_id: meta.channel_id,
        stream_type: meta.stream_type,
        msg_num: meta.msg_num,
        response_code: meta.response_code,
        class: meta.class,
        payload_offset: if spec_has_payload_offset(meta.class) {
            Some(ext_len)
        } else {
            None
        },
    }
}

/// The extension document as it goes on the wire.
pub open spec fn sealed_extension(current: EncryptionProtocol, meta: BcMeta, ext: Seq<u8>) -> Seq<u8> {
    current.encrypt_spec(meta.channel_id as u32, ext)
}

/// The payload as it goes on the wire: binary data as it is, an XML document
/// under the cipher that `payload_protocol` picks.
pub open spec fn sealed_payload(
    current: EncryptionProtocol,
    meta: BcMeta,
    payload: Seq<u8>,
    binary: bool,
) -> Seq<u8> {
    if binary {
        payload
    } else {
        payload_protocol(meta.msg_id, meta.response_code, current).encrypt_spec(
            meta.channel_id as u32,
            payload,
        )
    }
}

/// The bytes of a modern message, or why it cannot be written: legacy
/// classes are not written this way, a class without a payload offset cannot
/// carry an extension, and the body length must fit its field.
pub open spec fn serialize_spec(
    current: EncryptionProtocol,
    meta: BcMeta,
    ext: Seq<u8>,
    payload: Seq<u8>,
    binary: bool,
) -> Result<Seq<u8>, Error> {
    let e = sealed_extension(current, meta, ext);
    let p = sealed_payload(current, meta, payload, binary);
    if meta.class == CLASS_LEGACY || (!spec_has_payload_offset(meta.class) && ext.len() > 0) {
        Err(Error::MalformedPayload)
    } else if e.len() + p.len() > u32::MAX {
        Err(Error::MalformedPayload)
    } else {
        Ok(encode_header(header_for(meta, (e.len() + p.len()) as u32, e.len() as u32)) + e + p)
    }
}

/// Writes a modern message: `extension` is the extension document (empty for
/// none) and `payload` the XML document or, when `binary` holds, the binary
/// data. The extension goes out under the connection's cipher at the
/// channel's offset; the payload as `sealed_payload` says.
pub fn bc_serialize(
    context: &BcContext,
    meta: &BcMeta,
    extension: &[u8],
    payload: &[u8],
    binary: bool,
) -> (r: Result<Vec<u8>, Error>)
    ensures
        match r {
            Ok(b) => serialize_spec(context.encryption_protocol, *meta, extension@, payload@, binary)
                == Ok::<Seq<u8>, Error>(b@),
            Err(e) => serialize_spec(
                context.encryption_protocol,
                *meta,
                extension@,
                payload@,
                binary,
            ) == Err::<Seq<u8>, Error>(e),
        },
        r matches Ok(b) ==> forall|ext: Option<Extension>|
            round_trips(context.encryption_protocol, context.in_bin_mode@, *meta, ext, binary)
                ==> #[trigger] reads_back(
                context.encryption_protocol,
                context.in_bin_mode@,
                *meta,
                extension@,
                ext,
                payload@,
                binary,
                b@,
            ),
{
    if meta.class == CLASS_LEGACY || (!has_payload_offset(meta.class) && extension.len() > 0) {
        return Err(Error::MalformedPayload);
    }
    let mut e = context.encryption_protocol.encrypt(meta.channel_id as u32, extension);
    let mut p = if binary {
        vstd::slice::slice_to_vec(payload)
    } else {
        let protocol = payload_protocol_for(
            meta.msg_id,
            meta.response_code,
            &context.encryption_protocol,
        );
        protocol.encrypt(meta.channel_id as u32, payload)
    };
    if e.len() > 0xffff_ffff || p.len() > 0xffff_ffff - e.len() {
        return Err(Error::MalformedPayload);
    }
    let el = e.len() as u32;
    let body_len = (e.len() + p.len()) as u32;
    let offset = if has_payload_offset(meta.class) {
        Some(el)
    } else {
        None
    };
    let header = BcHeader::from_meta(meta, body_len, offset);
    assert(header == header_for(*meta, body_len, el));
    let mut out = write_header(&header);
    out.append(&mut e);
    out.append(&mut p);
    proof {
        assert forall|ext: Option<Extension>|
            round_trips(
                context.encryption_protocol,
                context.in_bin_mode@,
                *meta,
                ext,
                binary,
            ) implies #[trigger] reads_back(
            context.encryption_protocol,
            context.in_bin_mode@,
            *meta,
            extension@,
            ext,
            payload@,
            binary,
            out@,
        ) by {
            lemma_written_frame_reads_back(
                context.encryption_protocol,
                context.in_bin_mode@,
                *meta,
                extension@,
                ext,
                payload@,
                binary,
            );
        }
    }
    Ok(out)
}

/// The payload that a message written with `payload` reads back as.
pub open spec fn expected_payload(payload: Seq<u8>, binary: bool) -> Option<PayloadView> {
    if payload.len() == 0 {
        None
    } else if binary {
        Some(PayloadView::Binary(payload))
    } else {
        Some(PayloadView::Xml(payload))
    }
}

proof fn lemma_non_aes_round_trip(p: EncryptionProtocol, offset: u32, x: Seq<u8>)
    requires
        !p.is_aes(),
    ensures
        p.decrypt_spec(offset, p.encrypt_spec(offset, x)) == x,
        p.encrypt_spec(offset, x).len() == x.len(),
{
    match p {
        EncryptionProtocol::BCEncrypt => crate::crypto::lemma_bcencrypt_round_trip(offset, x),
        _ => {},
    }
}

/// What reading the bytes `b`, written for `meta` with the extension
/// document `ext_doc` and `payload`, gives back: they frame without error;
/// the header reads back as `meta`; the extension decrypts to the document
/// written; and, given that document decoded as `ext`, the payload reads back
/// as written.
pub open spec fn reads_back(
    current: EncryptionProtocol,
    binary_mode: Set<u16>,
    meta: BcMeta,
    ext_doc: Seq<u8>,
    ext: Option<Extension>,
    payload: Seq<u8>,
    binary: bool,
    b: Seq<u8>,
) -> bool {
    let h = decode_header(b);
    let hl = header_len(meta.class) as int;
    &&& frame_error(b) is None
    &&& h.spec_to_meta() == meta
    &&& h.spec_is_modern()
    &&& hl + h.body_len == b.len()
    &&& ext_len(h) == ext_doc.len()
    &&& current.decrypt_spec(meta.channel_id as u32, b.subrange(hl, hl + ext_len(h))) == ext_doc
    &&& modern_payload(current, binary_mode, h, ext, b.subrange(hl + ext_len(h), b.len() as int))
        == Ok::<Option<PayloadView>, Error>(expected_payload(payload, binary))
}

/// The message is one that a reader can take back: its payload is binary
/// exactly when the binary-mode set or its extension says so, and it is not
/// a binary payload that an extension cuts under FullAes (such data is
/// written as it is, and would be read back decrypted and cut).
pub open spec fn round_trips(
    current: EncryptionProtocol,
    binary_mode: Set<u16>,
    meta: BcMeta,
    ext: Option<Extension>,
    binary: bool,
) -> bool {
    &&& binary == (binary_mode.contains(meta.msg_num) || flags_binary(ext))
    &&& !(binary && current is FullAes && flags_binary(ext) && ext.unwrap().encrypt_len is Some)
}

proof fn lemma_written_frame_reads_back(
    current: EncryptionProtocol,
    binary_mode: Set<u16>,
    meta: BcMeta,
    ext_doc: Seq<u8>,
    ext: Option<Extension>,
    payload: Seq<u8>,
    binary: bool,
)
    requires
        meta.class != CLASS_LEGACY,
        spec_has_payload_offset(meta.class) || ext_doc.len() == 0,
        round_trips(current, binary_mode, meta, ext, binary),
        sealed_extension(current, meta, ext_doc).len() == ext_doc.len(),
        current.decrypt_spec(meta.channel_id as u32, sealed_extension(current, meta, ext_doc))
            == ext_doc,
        sealed_payload(current, meta, payload, binary).len() == payload.len(),
        !binary ==> payload_protocol(meta.msg_id, meta.response_code, current).decrypt_spec(
            meta.channel_id as u32,
            sealed_payload(current, meta, payload, binary),
        ) == payload,
        ext_doc.len() + payload.len() <= u32::MAX,
    ensures
        serialize_spec(current, meta, ext_doc, payload, binary) matches Ok(b) && reads_back(
            current,
            binary_mode,
            meta,
            ext_doc,
            ext,
            payload,
            binary,
            b,
        ),
{
    let e = sealed_extension(current, meta, ext_doc);
    let p = sealed_payload(current, meta, payload, binary);
    let h0 = header_for(meta, (e.len() + p.len()) as u32, e.len() as u32);
    lemma_header_round_trip(h0);
    let hb = encode_header(h0);
    let b = hb + e + p;
    let hl = header_len(meta.class) as int;
    assert(b.subrange(0, hb.len() as int) =~= hb);
    assert forall|i: int, j: int| 0 <= i <= j <= hb.len() implies #[trigger] b.subrange(i, j)
        =~= hb.subrange(i, j) by {}
    assert(b[12] == hb[12]);
    assert(b[13] == hb[13]);
    assert(decode_header(b) == decode_header(hb));
    assert(b.subrange(hl, hl + e.len()) =~= e);
    assert(b.subrange(hl + e.len(), b.len() as int) =~= p);
}

/// Writing then reading gives the message back (for every cipher, written by
/// `bc_serialize`, whose contract says so). Under a cipher other than AES it
/// follows from the cipher specs alone: a modern message frames without
/// error; its header reads back as its meta; its extension decrypts to the
/// document written; and, given that document decoded, its payload reads back
/// as written, binary exactly when the extension or the binary-mode set says so.
pub proof fn lemma_codec_round_trip(
    current: EncryptionProtocol,
    binary_mode: Set<u16>,
    meta: BcMeta,
    ext_doc: Seq<u8>,
    ext: Option<Extension>,
    payload: Seq<u8>,
    binary: bool,
)
    requires
        !current.is_aes(),
        meta.class != CLASS_LEGACY,
        spec_has_payload_offset(meta.class) || ext_doc.len() == 0,
        ext_doc.len() + payload.len() <= u32::MAX,
        binary == (binary_mode.contains(meta.msg_num) || flags_binary(ext)),
    ensures
        serialize_spec(current, meta, ext_doc, payload, binary) matches Ok(b) && reads_back(
            current,
            binary_mode,
            meta,
            ext_doc,
            ext,
            payload,
            binary,
            b,
        ),
{
    let ch = meta.channel_id as u32;
    let pp = payload_protocol(meta.msg_id, meta.response_code, current);
    lemma_non_aes_round_trip(current, ch, ext_doc);
    lemma_non_aes_round_trip(pp, ch, payload);
    lemma_written_frame_reads_back(current, binary_mode, meta, ext_doc, ext, payload, binary);
}

/// Once an extension puts a message number in binary mode, later messages
/// with that number never read as XML, and the number stays in the set
/// whatever their extensions say, until the stream is ended.
pub proof fn lemma_binary_promotion_persists(
    current: EncryptionProtocol,
    binary_mode: Set<u16>,
    first: BcHeader,
    first_ext: Option<Extension>,
    later: BcHeader,
    later_ext: Option<Extension>,
    raw: Seq<u8>,
)
    requires
        flags_binary(first_ext),
        later.msg_num == first.msg_num,
    ensures
        binary_mode_after(binary_mode, first, first_ext).contains(later.msg_num),
        binary_mode_after(binary_mode_after(binary_mode, first, first_ext), later, later_ext).contains(
            later.msg_num,
        ),
        modern_payload(current, binary_mode_after(binary_mode, first, first_ext), later, later_ext, raw)
            matches Ok(Some(v)) ==> v is Binary,
        raw.len() > 0 && !(current is FullAes) ==> modern_payload(
            current,
            binary_mode_after(binary_mode, first, first_ext),
            later,
            later_ext,
            raw,
        ) == Ok::<Option<PayloadView>, Error>(Some(PayloadView::Binary(raw))),
{
}

/// The header and body of the legacy login: the hashed user name, an empty
/// password field, and zeros up to the body length.
pub open spec fn legacy_login_spec(username: Seq<u8>) -> Seq<u8> {
    encode_header(
        BcHeader {
            body_len: LEGACY_LOGIN_BODY_LEN,
            msg_id: MSG_ID_LOGIN,
            channel_id: 0,
            stream_type: 0,
            msg_num: 0,
            response_code: 0xdc03,
            class: CLASS_LEGACY,
            payload_offset: None,
        },
    ) + crate::crypto::legacy_name_spec(username) + Seq::new(
        (LEGACY_LOGIN_BODY_LEN - 32) as nat,
        |i: int| 0u8,
    )
}

/// Writes the legacy login that opens the handshake.
pub fn legacy_login(username: &str) -> (r: Vec<u8>)
    ensures
        r@ == legacy_login_spec(username.spec_bytes()),
{
    let header = BcHeader {
        body_len: LEGACY_LOGIN_BODY_LEN,
        msg_id: MSG_ID_LOGIN,
        channel_id: 0,
        stream_type: 0,
        msg_num: 0,
        response_code: 0xdc03,
        class: CLASS_LEGACY,
        payload_offset: None,
    };
    let mut out = write_header(&header);
    let mut name = crate::crypto::legacy_hash(username);
    out.append(&mut name);
    let start: usize = out.len();
    let mut i: usize = 0;
    while i < (LEGACY_LOGIN_BODY_LEN - 32) as usize
        invariant
            start == out@.len() - i,
            start == encode_header(header).len() + 32,
            out@.subrange(0, start as int) == encode_header(header) + crate::crypto::legacy_name_spec(
                username.spec_bytes(),
            ),
            forall|j: int| start <= j < out@.len() ==> out@[j] == 0u8,
            i <= (LEGACY_LOGIN_BODY_LEN - 32) as usize,
        decreases (LEGACY_LOGIN_BODY_LEN - 32) as usize - i,
    {
        let ghost before = out@;
        out.push(0);
        i += 1;
        assert(out@.subrange(0, start as int) =~= before.subrange(0, start as int));
    }
    assert(out@ =~= legacy_login_spec(username.spec_bytes()));
    out
}

} // verus!
