use neolink::codec::{
    bc_frame, bc_header, bc_serialize, legacy_login, payload_protocol_for, BcFrame, FrameBody,
};
use neolink::crypto::{bc_crypt, derive_aes_key, EncryptionProtocol};
use neolink::error::Error;
use neolink::model::{
    Bc, BcBody, BcContext, BcHeader, BcMeta, BcPayloads, Credentials, Extension, LegacyMsg,
    ModernMsg, MAGIC_HEADER, MAGIC_HEADER_REV,
};

#[allow(clippy::too_many_arguments)]
fn header(
    magic: u32,
    msg_id: u32,
    body_len: u32,
    channel_id: u8,
    msg_num: u16,
    response_code: u16,
    class: u16,
    payload_offset: Option<u32>,
) -> Vec<u8> {
    let mut v = Vec::new();
    v.extend_from_slice(&magic.to_le_bytes());
    v.extend_from_slice(&msg_id.to_le_bytes());
    v.extend_from_slice(&body_len.to_le_bytes());
    v.push(channel_id);
    v.push(0);
    v.extend_from_slice(&msg_num.to_le_bytes());
    v.extend_from_slice(&response_code.to_le_bytes());
    v.extend_from_slice(&class.to_le_bytes());
    if let Some(o) = payload_offset {
        v.extend_from_slice(&o.to_le_bytes());
    }
    v
}

/// Frames `buf`, then finishes it with the extension document read by a
/// caller that finds a `<binaryData>1</binaryData>` element.
fn read(context: &mut BcContext, buf: &[u8]) -> Result<(Bc, usize), Error> {
    let (frame, n) = bc_frame(context, buf)?;
    let ext = match &frame.body {
        FrameBody::Modern { extension, .. } if !extension.is_empty() => {
            let text = String::from_utf8(extension.clone()).unwrap();
            Some(Extension {
                binary_data: if text.contains("<binaryData>1</binaryData>") { Some(1) } else { None },
                encrypt_len: None,
                channel_id: None,
            })
        }
        _ => None,
    };
    Ok((Bc::deserialize(context, frame, ext)?, n))
}

fn encryption_xml(nonce: &str, len: usize) -> Vec<u8> {
    let mut xml = format!(
        "<?xml version=\"1.0\" encoding=\"UTF-8\" ?>\n<body>\n<Encryption version=\"1.1\">\n<type>md5</type>\n<nonce>{}</nonce>\n</Encryption>\n</body>\n",
        nonce
    )
    .into_bytes();
    xml.resize(len, b' ');
    xml
}

#[test]
fn test_bc_modern_login() {
    let xml = encryption_xml("9E6D1FCB9E69846D", 145);
    let mut sample = header(MAGIC_HEADER, 1, 145, 0, 0, 0xdd01, 0x6614, None);
    sample.extend(bc_crypt(0, &xml));

    let context = BcContext::new_with_encryption(EncryptionProtocol::BCEncrypt);

    let (header, hl) = bc_header(&sample[..]).unwrap();
    assert_eq!(hl, 20);
    assert_eq!(header.msg_id, 1);
    assert_eq!(header.body_len, 145);
    assert_eq!(header.channel_id, 0);
    assert_eq!(header.stream_type, 0);
    assert_eq!(header.payload_offset, None);
    assert_eq!(header.response_code, 0xdd01);
    assert_eq!(header.class, 0x6614);
    let mut context = context;
    let (msg, n) = read(&mut context, &sample).unwrap();
    assert_eq!(n, sample.len());
    match msg.body {
        BcBody::ModernMsg(ModernMsg { payload: Some(BcPayloads::BcXml(text)), .. }) => {
            let text = String::from_utf8(text).unwrap();
            assert!(text.contains("<nonce>9E6D1FCB9E69846D</nonce>"));
        }
        _ => panic!(),
    }
}

#[test]
fn test_03_enc_login() {
    let xml = encryption_xml("0-AhnEZyUg6eKrJFIWgXPF", 175);
    let mut sample = header(MAGIC_HEADER, 1, 175, 0, 0, 0xdd03, 0x6614, None);
    sample.extend(bc_crypt(0, &xml));

    let mut context = BcContext::new_with_encryption(EncryptionProtocol::BCEncrypt);

    let (header, _) = bc_header(&sample[..]).unwrap();
    assert_eq!(header.msg_id, 1);
    assert_eq!(header.body_len, 175);
    assert_eq!(header.channel_id, 0);
    assert_eq!(header.stream_type, 0);
    assert_eq!(header.payload_offset, None);
    assert_eq!(header.response_code, 0xdd03);
    assert_eq!(header.class, 0x6614);
    let (msg, _) = read(&mut context, &sample).unwrap();
    match msg.body {
        BcBody::ModernMsg(ModernMsg { payload: Some(BcPayloads::BcXml(text)), .. }) => {
            let text = String::from_utf8(text).unwrap();
            assert!(text.contains("<nonce>0-AhnEZyUg6eKrJFIWgXPF</nonce>"));
        }
        _ => panic!(),
    }
}

#[test]
fn test_bc_legacy_login() {
    let mut sample = header(MAGIC_HEADER, 1, 1836, 0, 0, 0xdc01, 0x6514, None);
    sample.extend_from_slice(b"21232F297A57A5A743894A0E4A801FC\0");
    sample.extend_from_slice(&[0u8; 1836 - 32]);

    let mut context = BcContext::new_with_encryption(EncryptionProtocol::BCEncrypt);

    let (header, _) = bc_header(&sample[..]).unwrap();
    assert_eq!(header.msg_id, 1);
    assert_eq!(header.body_len, 1836);
    assert_eq!(header.channel_id, 0);
    assert_eq!(header.stream_type, 0);
    assert_eq!(header.payload_offset, None);
    assert_eq!(header.response_code, 0xdc01);
    assert_eq!(header.class, 0x6514);
    let (msg, _) = read(&mut context, &sample).unwrap();
    match msg.body {
        BcBody::LegacyMsg(LegacyMsg::LoginMsg { username, password }) => {
            assert_eq!(username, "21232F297A57A5A743894A0E4A801FC\0");
            assert_eq!(password, neolink::model::EMPTY_LEGACY_PASSWORD);
        }
        _ => panic!(),
    }
}

#[test]
fn test_bc_modern_login_failed() {
    let sample = header(MAGIC_HEADER, 1, 0, 0, 0, 0x190, 0x0000, Some(0));

    let mut context = BcContext::new_with_encryption(EncryptionProtocol::BCEncrypt);

    let (header, _) = bc_header(&sample[..]).unwrap();
    assert_eq!(header.msg_id, 1);
    assert_eq!(header.body_len, 0);
    assert_eq!(header.channel_id, 0);
    assert_eq!(header.stream_type, 0);
    assert_eq!(header.payload_offset, Some(0x0));
    assert_eq!(header.response_code, 0x190);
    assert_eq!(header.class, 0x0000);
    let (msg, _) = read(&mut context, &sample).unwrap();
    match msg.body {
        BcBody::ModernMsg(ModernMsg { extension: None, payload: None }) => {}
        _ => panic!(),
    }
}

#[test]
fn test_bc_modern_login_success() {
    let mut xml = b"<?xml version=\"1.0\" encoding=\"UTF-8\" ?>\n<body>\n<DeviceInfo version=\"1.1\">\n</DeviceInfo>\n</body>\n".to_vec();
    xml.resize(2949, b' ');
    let mut sample = header(MAGIC_HEADER, 1, 2949, 0, 0, 0xc8, 0x0000, Some(0));
    sample.extend(bc_crypt(0, &xml));

    let mut context = BcContext::new_with_encryption(EncryptionProtocol::BCEncrypt);

    let (header, _) = bc_header(&sample[..]).unwrap();
    assert_eq!(header.msg_id, 1);
    assert_eq!(header.body_len, 2949);
    assert_eq!(header.channel_id, 0);
    assert_eq!(header.stream_type, 0);
    assert_eq!(header.payload_offset, Some(0x0));
    assert_eq!(header.response_code, 0xc8);
    assert_eq!(header.class, 0x0000);
    let (msg, _) = read(&mut context, &sample).unwrap();
    match msg.body {
        BcBody::ModernMsg(ModernMsg { extension: None, payload: Some(BcPayloads::BcXml(x)) }) => {
            assert_eq!(x, xml)
        }
        _ => panic!(),
    }
}

#[test]
fn test_bc_binary_mode() {
    let ext = b"<?xml version=\"1.0\" encoding=\"UTF-8\" ?>\n<Extension version=\"1.1\">\n<binaryData>1</binaryData>\n</Extension>\n";
    let bin1: Vec<u8> = (0..32u32).map(|i| i as u8).collect();
    let mut sample1 = header(MAGIC_HEADER, 3, (ext.len() + 32) as u32, 0, 7, 200, 0x0000, Some(ext.len() as u32));
    sample1.extend(bc_crypt(0, ext));
    sample1.extend_from_slice(&bin1);
    let bin2: Vec<u8> = (0..30344u32).map(|i| (i % 251) as u8).collect();
    let mut sample2 = header(MAGIC_HEADER, 3, 30344, 0, 7, 200, 0x0000, Some(0));
    sample2.extend_from_slice(&bin2);

    let mut context = BcContext::new_with_encryption(EncryptionProtocol::BCEncrypt);

    let (msg1, _) = read(&mut context, &sample1).unwrap();
    match msg1.body {
        BcBody::ModernMsg(ModernMsg {
            extension: Some(Extension { binary_data: Some(1), .. }),
            payload: Some(BcPayloads::Binary(bin)),
        }) => {
            assert_eq!(bin.len(), 32);
        }
        _ => panic!(),
    }
    assert!(context.is_binary(7));

    let (msg2, _) = read(&mut context, &sample2).unwrap();
    match msg2.body {
        BcBody::ModernMsg(ModernMsg { extension: None, payload: Some(BcPayloads::Binary(bin)) }) => {
            assert_eq!(bin.len(), 30344);
            assert_eq!(bin, bin2);
        }
        _ => panic!(),
    }

    // once the stream ends the number reads as XML again: the same body now comes back as an XML payload
    context.binary_off(7);
    let (msg3, _) = read(&mut context, &sample2).unwrap();
    assert!(matches!(
        msg3.body,
        BcBody::ModernMsg(ModernMsg { payload: Some(BcPayloads::BcXml(_)), .. })
    ));
}

fn preview_sample(channel_id: u8, handle: u32, stream: &str) -> Vec<u8> {
    let xml = format!(
        "<?xml version=\"1.0\" encoding=\"UTF-8\" ?>\n<body>\n<Preview version=\"1.1\">\n<channelId>0</channelId>\n<handle>{}</handle>\n<streamType>{}</streamType>\n</Preview>\n</body>\n",
        handle, stream
    )
    .into_bytes();
    let mut sample = header(MAGIC_HEADER, 3, xml.len() as u32, channel_id, 0, 0, 0x6414, Some(0));
    sample.extend(bc_crypt(channel_id as u32, &xml));
    sample
}

fn expect_preview(channel_id: u8, handle: u32, stream: &str) {
    let sample = preview_sample(channel_id, handle, stream);
    let mut context = BcContext::new_with_encryption(EncryptionProtocol::BCEncrypt);
    let (msg, _) = read(&mut context, &sample).unwrap();
    assert_eq!(
        msg.meta,
        BcMeta { msg_id: 3, channel_id, stream_type: 0, response_code: 0, msg_num: 0, class: 0x6414 }
    );
    match msg.body {
        BcBody::ModernMsg(ModernMsg { extension: None, payload: Some(BcPayloads::BcXml(x)) }) => {
            let text = String::from_utf8(x).unwrap();
            assert!(text.contains("<Preview version=\"1.1\">"));
            assert!(text.contains(&format!("<handle>{}</handle>", handle)));
            assert!(text.contains(&format!("<streamType>{}</streamType>", stream)));
        }
        _ => panic!(),
    }
}

#[test]
fn test_bc_b800_externstream() {
    expect_preview(0x8c, 1024, "externStream");
}

#[test]
fn test_bc_b800_substream() {
    expect_preview(143, 256, "subStream");
}

#[test]
fn test_bc_b800_mainstream() {
    expect_preview(138, 0, "mainStream");
}

#[test]
fn reversed_magic_reads_the_same_header() {
    let a = header(MAGIC_HEADER, 80, 12, 2, 9, 200, 0x0000, Some(4));
    let b = header(MAGIC_HEADER_REV, 80, 12, 2, 9, 200, 0x0000, Some(4));
    assert_eq!(bc_header(&a).unwrap(), bc_header(&b).unwrap());
    // the magic read big-endian is refused
    let c = header(MAGIC_HEADER.swap_bytes(), 80, 12, 2, 9, 200, 0x0000, Some(4));
    assert_eq!(bc_header(&c), Err(Error::BadMagic));
}

#[test]
fn header_errors() {
    assert_eq!(bc_header(&[0xf0, 0xde]), Err(Error::Truncated));
    let h = header(MAGIC_HEADER, 1, 0, 0, 0, 0, 0x0000, Some(0));
    assert_eq!(bc_header(&h[..19]), Err(Error::Truncated));
    assert_eq!(bc_header(&h[..23]), Err(Error::Truncated));
    assert_eq!(bc_header(&h[..24]).map(|(_, n)| n), Ok(24));
}

#[test]
fn payload_offset_only_for_offset_classes() {
    for (class, present) in [(0x6414u16, true), (0x0000, true), (0x6614, false), (0x6514, false), (0x1234, false)] {
        let h = header(MAGIC_HEADER, 1, 0, 0, 0, 0, class, Some(0));
        let (parsed, n) = bc_header(&h).unwrap();
        assert_eq!(parsed.payload_offset.is_some(), present);
        assert_eq!(n, if present { 24 } else { 20 });
    }
}

#[test]
fn body_errors() {
    let mut context = BcContext::new(Credentials::default());
    // extension longer than the body
    let h = header(MAGIC_HEADER, 3, 4, 0, 0, 0, 0x0000, Some(8));
    assert!(matches!(bc_frame(&context, &h), Err(Error::MalformedPayload)));
    // body missing
    let h = header(MAGIC_HEADER, 3, 4, 0, 0, 0, 0x0000, Some(0));
    assert!(matches!(bc_frame(&context, &h), Err(Error::Truncated)));
    // an extension document that did not decode
    let mut h = header(MAGIC_HEADER, 3, 4, 0, 0, 0, 0x0000, Some(4));
    h.extend_from_slice(b"<x/>");
    let (frame, _) = bc_frame(&context, &h).unwrap();
    assert_eq!(Bc::deserialize(&mut context, frame, None), Err(Error::MalformedPayload));
}

#[test]
fn write_then_read_round_trips() {
    for protocol in [EncryptionProtocol::Unencrypted, EncryptionProtocol::BCEncrypt] {
        let mut context = BcContext::new_with_encryption(protocol);
        let meta = BcMeta { msg_id: 208, channel_id: 3, stream_type: 0, response_code: 0, msg_num: 42, class: 0x6414 };
        let ext = b"<Extension version=\"1.1\"><channelId>3</channelId></Extension>".to_vec();
        let payload = b"<body><LedState version=\"1.1\"></LedState></body>".to_vec();
        let bytes = bc_serialize(&context, &meta, &ext, &payload, false).unwrap();
        let (frame, n) = bc_frame(&context, &bytes).unwrap();
        assert_eq!(n, bytes.len());
        assert_eq!(frame.header.to_meta(), meta);
        assert_eq!(frame.header.payload_offset, Some(ext.len() as u32));
        match &frame.body {
            FrameBody::Modern { extension, .. } => assert_eq!(extension, &ext),
            _ => panic!(),
        }
        let decoded = Extension { binary_data: None, encrypt_len: None, channel_id: Some(3) };
        let msg = Bc::deserialize(&mut context, frame, Some(decoded)).unwrap();
        assert_eq!(msg, Bc::new_from_ext_xml(meta, decoded, payload));
    }
}

#[test]
fn write_errors() {
    let context = BcContext::new_with_encryption(EncryptionProtocol::BCEncrypt);
    let legacy = BcMeta { msg_id: 1, channel_id: 0, stream_type: 0, response_code: 0, msg_num: 0, class: 0x6514 };
    assert_eq!(bc_serialize(&context, &legacy, &[], &[], false), Err(Error::MalformedPayload));
    let no_offset = BcMeta { class: 0x6614, ..legacy };
    assert_eq!(bc_serialize(&context, &no_offset, b"<x/>", &[], false), Err(Error::MalformedPayload));
    assert!(bc_serialize(&context, &no_offset, &[], b"<x/>", false).is_ok());
}

#[test]
fn login_payloads_never_use_aes() {
    let key = derive_aes_key("pw", "nonce");
    for current in [EncryptionProtocol::aes(key), EncryptionProtocol::full_aes(key)] {
        assert!(matches!(payload_protocol_for(1, 0, &current), EncryptionProtocol::BCEncrypt));
        assert!(matches!(payload_protocol_for(1, 0xdd00, &current), EncryptionProtocol::Unencrypted));
        assert!(matches!(payload_protocol_for(3, 0, &current), EncryptionProtocol::Aes { .. } | EncryptionProtocol::FullAes { .. }));
        let context = BcContext::new_with_encryption(current);
        let meta = BcMeta { msg_id: 1, channel_id: 0, stream_type: 0, response_code: 0, msg_num: 1, class: 0x6414 };
        let payload = b"<body><LoginUser/></body>".to_vec();
        let bytes = bc_serialize(&context, &meta, &[], &payload, false).unwrap();
        assert_eq!(&bytes[24..], &bc_crypt(0, &payload)[..]);
    }
}

#[test]
fn full_aes_binary_is_cut_to_its_length() {
    let key = derive_aes_key("pw", "nonce");
    let aes = EncryptionProtocol::full_aes(key);
    let data: Vec<u8> = (0..40u8).collect();
    let enc = aes.encrypt(0, &data);
    let mut sample = header(MAGIC_HEADER, 3, enc.len() as u32, 0, 5, 200, 0x0000, Some(0));
    sample.extend_from_slice(&enc);
    let mut context = BcContext::new_with_encryption(aes);
    let (frame, _) = bc_frame(&context, &sample).unwrap();
    let ext = Extension { binary_data: Some(1), encrypt_len: Some(33), channel_id: None };
    let header_only = frame.header;
    let msg = Bc::deserialize(&mut context, BcFrame { header: header_only, body: frame.body.clone() }, None);
    // without a decoded extension the empty document means no extension: XML
    assert!(msg.is_ok());
    let (frame, _) = bc_frame(&context, &sample).unwrap();
    let payload = match frame.body { FrameBody::Modern { payload, .. } => payload, _ => panic!() };
    let m = neolink::codec::bc_modern_msg(&mut context, &header_only, Some(ext), &payload).unwrap();
    assert_eq!(m.payload, Some(BcPayloads::Binary(data[..33].to_vec())));
    let too_long = Extension { encrypt_len: Some(41), ..ext };
    assert_eq!(
        neolink::codec::bc_modern_msg(&mut context, &header_only, Some(too_long), &payload),
        Err(Error::MalformedPayload)
    );
}

#[test]
fn legacy_login_message() {
    let bytes = legacy_login("admin");
    assert_eq!(bytes.len(), 20 + 1836);
    let (h, n) = bc_header(&bytes).unwrap();
    assert_eq!(n, 20);
    assert_eq!(
        h,
        BcHeader { body_len: 1836, msg_id: 1, channel_id: 0, stream_type: 0, msg_num: 0, response_code: 0xdc03, class: 0x6514, payload_offset: None }
    );
    assert_eq!(&bytes[20..52], b"21232F297A57A5A743894A0E4A801FC\0");
    assert!(bytes[52..].iter().all(|b| *b == 0));
}

#[test]
fn write_then_read_round_trips_under_aes() {
    let key = derive_aes_key("1234", "0-AhnEZyUg6eKrJFIWgXPF");
    for protocol in [EncryptionProtocol::aes(key), EncryptionProtocol::full_aes(key)] {
        let mut context = BcContext::new_with_encryption(protocol);
        let meta = BcMeta { msg_id: 80, channel_id: 0, stream_type: 0, response_code: 0, msg_num: 9, class: 0x6414 };
        let ext = b"<Extension version=\"1.1\"><channelId>0</channelId></Extension>".to_vec();
        let payload = b"<body><VersionInfo version=\"1.1\"></VersionInfo></body>".to_vec();
        let bytes = bc_serialize(&context, &meta, &ext, &payload, false).unwrap();
        assert_ne!(&bytes[24..24 + ext.len()], &ext[..]);
        let (frame, n) = bc_frame(&context, &bytes).unwrap();
        assert_eq!(n, bytes.len());
        match &frame.body {
            FrameBody::Modern { extension, .. } => assert_eq!(extension, &ext),
            _ => panic!(),
        }
        let decoded = Extension { binary_data: None, encrypt_len: None, channel_id: Some(0) };
        let msg = Bc::deserialize(&mut context, frame, Some(decoded)).unwrap();
        assert_eq!(msg, Bc::new_from_ext_xml(meta, decoded, payload));
    }
}

#[test]
fn zero_offset_means_no_extension_under_aes() {
    let key = derive_aes_key("pw", "nonce");
    let aes = EncryptionProtocol::aes(key);
    let payload = b"<body/>".to_vec();
    let mut sample = header(MAGIC_HEADER, 80, payload.len() as u32, 0, 2, 200, 0x0000, Some(0));
    sample.extend(aes.encrypt(0, &payload));
    let mut context = BcContext::new_with_encryption(aes);
    let (frame, _) = bc_frame(&context, &sample).unwrap();
    let ignored = Extension { binary_data: Some(1), encrypt_len: None, channel_id: None };
    let msg = Bc::deserialize(&mut context, frame, Some(ignored)).unwrap();
    assert_eq!(msg.body, BcBody::ModernMsg(ModernMsg { extension: None, payload: Some(BcPayloads::BcXml(payload)) }));
    assert!(!context.is_binary(2));
}
