use neolink::bcmedia::{
    bcmedia_chunk, decode_media, BcMedia, BcMediaAac, BcMediaAdpcm, VideoType, MAGIC_HEADER_BCMEDIA_AAC,
    MAGIC_HEADER_BCMEDIA_ADPCM, MAGIC_HEADER_BCMEDIA_INFO_V1, MAGIC_HEADER_BCMEDIA_INFO_V2,
};
use neolink::error::Error;

fn adts(freq_index: u8, frames_minus_one: u8) -> Vec<u8> {
    vec![0xff, 0xf1, (freq_index << 2) | 0x40, 0x80, 0x00, 0x1f, 0xfc | frames_minus_one, 0, 0]
}

#[test]
fn aac_duration_from_adts_header() {
    let a = BcMediaAac { data: adts(4, 0) };
    assert_eq!(a.duration(), Some(1024 * 1_000_000 / 44100));
    let a = BcMediaAac { data: adts(11, 0) };
    assert_eq!(a.duration(), Some(128_000));
    let a = BcMediaAac { data: adts(0, 3) };
    assert_eq!(a.duration(), Some(4 * 1024 * 1_000_000 / 96000));
    let a = BcMediaAac { data: adts(12, 1) };
    assert_eq!(a.duration(), Some(2 * 1024 * 1_000_000 / 7350));
}

#[test]
fn aac_duration_needs_a_header() {
    assert_eq!(BcMediaAac { data: vec![0xff, 0xf1, 0x50] }.duration(), None);
    let mut d = adts(4, 0);
    d[0] = 0xfe;
    assert_eq!(BcMediaAac { data: d }.duration(), None);
    let mut d = adts(4, 0);
    d[1] = 0xe1;
    assert_eq!(BcMediaAac { data: d }.duration(), None);
    assert_eq!(BcMediaAac { data: adts(13, 0) }.duration(), None);
}

#[test]
fn adpcm_block_and_duration() {
    let a = BcMediaAdpcm { data: vec![0; 4 + 256] };
    assert_eq!(a.block_size(), 256);
    assert_eq!(a.duration(), Some(256 * 2 * 1_000_000 / 8000));
    let a = BcMediaAdpcm { data: vec![0; 4] };
    assert_eq!(a.block_size(), 0);
    assert_eq!(a.duration(), Some(0));
}

fn info(magic: u32) -> Vec<u8> {
    let mut v = magic.to_le_bytes().to_vec();
    v.extend_from_slice(&32u32.to_le_bytes());
    v.extend_from_slice(&2560u32.to_le_bytes());
    v.extend_from_slice(&1440u32.to_le_bytes());
    v.push(0);
    v.push(25);
    v.extend_from_slice(&[123, 4, 5, 6, 7, 8, 124, 9, 10, 11, 12, 13]);
    v.extend_from_slice(&[0, 0]);
    v
}

#[test]
fn info_chunks() {
    let (m, n) = bcmedia_chunk(&info(MAGIC_HEADER_BCMEDIA_INFO_V1)).unwrap();
    assert_eq!(n, 32);
    match m {
        BcMedia::InfoV1(i) => {
            assert_eq!((i.video_width, i.video_height, i.fps), (2560, 1440, 25));
            assert_eq!((i.start_year, i.start_month, i.start_day), (123, 4, 5));
            assert_eq!((i.start_hour, i.start_min, i.start_seconds), (6, 7, 8));
            assert_eq!((i.end_year, i.end_month, i.end_day), (124, 9, 10));
            assert_eq!((i.end_hour, i.end_min, i.end_seconds), (11, 12, 13));
        }
        _ => panic!(),
    }
    let (m, _) = bcmedia_chunk(&info(MAGIC_HEADER_BCMEDIA_INFO_V2)).unwrap();
    assert!(matches!(m, BcMedia::InfoV2(i) if i.video_width == 2560 && i.fps == 25));
    assert_eq!(bcmedia_chunk(&info(MAGIC_HEADER_BCMEDIA_INFO_V1)[..31]), Err(Error::Truncated));
}

fn frame(magic: u32, tag: &[u8; 4], data: &[u8], extra: &[u8]) -> Vec<u8> {
    let mut v = magic.to_le_bytes().to_vec();
    v.extend_from_slice(tag);
    v.extend_from_slice(&(data.len() as u32).to_le_bytes());
    v.extend_from_slice(&(extra.len() as u32).to_le_bytes());
    v.extend_from_slice(&1_000_000u32.to_le_bytes());
    v.extend_from_slice(&0u32.to_le_bytes());
    v.extend_from_slice(extra);
    v.extend_from_slice(data);
    v.extend(std::iter::repeat(0).take((8 - data.len() % 8) % 8));
    v
}

#[test]
fn video_frames() {
    let data = [0u8, 0, 0, 1, 0x67, 1, 2, 3, 4, 5, 6];
    let bytes = frame(0x63643030, b"H264", &data, &1_600_000_000u32.to_le_bytes());
    let (m, n) = bcmedia_chunk(&bytes).unwrap();
    assert_eq!(n, bytes.len());
    match m {
        BcMedia::Iframe(f) => {
            assert!(matches!(f.video_type, VideoType::H264));
            assert_eq!(f.microseconds, 1_000_000);
            assert_eq!(f.time, Some(1_600_000_000));
            assert_eq!(f.data, data);
        }
        _ => panic!(),
    }
    let bytes = frame(0x63643135, b"H265", &data, &[]);
    let (m, n) = bcmedia_chunk(&bytes).unwrap();
    assert_eq!(n, 24 + 11 + 5);
    match m {
        BcMedia::Pframe(f) => {
            assert!(matches!(f.video_type, VideoType::H265));
            assert_eq!(f.data, data);
        }
        _ => panic!(),
    }
    let bytes = frame(0x63643030, b"MJPG", &data, &[]);
    assert_eq!(bcmedia_chunk(&bytes), Err(Error::MalformedPayload));
    let bytes = frame(0x63643030, b"H264", &data, &[]);
    assert_eq!(bcmedia_chunk(&bytes[..bytes.len() - 1]), Err(Error::Truncated));
}

#[test]
fn audio_chunks() {
    let aac = adts(4, 0);
    let mut v = MAGIC_HEADER_BCMEDIA_AAC.to_le_bytes().to_vec();
    v.extend_from_slice(&(aac.len() as u16).to_le_bytes());
    v.extend_from_slice(&(aac.len() as u16).to_le_bytes());
    v.extend_from_slice(&aac);
    v.extend_from_slice(&[0; 7]);
    let (m, n) = bcmedia_chunk(&v).unwrap();
    assert_eq!(n, 8 + 9 + 7);
    assert!(matches!(m, BcMedia::Aac(a) if a.data == aac));

    let block: Vec<u8> = (0..68u8).collect();
    let size = (block.len() + 4) as u16;
    let mut v = MAGIC_HEADER_BCMEDIA_ADPCM.to_le_bytes().to_vec();
    v.extend_from_slice(&size.to_le_bytes());
    v.extend_from_slice(&size.to_le_bytes());
    v.extend_from_slice(&0x0100u16.to_le_bytes());
    v.extend_from_slice(&32u16.to_le_bytes());
    v.extend_from_slice(&block);
    let (m, n) = bcmedia_chunk(&v).unwrap();
    assert_eq!(n, 8 + 72);
    match m {
        BcMedia::Adpcm(a) => {
            assert_eq!(a.data, block);
            assert_eq!(a.block_size(), 64);
        }
        _ => panic!(),
    }
    let mut bad = v.clone();
    bad[6] = 0;
    assert_eq!(bcmedia_chunk(&bad), Err(Error::MalformedPayload));
}

#[test]
fn unknown_magic() {
    assert_eq!(bcmedia_chunk(&[1, 2, 3, 4, 5, 6, 7, 8]), Err(Error::BadMagic));
    assert_eq!(bcmedia_chunk(&[1, 2, 3]), Err(Error::Truncated));
}

#[test]
fn media_run_reads_whole_chunks() {
    let mut buf = info(MAGIC_HEADER_BCMEDIA_INFO_V1);
    let data = [1u8, 2, 3, 4, 5, 6, 7, 8];
    buf.extend(frame(0x63643030, b"H264", &data, &[]));
    let whole = buf.len();
    buf.extend(&frame(0x63643130, b"H264", &data, &[])[..10]);
    let run = decode_media(&buf);
    assert_eq!(run.chunks.len(), 2);
    assert_eq!(run.starts, vec![0, 32]);
    assert_eq!(run.consumed, whole);
    assert_eq!(run.error, None);
    buf.truncate(whole);
    buf.extend_from_slice(&[9, 9, 9, 9, 9, 9, 9, 9]);
    let run = decode_media(&buf);
    assert_eq!(run.consumed, whole);
    assert_eq!(run.error, Some(Error::BadMagic));
}
