//! The media stream: chunks of stream information, video frames and audio.
use vstd::prelude::*;
use vstd::bytes::*;
use vstd::slice::{slice_subrange, slice_to_vec};

use crate::codec::{le_u16_at, le_u32_at};
use crate::error::Error;

verus! {

pub const MAGIC_HEADER_BCMEDIA_INFO_V1: u32 = 0x31303031;
pub const MAGIC_HEADER_BCMEDIA_INFO_V2: u32 = 0x32303031;
/// I-frame magics carry the channel number in their low nibble.
pub const MAGIC_HEADER_BCMEDIA_IFRAME: u32 = 0x63643030;
pub const MAGIC_HEADER_BCMEDIA_IFRAME_LAST: u32 = 0x63643039;
/// P-frame magics carry the channel number in their low nibble.
pub const MAGIC_HEADER_BCMEDIA_PFRAME: u32 = 0x63643130;
pub const MAGIC_HEADER_BCMEDIA_PFRAME_LAST: u32 = 0x63643139;
pub const MAGIC_HEADER_BCMEDIA_AAC: u32 = 0x62773530;
pub const MAGIC_HEADER_BCMEDIA_ADPCM: u32 = 0x62773130;
pub const MAGIC_HEADER_BCMEDIA_ADPCM_DATA: u16 = 0x0100;

/// The information that opens a stream: frame size, rate, and the start and
/// end of the recording as wall-clock components.
#[derive(Clone, Copy, Debug, PartialEq, Eq, Structural)]
pub struct BcMediaInfoV1 {
    pub video_width: u32,
    pub video_height: u32,
    pub fps: u8,
    pub start_year: u8,
    pub start_month: u8,
    pub start_day: u8,
    pub start_hour: u8,
    pub start_min: u8,
    pub start_seconds: u8,
    pub end_year: u8,
    pub end_month: u8,
    pub end_day: u8,
    pub end_hour: u8,
    pub end_min: u8,
    pub end_seconds: u8,
}

/// The second form of the stream information, with the same layout.
#[derive(Clone, Copy, Debug, PartialEq, Eq, Structural)]
pub struct BcMediaInfoV2 {
    pub video_width: u32,
    pub video_height: u32,
    pub fps: u8,
    pub start_year: u8,
    pub start_month: u8,
    pub start_day: u8,
    pub start_hour: u8,
    pub start_min: u8,
    pub start_seconds: u8,
    pub end_year: u8,
    pub end_month: u8,
    pub end_day: u8,
    pub end_hour: u8,
    pub end_min: u8,
    pub end_seconds: u8,
}

#[derive(Clone, Copy, Debug, PartialEq, Eq, Structural)]
pub enum VideoType {
    H264,
    H265,
}

/// A key frame.
#[derive(Clone, Debug, PartialEq, Eq)]
pub struct BcMediaIframe {
    pub video_type: VideoType,
    /// Timestamp in microseconds.
    pub microseconds: u32,
    /// POSIX time, when the frame carries it.
    pub time: Option<u32>,
    pub data: Vec<u8>,
}

/// A predicted frame.
#[derive(Clone, Debug, PartialEq, Eq)]
pub struct BcMediaPframe {
    pub video_type: VideoType,
    /// Timestamp in microseconds.
    pub microseconds: u32,
    pub data: Vec<u8>,
}

/// AAC audio with its ADTS header.
#[derive(Clone, Debug, PartialEq, Eq)]
pub struct BcMediaAac {
    pub data: Vec<u8>,
}

/// ADPCM audio in DVI-4 layout: four bytes of predictor state, then one
/// block of samples.
#[derive(Clone, Debug, PartialEq, Eq)]
pub struct BcMediaAdpcm {
    pub data: Vec<u8>,
}

#[derive(Clone, Debug, PartialEq, Eq)]
pub enum BcMedia {
    InfoV1(BcMediaInfoV1),
    InfoV2(BcMediaInfoV2),
    Iframe(BcMediaIframe),
    Pframe(BcMediaPframe),
    Aac(BcMediaAac),
    Adpcm(BcMediaAdpcm),
}

/// The sampling frequency of an ADTS frequency index.
pub open spec fn adts_frequency(index: u8) -> Option<u32> {
    if index == 0 {
        Some(96000u32)
    } else if index == 1 {
        Some(88200u32)
    } else if index == 2 {
        Some(64000u32)
    } else if index == 3 {
        Some(48000u32)
    } else if index == 4 {
        Some(44100u32)
    } else if index == 5 {
        Some(32000u32)
    } else if index == 6 {
        Some(24000u32)
    } else if index == 7 {
        Some(22050u32)
    } else if index == 8 {
        Some(16000u32)
    } else if index == 9 {
        Some(12000u32)
    } else if index == 10 {
        Some(11025u32)
    } else if index == 11 {
        Some(8000u32)
    } else if index == 12 {
        Some(7350u32)
    } else {
        None
    }
}

fn adts_frequency_exec(index: u8) -> (r: Option<u32>)
    ensures
        r == adts_frequency(index),
{
    match index {
        0 => Some(96000),
        1 => Some(88200),
        2 => Some(64000),
        3 => Some(48000),
        4 => Some(44100),
        5 => Some(32000),
        6 => Some(24000),
        7 => Some(22050),
        8 => Some(16000),
        9 => Some(12000),
        10 => Some(11025),
        11 => Some(8000),
        12 => Some(7350),
        _ => None,
    }
}

/// The duration in microseconds of an AAC packet, read from its ADTS header:
/// `frames × 1024 × 10^6 / frequency`, with the frame count from the low two
/// bits of byte 6 plus one and the frequency from bits 2 to 5 of byte 2.
/// None without a whole header, without the sync word, or with an unknown
/// frequency index.
pub open spec fn aac_duration(d: Seq<u8>) -> Option<u32> {
    if d.len() < 8 || d[0] != 0xff || d[1] & 0xf0 != 0xf0 {
        None
    } else {
        match adts_frequency((d[2] & 0x3c) >> 2) {
            Some(f) => Some((((d[6] & 3) + 1) * 1024 * 1000000 / f as int) as u32),
            None => None,
        }
    }
}

impl BcMediaAac {
    /// Reads the ADTS header to learn the duration in microseconds.
    pub fn duration(&self) -> (r: Option<u32>)
        ensures
            r == aac_duration(self.data@),
    {
        if self.data.len() < 8 {
            return None;
        }
        if self.data[0] != 0xff {
            return None;
        }
        if (self.data[1] & 0xf0) != 0xf0 {
            return None;
        }
        let frequency_index = (self.data[2] & 0x3c) >> 2;
        let sample_frequency = match adts_frequency_exec(frequency_index) {
            Some(f) => f,
            None => return None,
        };
        let b6: u8 = self.data[6];
        assert(b6 & 3 <= 3) by (bit_vector);
        let frames: u32 = ((b6 & 3) + 1) as u32;
        let samples: u32 = frames * 1024;
        let duration = samples * 1000000 / sample_frequency;
        Some(duration)
    }
}

impl BcMediaAdpcm {
    /// The size of the sample block: the data without its four-byte header.
    pub fn block_size(&self) -> (r: u32)
        requires
            4 <= self.data@.len() <= u32::MAX,
        ensures
            r == self.data@.len() - 4,
    {
        (self.data.len() - 4) as u32
    }

    /// The duration in microseconds: two samples a byte at 8000 Hz, so
    /// `block_size × 2 × 10^6 / 8000`; None where that does not fit in 32 bits.
    pub fn duration(&self) -> (r: Option<u32>)
        requires
            4 <= self.data@.len() <= u32::MAX,
        ensures
            r == if (self.data@.len() - 4) * 2 * 1000000 / 8000 <= u32::MAX {
                Some(((self.data@.len() - 4) * 2 * 1000000 / 8000) as u32)
            } else {
                None::<u32>
            },
    {
        let samples: u64 = self.block_size() as u64 * 2;
        let duration: u64 = samples * 1000000 / 8000;
        if duration <= 0xffff_ffff {
            Some(duration as u32)
        } else {
            None
        }
    }
}

/// Bytes of padding that bring `n` to a multiple of eight.
pub open spec fn pad8(n: int) -> int {
    (8 - n % 8) % 8
}

pub open spec fn is_info_magic(m: u32) -> bool {
    m == MAGIC_HEADER_BCMEDIA_INFO_V1 || m == MAGIC_HEADER_BCMEDIA_INFO_V2
}

pub open spec fn is_iframe_magic(m: u32) -> bool {
    MAGIC_HEADER_BCMEDIA_IFRAME <= m <= MAGIC_HEADER_BCMEDIA_IFRAME_LAST
}

pub open spec fn is_pframe_magic(m: u32) -> bool {
    MAGIC_HEADER_BCMEDIA_PFRAME <= m <= MAGIC_HEADER_BCMEDIA_PFRAME_LAST
}

/// The codec named by the four ASCII bytes after a frame's magic.
pub open spec fn video_tag(b: Seq<u8>) -> Option<VideoType> {
    if b[4] == 0x48 && b[5] == 0x32 && b[6] == 0x36 && b[7] == 0x34 {
        Some(VideoType::H264)
    } else if b[4] == 0x48 && b[5] == 0x32 && b[6] == 0x36 && b[7] == 0x35 {
        Some(VideoType::H265)
    } else {
        None
    }
}

/// Where a frame's data starts: after its 24-byte header and its additional header.
pub open spec fn frame_data_start(b: Seq<u8>) -> int {
    24 + le_u32_at(b, 12)
}

/// How many bytes the chunk at the start of `b` takes, padding included.
pub open spec fn chunk_len(b: Seq<u8>) -> int {
    let m = le_u32_at(b, 0);
    if is_info_magic(m) {
        32
    } else if is_iframe_magic(m) || is_pframe_magic(m) {
        frame_data_start(b) + le_u32_at(b, 8) + pad8(le_u32_at(b, 8) as int)
    } else {
        8 + le_u16_at(b, 4) + pad8(le_u16_at(b, 4) as int)
    }
}

/// Why the bytes do not start with a whole chunk, if they do not.
pub open spec fn chunk_error(b: Seq<u8>) -> Option<Error> {
    if b.len() < 4 {
        Some(Error::Truncated)
    } else {
        let m = le_u32_at(b, 0);
        if is_info_magic(m) {
            if b.len() < 32 {
                Some(Error::Truncated)
            } else {
                None
            }
        } else if is_iframe_magic(m) || is_pframe_magic(m) {
            if b.len() < 24 {
                Some(Error::Truncated)
            } else if video_tag(b) is None {
                Some(Error::MalformedPayload)
            } else if b.len() < chunk_len(b) {
                Some(Error::Truncated)
            } else {
                None
            }
        } else if m == MAGIC_HEADER_BCMEDIA_AAC {
            if b.len() < 8 {
                Some(Error::Truncated)
            } else if le_u16_at(b, 4) != le_u16_at(b, 6) {
                Some(Error::MalformedPayload)
            } else if b.len() < chunk_len(b) {
                Some(Error::Truncated)
            } else {
                None
            }
        } else if m == MAGIC_HEADER_BCMEDIA_ADPCM {
            if b.len() < 12 {
                Some(Error::Truncated)
            } else if le_u16_at(b, 4) != le_u16_at(b, 6) || le_u16_at(b, 4) < 4 || le_u16_at(b, 8)
                != MAGIC_HEADER_BCMEDIA_ADPCM_DATA {
                Some(Error::MalformedPayload)
            } else if b.len() < chunk_len(b) {
                Some(Error::Truncated)
            } else {
                None
            }
        } else {
            Some(Error::BadMagic)
        }
    }
}

/// The stream information at the start of `b`.
pub open spec fn info_fields(b: Seq<u8>) -> BcMediaInfoV1 {
    BcMediaInfoV1 {
        video_width: le_u32_at(b, 8),
        video_height: le_u32_at(b, 12),
        fps: b[17],
        start_year: b[18],
        start_month: b[19],
        start_day: b[20],
        start_hour: b[21],
        start_min: b[22],
        start_seconds: b[23],
        end_year: b[24],
        end_month: b[25],
        end_day: b[26],
        end_hour: b[27],
        end_min: b[28],
        end_seconds: b[29],
    }
}

/// Whether `m` is the chunk that a well-framed `b` starts with.
pub open spec fn chunk_matches(m: BcMedia, b: Seq<u8>) -> bool {
    let magic = le_u32_at(b, 0);
    let i = info_fields(b);
    match m {
        BcMedia::InfoV1(v) => magic == MAGIC_HEADER_BCMEDIA_INFO_V1 && v == i,
        BcMedia::InfoV2(v) => magic == MAGIC_HEADER_BCMEDIA_INFO_V2 && v == (BcMediaInfoV2 {
            video_width: i.video_width,
            video_height: i.video_height,
            fps: i.fps,
            start_year: i.start_year,
            start_month: i.start_month,
            start_day: i.start_day,
            start_hour: i.start_hour,
            start_min: i.start_min,
            start_seconds: i.start_seconds,
            end_year: i.end_year,
            end_month: i.end_month,
            end_day: i.end_day,
            end_hour: i.end_hour,
            end_min: i.end_min,
            end_seconds: i.end_seconds,
        }),
        BcMedia::Iframe(f) => {
            &&& is_iframe_magic(magic)
            &&& video_tag(b) == Some(f.video_type)
            &&& f.microseconds == le_u32_at(b, 16)
            &&& f.time == if le_u32_at(b, 12) >= 4 {
                Some(le_u32_at(b, 24))
            } else {
                None
            }
            &&& f.data@ == b.subrange(frame_data_start(b), frame_data_start(b) + le_u32_at(b, 8))
        },
        BcMedia::Pframe(f) => {
            &&& is_pframe_magic(magic)
            &&& video_tag(b) == Some(f.video_type)
            &&& f.microseconds == le_u32_at(b, 16)
            &&& f.data@ == b.subrange(frame_data_start(b), frame_data_start(b) + le_u32_at(b, 8))
        },
        BcMedia::Aac(a) => magic == MAGIC_HEADER_BCMEDIA_AAC && a.data@ == b.subrange(
            8,
            8 + le_u16_at(b, 4),
        ),
        BcMedia::Adpcm(a) => magic == MAGIC_HEADER_BCMEDIA_ADPCM && a.data@ == b.subrange(
            12,
            8 + le_u16_at(b, 4),
        ),
    }
}

fn get_u32(buf: &[u8], i: usize) -> (r: u32)
    requires
        i <= 24,
        i + 4 <= buf@.len(),
    ensures
        r == le_u32_at(buf@, i as int),
{
    u32_from_le_bytes(slice_subrange(buf, i, i + 4))
}

fn get_u16(buf: &[u8], i: usize) -> (r: u16)
    requires
        i <= 24,
        i + 2 <= buf@.len(),
    ensures
        r == le_u16_at(buf@, i as int),
{
    u16_from_le_bytes(slice_subrange(buf, i, i + 2))
}

fn pad8_exec(n: u64) -> (r: u64)
    ensures
        r == pad8(n as int),
        r < 8,
{
    (8 - n % 8) % 8
}

/// Reads the chunk at the start of `buf`, and how many bytes it takes.
pub fn bcmedia_chunk(buf: &[u8]) -> (r: Result<(BcMedia, usize), Error>)
    ensures
        r is Err <==> chunk_error(buf@) is Some,
        r matches Err(e) ==> chunk_error(buf@) == Some(e),
        r matches Ok((m, n)) ==> n == chunk_len(buf@) && chunk_matches(m, buf@),
{
    if buf.len() < 4 {
        return Err(Error::Truncated);
    }
    let magic = get_u32(buf, 0);
    if magic == MAGIC_HEADER_BCMEDIA_INFO_V1 || magic == MAGIC_HEADER_BCMEDIA_INFO_V2 {
        if buf.len() < 32 {
            return Err(Error::Truncated);
        }
        let v = BcMediaInfoV1 {
            video_width: get_u32(buf, 8),
            video_height: get_u32(buf, 12),
            fps: buf[17],
            start_year: buf[18],
            start_month: buf[19],
            start_day: buf[20],
            start_hour: buf[21],
            start_min: buf[22],
            start_seconds: buf[23],
            end_year: buf[24],
            end_month: buf[25],
            end_day: buf[26],
            end_hour: buf[27],
            end_min: buf[28],
            end_seconds: buf[29],
        };
        if magic == MAGIC_HEADER_BCMEDIA_INFO_V1 {
            return Ok((BcMedia::InfoV1(v), 32));
        }
        let v2 = BcMediaInfoV2 {
            video_width: v.video_width,
            video_height: v.video_height,
            fps: v.fps,
            start_year: v.start_year,
            start_month: v.start_month,
            start_day: v.start_day,
            start_hour: v.start_hour,
            start_min: v.start_min,
            start_seconds: v.start_seconds,
            end_year: v.end_year,
            end_month: v.end_month,
            end_day: v.end_day,
            end_hour: v.end_hour,
            end_min: v.end_min,
            end_seconds: v.end_seconds,
        };
        return Ok((BcMedia::InfoV2(v2), 32));
    }
    let iframe = MAGIC_HEADER_BCMEDIA_IFRAME <= magic && magic <= MAGIC_HEADER_BCMEDIA_IFRAME_LAST;
    let pframe = MAGIC_HEADER_BCMEDIA_PFRAME <= magic && magic <= MAGIC_HEADER_BCMEDIA_PFRAME_LAST;
    if iframe || pframe {
        if buf.len() < 24 {
            return Err(Error::Truncated);
        }
        let video_type = if buf[4] == 0x48 && buf[5] == 0x32 && buf[6] == 0x36 && buf[7] == 0x34 {
            VideoType::H264
        } else if buf[4] == 0x48 && buf[5] == 0x32 && buf[6] == 0x36 && buf[7] == 0x35 {
            VideoType::H265
        } else {
            return Err(Error::MalformedPayload);
        };
        let payload_size = get_u32(buf, 8);
        let additional = get_u32(buf, 12);
        let microseconds = get_u32(buf, 16);
        let start: u64 = 24 + additional as u64;
        let end: u64 = start + payload_size as u64;
        let total: u64 = end + pad8_exec(payload_size as u64);
        if (buf.len() as u64) < total {
            return Err(Error::Truncated);
        }
        let data = slice_to_vec(slice_subrange(buf, start as usize, end as usize));
        if iframe {
            let time = if additional >= 4 {
                Some(get_u32(buf, 24))
            } else {
                None
            };
            return Ok((BcMedia::Iframe(BcMediaIframe { video_type, microseconds, time, data }), total as usize));
        }
        return Ok((BcMedia::Pframe(BcMediaPframe { video_type, microseconds, data }), total as usize));
    }
    if magic == MAGIC_HEADER_BCMEDIA_AAC {
        if buf.len() < 8 {
            return Err(Error::Truncated);
        }
        let size = get_u16(buf, 4);
        if size != get_u16(buf, 6) {
            return Err(Error::MalformedPayload);
        }
        let total: usize = 8 + size as usize + pad8_exec(size as u64) as usize;
        if buf.len() < total {
            return Err(Error::Truncated);
        }
        let data = slice_to_vec(slice_subrange(buf, 8, 8 + size as usize));
        return Ok((BcMedia::Aac(BcMediaAac { data }), total));
    }
    if magic == MAGIC_HEADER_BCMEDIA_ADPCM {
        if buf.len() < 12 {
            return Err(Error::Truncated);
        }
        let size = get_u16(buf, 4);
        if size != get_u16(buf, 6) || size < 4 || get_u16(buf, 8) != MAGIC_HEADER_BCMEDIA_ADPCM_DATA {
            return Err(Error::MalformedPayload);
        }
        let total: usize = 8 + size as usize + pad8_exec(size as u64) as usize;
        if buf.len() < total {
            return Err(Error::Truncated);
        }
        let data = slice_to_vec(slice_subrange(buf, 12, 8 + size as usize));
        return Ok((BcMedia::Adpcm(BcMediaAdpcm { data }), total));
    }
    Err(Error::BadMagic)
}

/// The chunks that a buffer holds, read one after the other.
pub struct MediaRun {
    /// The chunks read.
    pub chunks: Vec<BcMedia>,
    /// Where each chunk starts.
    pub starts: Vec<usize>,
    /// The bytes taken by the chunks; the rest waits for more data.
    pub consumed: usize,
    /// Why reading stopped, unless it was only for want of data.
    pub error: Option<Error>,
}

/// Reads every whole chunk at the start of `buf`. Reading stops at the first
/// place that does not start with a whole chunk: quietly when the chunk is
/// only cut short, with its error otherwise (the stream is then unusable and
/// the supervisor reconnects).
pub fn decode_media(buf: &[u8]) -> (r: MediaRun)
    ensures
        r.chunks@.len() == r.starts@.len(),
        r.consumed <= buf@.len(),
        forall|i: int|
            0 <= i < r.chunks@.len() ==> {
                let at = #[trigger] r.starts@[i] as int;
                &&& at + chunk_len(buf@.subrange(at, buf@.len() as int)) == if i + 1 < r.starts@.len() {
                    r.starts@[i + 1] as int
                } else {
                    r.consumed as int
                }
                &&& chunk_error(buf@.subrange(at, buf@.len() as int)) is None
                &&& chunk_matches(r.chunks@[i], buf@.subrange(at, buf@.len() as int))
            },
        r.starts@.len() > 0 ==> r.starts@[0] == 0,
        r.starts@.len() == 0 ==> r.consumed == 0,
        chunk_error(buf@.subrange(r.consumed as int, buf@.len() as int)) matches Some(e) && r.error
            == if e == Error::Truncated {
            None
        } else {
            Some(e)
        },
{
    let mut chunks: Vec<BcMedia> = Vec::new();
    let mut starts: Vec<usize> = Vec::new();
    let mut pos: usize = 0;
    loop
        invariant
            pos <= buf@.len(),
            chunks@.len() == starts@.len(),
            forall|i: int|
                0 <= i < chunks@.len() ==> {
                    let at = #[trigger] starts@[i] as int;
                    &&& at + chunk_len(buf@.subrange(at, buf@.len() as int)) == if i + 1
                        < starts@.len() {
                        starts@[i + 1] as int
                    } else {
                        pos as int
                    }
                    &&& chunk_error(buf@.subrange(at, buf@.len() as int)) is None
                    &&& chunk_matches(chunks@[i], buf@.subrange(at, buf@.len() as int))
                },
            starts@.len() > 0 ==> starts@[0] == 0,
            starts@.len() == 0 ==> pos == 0,
        decreases buf@.len() - pos,
    {
        let rest = slice_subrange(buf, pos, buf.len());
        match bcmedia_chunk(rest) {
            Ok((m, n)) => {
                starts.push(pos);
                chunks.push(m);
                pos = pos + n;
            },
            Err(e) => {
                let error = if matches!(e, Error::Truncated) {
                    None
                } else {
                    Some(e)
                };
                return MediaRun { chunks, starts, consumed: pos, error };
            },
        }
    }
}

} // verus!
