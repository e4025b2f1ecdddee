//! The ciphers of the control protocol.
use vstd::prelude::*;
use vstd::string::StringSliceAdditionalSpecFns;

use aes::cipher::{AsyncStreamCipher, KeyIvInit};

verus! {

/// The eight bytes that the XOR cipher cycles through.
pub open spec fn xml_key() -> Seq<u8> {
    seq![0x1Fu8, 0x2Du8, 0x3Cu8, 0x4Bu8, 0x5Au8, 0x69u8, 0x78u8, 0xFFu8]
}

/// The XOR cipher: byte `i` is combined with key byte `(offset + i) mod 8`
/// and with the low byte of `offset`.
pub open spec fn bc_xor(offset: u32, buf: Seq<u8>) -> Seq<u8> {
    Seq::new(
        buf.len(),
        |i: int| buf[i] ^ xml_key()[(offset as int + i) % 8] ^ ((offset % 256) as u8),
    )
}

fn xml_key_at(i: usize) -> (r: u8)
    requires
        i < 8,
    ensures
        r == xml_key()[i as int],
{
    if i == 0 {
        0x1F
    } else if i == 1 {
        0x2D
    } else if i == 2 {
        0x3C
    } else if i == 3 {
        0x4B
    } else if i == 4 {
        0x5A
    } else if i == 5 {
        0x69
    } else if i == 6 {
        0x78
    } else {
        0xFF
    }
}

/// Applies the XOR cipher; encryption and decryption are the same operation.
pub fn bc_crypt(offset: u32, buf: &[u8]) -> (r: Vec<u8>)
    ensures
        r@ == bc_xor(offset, buf@),
{
    let mut out: Vec<u8> = Vec::with_capacity(buf.len());
    let low: u8 = (offset % 256) as u8;
    let mut k: usize = (offset % 8) as usize;
    let mut i: usize = 0;
    while i < buf.len()
        invariant
            i <= buf.len(),
            low == ((offset % 256) as u8),
            k == (offset as int + i) % 8,
            out@.len() == i,
            forall|j: int| 0 <= j < i ==> out@[j] == #[trigger] bc_xor(offset, buf@)[j],
        decreases buf.len() - i,
    {
        let key = xml_key_at(k);
        let b = buf[i] ^ key ^ low;
        out.push(b);
        proof {
            assert(bc_xor(offset, buf@)[i as int] == b);
            assert((k + 1) % 8 == (offset as int + i + 1) % 8);
        }
        k = (k + 1) % 8;
        i += 1;
    }
    proof {
        assert(out@ =~= bc_xor(offset, buf@));
    }
    out
}

/// What AES-128 in CFB mode makes of `data` under `key` and the initial vector `iv`.
pub uninterp spec fn aes128_cfb_encrypt_of(key: Seq<u8>, iv: Seq<u8>, data: Seq<u8>) -> Seq<u8>;

/// What AES-128 in CFB mode decrypts `data` to under `key` and the initial vector `iv`.
pub uninterp spec fn aes128_cfb_decrypt_of(key: Seq<u8>, iv: Seq<u8>, data: Seq<u8>) -> Seq<u8>;

/// The MD5 digest of `data`.
pub uninterp spec fn md5_of(data: Seq<u8>) -> Seq<u8>;

/// Relies on cfb_mode::Encryptor<aes::Aes128> (`AsyncStreamCipher::encrypt`), which
/// encrypts a buffer in place, so the result is as long as the input; CFB
/// decryption under the same key and initial vector XORs the same keystream
/// back out, so it gives the input again.
#[verifier::external_body]
fn aes128_cfb_encrypt(key: &[u8; 16], iv: &[u8; 16], data: &[u8]) -> (r: Vec<u8>)
    ensures
        r@ == aes128_cfb_encrypt_of(key@, iv@, data@),
        r@.len() == data@.len(),
        aes128_cfb_decrypt_of(key@, iv@, r@) == data@,
{
    let mut out = data.to_vec();
    cfb_mode::Encryptor::<aes::Aes128>::new(key.into(), iv.into()).encrypt(&mut out);
    out
}

/// Relies on cfb_mode::Decryptor<aes::Aes128> (`AsyncStreamCipher::decrypt`), which
/// decrypts a buffer in place, so the result is as long as the input; CFB
/// encryption of the result under the same key and initial vector rebuilds
/// the ciphertext block by block, so it gives the input again.
#[verifier::external_body]
fn aes128_cfb_decrypt(key: &[u8; 16], iv: &[u8; 16], data: &[u8]) -> (r: Vec<u8>)
    ensures
        r@ == aes128_cfb_decrypt_of(key@, iv@, data@),
        r@.len() == data@.len(),
        aes128_cfb_encrypt_of(key@, iv@, r@) == data@,
{
    let mut out = data.to_vec();
    cfb_mode::Decryptor::<aes::Aes128>::new(key.into(), iv.into()).decrypt(&mut out);
    out
}

/// Relies on md5::compute: the 16-byte digest of the input.
#[verifier::external_body]
fn md5_digest(data: &[u8]) -> (r: [u8; 16])
    ensures
        r@ == md5_of(data@),
{
    md5::compute(data).0
}

/// The initial vector of every AES message: the ASCII text `0123456789abcdef`.
pub open spec fn aes_iv() -> Seq<u8> {
    seq![
        0x30u8, 0x31u8, 0x32u8, 0x33u8, 0x34u8, 0x35u8, 0x36u8, 0x37u8,
        0x38u8, 0x39u8, 0x61u8, 0x62u8, 0x63u8, 0x64u8, 0x65u8, 0x66u8,
    ]
}

fn fixed_iv() -> (r: [u8; 16])
    ensures
        r@ == aes_iv(),
{
    let r: [u8; 16] = [
        0x30, 0x31, 0x32, 0x33, 0x34, 0x35, 0x36, 0x37, 0x38, 0x39, 0x61, 0x62, 0x63, 0x64, 0x65,
        0x66,
    ];
    assert(r@ =~= aes_iv());
    r
}

/// The encryption modes that a camera negotiates during login.
#[derive(Clone, Copy, Debug)]
pub enum EncryptionProtocol {
    /// No encryption.
    Unencrypted,
    /// The XOR cipher of older firmwares.
    BCEncrypt,
    /// AES-128-CFB on the control messages, with a key derived from the
    /// password and the login nonce.
    Aes { key: [u8; 16] },
    /// As `Aes`, with the media stream encrypted too.
    FullAes { key: [u8; 16] },
}

impl EncryptionProtocol {
    pub open spec fn is_aes(&self) -> bool {
        matches!(self, EncryptionProtocol::Aes { .. } | EncryptionProtocol::FullAes { .. })
    }

    /// What `decrypt` returns.
    pub open spec fn decrypt_spec(&self, offset: u32, buf: Seq<u8>) -> Seq<u8> {
        match self {
            EncryptionProtocol::Unencrypted => buf,
            EncryptionProtocol::BCEncrypt => bc_xor(offset, buf),
            EncryptionProtocol::Aes { key } => aes128_cfb_decrypt_of(key@, aes_iv(), buf),
            EncryptionProtocol::FullAes { key } => aes128_cfb_decrypt_of(key@, aes_iv(), buf),
        }
    }

    /// What `encrypt` returns.
    pub open spec fn encrypt_spec(&self, offset: u32, buf: Seq<u8>) -> Seq<u8> {
        match self {
            EncryptionProtocol::Unencrypted => buf,
            EncryptionProtocol::BCEncrypt => bc_xor(offset, buf),
            EncryptionProtocol::Aes { key } => aes128_cfb_encrypt_of(key@, aes_iv(), buf),
            EncryptionProtocol::FullAes { key } => aes128_cfb_encrypt_of(key@, aes_iv(), buf),
        }
    }

    pub fn unencrypted() -> (r: Self)
        ensures
            r == EncryptionProtocol::Unencrypted,
    {
        EncryptionProtocol::Unencrypted
    }

    pub fn bcencrypt() -> (r: Self)
        ensures
            r == EncryptionProtocol::BCEncrypt,
    {
        EncryptionProtocol::BCEncrypt
    }

    pub fn aes(key: [u8; 16]) -> (r: Self)
        ensures
            r == (EncryptionProtocol::Aes { key }),
    {
        EncryptionProtocol::Aes { key }
    }

    pub fn full_aes(key: [u8; 16]) -> (r: Self)
        ensures
            r == (EncryptionProtocol::FullAes { key }),
    {
        EncryptionProtocol::FullAes { key }
    }

    /// Decrypts `buf`; `offset` comes from the header of the message. Each
    /// AES message starts again from the fixed initial vector. Encrypting the
    /// result at the same offset gives `buf` back.
    pub fn decrypt(&self, offset: u32, buf: &[u8]) -> (r: Vec<u8>)
        ensures
            r@ == self.decrypt_spec(offset, buf@),
            r@.len() == buf@.len(),
            self.encrypt_spec(offset, r@) == buf@,
    {
        proof {
            lemma_bcencrypt_round_trip(offset, buf@);
        }
        match self {
            EncryptionProtocol::Unencrypted => vstd::slice::slice_to_vec(buf),
            EncryptionProtocol::BCEncrypt => bc_crypt(offset, buf),
            EncryptionProtocol::Aes { key } => aes128_cfb_decrypt(key, &fixed_iv(), buf),
            EncryptionProtocol::FullAes { key } => aes128_cfb_decrypt(key, &fixed_iv(), buf),
        }
    }

    /// Encrypts `buf`; `offset` comes from the header of the message.
    /// Decrypting the result at the same offset gives `buf` back.
    pub fn encrypt(&self, offset: u32, buf: &[u8]) -> (r: Vec<u8>)
        ensures
            r@ == self.encrypt_spec(offset, buf@),
            r@.len() == buf@.len(),
            self.decrypt_spec(offset, r@) == buf@,
    {
        proof {
            lemma_bcencrypt_round_trip(offset, buf@);
        }
        match self {
            EncryptionProtocol::Unencrypted => vstd::slice::slice_to_vec(buf),
            EncryptionProtocol::BCEncrypt => bc_crypt(offset, buf),
            EncryptionProtocol::Aes { key } => aes128_cfb_encrypt(key, &fixed_iv(), buf),
            EncryptionProtocol::FullAes { key } => aes128_cfb_encrypt(key, &fixed_iv(), buf),
        }
    }
}

/// Decrypts an XML buffer under the given protocol; `offset` comes from the
/// header of the message.
pub fn crypt(offset: u32, buf: &[u8], encryption_protocol: EncryptionProtocol) -> (r: Vec<u8>)
    ensures
        r@ == encryption_protocol.decrypt_spec(offset, buf@),
        r@.len() == buf@.len(),
{
    encryption_protocol.decrypt(offset, buf)
}

proof fn lemma_xor_twice(a: u8, k: u8, m: u8)
    ensures
        a ^ k ^ m ^ k ^ m == a,
{
    assert(a ^ k ^ m ^ k ^ m == a) by (bit_vector);
}

/// The XOR cipher undoes itself: decrypting what was encrypted at the same
/// offset gives the input back, and encryption and decryption are one function.
pub proof fn lemma_bcencrypt_round_trip(offset: u32, x: Seq<u8>)
    ensures
        EncryptionProtocol::BCEncrypt.decrypt_spec(
            offset,
            EncryptionProtocol::BCEncrypt.encrypt_spec(offset, x),
        ) == x,
        EncryptionProtocol::BCEncrypt.encrypt_spec(offset, x)
            == EncryptionProtocol::BCEncrypt.decrypt_spec(offset, x),
{
    let e = bc_xor(offset, x);
    let d = bc_xor(offset, e);
    assert forall|i: int| 0 <= i < x.len() implies d[i] == x[i] by {
        lemma_xor_twice(x[i], xml_key()[(offset as int + i) % 8], (offset % 256) as u8);
    }
    assert(d =~= x);
}

/// Without encryption both directions hand the bytes back unchanged.
pub proof fn lemma_unencrypted_round_trip(offset: u32, x: Seq<u8>)
    ensures
        EncryptionProtocol::Unencrypted.decrypt_spec(
            offset,
            EncryptionProtocol::Unencrypted.encrypt_spec(offset, x),
        ) == x,
{
}

/// An upper-case hexadecimal digit for a value below 16.
pub open spec fn hex_digit(v: u8) -> u8 {
    if v < 10 {
        (0x30 + v) as u8
    } else {
        (0x41 + v - 10) as u8
    }
}

/// Two upper-case hexadecimal digits for each byte, high nibble first.
pub open spec fn hex_upper(d: Seq<u8>) -> Seq<u8> {
    Seq::new(
        2 * d.len(),
        |i: int|
            if i % 2 == 0 {
                hex_digit(d[i / 2] / 16)
            } else {
                hex_digit(d[i / 2] % 16)
            },
    )
}

fn hex_digit_exec(v: u8) -> (r: u8)
    requires
        v < 16,
    ensures
        r == hex_digit(v),
{
    if v < 10 {
        0x30 + v
    } else {
        0x41 + v - 10
    }
}

/// The first `n` upper-case hexadecimal digits of the MD5 digest of `data`.
fn md5_hex_prefix(data: &[u8], n: usize) -> (r: Vec<u8>)
    requires
        n <= 32,
    ensures
        r@ == hex_upper(md5_of(data@)).subrange(0, n as int),
        r@.len() == n,
{
    let d = md5_digest(data);
    let mut out: Vec<u8> = Vec::with_capacity(n);
    let mut i: usize = 0;
    while i < n
        invariant
            n <= 32,
            d@ == md5_of(data@),
            d@.len() == 16,
            i <= n,
            out@.len() == i,
            forall|j: int| 0 <= j < i ==> out@[j] == #[trigger] hex_upper(d@)[j],
        decreases n - i,
    {
        let b = d[i / 2];
        let v = if i % 2 == 0 {
            hex_digit_exec(b / 16)
        } else {
            hex_digit_exec(b % 16)
        };
        assert(hex_upper(d@)[i as int] == v);
        out.push(v);
        i += 1;
    }
    assert(out@ =~= hex_upper(d@).subrange(0, n as int));
    out
}

/// `password`, a dash, then `nonce`: the text whose digest keys AES.
pub open spec fn key_phrase(password: Seq<u8>, nonce: Seq<u8>) -> Seq<u8> {
    password + seq![0x2Du8] + nonce
}

/// The AES key: the first 16 upper-case hexadecimal digits of the MD5 digest
/// of the key phrase.
pub open spec fn aes_key_spec(password: Seq<u8>, nonce: Seq<u8>) -> Seq<u8> {
    hex_upper(md5_of(key_phrase(password, nonce))).subrange(0, 16)
}

/// Derives the AES key from the password and the nonce that the camera sent
/// during login.
pub fn derive_aes_key(password: &str, nonce: &str) -> (r: [u8; 16])
    ensures
        r@ == aes_key_spec(password.spec_bytes(), nonce.spec_bytes()),
{
    let p = password.as_bytes();
    let n = nonce.as_bytes();
    let mut phrase: Vec<u8> = Vec::new();
    let mut i: usize = 0;
    while i < p.len()
        invariant
            i <= p.len(),
            phrase@ == p@.subrange(0, i as int),
        decreases p.len() - i,
    {
        phrase.push(p[i]);
        i += 1;
        assert(phrase@ =~= p@.subrange(0, i as int));
    }
    phrase.push(0x2D);
    let mut j: usize = 0;
    while j < n.len()
        invariant
            j <= n.len(),
            phrase@ == p@ + seq![0x2Du8] + n@.subrange(0, j as int),
        decreases n.len() - j,
    {
        phrase.push(n[j]);
        j += 1;
        assert(phrase@ =~= p@ + seq![0x2Du8] + n@.subrange(0, j as int));
    }
    assert(n@.subrange(0, n@.len() as int) =~= n@);
    let hex = md5_hex_prefix(phrase.as_slice(), 16);
    let mut key: [u8; 16] = [0; 16];
    let mut k: usize = 0;
    while k < 16
        invariant
            hex@.len() == 16,
            k <= 16,
            forall|m: int| 0 <= m < k ==> key@[m] == hex@[m],
        decreases 16 - k,
    {
        key[k] = hex[k];
        k += 1;
    }
    assert(key@ =~= hex@);
    key
}

/// The user name field of a legacy login: the first 31 upper-case hexadecimal
/// digits of the MD5 digest of the name, then a NUL.
pub open spec fn legacy_name_spec(name: Seq<u8>) -> Seq<u8> {
    hex_upper(md5_of(name)).subrange(0, 31).push(0u8)
}

/// Hashes a user name for the legacy login message.
pub fn legacy_hash(name: &str) -> (r: Vec<u8>)
    ensures
        r@ == legacy_name_spec(name.spec_bytes()),
        r@.len() == 32,
{
    let mut r = md5_hex_prefix(name.as_bytes(), 31);
    r.push(0);
    r
}

} // verus!
