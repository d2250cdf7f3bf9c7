//! A compact, self-authenticating, expiring bearer-token codec.
//!
//! A token seals an arbitrary byte payload together with a creation
//! timestamp and a fresh random nonce under a shared 32-byte key, using
//! authenticated encryption, and transports the result as a printable
//! base-62 string.  Decoding validates the text encoding, the blob
//! layout, the version byte, the authentication tag and the expiry
//! policy, in that order, failing fast with a typed error at each gate.

use vstd::prelude::*;
use vstd::slice::{slice_subrange, slice_to_vec};

pub mod aead;
pub mod compress;
pub mod radix62;

verus! {

/// Format discriminator carried as the first byte of every token blob.
pub const VERSION: u8 = 0xBA;

/// Bytes in the clear header: version (1) + timestamp (4) + nonce (24).
pub const HEADER_LEN: usize = 29;

/// Bytes in the authentication tag.
pub const TAG_LEN: usize = 16;

/// Minimum length of a decoded token blob: header plus tag.
pub const MIN_BLOB_LEN: usize = 45;

/// Largest payload accepted for sealing, in bytes.
pub const MAX_PAYLOAD_LEN: usize = 0x4000_0000;

/// The typed failures a decode can report; encoding cannot fail.
#[derive(Debug, Clone, Copy, PartialEq, Eq, Structural)]
pub enum BrankaError {
    /// The token text holds a character outside the base-62 alphabet.
    InvalidBase62,
    /// The decoded blob is shorter than a header plus a tag.
    InvalidDataLength,
    /// The version byte is not the expected format constant.
    InvalidVersion,
    /// Authentication failed: header, ciphertext or tag was tampered
    /// with, or a payload adapter could not undo its transform.
    InvalidData,
    /// The embedded timestamp fails the expiry policy.
    Expired,
}

/// The value of four bytes read as a big-endian unsigned 32-bit integer.
pub open spec fn be32_val(s: Seq<u8>) -> int
    recommends
        s.len() == 4,
{
    s[0] * 0x100_0000 + s[1] * 0x1_0000 + s[2] * 0x100 + s[3]
}

/// The four big-endian bytes of an unsigned 32-bit integer.
pub open spec fn be32_bytes(x: u32) -> Seq<u8> {
    seq![
        (x / 0x100_0000) as u8,
        ((x / 0x1_0000) % 0x100) as u8,
        ((x / 0x100) % 0x100) as u8,
        (x % 0x100) as u8,
    ]
}

/// Reading back the big-endian bytes of an integer yields that integer.
pub proof fn lemma_be32_roundtrip(x: u32)
    ensures
        be32_val(be32_bytes(x)) == x,
{
    assert(x == 0x100_0000 * (x / 0x100_0000) + 0x1_0000 * ((x / 0x1_0000) % 0x100)
        + 0x100 * ((x / 0x100) % 0x100) + x % 0x100) by (bit_vector);
}

fn be32_encode(x: u32) -> (r: [u8; 4])
    ensures
        r@ == be32_bytes(x),
{
    let r: [u8; 4] = [
        (x / 0x100_0000) as u8,
        ((x / 0x1_0000) % 0x100) as u8,
        ((x / 0x100) % 0x100) as u8,
        (x % 0x100) as u8,
    ];
    proof {
        assert(r@ =~= be32_bytes(x));
    }
    r
}

fn be32_decode(b0: u8, b1: u8, b2: u8, b3: u8) -> (r: u32)
    ensures
        r == be32_val(seq![b0, b1, b2, b3]),
{
    (b0 as u32) * 0x100_0000 + (b1 as u32) * 0x1_0000 + (b2 as u32) * 0x100 + (b3 as u32)
}

/// The 29-byte clear header: version, big-endian timestamp, nonce.
pub open spec fn header_model(ts: u32, nonce: Seq<u8>) -> Seq<u8> {
    seq![VERSION] + be32_bytes(ts) + nonce
}

/// The binary blob a token transports: header, ciphertext, tag, where
/// the header is the associated data of the seal.
pub open spec fn blob_model(key: Seq<u8>, ts: u32, nonce: Seq<u8>, pt: Seq<u8>) -> Seq<u8> {
    header_model(ts, nonce) + aead::seal_ct(key, nonce, header_model(ts, nonce), pt)
        + aead::seal_tag(key, nonce, header_model(ts, nonce), pt)
}

/// What it means for `tok` to be a well-sealed token for payload `pt`
/// under `key`, stamped `ts`, with fresh `nonce`: the text is the
/// radix-62 form of the sealed blob, and the seal opens back to `pt`.
pub open spec fn token_for(
    key: Seq<u8>,
    ts: u32,
    nonce: Seq<u8>,
    pt: Seq<u8>,
    tok: Seq<char>,
) -> bool {
    let header = header_model(ts, nonce);
    let ct = aead::seal_ct(key, nonce, header, pt);
    let tag = aead::seal_tag(key, nonce, header, pt);
    &&& nonce.len() == 24
    &&& ct.len() == pt.len()
    &&& tag.len() == 16
    &&& aead::open_pt(key, nonce, header, ct, tag) == Some(pt)
    &&& tok == radix62::base62_of(blob_model(key, ts, nonce, pt))
    &&& radix62::base62_val(tok) == blob_model(key, ts, nonce, pt)
    &&& forall|i: int| 0 <= i < tok.len() ==> radix62::is_b62_char(#[trigger] tok[i])
}

/// The outcome decoding owes for a token text `tok` under `key` and
/// `ttl` when the clock reads `now`: each validation gate in order, then
/// the recovered payload.
pub open spec fn decode_model(key: Seq<u8>, ttl: u32, now: u32, tok: Seq<char>) -> Result<
    Seq<u8>,
    BrankaError,
> {
    if exists|i: int| 0 <= i < tok.len() && !radix62::is_b62_char(#[trigger] tok[i]) {
        Err(BrankaError::InvalidBase62)
    } else {
        let blob = radix62::base62_val(tok);
        if blob.len() < MIN_BLOB_LEN {
            Err(BrankaError::InvalidDataLength)
        } else if blob[0] != VERSION {
            Err(BrankaError::InvalidVersion)
        } else {
            let ts = be32_val(blob.subrange(1, 5));
            match aead::open_pt(
                key,
                blob.subrange(5, 29),
                blob.subrange(0, 29),
                blob.subrange(29, blob.len() - 16),
                blob.subrange(blob.len() - 16, blob.len() as int),
            ) {
                Option::None => Err(BrankaError::InvalidData),
                Option::Some(pt) => if ts > now + ttl {
                    Err(BrankaError::Expired)
                } else {
                    Ok(pt)
                },
            }
        }
    }
}

/// A decode result with its payload abstracted to a byte sequence.
pub open spec fn result_model(r: Result<Vec<u8>, BrankaError>) -> Result<Seq<u8>, BrankaError> {
    match r {
        Ok(v) => Ok(v@),
        Err(e) => Err(e),
    }
}

/// A well-sealed, unexpired token decodes to exactly the payload it was
/// sealed over: every gate of the decoding pipeline passes and returns
/// the plaintext the seal opens to.
pub proof fn lemma_token_round_trip(
    key: Seq<u8>,
    ttl: u32,
    ts: u32,
    now: u32,
    nonce: Seq<u8>,
    pt: Seq<u8>,
    tok: Seq<char>,
)
    requires
        token_for(key, ts, nonce, pt, tok),
        ts <= now + ttl,
    ensures
        decode_model(key, ttl, now, tok) == Ok::<Seq<u8>, BrankaError>(pt),
{
    let header = header_model(ts, nonce);
    let ct = aead::seal_ct(key, nonce, header, pt);
    let tag = aead::seal_tag(key, nonce, header, pt);
    let blob = blob_model(key, ts, nonce, pt);
    assert(header.len() == 29);
    assert(blob.len() == 45 + pt.len());
    assert(blob[0] == VERSION);
    assert(blob.subrange(1, 5) =~= be32_bytes(ts));
    lemma_be32_roundtrip(ts);
    assert(blob.subrange(5, 29) =~= nonce);
    assert(blob.subrange(0, 29) =~= header);
    assert(blob.subrange(29, blob.len() - 16) =~= ct);
    assert(blob.subrange(blob.len() - 16, blob.len() as int) =~= tag);
}

/// A token text holding any character outside the 62-symbol alphabet is
/// rejected as `InvalidBase62`: the first gate fires before any length,
/// version or cryptographic consideration.
pub proof fn lemma_alphabet_gate(key: Seq<u8>, ttl: u32, now: u32, tok: Seq<char>)
    requires
        exists|i: int| 0 <= i < tok.len() && !radix62::is_b62_char(#[trigger] tok[i]),
    ensures
        decode_model(key, ttl, now, tok) == Err::<Seq<u8>, BrankaError>(BrankaError::InvalidBase62),
{
}

/// A well-formed token text whose blob carries the wrong version byte is
/// rejected as `InvalidVersion`: the outcome is fixed before the seal is
/// ever consulted, whatever key or clock is in play.
pub proof fn lemma_version_gate(key: Seq<u8>, ttl: u32, now: u32, tok: Seq<char>)
    ensures
        ((forall|i: int| 0 <= i < tok.len() ==> radix62::is_b62_char(#[trigger] tok[i]))
            && radix62::base62_val(tok).len() >= MIN_BLOB_LEN && radix62::base62_val(tok)[0]
            != VERSION) ==> decode_model(key, ttl, now, tok) == Err::<Seq<u8>, BrankaError>(
            BrankaError::InvalidVersion,
        ),
{
}

/// The expiry policy, for a token that passes every earlier gate and
/// authenticates: it is rejected as `Expired` exactly when its embedded
/// timestamp exceeds the clock reading plus the validity window.
pub proof fn lemma_expiry_policy(key: Seq<u8>, ttl: u32, now: u32, tok: Seq<char>)
    ensures
        ((forall|i: int| 0 <= i < tok.len() ==> radix62::is_b62_char(#[trigger] tok[i]))
            && radix62::base62_val(tok).len() >= MIN_BLOB_LEN && radix62::base62_val(tok)[0]
            == VERSION && aead::open_pt(
            key,
            radix62::base62_val(tok).subrange(5, 29),
            radix62::base62_val(tok).subrange(0, 29),
            radix62::base62_val(tok).subrange(29, radix62::base62_val(tok).len() - 16),
            radix62::base62_val(tok).subrange(
                radix62::base62_val(tok).len() - 16,
                radix62::base62_val(tok).len() as int,
            ),
        ) is Some) ==> (decode_model(key, ttl, now, tok) == Err::<Seq<u8>, BrankaError>(
            BrankaError::Expired,
        ) <==> be32_val(radix62::base62_val(tok).subrange(1, 5)) > now + ttl),
{
}

/// The codec: a 32-byte symmetric key and a decode-time validity window.
///
/// Immutable once constructed; safe to share between many encode and
/// decode calls.
pub struct Branka {
    key: Vec<u8>,
    ttl: u32,
}

impl Branka {
    /// The codec holds exactly 32 key bytes.
    pub closed spec fn wf(&self) -> bool {
        self.key@.len() == 32
    }

    /// The symmetric key bytes.
    pub closed spec fn key_bytes(&self) -> Seq<u8> {
        self.key@
    }

    /// The validity window in seconds, used only while decoding.
    pub closed spec fn ttl_secs(&self) -> u32 {
        self.ttl
    }

    /// Create a codec from a 32-byte key and a time-to-live in seconds.
    pub fn new(key: &[u8], ttl: u32) -> (r: Branka)
        requires
            key@.len() == 32,
        ensures
            r.wf(),
            r.key_bytes() == key@,
            r.ttl_secs() == ttl,
    {
        Branka { key: slice_to_vec(key), ttl }
    }

    /// Seal `data` into a token stamped with the given timestamp.
    ///
    /// Draws a fresh random nonce; the result is the radix-62 text of
    /// version, timestamp, nonce, ciphertext and tag, with the header
    /// bound as associated data.
    pub fn encode_at(&self, data: &[u8], ts: u32) -> (r: String)
        requires
            self.wf(),
            data@.len() <= MAX_PAYLOAD_LEN,
        ensures
            exists|nonce: Seq<u8>| token_for(self.key_bytes(), ts, nonce, data@, r@),
    {
        let nonce = aead::gen_nonce();
        let mut blob: Vec<u8> = Vec::new();
        blob.push(VERSION);
        let tsb = be32_encode(ts);
        blob.push(tsb[0]);
        blob.push(tsb[1]);
        blob.push(tsb[2]);
        blob.push(tsb[3]);
        let mut nonce_tail = slice_to_vec(nonce.as_slice());
        blob.append(&mut nonce_tail);
        proof {
            assert(blob@ =~= header_model(ts, nonce@));
        }
        let (mut ct, mut tag) = aead::xchacha_seal(
            self.key.as_slice(),
            nonce.as_slice(),
            blob.as_slice(),
            data,
        );
        blob.append(&mut ct);
        blob.append(&mut tag);
        proof {
            assert(blob@ =~= blob_model(self.key_bytes(), ts, nonce@, data@));
        }
        let tok = radix62::radix62_encode(blob.as_slice());
        proof {
            assert(token_for(self.key_bytes(), ts, nonce@, data@, tok@));
        }
        tok
    }

    /// Seal `data` into a token stamped with the current time.
    pub fn encode_bytes(&self, data: &[u8]) -> (r: String)
        requires
            self.wf(),
            data@.len() <= MAX_PAYLOAD_LEN,
        ensures
            exists|ts: u32, nonce: Seq<u8>| token_for(self.key_bytes(), ts, nonce, data@, r@),
    {
        let ts = get_timestamp();
        self.encode_at(data, ts)
    }

    /// Open a token as of clock reading `now`, running every gate of the
    /// decoding pipeline: text, length, version, seal, expiry.
    ///
    /// Returns exactly what the decoding model prescribes; in
    /// particular, any token well-sealed under this codec's key whose
    /// timestamp lies within `now` plus the validity window yields its
    /// payload back.
    pub fn decode_at(&self, data: &str, now: u32) -> (r: Result<Vec<u8>, BrankaError>)
        requires
            self.wf(),
        ensures
            result_model(r) == decode_model(self.key_bytes(), self.ttl_secs(), now, data@),
            forall|ts: u32, nonce: Seq<u8>, pt: Seq<u8>|
                token_for(self.key_bytes(), ts, nonce, pt, data@) && ts <= now + self.ttl_secs()
                    ==> r is Ok && r->Ok_0@ == pt,
    {
        let r = self.decode_gates(data, now);
        proof {
            assert forall|ts: u32, nonce: Seq<u8>, pt: Seq<u8>|
                token_for(self.key_bytes(), ts, nonce, pt, data@) && ts <= now
                    + self.ttl_secs() implies r is Ok && r->Ok_0@ == pt by {
                lemma_token_round_trip(
                    self.key_bytes(),
                    self.ttl_secs(),
                    ts,
                    now,
                    nonce,
                    pt,
                    data@,
                );
            }
        }
        r
    }

    /// Open a token as of the current time.
    pub fn decode_bytes(&self, data: &str) -> (r: Result<Vec<u8>, BrankaError>)
        requires
            self.wf(),
        ensures
            exists|now: u32|
                result_model(r) == decode_model(self.key_bytes(), self.ttl_secs(), now, data@),
            (exists|i: int| 0 <= i < data@.len() && !radix62::is_b62_char(#[trigger] data@[i]))
                ==> r == Err::<Vec<u8>, BrankaError>(BrankaError::InvalidBase62),
            ((forall|i: int| 0 <= i < data@.len() ==> radix62::is_b62_char(#[trigger] data@[i]))
                && radix62::base62_val(data@).len() < MIN_BLOB_LEN) ==> r == Err::<
                Vec<u8>,
                BrankaError,
            >(BrankaError::InvalidDataLength),
            ((forall|i: int| 0 <= i < data@.len() ==> radix62::is_b62_char(#[trigger] data@[i]))
                && radix62::base62_val(data@).len() >= MIN_BLOB_LEN && radix62::base62_val(
                data@,
            )[0] != VERSION) ==> r == Err::<Vec<u8>, BrankaError>(BrankaError::InvalidVersion),
    {
        let now = get_timestamp();
        self.decode_at(data, now)
    }

    /// Run the decoding gates in order against the given clock reading.
    fn decode_gates(&self, data: &str, now: u32) -> (r: Result<Vec<u8>, BrankaError>)
        requires
            self.wf(),
        ensures
            result_model(r) == decode_model(self.key_bytes(), self.ttl_secs(), now, data@),
    {
        let blob = match radix62::radix62_decode(data) {
            Ok(v) => v,
            Err(e) => {
                return Err(e);
            },
        };
        if blob.len() < MIN_BLOB_LEN {
            return Err(BrankaError::InvalidDataLength);
        }
        if blob[0] != VERSION {
            return Err(BrankaError::InvalidVersion);
        }
        let ts = be32_decode(blob[1], blob[2], blob[3], blob[4]);
        proof {
            assert(seq![blob@[1], blob@[2], blob@[3], blob@[4]] =~= blob@.subrange(1, 5));
        }
        let n = blob.len();
        let nonce = slice_subrange(blob.as_slice(), 5, HEADER_LEN);
        let header = slice_subrange(blob.as_slice(), 0, HEADER_LEN);
        let ct = slice_subrange(blob.as_slice(), HEADER_LEN, n - TAG_LEN);
        let tag = slice_subrange(blob.as_slice(), n - TAG_LEN, n);
        let pt = match aead::xchacha_open(self.key.as_slice(), nonce, header, ct, tag) {
            Some(v) => v,
            None => {
                return Err(BrankaError::InvalidData);
            },
        };
        if (ts as u64) > (now as u64) + (self.ttl as u64) {
            return Err(BrankaError::Expired);
        }
        Ok(pt)
    }
}

/// The outcome decoding owes for a token whose payload was compressed
/// with strategy `m` before sealing: the sealed gates first, then the
/// decompression, whose failure is reported as `InvalidData`.
pub open spec fn decode_compressed_model(
    key: Seq<u8>,
    ttl: u32,
    m: compress::CompressMethod,
    now: u32,
    tok: Seq<char>,
) -> Result<Seq<u8>, BrankaError> {
    match decode_model(key, ttl, now, tok) {
        Err(e) => Err(e),
        Ok(z) => match compress::decompress_model(m, z) {
            Option::None => Err(BrankaError::InvalidData),
            Option::Some(pt) => Ok(pt),
        },
    }
}

/// A token text sealing the compressed form of `data` under `key` at
/// stamp `ts`, for some fresh nonce.
pub open spec fn compressed_token_for(
    key: Seq<u8>,
    ts: u32,
    m: compress::CompressMethod,
    data: Seq<u8>,
    level: u32,
    tok: Seq<char>,
) -> bool {
    exists|nonce: Seq<u8>|
        token_for(key, ts, nonce, compress::compress_model(m, data, level), tok)
}

impl Branka {
    /// Compress `data` with the chosen strategy and level, then seal the
    /// compressed bytes into a token stamped `ts`.
    ///
    /// Returns nothing only when the compressed form exceeds the payload
    /// cap, which the sealing path could not accept.
    pub fn encode_compressed_at(
        &self,
        data: &[u8],
        m: compress::CompressMethod,
        level: u32,
        ts: u32,
    ) -> (r: Option<String>)
        requires
            self.wf(),
            level <= 9,
        ensures
            r is Some ==> compressed_token_for(self.key_bytes(), ts, m, data@, level, r->0@),
            r is Some ==> compress::decompress_model(m, compress::compress_model(m, data@, level))
                == Some(data@),
            r is None <==> compress::compress_model(m, data@, level).len() > MAX_PAYLOAD_LEN,
    {
        let z = compress::compress(m, data, level);
        if z.len() > MAX_PAYLOAD_LEN {
            return None;
        }
        let tok = self.encode_at(z.as_slice(), ts);
        proof {
            let nonce = choose|nonce: Seq<u8>| token_for(self.key_bytes(), ts, nonce, z@, tok@);
            assert(token_for(
                self.key_bytes(),
                ts,
                nonce,
                compress::compress_model(m, data@, level),
                tok@,
            ));
            assert(compressed_token_for(self.key_bytes(), ts, m, data@, level, tok@));
        }
        Some(tok)
    }

    /// Compress `data`, then seal it into a token stamped with the
    /// current time.
    pub fn encode_compressed(&self, data: &[u8], m: compress::CompressMethod, level: u32) -> (r:
        Option<String>)
        requires
            self.wf(),
            level <= 9,
        ensures
            r is Some ==> (exists|ts: u32|
                compressed_token_for(self.key_bytes(), ts, m, data@, level, r->0@)),
            r is Some ==> compress::decompress_model(m, compress::compress_model(m, data@, level))
                == Some(data@),
            r is None <==> compress::compress_model(m, data@, level).len() > MAX_PAYLOAD_LEN,
    {
        let ts = get_timestamp();
        self.encode_compressed_at(data, m, level, ts)
    }

    /// Open a compressed-payload token as of clock reading `now`, then
    /// undo the compression; a payload its framing rejects is reported
    /// as `InvalidData`.
    ///
    /// Any token sealed over a compressed form of some payload, with a
    /// timestamp within the window, yields that payload back.
    pub fn decode_compressed_at(&self, data: &str, m: compress::CompressMethod, now: u32) -> (r:
        Result<Vec<u8>, BrankaError>)
        requires
            self.wf(),
        ensures
            result_model(r) == decode_compressed_model(
                self.key_bytes(),
                self.ttl_secs(),
                m,
                now,
                data@,
            ),
            forall|ts: u32, nonce: Seq<u8>, z: Seq<u8>, pt: Seq<u8>|
                token_for(self.key_bytes(), ts, nonce, z, data@) && compress::decompress_model(
                    m,
                    z,
                ) == Some(pt) && ts <= now + self.ttl_secs() ==> r is Ok && r->Ok_0@ == pt,
    {
        let z = match self.decode_at(data, now) {
            Ok(v) => v,
            Err(e) => {
                return Err(e);
            },
        };
        match compress::decompress(m, z.as_slice()) {
            Some(v) => Ok(v),
            None => Err(BrankaError::InvalidData),
        }
    }

    /// Open a compressed-payload token as of the current time.
    pub fn decode_compressed(&self, data: &str, m: compress::CompressMethod) -> (r: Result<
        Vec<u8>,
        BrankaError,
    >)
        requires
            self.wf(),
        ensures
            exists|now: u32|
                result_model(r) == decode_compressed_model(
                    self.key_bytes(),
                    self.ttl_secs(),
                    m,
                    now,
                    data@,
                ),
    {
        let now = get_timestamp();
        self.decode_compressed_at(data, m, now)
    }
}

/// Relies on std::time::SystemTime::now and duration_since: the current
/// time as whole seconds since the Unix epoch, truncated to 32 bits.
#[verifier::external_body]
fn now_unix_secs() -> u32 {
    std::time::SystemTime::now()
        .duration_since(std::time::UNIX_EPOCH)
        .unwrap()
        .as_secs() as u32
}

/// The current time as whole seconds since the Unix epoch, truncated to
/// 32 bits: the clock reading that timestamps and expiry checks use.
pub fn get_timestamp() -> u32 {
    now_unix_secs()
}

} // verus!
