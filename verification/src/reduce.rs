//! The fingerprint reducer: folds ten observations into the 62-character
//! digest, in probe-table order.

use vstd::prelude::*;

use sha2::Digest;

use crate::encoding::{
    hex_encode, is_hex_char, lemma_spec_hex_add, lemma_spec_hex_chars, lemma_spec_hex_len,
    push_char, spec_hex, spec_u16_be,
};
use crate::parse::Part;

verus! {

/// What SHA-256 maps a byte string to.
pub uninterp spec fn sha256_of(bytes: Seq<u8>) -> Seq<u8>;

/// Relies on sha2's Sha256: the digest is 32 bytes and depends on the input
/// bytes alone.
#[verifier::external_body]
fn sha256(bytes: &[u8]) -> (r: Vec<u8>)
    ensures
        r@ == sha256_of(bytes@),
        r@.len() == 32,
{
    sha2::Sha256::digest(bytes).to_vec()
}

/// The 69-entry cipher lookup table of the digest; a cipher's short code is
/// its 1-based position here, as two hex digits.
pub open spec fn spec_cipher_table() -> Seq<u16> {
    seq![
        0x0004u16, 0x0005, 0x0007, 0x000a, 0x0016, 0x002f, 0x0033, 0x0035, 0x0039, 0x003c,
        0x003d, 0x0041, 0x0045, 0x0067, 0x006b, 0x0084, 0x0088, 0x009a, 0x009c, 0x009d,
        0x009e, 0x009f, 0x00ba, 0x00be, 0x00c0, 0x00c4, 0xc007, 0xc008, 0xc009, 0xc00a,
        0xc011, 0xc012, 0xc013, 0xc014, 0xc023, 0xc024, 0xc027, 0xc028, 0xc02b, 0xc02c,
        0xc02f, 0xc030, 0xc060, 0xc061, 0xc072, 0xc073, 0xc076, 0xc077, 0xc09c, 0xc09d,
        0xc09e, 0xc09f, 0xc0a0, 0xc0a1, 0xc0a2, 0xc0a3, 0xc0ac, 0xc0ad, 0xc0ae, 0xc0af,
        0xcc13, 0xcc14, 0xcca8, 0xcca9, 0x1301, 0x1302, 0x1303, 0x1304, 0x1305,
    ]
}

/// The first table position whose hex encoding equals the given string,
/// searching from `i`.
pub open spec fn spec_cipher_pos(c: Seq<char>, i: int) -> Option<int>
    decreases spec_cipher_table().len() - i,
{
    if i < 0 || i >= spec_cipher_table().len() {
        None
    } else if spec_hex(spec_u16_be(spec_cipher_table()[i] as nat)) == c {
        Some(i)
    } else {
        spec_cipher_pos(c, i + 1)
    }
}

/// The 2-hex-digit short code of an observed cipher string: its 1-based
/// position in the lookup table, or `00` when missing or unknown.
pub open spec fn spec_cipher_bytes(c: Seq<char>) -> Seq<char> {
    if c.len() == 0 {
        spec_hex(seq![0u8])
    } else {
        match spec_cipher_pos(c, 0) {
            Some(i) => spec_hex(seq![(i + 1) as u8]),
            None => spec_hex(seq![0u8]),
        }
    }
}

/// The single digest character for an observed version string: the fourth
/// hex digit `0`..`5` remapped to `a`..`f`, anything else to `0`.
pub open spec fn spec_version_byte(v: Seq<char>) -> char {
    if v.len() == 0 {
        '0'
    } else if v[3] == '0' {
        'a'
    } else if v[3] == '1' {
        'b'
    } else if v[3] == '2' {
        'c'
    } else if v[3] == '3' {
        'd'
    } else if v[3] == '4' {
        'e'
    } else if v[3] == '5' {
        'f'
    } else {
        '0'
    }
}

/// Builds the lookup table of `spec_cipher_table`.
#[verifier::rlimit(100)]
fn cipher_table() -> (r: Vec<u16>)
    ensures
        r@ == spec_cipher_table(),
{
    let mut r: Vec<u16> = Vec::new();
    r.push(0x0004);
    r.push(0x0005);
    r.push(0x0007);
    r.push(0x000a);
    r.push(0x0016);
    r.push(0x002f);
    r.push(0x0033);
    r.push(0x0035);
    r.push(0x0039);
    r.push(0x003c);
    r.push(0x003d);
    r.push(0x0041);
    r.push(0x0045);
    r.push(0x0067);
    r.push(0x006b);
    r.push(0x0084);
    r.push(0x0088);
    r.push(0x009a);
    r.push(0x009c);
    r.push(0x009d);
    r.push(0x009e);
    r.push(0x009f);
    r.push(0x00ba);
    r.push(0x00be);
    r.push(0x00c0);
    r.push(0x00c4);
    r.push(0xc007);
    r.push(0xc008);
    r.push(0xc009);
    r.push(0xc00a);
    r.push(0xc011);
    r.push(0xc012);
    r.push(0xc013);
    r.push(0xc014);
    r.push(0xc023);
    r.push(0xc024);
    r.push(0xc027);
    r.push(0xc028);
    r.push(0xc02b);
    r.push(0xc02c);
    r.push(0xc02f);
    r.push(0xc030);
    r.push(0xc060);
    r.push(0xc061);
    r.push(0xc072);
    r.push(0xc073);
    r.push(0xc076);
    r.push(0xc077);
    r.push(0xc09c);
    r.push(0xc09d);
    r.push(0xc09e);
    r.push(0xc09f);
    r.push(0xc0a0);
    r.push(0xc0a1);
    r.push(0xc0a2);
    r.push(0xc0a3);
    r.push(0xc0ac);
    r.push(0xc0ad);
    r.push(0xc0ae);
    r.push(0xc0af);
    r.push(0xcc13);
    r.push(0xcc14);
    r.push(0xcca8);
    r.push(0xcca9);
    r.push(0x1301);
    r.push(0x1302);
    r.push(0x1303);
    r.push(0x1304);
    r.push(0x1305);
    assert(r@ =~= spec_cipher_table());
    r
}

impl Part {
    /// Looks an observed cipher string up in the fixed table and returns its
    /// 2-hex-digit short code, `00` when missing or unknown.
    pub fn cipher_bytes(cipher: &str) -> (r: String)
        ensures
            r@ == spec_cipher_bytes(cipher@),
    {
        let mut zero: Vec<u8> = Vec::new();
        zero.push(0);
        assert(zero@ =~= seq![0u8]);
        if cipher.is_empty() {
            return hex_encode(zero.as_slice());
        }
        let owned = cipher.to_owned();
        let table = cipher_table();
        let n = table.len();
        for i in 0..n
            invariant
                n == table@.len(),
                table@ == spec_cipher_table(),
                owned@ == cipher@,
                zero@ == seq![0u8],
                cipher@.len() != 0,
                spec_cipher_pos(cipher@, 0) == spec_cipher_pos(cipher@, i as int),
        {
            let t = table[i];
            let mut pair: Vec<u8> = Vec::new();
            pair.push((t / 256) as u8);
            pair.push((t % 256) as u8);
            assert(pair@ =~= spec_u16_be(t as nat));
            let enc = hex_encode(pair.as_slice());
            if enc == owned {
                let count: u8 = (i + 1) as u8;
                let mut code: Vec<u8> = Vec::new();
                code.push(count);
                assert(code@ =~= seq![(i + 1) as u8]);
                return hex_encode(code.as_slice());
            }
        }
        hex_encode(zero.as_slice())
    }

    /// Maps an observed version string to its digest character (see
    /// `spec_version_byte`).
    pub fn version_byte(version: &str) -> (r: char)
        requires
            version@.len() == 0 || version@.len() >= 4,
        ensures
            r == spec_version_byte(version@),
    {
        if version.is_empty() {
            return '0';
        }
        let c = version.get_char(3);
        if c == '0' {
            'a'
        } else if c == '1' {
            'b'
        } else if c == '2' {
            'c'
        } else if c == '3' {
            'd'
        } else if c == '4' {
            'e'
        } else if c == '5' {
            'f'
        } else {
            '0'
        }
    }

    /// An observation the reducer accepts: a version string, when present,
    /// is empty or at least four characters long.
    pub open spec fn wf(self) -> bool {
        match self.version {
            Some(s) => s@.len() == 0 || s@.len() >= 4,
            None => true,
        }
    }

    /// The observed cipher string, or the empty string.
    pub open spec fn spec_cipher_or_empty(self) -> Seq<char> {
        match self.cipher {
            Some(s) => s@,
            None => Seq::empty(),
        }
    }

    /// The observed version string, or the empty string.
    pub open spec fn spec_version_or_empty(self) -> Seq<char> {
        match self.version {
            Some(s) => s@,
            None => Seq::empty(),
        }
    }

    /// What the observation adds to the ALPN-and-extensions string.
    pub open spec fn spec_ae_part(self) -> Seq<char> {
        (match self.extensions.version {
            Some(s) => s@,
            None => Seq::<char>::empty(),
        }) + (match self.extensions.fingerprint {
            Some(s) => s@,
            None => Seq::<char>::empty(),
        })
    }

    /// The short code of this observation's cipher.
    pub fn get_cipher(&self) -> (r: String)
        ensures
            r@ == spec_cipher_bytes(self.spec_cipher_or_empty()),
    {
        match &self.cipher {
            Some(s) => Part::cipher_bytes(s.as_str()),
            None => {
                let empty = String::new();
                Part::cipher_bytes(empty.as_str())
            },
        }
    }

    /// The digest character of this observation's version.
    pub fn get_version(&self) -> (r: char)
        requires
            self.wf(),
        ensures
            r == spec_version_byte(self.spec_version_or_empty()),
    {
        match &self.version {
            Some(s) => Part::version_byte(s.as_str()),
            None => {
                let empty = String::new();
                Part::version_byte(empty.as_str())
            },
        }
    }

    /// The observation's ALPN protocol, or the empty string.
    pub fn get_extensions_version(&self) -> (r: String)
        ensures
            r@ == match self.extensions.version {
                Some(s) => s@,
                None => Seq::<char>::empty(),
            },
    {
        self.extensions.get_version()
    }

    /// The observation's joined extension type codes, or the empty string.
    pub fn get_extensions_fingerprint(&self) -> (r: String)
        ensures
            r@ == match self.extensions.fingerprint {
                Some(s) => s@,
                None => Seq::<char>::empty(),
            },
    {
        self.extensions.get_fingerprint()
    }
}

/// The cipher-and-version half of the digest: two hex digits and one
/// character per observation, in order.
pub open spec fn spec_fuzzy(parts: Seq<Part>) -> Seq<char>
    decreases parts.len(),
{
    if parts.len() == 0 {
        Seq::empty()
    } else {
        spec_fuzzy(parts.drop_last()) + spec_cipher_bytes(parts.last().spec_cipher_or_empty())
            + seq![spec_version_byte(parts.last().spec_version_or_empty())]
    }
}

/// The concatenated ALPN strings and extension type codes of all
/// observations, in order: the input of the digest's hash half.
pub open spec fn spec_ae(parts: Seq<Part>) -> Seq<char>
    decreases parts.len(),
{
    if parts.len() == 0 {
        Seq::empty()
    } else {
        spec_ae(parts.drop_last()) + parts.last().spec_ae_part()
    }
}

/// The digest: the cipher-and-version half, then the first 32 hex digits of
/// the SHA-256 of the ALPN-and-extensions string (hex of its first 16
/// bytes, which is the same thing).
pub open spec fn spec_fingerprint_digest(parts: Seq<Part>) -> Seq<char> {
    spec_fuzzy(parts) + spec_hex(sha256_of(vstd::utf8::encode_utf8(spec_ae(parts))).take(16))
}

/// The first 32 hex digits of a 32-byte string are the hex digits of its
/// first 16 bytes.
pub proof fn lemma_spec_hex_take(b: Seq<u8>)
    requires
        b.len() >= 16,
    ensures
        spec_hex(b).take(32) == spec_hex(b.take(16)),
{
    assert(b =~= b.take(16) + b.skip(16));
    lemma_spec_hex_add(b.take(16), b.skip(16));
    lemma_spec_hex_len(b.take(16));
    assert(spec_hex(b).take(32) =~= spec_hex(b.take(16)));
}

/// A short code is always two characters.
pub proof fn lemma_cipher_bytes_len(c: Seq<char>)
    ensures
        spec_cipher_bytes(c).len() == 2,
        forall|i: int|
            0 <= i < 2 ==> is_hex_char(#[trigger] spec_cipher_bytes(c)[i]),
{
    if c.len() == 0 {
        lemma_spec_hex_len(seq![0u8]);
        lemma_spec_hex_chars(seq![0u8]);
    } else {
        match spec_cipher_pos(c, 0) {
            Some(i) => {
                lemma_spec_hex_len(seq![(i + 1) as u8]);
                lemma_spec_hex_chars(seq![(i + 1) as u8]);
            },
            None => {
                lemma_spec_hex_len(seq![0u8]);
                lemma_spec_hex_chars(seq![0u8]);
            },
        }
    }
}

/// A version character is always a hex digit.
pub proof fn lemma_version_byte_hex(v: Seq<char>)
    ensures
        is_hex_char(spec_version_byte(v)),
{
}

/// The cipher-and-version half is three characters per observation, all of
/// them hex digits.
pub proof fn lemma_fuzzy_shape(parts: Seq<Part>)
    ensures
        spec_fuzzy(parts).len() == 3 * parts.len(),
        forall|i: int|
            0 <= i < spec_fuzzy(parts).len() ==> is_hex_char(#[trigger] spec_fuzzy(parts)[i]),
    decreases parts.len(),
{
    if parts.len() > 0 {
        lemma_fuzzy_shape(parts.drop_last());
        lemma_cipher_bytes_len(parts.last().spec_cipher_or_empty());
        lemma_version_byte_hex(parts.last().spec_version_or_empty());
        assert forall|i: int| 0 <= i < spec_fuzzy(parts).len() implies is_hex_char(
            #[trigger] spec_fuzzy(parts)[i],
        ) by {
            let prev = spec_fuzzy(parts.drop_last());
            if i < prev.len() {
                assert(spec_fuzzy(parts)[i] == prev[i]);
            } else if i < prev.len() + 2 {
                assert(spec_fuzzy(parts)[i] == spec_cipher_bytes(
                    parts.last().spec_cipher_or_empty(),
                )[i - prev.len()]);
            }
        }
    }
}

/// Folds the ten observations of one scan into the 62-character digest.
///
/// Every character is a lowercase hex digit; the whole digest is pinned
/// down by the observations alone.
pub fn fingerprint_from_parts(parts: &Vec<Part>) -> (r: String)
    requires
        parts@.len() == 10,
        forall|i: int| 0 <= i < parts@.len() ==> (#[trigger] parts@[i]).wf(),
    ensures
        r@ == spec_fingerprint_digest(parts@),
        r@.len() == 62,
        forall|i: int| 0 <= i < r@.len() ==> is_hex_char(#[trigger] r@[i]),
{
    let mut fuzzy_hash = String::new();
    let mut apln_and_ext = String::new();
    let n = parts.len();
    for i in 0..n
        invariant
            n == parts@.len(),
            forall|j: int| 0 <= j < parts@.len() ==> (#[trigger] parts@[j]).wf(),
            fuzzy_hash@ =~= spec_fuzzy(parts@.take(i as int)),
            apln_and_ext@ =~= spec_ae(parts@.take(i as int)),
    {
        let part = &parts[i];
        let c = part.get_cipher();
        let mut fh = fuzzy_hash;
        fh.append(c.as_str());
        push_char(&mut fh, part.get_version());
        fuzzy_hash = fh;
        let ev = part.get_extensions_version();
        let ef = part.get_extensions_fingerprint();
        let mut ae = apln_and_ext;
        ae.append(ev.as_str());
        ae.append(ef.as_str());
        apln_and_ext = ae;
        proof {
            assert(parts@.take(i + 1).drop_last() =~= parts@.take(i as int));
            assert(parts@.take(i + 1).last() == parts@[i as int]);
            assert(fuzzy_hash@ =~= spec_fuzzy(parts@.take(i + 1)));
            assert(apln_and_ext@ =~= spec_ae(parts@.take(i + 1)));
        }
    }
    proof {
        assert(parts@.take(10) =~= parts@);
    }
    let sha = sha256(apln_and_ext.as_str().as_bytes());
    let prefix = vstd::slice::slice_subrange(sha.as_slice(), 0, 16);
    let sha_hex = hex_encode(prefix);
    let mut out = fuzzy_hash;
    out.append(sha_hex.as_str());
    proof {
        let ghost ae_bytes = vstd::utf8::encode_utf8(spec_ae(parts@));
        assert(sha@.take(16) =~= sha256_of(ae_bytes).take(16));
        lemma_fuzzy_shape(parts@);
        lemma_spec_hex_len(sha256_of(ae_bytes).take(16));
        lemma_spec_hex_chars(sha256_of(ae_bytes).take(16));
        assert(out@ =~= spec_fingerprint_digest(parts@));
        assert forall|i: int| 0 <= i < out@.len() implies is_hex_char(#[trigger] out@[i]) by {
            if i < spec_fuzzy(parts@).len() {
                assert(out@[i] == spec_fuzzy(parts@)[i]);
            } else {
                assert(out@[i] == spec_hex(sha256_of(ae_bytes).take(16))[i - 30]);
            }
        }
    }
    out
}

} // verus!
