//! The `ServerHello` parser: recovers the selected cipher, the selected
//! wire version, the ALPN protocol, and the ordered extension type codes
//! from a response buffer.
//!
//! Parsing is lenient: a response that fails the early guards yields the
//! empty observation, and the extension walk stops at the first read that
//! would leave the buffer, keeping what was collected so far.

use vstd::prelude::*;

use crate::encoding::{hex_encode, push_char, spec_hex, spec_u16_be, to_u32_be};

verus! {

/// The 2-byte big-endian integer at offset `i`.
pub open spec fn spec_be16(d: Seq<u8>, i: int) -> int {
    d[i] * 256 + d[i + 1]
}

/// The view of an optional string.
pub open spec fn opt_str_view(o: Option<String>) -> Option<Seq<char>> {
    match o {
        Some(s) => Some(s@),
        None => None,
    }
}

/// What a sequence of bytes decodes to as UTF-8, when it is valid UTF-8.
pub uninterp spec fn utf8_decoded(bytes: Seq<u8>) -> Option<Seq<char>>;

/// Relies on std's str::from_utf8: whether the bytes are valid UTF-8, and
/// which characters they decode to, depends on the bytes alone.
#[verifier::external_body]
fn utf8_to_string(bytes: &[u8]) -> (r: Option<String>)
    ensures
        r is Some <==> utf8_decoded(bytes@) is Some,
        (r matches Some(s) ==> utf8_decoded(bytes@) == Some(s@)),
{
    match std::str::from_utf8(bytes) {
        Ok(s) => Some(s.to_owned()),
        Err(_) => None,
    }
}

/// The UTF-8 decoding of the bytes, or the empty string when they are not
/// valid UTF-8.
pub open spec fn spec_utf8_or_empty(bytes: Seq<u8>) -> Seq<char> {
    match utf8_decoded(bytes) {
        Some(s) => s,
        None => Seq::empty(),
    }
}

/// The early guards that reject a response outright: an extensions length
/// whose high byte collides with the certificate handshake type, two known
/// alert byte patterns, and an announced record length too short for the
/// session-id-dependent offsets.
pub open spec fn spec_data_has_errors(d: Seq<u8>, c: int) -> bool {
    ||| d[c + 47] == 11
    ||| d.subrange(c + 50, c + 53) == seq![0x0eu8, 0xacu8, 0x0bu8]
    ||| d.subrange(c + 82, c + 85) == seq![0x0fu8, 0xf0u8, 0x0bu8]
    ||| c + 42 >= spec_be16(d, 3)
}

/// The extension walk: starting at `count`, reads a 2-byte type code and a
/// 2-byte length, skips the value, and repeats while below `maximum`.
/// A read that would leave the buffer stops the walk; a type code already
/// read is kept.
pub open spec fn spec_collect_exts(d: Seq<u8>, count: int, maximum: int) -> (Seq<u16>, Seq<
    Option<Seq<u8>>,
>)
    decreases (if count < maximum {
        maximum - count
    } else {
        0int
    }),
{
    if count >= maximum {
        (Seq::empty(), Seq::empty())
    } else if count + 2 > d.len() {
        (Seq::empty(), Seq::empty())
    } else {
        let t = (d[count] * 256 + d[count + 1]) as u16;
        if count + 4 > d.len() {
            (seq![t], Seq::empty())
        } else {
            let e = d[count + 2] * 256 + d[count + 3];
            if e == 0 {
                let rest = spec_collect_exts(d, count + 4, maximum);
                (seq![t] + rest.0, seq![Option::None] + rest.1)
            } else if count + 4 + e > d.len() {
                (seq![t], seq![Option::None])
            } else {
                let rest = spec_collect_exts(d, count + 4 + e, maximum);
                (
                    seq![t] + rest.0,
                    seq![Option::Some(d.subrange(count + 4, count + 4 + e))] + rest.1,
                )
            }
        }
    }
}

/// The ALPN lookup: the value of the first type-0x10 entry that has one.
/// A value shorter than 4 bytes yields the empty string; otherwise the
/// 3-byte list-and-name-length prefix is skipped and the rest is decoded.
pub open spec fn spec_find_apln(types: Seq<u16>, values: Seq<Option<Seq<u8>>>, i: int) -> Seq<
    char,
>
    decreases types.len() - i,
{
    if i < 0 || i >= types.len() {
        Seq::empty()
    } else if types[i] == 0x0010 && i < values.len() && values[i] is Some {
        match values[i] {
            Some(v) => if v.len() < 4 {
                Seq::empty()
            } else {
                spec_utf8_or_empty(v.skip(3))
            },
            None => Seq::empty(),
        }
    } else {
        spec_find_apln(types, values, i + 1)
    }
}

/// The type codes hex-encoded and joined with `-`.
pub open spec fn spec_join_hex(types: Seq<u16>) -> Seq<char>
    decreases types.len(),
{
    if types.len() == 0 {
        Seq::empty()
    } else if types.len() == 1 {
        spec_hex(spec_u16_be(types[0] as nat))
    } else {
        spec_join_hex(types.drop_last()) + seq!['-'] + spec_hex(spec_u16_be(types.last() as nat))
    }
}

/// What `extract_extension_info` observes: the ALPN string and the joined
/// type codes, or nothing when an early guard fires.
pub open spec fn spec_extract(d: Seq<u8>, c: int) -> (Option<Seq<char>>, Option<Seq<char>>) {
    if spec_data_has_errors(d, c) {
        (None, None)
    } else {
        let col = spec_collect_exts(d, c + 49, spec_be16(d, c + 47) + c + 48);
        (Some(spec_find_apln(col.0, col.1, 0)), Some(spec_join_hex(col.0)))
    }
}

/// The observations taken from one response's extensions block.
pub struct Extensions {
    pub version: Option<String>,
    pub fingerprint: Option<String>,
}

impl Extensions {
    /// The joined extension type codes, or the empty string.
    pub fn get_fingerprint(&self) -> (r: String)
        ensures
            r@ == match opt_str_view(self.fingerprint) {
                Some(s) => s,
                None => Seq::<char>::empty(),
            },
    {
        match &self.fingerprint {
            Some(s) => s.clone(),
            None => String::new(),
        }
    }

    /// The ALPN-selected protocol, or the empty string.
    pub fn get_version(&self) -> (r: String)
        ensures
            r@ == match opt_str_view(self.version) {
                Some(s) => s,
                None => Seq::<char>::empty(),
            },
    {
        match &self.version {
            Some(s) => s.clone(),
            None => String::new(),
        }
    }
}

impl Default for Extensions {
    /// The empty observation: no ALPN, no type codes.
    fn default() -> (r: Self)
        ensures
            r.version is None,
            r.fingerprint is None,
    {
        Extensions { version: None, fingerprint: None }
    }
}

/// One probe's observation: the selected cipher and version as 4-digit hex
/// strings, and the extensions summary.
pub struct Part {
    pub cipher: Option<String>,
    pub version: Option<String>,
    pub extensions: Extensions,
}

impl Default for Part {
    /// The empty observation, used for failed or rejected probes.
    fn default() -> (r: Self)
        ensures
            r.cipher is None,
            r.version is None,
            r.extensions.version is None,
            r.extensions.fingerprint is None,
    {
        Part { cipher: None, version: None, extensions: Extensions::default() }
    }
}

impl Part {
    /// The early guards on a response buffer (see `spec_data_has_errors`).
    pub fn data_has_errors(data: &[u8], counter: usize) -> (r: bool)
        requires
            data@.len() == 1484,
            counter + 85 <= data@.len(),
        ensures
            r == spec_data_has_errors(data@, counter as int),
    {
        if data[counter + 47] == 11 {
            return true;
        }
        if data[counter + 50] == 0x0e && data[counter + 51] == 0xac && data[counter + 52] == 0x0b {
            proof {
                assert(data@.subrange(counter + 50, counter + 53) =~= seq![
                    0x0eu8,
                    0xacu8,
                    0x0bu8,
                ]);
            }
            return true;
        }
        if data[counter + 82] == 0x0f && data[counter + 83] == 0xf0 && data[counter + 84] == 0x0b {
            proof {
                assert(data@.subrange(counter + 82, counter + 85) =~= seq![
                    0x0fu8,
                    0xf0u8,
                    0x0bu8,
                ]);
            }
            return true;
        }
        let server_hello_length = to_u32_be(vstd::slice::slice_subrange(data, 3, 5));
        if counter + 42 >= server_hello_length as usize {
            return true;
        }
        proof {
            assert(data@.subrange(counter + 50, counter + 53) != seq![0x0eu8, 0xacu8, 0x0bu8]);
            assert(data@.subrange(counter + 82, counter + 85) != seq![0x0fu8, 0xf0u8, 0x0bu8]);
        }
        false
    }

    /// The ALPN lookup over the collected entries (see `spec_find_apln`).
    pub fn find_extension(types: &Vec<u16>, values: Vec<Option<Vec<u8>>>) -> (r: String)
        ensures
            r@ == spec_find_apln(types@, values.deep_view(), 0),
    {
        let ghost tys = types@;
        let ghost vls = values.deep_view();
        let n = types.len();
        for i in 0..n
            invariant
                n == tys.len(),
                tys == types@,
                vls == values.deep_view(),
                vls.len() == values@.len(),
                spec_find_apln(tys, vls, 0) == spec_find_apln(tys, vls, i as int),
        {
            if types[i] == 0x0010 && i < values.len() {
                match &values[i] {
                    Some(x) => {
                        if x.len() < 4 {
                            assert(spec_find_apln(tys, vls, i as int) =~= Seq::<char>::empty());
                            return String::new();
                        }
                        let tail = vstd::slice::slice_subrange(x.as_slice(), 3, x.len());
                        let decoded = utf8_to_string(tail);
                        proof {
                            assert(vls[i as int] matches Some(v) && v.skip(3) == tail@);
                        }
                        match decoded {
                            Some(s) => {
                                return s;
                            },
                            None => {
                                return String::new();
                            },
                        }
                    },
                    None => {
                        proof {
                            assert(vls[i as int] is None);
                        }
                    },
                }
            }
        }
        String::new()
    }

    /// Hex-encodes each collected type code and joins them with `-`.
    pub fn add_formatting_hyphen(types: &Vec<u16>) -> (r: String)
        ensures
            r@ == spec_join_hex(types@),
    {
        let mut out = String::new();
        let n = types.len();
        for i in 0..n
            invariant
                n == types@.len(),
                out@ =~= spec_join_hex(types@.take(i as int)),
        {
            if i > 0 {
                push_char(&mut out, '-');
            }
            let t = types[i];
            let mut pair: Vec<u8> = Vec::new();
            pair.push((t / 256) as u8);
            pair.push((t % 256) as u8);
            assert(pair@ =~= spec_u16_be(t as nat));
            let enc = hex_encode(pair.as_slice());
            let mut out2 = out;
            out2.append(enc.as_str());
            out = out2;
            proof {
                assert(types@.take(i + 1).drop_last() =~= types@.take(i as int));
                assert(types@.take(i + 1).last() == types@[i as int]);
                assert(out@ =~= spec_join_hex(types@.take(i + 1)));
            }
        }
        proof {
            assert(types@.take(n as int) =~= types@);
        }
        out
    }

    /// Walks the extensions block and summarizes it (see `spec_extract`).
    pub fn extract_extension_info(data: &[u8], counter: usize) -> (r: Extensions)
        requires
            data@.len() == 1484,
            counter + 85 <= data@.len(),
        ensures
            opt_str_view(r.version) == spec_extract(data@, counter as int).0,
            opt_str_view(r.fingerprint) == spec_extract(data@, counter as int).1,
    {
        if Part::data_has_errors(data, counter) {
            return Extensions::default();
        }
        let length = to_u32_be(vstd::slice::slice_subrange(data, counter + 47, counter + 49));
        let mut count: usize = counter + 49;
        let ghost c0 = count as int;
        let maximum: usize = (length as usize) + counter + 48;
        let ghost m = maximum as int;

        let mut types: Vec<u16> = Vec::new();
        let mut values: Vec<Option<Vec<u8>>> = Vec::new();

        while count < maximum
            invariant_except_break
                c0 <= count as int,
                m == maximum,
                m <= 70000,
                data@.len() == 1484,
                counter + 85 <= data@.len(),
                spec_collect_exts(data@, c0, m).0 =~= types@ + spec_collect_exts(
                    data@,
                    count as int,
                    m,
                ).0,
                spec_collect_exts(data@, c0, m).1 =~= values.deep_view() + spec_collect_exts(
                    data@,
                    count as int,
                    m,
                ).1,
            ensures
                types@ == spec_collect_exts(data@, c0, m).0,
                values.deep_view() == spec_collect_exts(data@, c0, m).1,
            decreases (if count < maximum {
                maximum - count
            } else {
                0int
            }),
        {
            if count + 2 > data.len() {
                proof {
                    assert(spec_collect_exts(data@, count as int, m).0 =~= Seq::<u16>::empty());
                    assert(spec_collect_exts(data@, count as int, m).1 =~= Seq::<
                        Option<Seq<u8>>,
                    >::empty());
                    assert(types@ =~= spec_collect_exts(data@, c0, m).0);
                    assert(values.deep_view() =~= spec_collect_exts(data@, c0, m).1);
                }
                break ;
            }
            let t: u16 = (data[count] as u16) * 256 + (data[count + 1] as u16);
            if count + 4 > data.len() {
                types.push(t);
                proof {
                    assert(types@ =~= spec_collect_exts(data@, c0, m).0);
                    assert(values.deep_view() =~= spec_collect_exts(data@, c0, m).1);
                }
                break ;
            }
            let e: usize = (data[count + 2] as usize) * 256 + (data[count + 3] as usize);
            let ghost prev_vals = values.deep_view();
            if e == 0 {
                types.push(t);
                values.push(None);
                proof {
                    assert(values.deep_view() =~= prev_vals.push(Option::<Seq<u8>>::None));
                    assert(spec_collect_exts(data@, c0, m).0 =~= types@ + spec_collect_exts(
                        data@,
                        count + 4,
                        m,
                    ).0);
                    assert(spec_collect_exts(data@, c0, m).1 =~= values.deep_view()
                        + spec_collect_exts(data@, count + 4, m).1);
                }
                count = count + 4;
            } else if e > data.len() - (count + 4) {
                types.push(t);
                values.push(None);
                proof {
                    assert(values.deep_view() =~= prev_vals.push(Option::<Seq<u8>>::None));
                    assert(types@ =~= spec_collect_exts(data@, c0, m).0);
                    assert(values.deep_view() =~= spec_collect_exts(data@, c0, m).1);
                }
                break ;
            } else {
                types.push(t);
                let v = vstd::slice::slice_to_vec(
                    vstd::slice::slice_subrange(data, count + 4, count + 4 + e),
                );
                proof {
                    assert(v@ == data@.subrange(count + 4, count as int + 4 + e as int));
                }
                values.push(Some(v));
                proof {
                    assert(values.deep_view() =~~= prev_vals.push(
                        Option::Some(data@.subrange(count + 4, count as int + 4 + e as int)),
                    ));
                    assert(spec_collect_exts(data@, c0, m).0 =~= types@ + spec_collect_exts(
                        data@,
                        count + 4 + e,
                        m,
                    ).0);
                    assert(spec_collect_exts(data@, c0, m).1 =~= values.deep_view()
                        + spec_collect_exts(data@, count + 4 + e, m).1);
                }
                count = count + 4 + e;
            }
        }

        let apln = Part::find_extension(&types, values);
        let formatted_types = Part::add_formatting_hyphen(&types);
        Extensions { version: Some(apln), fingerprint: Some(formatted_types) }
    }

    /// Parses one response buffer into an observation.
    ///
    /// A buffer that does not open with a handshake record carrying a
    /// `ServerHello` yields the empty observation; otherwise the cipher and
    /// version offsets are fixed by the session-id length at offset 43.
    pub fn new(data: Vec<u8>) -> (r: Part)
        requires
            data@.len() == 1484,
        ensures
            data@[0] != 22 || data@[5] != 2 ==> r.cipher is None && r.version is None
                && r.extensions.version is None && r.extensions.fingerprint is None,
            data@[0] == 22 && data@[5] == 2 ==> {
                let c = data@[43] as int;
                &&& opt_str_view(r.cipher) == Some(spec_hex(data@.subrange(c + 44, c + 46)))
                &&& opt_str_view(r.version) == Some(spec_hex(data@.subrange(9, 11)))
                &&& opt_str_view(r.extensions.version) == spec_extract(data@, c).0
                &&& opt_str_view(r.extensions.fingerprint) == spec_extract(data@, c).1
            },
            (r.cipher matches Some(s) ==> s@.len() == 4),
            (r.version matches Some(s) ==> s@.len() == 4),
    {
        if data[0] != 22 || data[5] != 2 {
            return Part::default();
        }
        let counter = data[43] as usize;

        let selected_cipher = vstd::slice::slice_subrange(
            data.as_slice(),
            counter + 44,
            counter + 46,
        );
        let version = vstd::slice::slice_subrange(data.as_slice(), 9, 11);
        let extensions = Part::extract_extension_info(data.as_slice(), counter);
        proof {
            crate::encoding::lemma_spec_hex_len(selected_cipher@);
            crate::encoding::lemma_spec_hex_len(version@);
        }
        Part {
            cipher: Some(hex_encode(selected_cipher)),
            version: Some(hex_encode(version)),
            extensions,
        }
    }
}

} // verus!
