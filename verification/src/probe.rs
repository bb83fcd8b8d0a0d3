//! Probe parameters: the wire version, cipher inventories, reordering
//! strategies, and the fixed table of ten probes.

use vstd::prelude::*;

verus! {

/// The TLS version a probe advertises on the wire.
#[derive(Clone, Copy, PartialEq, Eq, Structural)]
pub enum Version {
    SslV3,
    Tls10,
    Tls11,
    Tls12,
    Tls13,
}

impl Version {
    /// The record-layer version bytes. A probe advertising TLS 1.3
    /// deliberately keeps the TLS 1.0 record version.
    pub open spec fn spec_record_version(self) -> Seq<u8> {
        match self {
            Version::SslV3 => seq![3u8, 0u8],
            Version::Tls10 => seq![3u8, 1u8],
            Version::Tls11 => seq![3u8, 2u8],
            Version::Tls12 => seq![3u8, 3u8],
            Version::Tls13 => seq![3u8, 1u8],
        }
    }

    /// The version bytes inside the `ClientHello` body.
    pub open spec fn spec_client_version(self) -> Seq<u8> {
        match self {
            Version::SslV3 => seq![3u8, 0u8],
            Version::Tls10 => seq![3u8, 1u8],
            Version::Tls11 => seq![3u8, 2u8],
            Version::Tls12 => seq![3u8, 3u8],
            Version::Tls13 => seq![3u8, 3u8],
        }
    }

    /// Starts the two growing buffers of the builder: the `ClientHello` body
    /// opened with the client version, and the record header opened with the
    /// handshake content type and the record version.
    pub fn hello_payload(&self) -> (r: (Vec<u8>, Vec<u8>))
        ensures
            r.0@ == self.spec_client_version(),
            r.1@ == seq![22u8] + self.spec_record_version(),
    {
        let mut client_hello: Vec<u8> = Vec::new();
        let mut payload: Vec<u8> = Vec::new();
        payload.push(22);
        payload.push(3);
        client_hello.push(3);
        match self {
            Version::SslV3 => {
                payload.push(0);
                client_hello.push(0);
            },
            Version::Tls10 => {
                payload.push(1);
                client_hello.push(1);
            },
            Version::Tls11 => {
                payload.push(2);
                client_hello.push(2);
            },
            Version::Tls12 => {
                payload.push(3);
                client_hello.push(3);
            },
            Version::Tls13 => {
                payload.push(1);
                client_hello.push(3);
            },
        }
        assert(client_hello@ =~= self.spec_client_version());
        assert(payload@ =~= seq![22u8] + self.spec_record_version());
        (client_hello, payload)
    }
}

/// Which of the two fixed cipher inventories a probe starts from.
#[derive(Clone, Copy, PartialEq, Eq, Structural)]
pub enum CipherList {
    All,
    NoTls13,
}

/// The full cipher inventory: 69 suites, each a 2-byte code.
pub open spec fn spec_all_ciphers() -> Seq<u16> {
    seq![
        0x0016u16, 0x0033, 0x0067, 0xc09e, 0xc0a2, 0x009e, 0x0039, 0x006b, 0xc09f, 0xc0a3,
        0x009f, 0x0045, 0x00be, 0x0088, 0x00c4, 0x009a, 0xc008, 0xc009, 0xc023, 0xc0ac,
        0xc0ae, 0xc02b, 0xc00a, 0xc024, 0xc0ad, 0xc0af, 0xc02c, 0xc072, 0xc073, 0xcca9,
        0x1302, 0x1301, 0xcc14, 0xc007, 0xc012, 0xc013, 0xc027, 0xc02f, 0xc014, 0xc028,
        0xc030, 0xc060, 0xc061, 0xc076, 0xc077, 0xcca8, 0x1305, 0x1304, 0x1303, 0xcc13,
        0xc011, 0x000a, 0x002f, 0x003c, 0xc09c, 0xc0a0, 0x009c, 0x0035, 0x003d, 0xc09d,
        0xc0a1, 0x009d, 0x0041, 0x00ba, 0x0084, 0x00c0, 0x0007, 0x0004, 0x0005,
    ]
}

/// The reduced inventory: the full one with the five TLS 1.3 suites removed
/// (64 entries).
pub open spec fn spec_no_tls13_ciphers() -> Seq<u16> {
    seq![
        0x0016u16, 0x0033, 0x0067, 0xc09e, 0xc0a2, 0x009e, 0x0039, 0x006b, 0xc09f, 0xc0a3,
        0x009f, 0x0045, 0x00be, 0x0088, 0x00c4, 0x009a, 0xc008, 0xc009, 0xc023, 0xc0ac,
        0xc0ae, 0xc02b, 0xc00a, 0xc024, 0xc0ad, 0xc0af, 0xc02c, 0xc072, 0xc073, 0xcca9,
        0xcc14, 0xc007, 0xc012, 0xc013, 0xc027, 0xc02f, 0xc014, 0xc028, 0xc030, 0xc060,
        0xc061, 0xc076, 0xc077, 0xcca8, 0xcc13, 0xc011, 0x000a, 0x002f, 0x003c, 0xc09c,
        0xc0a0, 0x009c, 0x0035, 0x003d, 0xc09d, 0xc0a1, 0x009d, 0x0041, 0x00ba, 0x0084,
        0x00c0, 0x0007, 0x0004, 0x0005,
    ]
}

impl CipherList {
    pub open spec fn spec_list(self) -> Seq<u16> {
        match self {
            CipherList::All => spec_all_ciphers(),
            CipherList::NoTls13 => spec_no_tls13_ciphers(),
        }
    }

    /// The ordered cipher inventory this selector names.
    #[verifier::rlimit(100)]
    pub fn lists(&self) -> (r: Vec<u16>)
        ensures
            r@ == self.spec_list(),
    {
        let mut r: Vec<u16> = Vec::new();
        match self {
            CipherList::All => {
                r.push(0x0016);
                r.push(0x0033);
                r.push(0x0067);
                r.push(0xc09e);
                r.push(0xc0a2);
                r.push(0x009e);
                r.push(0x0039);
                r.push(0x006b);
                r.push(0xc09f);
                r.push(0xc0a3);
                r.push(0x009f);
                r.push(0x0045);
                r.push(0x00be);
                r.push(0x0088);
                r.push(0x00c4);
                r.push(0x009a);
                r.push(0xc008);
                r.push(0xc009);
                r.push(0xc023);
                r.push(0xc0ac);
                r.push(0xc0ae);
                r.push(0xc02b);
                r.push(0xc00a);
                r.push(0xc024);
                r.push(0xc0ad);
                r.push(0xc0af);
                r.push(0xc02c);
                r.push(0xc072);
                r.push(0xc073);
                r.push(0xcca9);
                r.push(0x1302);
                r.push(0x1301);
                r.push(0xcc14);
                r.push(0xc007);
                r.push(0xc012);
                r.push(0xc013);
                r.push(0xc027);
                r.push(0xc02f);
                r.push(0xc014);
                r.push(0xc028);
                r.push(0xc030);
                r.push(0xc060);
                r.push(0xc061);
                r.push(0xc076);
                r.push(0xc077);
                r.push(0xcca8);
                r.push(0x1305);
                r.push(0x1304);
                r.push(0x1303);
                r.push(0xcc13);
                r.push(0xc011);
                r.push(0x000a);
                r.push(0x002f);
                r.push(0x003c);
                r.push(0xc09c);
                r.push(0xc0a0);
                r.push(0x009c);
                r.push(0x0035);
                r.push(0x003d);
                r.push(0xc09d);
                r.push(0xc0a1);
                r.push(0x009d);
                r.push(0x0041);
                r.push(0x00ba);
                r.push(0x0084);
                r.push(0x00c0);
                r.push(0x0007);
                r.push(0x0004);
                r.push(0x0005);
                assert(r@ =~= spec_all_ciphers());
            },
            CipherList::NoTls13 => {
                r.push(0x0016);
                r.push(0x0033);
                r.push(0x0067);
                r.push(0xc09e);
                r.push(0xc0a2);
                r.push(0x009e);
                r.push(0x0039);
                r.push(0x006b);
                r.push(0xc09f);
                r.push(0xc0a3);
                r.push(0x009f);
                r.push(0x0045);
                r.push(0x00be);
                r.push(0x0088);
                r.push(0x00c4);
                r.push(0x009a);
                r.push(0xc008);
                r.push(0xc009);
                r.push(0xc023);
                r.push(0xc0ac);
                r.push(0xc0ae);
                r.push(0xc02b);
                r.push(0xc00a);
                r.push(0xc024);
                r.push(0xc0ad);
                r.push(0xc0af);
                r.push(0xc02c);
                r.push(0xc072);
                r.push(0xc073);
                r.push(0xcca9);
                r.push(0xcc14);
                r.push(0xc007);
                r.push(0xc012);
                r.push(0xc013);
                r.push(0xc027);
                r.push(0xc02f);
                r.push(0xc014);
                r.push(0xc028);
                r.push(0xc030);
                r.push(0xc060);
                r.push(0xc061);
                r.push(0xc076);
                r.push(0xc077);
                r.push(0xcca8);
                r.push(0xcc13);
                r.push(0xc011);
                r.push(0x000a);
                r.push(0x002f);
                r.push(0x003c);
                r.push(0xc09c);
                r.push(0xc0a0);
                r.push(0x009c);
                r.push(0x0035);
                r.push(0x003d);
                r.push(0xc09d);
                r.push(0xc0a1);
                r.push(0x009d);
                r.push(0x0041);
                r.push(0x00ba);
                r.push(0x0084);
                r.push(0x00c0);
                r.push(0x0007);
                r.push(0x0004);
                r.push(0x0005);
                assert(r@ =~= spec_no_tls13_ciphers());
            },
        }
        r
    }
}

/// How a probe reorders (and possibly trims) its cipher inventory.
#[derive(Clone, Copy, PartialEq, Eq, Structural)]
pub enum CipherOrder {
    Forward,
    Reverse,
    TopHalf,
    BottomHalf,
    MiddleOut,
}

/// The middle-out permutation: the middle element first, then alternating
/// outward. With an even length the pair below the middle leads.
pub open spec fn spec_middle_out(s: Seq<u16>) -> Seq<u16> {
    let n = s.len() as int;
    let m = n / 2;
    if n % 2 == 1 {
        Seq::new(
            s.len(),
            |j: int|
                if j == 0 {
                    s[m]
                } else if j % 2 == 1 {
                    s[m + (j + 1) / 2]
                } else {
                    s[m - j / 2]
                },
        )
    } else {
        Seq::new(
            s.len(),
            |j: int|
                if j % 2 == 0 {
                    s[m + j / 2]
                } else {
                    s[m - (j + 1) / 2]
                },
        )
    }
}

impl CipherOrder {
    /// What the strategy turns an inventory into. The halving strategies test
    /// parity before any removal, so an odd inventory's median stays with the
    /// top half and leads it.
    pub open spec fn spec_mung(self, s: Seq<u16>) -> Seq<u16> {
        let n = s.len() as int;
        match self {
            CipherOrder::Forward => s,
            CipherOrder::Reverse => s.reverse(),
            CipherOrder::TopHalf => {
                if n % 2 == 1 {
                    seq![s[n / 2]] + s.reverse().skip(n / 2 + 1)
                } else {
                    s.reverse().skip(n / 2)
                }
            },
            CipherOrder::BottomHalf => s.skip(n / 2 + n % 2),
            CipherOrder::MiddleOut => spec_middle_out(s),
        }
    }

    /// The elements a strategy keeps, in original order: everything, the
    /// first half (with the median, if any), or the second half (without).
    pub open spec fn spec_kept(self, s: Seq<u16>) -> Seq<u16> {
        let n = s.len() as int;
        match self {
            CipherOrder::TopHalf => s.take(n / 2 + n % 2),
            CipherOrder::BottomHalf => s.skip(n / 2 + n % 2),
            _ => s,
        }
    }

    /// Applies the reordering strategy to the inventory in place.
    pub fn cipher_mung(&self, ciphers: &mut Vec<u16>)
        ensures
            final(ciphers)@ == self.spec_mung(old(ciphers)@),
    {
        let ghost s = ciphers@;
        let n = ciphers.len();
        match self {
            CipherOrder::Forward => {},
            CipherOrder::Reverse => {
                let mut out: Vec<u16> = Vec::new();
                for i in 0..n
                    invariant
                        n == s.len(),
                        ciphers@ == s,
                        out@ =~= s.reverse().take(i as int),
                {
                    out.push(ciphers[n - 1 - i]);
                    assert(out@ =~= s.reverse().take(i + 1));
                }
                assert(s.reverse().take(n as int) =~= s.reverse());
                *ciphers = out;
            },
            CipherOrder::TopHalf => {
                let mut out: Vec<u16> = Vec::new();
                if n % 2 == 1 {
                    out.push(ciphers[n / 2]);
                }
                let k = n / 2 + n % 2;
                for i in 0..n - k
                    invariant
                        *self is TopHalf,
                        n == s.len(),
                        ciphers@ == s,
                        k == n / 2 + n % 2,
                        out@ =~= self.spec_mung(s).take(i + n % 2),
                {
                    assert(self.spec_mung(s).len() == n - k + n % 2);
                    assert(self.spec_mung(s)[i + n % 2] == s[n - 1 - k - i]);
                    out.push(ciphers[n - 1 - k - i]);
                    assert(out@ =~= self.spec_mung(s).take(i + 1 + n % 2));
                }
                assert(out@ =~= self.spec_mung(s));
                *ciphers = out;
            },
            CipherOrder::BottomHalf => {
                let mut out: Vec<u16> = Vec::new();
                let k = n / 2 + n % 2;
                for i in 0..n - k
                    invariant
                        n == s.len(),
                        ciphers@ == s,
                        k == n / 2 + n % 2,
                        out@ =~= s.skip(k as int).take(i as int),
                {
                    out.push(ciphers[k + i]);
                    assert(out@ =~= s.skip(k as int).take(i + 1));
                }
                assert(out@ =~= self.spec_mung(s));
                *ciphers = out;
            },
            CipherOrder::MiddleOut => {
                let middle = n / 2;
                let mut out: Vec<u16> = Vec::new();
                if n % 2 == 1 {
                    out.push(ciphers[middle]);
                    assert(out@ =~= spec_middle_out(s).take(1));
                    let mut i: usize = 1;
                    while i < middle + 1
                        invariant
                            n == s.len(),
                            ciphers@ == s,
                            middle == n / 2,
                            n % 2 == 1,
                            1 <= i <= middle + 1,
                            out@ =~= spec_middle_out(s).take(2 * i - 1),
                        decreases middle + 1 - i,
                    {
                        out.push(ciphers[middle + i]);
                        out.push(ciphers[middle - i]);
                        assert(out@ =~= spec_middle_out(s).take(2 * (i + 1) - 1));
                        i = i + 1;
                    }
                    assert(out@ =~= spec_middle_out(s));
                } else {
                    let mut i: usize = 1;
                    while i < middle + 1
                        invariant
                            n == s.len(),
                            ciphers@ == s,
                            middle == n / 2,
                            n % 2 == 0,
                            1 <= i <= middle + 1,
                            out@ =~= spec_middle_out(s).take(2 * (i - 1)),
                        decreases middle + 1 - i,
                    {
                        out.push(ciphers[middle - 1 + i]);
                        out.push(ciphers[middle - i]);
                        assert(out@ =~= spec_middle_out(s).take(2 * i));
                        i = i + 1;
                    }
                    assert(out@ =~= spec_middle_out(s));
                }
                *ciphers = out;
            },
        }
    }
}

/// Which versions the `supported_versions` extension advertises.
#[derive(Clone, Copy, PartialEq, Eq, Structural)]
pub enum Support {
    Tls12,
    Tls13,
    NoSupport,
}

impl Support {
    /// The advertised version list: up to TLS 1.2, or up to TLS 1.3.
    pub open spec fn spec_lists(self) -> Seq<Seq<u8>> {
        match self {
            Support::Tls12 => seq![seq![3u8, 1u8], seq![3u8, 2u8], seq![3u8, 3u8]],
            _ => seq![seq![3u8, 1u8], seq![3u8, 2u8], seq![3u8, 3u8], seq![3u8, 4u8]],
        }
    }

    pub fn lists(&self) -> (r: Vec<Vec<u8>>)
        ensures
            r.deep_view() == self.spec_lists(),
    {
        let mut r: Vec<Vec<u8>> = Vec::new();
        let mut v1: Vec<u8> = Vec::new();
        v1.push(3);
        v1.push(1);
        let mut v2: Vec<u8> = Vec::new();
        v2.push(3);
        v2.push(2);
        let mut v3: Vec<u8> = Vec::new();
        v3.push(3);
        v3.push(3);
        r.push(v1);
        r.push(v2);
        r.push(v3);
        match self {
            Support::Tls12 => {},
            _ => {
                let mut v4: Vec<u8> = Vec::new();
                v4.push(3);
                v4.push(4);
                r.push(v4);
            },
        }
        assert(r.deep_view() =~~= self.spec_lists());
        r
    }
}

/// Orientation of the ALPN and supported-versions inner lists.
#[derive(Clone, Copy, PartialEq, Eq, Structural)]
pub enum ExtensionOrders {
    Forward,
    Reverse,
}

impl ExtensionOrders {
    pub open spec fn spec_mung(self, s: Seq<Seq<u8>>) -> Seq<Seq<u8>> {
        match self {
            ExtensionOrders::Forward => s,
            ExtensionOrders::Reverse => s.reverse(),
        }
    }

    /// Applies the orientation to an inner list in place.
    pub fn cipher_mung(&self, lists: &mut Vec<Vec<u8>>)
        ensures
            final(lists).deep_view() == self.spec_mung(old(lists).deep_view()),
    {
        match self {
            ExtensionOrders::Forward => {},
            ExtensionOrders::Reverse => {
                let ghost s = lists@;
                let mut out: Vec<Vec<u8>> = Vec::new();
                while lists.len() > 0
                    invariant
                        out@.len() + lists@.len() == s.len(),
                        lists@ =~= s.take(lists@.len() as int),
                        out@ =~= s.skip(lists@.len() as int).reverse(),
                    decreases lists@.len(),
                {
                    let x = lists.pop().unwrap();
                    out.push(x);
                    assert(out@ =~= s.skip(lists@.len() as int).reverse());
                }
                assert(out@ =~= s.reverse());
                assert(out.deep_view() =~= old(lists).deep_view().reverse());
                *lists = out;
            },
        }
    }
}

/// On an even inventory the top-half strategy is the strict reverse of the
/// first half: no median is inserted.
pub proof fn lemma_top_half_even(s: Seq<u16>)
    requires
        s.len() % 2 == 0,
    ensures
        CipherOrder::TopHalf.spec_mung(s).len() == s.len() / 2,
        forall|i: int|
            0 <= i < s.len() / 2 ==> CipherOrder::TopHalf.spec_mung(s)[i] == s[s.len() / 2 - 1
                - i],
{
}

/// On an even inventory the middle-out permutation opens with the pair
/// around the middle and grows outward, the lower element of each pair
/// first.
pub proof fn lemma_middle_out_even_prefix(s: Seq<u16>)
    requires
        s.len() % 2 == 0,
        s.len() >= 6,
    ensures
        spec_middle_out(s)[0] == s[s.len() as int / 2],
        spec_middle_out(s)[1] == s[s.len() as int / 2 - 1],
        spec_middle_out(s)[2] == s[s.len() as int / 2 + 1],
        spec_middle_out(s)[3] == s[s.len() as int / 2 - 2],
        spec_middle_out(s)[4] == s[s.len() as int / 2 + 2],
{
}

/// The middle-out permutation rearranges an inventory without adding or
/// dropping elements.
pub proof fn lemma_middle_out_preserves_elements(s: Seq<u16>)
    ensures
        spec_middle_out(s).to_multiset() == s.to_multiset(),
    decreases s.len(),
{
    broadcast use vstd::seq_lib::group_to_multiset_ensures;
    broadcast use vstd::seq_lib::to_multiset_insert;
    broadcast use vstd::multiset::group_multiset_axioms;

    let n = s.len() as int;
    if n <= 1 {
        assert(spec_middle_out(s) =~= s);
    } else {
        let inner = s.subrange(1, n - 1);
        lemma_middle_out_preserves_elements(inner);
        let mo = spec_middle_out(s);
        assert(mo.take(n - 2) =~= spec_middle_out(inner));
        assert(mo =~= mo.take(n - 2).push(s[n - 1]).push(s[0]));
        assert(mo.to_multiset() =~= inner.to_multiset().insert(s[n - 1]).insert(s[0]));
        assert((seq![s[0]] + inner) =~= inner.insert(0, s[0]));
        assert(s =~= (seq![s[0]] + inner).push(s[n - 1]));
        assert(s.to_multiset() =~= inner.to_multiset().insert(s[0]).insert(s[n - 1]));
        assert(inner.to_multiset().insert(s[n - 1]).insert(s[0]) =~= inner.to_multiset().insert(
            s[0],
        ).insert(s[n - 1]));
    }
}

/// Every reordering strategy emits exactly the elements it keeps (see
/// `spec_kept`): the halving strategies keep one half of the inventory, the
/// others keep all of it, and none invents or duplicates an element.
pub proof fn lemma_cipher_mung_preserves_elements(order: CipherOrder, s: Seq<u16>)
    ensures
        order.spec_mung(s).to_multiset() == order.spec_kept(s).to_multiset(),
{
    broadcast use vstd::seq_lib::group_to_multiset_ensures;
    broadcast use vstd::seq_lib::to_multiset_insert;
    broadcast use vstd::multiset::group_multiset_axioms;

    let n = s.len() as int;
    let m = n / 2;
    match order {
        CipherOrder::Forward => {},
        CipherOrder::Reverse => {
            s.lemma_reverse_to_multiset();
        },
        CipherOrder::TopHalf => {
            assert(s.reverse().skip(m + n % 2) =~= s.take(m).reverse());
            s.take(m).lemma_reverse_to_multiset();
            if n % 2 == 1 {
                assert(order.spec_mung(s) =~= s.take(m).reverse().insert(0, s[m]));
                assert(order.spec_kept(s) =~= s.take(m).push(s[m]));
            }
        },
        CipherOrder::BottomHalf => {},
        CipherOrder::MiddleOut => {
            lemma_middle_out_preserves_elements(s);
        },
    }
}

/// The full parameter set of one probe.
#[derive(Clone, Copy, PartialEq, Eq, Structural)]
pub struct Packets {
    pub version: Version,
    pub cipher_list: CipherList,
    pub cipher_order: CipherOrder,
    pub grease: bool,
    pub rare_apln: bool,
    pub support: Support,
    pub extension_orders: ExtensionOrders,
}

/// The fixed probe table. Its order is part of the fingerprint definition.
pub open spec fn spec_probe_table() -> Seq<Packets> {
    seq![
        Packets {
            version: Version::Tls12,
            cipher_list: CipherList::All,
            cipher_order: CipherOrder::Forward,
            grease: false,
            rare_apln: false,
            support: Support::Tls12,
            extension_orders: ExtensionOrders::Reverse,
        },
        Packets {
            version: Version::Tls12,
            cipher_list: CipherList::All,
            cipher_order: CipherOrder::Reverse,
            grease: false,
            rare_apln: false,
            support: Support::Tls12,
            extension_orders: ExtensionOrders::Forward,
        },
        Packets {
            version: Version::Tls12,
            cipher_list: CipherList::All,
            cipher_order: CipherOrder::TopHalf,
            grease: false,
            rare_apln: false,
            support: Support::NoSupport,
            extension_orders: ExtensionOrders::Forward,
        },
        Packets {
            version: Version::Tls12,
            cipher_list: CipherList::All,
            cipher_order: CipherOrder::BottomHalf,
            grease: false,
            rare_apln: true,
            support: Support::NoSupport,
            extension_orders: ExtensionOrders::Forward,
        },
        Packets {
            version: Version::Tls12,
            cipher_list: CipherList::All,
            cipher_order: CipherOrder::MiddleOut,
            grease: true,
            rare_apln: true,
            support: Support::NoSupport,
            extension_orders: ExtensionOrders::Reverse,
        },
        Packets {
            version: Version::Tls11,
            cipher_list: CipherList::All,
            cipher_order: CipherOrder::Forward,
            grease: false,
            rare_apln: false,
            support: Support::NoSupport,
            extension_orders: ExtensionOrders::Forward,
        },
        Packets {
            version: Version::Tls13,
            cipher_list: CipherList::All,
            cipher_order: CipherOrder::Forward,
            grease: false,
            rare_apln: false,
            support: Support::Tls13,
            extension_orders: ExtensionOrders::Reverse,
        },
        Packets {
            version: Version::Tls13,
            cipher_list: CipherList::All,
            cipher_order: CipherOrder::Reverse,
            grease: false,
            rare_apln: false,
            support: Support::Tls13,
            extension_orders: ExtensionOrders::Forward,
        },
        Packets {
            version: Version::Tls13,
            cipher_list: CipherList::NoTls13,
            cipher_order: CipherOrder::Forward,
            grease: false,
            rare_apln: false,
            support: Support::Tls13,
            extension_orders: ExtensionOrders::Forward,
        },
        Packets {
            version: Version::Tls13,
            cipher_list: CipherList::All,
            cipher_order: CipherOrder::MiddleOut,
            grease: true,
            rare_apln: false,
            support: Support::Tls13,
            extension_orders: ExtensionOrders::Reverse,
        },
    ]
}

/// Builds the probe table, in its fixed order.
pub fn probe_table() -> (q: Vec<Packets>)
    ensures
        q@ == spec_probe_table(),
        q@.len() == 10,
{
    let mut q: Vec<Packets> = Vec::new();
    q.push(Packets {
        version: Version::Tls12,
        cipher_list: CipherList::All,
        cipher_order: CipherOrder::Forward,
        grease: false,
        rare_apln: false,
        support: Support::Tls12,
        extension_orders: ExtensionOrders::Reverse,
    });
    q.push(Packets {
        version: Version::Tls12,
        cipher_list: CipherList::All,
        cipher_order: CipherOrder::Reverse,
        grease: false,
        rare_apln: false,
        support: Support::Tls12,
        extension_orders: ExtensionOrders::Forward,
    });
    q.push(Packets {
        version: Version::Tls12,
        cipher_list: CipherList::All,
        cipher_order: CipherOrder::TopHalf,
        grease: false,
        rare_apln: false,
        support: Support::NoSupport,
        extension_orders: ExtensionOrders::Forward,
    });
    q.push(Packets {
        version: Version::Tls12,
        cipher_list: CipherList::All,
        cipher_order: CipherOrder::BottomHalf,
        grease: false,
        rare_apln: true,
        support: Support::NoSupport,
        extension_orders: ExtensionOrders::Forward,
    });
    q.push(Packets {
        version: Version::Tls12,
        cipher_list: CipherList::All,
        cipher_order: CipherOrder::MiddleOut,
        grease: true,
        rare_apln: true,
        support: Support::NoSupport,
        extension_orders: ExtensionOrders::Reverse,
    });
    q.push(Packets {
        version: Version::Tls11,
        cipher_list: CipherList::All,
        cipher_order: CipherOrder::Forward,
        grease: false,
        rare_apln: false,
        support: Support::NoSupport,
        extension_orders: ExtensionOrders::Forward,
    });
    q.push(Packets {
        version: Version::Tls13,
        cipher_list: CipherList::All,
        cipher_order: CipherOrder::Forward,
        grease: false,
        rare_apln: false,
        support: Support::Tls13,
        extension_orders: ExtensionOrders::Reverse,
    });
    q.push(Packets {
        version: Version::Tls13,
        cipher_list: CipherList::All,
        cipher_order: CipherOrder::Reverse,
        grease: false,
        rare_apln: false,
        support: Support::Tls13,
        extension_orders: ExtensionOrders::Forward,
    });
    q.push(Packets {
        version: Version::Tls13,
        cipher_list: CipherList::NoTls13,
        cipher_order: CipherOrder::Forward,
        grease: false,
        rare_apln: false,
        support: Support::Tls13,
        extension_orders: ExtensionOrders::Forward,
    });
    q.push(Packets {
        version: Version::Tls13,
        cipher_list: CipherList::All,
        cipher_order: CipherOrder::MiddleOut,
        grease: true,
        rare_apln: false,
        support: Support::Tls13,
        extension_orders: ExtensionOrders::Reverse,
    });
    assert(q@ =~= spec_probe_table());
    q
}

} // verus!

