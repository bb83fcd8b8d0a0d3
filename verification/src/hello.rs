//! The `ClientHello` builder: serializes a probe's parameters and the SNI
//! host into one TLS record, byte for byte.
//!
//! Random material (client random, session id, key-share key, GREASE bytes)
//! is drawn through small trusted wrappers; everything layered on top of it
//! is specified exactly, as a function of the drawn values.

use vstd::prelude::*;

use rand::Rng;
use vstd::string::StringSliceAdditionalSpecFns;

use crate::encoding::{pack_as_unsigned_char, pack_as_unsigned_short, spec_u16_be};
use crate::probe::{CipherOrder, ExtensionOrders, Packets, Support, Version};

verus! {

/// A byte GREASE fields are built from: low nibble `0xa`, high nibble below
/// `0xf`.
pub open spec fn spec_grease_byte(b: u8) -> bool {
    b % 16 == 10 && b != 250
}

/// The bytes of a sequence of 2-byte codes, each big-endian.
pub open spec fn spec_u16s_bytes(s: Seq<u16>) -> Seq<u8>
    decreases s.len(),
{
    if s.len() == 0 {
        Seq::empty()
    } else {
        spec_u16s_bytes(s.drop_last()) + spec_u16_be(s.last() as nat)
    }
}

/// The concatenation of a sequence of byte strings.
pub open spec fn spec_flatten(s: Seq<Seq<u8>>) -> Seq<u8>
    decreases s.len(),
{
    if s.len() == 0 {
        Seq::empty()
    } else {
        spec_flatten(s.drop_last()) + s.last()
    }
}

/// Relies on rand's Rng::gen_range: the result is drawn from the given
/// range, here the fifteen GREASE nibbles.
#[verifier::external_body]
fn random_nibble() -> (h: u8)
    ensures
        h < 15,
{
    rand::thread_rng().gen_range(0..15)
}

/// Relies on rand's Rng::gen: 32 bytes drawn from the thread-local
/// generator. Nothing is promised of their values.
#[verifier::external_body]
fn random_bytes() -> (r: Vec<u8>)
    ensures
        r@.len() == 32,
{
    rand::thread_rng().gen::<[u8; 32]>().to_vec()
}

/// Draws one GREASE pair: the same byte twice, nibbles `0xN 0xa`.
fn choose_grease() -> (g: Vec<u8>)
    ensures
        g@.len() == 2,
        g@[0] == g@[1],
        spec_grease_byte(g@[0]),
{
    let h = random_nibble();
    let b: u8 = h * 16 + 10;
    assert(b % 16 == 10 && b != 250) by (nonlinear_arith)
        requires
            h < 15,
            b == h * 16 + 10,
    ;
    let mut g: Vec<u8> = Vec::new();
    g.push(b);
    g.push(b);
    g
}

/// Appends one 2-byte code, big-endian.
fn push_u16_code(out: &mut Vec<u8>, c: u16)
    ensures
        final(out)@ == old(out)@ + spec_u16_be(c as nat),
{
    let hi: u8 = (c / 256) as u8;
    let lo: u8 = (c % 256) as u8;
    out.push(hi);
    out.push(lo);
    assert(final(out)@ =~= old(out)@ + spec_u16_be(c as nat));
}

/// Appends every byte of every list, in order.
fn extend_flat(out: &mut Vec<u8>, lists: &Vec<Vec<u8>>)
    ensures
        final(out)@ == old(out)@ + spec_flatten(lists.deep_view()),
{
    let ghost base = out@;
    let ghost dv = lists.deep_view();
    let n = lists.len();
    for i in 0..n
        invariant
            n == lists@.len(),
            dv == lists.deep_view(),
            out@ =~= base + spec_flatten(dv.take(i as int)),
    {
        let m = lists[i].len();
        let ghost mid = out@;
        for j in 0..m
            invariant
                n == lists@.len(),
                dv == lists.deep_view(),
                i < n,
                m == lists@[i as int]@.len(),
                out@ =~= mid + dv[i as int].take(j as int),
        {
            let b = lists[i][j];
            out.push(b);
            assert(out@ =~= mid + dv[i as int].take(j + 1));
        }
        proof {
            assert(dv.take(i + 1).drop_last() =~= dv.take(i as int));
            assert(dv[i as int].take(m as int) =~= dv[i as int]);
            assert(out@ =~= base + spec_flatten(dv.take(i + 1)));
        }
    }
    proof {
        assert(dv.take(n as int) =~= dv);
    }
}

impl Packets {
    /// The serialized cipher-suite list: the selected inventory, reordered,
    /// with a GREASE pair in front when the probe asks for one.
    pub open spec fn spec_ciphers(self, g: u8) -> Seq<u8> {
        let base = spec_u16s_bytes(self.cipher_order.spec_mung(self.cipher_list.spec_list()));
        if self.grease {
            seq![g, g] + base
        } else {
            base
        }
    }

    /// Serializes the probe's cipher suites.
    pub fn get_ciphers(&self) -> (r: Vec<u8>)
        ensures
            exists|g: u8| #[trigger] spec_grease_byte(g) && r@ == self.spec_ciphers(g),
    {
        let mut selected_ciphers: Vec<u8> = Vec::new();
        let ghost mut g_used: u8 = 10u8;
        if self.grease {
            let grease = choose_grease();
            proof {
                g_used = grease@[0];
            }
            selected_ciphers.push(grease[0]);
            selected_ciphers.push(grease[1]);
        }
        let ghost prefix = selected_ciphers@;
        let mut lists = self.cipher_list.lists();
        self.cipher_order.cipher_mung(&mut lists);
        let n = lists.len();
        for i in 0..n
            invariant
                n == lists@.len(),
                selected_ciphers@ =~= prefix + spec_u16s_bytes(lists@.take(i as int)),
        {
            let c = lists[i];
            push_u16_code(&mut selected_ciphers, c);
            proof {
                assert(lists@.take(i + 1).drop_last() =~= lists@.take(i as int));
                assert(selected_ciphers@ =~= prefix + spec_u16s_bytes(lists@.take(i + 1)));
            }
        }
        proof {
            assert(lists@.take(n as int) =~= lists@);
            assert(spec_grease_byte(g_used));
            assert(selected_ciphers@ == self.spec_ciphers(g_used));
        }
        selected_ciphers
    }

    /// The server-name extension: type 0, outer and inner lengths, one entry
    /// of name-type 0 carrying the host bytes.
    pub open spec fn spec_extension_server_name(host: Seq<u8>) -> Seq<u8> {
        seq![0u8, 0u8] + spec_u16_be((host.len() + 5) as nat) + spec_u16_be((host.len() + 3) as nat)
            + seq![0u8] + spec_u16_be(host.len() as nat) + host
    }

    /// Serializes the SNI extension for the given host.
    pub fn extension_server_name(&self, host: &str) -> (r: Vec<u8>)
        requires
            host.spec_bytes().len() + 5 <= usize::MAX,
        ensures
            r@ == Self::spec_extension_server_name(host.spec_bytes()),
    {
        let mut ext_sni: Vec<u8> = Vec::new();
        ext_sni.push(0);
        ext_sni.push(0);
        let host_length = host.len();
        let mut len1 = pack_as_unsigned_short(host_length + 5);
        ext_sni.append(&mut len1);
        let mut len2 = pack_as_unsigned_short(host_length + 3);
        ext_sni.append(&mut len2);
        ext_sni.push(0);
        let mut len3 = pack_as_unsigned_short(host_length);
        ext_sni.append(&mut len3);
        let host_bytes = host.as_bytes();
        let m = host_bytes.len();
        let ghost mid = ext_sni@;
        for j in 0..m
            invariant
                m == host.spec_bytes().len(),
                host_bytes@ == host.spec_bytes(),
                ext_sni@ =~= mid + host.spec_bytes().take(j as int),
        {
            let b = *vstd::slice::slice_index_get(host_bytes, j);
            ext_sni.push(b);
            assert(ext_sni@ =~= mid + host.spec_bytes().take(j + 1));
        }
        proof {
            assert(host.spec_bytes().take(m as int) =~= host.spec_bytes());
            assert(ext_sni@ =~= Self::spec_extension_server_name(host.spec_bytes()));
        }
        ext_sni
    }

    /// The supported-versions extension: type 0x2b, a 2-byte then a 1-byte
    /// length, a GREASE pair when asked for, then the advertised versions in
    /// the probe's extension order.
    pub open spec fn spec_supported_versions(self, g: u8) -> Seq<u8> {
        let versions = (if self.grease {
            seq![g, g]
        } else {
            Seq::<u8>::empty()
        }) + spec_flatten(self.extension_orders.spec_mung(self.support.spec_lists()));
        seq![0u8, 0x2bu8] + spec_u16_be((versions.len() + 1) as nat) + seq![versions.len() as u8]
            + versions
    }

    /// Serializes the supported-versions extension.
    pub fn supported_versions(&self) -> (r: Vec<u8>)
        ensures
            exists|g: u8| #[trigger] spec_grease_byte(g) && r@ == self.spec_supported_versions(g),
    {
        let mut tls = self.support.lists();
        self.extension_orders.cipher_mung(&mut tls);
        let mut versions: Vec<u8> = Vec::new();
        let ghost mut g_used: u8 = 10u8;
        if self.grease {
            let grease = choose_grease();
            proof {
                g_used = grease@[0];
            }
            versions.push(grease[0]);
            versions.push(grease[1]);
        }
        extend_flat(&mut versions, &tls);
        let second_length = versions.len();
        assert(second_length <= 10) by {
            reveal_with_fuel(spec_flatten, 6);
        }
        let first_length = second_length + 1;
        let mut ext: Vec<u8> = Vec::new();
        ext.push(0);
        ext.push(0x2b);
        let mut l1 = pack_as_unsigned_short(first_length);
        ext.append(&mut l1);
        ext.push(pack_as_unsigned_char(second_length));
        ext.append(&mut versions);
        proof {
            assert(spec_grease_byte(g_used));
            assert(ext@ =~= self.spec_supported_versions(g_used));
        }
        ext
    }

    /// The key-share extension: type 0x33, two lengths, an optional GREASE
    /// entry, then an x25519 entry with a 32-byte key.
    pub open spec fn spec_key_share(self, g: u8, key: Seq<u8>) -> Seq<u8> {
        let share_ext = (if self.grease {
            seq![g, g, 0u8, 1u8, 0u8]
        } else {
            Seq::<u8>::empty()
        }) + seq![0u8, 0x1du8, 0u8, 0x20u8] + key;
        seq![0u8, 0x33u8] + spec_u16_be((share_ext.len() + 2) as nat) + spec_u16_be(
            share_ext.len() as nat,
        ) + share_ext
    }

    /// Serializes the key-share extension; the key itself is fresh random
    /// material.
    pub fn key_share(&self) -> (r: Vec<u8>)
        ensures
            exists|g: u8, key: Seq<u8>|
                spec_grease_byte(g) && key.len() == 32 && r@ == #[trigger] self.spec_key_share(
                    g,
                    key,
                ),
    {
        let mut share_ext: Vec<u8> = Vec::new();
        let ghost mut g_used: u8 = 10u8;
        if self.grease {
            let grease = choose_grease();
            proof {
                g_used = grease@[0];
            }
            share_ext.push(grease[0]);
            share_ext.push(grease[1]);
            share_ext.push(0);
            share_ext.push(1);
            share_ext.push(0);
        }
        share_ext.push(0);
        share_ext.push(0x1d);
        share_ext.push(0);
        share_ext.push(0x20);
        let mut key = random_bytes();
        let ghost key_seq = key@;
        share_ext.append(&mut key);
        let second_length = share_ext.len();
        let first_length = second_length + 2;
        let mut ext: Vec<u8> = Vec::new();
        ext.push(0);
        ext.push(0x33);
        let mut l1 = pack_as_unsigned_short(first_length);
        ext.append(&mut l1);
        let mut l2 = pack_as_unsigned_short(second_length);
        ext.append(&mut l2);
        ext.append(&mut share_ext);
        proof {
            assert(spec_grease_byte(g_used));
            assert(ext@ =~= self.spec_key_share(g_used, key_seq));
        }
        ext
    }
}

/// Appends the extended-master-secret extension bytes.
fn push_extended_master_secret(out: &mut Vec<u8>)
    ensures
        final(out)@ == old(out)@ + seq![0u8, 0x17u8, 0u8, 0u8],
{
    out.push(0);
    out.push(0x17);
    out.push(0);
    out.push(0);
    assert(final(out)@ =~= old(out)@ + seq![0u8, 0x17u8, 0u8, 0u8]);
}

/// Appends the max-fragment-length extension bytes.
fn push_max_fragment_length(out: &mut Vec<u8>)
    ensures
        final(out)@ == old(out)@ + seq![0u8, 1u8, 0u8, 1u8, 1u8],
{
    out.push(0);
    out.push(1);
    out.push(0);
    out.push(1);
    out.push(1);
    assert(final(out)@ =~= old(out)@ + seq![0u8, 1u8, 0u8, 1u8, 1u8]);
}

/// Appends the renegotiation-info extension bytes.
fn push_renegotiation_info(out: &mut Vec<u8>)
    ensures
        final(out)@ == old(out)@ + seq![0xffu8, 1u8, 0u8, 1u8, 0u8],
{
    out.push(0xff);
    out.push(1);
    out.push(0);
    out.push(1);
    out.push(0);
    assert(final(out)@ =~= old(out)@ + seq![0xffu8, 1u8, 0u8, 1u8, 0u8]);
}

/// Appends the supported-groups extension bytes.
fn push_supported_groups(out: &mut Vec<u8>)
    ensures
        final(out)@ == old(out)@ + seq![
            0u8,
            0x0au8,
            0u8,
            0x0au8,
            0u8,
            8u8,
            0u8,
            0x1du8,
            0u8,
            0x17u8,
            0u8,
            0x18u8,
            0u8,
            0x19u8,
        ],
{
    out.push(0);
    out.push(0x0a);
    out.push(0);
    out.push(0x0a);
    out.push(0);
    out.push(8);
    out.push(0);
    out.push(0x1d);
    out.push(0);
    out.push(0x17);
    out.push(0);
    out.push(0x18);
    out.push(0);
    out.push(0x19);
    assert(final(out)@ =~= old(out)@ + seq![
        0u8,
        0x0au8,
        0u8,
        0x0au8,
        0u8,
        8u8,
        0u8,
        0x1du8,
        0u8,
        0x17u8,
        0u8,
        0x18u8,
        0u8,
        0x19u8,
    ]);
}

/// Appends the ec-point-formats extension bytes.
fn push_ec_point_formats(out: &mut Vec<u8>)
    ensures
        final(out)@ == old(out)@ + seq![0u8, 0x0bu8, 0u8, 2u8, 1u8, 0u8],
{
    out.push(0);
    out.push(0x0b);
    out.push(0);
    out.push(2);
    out.push(1);
    out.push(0);
    assert(final(out)@ =~= old(out)@ + seq![0u8, 0x0bu8, 0u8, 2u8, 1u8, 0u8]);
}

/// Appends the session-ticket extension bytes.
fn push_session_ticket(out: &mut Vec<u8>)
    ensures
        final(out)@ == old(out)@ + seq![0u8, 0x23u8, 0u8, 0u8],
{
    out.push(0);
    out.push(0x23);
    out.push(0);
    out.push(0);
    assert(final(out)@ =~= old(out)@ + seq![0u8, 0x23u8, 0u8, 0u8]);
}

/// Appends the signature-algorithms extension bytes.
fn push_signature_algorithms(out: &mut Vec<u8>)
    ensures
        final(out)@ == old(out)@ + seq![
            0u8,
            0x0du8,
            0u8,
            0x14u8,
            0u8,
            0x12u8,
            4u8,
            3u8,
            8u8,
            4u8,
            4u8,
            1u8,
            5u8,
            3u8,
            8u8,
            5u8,
            5u8,
            1u8,
            8u8,
            6u8,
            6u8,
            1u8,
            2u8,
            1u8,
        ],
{
    out.push(0);
    out.push(0x0d);
    out.push(0);
    out.push(0x14);
    out.push(0);
    out.push(0x12);
    out.push(4);
    out.push(3);
    out.push(8);
    out.push(4);
    out.push(4);
    out.push(1);
    out.push(5);
    out.push(3);
    out.push(8);
    out.push(5);
    out.push(5);
    out.push(1);
    out.push(8);
    out.push(6);
    out.push(6);
    out.push(1);
    out.push(2);
    out.push(1);
    assert(final(out)@ =~= old(out)@ + seq![
        0u8,
        0x0du8,
        0u8,
        0x14u8,
        0u8,
        0x12u8,
        4u8,
        3u8,
        8u8,
        4u8,
        4u8,
        1u8,
        5u8,
        3u8,
        8u8,
        5u8,
        5u8,
        1u8,
        8u8,
        6u8,
        6u8,
        1u8,
        2u8,
        1u8,
    ]);
}

/// Appends the psk-key-exchange-modes extension bytes.
fn push_psk_key_exchange_modes(out: &mut Vec<u8>)
    ensures
        final(out)@ == old(out)@ + seq![0u8, 0x2du8, 0u8, 2u8, 1u8, 1u8],
{
    out.push(0);
    out.push(0x2d);
    out.push(0);
    out.push(2);
    out.push(1);
    out.push(1);
    assert(final(out)@ =~= old(out)@ + seq![0u8, 0x2du8, 0u8, 2u8, 1u8, 1u8]);
}

/// The fixed ALPN inner lists, every entry length-prefixed. The common list
/// carries a deliberately malformed entry whose `spdy/3` prefix swallows an
/// `h2` tail; the rare list drops `http/1.1` and keeps `spdy/3` plain.
pub open spec fn spec_apln_lists(rare: bool) -> Seq<Seq<u8>> {
    if rare {
        seq![
            seq![8u8, 104u8, 116u8, 116u8, 112u8, 47u8, 48u8, 46u8, 57u8],
            seq![8u8, 104u8, 116u8, 116u8, 112u8, 47u8, 49u8, 46u8, 48u8],
            seq![6u8, 115u8, 112u8, 100u8, 121u8, 47u8, 49u8],
            seq![6u8, 115u8, 112u8, 100u8, 121u8, 47u8, 50u8],
            seq![6u8, 115u8, 112u8, 100u8, 121u8, 47u8, 51u8],
            seq![3u8, 104u8, 50u8, 99u8],
            seq![2u8, 104u8, 113u8],
        ]
    } else {
        seq![
            seq![8u8, 104u8, 116u8, 116u8, 112u8, 47u8, 48u8, 46u8, 57u8],
            seq![8u8, 104u8, 116u8, 116u8, 112u8, 47u8, 49u8, 46u8, 48u8],
            seq![8u8, 104u8, 116u8, 116u8, 112u8, 47u8, 49u8, 46u8, 49u8],
            seq![6u8, 115u8, 112u8, 100u8, 121u8, 47u8, 49u8],
            seq![6u8, 115u8, 112u8, 100u8, 121u8, 47u8, 50u8],
            seq![6u8, 115u8, 112u8, 100u8, 121u8, 47u8, 51u8, 2u8, 104u8, 50u8],
            seq![3u8, 104u8, 50u8, 99u8],
            seq![2u8, 104u8, 113u8],
        ]
    }
}

impl Packets {
    /// The ALPN extension: type 0x10, outer and inner lengths, then the
    /// selected protocol list in the probe's extension order.
    pub open spec fn spec_apln(self) -> Seq<u8> {
        let all = spec_flatten(self.extension_orders.spec_mung(spec_apln_lists(self.rare_apln)));
        seq![0u8, 0x10u8] + spec_u16_be((all.len() + 2) as nat) + spec_u16_be(all.len() as nat)
            + all
    }

    /// Serializes the ALPN extension.
    #[verifier::rlimit(30)]
    pub fn apln(&self) -> (r: Vec<u8>)
        ensures
            r@ == self.spec_apln(),
    {
        let mut apln: Vec<Vec<u8>> = Vec::new();
        let mut e1: Vec<u8> = Vec::new();
        e1.push(8);
        e1.push(104);
        e1.push(116);
        e1.push(116);
        e1.push(112);
        e1.push(47);
        e1.push(48);
        e1.push(46);
        e1.push(57);
        apln.push(e1);
        let mut e2: Vec<u8> = Vec::new();
        e2.push(8);
        e2.push(104);
        e2.push(116);
        e2.push(116);
        e2.push(112);
        e2.push(47);
        e2.push(49);
        e2.push(46);
        e2.push(48);
        apln.push(e2);
        if !self.rare_apln {
            let mut e3: Vec<u8> = Vec::new();
            e3.push(8);
            e3.push(104);
            e3.push(116);
            e3.push(116);
            e3.push(112);
            e3.push(47);
            e3.push(49);
            e3.push(46);
            e3.push(49);
            apln.push(e3);
        }
        let mut e4: Vec<u8> = Vec::new();
        e4.push(6);
        e4.push(115);
        e4.push(112);
        e4.push(100);
        e4.push(121);
        e4.push(47);
        e4.push(49);
        apln.push(e4);
        let mut e5: Vec<u8> = Vec::new();
        e5.push(6);
        e5.push(115);
        e5.push(112);
        e5.push(100);
        e5.push(121);
        e5.push(47);
        e5.push(50);
        apln.push(e5);
        let mut e6: Vec<u8> = Vec::new();
        e6.push(6);
        e6.push(115);
        e6.push(112);
        e6.push(100);
        e6.push(121);
        e6.push(47);
        e6.push(51);
        if !self.rare_apln {
            e6.push(2);
            e6.push(104);
            e6.push(50);
        }
        apln.push(e6);
        let mut e7: Vec<u8> = Vec::new();
        e7.push(3);
        e7.push(104);
        e7.push(50);
        e7.push(99);
        apln.push(e7);
        let mut e8: Vec<u8> = Vec::new();
        e8.push(2);
        e8.push(104);
        e8.push(113);
        apln.push(e8);
        assert(apln.deep_view() =~~= spec_apln_lists(self.rare_apln));
        self.extension_orders.cipher_mung(&mut apln);
        let mut all_apln: Vec<u8> = Vec::new();
        extend_flat(&mut all_apln, &apln);
        let second_length = all_apln.len();
        assert(second_length + 2 <= usize::MAX) by {
            reveal_with_fuel(spec_flatten, 10);
        }
        let first_length = second_length + 2;
        let mut ext: Vec<u8> = Vec::new();
        ext.push(0);
        ext.push(0x10);
        let mut l1 = pack_as_unsigned_short(first_length);
        ext.append(&mut l1);
        let mut l2 = pack_as_unsigned_short(second_length);
        ext.append(&mut l2);
        ext.append(&mut all_apln);
        proof {
            assert(second_length + 2 <= usize::MAX) by {
                reveal_with_fuel(spec_flatten, 10);
            }
            assert(ext@ =~= self.spec_apln());
        }
        ext
    }

    /// Whether the probe emits the supported-versions extension: on a
    /// TLS 1.3 wire version, or when it advertises support up to TLS 1.2.
    pub open spec fn spec_emit_supported_versions(self) -> bool {
        self.version is Tls13 || self.support is Tls12
    }

    /// The concatenated extensions, in their fixed order.
    pub open spec fn spec_all_extensions(
        self,
        host: Seq<u8>,
        g_hdr: u8,
        g_sv: u8,
        g_ks: u8,
        key: Seq<u8>,
    ) -> Seq<u8> {
        (if self.grease {
            seq![g_hdr, g_hdr, 0u8, 0u8]
        } else {
            Seq::<u8>::empty()
        }) + Self::spec_extension_server_name(host) + seq![0u8, 0x17u8, 0u8, 0u8] + seq![
            0u8,
            1u8,
            0u8,
            1u8,
            1u8,
        ] + seq![0xffu8, 1u8, 0u8, 1u8, 0u8] + seq![
            0u8,
            0x0au8,
            0u8,
            0x0au8,
            0u8,
            8u8,
            0u8,
            0x1du8,
            0u8,
            0x17u8,
            0u8,
            0x18u8,
            0u8,
            0x19u8,
        ] + seq![0u8, 0x0bu8, 0u8, 2u8, 1u8, 0u8] + seq![0u8, 0x23u8, 0u8, 0u8] + self.spec_apln()
            + seq![
            0u8,
            0x0du8,
            0u8,
            0x14u8,
            0u8,
            0x12u8,
            4u8,
            3u8,
            8u8,
            4u8,
            4u8,
            1u8,
            5u8,
            3u8,
            8u8,
            5u8,
            5u8,
            1u8,
            8u8,
            6u8,
            6u8,
            1u8,
            2u8,
            1u8,
        ] + self.spec_key_share(g_ks, key) + seq![0u8, 0x2du8, 0u8, 2u8, 1u8, 1u8] + (
        if self.spec_emit_supported_versions() {
            self.spec_supported_versions(g_sv)
        } else {
            Seq::<u8>::empty()
        })
    }

    /// The extensions block: a 2-byte length, then the extensions.
    pub open spec fn spec_extensions(
        self,
        host: Seq<u8>,
        g_hdr: u8,
        g_sv: u8,
        g_ks: u8,
        key: Seq<u8>,
    ) -> Seq<u8> {
        let all = self.spec_all_extensions(host, g_hdr, g_sv, g_ks, key);
        spec_u16_be(all.len() as nat) + all
    }

    /// Serializes the extensions block for the given host.
    #[verifier::rlimit(100)]
    pub fn get_extensions(&self, host: &str) -> (r: Vec<u8>)
        requires
            host.spec_bytes().len() + 5 <= usize::MAX,
        ensures
            exists|g_hdr: u8, g_sv: u8, g_ks: u8, key: Seq<u8>|
                spec_grease_byte(g_hdr) && spec_grease_byte(g_sv) && spec_grease_byte(g_ks)
                    && key.len() == 32 && r@ == #[trigger] self.spec_extensions(
                    host.spec_bytes(),
                    g_hdr,
                    g_sv,
                    g_ks,
                    key,
                ),
    {
        let mut all_extensions: Vec<u8> = Vec::new();
        let ghost mut g_hdr: u8 = 10u8;
        if self.grease {
            let grease = choose_grease();
            proof {
                g_hdr = grease@[0];
            }
            all_extensions.push(grease[0]);
            all_extensions.push(grease[1]);
            all_extensions.push(0);
            all_extensions.push(0);
        }
        let mut sni = self.extension_server_name(host);
        all_extensions.append(&mut sni);
        push_extended_master_secret(&mut all_extensions);
        push_max_fragment_length(&mut all_extensions);
        push_renegotiation_info(&mut all_extensions);
        push_supported_groups(&mut all_extensions);
        push_ec_point_formats(&mut all_extensions);
        push_session_ticket(&mut all_extensions);
        let mut alpn_ext = self.apln();
        all_extensions.append(&mut alpn_ext);
        push_signature_algorithms(&mut all_extensions);
        let ks = self.key_share();
        let ghost (g_ks, key) = choose|g: u8, key: Seq<u8>|
            spec_grease_byte(g) && key.len() == 32 && ks@ == self.spec_key_share(g, key);
        let mut ks_mut = ks;
        all_extensions.append(&mut ks_mut);
        push_psk_key_exchange_modes(&mut all_extensions);
        let ghost mut g_sv: u8 = 10u8;
        let emit = match self.version {
            Version::Tls13 => true,
            _ => match self.support {
                Support::Tls12 => true,
                _ => false,
            },
        };
        if emit {
            let sv = self.supported_versions();
            let ghost g = choose|g: u8|
                spec_grease_byte(g) && sv@ == self.spec_supported_versions(g);
            proof {
                g_sv = g;
            }
            let mut sv_mut = sv;
            all_extensions.append(&mut sv_mut);
        }
        let mut extension_bytes: Vec<u8> = Vec::new();
        let mut l1 = pack_as_unsigned_short(all_extensions.len());
        extension_bytes.append(&mut l1);
        let ghost all_spec = self.spec_all_extensions(host.spec_bytes(), g_hdr, g_sv, g_ks, key);
        proof {
            assert(emit == self.spec_emit_supported_versions());
            assert(all_extensions@ =~= all_spec);
        }
        extension_bytes.append(&mut all_extensions);
        proof {
            assert(extension_bytes@ =~= self.spec_extensions(
                host.spec_bytes(),
                g_hdr,
                g_sv,
                g_ks,
                key,
            ));
        }
        extension_bytes
    }

    /// The `ClientHello` body: version, random, session id, cipher suites,
    /// compression, extensions.
    pub open spec fn spec_client_hello_body(
        self,
        host: Seq<u8>,
        rnd: Seq<u8>,
        sid: Seq<u8>,
        g_cs: u8,
        g_hdr: u8,
        g_sv: u8,
        g_ks: u8,
        key: Seq<u8>,
    ) -> Seq<u8> {
        let ciphers = self.spec_ciphers(g_cs);
        self.version.spec_client_version() + rnd + seq![sid.len() as u8] + sid + spec_u16_be(
            ciphers.len() as nat,
        ) + ciphers + seq![1u8, 0u8] + self.spec_extensions(host, g_hdr, g_sv, g_ks, key)
    }

    /// The full record: record header, handshake header, body.
    pub open spec fn spec_build_packet(
        self,
        host: Seq<u8>,
        rnd: Seq<u8>,
        sid: Seq<u8>,
        g_cs: u8,
        g_hdr: u8,
        g_sv: u8,
        g_ks: u8,
        key: Seq<u8>,
    ) -> Seq<u8> {
        let ch = self.spec_client_hello_body(host, rnd, sid, g_cs, g_hdr, g_sv, g_ks, key);
        let hs = seq![1u8, 0u8] + spec_u16_be(ch.len() as nat) + ch;
        seq![22u8] + self.version.spec_record_version() + spec_u16_be(hs.len() as nat) + hs
    }

    /// Builds the probe's `ClientHello` record for the given SNI host.
    ///
    /// The first byte is always the handshake content type, the next two the
    /// probe's record version; the rest is pinned down relative to the drawn
    /// random material.
    #[verifier::rlimit(30)]
    pub fn build_packet(&self, host: &str) -> (r: Vec<u8>)
        requires
            host.spec_bytes().len() + 5 <= usize::MAX,
        ensures
            r@.len() >= 3,
            r@[0] == 22,
            r@[1] == self.version.spec_record_version()[0],
            r@[2] == self.version.spec_record_version()[1],
            exists|rnd: Seq<u8>, sid: Seq<u8>, g_cs: u8, g_hdr: u8, g_sv: u8, g_ks: u8, key: Seq<u8>|
                rnd.len() == 32 && sid.len() == 32 && spec_grease_byte(g_cs) && spec_grease_byte(
                    g_hdr,
                ) && spec_grease_byte(g_sv) && spec_grease_byte(g_ks) && key.len() == 32 && r@
                    == #[trigger] self.spec_build_packet(
                    host.spec_bytes(),
                    rnd,
                    sid,
                    g_cs,
                    g_hdr,
                    g_sv,
                    g_ks,
                    key,
                ),
    {
        let (mut client_hello, mut payload) = self.version.hello_payload();

        let mut rnd = random_bytes();
        let ghost rnd_seq = rnd@;
        client_hello.append(&mut rnd);

        let mut session_id = random_bytes();
        let ghost sid_seq = session_id@;
        let session_id_length = pack_as_unsigned_char(session_id.len());
        client_hello.push(session_id_length);
        client_hello.append(&mut session_id);

        let cipher_choice = self.get_ciphers();
        let ghost g_cs = choose|g: u8| spec_grease_byte(g) && cipher_choice@ == self.spec_ciphers(g);
        let mut client_suites_length = pack_as_unsigned_short(cipher_choice.len());
        client_hello.append(&mut client_suites_length);
        let mut cipher_mut = cipher_choice;
        client_hello.append(&mut cipher_mut);
        client_hello.push(1);  // cipher methods
        client_hello.push(0);  // compression methods

        let exts = self.get_extensions(host);
        let ghost (g_hdr, g_sv, g_ks, key) = choose|g_hdr: u8, g_sv: u8, g_ks: u8, key: Seq<u8>|
            spec_grease_byte(g_hdr) && spec_grease_byte(g_sv) && spec_grease_byte(g_ks)
                && key.len() == 32 && exts@ == self.spec_extensions(
                host.spec_bytes(),
                g_hdr,
                g_sv,
                g_ks,
                key,
            );
        let mut exts_mut = exts;
        client_hello.append(&mut exts_mut);

        let mut handshake_protocol: Vec<u8> = Vec::new();
        handshake_protocol.push(1);
        handshake_protocol.push(0);
        let mut inner_length = pack_as_unsigned_short(client_hello.len());
        handshake_protocol.append(&mut inner_length);
        handshake_protocol.append(&mut client_hello);

        let mut outer_length = pack_as_unsigned_short(handshake_protocol.len());
        payload.append(&mut outer_length);
        payload.append(&mut handshake_protocol);
        proof {
            assert(payload@ =~= self.spec_build_packet(
                host.spec_bytes(),
                rnd_seq,
                sid_seq,
                g_cs,
                g_hdr,
                g_sv,
                g_ks,
                key,
            ));
        }
        payload
    }
}

} // verus!
