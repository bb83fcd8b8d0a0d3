use jarm::probe::{CipherList, CipherOrder};

fn sorted(mut v: Vec<u16>) -> Vec<u16> {
    v.sort();
    v
}

#[test]
fn all_list_has_69_entries() {
    assert_eq!(CipherList::All.lists().len(), 69);
}

#[test]
fn no_tls13_list_has_64_entries() {
    let list = CipherList::NoTls13.lists();
    assert_eq!(list.len(), 64);
    for c in [0x1302u16, 0x1301, 0x1305, 0x1304, 0x1303] {
        assert!(!list.contains(&c));
    }
}

#[test]
fn forward_keeps_the_list() {
    let original = CipherList::All.lists();
    let mut v = original.clone();
    CipherOrder::Forward.cipher_mung(&mut v);
    assert_eq!(v, original);
}

#[test]
fn reverse_reverses_the_list() {
    let original = CipherList::All.lists();
    let mut v = original.clone();
    CipherOrder::Reverse.cipher_mung(&mut v);
    let mut expected = original.clone();
    expected.reverse();
    assert_eq!(v, expected);
}

#[test]
fn middle_out_on_all_starts_at_the_median() {
    // the full inventory is 69 long, so the odd pattern applies: the median
    // first, then the element above it
    let original = CipherList::All.lists();
    let mut v = original.clone();
    CipherOrder::MiddleOut.cipher_mung(&mut v);
    assert_eq!(v.len(), 69);
    assert_eq!(v[0], original[34]);
    assert_eq!(v[1], original[35]);
    assert_eq!(v[2], original[33]);
    assert_eq!(v[3], original[36]);
    assert_eq!(v[4], original[32]);
    assert_eq!(sorted(v), sorted(original));
}

#[test]
fn middle_out_on_even_list_leads_below_the_middle() {
    // on an even list the pair below the middle leads
    let original = CipherList::NoTls13.lists();
    let mut v = original.clone();
    CipherOrder::MiddleOut.cipher_mung(&mut v);
    assert_eq!(v.len(), 64);
    assert_eq!(v[0], original[32]);
    assert_eq!(v[1], original[31]);
    assert_eq!(v[2], original[33]);
    assert_eq!(v[3], original[30]);
    assert_eq!(v[4], original[34]);
    assert_eq!(sorted(v), sorted(original));
}

#[test]
fn middle_out_on_odd_list_starts_with_median() {
    let original: Vec<u16> = vec![1, 2, 3, 4, 5];
    let mut v = original.clone();
    CipherOrder::MiddleOut.cipher_mung(&mut v);
    assert_eq!(v, vec![3, 4, 2, 5, 1]);
}

#[test]
fn top_half_of_no_tls13_is_strict_reverse_of_first_half() {
    // the reduced inventory is 64 long and even: no median is inserted, and
    // the result is the strict reverse of the first half
    let original = CipherList::NoTls13.lists();
    let mut v = original.clone();
    CipherOrder::TopHalf.cipher_mung(&mut v);
    assert_eq!(v.len(), 32);
    for i in 0..32 {
        assert_eq!(v[i], original[31 - i]);
    }
}

#[test]
fn top_half_of_odd_list_leads_with_median() {
    let original: Vec<u16> = vec![1, 2, 3, 4, 5];
    let mut v = original.clone();
    CipherOrder::TopHalf.cipher_mung(&mut v);
    assert_eq!(v, vec![3, 2, 1]);
}

#[test]
fn bottom_half_keeps_second_half_in_order() {
    let original = CipherList::All.lists();
    let mut v = original.clone();
    CipherOrder::BottomHalf.cipher_mung(&mut v);
    // 69 entries: the median is dropped along with the first half
    assert_eq!(v.as_slice(), &original[35..]);

    let mut odd: Vec<u16> = vec![1, 2, 3, 4, 5];
    CipherOrder::BottomHalf.cipher_mung(&mut odd);
    assert_eq!(odd, vec![4, 5]);
}
