use ckbtc_management::der::sec1_to_der;

/// BIP 66's DER signature checks, for a signature without the sighash byte.
fn is_strict_der_signature(sig: &[u8]) -> bool {
    let n = sig.len();
    if !(8..=72).contains(&n) || sig[0] != 0x30 || sig[1] as usize != n - 2 {
        return false;
    }
    let len_r = sig[3] as usize;
    if 5 + len_r >= n {
        return false;
    }
    let len_s = sig[5 + len_r] as usize;
    len_r + len_s + 6 == n
        && sig[2] == 0x02
        && len_r != 0
        && sig[4] & 0x80 == 0
        && !(len_r > 1 && sig[4] == 0 && sig[5] & 0x80 == 0)
        && sig[len_r + 4] == 0x02
        && len_s != 0
        && sig[len_r + 6] & 0x80 == 0
        && !(len_s > 1 && sig[len_r + 6] == 0 && sig[len_r + 7] & 0x80 == 0)
}

/// The two INTEGER contents of a DER signature, with their leading zeros removed.
fn decode_components(sig: &[u8]) -> (Vec<u8>, Vec<u8>) {
    let len_r = sig[3] as usize;
    let len_s = sig[5 + len_r] as usize;
    let strip = |b: &[u8]| -> Vec<u8> { b.iter().copied().skip_while(|x| *x == 0).collect() };
    (strip(&sig[4..4 + len_r]), strip(&sig[6 + len_r..6 + len_r + len_s]))
}

fn sec1(r: &[u8; 32], s: &[u8; 32]) -> Vec<u8> {
    let mut v = r.to_vec();
    v.extend_from_slice(s);
    v
}

#[test]
fn small_r_and_high_bit_s() {
    let mut r = [0u8; 32];
    r[31] = 1;
    let mut s = [0u8; 32];
    s[0] = 0x80;
    let der = sec1_to_der(&sec1(&r, &s));
    let mut expected = vec![0x30, 38, 0x02, 0x01, 0x01, 0x02, 33, 0x00, 0x80];
    expected.extend_from_slice(&[0u8; 31]);
    assert_eq!(der, expected);
}

#[test]
fn full_length_components() {
    let r = [0x7fu8; 32];
    let s = [0xffu8; 32];
    let der = sec1_to_der(&sec1(&r, &s));
    let mut expected = vec![0x30, 69, 0x02, 32];
    expected.extend_from_slice(&r);
    expected.extend_from_slice(&[0x02, 33, 0x00]);
    expected.extend_from_slice(&s);
    assert_eq!(der, expected);
    assert_eq!(der.len(), 71);
}

#[test]
fn shortest_signature() {
    let mut r = [0u8; 32];
    r[31] = 5;
    let mut s = [0u8; 32];
    s[31] = 0x7f;
    let der = sec1_to_der(&sec1(&r, &s));
    assert_eq!(der, vec![0x30, 6, 0x02, 1, 5, 0x02, 1, 0x7f]);
}

#[test]
fn longest_signature() {
    let r = [0x80u8; 32];
    let s = [0x80u8; 32];
    let der = sec1_to_der(&sec1(&r, &s));
    assert_eq!(der.len(), 72);
    assert_eq!(der[1], 70);
    assert!(is_strict_der_signature(&der));
}

#[test]
fn inner_zero_bytes_are_kept() {
    let mut r = [0u8; 32];
    r[30] = 0x01;
    r[31] = 0x00;
    let mut s = [0u8; 32];
    s[29] = 0x90;
    let der = sec1_to_der(&sec1(&r, &s));
    assert_eq!(der, vec![0x30, 10, 0x02, 2, 0x01, 0x00, 0x02, 4, 0x00, 0x90, 0x00, 0x00]);
}

#[test]
fn output_is_strict_der_and_decodes_back() {
    let cases: Vec<([u8; 32], [u8; 32])> = vec![
        ([1u8; 32], [2u8; 32]),
        ([0xffu8; 32], [0x01u8; 32]),
        ({ let mut r = [0u8; 32]; r[10] = 0x85; r }, { let mut s = [0u8; 32]; s[0] = 0x7f; s }),
        ({ let mut r = [0u8; 32]; r[31] = 0x80; r }, { let mut s = [0u8; 32]; s[31] = 0x01; s }),
    ];
    for (r, s) in cases {
        let der = sec1_to_der(&sec1(&r, &s));
        assert!(is_strict_der_signature(&der), "{:?}", der);
        let (dr, ds) = decode_components(&der);
        let strip = |b: &[u8]| -> Vec<u8> { b.iter().copied().skip_while(|x| *x == 0).collect() };
        assert_eq!(dr, strip(&r));
        assert_eq!(ds, strip(&s));
    }
}
