use voice_assistant::sample::{canonicalize_block, canonicalize_scaled};

#[test]
fn canonical_values_exact() {
    assert_eq!(canonicalize_scaled(0), 0);
    assert_eq!(canonicalize_scaled(123), 123);
    assert_eq!(canonicalize_scaled(-123), -123);
    assert_eq!(canonicalize_scaled(32767), 32767);
    assert_eq!(canonicalize_scaled(-32768), -32768);
}

#[test]
fn canonical_values_saturate() {
    assert_eq!(canonicalize_scaled(32768), 32767);
    assert_eq!(canonicalize_scaled(-32769), -32768);
    assert_eq!(canonicalize_scaled(40000), 32767);
    assert_eq!(canonicalize_scaled(-40000), -32768);
    assert_eq!(canonicalize_scaled(i64::MAX), 32767);
    assert_eq!(canonicalize_scaled(i64::MIN), -32768);
}

#[test]
fn canonical_block_in_range_ordered_signed() {
    let scaled: Vec<i64> = vec![-5_000_000, -40000, -32768, -1, 0, 1, 20000, 32767, 40000];
    let out = canonicalize_block(&scaled);
    assert_eq!(out.len(), scaled.len());
    for (i, s) in out.iter().enumerate() {
        let v = *s as i64;
        assert!((-32768..=32767).contains(&v));
        // sign preserved
        if scaled[i] > 0 {
            assert!(v >= 0);
        }
        if scaled[i] < 0 {
            assert!(v <= 0);
        }
        // relative order preserved
        if i > 0 {
            assert!(out[i - 1] <= out[i]);
        }
    }
    assert_eq!(
        out,
        vec![-32768, -32768, -32768, -1, 0, 1, 20000, 32767, 32767]
    );
}
