use r3sizer::corpus::xorshift32;

fn reference_step(mut state: u32) -> u32 {
    state ^= state << 13;
    state ^= state >> 17;
    state ^= state << 5;
    state
}

#[test]
fn xorshift32_matches_reference_steps() {
    let mut a: u32 = 0xDEAD_BEEF;
    let mut b: u32 = 0xDEAD_BEEF;
    for _ in 0..1000 {
        a = xorshift32(a);
        b = reference_step(b);
        assert_eq!(a, b);
    }
    assert_eq!(xorshift32(1), 270369);
}

#[test]
fn xorshift32_never_reaches_zero() {
    assert_eq!(xorshift32(0), 0);
    let mut s: u32 = 0xCAFE_BABE;
    for _ in 0..10_000 {
        s = xorshift32(s);
        assert_ne!(s, 0);
    }
}
