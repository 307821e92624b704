use render_engine::rng::{Lcg, LCG_INCREMENT, LCG_MULTIPLIER};

#[test]
fn first_draws_from_seed() {
    let mut rng = Lcg::new(1337);
    let mut state: u64 = 1337;
    for _ in 0..5 {
        state = state.wrapping_mul(LCG_MULTIPLIER).wrapping_add(LCG_INCREMENT);
        assert_eq!(rng.next_u32(), (state >> 32) as u32);
    }
}

#[test]
fn zero_seed_first_value() {
    let mut rng = Lcg::new(0);
    // The first state is the increment itself.
    assert_eq!(rng.next_u32(), 0x1405_7b7e);
    assert_eq!(rng.next_u32(), 0x1a08_ee11);
}

#[test]
fn same_seed_same_stream() {
    let mut a = Lcg::new(42);
    let mut b = Lcg::new(42);
    let xs: Vec<u32> = (0..100).map(|_| a.next_u32()).collect();
    let ys: Vec<u32> = (0..100).map(|_| b.next_u32()).collect();
    assert_eq!(xs, ys);
    let mut c = Lcg::new(43);
    let zs: Vec<u32> = (0..100).map(|_| c.next_u32()).collect();
    assert_ne!(xs, zs);
}
