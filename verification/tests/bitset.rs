use lilcy::support::bitset::BitSet;

#[test]
fn set_all() {
    let mut result = BitSet::new();
    for i in 0..32usize {
        result.set(true, i);
    }
    assert!(result.len() % 32 == 0);
    for i in 0..result.len() {
        assert_eq!(true, result.get(i));
    }
    assert_eq!(result.len(), 32);
    assert_eq!(result.count_ones(), 32);
    assert_eq!(result.count_zeros(), 0);
    result.shirnk_zero();
    assert_eq!(result.to_string(), "11111111111111111111111111111111");
}

#[test]
fn reset_all() {
    let mut result = BitSet::new();
    for i in 0..32usize {
        result.set(true, i);
    }
    for i in 0..32usize {
        result.set(false, i);
    }
    assert!(result.len() % 32 == 0);
    for i in 0..result.len() {
        assert_eq!(false, result.get(i));
    }
    assert_eq!(result.count_ones(), 0);
    assert_eq!(result.count_zeros(), 32);
    result.shirnk_zero();
    assert_eq!(result.to_string(), "");
}

#[test]
fn expansion() {
    let mut result = BitSet::new();
    for i in 0..32usize {
        result.set(true, i);
    }
    result.set(true, 64);
    assert!(result.len() % 32 == 0);
    for i in 0..32usize {
        assert_eq!(true, result.get(i));
    }
    for i in 32..64usize {
        assert_eq!(false, result.get(i));
    }
    assert_eq!(true, result.get(64));
    assert_eq!(result.count_ones(), 33);
    assert_eq!(result.count_zeros(), 63);
    result.shirnk_zero();
    assert_eq!(result.to_string(), "111111111111111111111111111111110000000000000000000000000000000010000000000000000000000000000000");
}

#[test]
fn decrease() {
    let mut result = BitSet::new();
    for i in 0..32usize {
        result.set(true, i);
    }
    result.set(true, 64);
    result.set(false, 64);
    assert_eq!(result.count_ones(), 32);
    assert_eq!(result.count_zeros(), 64);
    result.shirnk_zero();
    assert_eq!(result.to_string(), "11111111111111111111111111111111");
}

#[test]
fn clear_beyond_length_is_noop() {
    let mut b = BitSet::new();
    b.set(true, 3);
    assert_eq!(b.len(), 32);
    b.set(false, 100);
    assert_eq!(b.len(), 32);
    assert_eq!(b.count_ones(), 1);
    assert_eq!(b.get(100), false);
}

#[test]
fn setting_a_set_bit_keeps_the_count() {
    let mut b = BitSet::new();
    b.set(true, 7);
    b.set(true, 7);
    assert_eq!(b.count_ones(), 1);
    b.set(false, 7);
    b.set(false, 7);
    assert_eq!(b.count_ones(), 0);
}

#[test]
fn counts_partition_the_length() {
    let mut b = BitSet::new();
    assert_eq!(b.count_ones() + b.count_zeros(), b.len());
    b.set(true, 0);
    assert_eq!(b.count_ones() + b.count_zeros(), b.len());
    b.set(true, 40);
    assert_eq!(b.count_ones() + b.count_zeros(), b.len());
    b.set(false, 0);
    assert_eq!(b.count_ones() + b.count_zeros(), b.len());
    b.shirnk_zero();
    assert_eq!(b.count_ones() + b.count_zeros(), b.len());
    assert_eq!(b.len(), 64);
}

#[test]
fn get_immediately_after_set() {
    let mut b = BitSet::new();
    b.set(true, 33);
    assert_eq!(b.get(33), true);
    b.set(false, 33);
    assert_eq!(b.get(33), false);
}
