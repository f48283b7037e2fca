use shard_wallet::gf256::{divide, invert, multiply};
use shard_wallet::lagrange::{basis_weight, basis_weights};

#[test]
fn multiply_known_products() {
    assert_eq!(multiply(0x57, 0x83), 0xc1);
    assert_eq!(multiply(0x57, 0x13), 0xfe);
    assert_eq!(multiply(0x02, 0x80), 0x1b);
    assert_eq!(multiply(0xff, 0xff), 0x13);
}

#[test]
fn multiply_by_zero_and_one() {
    for a in 0..=255u8 {
        assert_eq!(multiply(a, 0), 0);
        assert_eq!(multiply(0, a), 0);
        assert_eq!(multiply(a, 1), a);
        assert_eq!(multiply(1, a), a);
    }
}

#[test]
fn multiply_commutes_and_distributes() {
    for a in 0..=255u8 {
        for b in 0..=255u8 {
            assert_eq!(multiply(a, b), multiply(b, a));
            assert_eq!(multiply(a, b ^ 0x35), multiply(a, b) ^ multiply(a, 0x35));
        }
    }
}

#[test]
fn multiply_is_associative_on_samples() {
    for a in [0u8, 1, 2, 3, 0x53, 0x80, 0xca, 0xff] {
        for b in 0..=255u8 {
            for c in [0u8, 1, 2, 7, 0x1b, 0x80, 0xfe, 0xff] {
                assert_eq!(multiply(multiply(a, b), c), multiply(a, multiply(b, c)));
            }
        }
    }
}

#[test]
fn invert_known_values() {
    assert_eq!(invert(0x53), 0xca);
    assert_eq!(invert(0x02), 0x8d);
    assert_eq!(invert(0xff), 0x1c);
    assert_eq!(invert(1), 1);
    assert_eq!(invert(0), 0);
}

#[test]
fn invert_gives_the_inverse_of_every_nonzero_element() {
    for a in 1..=255u8 {
        assert_eq!(multiply(a, invert(a)), 1);
    }
}

#[test]
fn divide_undoes_multiply() {
    for a in 0..=255u8 {
        for b in 1..=255u8 {
            assert_eq!(divide(multiply(a, b), b), a);
            assert_eq!(multiply(divide(a, b), b), a);
        }
    }
}

#[test]
fn basis_weights_of_one_two_three() {
    let xs = vec![1u8, 2, 3];
    assert_eq!(basis_weights(&xs), vec![1u8, 1, 1]);
    assert_eq!(basis_weight(&xs, 0), 1);
}

#[test]
fn basis_weights_of_two_points() {
    let xs = vec![2u8, 5];
    assert_eq!(basis_weights(&xs), vec![184u8, 185]);
    assert_eq!(basis_weight(&xs, 1), 185);
}

#[test]
fn basis_weight_of_a_single_point_is_one() {
    assert_eq!(basis_weights(&vec![77u8]), vec![1u8]);
}

#[test]
fn basis_weights_add_up_to_one() {
    let xs = vec![9u8, 200, 3, 17, 255];
    let ws = basis_weights(&xs);
    let mut sum = 0u8;
    for w in ws {
        sum ^= w;
    }
    assert_eq!(sum, 1);
}

#[test]
fn divide_by_zero_is_zero() {
    for a in 0..=255u8 {
        assert_eq!(divide(a, 0), 0);
    }
}

#[test]
fn basis_weights_take_any_points() {
    assert_eq!(basis_weights(&Vec::new()), Vec::<u8>::new());
    assert_eq!(basis_weights(&vec![0u8]), vec![1u8]);
    assert_eq!(basis_weights(&vec![5u8, 5]), vec![0u8, 0]);
}
