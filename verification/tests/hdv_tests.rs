use hdv::bundle_matrix;
use hdv::bundle_vec;
use hdv::gen_hdv;
use hdv::gen_hdv_matrix;
use hdv::hdv_from_tosses;
use hdv::shift;
use hdv::shift_custom;
use hdv::HdvError;

#[test]
fn gen_hdv_has_default_length_and_bipolar_elements() {
    let v = gen_hdv();
    assert_eq!(v.len(), 10000);
    for &x in v.iter() {
        assert!(x == 1 || x == -1);
    }
}

#[test]
fn gen_hdv_is_roughly_balanced() {
    let v = gen_hdv();
    let plus = v.iter().filter(|&&x| x == 1).count();
    let frac = plus as f64 / v.len() as f64;
    assert!(frac > 0.4 && frac < 0.6);
}

#[test]
fn gen_hdv_matrix_has_requested_shape() {
    let m = gen_hdv_matrix(3);
    assert_eq!(m.len(), 3);
    for row in m.iter() {
        assert_eq!(row.len(), 10000);
        for &x in row.iter() {
            assert!(x == 1 || x == -1);
        }
    }
}

#[test]
fn gen_hdv_matrix_empty_for_zero_or_negative_count() {
    assert!(gen_hdv_matrix(0).is_empty());
    assert!(gen_hdv_matrix(-4).is_empty());
}

#[test]
fn hdv_from_tosses_maps_each_toss() {
    let tosses = vec![true, false, true, true];
    assert_eq!(hdv_from_tosses(&tosses), vec![1, -1, 1, 1]);
    let none: Vec<bool> = Vec::new();
    assert!(hdv_from_tosses(&none).is_empty());
}

#[test]
fn hdv_from_tosses_deterministic_extremes() {
    let all_heads = vec![true; 1000];
    assert!(hdv_from_tosses(&all_heads).iter().all(|&x| x == 1));
    let all_tails = vec![false; 1000];
    assert!(hdv_from_tosses(&all_tails).iter().all(|&x| x == -1));
}

#[test]
fn bundle_vec_self_agreement_reproduces_vector() {
    let v = vec![1, -1, 0, -1, 1];
    assert_eq!(bundle_vec(v.clone(), v.clone()).unwrap(), v);
    let r = gen_hdv();
    assert_eq!(bundle_vec(r.clone(), r.clone()).unwrap(), r);
}

#[test]
fn bundle_vec_concrete_scenario() {
    let a = vec![1, -1, 1, -1];
    let b = vec![1, 1, 1, -1];
    assert_eq!(bundle_vec(a, b).unwrap(), vec![1, 0, 1, -1]);
}

#[test]
fn bundle_vec_pointwise_on_random_pair() {
    let a = gen_hdv();
    let b = gen_hdv();
    let c = bundle_vec(a.clone(), b.clone()).unwrap();
    assert_eq!(c.len(), a.len());
    for i in 0..c.len() {
        if a[i] == b[i] {
            assert_eq!(c[i], a[i]);
        } else {
            assert_eq!(c[i], 0);
        }
    }
}

#[test]
fn bundle_vec_rejects_mismatched_lengths() {
    let a = vec![1, -1, 1];
    let b = vec![1, -1];
    assert_eq!(bundle_vec(a, b), Err(HdvError::InvalidArgument));
}

#[test]
fn bundle_matrix_rejects_empty_matrix() {
    let m: Vec<Vec<i32>> = Vec::new();
    assert_eq!(bundle_matrix(m), Err(HdvError::InvalidArgument));
}

#[test]
fn bundle_matrix_single_row_is_identity() {
    let v = vec![1, -1, 1, 0, -1];
    assert_eq!(bundle_matrix(vec![v.clone()]).unwrap(), v);
}

#[test]
fn bundle_matrix_rejects_mismatched_rows() {
    let m = vec![vec![1, -1], vec![1, -1, 1]];
    assert_eq!(bundle_matrix(m), Err(HdvError::InvalidArgument));
}

#[test]
fn bundle_matrix_keeps_unanimous_positions_only() {
    let m = vec![vec![1, -1, 1], vec![1, 1, 1], vec![1, -1, -1]];
    assert_eq!(bundle_matrix(m).unwrap(), vec![1, 0, 0]);
}

#[test]
fn bundle_matrix_zeroed_position_stays_zero() {
    let m = vec![vec![1, -1], vec![0, -1], vec![0, -1]];
    assert_eq!(bundle_matrix(m).unwrap(), vec![0, -1]);
}

#[test]
fn shift_concrete_scenario() {
    let v = vec![1, -1, 1, -1];
    assert_eq!(shift(v.clone()), vec![-1, 1, -1, 1]);
    assert_eq!(shift_custom(v.clone(), 2), v);
}

#[test]
fn shift_twice_equals_shift_by_two() {
    let v = gen_hdv();
    assert_eq!(shift(shift(v.clone())), shift_custom(v, 2));
}

#[test]
fn shift_full_rotation_is_identity() {
    let v = vec![1, -1, 0, 1];
    assert_eq!(shift_custom(v.clone(), v.len()), v);
    let r = gen_hdv();
    let n = r.len();
    assert_eq!(shift_custom(r.clone(), n), r);
}

#[test]
fn shift_amount_taken_modulo_length() {
    let v = vec![1, 2, 3];
    assert_eq!(shift_custom(v.clone(), 5), vec![2, 3, 1]);
    assert_eq!(shift_custom(v.clone(), 0), v);
}

#[test]
fn shift_of_empty_vector_is_empty() {
    let none: Vec<i32> = Vec::new();
    assert!(shift(none.clone()).is_empty());
    assert!(shift_custom(none, 7).is_empty());
}
