use safe_sequence::SafeSequence;

#[test]
fn lib_test_vec_has_index() {
    let v = vec![1, 2, 3];
    assert!(v.has_index(0));
    assert!(!v.has_index(3));
}

#[test]
fn lib_test_vec_try_get() {
    let v = vec![1, 2, 3, 4];
    assert_eq!(v.try_get(0), Some(&1));
    assert_eq!(v.try_get(3), Some(&4));
    assert!(v.try_get(4).is_none());
}

#[test]
fn lib_test_vec_try_remove() {
    let mut v = vec![1, 2, 3, 4];
    assert_eq!(v.try_remove(0), Some(1));
    assert_eq!(v.try_remove(2), Some(4));
    // now: [2, 3]
    assert!(v.try_remove(2).is_none());
}

#[test]
fn vec_fallible_test_vec_has_index() {
    let v = vec![1, 2, 3];
    assert!(v.has_index(0));
    assert!(!v.has_index(3));
}

#[test]
fn vec_fallible_test_vec_try_get() {
    let v = vec![1, 2, 3, 4];
    assert_eq!(v.try_get(0), Some(&1));
    assert_eq!(v.try_get(3), Some(&4));
    assert!(v.try_get(4).is_none());
}

#[test]
fn vec_fallible_test_vec_try_remove() {
    let mut v = vec![1, 2, 3, 4];
    assert_eq!(v.try_remove(0), Some(1));
    assert_eq!(v.try_remove(2), Some(4));
    // now: [2, 3]
    assert!(v.try_remove(2).is_none());
}

#[test]
fn test_vec_try_insert() {
    let mut v = vec![1, 2, 4];
    assert!(v.try_insert(2, 3).is_ok());
    assert!(v.try_insert(4, 5).is_err());
    assert_eq!(v, vec![1, 2, 3, 4]);
}
