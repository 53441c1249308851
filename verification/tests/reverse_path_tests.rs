use sapio::reverse_path::{MkReversePath, ReversePath};
use std::convert::TryInto;
use std::sync::Arc;

#[test]
fn test_reverse_path_into_vec() {
    assert_eq!(
        Vec::<i64>::from(
            ReversePath::push(Some(ReversePath::push(None, 1i64)), 5i64)
                .as_ref()
                .clone()
        ),
        vec![1i64, 5]
    );
}

#[test]
fn test_reverse_path_from_vec() {
    assert_eq!(
        ReversePath::push(Some(ReversePath::push(None, 1i64)), 5)
            .as_ref()
            .clone(),
        vec![1i64, 5].try_into().unwrap()
    );
}

#[test]
fn test_eq() {
    assert_eq!(
        ReversePath::push(Some(ReversePath::push(None, Arc::new(1i64))), Arc::new(5)),
        ReversePath::push(Some(ReversePath::push(None, Arc::new(1i64))), Arc::new(5))
    );
    let a = (0..100)
        .map(Arc::new)
        .fold(None, |x, y| Some(ReversePath::push(x, y)))
        .unwrap();
    assert_eq!(a, a.clone());
    let b = (0..100)
        .map(Arc::new)
        .fold(None, |x, y| Some(ReversePath::push(x, y)))
        .unwrap();
    assert_eq!(a, b);
}

#[test]
fn test_neq() {
    assert_ne!(
        ReversePath::push(Some(ReversePath::push(None, Arc::new(1i64))), Arc::new(5)),
        ReversePath::push(Some(ReversePath::push(None, Arc::new(0i64))), Arc::new(5))
    );
    let a = (0..100)
        .map(Arc::new)
        .fold(None, |x, y| Some(ReversePath::push(x, y)))
        .unwrap();
    let b = (0..101)
        .map(Arc::new)
        .fold(None, |x, y| Some(ReversePath::push(x, y)))
        .unwrap();
    assert_ne!(a, b);
}

#[test]
fn test_reverse_path_from_empty_vec_fails() {
    let r: Result<ReversePath<i64>, &'static str> = Vec::new().try_into();
    assert!(r.is_err());
}

#[test]
fn test_reverse_path_round_trip() {
    let v = vec![3i64, 1, 4, 1, 5];
    let p: ReversePath<i64> = v.clone().try_into().unwrap();
    assert_eq!(Vec::<i64>::from(p), v);
}

#[test]
fn test_iter_walks_child_to_parent() {
    let p = ReversePath::push(Some(ReversePath::push(None, 1i64)), 5i64);
    let mut it = p.iter();
    assert_eq!(it.next(), Some(&5i64));
    assert_eq!(it.next(), Some(&1i64));
    assert_eq!(it.next(), None);
}

#[test]
fn test_mk_reverse_path_unwrap() {
    let mk: MkReversePath<i64> = vec![7i64, 8, 9].into();
    let p = mk.unwrap();
    assert_eq!(Vec::<i64>::from(p.as_ref().clone()), vec![7i64, 8, 9]);
}
