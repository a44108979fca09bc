use fmt::utils::FiniteIterator;
use fmt::utils::LastIterationIterator;
use fmt::utils::MapLast;

#[test]
fn test_finite_iterator() {
    let iter = vec![1, 2, 3, 4, 5];
    let mut iter = FiniteIterator::new(iter);

    assert!(!iter.done());
    assert_eq!(iter.next(), Some(1));
    assert!(!iter.done());
    assert_eq!(iter.next(), Some(2));
    assert!(!iter.done());
    assert_eq!(iter.next(), Some(3));
    assert!(!iter.done());
    assert_eq!(iter.next(), Some(4));
    assert!(!iter.done());
    assert_eq!(iter.next(), Some(5));
    assert!(iter.done());
    assert_eq!(iter.next(), None);
    assert!(iter.done());
}

#[test]
fn test_last_iteration_iterator() {
    let iter = vec![1, 2, 3, 4, 5];
    let mut iter = LastIterationIterator::new(iter);

    assert_eq!(iter.next(), Some((false, 1)));
    assert_eq!(iter.next(), Some((false, 2)));
    assert_eq!(iter.next(), Some((false, 3)));
    assert_eq!(iter.next(), Some((false, 4)));
    assert_eq!(iter.next(), Some((true, 5)));
    assert_eq!(iter.next(), None);
}

fn drain<B>(mut it: MapLast<B>) -> Vec<B> {
    let mut v = Vec::new();
    while let Some(x) = it.next() {
        v.push(x);
    }
    v
}

#[test]
fn test_last_map_iterator() {
    let iter = vec![1, 2, 3, 4, 5];

    let identity = |x: i32| x;
    let double = |x: i32| x * 2;
    let zero = |_: i32| 0;

    let actual = MapLast::new(iter.clone(), identity, identity);
    assert_eq!(&drain(actual), &[1, 2, 3, 4, 5]);

    let actual = MapLast::new(iter.clone(), double, double);
    assert_eq!(&drain(actual), &[2, 4, 6, 8, 10]);

    let actual = MapLast::new(iter.clone(), double, zero);
    assert_eq!(&drain(actual), &[2, 4, 6, 8, 0]);

    let actual = MapLast::new(iter.clone(), zero, double);
    assert_eq!(&drain(actual), &[0, 0, 0, 0, 10]);

    let actual = MapLast::new(iter.clone(), zero, zero);
    assert_eq!(&drain(actual), &[0, 0, 0, 0, 0]);
}
