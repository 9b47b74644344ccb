use trident::Erased;
use trident::Trident;

#[test]
fn erase_unerase_small() {
    let t = Trident::new(5usize);
    let e = t.into_erased();
    let t2: Trident<usize> = e.into_trident();

    assert_eq!(t2.as_ref(), &5);
    assert_eq!(t2.into_inner(), 5);
}

#[test]
fn erase_unerase_large() {
    let t = Trident::new((10usize, 20usize, 30usize, 40usize));
    let e = t.into_erased();
    let t2: Trident<(usize, usize, usize, usize)> = e.into_trident();

    assert_eq!(t2.into_inner(), (10, 20, 30, 40));
}

#[test]
fn from_erased_returns_erased_value() {
    let e = Erased::new((8usize, 9usize));
    let t: Trident<(usize, usize)> = Trident::from_erased(e);

    assert_eq!(t.as_ref(), &(8, 9));
}

#[test]
fn erased_get_leaves_value_in_place() {
    let e = Erased::new(77usize);

    assert_eq!(e.get::<usize>(), 77);
    assert_eq!(e.get::<usize>(), 77);
    assert_eq!(e.into_inner::<usize>(), 77);
}

#[test]
fn erased_round_trip_small() {
    let e = Erased::new(123usize);
    assert_eq!(e.into_inner::<usize>(), 123);
}

#[test]
fn erased_round_trip_large() {
    let e = Erased::new((1usize, 2usize, 3usize, 4usize));
    assert_eq!(e.get::<(usize, usize, usize, usize)>(), (1, 2, 3, 4));
    assert_eq!(e.into_inner::<(usize, usize, usize, usize)>(), (1, 2, 3, 4));
}

#[test]
fn erased_values_pass_through_common_code() {
    // Values of different types move through one untyped slot before being
    // reconstituted: the caller, not the storage, tracks which type is where.
    let mut slots: Vec<Erased> = Vec::new();
    slots.push(Erased::new(6usize));
    slots.push(Erased::new((7usize, 8usize, 9usize, 10usize)));

    let large = slots.pop().unwrap();
    let small = slots.pop().unwrap();

    assert_eq!(small.into_inner::<usize>(), 6);
    assert_eq!(large.into_inner::<(usize, usize, usize, usize)>(), (7, 8, 9, 10));
}
