use ricracroe::coord::Coord;

#[test]
fn plus_adds_component_wise() {
    let a = Coord { x: 2, y: 5 };
    let b = Coord { x: 3, y: 1 };
    assert_eq!(a.plus(b), Coord { x: 5, y: 6 });
}

#[test]
fn minus_saturates_at_zero() {
    let a = Coord { x: 2, y: 5 };
    let b = Coord { x: 3, y: 1 };
    assert_eq!(a.minus(b), Coord { x: 0, y: 4 });
    assert_eq!(b.minus(a), Coord { x: 1, y: 0 });
}

#[test]
fn default_is_the_origin() {
    assert_eq!(Coord::default(), Coord { x: 0, y: 0 });
}
