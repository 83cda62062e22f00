use piet_b::affine::Affine;
use piet_b::geom::{Point, Rect};
use piet_b::stack::TransformClipStack;
use piet_b::Error;

fn affine(a: i64, b: i64, c: i64, d: i64, e: i64, f: i64) -> Affine {
    Affine { a, b, c, d, e, f }
}

#[test]
fn save_restore_roundtrip() {
    let mut s = TransformClipStack::new(100);
    let before_transform = s.current_transform();
    let before_clip = s.current_clip();

    // Three nested saves, arbitrary churn in between, three restores.
    s.save().unwrap();
    s.compose(&affine(2, 0, 0, 2, 5, 7));
    s.save().unwrap();
    s.set_clip(Rect { x0: 1, y0: 2, x1: 3, y1: 4 });
    s.save().unwrap();
    s.compose(&affine(0, 1, -1, 0, 0, 0));
    s.restore().unwrap();
    s.restore().unwrap();
    s.restore().unwrap();

    assert_eq!(s.current_transform(), before_transform);
    assert_eq!(s.current_clip(), before_clip);
    assert_eq!(s.depth(), 0);
}

#[test]
fn restore_on_empty_stack_fails_and_changes_nothing() {
    let mut s = TransformClipStack::new(50);
    s.compose(&affine(3, 0, 0, 3, 1, 1));
    s.set_clip(Rect { x0: 0, y0: 0, x1: 10, y1: 10 });
    let t = s.current_transform();
    let c = s.current_clip();

    assert_eq!(s.restore(), Err(Error::StackUnderflow));
    assert_eq!(s.current_transform(), t);
    assert_eq!(s.current_clip(), c);
    assert_eq!(s.depth(), 0);
}

#[test]
fn compose_twice_equals_composed_once() {
    let samples = [
        (affine(2, 0, 0, 2, 3, 4), affine(1, 0, 0, 1, -7, 9)),
        (affine(0, 1, -1, 0, 10, 0), affine(3, 0, 0, 5, 2, 2)),
        (affine(1, 2, 3, 4, 5, 6), affine(6, 5, 4, 3, 2, 1)),
    ];
    for (a, b) in samples {
        let mut s1 = TransformClipStack::new(100);
        s1.compose(&a);
        s1.compose(&b);

        let mut s2 = TransformClipStack::new(100);
        let ab = a.compose(&b);
        s2.compose(&ab);

        assert_eq!(s1.current_transform(), s2.current_transform());
    }
}

#[test]
fn place_applies_transform_then_flips_vertically() {
    let mut s = TransformClipStack::new(100);
    // Identity transform: the placement keeps x and flips y.
    let p = s.place(Point { x: 10, y: 30 });
    assert_eq!(p, affine(1, 0, 0, 1, 10, 70));

    // A translation is applied before the flip.
    s.compose(&affine(1, 0, 0, 1, 5, 5));
    let q = s.place(Point { x: 10, y: 30 });
    assert_eq!(q, affine(1, 0, 0, 1, 15, 65));
}

#[test]
fn set_clip_replaces_rather_than_intersects() {
    // Replace-semantics is the documented behaviour of this backend:
    // an inner clip is not intersected with the outer one.
    let mut s = TransformClipStack::new(100);
    s.set_clip(Rect { x0: 0, y0: 0, x1: 10, y1: 10 });
    s.set_clip(Rect { x0: 50, y0: 50, x1: 90, y1: 90 });
    assert_eq!(s.current_clip(), Some(Rect { x0: 50, y0: 50, x1: 90, y1: 90 }));
}

#[test]
fn identity_composition_is_neutral() {
    let mut s = TransformClipStack::new(100);
    let t = affine(2, 1, 1, 2, 9, -9);
    s.compose(&t);
    s.compose(&Affine::identity());
    assert_eq!(s.current_transform(), t);
}
