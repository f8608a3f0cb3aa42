use text_size::EndBound;
use text_size::TextRange;
use text_size::TextSize;

fn size(n: u32) -> TextSize {
    TextSize::new(n)
}

fn range(s: u32, e: u32) -> TextRange {
    TextRange(size(s), size(e))
}

#[test]
fn make_round_trips() {
    let r = range(3, 7);
    assert_eq!(r.start(), size(3));
    assert_eq!(r.end(), size(7));
    let d = TextRange(size(5), size(5));
    assert_eq!(d.start(), size(5));
    assert_eq!(d.end(), size(5));
}

#[test]
fn empty_is_empty_everywhere() {
    let probe = range(0, 0);
    let offsets = [size(0), size(7), size(u32::MAX - 1), TextSize::inf()];
    for o in offsets {
        let e = probe.empty(o);
        assert!(e.is_empty());
        assert_eq!(e.len(), size(0));
        assert_eq!(e.start(), o);
        assert_eq!(e.end(), o);
    }
}

#[test]
fn len_finite() {
    assert_eq!(range(3, 7).len(), size(4));
    assert_eq!(range(0, 0).len(), size(0));
    assert_eq!(range(5, 5).len(), size(0));
}

#[test]
fn len_unbounded_is_sentinel() {
    let r = TextRange(size(3), TextSize::inf());
    assert_eq!(r.len(), TextSize::inf());
    assert!(r.len().is_inf());
}

#[test]
fn len_empty_at_sentinel_is_zero() {
    let e = range(0, 0).empty(TextSize::inf());
    assert_eq!(e.len(), size(0));
    assert!(e.is_empty());
}

#[test]
fn contains_is_end_exclusive() {
    let r = range(3, 7);
    assert!(r.contains(size(3)));
    assert!(r.contains(size(6)));
    assert!(!r.contains(size(7)));
    assert!(!r.contains(size(2)));
}

#[test]
fn contains_inclusive_includes_end() {
    let r = range(3, 7);
    assert!(r.contains_inclusive(size(7)));
    assert!(!r.contains_inclusive(size(8)));
    assert!(r.contains_inclusive(size(3)));
}

#[test]
fn empty_range_contains_no_points() {
    let e = range(5, 5);
    assert!(!e.contains(size(5)));
    assert!(e.contains_inclusive(size(5)));
}

#[test]
fn contains_range_cases() {
    assert!(range(3, 7).contains_range(range(4, 6)));
    assert!(!range(3, 7).contains_range(range(3, 8)));
    let r = range(3, 7);
    assert!(r.contains_range(r));
    let e = range(5, 5);
    assert!(e.contains_range(e));
    assert!(!e.contains_range(range(4, 4)));
}

#[test]
fn intersection_of_touching_ranges_is_empty_but_present() {
    let i = TextRange::intersection(range(0, 5), range(5, 10));
    assert_eq!(i, Some(range(0, 0).empty(size(5))));
    assert!(i.unwrap().is_empty());
}

#[test]
fn intersection_of_disjoint_ranges_is_none() {
    assert_eq!(TextRange::intersection(range(0, 4), range(5, 10)), None);
    assert_eq!(TextRange::intersection(range(5, 10), range(0, 4)), None);
}

#[test]
fn intersection_of_nested_ranges_is_the_inner_one() {
    assert_eq!(
        TextRange::intersection(range(0, 10), range(3, 7)),
        Some(range(3, 7))
    );
}

#[test]
fn intersection_of_overlapping_ranges() {
    assert_eq!(
        TextRange::intersection(range(0, 6), range(4, 10)),
        Some(range(4, 6))
    );
}

#[test]
fn covering_spans_the_gap() {
    assert_eq!(TextRange::covering(range(0, 3), range(5, 10)), range(0, 10));
}

#[test]
fn covering_is_commutative() {
    let cases = [
        (range(0, 3), range(5, 10)),
        (range(2, 8), range(4, 6)),
        (range(0, 0), range(9, 9)),
        (TextRange(size(1), TextSize::inf()), range(0, 4)),
    ];
    for (a, b) in cases {
        assert_eq!(TextRange::covering(a, b), TextRange::covering(b, a));
    }
}

#[test]
fn index_with_finite_end() {
    let r = range(0, 5);
    assert_eq!(r.index("hello world"), "hello");
}

#[test]
fn index_with_unbounded_end() {
    let r = TextRange(size(6), TextSize::inf());
    assert_eq!(r.index("hello world"), "world");
}

#[test]
fn index_of_empty_range_is_empty() {
    let r = range(4, 4);
    assert_eq!(r.index("hello world"), "");
}

#[test]
fn bounds_of_finite_range() {
    let r = range(3, 7);
    let (s, e) = r.bounds();
    assert_eq!(s, size(3));
    assert_eq!(e, EndBound::Excluded(size(7)));
}

#[test]
fn bounds_of_unbounded_range() {
    let r = TextRange(size(3), TextSize::inf());
    let (s, e) = r.bounds();
    assert_eq!(s, size(3));
    assert_eq!(e, EndBound::Unbounded);
}

#[test]
fn bounds_round_trip() {
    let cases = [
        range(3, 7),
        range(0, 0),
        range(5, 5),
        TextRange(size(3), TextSize::inf()),
        TextRange(TextSize::inf(), TextSize::inf()),
    ];
    for r in cases {
        let (s, e) = r.bounds();
        assert_eq!(TextRange::from_bounds(s, e), r);
    }
}

#[test]
fn into_range_converts_to_native_range() {
    let r = range(3, 7);
    assert_eq!(r.into_range(), 3usize..7usize);
}

#[test]
fn debug_string_renders_start_dot_dot_end() {
    assert_eq!(range(3, 7).to_debug_string(), "3..7");
    assert_eq!(range(0, 0).to_debug_string(), "0..0");
    assert_eq!(range(1204567890, 4294967294).to_debug_string(), "1204567890..4294967294");
    let r = TextRange(size(10), TextSize::inf());
    assert_eq!(r.to_debug_string(), "10..4294967295");
}

#[test]
fn size_conversions() {
    assert_eq!(size(42).as_usize(), 42usize);
    assert_eq!(TextSize::from_usize(42), size(42));
    assert_eq!(TextSize::zero(), size(0));
    assert_eq!(TextSize::inf(), size(u32::MAX));
    assert!(TextSize::inf().is_inf());
    assert!(!size(0).is_inf());
    assert_eq!(size(9).raw, 9);
}

#[test]
fn size_debug_string() {
    assert_eq!(size(0).to_debug_string(), "0");
    assert_eq!(size(10).to_debug_string(), "10");
    assert_eq!(size(4294967295).to_debug_string(), "4294967295");
}
