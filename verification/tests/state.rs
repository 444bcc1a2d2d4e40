//! Tests of the two bound strategies' rendering.

use progress::state::Bounded;
use progress::state::ProgressDisplay;
use progress::state::Unbounded;

#[test]
fn unbounded_display_repeats_the_glyph_position_times() {
    let u = Unbounded { bar: "*" };
    assert_eq!(u.display(0), "");
    assert_eq!(u.display(1), "*");
    assert_eq!(u.display(5), "*****");
    assert_eq!(u.display(5).len(), 5);
}

#[test]
fn unbounded_display_repeats_a_wider_glyph_whole() {
    let u = Unbounded { bar: "ab" };
    assert_eq!(u.display(3), "ababab");
}

#[test]
fn bounded_display_is_well_formed_at_every_position() {
    let b = Bounded { bound: 4, delims: ('<', '>'), bar: "#" };
    for pos in 0..=4 {
        let s = b.display(pos);
        assert_eq!(s.len(), 6);
        assert!(s.starts_with('<'));
        assert!(s.ends_with('>'));
        assert_eq!(&s[1..1 + pos], "#".repeat(pos));
        assert_eq!(&s[1 + pos..5], " ".repeat(4 - pos));
    }
    assert_eq!(b.display(2), "<##  >");
}

#[test]
fn bounded_display_of_zero_width_bar() {
    let b = Bounded { bound: 0, delims: ('[', ']'), bar: "=" };
    assert_eq!(b.display(0), "[]");
}
