use appcui::graphics::Surface;
use slidedeck::deck::Deck;
use slidedeck::router::{route_key, NavKey};

fn deck_of(n: usize) -> Deck {
    let mut decoded: Vec<Option<Surface>> = Vec::new();
    for _ in 0..n {
        decoded.push(Some(Surface::new(2, 1)));
    }
    Deck::from_decoded(decoded)
}

#[test]
fn advance_saturates_at_last_slide() {
    // From index 0 of a deck of 3, k advances land on min(k, 2).
    let mut d = deck_of(3);
    assert_eq!(d.position(), (1, 3));
    assert!(d.advance());
    assert_eq!(d.position(), (2, 3));
    assert!(d.advance());
    assert_eq!(d.position(), (3, 3));
    assert!(!d.advance());
    assert_eq!(d.position(), (3, 3));
    assert!(!d.advance());
    assert_eq!(d.position(), (3, 3));
}

#[test]
fn retreat_saturates_at_first_slide() {
    // From index 2 of a deck of 3, k retreats land on max(2 - k, 0).
    let mut d = deck_of(3);
    d.jump_last();
    assert_eq!(d.position(), (3, 3));
    assert!(d.retreat());
    assert_eq!(d.position(), (2, 3));
    assert!(d.retreat());
    assert_eq!(d.position(), (1, 3));
    assert!(!d.retreat());
    assert_eq!(d.position(), (1, 3));
}

#[test]
fn advance_at_last_index_is_a_no_op() {
    let mut d = deck_of(2);
    assert!(d.advance());
    assert_eq!(d.position(), (2, 2));
    assert!(!d.advance());
    assert_eq!(d.position(), (2, 2));
}

#[test]
fn retreat_at_first_index_is_a_no_op() {
    let mut d = deck_of(2);
    assert!(!d.retreat());
    assert_eq!(d.position(), (1, 2));
}

#[test]
fn jump_round_trips() {
    let mut d = deck_of(5);
    d.advance();
    d.jump_first();
    d.jump_last();
    assert_eq!(d.position(), (5, 5));
    d.jump_last();
    d.jump_first();
    assert_eq!(d.position(), (1, 5));
}

#[test]
fn jumps_are_idempotent() {
    let mut d = deck_of(4);
    d.jump_last();
    d.jump_last();
    assert_eq!(d.position(), (4, 4));
    d.jump_first();
    d.jump_first();
    assert_eq!(d.position(), (1, 4));
}

#[test]
fn empty_deck_operations_are_total_no_ops() {
    let mut d = Deck::from_decoded(Vec::new());
    assert!(d.current_slide().is_none());
    assert!(!d.advance());
    assert!(!d.retreat());
    d.jump_first();
    d.jump_last();
    assert!(d.current_slide().is_none());
    assert_eq!(d.position(), (1, 0));
}

#[test]
fn decode_failures_are_dropped_in_order() {
    let mut decoded: Vec<Option<Surface>> = Vec::new();
    decoded.push(Some(Surface::new(1, 1)));
    decoded.push(None);
    decoded.push(Some(Surface::new(3, 1)));
    decoded.push(None);
    decoded.push(Some(Surface::new(5, 1)));
    let mut d = Deck::from_decoded(decoded);
    assert_eq!(d.position(), (1, 3));
    // The surviving slides keep store order: their widths are 1, 3, 5.
    let first = d.current_slide().expect("non-empty deck has a current slide");
    assert_eq!(first.size().width, 1);
    d.advance();
    assert_eq!(d.current_slide().unwrap().size().width, 3);
    d.advance();
    assert_eq!(d.current_slide().unwrap().size().width, 5);
}

#[test]
fn forward_keys_advance_and_report_movement() {
    for key in [NavKey::Right, NavKey::PageDown, NavKey::Space] {
        let mut d = deck_of(2);
        assert!(route_key(&mut d, key));
        assert_eq!(d.position(), (2, 2));
        assert!(!route_key(&mut d, key));
        assert_eq!(d.position(), (2, 2));
    }
}

#[test]
fn backward_keys_retreat_and_report_movement() {
    for key in [NavKey::Left, NavKey::PageUp, NavKey::Backspace] {
        let mut d = deck_of(2);
        assert!(!route_key(&mut d, key));
        d.jump_last();
        assert!(route_key(&mut d, key));
        assert_eq!(d.position(), (1, 2));
    }
}

#[test]
fn home_and_end_always_report_handled() {
    let mut d = deck_of(3);
    assert!(route_key(&mut d, NavKey::End));
    assert_eq!(d.position(), (3, 3));
    assert!(route_key(&mut d, NavKey::End));
    assert_eq!(d.position(), (3, 3));
    assert!(route_key(&mut d, NavKey::Home));
    assert_eq!(d.position(), (1, 3));
    assert!(route_key(&mut d, NavKey::Home));
    assert_eq!(d.position(), (1, 3));
}

#[test]
fn escape_and_unknown_keys_are_unhandled() {
    let mut d = deck_of(3);
    d.advance();
    assert!(!route_key(&mut d, NavKey::Escape));
    assert_eq!(d.position(), (2, 3));
    assert!(!route_key(&mut d, NavKey::Other));
    assert_eq!(d.position(), (2, 3));
}

#[test]
fn empty_deck_keys_are_safe() {
    let mut d = Deck::from_decoded(Vec::new());
    assert!(!route_key(&mut d, NavKey::Right));
    assert!(!route_key(&mut d, NavKey::Left));
    assert!(route_key(&mut d, NavKey::Home));
    assert!(route_key(&mut d, NavKey::End));
    assert!(!route_key(&mut d, NavKey::Escape));
    assert_eq!(d.position(), (1, 0));
}
