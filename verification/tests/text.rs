use appcui::graphics::Surface;
use slidedeck::deck::Deck;
use slidedeck::text::push_decimal;

fn decimal(n: usize) -> String {
    let mut s = String::new();
    push_decimal(&mut s, n);
    s
}

#[test]
fn decimal_rendering_exact_values() {
    assert_eq!(decimal(0), "0");
    assert_eq!(decimal(7), "7");
    assert_eq!(decimal(10), "10");
    assert_eq!(decimal(109), "109");
    assert_eq!(decimal(12345), "12345");
    assert_eq!(decimal(usize::MAX), usize::MAX.to_string());
}

#[test]
fn decimal_appends_to_existing_text() {
    let mut s = String::from("page ");
    push_decimal(&mut s, 42);
    assert_eq!(s, "page 42");
}

#[test]
fn position_indicator_text() {
    let mut decoded: Vec<Option<Surface>> = Vec::new();
    for _ in 0..12 {
        decoded.push(Some(Surface::new(1, 1)));
    }
    let mut d = Deck::from_decoded(decoded);
    assert_eq!(d.position_indicator(), "1/12");
    for _ in 0..9 {
        d.advance();
    }
    assert_eq!(d.position_indicator(), "10/12");
    d.jump_last();
    assert_eq!(d.position_indicator(), "12/12");
}

#[test]
fn position_indicator_on_empty_deck_is_degenerate() {
    let d = Deck::from_decoded(Vec::new());
    assert_eq!(d.position_indicator(), "1/0");
}
