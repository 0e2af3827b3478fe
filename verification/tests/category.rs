use job_dispatch::category::{from_wire, join_display, Category};

#[test]
fn fixed_names_resolve_to_fixed_categories() {
    assert!(matches!(from_wire("Podcast"), Category::Podcast));
    assert!(matches!(from_wire("Food & Cooking"), Category::FoodCooking));
    assert!(matches!(from_wire("American Football"), Category::AmericanFootball));
    assert!(matches!(from_wire("Gaming"), Category::Gaming));
}

#[test]
fn fixed_categories_display_their_canonical_text() {
    assert_eq!(from_wire("Podcast").display(), "Podcast");
    assert_eq!(from_wire("Food & Cooking").display(), "Food & Cooking");
    assert_eq!(from_wire("Reality & Talk Shows").display(), "Reality & Talk Shows");
}

#[test]
fn unknown_name_falls_back_to_other() {
    let c = from_wire("Underwater Basket Weaving");
    match &c {
        Category::Other(text) => assert_eq!(text, "Underwater Basket Weaving"),
        _ => panic!("an unknown name must resolve to the open fallback"),
    }
    assert_eq!(c.display(), "Underwater Basket Weaving");
}

#[test]
fn near_miss_names_fall_back_to_other() {
    assert!(matches!(from_wire("podcast"), Category::Other(_)));
    assert!(matches!(from_wire("Food & Cooking "), Category::Other(_)));
    assert!(matches!(from_wire(""), Category::Other(_)));
}

#[test]
fn join_preserves_order_with_comma_space_separator() {
    let cats = vec![from_wire("Podcast"), from_wire("Food & Cooking")];
    assert_eq!(join_display(&cats), "Podcast, Food & Cooking");
}

#[test]
fn join_of_one_category_has_no_separator() {
    let cats = vec![from_wire("News")];
    assert_eq!(join_display(&cats), "News");
}

#[test]
fn join_of_no_categories_is_empty() {
    let cats: Vec<Category> = vec![];
    assert_eq!(join_display(&cats), "");
}

#[test]
fn join_uses_fallback_text_verbatim() {
    let cats = vec![from_wire("Podcast"), from_wire("Deep Sea Knitting"), from_wire("News")];
    assert_eq!(join_display(&cats), "Podcast, Deep Sea Knitting, News");
}
