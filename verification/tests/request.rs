use job_dispatch::category::Category;
use job_dispatch::request::{validate_request, ValidationError};

#[test]
fn missing_video_url_is_rejected() {
    let r = validate_request(
        None,
        Some(vec![String::from("Podcast")]),
        Some(String::from("make it upbeat")),
    );
    assert!(matches!(r, Err(ValidationError::MissingVideoUrl)));
}

#[test]
fn missing_categories_is_rejected() {
    let r = validate_request(Some(String::from("https://example.test/v.mp4")), None, None);
    assert!(matches!(r, Err(ValidationError::MissingCategories)));
}

#[test]
fn missing_video_url_wins_over_missing_categories() {
    let r = validate_request(None, None, None);
    assert!(matches!(r, Err(ValidationError::MissingVideoUrl)));
}

#[test]
fn empty_category_list_is_accepted() {
    let r = validate_request(Some(String::from("https://example.test/v.mp4")), Some(vec![]), None);
    let req = r.expect("an empty category list is not an error");
    assert!(req.categories.is_empty());
}

#[test]
fn full_request_is_validated_field_by_field() {
    let r = validate_request(
        Some(String::from("https://example.test/v.mp4")),
        Some(vec![String::from("Podcast"), String::from("Underwater Basket Weaving")]),
        Some(String::from("make it upbeat")),
    );
    let req = r.expect("a complete payload must validate");
    assert_eq!(req.video_url, "https://example.test/v.mp4");
    assert_eq!(req.categories.len(), 2);
    assert!(matches!(req.categories[0], Category::Podcast));
    match &req.categories[1] {
        Category::Other(text) => assert_eq!(text, "Underwater Basket Weaving"),
        _ => panic!("an unknown category string must resolve to the open fallback"),
    }
    assert_eq!(req.user_prompt.as_deref(), Some("make it upbeat"));
}

#[test]
fn absent_prompt_stays_absent() {
    let r = validate_request(
        Some(String::from("https://example.test/v.mp4")),
        Some(vec![String::from("News")]),
        None,
    );
    let req = r.expect("a payload without a prompt must validate");
    assert!(req.user_prompt.is_none());
}
