use ai_saved_manager::models::{PostStatus, RawPost};
use ai_saved_manager::processor::filter::{ContentFilter, FilterResult};

fn make_post(title: &str, link: &str) -> RawPost {
    RawPost {
        id: "test-id".to_string(),
        dataset_id: "ds1".to_string(),
        title: title.to_string(),
        link: link.to_string(),
        image_url: None,
        category_raw: None,
        post_type: None,
        status: PostStatus::Pending,
        ignore_reason: None,
    }
}

#[test]
fn test_empty_title_ignored() {
    let post = make_post("", "https://example.com/some-long-link");
    assert_eq!(
        ContentFilter::check(&post, 20),
        FilterResult::Ignore {
            reason: "empty_title".to_string()
        }
    );
}

#[test]
fn test_whitespace_only_title_ignored() {
    let post = make_post("   \t\n  ", "https://example.com/some-long-link");
    assert_eq!(
        ContentFilter::check(&post, 20),
        FilterResult::Ignore {
            reason: "empty_title".to_string()
        }
    );
}

#[test]
fn test_short_content_ignored() {
    let post = make_post("Hi", "http://x.co");
    // "Hi".len() + "http://x.co".len() = 2 + 11 = 13 < 20
    assert_eq!(
        ContentFilter::check(&post, 20),
        FilterResult::Ignore {
            reason: "content_too_short".to_string()
        }
    );
}

#[test]
fn test_valid_post_passes() {
    let post = make_post("A good title", "https://example.com/article");
    assert_eq!(ContentFilter::check(&post, 20), FilterResult::Pass);
}

#[test]
fn filter_counts_characters() {
    // Nine characters of title (eighteen bytes in UTF-8) and one of link.
    let post = make_post("ééééééééé", "x");
    assert_eq!(ContentFilter::check(&post, 11), FilterResult::Ignore { reason: "content_too_short".to_string() });
    assert_eq!(ContentFilter::check(&post, 10), FilterResult::Pass);
}

#[test]
fn filter_unicode_whitespace_title_is_empty() {
    let post = make_post("\u{3000}\u{00a0}\u{2009}", "https://example.com/some-long-link");
    assert_eq!(ContentFilter::check(&post, 0), FilterResult::Ignore { reason: "empty_title".to_string() });
}
