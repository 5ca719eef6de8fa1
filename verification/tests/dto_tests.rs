use reddit_reader::dto::RedditPost;
use reddit_reader::dto::RedditPostsDTO;
use reddit_reader::lines::usize_to_string;

fn post(title: &str, author: &str) -> RedditPost {
    RedditPost {
        id: String::from("t3_abc"),
        title: String::from(title),
        author: String::from(author),
        score: 10,
        upvotes: 12,
        downvotes: 2,
        num_comments: 5,
        subreddit: String::from("popular"),
        url: String::from("https://example.invalid/x"),
    }
}

#[test]
fn new_collection_is_empty() {
    let dto = RedditPostsDTO::new();
    assert_eq!(dto.count(), 0);
    assert!(dto.get_post(0).is_none());
    assert!(dto.get_titles().is_empty());
}

#[test]
fn default_collection_is_empty() {
    let dto = RedditPostsDTO::default();
    assert_eq!(dto.count(), 0);
}

#[test]
fn add_post_keeps_order_and_count() {
    let mut dto = RedditPostsDTO::new();
    dto.add_post(post("A", "x"));
    dto.add_post(post("B", "y"));
    dto.add_post(post("C", "z"));
    assert_eq!(dto.count(), 3);
    assert_eq!(dto.get_post(0).unwrap().title, "A");
    assert_eq!(dto.get_post(1).unwrap().title, "B");
    assert_eq!(dto.get_post(2).unwrap().title, "C");
    assert!(dto.get_post(3).is_none());
}

#[test]
fn get_titles_in_order() {
    let mut dto = RedditPostsDTO::new();
    dto.add_post(post("first", "x"));
    dto.add_post(post("second", "y"));
    assert_eq!(dto.get_titles(), vec![String::from("first"), String::from("second")]);
}

#[test]
fn from_fields_takes_present_values() {
    let p = RedditPost::from_fields(
        Some(String::from("id1")),
        Some(String::from("A title")),
        Some(String::from("someone")),
        Some(42),
        Some(50),
        Some(8),
        Some(7),
        Some(String::from("news")),
        Some(String::from("https://example.invalid/a")),
    );
    assert_eq!(p.id, "id1");
    assert_eq!(p.title, "A title");
    assert_eq!(p.author, "someone");
    assert_eq!(p.score, 42);
    assert_eq!(p.upvotes, 50);
    assert_eq!(p.downvotes, 8);
    assert_eq!(p.num_comments, 7);
    assert_eq!(p.subreddit, "news");
    assert_eq!(p.url, "https://example.invalid/a");
}

#[test]
fn from_fields_substitutes_defaults() {
    let p = RedditPost::from_fields(None, None, None, None, None, None, None, None, None);
    assert_eq!(p.id, "");
    assert_eq!(p.title, "");
    assert_eq!(p.author, "[deleted]");
    assert_eq!(p.score, 0);
    assert_eq!(p.upvotes, 0);
    assert_eq!(p.downvotes, 0);
    assert_eq!(p.num_comments, 0);
    assert_eq!(p.subreddit, "");
    assert_eq!(p.url, "");
}

#[test]
fn numerals_render_in_decimal() {
    assert_eq!(usize_to_string(0), "0");
    assert_eq!(usize_to_string(7), "7");
    assert_eq!(usize_to_string(10), "10");
    assert_eq!(usize_to_string(345), "345");
    assert_eq!(usize_to_string(1000000), "1000000");
}
