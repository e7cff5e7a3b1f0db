use url_shortener::{index, LinkError, Registry};

#[test]
fn shorten_then_resolve_duck() {
    let mut reg = Registry::new();
    let key = reg.shorten("https://duck.com".to_string()).unwrap();
    assert_eq!(reg.resolve(key), Ok("https://duck.com".to_string()));
}

#[test]
fn empty_url_then_unused_key() {
    let mut reg = Registry::new();
    assert_eq!(reg.shorten(String::new()), Err(LinkError::InvalidInput));
    assert_eq!(reg.resolve(12345), Err(LinkError::NotFound));
}

#[test]
fn round_trip_many_urls() {
    let mut reg = Registry::new();
    let urls = ["a", "https://example.org/path?q=1", "ftp://x", "not even a url", "ü"];
    for u in urls {
        let key = reg.shorten(u.to_string()).unwrap();
        assert_eq!(reg.resolve(key), Ok(u.to_string()));
    }
}

#[test]
fn empty_url_stores_nothing() {
    let mut reg = Registry::new();
    assert_eq!(reg.shorten_with_key(String::new(), 42), Err(LinkError::InvalidInput));
    assert_eq!(reg.resolve(42), Err(LinkError::NotFound));
    reg.shorten_with_key("https://a.example".to_string(), 42).unwrap();
    assert_eq!(reg.shorten_with_key(String::new(), 42), Err(LinkError::InvalidInput));
    assert_eq!(reg.resolve(42), Ok("https://a.example".to_string()));
}

#[test]
fn resolve_never_inserted() {
    let mut reg = Registry::new();
    assert_eq!(reg.resolve(0), Err(LinkError::NotFound));
    assert_eq!(reg.resolve(u32::MAX), Err(LinkError::NotFound));
    reg.shorten_with_key("https://b.example".to_string(), 1).unwrap();
    assert_eq!(reg.resolve(0), Err(LinkError::NotFound));
    assert_eq!(reg.resolve(2), Err(LinkError::NotFound));
}

#[test]
fn resolve_twice_same_answer() {
    let mut reg = Registry::new();
    reg.shorten_with_key("https://c.example".to_string(), 9).unwrap();
    let first = reg.resolve(9);
    reg.shorten_with_key("https://d.example".to_string(), 10).unwrap();
    let second = reg.resolve(9);
    assert_eq!(first, second);
    assert_eq!(second, Ok("https://c.example".to_string()));
    assert_eq!(reg.resolve(11), reg.resolve(11));
}

#[test]
fn distinct_keys_all_kept() {
    let mut reg = Registry::new();
    let n: u32 = 200;
    for i in 0..n {
        let key = i.wrapping_mul(2_654_435_761);
        assert_eq!(reg.shorten_with_key(format!("https://site{}.example", i), key), Ok(key));
    }
    for i in 0..n {
        let key = i.wrapping_mul(2_654_435_761);
        assert_eq!(reg.resolve(key), Ok(format!("https://site{}.example", i)));
    }
}

#[test]
fn collision_overwrites() {
    let mut reg = Registry::new();
    assert_eq!(reg.shorten_with_key("https://first.example".to_string(), 7), Ok(7));
    assert_eq!(reg.shorten_with_key("https://second.example".to_string(), 7), Ok(7));
    assert_eq!(reg.resolve(7), Ok("https://second.example".to_string()));
}

#[test]
fn extreme_keys() {
    let mut reg = Registry::new();
    reg.shorten_with_key("low".to_string(), 0).unwrap();
    reg.shorten_with_key("high".to_string(), u32::MAX).unwrap();
    assert_eq!(reg.resolve(0), Ok("low".to_string()));
    assert_eq!(reg.resolve(u32::MAX), Ok("high".to_string()));
}

#[test]
fn stored_url_kept_exactly() {
    let mut reg = Registry::new();
    let url = "https://duck.com/a%20b/?x=%2F#frag";
    let key = reg.shorten(url.to_string()).unwrap();
    let back = reg.resolve(key).unwrap();
    assert_eq!(back, url);
    assert!(!back.ends_with('/'));
}

#[test]
fn error_messages() {
    assert_eq!(LinkError::InvalidInput.message(), "URL is empty");
    assert_eq!(LinkError::NotFound.message(), "Invalid or expired link");
}

#[test]
fn index_page() {
    assert_eq!(index(), "Hello, world!");
}
