use botapi::{classify, contains_substr, DispatchError};

#[test]
fn rate_limited_known_code() {
    let e = classify(429, "Too Many Requests: retry after 3");
    assert_eq!(
        e,
        DispatchError::RateLimited {
            code: 429,
            description: String::from("Too Many Requests: retry after 3"),
        }
    );
}

#[test]
fn unauthorized_known_code() {
    let e = classify(401, "Unauthorized");
    assert_eq!(
        e,
        DispatchError::Unauthorized { code: 401, description: String::from("Unauthorized") }
    );
}

#[test]
fn overloaded_code_rate_limit_keyword() {
    let e = classify(400, "Too Many Requests: retry after 5");
    assert!(matches!(e, DispatchError::RateLimited { code: 400, .. }));
}

#[test]
fn overloaded_code_chat_not_found_keyword() {
    let e = classify(400, "Bad Request: chat not found");
    assert!(matches!(e, DispatchError::BadChatReference { code: 400, .. }));
}

#[test]
fn overloaded_code_without_keyword_degrades() {
    let e = classify(400, "Bad Request: message text is empty");
    assert_eq!(
        e,
        DispatchError::Api {
            code: 400,
            description: String::from("Bad Request: message text is empty"),
        }
    );
}

#[test]
fn unknown_code_degrades_untouched() {
    let e = classify(500, "Internal Server Error");
    assert_eq!(
        e,
        DispatchError::Api { code: 500, description: String::from("Internal Server Error") }
    );
}

#[test]
fn classification_idempotent() {
    let first = classify(429, "Too Many Requests: retry after 3");
    let second = classify(429, "Too Many Requests: retry after 3");
    assert_eq!(first, second);

    let first = classify(400, "Bad Request: chat not found");
    let second = classify(400, "Bad Request: chat not found");
    assert_eq!(first, second);
}

#[test]
fn substring_search() {
    assert!(contains_substr("Too Many Requests: retry after 3", "Too Many Requests"));
    assert!(contains_substr("Bad Request: chat not found", "chat not found"));
    assert!(!contains_substr("Bad Request: message text is empty", "chat not found"));
    assert!(contains_substr("abc", ""));
    assert!(contains_substr("", ""));
    assert!(contains_substr("abc", "abc"));
    assert!(!contains_substr("ab", "abc"));
    assert!(!contains_substr("", "a"));
    assert!(contains_substr("aab", "ab"));
}
