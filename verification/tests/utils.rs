use oramacore_client::error::{ConfigIssue, OramaError, SerializationIssue};
use oramacore_client::internal::utils::gen_random_string;
use oramacore_client::text::{parse_count, same_text};
use oramacore_client::transport::Reply;

#[test]
fn a_random_string_has_the_length_asked_for() {
    for len in [0usize, 1, 10, 32, 1000] {
        let text = gen_random_string(len);
        assert_eq!(text.chars().count(), len);
        assert_eq!(text.len(), len);
        assert!(text.chars().all(|c| c.is_ascii_alphanumeric()));
    }
}

#[test]
fn two_random_strings_differ() {
    let first = gen_random_string(32);
    let second = gen_random_string(32);
    assert_ne!(first, second);
    let long = gen_random_string(4000);
    assert!(long.chars().any(|c| c.is_ascii_digit()));
    assert!(long.chars().any(|c| c.is_ascii_lowercase()));
    assert!(long.chars().any(|c| c.is_ascii_uppercase()));
}

#[test]
fn parse_count_reads_decimal_digits() {
    assert_eq!(parse_count("0"), Some(0));
    assert_eq!(parse_count("7"), Some(7));
    assert_eq!(parse_count("10"), Some(10));
    assert_eq!(parse_count("0042"), Some(42));
    assert_eq!(parse_count("1234567890"), Some(1234567890));
    assert_eq!(
        parse_count(&usize::MAX.to_string()),
        Some(usize::MAX)
    );
}

#[test]
fn parse_count_refuses_anything_else() {
    for text in ["", " ", "-1", "+1", "1.0", "1e3", "12a", "a12", "1 2", "\u{663}"] {
        assert_eq!(parse_count(text), None);
    }
    let beyond = format!("{}0", usize::MAX);
    assert_eq!(parse_count(&beyond), None);
    let next = (usize::MAX as u128 + 1).to_string();
    assert_eq!(parse_count(&next), None);
}

#[test]
fn same_text_compares_character_by_character() {
    assert!(same_text("", ""));
    assert!(same_text("Scalar", "Scalar"));
    assert!(!same_text("Scalar", "scalar"));
    assert!(!same_text("Scalar", "Scalar "));
    assert!(!same_text("a", ""));
}

#[test]
fn a_reply_is_sorted_by_its_status() {
    let ok = Reply::Response {
        status: 200,
        body: "fine".to_string(),
    };
    assert_eq!(ok.body(), Ok("fine".to_string()));
    let edge = Reply::Response {
        status: 299,
        body: String::new(),
    };
    assert_eq!(edge.body(), Ok(String::new()));
    for status in [199u16, 300, 404, 500] {
        let reply = Reply::Response {
            status,
            body: "why".to_string(),
        };
        assert_eq!(
            reply.body(),
            Err(OramaError::Http {
                status,
                body: "why".to_string()
            })
        );
    }
    let failure = Reply::Failure {
        reason: "no route".to_string(),
    };
    assert_eq!(
        failure.body(),
        Err(OramaError::Transport {
            reason: "no route".to_string()
        })
    );
}

#[test]
fn every_error_describes_itself() {
    assert_eq!(
        OramaError::Validation.message(),
        "Please provide a collection ID"
    );
    assert_eq!(
        OramaError::Config(ConfigIssue::NoCollection).message(),
        "No collection specified. Make sure to call set_collection() first."
    );
    assert_eq!(
        OramaError::Config(ConfigIssue::NoWriteKey).message(),
        "Cannot perform write operation as there is no write_api_key set."
    );
    assert_eq!(
        OramaError::Http {
            status: 404,
            body: "not found".to_string()
        }
        .message(),
        "The service answered with an error: not found"
    );
    assert_eq!(
        OramaError::Transport {
            reason: "timeout".to_string()
        }
        .message(),
        "The request could not be delivered: timeout"
    );
    assert_eq!(
        OramaError::Serialization(SerializationIssue::Encoding).message(),
        "The request body could not be encoded as JSON"
    );
    assert_eq!(
        OramaError::Serialization(SerializationIssue::MalformedJson).message(),
        "The response body is not valid JSON"
    );
    assert_eq!(
        OramaError::Serialization(SerializationIssue::SchemaMismatch).message(),
        "The response body does not have the expected shape"
    );
}
