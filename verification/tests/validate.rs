use zombodb::validate::{check_url, validate_translog_durability, validate_url};

#[test]
fn test_validate_url() {
    assert_eq!(validate_url("http://localhost:9200/"), Ok(()));
}

#[test]
fn test_validate_default_url() {
    assert_eq!(validate_url("default"), Ok(()));
}

#[test]
fn test_validate_invalid_url() {
    assert_eq!(
        validate_url("http://localhost:9200"),
        Err("url must end with a forward slash".to_string())
    );
}

#[test]
fn test_validate_invalid_translog_durability() {
    assert_eq!(
        validate_translog_durability(Some("foo")),
        Err("invalid translog_durability setting.  Must be one of 'request' or 'async': foo"
            .to_string())
    );
}

#[test]
fn test_valid_translog_durability_request() {
    assert_eq!(validate_translog_durability(Some("request")), Ok(()));
}

#[test]
fn test_valid_translog_durability_async() {
    assert_eq!(validate_translog_durability(Some("async")), Ok(()));
}

#[test]
fn unset_translog_durability_is_valid() {
    assert_eq!(validate_translog_durability(None), Ok(()));
}

#[test]
fn translog_durability_is_case_sensitive() {
    assert!(validate_translog_durability(Some("Request")).is_err());
    assert!(validate_translog_durability(Some("")).is_err());
}

#[test]
fn unparsable_urls_report_the_parser_error() {
    assert_eq!(validate_url("http://[::1/"), Err("invalid IPv6 address".to_string()));
    assert_eq!(validate_url("http://localhost:99999/"), Err("invalid port number".to_string()));
    assert_eq!(validate_url("localhost/"), Err("relative URL without a base".to_string()));
}

#[test]
fn empty_url_lacks_slash() {
    assert_eq!(validate_url(""), Err("url must end with a forward slash".to_string()));
}

#[test]
fn check_url_uses_the_parse_outcome_only_for_slashed_urls() {
    let failed = Err("boom".to_string());
    assert_eq!(check_url("default", failed.clone()), Ok(()));
    assert_eq!(
        check_url("http://x", failed.clone()),
        Err("url must end with a forward slash".to_string())
    );
    assert_eq!(check_url("http://x/", failed), Err("boom".to_string()));
    assert_eq!(check_url("http://x/", Ok(())), Ok(()));
}
