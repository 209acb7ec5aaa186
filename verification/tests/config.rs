use actix_web_utils::{
    content_type_ok, parse_content_length, JsonConfig, JsonPayloadError, MimePredicate, MimeType,
    NoPredicate, DEFAULT_LIMIT,
};

fn mime(type_: &str, subtype: &str, suffix: Option<&str>) -> MimeType {
    MimeType::new(
        type_.to_string(),
        subtype.to_string(),
        suffix.map(|s| s.to_string()),
    )
}

#[test]
fn default_config() {
    let config: JsonConfig<NoPredicate> = Default::default();
    assert_eq!(config.limit, 2_097_152);
    assert_eq!(config.limit, DEFAULT_LIMIT);
    assert!(config.content_type_required);
    assert!(config.content_type.is_none());
}

#[test]
fn builders_replace_their_field_only() {
    let config: JsonConfig<NoPredicate> = Default::default();
    let config = config.limit(100).content_type_required(false);
    assert_eq!(config.limit, 100);
    assert!(!config.content_type_required);
    assert!(config.content_type.is_none());
}

struct AcceptsVndCustom;

impl MimePredicate for AcceptsVndCustom {
    fn accepts(&self, mime: &MimeType) -> bool {
        mime.subtype.starts_with("vnd.custom")
    }
}

#[test]
fn content_type_builder_sets_predicate() {
    let config: JsonConfig<NoPredicate> = Default::default();
    let config = config.content_type(AcceptsVndCustom);
    assert!(config.content_type.is_some());
    assert_eq!(config.limit, DEFAULT_LIMIT);
}

#[test]
fn json_mime_accepted_by_subtype_and_suffix() {
    assert!(mime("application", "json", None).is_json());
    assert!(mime("application", "vnd.custom", Some("json")).is_json());
    assert!(!mime("text", "plain", None).is_json());
    assert!(!mime("application", "xml", None).is_json());
}

#[test]
fn gate_on_missing_header_follows_required_flag() {
    let none: Option<&NoPredicate> = None;
    assert!(!content_type_ok(None, none, true));
    assert!(content_type_ok(None, none, false));
}

#[test]
fn gate_with_predicate() {
    let custom = mime("application", "vnd.custom", None);
    let xml = mime("application", "xml", None);
    let pred = AcceptsVndCustom;
    assert!(content_type_ok(Some(&custom), Some(&pred), true));
    assert!(!content_type_ok(Some(&xml), Some(&pred), true));
    // Without a predicate, a media type that is not JSON-shaped is refused.
    let none: Option<&NoPredicate> = None;
    assert!(!content_type_ok(Some(&custom), none, true));
}

#[test]
fn parse_content_length_accepts_plain_decimals() {
    assert_eq!(parse_content_length(b"123"), Some(123));
    assert_eq!(parse_content_length(b"0"), Some(0));
    assert_eq!(parse_content_length(b"+7"), Some(7));
}

#[test]
fn parse_content_length_rejects_malformed_values() {
    assert_eq!(parse_content_length(b""), None);
    assert_eq!(parse_content_length(b"+"), None);
    assert_eq!(parse_content_length(b"12a"), None);
    assert_eq!(parse_content_length(b" 12"), None);
    assert_eq!(parse_content_length(b"-12"), None);
    assert_eq!(parse_content_length(b"99999999999999999999999999"), None);
}

#[test]
fn parse_content_length_boundary() {
    let max = usize::MAX.to_string();
    assert_eq!(parse_content_length(max.as_bytes()), Some(usize::MAX));
    let over = format!("{}0", max);
    assert_eq!(parse_content_length(over.as_bytes()), None);
}

#[test]
fn status_codes_by_failure_kind() {
    assert_eq!(JsonPayloadError::ContentType.status_code(), 415);
    assert_eq!(
        JsonPayloadError::OverflowKnownLength { length: 3, limit: 2 }.status_code(),
        413
    );
    assert_eq!(JsonPayloadError::Overflow { limit: 2 }.status_code(), 413);
    let parse_err = serde_json::from_slice::<serde_json::Value>(b"{").unwrap_err();
    assert_eq!(JsonPayloadError::Deserialize(parse_err).status_code(), 400);
    let ser_err = serde_json::from_slice::<serde_json::Value>(b"").unwrap_err();
    assert_eq!(JsonPayloadError::Serialize(ser_err).status_code(), 500);
    let errs = actix_web_utils::ValidationErrors::new();
    assert_eq!(JsonPayloadError::ValidationFailed(errs).status_code(), 400);
}
