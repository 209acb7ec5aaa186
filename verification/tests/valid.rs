use actix_web_utils::{
    apply_validation, check_length, decode_json_valid_bytes, extract_valid, JsonConfig,
    JsonPayloadError, JsonValid, MimeType, NoPredicate, Validate, ValidationErrors,
};

struct TodoData {
    title: String,
}

impl<'de> serde::Deserialize<'de> for TodoData {
    fn deserialize<D: serde::Deserializer<'de>>(d: D) -> Result<Self, D::Error> {
        let v = serde_json::Value::deserialize(d)?;
        let title = v
            .get("title")
            .and_then(|t| t.as_str())
            .ok_or_else(|| serde::de::Error::custom("missing title"))?
            .to_string();
        Ok(TodoData { title })
    }
}

impl Validate for TodoData {
    fn validate(&self) -> Result<(), ValidationErrors> {
        let mut errs = ValidationErrors::new();
        if let Some(e) = check_length("title", self.title.len(), 1, 10) {
            errs.push(e);
        }
        if errs.is_empty() {
            Ok(())
        } else {
            Err(errs)
        }
    }
}

#[test]
fn check_length_reports_violations() {
    assert!(check_length("title", 5, 1, 10).is_none());
    assert!(check_length("title", 1, 1, 10).is_none());
    assert!(check_length("title", 10, 1, 10).is_none());
    let short = check_length("title", 0, 1, 10).unwrap();
    assert_eq!(short.field, "title");
    assert_eq!(short.code, "length");
    let long = check_length("title", 11, 1, 10).unwrap();
    assert_eq!(long.field, "title");
}

#[test]
fn apply_validation_keeps_accepted_values() {
    let r = apply_validation(7u8, Ok(()));
    assert_eq!(r.unwrap().into_inner(), 7u8);
}

#[test]
fn apply_validation_carries_all_violations() {
    let mut errs = ValidationErrors::new();
    if let Some(e) = check_length("a", 0, 1, 2) {
        errs.push(e);
    }
    if let Some(e) = check_length("b", 9, 1, 2) {
        errs.push(e);
    }
    let r = apply_validation(7u8, Err(errs));
    match r {
        Err(JsonPayloadError::ValidationFailed(errs)) => {
            assert_eq!(errs.errors.len(), 2);
            assert_eq!(errs.errors[0].field, "a");
            assert_eq!(errs.errors[1].field, "b");
        }
        _ => panic!("expected a validation failure"),
    }
}

#[test]
fn conforming_value_passes_validation() {
    let r: Result<JsonValid<TodoData>, JsonPayloadError> =
        decode_json_valid_bytes(&b"{\"title\":\"short\"}".to_vec());
    assert_eq!(r.unwrap().into_inner().title, "short");
}

#[test]
fn violating_value_yields_validation_failed_listing_the_field() {
    let r: Result<JsonValid<TodoData>, JsonPayloadError> =
        decode_json_valid_bytes(&b"{\"title\":\"this title is far too long\"}".to_vec());
    match r {
        Err(JsonPayloadError::ValidationFailed(errs)) => {
            assert_eq!(errs.errors.len(), 1);
            assert_eq!(errs.errors[0].field, "title");
            assert_eq!(errs.errors[0].code, "length");
        }
        _ => panic!("expected a validation failure"),
    }
}

#[test]
fn malformed_body_fails_before_validation() {
    let r: Result<JsonValid<TodoData>, JsonPayloadError> =
        decode_json_valid_bytes(&b"{\"title\":".to_vec());
    assert!(matches!(r, Err(JsonPayloadError::Deserialize(_))));
}

#[test]
fn validated_pipeline_end_to_end() {
    let config: JsonConfig<NoPredicate> = Default::default();
    let m = MimeType::new("application".to_string(), "json".to_string(), None);
    let body = b"{\"title\":\"hi\"}".to_vec();
    let r: Result<JsonValid<TodoData>, JsonPayloadError> =
        extract_valid(&config, Some(&m), Some(body.len()), &vec![body]);
    assert_eq!(r.unwrap().into_inner().title, "hi");

    let long = b"{\"title\":\"much much much too long\"}".to_vec();
    let r: Result<JsonValid<TodoData>, JsonPayloadError> =
        extract_valid(&config, Some(&m), None, &vec![long]);
    assert!(matches!(r, Err(JsonPayloadError::ValidationFailed(_))));
}
