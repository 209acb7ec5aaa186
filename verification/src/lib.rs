mod body;
mod errors;
mod extract;
mod json;
mod json_config;
mod json_valid;
mod preview;
mod validation;

pub use body::{
    lemma_known_length_rejected, lemma_read_outcome_complete, lemma_read_outcome_overflow,
    read_all, spec_chunk_views, spec_chunks_total, spec_flatten, spec_read, spec_read_outcome,
    BodyReader,
};
pub use errors::{spec_status_code, JsonPayloadError};
pub use extract::{
    decode_json_bytes, decode_json_valid_bytes, extract, extract_valid, finish_decode,
    spec_decode_follows, spec_decode_valid_follows,
};
pub use json::{build_response, Json, JsonResponse};
pub use json_config::{
    content_type_ok, lemma_gate_missing_header, lemma_gate_predicate, parse_content_length,
    spec_all_digits, spec_digit, spec_digits_value, spec_gate, spec_is_json_mime,
    spec_parse_content_length, spec_strip_plus, JsonConfig, MimePredicate, MimeType, NoPredicate,
    DEFAULT_LIMIT,
};
pub use json_valid::{apply_validation, JsonValid};
pub use preview::{lossy_utf8, text_repr, PREVIEW_LIMIT};
pub use validation::{check_length, FieldError, Validate, ValidationErrors};
