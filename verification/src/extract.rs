use vstd::prelude::*;
use crate::body::{read_all, spec_chunk_views, spec_read_outcome};
use crate::errors::JsonPayloadError;
use crate::json::Json;
use crate::json_config::{content_type_ok, spec_is_json_mime, JsonConfig, MimePredicate, MimeType};
use crate::json_valid::{apply_validation, JsonValid};
use crate::validation::Validate;

verus! {

/// Relies on serde_json::from_slice: parses JSON text into the target type.
#[verifier::external_body]
fn json_from_slice<T: serde::de::DeserializeOwned>(bytes: &[u8]) -> (r: Result<
    T,
    serde_json::Error,
>) {
    serde_json::from_slice(bytes)
}

/// What the decode pipeline does with a parse outcome: a parsed value is
/// handed on unchanged; a parse failure becomes the `Deserialize` error.
pub fn finish_decode<T>(parsed: Result<T, serde_json::Error>) -> (r: Result<T, JsonPayloadError>)
    ensures
        parsed matches Ok(v) ==> r == Ok::<T, JsonPayloadError>(v),
        parsed matches Err(e) ==> r == Err::<T, JsonPayloadError>(JsonPayloadError::Deserialize(e)),
{
    match parsed {
        Ok(v) => Ok(v),
        Err(e) => Err(JsonPayloadError::Deserialize(e)),
    }
}

/// Deserializes a complete body into the carrier. The only failure this step
/// can add is `Deserialize`.
pub fn decode_json_bytes<T: serde::de::DeserializeOwned>(bytes: &Vec<u8>) -> (r: Result<
    Json<T>,
    JsonPayloadError,
>)
    ensures
        r matches Err(e) ==> e is Deserialize,
{
    let parsed = json_from_slice::<T>(bytes.as_slice());
    match finish_decode(parsed) {
        Ok(v) => Ok(Json(v)),
        Err(e) => Err(e),
    }
}

/// Deserializes a complete body and runs the value's declared validation
/// rules. The only failures this step can add are `Deserialize` and
/// `ValidationFailed`.
pub fn decode_json_valid_bytes<T: serde::de::DeserializeOwned + Validate>(bytes: &Vec<u8>) -> (r:
    Result<JsonValid<T>, JsonPayloadError>)
    ensures
        r matches Err(e) ==> e is Deserialize || e is ValidationFailed,
{
    let parsed = json_from_slice::<T>(bytes.as_slice());
    match finish_decode(parsed) {
        Ok(v) => {
            let verdict = v.validate();
            apply_validation(v, verdict)
        },
        Err(e) => Err(e),
    }
}

/// How a decode result relates to the read outcome that preceded it: every
/// failure of the reader is returned exactly as it is; a completely read
/// body goes to the deserializer, so the result is a value or a
/// `Deserialize` failure.
pub open spec fn spec_decode_follows<T>(
    r: Result<Json<T>, JsonPayloadError>,
    read: Result<Seq<u8>, JsonPayloadError>,
) -> bool {
    match read {
        Ok(_) => r matches Ok(_) || (r matches Err(e) && e is Deserialize),
        Err(e) => r == Err::<Json<T>, JsonPayloadError>(e),
    }
}

/// As `spec_decode_follows`, for the validated pipeline, which can also end
/// in `ValidationFailed`.
pub open spec fn spec_decode_valid_follows<T>(
    r: Result<JsonValid<T>, JsonPayloadError>,
    read: Result<Seq<u8>, JsonPayloadError>,
) -> bool {
    match read {
        Ok(_) => r matches Ok(_) || (r matches Err(e) && (e is Deserialize
            || e is ValidationFailed)),
        Err(e) => r == Err::<JsonValid<T>, JsonPayloadError>(e),
    }
}

/// Runs the whole pipeline over an already-collected chunk list: the
/// content-type gate first, then the bounded read, then deserialization.
/// A missing content type is rejected exactly when one is required; a
/// media type that is not JSON-shaped is rejected unless a configured
/// predicate accepted it.
pub fn extract<T: serde::de::DeserializeOwned, P: MimePredicate>(
    config: &JsonConfig<P>,
    mime: Option<&MimeType>,
    declared_length: Option<usize>,
    chunks: &Vec<Vec<u8>>,
) -> (r: Result<Json<T>, JsonPayloadError>)
    ensures
        ({
            let read = spec_read_outcome(config.limit, declared_length, spec_chunk_views(chunks@));
            &&& (mime is None && config.content_type_required) ==> r == Err::<
                Json<T>,
                JsonPayloadError,
            >(JsonPayloadError::ContentType)
            &&& (mime is None && !config.content_type_required) ==> spec_decode_follows(r, read)
            &&& (mime matches Some(m) && spec_is_json_mime(*m)) ==> spec_decode_follows(r, read)
            &&& (mime matches Some(m) && !spec_is_json_mime(*m) && config.content_type is None)
                ==> r == Err::<Json<T>, JsonPayloadError>(JsonPayloadError::ContentType)
            &&& (mime matches Some(m) && !spec_is_json_mime(*m) && config.content_type is Some)
                ==> (r == Err::<Json<T>, JsonPayloadError>(JsonPayloadError::ContentType)
                || spec_decode_follows(r, read))
        }),
{
    let ok = content_type_ok(mime, config.content_type.as_ref(), config.content_type_required);
    if !ok {
        return Err(JsonPayloadError::ContentType);
    }
    match read_all(config.limit, declared_length, chunks) {
        Ok(bytes) => decode_json_bytes(&bytes),
        Err(e) => Err(e),
    }
}

/// As `extract`, through the validated pipeline: a decoded value must also
/// pass its declared validation rules.
pub fn extract_valid<T: serde::de::DeserializeOwned + Validate, P: MimePredicate>(
    config: &JsonConfig<P>,
    mime: Option<&MimeType>,
    declared_length: Option<usize>,
    chunks: &Vec<Vec<u8>>,
) -> (r: Result<JsonValid<T>, JsonPayloadError>)
    ensures
        ({
            let read = spec_read_outcome(config.limit, declared_length, spec_chunk_views(chunks@));
            &&& (mime is None && config.content_type_required) ==> r == Err::<
                JsonValid<T>,
                JsonPayloadError,
            >(JsonPayloadError::ContentType)
            &&& (mime is None && !config.content_type_required) ==> spec_decode_valid_follows(
                r,
                read,
            )
            &&& (mime matches Some(m) && spec_is_json_mime(*m)) ==> spec_decode_valid_follows(
                r,
                read,
            )
            &&& (mime matches Some(m) && !spec_is_json_mime(*m) && config.content_type is None)
                ==> r == Err::<JsonValid<T>, JsonPayloadError>(JsonPayloadError::ContentType)
            &&& (mime matches Some(m) && !spec_is_json_mime(*m) && config.content_type is Some)
                ==> (r == Err::<JsonValid<T>, JsonPayloadError>(JsonPayloadError::ContentType)
                || spec_decode_valid_follows(r, read))
        }),
{
    let ok = content_type_ok(mime, config.content_type.as_ref(), config.content_type_required);
    if !ok {
        return Err(JsonPayloadError::ContentType);
    }
    match read_all(config.limit, declared_length, chunks) {
        Ok(bytes) => decode_json_valid_bytes(&bytes),
        Err(e) => Err(e),
    }
}

} // verus!
