use vstd::prelude::*;
use vstd::string::StringExecFns;
use crate::errors::JsonPayloadError;

verus! {

/// Transparent carrier for a decoded value that ran through the pipeline
/// without a separate validation step.
pub struct Json<T>(pub T);

impl<T> Json<T> {
    /// Unwrap into inner `T` value.
    pub fn into_inner(self) -> (r: T)
        ensures
            r == self.0,
    {
        self.0
    }

    /// Borrow the inner value.
    pub fn get(&self) -> (r: &T)
        ensures
            *r == self.0,
    {
        &self.0
    }
}

/// What the host needs to send a carrier back out: a status code, a
/// content-type header value, and the serialized text body.
pub struct JsonResponse {
    pub status: u16,
    pub content_type: String,
    pub body: String,
}

/// Relies on serde_json::to_string: serializes a value to JSON text.
#[verifier::external_body]
fn json_to_string<T: serde::Serialize>(value: &T) -> (r: Result<String, serde_json::Error>) {
    serde_json::to_string(value)
}

/// Builds the response for a serialization outcome: JSON text becomes an OK
/// response with the JSON content type and that text as body; a
/// serialization failure becomes the `Serialize` error.
pub fn build_response(serialized: Result<String, serde_json::Error>) -> (r: Result<
    JsonResponse,
    JsonPayloadError,
>)
    ensures
        serialized matches Ok(body) ==> (r matches Ok(resp) && resp.status == 200
            && resp.content_type@ == "application/json"@ && resp.body == body),
        serialized matches Err(e) ==> r == Err::<JsonResponse, JsonPayloadError>(
            JsonPayloadError::Serialize(e),
        ),
{
    match serialized {
        Ok(body) => Ok(
            JsonResponse {
                status: 200,
                content_type: String::from_str("application/json"),
                body,
            },
        ),
        Err(e) => Err(JsonPayloadError::Serialize(e)),
    }
}

impl<T: serde::Serialize> Json<T> {
    /// Creates a response with OK status code, the JSON content type, and
    /// the serialized payload as body; a value that fails to serialize is
    /// reported as `Serialize` instead of propagating a panic.
    pub fn respond_to(self) -> (r: Result<JsonResponse, JsonPayloadError>)
        ensures
            r matches Ok(resp) ==> resp.status == 200 && resp.content_type@
                == "application/json"@,
            r matches Err(e) ==> e is Serialize,
    {
        let serialized = json_to_string(&self.0);
        build_response(serialized)
    }
}

} // verus!
