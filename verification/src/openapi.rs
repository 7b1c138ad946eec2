//! The REST surface's OpenAPI description.
//!
//! The service exposes two REST operations — a health probe and a signup —
//! and publishes their OpenAPI 3.0 description as a JSON document. The
//! document is fixed at build time; producing it cannot fail. Writing it
//! to disk belongs to the surrounding service: this module produces the
//! text and rejects a target that cannot name a file.

use vstd::prelude::*;

verus! {

/// A signup request, as the REST interface receives it.
#[derive(Clone, Debug)]
pub struct SignupRequest {
    /// The email to use.
    pub email: String,
    /// The display name to use.
    pub display_name: String,
}

/// Why an OpenAPI description could not be published.
#[derive(Clone, Copy, Debug, PartialEq, Eq, Structural)]
pub enum OpenApiError {
    /// The document could not be exported as a JSON string.
    Json,
    /// The document could not be written to its target file.
    FileWrite,
}

impl OpenApiError {
    /// The human-readable message of this error.
    pub open spec fn message_spec(&self) -> Seq<char> {
        match self {
            OpenApiError::Json => "Failed to export as JSON string"@,
            OpenApiError::FileWrite => "Failed to write to file"@,
        }
    }

    /// The human-readable message of this error.
    pub fn message(&self) -> (r: String)
        ensures
            r@ == self.message_spec(),
    {
        match self {
            OpenApiError::Json => "Failed to export as JSON string".to_owned(),
            OpenApiError::FileWrite => "Failed to write to file".to_owned(),
        }
    }
}

/// The service's OpenAPI description: the health probe and the signup
/// operation, with the signup request schema.
#[derive(Clone, Copy, Debug)]
pub struct ApiDoc;

/// The pretty-printed JSON text of the service's OpenAPI description.
pub open spec fn openapi_document_text() -> Seq<char> {
    "{\n  \"openapi\": \"3.0.3\",\n  \"info\": {\n    \"title\": \"svc-contact\",\n    \"description\": \"svc-contact REST API\",\n    \"version\": \"1.0.0\"\n  },\n  \"paths\": {\n    \"/health\": {\n      \"get\": {\n        \"tags\": [\n          \"svc-contact\"\n        ],\n        \"responses\": {\n          \"200\": {\n            \"description\": \"Service is healthy, all dependencies running.\"\n          },\n          \"503\": {\n            \"description\": \"Service is unhealthy, one or more dependencies unavailable.\"\n          }\n        }\n      }\n    },\n    \"/contact/signup\": {\n      \"post\": {\n        \"tags\": [\n          \"svc-contact\"\n        ],\n        \"requestBody\": {\n          \"content\": {\n            \"application/json\": {\n              \"schema\": {\n                \"$ref\": \"#/components/schemas/SignupRequest\"\n              }\n            }\n          },\n          \"required\": true\n        },\n        \"responses\": {\n          \"200\": {\n            \"description\": \"Request successful.\",\n            \"content\": {\n              \"application/json\": {\n                \"schema\": {\n                  \"type\": \"string\"\n                }\n              }\n            }\n          },\n          \"500\": {\n            \"description\": \"Request unsuccessful.\"\n          }\n        }\n      }\n    }\n  },\n  \"components\": {\n    \"schemas\": {\n      \"SignupRequest\": {\n        \"type\": \"object\",\n        \"required\": [\n          \"email\",\n          \"display_name\"\n        ],\n        \"properties\": {\n          \"email\": {\n            \"type\": \"string\",\n            \"description\": \"The email to use\"\n          },\n          \"display_name\": {\n            \"type\": \"string\",\n            \"description\": \"The display name to use\"\n          }\n        }\n      }\n    }\n  }\n}"@
}

impl ApiDoc {
    /// The JSON text of the description, as [`openapi_document_text`]
    /// states.
    pub fn openapi_json() -> (r: String)
        ensures
            r@ == openapi_document_text(),
    {
        "{\n  \"openapi\": \"3.0.3\",\n  \"info\": {\n    \"title\": \"svc-contact\",\n    \"description\": \"svc-contact REST API\",\n    \"version\": \"1.0.0\"\n  },\n  \"paths\": {\n    \"/health\": {\n      \"get\": {\n        \"tags\": [\n          \"svc-contact\"\n        ],\n        \"responses\": {\n          \"200\": {\n            \"description\": \"Service is healthy, all dependencies running.\"\n          },\n          \"503\": {\n            \"description\": \"Service is unhealthy, one or more dependencies unavailable.\"\n          }\n        }\n      }\n    },\n    \"/contact/signup\": {\n      \"post\": {\n        \"tags\": [\n          \"svc-contact\"\n        ],\n        \"requestBody\": {\n          \"content\": {\n            \"application/json\": {\n              \"schema\": {\n                \"$ref\": \"#/components/schemas/SignupRequest\"\n              }\n            }\n          },\n          \"required\": true\n        },\n        \"responses\": {\n          \"200\": {\n            \"description\": \"Request successful.\",\n            \"content\": {\n              \"application/json\": {\n                \"schema\": {\n                  \"type\": \"string\"\n                }\n              }\n            }\n          },\n          \"500\": {\n            \"description\": \"Request unsuccessful.\"\n          }\n        }\n      }\n    }\n  },\n  \"components\": {\n    \"schemas\": {\n      \"SignupRequest\": {\n        \"type\": \"object\",\n        \"required\": [\n          \"email\",\n          \"display_name\"\n        ],\n        \"properties\": {\n          \"email\": {\n            \"type\": \"string\",\n            \"description\": \"The email to use\"\n          },\n          \"display_name\": {\n            \"type\": \"string\",\n            \"description\": \"The display name to use\"\n          }\n        }\n      }\n    }\n  }\n}".to_owned()
    }
}

/// Whether `t` can name a file to write the description to: non-empty and
/// not ending in a path separator.
pub open spec fn valid_spec_target(t: Seq<char>) -> bool {
    t.len() > 0 && t.last() != '/'
}

/// Produces the OpenAPI description for the caller to write to `target`:
/// the document text on success, `FileWrite` when `target` is empty or
/// names a directory and so cannot name a file. Exporting the fixed
/// document itself cannot fail, so `Json` is never returned.
pub fn generate_openapi_spec(target: &str) -> (r: Result<String, OpenApiError>)
    ensures
        match r {
            Ok(s) => valid_spec_target(target@) && s@ == openapi_document_text(),
            Err(e) => !valid_spec_target(target@) && e == OpenApiError::FileWrite,
        },
{
    let n = target.unicode_len();
    if n == 0 {
        return Err(OpenApiError::FileWrite);
    }
    let last = target.get_char(n - 1);
    if last == '/' {
        return Err(OpenApiError::FileWrite);
    }
    Ok(ApiDoc::openapi_json())
}

} // verus!
