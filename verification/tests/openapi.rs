use svc_contact::openapi::{generate_openapi_spec, ApiDoc, OpenApiError, SignupRequest};
use svc_contact::server::{CargoConfirmationRequest, CargoConfirmationResponse, GrpcClients, ServerImpl};

#[test]
fn test_generate_openapi_spec() {
    let target = "/nonsense/";
    let error = generate_openapi_spec(target).unwrap_err();
    assert_eq!(error, OpenApiError::FileWrite);
}

#[test]
fn test_generate_openapi_spec_valid_target() {
    let document = generate_openapi_spec("openapi.json").unwrap();
    assert!(document.starts_with("{\n  \"openapi\": \"3.0.3\""));
    assert!(document.contains("svc-contact"));
    assert!(document.contains("/health"));
    assert!(document.contains("/contact/signup"));
    assert!(document.contains("SignupRequest"));
    assert_eq!(document, ApiDoc::openapi_json());

    let error = generate_openapi_spec("").unwrap_err();
    assert_eq!(error, OpenApiError::FileWrite);
}

#[test]
fn test_openapi_error_messages() {
    assert_eq!(OpenApiError::Json.message(), "Failed to export as JSON string");
    assert_eq!(OpenApiError::FileWrite.message(), "Failed to write to file");
}

#[test]
fn test_server_records() {
    let request = CargoConfirmationRequest {
        itinerary_id: "itinerary".to_string(),
        parcel_id: "parcel".to_string(),
    };
    assert_eq!(request.parcel_id, "parcel");

    let response = CargoConfirmationResponse { success: true };
    assert!(response.success);

    let _clients = GrpcClients::default();
    let _server = ServerImpl::default();

    let signup = SignupRequest {
        email: "test@aetheric.nl".to_string(),
        display_name: "test".to_string(),
    };
    assert_eq!(signup.email, "test@aetheric.nl");
    assert_eq!(signup.display_name, "test");
}
