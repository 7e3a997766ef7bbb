use sts_credentials_provider::error::NO_CREDENTIALS_MESSAGE;
use sts_credentials_provider::issuer::{credentials_from_response, PROVIDER_NAME};
use sts_credentials_provider::{IssuedCredentials, IssuerError, IssuerResponse, Timestamp};

fn material(
    access_key_id: Option<&str>,
    secret_access_key: Option<&str>,
    session_token: Option<&str>,
    expiration: Option<Timestamp>,
) -> IssuerResponse {
    IssuerResponse::Answered {
        credentials: Some(IssuedCredentials {
            access_key_id: access_key_id.map(String::from),
            secret_access_key: secret_access_key.map(String::from),
            session_token: session_token.map(String::from),
            expiration,
        }),
    }
}

#[test]
fn complete_answer_becomes_a_credential() {
    let expiry = Timestamp::from_secs_and_nanos(1_700_003_600, 250).unwrap();
    let response = material(Some("AKID"), Some("SECRET"), Some("TOKEN"), Some(expiry));
    let credentials = credentials_from_response(response).unwrap();
    assert_eq!(credentials.access_key_id(), "AKID");
    assert_eq!(credentials.secret_access_key(), "SECRET");
    assert_eq!(credentials.session_token(), Some("TOKEN"));
    assert_eq!(credentials.expiry(), Some(expiry));
    assert_eq!(credentials.provider_name(), "STSCredentialsProvider");
    assert_eq!(PROVIDER_NAME, "STSCredentialsProvider");
}

#[test]
fn token_and_expiry_may_be_missing() {
    let response = material(Some("AKID"), Some("SECRET"), None, None);
    let credentials = credentials_from_response(response).unwrap();
    assert_eq!(credentials.access_key_id(), "AKID");
    assert_eq!(credentials.secret_access_key(), "SECRET");
    assert_eq!(credentials.session_token(), None);
    assert_eq!(credentials.expiry(), None);
}

#[test]
fn answer_without_material_is_no_credential() {
    let response = IssuerResponse::Answered { credentials: None };
    match credentials_from_response(response) {
        Err(error) => assert_eq!(error, IssuerError::NoCredentialReturned),
        Ok(_) => panic!("an empty answer gave a credential"),
    }
}

#[test]
fn answer_without_access_key_id_is_no_credential() {
    let response = material(None, Some("SECRET"), Some("TOKEN"), Some(Timestamp::from_secs(9)));
    match credentials_from_response(response) {
        Err(error) => assert_eq!(error, IssuerError::NoCredentialReturned),
        Ok(_) => panic!("an answer without a key id gave a credential"),
    }
}

#[test]
fn answer_without_secret_key_is_no_credential() {
    let response = material(Some("AKID"), None, Some("TOKEN"), Some(Timestamp::from_secs(9)));
    match credentials_from_response(response) {
        Err(error) => assert_eq!(error, IssuerError::NoCredentialReturned),
        Ok(_) => panic!("an answer without a secret key gave a credential"),
    }
}

#[test]
fn failed_call_keeps_its_cause() {
    let response = IssuerResponse::Failed { cause: String::from("503 from STS") };
    match credentials_from_response(response) {
        Err(error) => assert_eq!(
            error,
            IssuerError::IssuerUnavailable { cause: String::from("503 from STS") }
        ),
        Ok(_) => panic!("a failed call gave a credential"),
    }
}

#[test]
fn messages_describe_the_failure() {
    let unavailable = IssuerError::IssuerUnavailable { cause: String::from("timed out") };
    assert_eq!(unavailable.message(), "timed out");
    assert_eq!(
        IssuerError::NoCredentialReturned.message(),
        "STS Assume Role returned no credentials"
    );
    assert_eq!(NO_CREDENTIALS_MESSAGE, "STS Assume Role returned no credentials");
}

#[test]
fn cloned_credential_is_equal() {
    let response = material(Some("AKID"), Some("SECRET"), Some("TOKEN"), Some(Timestamp::from_secs(5)));
    let credentials = credentials_from_response(response).unwrap();
    let copy = credentials.clone();
    assert!(copy == credentials);
    assert_eq!(copy.access_key_id(), "AKID");
    assert_eq!(copy.secret_access_key(), "SECRET");
    assert_eq!(copy.session_token(), Some("TOKEN"));
    assert_eq!(copy.expiry(), Some(Timestamp::from_secs(5)));
    assert_eq!(copy.provider_name(), "STSCredentialsProvider");
}
