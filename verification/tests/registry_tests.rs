use pkg_export_container::error::ExportError;
use pkg_export_container::registry::{Credentials, RegistryType};

#[test]
fn registry_keywords_parse_to_their_kind() {
    assert!(matches!(RegistryType::parse("amazon"), Ok(RegistryType::Amazon)));
    assert!(matches!(RegistryType::parse("azure"), Ok(RegistryType::Azure)));
    assert!(matches!(RegistryType::parse("docker"), Ok(RegistryType::Docker)));
    match RegistryType::parse("gcr") {
        Err(ExportError::InvalidRegistryType { value }) => assert_eq!(value, "gcr"),
        other => panic!("wrong result: {:?}", other),
    }
}

#[test]
fn registry_variants_list_every_keyword() {
    assert_eq!(RegistryType::variants(), ["amazon", "azure", "docker"]);
}

#[test]
fn registry_kind_prints_its_keyword() {
    assert_eq!(RegistryType::Amazon.as_text(), "amazon");
    assert_eq!(RegistryType::Azure.as_text(), "azure");
    assert_eq!(RegistryType::Docker.as_text(), "docker");
}

#[test]
fn generic_credentials_encode_username_and_password() {
    let c = Credentials::from_username_password("username", "password");
    assert_eq!(c.token, base64::encode("username:password"));
    assert_eq!(c.token, "dXNlcm5hbWU6cGFzc3dvcmQ=");
}

#[test]
fn empty_credentials_still_encode_the_separator() {
    let c = Credentials::from_username_password("", "");
    assert_eq!(c.token, base64::encode(":"));
}

#[test]
fn ecr_response_takes_the_first_token() {
    let c = Credentials::from_ecr_response(Some(vec![
        Some(String::from("first")),
        Some(String::from("second")),
    ]))
    .unwrap();
    assert_eq!(c.token, "first");
}

#[test]
fn ecr_response_without_tokens_is_an_error() {
    assert!(matches!(
        Credentials::from_ecr_response(None),
        Err(ExportError::NoECRTokensReturned)
    ));
    assert!(matches!(
        Credentials::from_ecr_response(Some(vec![])),
        Err(ExportError::NoECRTokensReturned)
    ));
    assert!(matches!(
        Credentials::from_ecr_response(Some(vec![None])),
        Err(ExportError::NoECRTokensReturned)
    ));
}

#[test]
fn error_messages_name_their_cause() {
    let e = ExportError::Resolution { reference: String::from("doesnotexist/pkg") };
    assert_eq!(e.message(), "cannot resolve component reference: doesnotexist/pkg");
    let e = ExportError::NoECRTokensReturned;
    assert_eq!(e.message(), "the registry returned no authorization token");
}
