use pkg_export_container::rbac::{
    classify_response, preparing_message, should_proceed, UpdateRoleResponse,
};
use pkg_export_container::supervisor::Secret;

#[test]
fn the_secret_subcommand_generates() {
    assert!(matches!(Secret::Generate, Secret::Generate));
}

#[test]
fn prompting_gates_the_update() {
    assert!(should_proceed(true, false));
    assert!(should_proceed(true, true));
    assert!(should_proceed(false, true));
    assert!(!should_proceed(false, false));
}

#[test]
fn the_preparing_line_names_member_role_and_origin() {
    assert_eq!(
        preparing_message("jdoe", "maintainer", "core"),
        "Preparing to update member jdoe's role to 'maintainer' in origin core"
    );
}

#[test]
fn a_successful_update_is_reported() {
    let outcome = classify_response(&UpdateRoleResponse::Updated);
    assert!(outcome.success);
    assert_eq!(outcome.messages, vec!["Updated the member role successfully!"]);
}

#[test]
fn a_forbidden_answer_explains_privileges() {
    let outcome = classify_response(&UpdateRoleResponse::ApiError {
        status: 403,
        message: String::from("forbidden"),
    });
    assert!(!outcome.success);
    assert_eq!(outcome.messages.len(), 2);
    assert_eq!(outcome.messages[0], "Failed to update the role!");
    assert!(outcome.messages[1].contains("sufficient privileges"));
}

#[test]
fn a_missing_target_explains_the_name() {
    let outcome = classify_response(&UpdateRoleResponse::ApiError {
        status: 404,
        message: String::from("not found"),
    });
    assert!(!outcome.success);
    assert!(outcome.messages[1].contains("invalid member or origin name"));
}

#[test]
fn any_other_failure_surfaces_the_cause() {
    let outcome = classify_response(&UpdateRoleResponse::ApiError {
        status: 500,
        message: String::from("internal error"),
    });
    assert!(!outcome.success);
    assert_eq!(outcome.messages, vec!["Failed to update the role! internal error"]);
    let outcome = classify_response(&UpdateRoleResponse::TransportError {
        message: String::from("connection refused"),
    });
    assert!(!outcome.success);
    assert_eq!(outcome.messages, vec!["Failed to update the role! connection refused"]);
}
