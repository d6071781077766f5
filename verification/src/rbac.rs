//! Decisions of the member-role update flow.
//!
//! The API call itself and the prompt are a driver's work; what to ask,
//! whether to proceed, and what each answer of the API means are decided
//! here.

use vstd::prelude::*;

verus! {

broadcast use vstd::string::group_string_axioms;

/// How the member-role update call ended, as the driver saw it.
#[derive(Debug, Clone, PartialEq, Eq)]
pub enum UpdateRoleResponse {
    /// The API accepted the update.
    Updated,
    /// The API answered with an error status.
    ApiError { status: u16, message: String },
    /// The call could not be made at all.
    TransportError { message: String },
}

/// What the flow reports for one response: whether the update stands, and
/// the lines to show, in order.
#[derive(Debug)]
pub struct UpdateRoleOutcome {
    pub success: bool,
    pub messages: Vec<String>,
}

/// Whether the update proceeds: always when prompting was declined,
/// otherwise only on a confirmed prompt.
pub fn should_proceed(no_prompt: bool, confirmed: bool) -> (r: bool)
    ensures
        r == (no_prompt || confirmed),
{
    no_prompt || confirmed
}

/// The line announcing the update about to be made.
pub fn preparing_message(member_account: &str, role: &str, origin: &str) -> (r: String)
    ensures
        r@ == "Preparing to update member "@ + member_account@ + "'s role to '"@ + role@
            + "' in origin "@ + origin@,
{
    proof {
        reveal_strlit("Preparing to update member ");
        reveal_strlit("'s role to '");
        reveal_strlit("' in origin ");
    }
    let r = String::from_str("Preparing to update member ").concat(member_account).concat(
        "'s role to '",
    ).concat(role).concat("' in origin ").concat(origin);
    proof {
        assert(r@ =~= "Preparing to update member "@ + member_account@ + "'s role to '"@ + role@
            + "' in origin "@ + origin@);
    }
    r
}

/// What one API answer means: success reports it; a denied or missing
/// target explains itself; anything else surfaces the underlying cause.
pub fn classify_response(response: &UpdateRoleResponse) -> (r: UpdateRoleOutcome)
    ensures
        match response {
            UpdateRoleResponse::Updated => r.success && r.messages.deep_view() == seq![
                "Updated the member role successfully!"@,
            ],
            UpdateRoleResponse::ApiError { status, message } => !r.success && (if *status == 403 {
                r.messages.deep_view() == seq![
                    "Failed to update the role!"@,
                    "This situation could arise, if for example, you are not a member with sufficient privileges in the origin."@,
                ]
            } else if *status == 404 {
                r.messages.deep_view() == seq![
                    "Failed to update the role!"@,
                    "This situation could arise, if for example, you passed a invalid member or origin name."@,
                ]
            } else {
                r.messages.deep_view() == seq!["Failed to update the role! "@ + message@]
            }),
            UpdateRoleResponse::TransportError { message } => !r.success
                && r.messages.deep_view() == seq!["Failed to update the role! "@ + message@],
        },
{
    let mut messages: Vec<String> = Vec::new();
    match response {
        UpdateRoleResponse::Updated => {
            messages.push(String::from_str("Updated the member role successfully!"));
            proof {
                assert(messages.deep_view() =~= seq!["Updated the member role successfully!"@]);
            }
            UpdateRoleOutcome { success: true, messages }
        },
        UpdateRoleResponse::ApiError { status, message } => {
            if *status == 403 {
                messages.push(String::from_str("Failed to update the role!"));
                messages.push(
                    String::from_str(
                        "This situation could arise, if for example, you are not a member with sufficient privileges in the origin.",
                    ),
                );
                proof {
                    assert(messages.deep_view() =~= seq![
                        "Failed to update the role!"@,
                        "This situation could arise, if for example, you are not a member with sufficient privileges in the origin."@,
                    ]);
                }
            } else if *status == 404 {
                messages.push(String::from_str("Failed to update the role!"));
                messages.push(
                    String::from_str(
                        "This situation could arise, if for example, you passed a invalid member or origin name.",
                    ),
                );
                proof {
                    assert(messages.deep_view() =~= seq![
                        "Failed to update the role!"@,
                        "This situation could arise, if for example, you passed a invalid member or origin name."@,
                    ]);
                }
            } else {
                proof {
                    reveal_strlit("Failed to update the role! ");
                }
                let line = String::from_str("Failed to update the role! ").concat(
                    message.as_str(),
                );
                messages.push(line);
                proof {
                    assert(messages.deep_view() =~= seq![
                        "Failed to update the role! "@ + message@,
                    ]);
                }
            }
            UpdateRoleOutcome { success: false, messages }
        },
        UpdateRoleResponse::TransportError { message } => {
            proof {
                reveal_strlit("Failed to update the role! ");
            }
            let line = String::from_str("Failed to update the role! ").concat(message.as_str());
            messages.push(line);
            proof {
                assert(messages.deep_view() =~= seq!["Failed to update the role! "@ + message@]);
            }
            UpdateRoleOutcome { success: false, messages }
        },
    }
}

} // verus!
