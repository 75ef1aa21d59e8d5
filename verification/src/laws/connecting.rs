//! Saved connections and their credentials.

use vstd::prelude::*;
use crate::home::{
    CredentialResolutionError, ErrorCauseModel, SshParamsModel, TelnetParamsModel, WorkspaceModel,
    chain_text, first_missing, refusal_text, ssh_asking, telnet_asking, telnet_without_credential,
    workspace_of,
};

verus! {

/// Whether a cause says that the credential `id` is missing.
pub open spec fn says_missing(cause: ErrorCauseModel, id: i64) -> bool {
    cause.credential == Some(CredentialResolutionError::MissingCredential(id))
}

/// The missing credential of an error is the one of the outermost cause that says so.
pub proof fn law_the_outermost_cause_counts(causes: Seq<ErrorCauseModel>, k: int, id: i64)
    ensures
        0 <= k < causes.len() && says_missing(causes[k], id) && (forall|j: int, other: i64|
            0 <= j < k ==> !#[trigger] says_missing(causes[j], other)) ==> first_missing(causes)
            == Some(id),
        (forall|j: int, other: i64|
            0 <= j < causes.len() ==> !#[trigger] says_missing(causes[j], other))
            ==> first_missing(causes) is None,
    decreases causes.len(),
{
    if causes.len() > 0 {
        let rest = causes.drop_first();
        law_the_outermost_cause_counts(rest, k - 1, id);
        if 0 <= k < causes.len() && says_missing(causes[k], id) && (forall|j: int, other: i64|
            0 <= j < k ==> !#[trigger] says_missing(causes[j], other)) {
            if k > 0 {
                assert(rest[k - 1] == causes[k]);
                assert forall|j: int, other: i64| 0 <= j < k - 1 implies !#[trigger] says_missing(
                    rest[j],
                    other,
                ) by {
                    assert(rest[j] == causes[j + 1]);
                    assert(!says_missing(causes[j + 1], other));
                }
                if let Some(CredentialResolutionError::MissingCredential(other))
                    = causes[0].credential {
                    assert(says_missing(causes[0], other));
                }
            }
        }
        if forall|j: int, other: i64|
            0 <= j < causes.len() ==> !#[trigger] says_missing(causes[j], other) {
            assert forall|j: int, other: i64| 0 <= j < rest.len() implies !#[trigger] says_missing(
                rest[j],
                other,
            ) by {
                assert(rest[j] == causes[j + 1]);
                assert(!says_missing(causes[j + 1], other));
            }
            if let Some(CredentialResolutionError::MissingCredential(other))
                = causes[0].credential {
                assert(says_missing(causes[0], other));
            }
        }
    }
}

/// What an error says is what its causes say, outermost first, with a colon and a space between
/// each two; a refusal says it behind its own words.
pub proof fn law_a_chain_is_told_in_order(causes: Seq<ErrorCauseModel>, cause: ErrorCauseModel)
    ensures
        causes.len() > 0 ==> chain_text(causes.push(cause)) == chain_text(causes) + ": "@
            + cause.message,
        causes.len() == 0 ==> chain_text(causes.push(cause)) == cause.message,
        refusal_text(causes) == "无法解析连接凭据："@ + chain_text(causes),
{
    assert(causes.push(cause).drop_last() =~= causes);
}

/// An SSH connection can be opened with a login that is typed in only where the missing
/// credential is the one of its login. It then refers to no stored credential, holds neither
/// name nor password, and asks for both.
pub proof fn law_ssh_logins_are_asked_for(params: SshParamsModel, missing: i64)
    ensures
        ({
            let asked = ssh_asking(params, missing);
            let reference = params.credential_reference;
            &&& asked is Ok <==> reference is Some && reference->0.credential_id == missing
            &&& asked is Ok ==> {
                &&& asked->Ok_0.credential_reference is None
                &&& asked->Ok_0.username.len() == 0
                &&& asked->Ok_0.auth_method is Password
                &&& asked->Ok_0.auth_method->password.len() == 0
                &&& asked->Ok_0.prompt_username == Some(true)
                &&& asked->Ok_0.prompt_password == Some(true)
            }
        }),
{
}

/// A Telnet connection can be opened with a login that is typed in only where the missing
/// credential is its own and its script waits for a name or a password. It then refers to no
/// stored credential, keeps its login script or gets one that waits for both, and asks for
/// what the script waits for and for nothing else.
pub proof fn law_telnet_logins_are_asked_for(
    params: TelnetParamsModel,
    missing: i64,
    username: bool,
    password: bool,
)
    ensures
        ({
            let without = telnet_without_credential(params, missing);
            let reference = params.credential_reference;
            &&& without is Ok <==> reference is Some && reference->0.credential_id == missing
            &&& without is Ok ==> {
                &&& without->Ok_0.credential_reference is None
                &&& params.login_script.len() > 0 ==> without->Ok_0.login_script
                    == params.login_script
                &&& params.login_script.len() == 0 ==> without->Ok_0.login_script.len() == 2
                &&& without->Ok_0.prompt_username == params.prompt_username
                &&& without->Ok_0.prompt_password == params.prompt_password
            }
        }),
        ({
            let asked = telnet_asking(params, username, password);
            &&& asked is Ok <==> username || password
            &&& asked is Ok ==> {
                &&& asked->Ok_0.prompt_username == Some(true) <==> username
                &&& asked->Ok_0.prompt_username is None <==> !username
                &&& asked->Ok_0.prompt_password == Some(true) <==> password
                &&& asked->Ok_0.prompt_password is None <==> !password
                &&& asked->Ok_0.credential_reference == params.credential_reference
                &&& asked->Ok_0.login_script == params.login_script
            }
        }),
{
}

/// The workspace of a connection is the first one with the id that the connection names; where
/// it names none, or none has that id, there is none.
pub proof fn law_the_first_workspace_counts(
    workspaces: Seq<WorkspaceModel>,
    id: Option<i64>,
    k: int,
)
    ensures
        id is None ==> workspace_of(workspaces, id) is None,
        id is Some && 0 <= k < workspaces.len() && workspaces[k].id == id && (forall|j: int|
            0 <= j < k ==> (#[trigger] workspaces[j]).id != id) ==> workspace_of(workspaces, id)
            == Some(workspaces[k]),
        (forall|j: int| 0 <= j < workspaces.len() ==> (#[trigger] workspaces[j]).id != id)
            ==> workspace_of(workspaces, id) is None,
    decreases workspaces.len(),
{
    if workspaces.len() > 0 && id is Some {
        let rest = workspaces.drop_first();
        law_the_first_workspace_counts(rest, id, k - 1);
        assert(forall|j: int| 0 <= j < rest.len() ==> #[trigger] rest[j] == workspaces[j + 1]);
        if 0 < k < workspaces.len() {
            assert(rest[k - 1] == workspaces[k]);
        }
        if forall|j: int| 0 <= j < k ==> (#[trigger] workspaces[j]).id != id {
            assert forall|j: int| 0 <= j < k - 1 && j < rest.len() implies (#[trigger] rest[j]).id
                != id by {
                assert(rest[j] == workspaces[j + 1]);
            }
        }
    }
}

} // verus!
