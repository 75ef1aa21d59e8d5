//! Opening saved connections from the home page.
//!
//! What reaches storage, windows and other programs happens outside. Its outcomes come in
//! as arguments, and what is to happen next goes out as a result.

use vstd::prelude::*;
use crate::labels::{Label, LabelModel};
use crate::text::join;

verus! {

/// The kind of a connection.
#[derive(Debug)]
pub enum ConnectionType {
    SshSftp,
    Telnet,
    Rdp,
    Vnc,
    /// Another kind, by its name.
    Other(String),
}

impl ConnectionType {
    /// The name of the kind.
    pub open spec fn name_text(self) -> Seq<char> {
        match self {
            ConnectionType::SshSftp => "SshSftp"@,
            ConnectionType::Telnet => "Telnet"@,
            ConnectionType::Rdp => "Rdp"@,
            ConnectionType::Vnc => "Vnc"@,
            ConnectionType::Other(name) => name@,
        }
    }

    /// The name of the kind.
    pub fn name(&self) -> (r: &str)
        ensures
            r@ == self.name_text(),
    {
        match self {
            ConnectionType::SshSftp => "SshSftp",
            ConnectionType::Telnet => "Telnet",
            ConnectionType::Rdp => "Rdp",
            ConnectionType::Vnc => "Vnc",
            ConnectionType::Other(name) => name.as_str(),
        }
    }
}

/// Model of [`ConnectionType`].
#[verifier::ext_equal]
pub enum ConnectionTypeModel {
    SshSftp,
    Telnet,
    Rdp,
    Vnc,
    Other(Seq<char>),
}

impl DeepView for ConnectionType {
    type V = ConnectionTypeModel;

    open spec fn deep_view(&self) -> ConnectionTypeModel {
        match self {
            ConnectionType::SshSftp => ConnectionTypeModel::SshSftp,
            ConnectionType::Telnet => ConnectionTypeModel::Telnet,
            ConnectionType::Rdp => ConnectionTypeModel::Rdp,
            ConnectionType::Vnc => ConnectionTypeModel::Vnc,
            ConnectionType::Other(name) => ConnectionTypeModel::Other(name@),
        }
    }
}

impl Clone for ConnectionType {
    fn clone(&self) -> (r: ConnectionType)
        ensures
            r.deep_view() == self.deep_view(),
    {
        match self {
            ConnectionType::SshSftp => ConnectionType::SshSftp,
            ConnectionType::Telnet => ConnectionType::Telnet,
            ConnectionType::Rdp => ConnectionType::Rdp,
            ConnectionType::Vnc => ConnectionType::Vnc,
            ConnectionType::Other(name) => ConnectionType::Other(name.clone()),
        }
    }
}

/// A saved connection. Its parameters are kept as text.
#[derive(Debug)]
pub struct StoredConnection {
    pub id: Option<i64>,
    pub name: String,
    pub connection_type: ConnectionType,
    pub workspace_id: Option<i64>,
    pub params: String,
}

/// Model of [`StoredConnection`].
#[verifier::ext_equal]
pub struct StoredConnectionModel {
    pub id: Option<i64>,
    pub name: Seq<char>,
    pub connection_type: ConnectionTypeModel,
    pub workspace_id: Option<i64>,
    pub params: Seq<char>,
}

impl DeepView for StoredConnection {
    type V = StoredConnectionModel;

    open spec fn deep_view(&self) -> StoredConnectionModel {
        StoredConnectionModel {
            id: self.id,
            name: self.name@,
            connection_type: self.connection_type.deep_view(),
            workspace_id: self.workspace_id,
            params: self.params@,
        }
    }
}

impl Clone for StoredConnection {
    fn clone(&self) -> (r: StoredConnection)
        ensures
            r.deep_view() == self.deep_view(),
    {
        StoredConnection {
            id: self.id,
            name: self.name.clone(),
            connection_type: self.connection_type.clone(),
            workspace_id: self.workspace_id,
            params: self.params.clone(),
        }
    }
}

/// A workspace that connections belong to.
#[derive(Debug)]
pub struct Workspace {
    pub id: Option<i64>,
    pub name: String,
}

/// Model of [`Workspace`].
#[verifier::ext_equal]
pub struct WorkspaceModel {
    pub id: Option<i64>,
    pub name: Seq<char>,
}

impl DeepView for Workspace {
    type V = WorkspaceModel;

    open spec fn deep_view(&self) -> WorkspaceModel {
        WorkspaceModel {
            id: self.id,
            name: self.name@,
        }
    }
}

impl Clone for Workspace {
    fn clone(&self) -> (r: Workspace)
        ensures
            r.deep_view() == self.deep_view(),
    {
        Workspace {
            id: self.id,
            name: self.name.clone(),
        }
    }
}

/// How the tab of a connection is opened.
#[derive(Clone, Copy, PartialEq, Eq, Structural, Debug)]
pub enum TabOpenMode {
    Activate,
    Background,
}

/// Why a credential could not be had.
#[derive(Clone, Copy, PartialEq, Eq, Structural, Debug)]
pub enum CredentialResolutionError {
    /// The credential with this id is not on this device.
    MissingCredential(i64),
    /// Something else.
    Other,
}

/// One cause of an error: what it says, and whether it is about a credential.
#[derive(Debug)]
pub struct ErrorCause {
    pub message: String,
    pub credential: Option<CredentialResolutionError>,
}

/// Model of [`ErrorCause`].
#[verifier::ext_equal]
pub struct ErrorCauseModel {
    pub message: Seq<char>,
    pub credential: Option<CredentialResolutionError>,
}

impl DeepView for ErrorCause {
    type V = ErrorCauseModel;

    open spec fn deep_view(&self) -> ErrorCauseModel {
        ErrorCauseModel {
            message: self.message@,
            credential: self.credential,
        }
    }
}

/// An error with its causes, outermost first.
#[derive(Debug)]
pub struct ErrorReport {
    pub causes: Vec<ErrorCause>,
}

/// Model of [`ErrorReport`].
#[verifier::ext_equal]
pub struct ErrorReportModel {
    pub causes: Seq<ErrorCauseModel>,
}

impl DeepView for ErrorReport {
    type V = ErrorReportModel;

    open spec fn deep_view(&self) -> ErrorReportModel {
        ErrorReportModel {
            causes: self.causes.deep_view(),
        }
    }
}

/// The credential that one cause reports as missing.
pub open spec fn missing_in(cause: ErrorCauseModel) -> Option<i64> {
    match cause.credential {
        Some(CredentialResolutionError::MissingCredential(id)) => Some(id),
        _ => None,
    }
}

/// The credential that the first cause about a missing one reports.
pub open spec fn first_missing(causes: Seq<ErrorCauseModel>) -> Option<i64>
    decreases causes.len(),
{
    if causes.len() == 0 {
        None
    } else if missing_in(causes[0]) is Some {
        missing_in(causes[0])
    } else {
        first_missing(causes.drop_first())
    }
}

/// What all causes say, outermost first, with a colon between each two.
pub open spec fn chain_text(causes: Seq<ErrorCauseModel>) -> Seq<char>
    decreases causes.len(),
{
    if causes.len() == 0 {
        Seq::empty()
    } else if causes.len() == 1 {
        causes[0].message
    } else {
        chain_text(causes.drop_last()) + ": "@ + causes.last().message
    }
}

/// The credential that the first cause about a missing one reports.
pub fn missing_credential_id(error: &ErrorReport) -> (r: Option<i64>)
    ensures
        r == first_missing(error.deep_view().causes),
{
    let ghost all = error.causes.deep_view();
    let mut i: usize = 0;
    assert(all.skip(0) =~= all);
    while i < error.causes.len()
        invariant
            all == error.causes.deep_view(),
            i <= error.causes.len(),
            first_missing(all.skip(i as int)) == first_missing(all),
        decreases error.causes.len() - i,
    {
        assert(all[i as int] == error.causes@[i as int].deep_view());
        assert(all.skip(i as int)[0] == all[i as int]);
        assert(all.skip(i as int).drop_first() =~= all.skip(i + 1));
        if let Some(CredentialResolutionError::MissingCredential(id)) = error.causes[i].credential {
            return Some(id);
        }
        i = i + 1;
    }
    None
}

/// What all causes of an error say, outermost first, with a colon between each two.
pub fn describe_chain(error: &ErrorReport) -> (r: String)
    ensures
        r@ == chain_text(error.deep_view().causes),
{
    let ghost all = error.causes.deep_view();
    let mut r = String::new();
    let mut i: usize = 0;
    assert(all.take(0) =~= Seq::<ErrorCauseModel>::empty());
    while i < error.causes.len()
        invariant
            all == error.causes.deep_view(),
            i <= error.causes.len(),
            r@ == chain_text(all.take(i as int)),
        decreases error.causes.len() - i,
    {
        assert(all[i as int] == error.causes@[i as int].deep_view());
        assert(all.take(i + 1).drop_last() =~= all.take(i as int));
        assert(all.take(i + 1).last() == all[i as int]);
        let ghost held = r@;
        if i > 0 {
            r.append(": ");
        }
        r.append(error.causes[i].message.as_str());
        proof {
            if i == 0 {
                assert(r@ =~= all[0].message);
            } else {
                assert(r@ =~= held + ": "@ + all[i as int].message);
            }
        }
        i = i + 1;
    }
    assert(all.take(all.len() as int) =~= all);
    r
}

/// A credential that is missing is reported by some cause; where one is reported, it is
/// found.
pub proof fn law_missing_credential_is_reported(causes: Seq<ErrorCauseModel>)
    ensures
        first_missing(causes) is Some <==> exists|i: int|
            0 <= i < causes.len() && missing_in(#[trigger] causes[i]) is Some,
    decreases causes.len(),
{
    if causes.len() > 0 {
        let rest = causes.drop_first();
        law_missing_credential_is_reported(rest);
        if exists|i: int| 0 <= i < rest.len() && missing_in(#[trigger] rest[i]) is Some {
            let i = choose|i: int| 0 <= i < rest.len() && missing_in(#[trigger] rest[i]) is Some;
            assert(causes[i + 1] == rest[i]);
        }
        if exists|i: int| 0 <= i < causes.len() && missing_in(#[trigger] causes[i]) is Some {
            let i = choose|i: int| 0 <= i < causes.len() && missing_in(#[trigger] causes[i]) is Some;
            if i > 0 {
                assert(rest[i - 1] == causes[i]);
            }
        }
    }
}

/// What follows the attempt to get the credentials of a connection.
#[derive(Debug)]
pub enum CredentialStep {
    /// The connection can be opened.
    Open(StoredConnection),
    /// The credential is missing: the user may type it in, for this time only. Where that
    /// cannot be done, the user is told what is given.
    AskOnce { credential_id: i64, otherwise: String },
    /// The connection cannot be opened: the user is told why.
    Refuse(String),
}

/// What the user is told about credentials that cannot be had.
pub open spec fn refusal_text(causes: Seq<ErrorCauseModel>) -> Seq<char> {
    "无法解析连接凭据："@ + chain_text(causes)
}

/// Takes what came of getting the credentials of a connection from the storage. A missing
/// credential is asked for where there is a storage to work with; any other failure is
/// told to the user.
pub fn resolve_connection_credentials(
    result: Result<StoredConnection, ErrorReport>,
    has_repository: bool,
) -> (r: CredentialStep)
    ensures
        match result {
            Ok(connection) => r matches CredentialStep::Open(opened) && opened.deep_view()
                == connection.deep_view(),
            Err(error) => {
                let causes = error.deep_view().causes;
                if has_repository && first_missing(causes) is Some {
                    r matches CredentialStep::AskOnce { credential_id, otherwise } && credential_id
                        == first_missing(causes)->0 && otherwise@ == refusal_text(causes)
                } else {
                    r matches CredentialStep::Refuse(text) && text@ == refusal_text(causes)
                }
            },
        },
{
    match result {
        Ok(connection) => CredentialStep::Open(connection),
        Err(error) => {
            let otherwise = join("无法解析连接凭据：", describe_chain(&error).as_str());
            if has_repository {
                if let Some(credential_id) = missing_credential_id(&error) {
                    return CredentialStep::AskOnce { credential_id, otherwise };
                }
            }
            CredentialStep::Refuse(otherwise)
        },
    }
}

/// A reference to a stored credential.
#[derive(Clone, Copy, PartialEq, Eq, Structural, Debug)]
pub struct CredentialReference {
    pub credential_id: i64,
}

/// How an SSH connection authenticates.
#[derive(Debug)]
pub enum SshAuthMethod {
    Password { password: String },
    /// Another way, as its parameters say.
    Other(String),
}

/// Model of [`SshAuthMethod`].
#[verifier::ext_equal]
pub enum SshAuthMethodModel {
    Password { password: Seq<char> },
    Other(Seq<char>),
}

impl DeepView for SshAuthMethod {
    type V = SshAuthMethodModel;

    open spec fn deep_view(&self) -> SshAuthMethodModel {
        match self {
            SshAuthMethod::Password { password } => SshAuthMethodModel::Password {
                password: password@,
            },
            SshAuthMethod::Other(parameters) => SshAuthMethodModel::Other(parameters@),
        }
    }
}

/// The parameters of an SSH connection that concern its credential.
#[derive(Debug)]
pub struct SshParams {
    pub credential_reference: Option<CredentialReference>,
    pub username: String,
    pub auth_method: SshAuthMethod,
    pub prompt_username: Option<bool>,
    pub prompt_password: Option<bool>,
}

/// Model of [`SshParams`].
#[verifier::ext_equal]
pub struct SshParamsModel {
    pub credential_reference: Option<CredentialReference>,
    pub username: Seq<char>,
    pub auth_method: SshAuthMethodModel,
    pub prompt_username: Option<bool>,
    pub prompt_password: Option<bool>,
}

impl DeepView for SshParams {
    type V = SshParamsModel;

    open spec fn deep_view(&self) -> SshParamsModel {
        SshParamsModel {
            credential_reference: self.credential_reference,
            username: self.username@,
            auth_method: self.auth_method.deep_view(),
            prompt_username: self.prompt_username,
            prompt_password: self.prompt_password,
        }
    }
}

/// A step of a login: what is waited for, and what is sent then.
#[derive(Debug)]
pub struct TelnetLoginStep {
    pub expect: String,
    pub send: String,
}

/// Model of [`TelnetLoginStep`].
#[verifier::ext_equal]
pub struct TelnetLoginStepModel {
    pub expect: Seq<char>,
    pub send: Seq<char>,
}

impl DeepView for TelnetLoginStep {
    type V = TelnetLoginStepModel;

    open spec fn deep_view(&self) -> TelnetLoginStepModel {
        TelnetLoginStepModel {
            expect: self.expect@,
            send: self.send@,
        }
    }
}

/// The parameters of a Telnet connection that concern its credential.
#[derive(Debug)]
pub struct TelnetParams {
    pub credential_reference: Option<CredentialReference>,
    pub login_script: Vec<TelnetLoginStep>,
    pub prompt_username: Option<bool>,
    pub prompt_password: Option<bool>,
}

/// Model of [`TelnetParams`].
#[verifier::ext_equal]
pub struct TelnetParamsModel {
    pub credential_reference: Option<CredentialReference>,
    pub login_script: Seq<TelnetLoginStepModel>,
    pub prompt_username: Option<bool>,
    pub prompt_password: Option<bool>,
}

impl DeepView for TelnetParams {
    type V = TelnetParamsModel;

    open spec fn deep_view(&self) -> TelnetParamsModel {
        TelnetParamsModel {
            credential_reference: self.credential_reference,
            login_script: self.login_script.deep_view(),
            prompt_username: self.prompt_username,
            prompt_password: self.prompt_password,
        }
    }
}

/// The SSH parameters that have the user asked for name and password, where the missing
/// credential is the one of the login.
pub open spec fn ssh_asking(params: SshParamsModel, missing: i64) -> Result<
    SshParamsModel,
    Seq<char>,
> {
    match params.credential_reference {
        None => Err("the missing credential is not the primary SSH credential"@),
        Some(reference) => if reference.credential_id != missing {
            Err("the missing credential belongs to an SSH proxy or jump server"@)
        } else {
            Ok(
                SshParamsModel {
                    credential_reference: None,
                    username: Seq::empty(),
                    auth_method: SshAuthMethodModel::Password { password: Seq::empty() },
                    prompt_username: Some(true),
                    prompt_password: Some(true),
                },
            )
        },
    }
}

/// The SSH parameters that have the user asked for name and password, where the missing
/// credential is the one of the login.
pub fn temporary_ssh_params(params: SshParams, missing_credential_id: i64) -> (r: Result<
    SshParams,
    &'static str,
>)
    ensures
        match r {
            Ok(asking) => ssh_asking(params.deep_view(), missing_credential_id) == Ok::<
                SshParamsModel,
                Seq<char>,
            >(asking.deep_view()),
            Err(text) => ssh_asking(params.deep_view(), missing_credential_id) == Err::<
                SshParamsModel,
                Seq<char>,
            >(text@),
        },
{
    let reference = match params.credential_reference {
        Some(reference) => reference,
        None => {
            return Err("the missing credential is not the primary SSH credential");
        },
    };
    if reference.credential_id != missing_credential_id {
        return Err("the missing credential belongs to an SSH proxy or jump server");
    }
    Ok(
        SshParams {
            credential_reference: None,
            username: String::new(),
            auth_method: SshAuthMethod::Password { password: String::new() },
            prompt_username: Some(true),
            prompt_password: Some(true),
        },
    )
}

/// The login script that is used where a connection has none: it waits for the prompts for
/// name and password.
pub open spec fn default_login_script() -> Seq<TelnetLoginStepModel> {
    seq![
        TelnetLoginStepModel {
            expect: "(?i)(?:login|username|user\\s*name|account)\\s*[:>]\\s*$"@,
            send: Seq::empty(),
        },
        TelnetLoginStepModel {
            expect: "(?i)(?:password|passwd|passcode)\\s*[:>]\\s*$"@,
            send: Seq::empty(),
        },
    ]
}

/// The Telnet parameters without the missing credential, where it is the one of the login.
pub open spec fn telnet_without_credential(params: TelnetParamsModel, missing: i64) -> Result<
    TelnetParamsModel,
    Seq<char>,
> {
    match params.credential_reference {
        None => Err("the missing credential is not the Telnet login credential"@),
        Some(reference) => if reference.credential_id != missing {
            Err("the missing credential does not belong to this Telnet connection"@)
        } else {
            Ok(
                TelnetParamsModel {
                    credential_reference: None,
                    login_script: if params.login_script.len() == 0 {
                        default_login_script()
                    } else {
                        params.login_script
                    },
                    ..params
                },
            )
        },
    }
}

/// The Telnet parameters without the missing credential, where it is the one of the login.
/// A connection without a login script gets one.
pub fn temporary_telnet_params(params: TelnetParams, missing_credential_id: i64) -> (r: Result<
    TelnetParams,
    &'static str,
>)
    ensures
        match r {
            Ok(without) => telnet_without_credential(params.deep_view(), missing_credential_id)
                == Ok::<TelnetParamsModel, Seq<char>>(without.deep_view()),
            Err(text) => telnet_without_credential(params.deep_view(), missing_credential_id)
                == Err::<TelnetParamsModel, Seq<char>>(text@),
        },
{
    let reference = match params.credential_reference {
        Some(reference) => reference,
        None => {
            return Err("the missing credential is not the Telnet login credential");
        },
    };
    if reference.credential_id != missing_credential_id {
        return Err("the missing credential does not belong to this Telnet connection");
    }
    let mut params = params;
    params.credential_reference = None;
    if params.login_script.len() == 0 {
        params.login_script =
        vec![
            TelnetLoginStep {
                expect: "(?i)(?:login|username|user\\s*name|account)\\s*[:>]\\s*$".to_owned(),
                send: String::new(),
            },
            TelnetLoginStep {
                expect: "(?i)(?:password|passwd|passcode)\\s*[:>]\\s*$".to_owned(),
                send: String::new(),
            },
        ];
        assert(params.login_script.deep_view() =~= default_login_script());
    }
    Ok(params)
}

/// The Telnet parameters that have the user asked for what the login script waits for.
pub open spec fn telnet_asking(params: TelnetParamsModel, username: bool, password: bool) -> Result<
    TelnetParamsModel,
    Seq<char>,
> {
    if !username && !password {
        Err("unable to identify username or password prompts in the Telnet expect script"@)
    } else {
        Ok(
            TelnetParamsModel {
                prompt_username: if username {
                    Some(true)
                } else {
                    None
                },
                prompt_password: if password {
                    Some(true)
                } else {
                    None
                },
                ..params
            },
        )
    }
}

/// The Telnet parameters that have the user asked for what the login script waits for: a
/// name, a password, or both. It has to wait for one of them.
pub fn telnet_params_with_prompts(params: TelnetParams, prompt_username: bool, prompt_password: bool) -> (r:
    Result<TelnetParams, &'static str>)
    ensures
        match r {
            Ok(asking) => telnet_asking(params.deep_view(), prompt_username, prompt_password)
                == Ok::<TelnetParamsModel, Seq<char>>(asking.deep_view()),
            Err(text) => telnet_asking(params.deep_view(), prompt_username, prompt_password)
                == Err::<TelnetParamsModel, Seq<char>>(text@),
        },
{
    if !prompt_username && !prompt_password {
        return Err("unable to identify username or password prompts in the Telnet expect script");
    }
    let mut params = params;
    params.prompt_username = if prompt_username {
        Some(true)
    } else {
        None
    };
    params.prompt_password = if prompt_password {
        Some(true)
    } else {
        None
    };
    Ok(params)
}

/// What is needed to let the user type in a credential for one time.
#[derive(Clone, Copy, PartialEq, Eq, Structural, Debug)]
pub enum TemporaryPlan {
    /// The parameters as those of an SSH connection.
    Ssh,
    /// The parameters as those of a Telnet connection.
    Telnet,
}

/// What is needed to let the user type in a credential for one time. Only SSH and Telnet
/// connections can do that.
pub fn temporary_missing_credential_plan(connection: &StoredConnection) -> (r: Result<
    TemporaryPlan,
    String,
>)
    ensures
        match connection.deep_view().connection_type {
            ConnectionTypeModel::SshSftp => r == Ok::<TemporaryPlan, String>(TemporaryPlan::Ssh),
            ConnectionTypeModel::Telnet => r == Ok::<TemporaryPlan, String>(TemporaryPlan::Telnet),
            _ => r matches Err(text) && text@ == "temporary credential input is unsupported for "@
                + connection.connection_type.name_text(),
        },
{
    match &connection.connection_type {
        ConnectionType::SshSftp => Ok(TemporaryPlan::Ssh),
        ConnectionType::Telnet => Ok(TemporaryPlan::Telnet),
        _ => Err(
            join(
                "temporary credential input is unsupported for ",
                connection.connection_type.name(),
            ),
        ),
    }
}

/// The connection with other parameters.
pub fn temporary_missing_credential_connection(connection: &StoredConnection, params: String) -> (r:
    StoredConnection)
    ensures
        r.deep_view() == (StoredConnectionModel { params: params@, ..connection.deep_view() }),
{
    let mut runtime = connection.clone();
    runtime.params = params;
    runtime
}

/// Takes what came of making the parameters with which the user is asked for a missing
/// credential: the connection with them, or else what the user is told.
pub fn finish_asking(
    connection: &StoredConnection,
    otherwise: String,
    params: Result<String, String>,
) -> (r: Result<StoredConnection, String>)
    ensures
        match params {
            Ok(params) => r matches Ok(runtime) && runtime.deep_view() == (StoredConnectionModel {
                params: params@,
                ..connection.deep_view()
            }),
            Err(error) => r matches Err(text) && text@ == otherwise@,
        },
{
    match params {
        Ok(params) => Ok(temporary_missing_credential_connection(connection, params)),
        Err(error) => Err(otherwise),
    }
}

/// A connection whose credential is typed in refers to no stored credential any more, and
/// the user is asked.
pub proof fn law_temporary_params_ask(
    ssh: SshParamsModel,
    telnet: TelnetParamsModel,
    missing: i64,
    username: bool,
    password: bool,
)
    ensures
        ssh_asking(ssh, missing) matches Ok(asking) ==> asking.credential_reference is None
            && asking.prompt_username == Some(true) && asking.prompt_password == Some(true),
        telnet_without_credential(telnet, missing) matches Ok(without)
            ==> without.credential_reference is None && without.login_script.len() > 0,
        telnet_without_credential(telnet, missing) matches Ok(without) ==> (telnet_asking(
            without,
            username,
            password,
        ) matches Ok(asking) ==> asking.credential_reference is None && (asking.prompt_username
            == Some(true) || asking.prompt_password == Some(true))),
{
}

/// The home page: the saved connections and workspaces, and which connection is selected
/// or edited.
#[derive(Debug)]
pub struct HomePage {
    pub connections: Vec<StoredConnection>,
    pub workspaces: Vec<Workspace>,
    pub selected_connection_id: Option<i64>,
    pub editing_connection_id: Option<i64>,
}

/// Model of [`HomePage`].
#[verifier::ext_equal]
pub struct HomePageModel {
    pub connections: Seq<StoredConnectionModel>,
    pub workspaces: Seq<WorkspaceModel>,
    pub selected_connection_id: Option<i64>,
    pub editing_connection_id: Option<i64>,
}

impl DeepView for HomePage {
    type V = HomePageModel;

    open spec fn deep_view(&self) -> HomePageModel {
        HomePageModel {
            connections: self.connections.deep_view(),
            workspaces: self.workspaces.deep_view(),
            selected_connection_id: self.selected_connection_id,
            editing_connection_id: self.editing_connection_id,
        }
    }
}

/// A connection that is to be opened: with its workspace, and how its tab is opened. Its time
/// of last use is to be updated.
#[derive(Debug)]
pub struct OpenPlan {
    pub connection: StoredConnection,
    pub workspace: Option<Workspace>,
    pub mode: TabOpenMode,
}

/// Model of [`OpenPlan`].
#[verifier::ext_equal]
pub struct OpenPlanModel {
    pub connection: StoredConnectionModel,
    pub workspace: Option<WorkspaceModel>,
    pub mode: TabOpenMode,
}

impl DeepView for OpenPlan {
    type V = OpenPlanModel;

    open spec fn deep_view(&self) -> OpenPlanModel {
        OpenPlanModel {
            connection: self.connection.deep_view(),
            workspace: self.workspace.deep_view(),
            mode: self.mode,
        }
    }
}

/// The protocol of a remote desktop.
#[derive(Clone, Copy, PartialEq, Eq, Structural, Debug)]
pub enum RemoteDesktopProtocol {
    Rdp,
    Vnc,
}

/// How a remote desktop is opened in full screen.
#[derive(Clone, Copy, PartialEq, Eq, Structural, Debug)]
pub enum FullscreenPlan {
    /// It is not opened.
    Nothing,
    /// By the client of the platform.
    PlatformClient,
    /// By the provider of the protocol.
    Provider(RemoteDesktopProtocol),
}

/// What the user is told after an attempt to start the client of the platform.
#[derive(Debug)]
pub enum FullscreenNotice {
    ParametersInvalid(String),
    LaunchFailed(String),
}

/// The first workspace with the id of a connection's workspace.
pub open spec fn workspace_of(
    workspaces: Seq<WorkspaceModel>,
    id: Option<i64>,
) -> Option<WorkspaceModel>
    decreases workspaces.len(),
{
    if id is None || workspaces.len() == 0 {
        None
    } else if workspaces[0].id == id {
        Some(workspaces[0])
    } else {
        workspace_of(workspaces.drop_first(), id)
    }
}

impl HomePageModel {
    /// The page with a connection selected.
    pub open spec fn with_selected(self, id: Option<i64>) -> HomePageModel {
        HomePageModel { selected_connection_id: id, ..self }
    }
}

/// A window of its own, opened from that of the page: its title, and its size in pixels.
#[derive(Clone, Copy, Debug)]
pub struct PopupWindow {
    pub title: Label,
    pub width: u32,
    pub height: u32,
}

/// Model of [`PopupWindow`].
#[verifier::ext_equal]
pub struct PopupWindowModel {
    pub title: LabelModel,
    pub width: u32,
    pub height: u32,
}

impl DeepView for PopupWindow {
    type V = PopupWindowModel;

    open spec fn deep_view(&self) -> PopupWindowModel {
        PopupWindowModel { title: self.title.deep_view(), width: self.width, height: self.height }
    }
}

/// The window for a new connection.
pub open spec fn new_connection_window() -> PopupWindowModel {
    PopupWindowModel {
        title: LabelModel::Message("Home.new_connection"@),
        width: 1100,
        height: 700,
    }
}

impl HomePage {
    fn find_workspace(&self, id: Option<i64>) -> (r: Option<Workspace>)
        ensures
            r.deep_view() == workspace_of(self.deep_view().workspaces, id),
    {
        let wanted = match id {
            Some(wanted) => wanted,
            None => {
                return None;
            },
        };
        let ghost all = self.workspaces.deep_view();
        let mut i: usize = 0;
        assert(all.skip(0) =~= all);
        while i < self.workspaces.len()
            invariant
                id == Some(wanted),
                all == self.workspaces.deep_view(),
                i <= self.workspaces.len(),
                workspace_of(all.skip(i as int), id) == workspace_of(all, id),
            decreases self.workspaces.len() - i,
        {
            assert(all[i as int] == self.workspaces@[i as int].deep_view());
            assert(all.skip(i as int)[0] == all[i as int]);
            assert(all.skip(i as int).drop_first() =~= all.skip(i + 1));
            if let Some(own) = self.workspaces[i].id {
                if own == wanted {
                    return Some(self.workspaces[i].clone());
                }
            }
            i = i + 1;
        }
        None
    }

    /// The connections that the dialog to open one offers; there is no dialog where the
    /// master key is not ready.
    pub fn show_connection_quick_open(&self, master_key_ready: bool) -> (r: Option<
        Vec<StoredConnection>,
    >)
        ensures
            r.deep_view() == (if master_key_ready {
                Some(self.deep_view().connections)
            } else {
                None
            }),
    {
        if !master_key_ready {
            return None;
        }
        let offered = self.connections.clone();
        assert(offered.deep_view() =~= self.connections.deep_view());
        Some(offered)
    }

    /// Begins a new connection: none is edited any more. Its window is opened where the
    /// master key is ready.
    pub fn show_new_connection_dialog(&mut self, master_key_ready: bool) -> (r: Option<PopupWindow>)
        ensures
            final(self).deep_view() == (HomePageModel {
                editing_connection_id: None,
                ..old(self).deep_view()
            }),
            r.deep_view() == (if master_key_ready {
                Some(new_connection_window())
            } else {
                None
            }),
    {
        self.editing_connection_id = None;
        if master_key_ready {
            Some(PopupWindow { title: Label::Message("Home.new_connection"), width: 1100, height: 700 })
        } else {
            None
        }
    }

    /// Opens a connection in a tab that becomes the active one.
    pub fn open_connection_from_quick(
        &mut self,
        master_key_ready: bool,
        resolved: Option<StoredConnection>,
    ) -> (r: Option<OpenPlan>)
        ensures
            match resolved {
                Some(connection) => if master_key_ready {
                    &&& final(self).deep_view() == old(self).deep_view().with_selected(
                        connection.id,
                    )
                    &&& r.deep_view() == Some(
                        OpenPlanModel {
                            connection: connection.deep_view(),
                            workspace: workspace_of(
                                old(self).deep_view().workspaces,
                                connection.workspace_id,
                            ),
                            mode: TabOpenMode::Activate,
                        },
                    )
                } else {
                    final(self).deep_view() == old(self).deep_view() && r is None
                },
                None => final(self).deep_view() == old(self).deep_view() && r is None,
            },
    {
        self.open_connection_from_quick_with_mode(master_key_ready, resolved, TabOpenMode::Activate)
    }

    /// Opens a connection whose credentials were got, in a tab of the given kind: it is the
    /// selected one from then on. Nothing is opened where the master key is not ready or the
    /// credentials could not be had.
    pub fn open_connection_from_quick_with_mode(
        &mut self,
        master_key_ready: bool,
        resolved: Option<StoredConnection>,
        mode: TabOpenMode,
    ) -> (r: Option<OpenPlan>)
        ensures
            match resolved {
                Some(connection) => if master_key_ready {
                    &&& final(self).deep_view() == old(self).deep_view().with_selected(
                        connection.id,
                    )
                    &&& r.deep_view() == Some(
                        OpenPlanModel {
                            connection: connection.deep_view(),
                            workspace: workspace_of(
                                old(self).deep_view().workspaces,
                                connection.workspace_id,
                            ),
                            mode,
                        },
                    )
                } else {
                    final(self).deep_view() == old(self).deep_view() && r is None
                },
                None => final(self).deep_view() == old(self).deep_view() && r is None,
            },
    {
        if !master_key_ready {
            return None;
        }
        match resolved {
            Some(connection) => {
                self.selected_connection_id = connection.id;
                let workspace = self.find_workspace(connection.workspace_id);
                Some(OpenPlan { connection, workspace, mode })
            },
            None => None,
        }
    }

    /// How a remote desktop is opened in full screen: on Windows an RDP connection by the
    /// client of the platform, else RDP and VNC connections by their provider. Nothing is
    /// opened where the master key is not ready, or for another kind of connection.
    pub fn open_remote_desktop_fullscreen_window(
        connection: &StoredConnection,
        on_windows: bool,
        master_key_ready: bool,
    ) -> (r: FullscreenPlan)
        ensures
            r == (match connection.deep_view().connection_type {
                ConnectionTypeModel::Rdp => if !master_key_ready {
                    FullscreenPlan::Nothing
                } else if on_windows {
                    FullscreenPlan::PlatformClient
                } else {
                    FullscreenPlan::Provider(RemoteDesktopProtocol::Rdp)
                },
                ConnectionTypeModel::Vnc => if !master_key_ready {
                    FullscreenPlan::Nothing
                } else {
                    FullscreenPlan::Provider(RemoteDesktopProtocol::Vnc)
                },
                _ => FullscreenPlan::Nothing,
            }),
    {
        if !master_key_ready {
            return FullscreenPlan::Nothing;
        }
        match &connection.connection_type {
            ConnectionType::Rdp => if on_windows {
                FullscreenPlan::PlatformClient
            } else {
                FullscreenPlan::Provider(RemoteDesktopProtocol::Rdp)
            },
            ConnectionType::Vnc => FullscreenPlan::Provider(RemoteDesktopProtocol::Vnc),
            _ => FullscreenPlan::Nothing,
        }
    }

    /// Takes what came of starting the client of the platform for a connection: what its
    /// parameters are, and whether the client started. It is the selected connection only
    /// where the client started; else the user is told.
    pub fn finish_platform_client(
        &mut self,
        connection_id: Option<i64>,
        params: Result<(), String>,
        launch: Result<(), String>,
    ) -> (r: Option<FullscreenNotice>)
        ensures
            match params {
                Err(error) => final(self).deep_view() == old(self).deep_view() && (r matches Some(
                    FullscreenNotice::ParametersInvalid(text),
                ) && text@ == error@),
                Ok(()) => match launch {
                    Ok(()) => final(self).deep_view() == old(self).deep_view().with_selected(
                        connection_id,
                    ) && r is None,
                    Err(error) => final(self).deep_view() == old(self).deep_view() && (r matches Some(
                        FullscreenNotice::LaunchFailed(text),
                    ) && text@ == error@),
                },
            },
    {
        match params {
            Err(error) => Some(FullscreenNotice::ParametersInvalid(error)),
            Ok(()) => match launch {
                Ok(()) => {
                    self.selected_connection_id = connection_id;
                    None
                },
                Err(error) => Some(FullscreenNotice::LaunchFailed(error)),
            },
        }
    }

    /// Takes the connection that a provider opens: it is the selected one from then on.
    pub fn select_for_provider(&mut self, connection: &StoredConnection)
        ensures
            final(self).deep_view() == old(self).deep_view().with_selected(connection.id),
    {
        self.selected_connection_id = connection.id;
    }

    /// Takes what came of updating the time of last use of a connection in the storage, and
    /// of reading the connections again. A connection without an id, or a failed update,
    /// changes nothing.
    pub fn touch_connection_last_used(
        &mut self,
        connection_id: Option<i64>,
        reloaded: Result<Vec<StoredConnection>, String>,
    )
        ensures
            final(self).deep_view() == (match reloaded {
                Ok(connections) => if connection_id is Some {
                    HomePageModel {
                        connections: connections.deep_view(),
                        ..old(self).deep_view()
                    }
                } else {
                    old(self).deep_view()
                },
                Err(error) => old(self).deep_view(),
            }),
    {
        if connection_id.is_none() {
            return;
        }
        if let Ok(connections) = reloaded {
            self.connections = connections;
        }
    }

    /// Takes what came of clearing the time of last use of a connection in the storage, and
    /// of reading the connections again. The connection itself stays. A connection without
    /// an id, or a failed update, changes nothing.
    pub fn remove_recent_connection(
        &mut self,
        connection_id: Option<i64>,
        reloaded: Result<Vec<StoredConnection>, String>,
    )
        ensures
            final(self).deep_view() == (match reloaded {
                Ok(connections) => if connection_id is Some {
                    HomePageModel {
                        connections: connections.deep_view(),
                        ..old(self).deep_view()
                    }
                } else {
                    old(self).deep_view()
                },
                Err(error) => old(self).deep_view(),
            }),
    {
        if connection_id.is_none() {
            return;
        }
        if let Ok(connections) = reloaded {
            self.connections = connections;
        }
    }
}

/// The workspace of a connection has the id that the connection names, and is one of the
/// page.
pub proof fn law_workspace_is_known(workspaces: Seq<WorkspaceModel>, id: Option<i64>)
    ensures
        workspace_of(workspaces, id) matches Some(workspace) ==> workspaces.contains(workspace)
            && workspace.id == id && id is Some,
        workspace_of(workspaces, id) is None && id is Some ==> forall|i: int|
            0 <= i < workspaces.len() ==> (#[trigger] workspaces[i]).id != id,
    decreases workspaces.len(),
{
    if id is Some && workspaces.len() > 0 {
        let rest = workspaces.drop_first();
        law_workspace_is_known(rest, id);
        assert(workspaces[0] == workspaces.first());
        if let Some(workspace) = workspace_of(rest, id) {
            let k = choose|k: int| 0 <= k < rest.len() && rest[k] == workspace;
            assert(workspaces[k + 1] == workspace);
        }
        assert forall|i: int|
            workspace_of(workspaces, id) is None && 0 <= i < workspaces.len() implies (
        #[trigger] workspaces[i]).id != id by {
            if i > 0 {
                assert(rest[i - 1] == workspaces[i]);
            }
        }
    }
}

} // verus!
