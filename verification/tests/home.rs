//! Opening connections from the home page.

use navop_workbench::home::{
    describe_chain, finish_asking, missing_credential_id, resolve_connection_credentials,
    telnet_params_with_prompts, temporary_missing_credential_connection,
    temporary_missing_credential_plan, temporary_ssh_params, temporary_telnet_params,
    ConnectionType, CredentialReference, CredentialResolutionError, CredentialStep, ErrorCause,
    ErrorReport, FullscreenNotice, FullscreenPlan, HomePage, RemoteDesktopProtocol, SshAuthMethod,
    SshParams, StoredConnection, TabOpenMode, TelnetLoginStep, TelnetParams, TemporaryPlan,
    Workspace,
};

fn text(s: &str) -> String {
    s.to_string()
}

fn connection(id: i64, connection_type: ConnectionType) -> StoredConnection {
    StoredConnection {
        id: Some(id),
        name: format!("Connection {id}"),
        connection_type,
        workspace_id: Some(2),
        params: text("{}"),
    }
}

fn page() -> HomePage {
    HomePage {
        connections: vec![connection(1, ConnectionType::SshSftp)],
        workspaces: vec![
            Workspace { id: None, name: text("unsaved") },
            Workspace { id: Some(2), name: text("work") },
            Workspace { id: Some(2), name: text("again") },
        ],
        selected_connection_id: None,
        editing_connection_id: Some(1),
    }
}

fn cause(message: &str, credential: Option<CredentialResolutionError>) -> ErrorCause {
    ErrorCause { message: text(message), credential }
}

fn missing(id: i64) -> Option<CredentialResolutionError> {
    Some(CredentialResolutionError::MissingCredential(id))
}

#[test]
fn the_first_missing_credential_of_a_chain_counts() {
    let error = ErrorReport {
        causes: vec![
            cause("open", None),
            cause("locked", Some(CredentialResolutionError::Other)),
            cause("missing", missing(7)),
            cause("missing too", missing(8)),
        ],
    };
    assert_eq!(missing_credential_id(&error), Some(7));
    assert_eq!(describe_chain(&error), "open: locked: missing: missing too");
    let other = ErrorReport { causes: vec![cause("locked", Some(CredentialResolutionError::Other))] };
    assert_eq!(missing_credential_id(&other), None);
    assert_eq!(describe_chain(&other), "locked");
    assert_eq!(describe_chain(&ErrorReport { causes: vec![] }), "");
}

#[test]
fn resolved_credentials_open_the_connection() {
    let step = resolve_connection_credentials(Ok(connection(1, ConnectionType::Telnet)), true);
    assert!(matches!(step, CredentialStep::Open(opened) if opened.id == Some(1)));
}

#[test]
fn a_missing_credential_is_asked_for() {
    let error = || ErrorReport { causes: vec![cause("open", None), cause("missing", missing(7))] };
    let step = resolve_connection_credentials(Err(error()), true);
    assert!(matches!(
        step,
        CredentialStep::AskOnce { credential_id: 7, otherwise }
            if otherwise == "无法解析连接凭据：open: missing"
    ));
    let step = resolve_connection_credentials(Err(error()), false);
    assert!(matches!(step, CredentialStep::Refuse(_)));
}

#[test]
fn another_failure_is_told() {
    let error = ErrorReport { causes: vec![cause("no storage", None)] };
    let step = resolve_connection_credentials(Err(error), true);
    assert!(matches!(
        step,
        CredentialStep::Refuse(told) if told == "无法解析连接凭据：no storage"
    ));
}

fn ssh(reference: Option<i64>) -> SshParams {
    SshParams {
        credential_reference: reference.map(|credential_id| CredentialReference { credential_id }),
        username: text("root"),
        auth_method: SshAuthMethod::Other(text("key")),
        prompt_username: None,
        prompt_password: Some(false),
    }
}

#[test]
fn an_ssh_login_is_asked_for() {
    let params = temporary_ssh_params(ssh(Some(7)), 7).unwrap();
    assert!(params.credential_reference.is_none());
    assert_eq!(params.username, "");
    assert!(matches!(&params.auth_method, SshAuthMethod::Password { password } if password.is_empty()));
    assert_eq!((params.prompt_username, params.prompt_password), (Some(true), Some(true)));
}

#[test]
fn only_the_own_ssh_credential_is_asked_for() {
    assert_eq!(
        temporary_ssh_params(ssh(None), 7).unwrap_err(),
        "the missing credential is not the primary SSH credential"
    );
    assert_eq!(
        temporary_ssh_params(ssh(Some(8)), 7).unwrap_err(),
        "the missing credential belongs to an SSH proxy or jump server"
    );
}

fn telnet(reference: Option<i64>, login_script: Vec<TelnetLoginStep>) -> TelnetParams {
    TelnetParams {
        credential_reference: reference.map(|credential_id| CredentialReference { credential_id }),
        login_script,
        prompt_username: Some(false),
        prompt_password: None,
    }
}

#[test]
fn a_telnet_login_gets_a_script() {
    let params = temporary_telnet_params(telnet(Some(7), vec![]), 7).unwrap();
    assert!(params.credential_reference.is_none());
    let expected: Vec<&str> = params.login_script.iter().map(|step| step.expect.as_str()).collect();
    assert_eq!(
        expected,
        [
            r"(?i)(?:login|username|user\s*name|account)\s*[:>]\s*$",
            r"(?i)(?:password|passwd|passcode)\s*[:>]\s*$"
        ]
    );
    assert!(params.login_script.iter().all(|step| step.send.is_empty()));
    let own = vec![TelnetLoginStep { expect: text("User:"), send: text("me") }];
    let params = temporary_telnet_params(telnet(Some(7), own), 7).unwrap();
    assert_eq!(params.login_script.len(), 1);
    assert_eq!(params.login_script[0].expect, "User:");
}

#[test]
fn only_the_own_telnet_credential_is_asked_for() {
    assert_eq!(
        temporary_telnet_params(telnet(None, vec![]), 7).unwrap_err(),
        "the missing credential is not the Telnet login credential"
    );
    assert_eq!(
        temporary_telnet_params(telnet(Some(8), vec![]), 7).unwrap_err(),
        "the missing credential does not belong to this Telnet connection"
    );
}

#[test]
fn a_telnet_script_has_to_wait_for_a_login() {
    let params = telnet_params_with_prompts(telnet(None, vec![]), true, false).unwrap();
    assert_eq!((params.prompt_username, params.prompt_password), (Some(true), None));
    let params = telnet_params_with_prompts(telnet(None, vec![]), false, true).unwrap();
    assert_eq!((params.prompt_username, params.prompt_password), (None, Some(true)));
    assert_eq!(
        telnet_params_with_prompts(telnet(None, vec![]), false, false).unwrap_err(),
        "unable to identify username or password prompts in the Telnet expect script"
    );
}

#[test]
fn only_terminals_can_ask_for_a_credential() {
    let plan = |kind| temporary_missing_credential_plan(&connection(1, kind));
    assert_eq!(plan(ConnectionType::SshSftp).unwrap(), TemporaryPlan::Ssh);
    assert_eq!(plan(ConnectionType::Telnet).unwrap(), TemporaryPlan::Telnet);
    assert_eq!(
        plan(ConnectionType::Rdp).unwrap_err(),
        "temporary credential input is unsupported for Rdp"
    );
    assert_eq!(
        plan(ConnectionType::Other(text("Redis"))).unwrap_err(),
        "temporary credential input is unsupported for Redis"
    );
}

#[test]
fn a_temporary_connection_differs_in_its_parameters_only() {
    let stored = connection(1, ConnectionType::SshSftp);
    let runtime = temporary_missing_credential_connection(&stored, text("{\"a\":1}"));
    assert_eq!(runtime.params, "{\"a\":1}");
    assert_eq!(runtime.id, stored.id);
    assert_eq!(runtime.name, stored.name);
    assert_eq!(runtime.workspace_id, stored.workspace_id);
}

#[test]
fn dialogs_wait_for_the_master_key() {
    let mut page = page();
    assert!(page.show_connection_quick_open(false).is_none());
    let offered = page.show_connection_quick_open(true).expect("connections");
    assert_eq!(offered.len(), 1);
    assert!(page.show_new_connection_dialog(false).is_none());
    assert_eq!(page.editing_connection_id, None);
    page.editing_connection_id = Some(1);
    let window = page.show_new_connection_dialog(true).expect("a window");
    assert_eq!(page.editing_connection_id, None);
    assert_eq!((window.width, window.height), (1100, 700));
}

#[test]
fn a_connection_opens_in_its_workspace() {
    let mut page = page();
    let plan = page
        .open_connection_from_quick(true, Some(connection(5, ConnectionType::SshSftp)))
        .expect("a plan");
    assert_eq!(page.selected_connection_id, Some(5));
    assert_eq!(plan.mode, TabOpenMode::Activate);
    assert_eq!(plan.workspace.expect("a workspace").name, "work");
    assert_eq!(plan.connection.id, Some(5));

    let mut other = connection(6, ConnectionType::SshSftp);
    other.workspace_id = None;
    let plan = page
        .open_connection_from_quick_with_mode(true, Some(other), TabOpenMode::Background)
        .expect("a plan");
    assert!(plan.workspace.is_none());
    assert_eq!(plan.mode, TabOpenMode::Background);

    let mut lost = connection(7, ConnectionType::SshSftp);
    lost.workspace_id = Some(9);
    assert!(page.open_connection_from_quick(true, Some(lost)).unwrap().workspace.is_none());

    assert!(page.open_connection_from_quick(true, None).is_none());
    let locked = page.open_connection_from_quick(false, Some(connection(8, ConnectionType::Rdp)));
    assert!(locked.is_none());
    assert_eq!(page.selected_connection_id, Some(7));
}

#[test]
fn remote_desktops_open_in_full_screen() {
    let plan = |kind, on_windows, ready| {
        HomePage::open_remote_desktop_fullscreen_window(&connection(1, kind), on_windows, ready)
    };
    assert_eq!(plan(ConnectionType::Rdp, true, true), FullscreenPlan::PlatformClient);
    assert_eq!(
        plan(ConnectionType::Rdp, false, true),
        FullscreenPlan::Provider(RemoteDesktopProtocol::Rdp)
    );
    assert_eq!(
        plan(ConnectionType::Vnc, true, true),
        FullscreenPlan::Provider(RemoteDesktopProtocol::Vnc)
    );
    assert_eq!(plan(ConnectionType::SshSftp, true, true), FullscreenPlan::Nothing);
    assert_eq!(plan(ConnectionType::Rdp, true, false), FullscreenPlan::Nothing);
    assert_eq!(plan(ConnectionType::Vnc, false, false), FullscreenPlan::Nothing);
}

#[test]
fn the_client_of_the_platform_may_fail() {
    let mut page = page();
    let notice = page.finish_platform_client(Some(3), Err(text("bad")), Ok(()));
    assert!(matches!(notice, Some(FullscreenNotice::ParametersInvalid(error)) if error == "bad"));
    let notice = page.finish_platform_client(Some(3), Ok(()), Err(text("gone")));
    assert!(matches!(notice, Some(FullscreenNotice::LaunchFailed(error)) if error == "gone"));
    assert_eq!(page.selected_connection_id, None);
    assert!(page.finish_platform_client(Some(3), Ok(()), Ok(())).is_none());
    assert_eq!(page.selected_connection_id, Some(3));
    page.select_for_provider(&connection(4, ConnectionType::Vnc));
    assert_eq!(page.selected_connection_id, Some(4));
}

#[test]
fn connections_are_read_again_after_an_update() {
    let mut page = page();
    let read = || Ok(vec![connection(1, ConnectionType::Rdp), connection(2, ConnectionType::Vnc)]);
    page.touch_connection_last_used(None, read());
    assert_eq!(page.connections.len(), 1);
    page.touch_connection_last_used(Some(1), Err(text("locked")));
    assert_eq!(page.connections.len(), 1);
    page.touch_connection_last_used(Some(1), read());
    assert_eq!(page.connections.len(), 2);
    page.remove_recent_connection(Some(1), Ok(vec![]));
    assert!(page.connections.is_empty());
    page.remove_recent_connection(None, read());
    assert!(page.connections.is_empty());
}

#[test]
fn a_refusal_is_told_where_nobody_can_be_asked() {
    let stored = connection(1, ConnectionType::Telnet);
    let runtime = finish_asking(&stored, text("refused"), Ok(text("{\"b\":2}"))).unwrap();
    assert_eq!(runtime.params, "{\"b\":2}");
    assert_eq!(runtime.name, stored.name);
    let told = finish_asking(&stored, text("refused"), Err(text("no prompts"))).unwrap_err();
    assert_eq!(told, "refused");
}
