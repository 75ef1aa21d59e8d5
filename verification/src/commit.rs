//! Writing what the editor holds back to the store.

use vstd::prelude::*;
use crate::headers::{header_lines, joined_lines, kv_text};
use crate::http::{AuthConfig, AuthConfigModel};
use crate::ids::{fresh_id, is_fresh_id};
use crate::lookup::{find, lemma_position, lemma_same_names, position};
use crate::request_store::{
    ApiEnvironment, ApiEnvironmentModel, ApiStore, ApiStoreModel, StoredFolder, StoredFolderModel,
    StoredRequest, StoredRequestModel,
};
use crate::sections::{KvSection, SectionRows, SectionRowsModel, entries_of};
use crate::text::{copy_optional, same, trim, trimmed};
use crate::view_state::{
    ApiTestView, ApiTestViewModel, EditorInputs, EditorInputsModel, Effect, Selections, SelectionsModel,
};

verus! {

/// A text without the white space around it, or nothing where it is blank.
pub open spec fn unless_blank(text: Seq<char>) -> Option<Seq<char>> {
    if trimmed(text).len() > 0 {
        Some(trimmed(text))
    } else {
        None
    }
}

fn trimmed_unless_blank(text: &str) -> (r: Option<String>)
    ensures
        r.deep_view() == unless_blank(text@),
{
    let t = trim(text);
    if t.is_empty() {
        None
    } else {
        Some(t.to_owned())
    }
}

/// The environment with what the editor holds of it.
pub open spec fn edited_environment(
    environment: ApiEnvironmentModel,
    inputs: EditorInputsModel,
    rows: SectionRowsModel,
) -> ApiEnvironmentModel {
    ApiEnvironmentModel {
        base_url: unless_blank(inputs.environment_base_url),
        params: entries_of(rows.environment_params),
        headers: entries_of(rows.environment_headers),
        cookies: entries_of(rows.environment_cookies),
        variables: entries_of(rows.environment),
        ..environment
    }
}

/// The environments with what the editor holds of the active one.
pub open spec fn edited_environments(
    environments: Seq<ApiEnvironmentModel>,
    active: Option<Seq<char>>,
    inputs: EditorInputsModel,
    rows: SectionRowsModel,
) -> Seq<ApiEnvironmentModel> {
    match active {
        Some(id) => match position(environments, id) {
            Some(i) => environments.update(i, edited_environment(environments[i], inputs, rows)),
            None => environments,
        },
        None => environments,
    }
}

/// The folder with what the editor holds of it.
pub open spec fn edited_folder(
    folder: StoredFolderModel,
    inputs: EditorInputsModel,
    rows: SectionRowsModel,
) -> StoredFolderModel {
    StoredFolderModel {
        name: trimmed(inputs.name),
        description: inputs.folder_description,
        base_url: unless_blank(inputs.folder_base_url),
        params: entries_of(rows.folder_params),
        headers: entries_of(rows.folder_headers),
        variables: entries_of(rows.folder_variables),
        ..folder
    }
}

/// The folders with what the editor holds of the folder `id`.
pub open spec fn edited_folders(
    folders: Seq<StoredFolderModel>,
    id: Seq<char>,
    inputs: EditorInputsModel,
    rows: SectionRowsModel,
) -> Seq<StoredFolderModel> {
    match position(folders, id) {
        Some(i) => folders.update(i, edited_folder(folders[i], inputs, rows)),
        None => folders,
    }
}

/// The request `id` as the editor holds it. What the editor does not show is taken from
/// the stored request `existing`.
pub open spec fn edited_request(
    id: Seq<char>,
    existing: Option<StoredRequestModel>,
    inputs: EditorInputsModel,
    selections: SelectionsModel,
    rows: SectionRowsModel,
) -> StoredRequestModel {
    StoredRequestModel {
        id,
        name: inputs.name,
        description: inputs.request_description,
        method: selections.current_method(),
        protocol: selections.current_protocol(),
        url: inputs.url,
        folder_id: match existing {
            Some(request) => request.folder_id,
            None => None,
        },
        base_url_override: match existing {
            Some(request) => request.base_url_override,
            None => None,
        },
        headers: joined_lines(header_lines(entries_of(rows.headers))),
        params: entries_of(rows.params),
        path_vars: entries_of(rows.path),
        variables: entries_of(rows.request_variables),
        header_rows: entries_of(rows.headers),
        cookies: entries_of(rows.cookies),
        body: inputs.body,
        body_type: selections.current_body_type(),
        raw_language: selections.current_raw_language(),
        body_rows: entries_of(rows.body),
        auth: AuthConfigModel {
            auth_type: selections.current_auth_type(),
            token: inputs.auth_token,
            username: inputs.auth_username,
            password: inputs.auth_password,
            key: inputs.auth_key,
            value: inputs.auth_value,
            add_to: selections.current_auth_target(),
        },
        pre_script: inputs.pre_script,
        tests: inputs.tests,
        mock: match existing {
            Some(request) => request.mock,
            None => None,
        },
        last_response: match existing {
            Some(request) => request.last_response,
            None => None,
        },
        success_example: match existing {
            Some(request) => request.success_example,
            None => None,
        },
        fail_examples: match existing {
            Some(request) => request.fail_examples,
            None => Seq::empty(),
        },
    }
}

/// The requests with what the editor holds of the request `id`.
pub open spec fn edited_requests(
    requests: Seq<StoredRequestModel>,
    id: Seq<char>,
    inputs: EditorInputsModel,
    selections: SelectionsModel,
    rows: SectionRowsModel,
) -> Seq<StoredRequestModel> {
    match position(requests, id) {
        Some(i) => requests.update(
            i,
            edited_request(id, Some(requests[i]), inputs, selections, rows),
        ),
        None => requests,
    }
}

impl ApiTestViewModel {
    /// The first stored request with the active id.
    pub open spec fn active_request(self) -> Option<StoredRequestModel> {
        match self.active_request_id {
            Some(id) => match position(self.store.requests, id) {
                Some(i) => Some(self.store.requests[i]),
                None => None,
            },
            None => None,
        }
    }

    /// What the editor holds, as the request `id`.
    pub open spec fn snapshot(self, id: Seq<char>) -> StoredRequestModel {
        edited_request(id, self.active_request(), self.inputs, self.selections, self.rows)
    }

    /// The store with what the editor holds of the global tables and of the active
    /// environment, and of the active folder or else of the active request.
    pub open spec fn committed_store(self) -> ApiStoreModel {
        ApiStoreModel {
            globals: entries_of(self.rows.globals),
            global_params: entries_of(self.rows.global_params),
            global_headers: entries_of(self.rows.global_headers),
            global_cookies: entries_of(self.rows.global_cookies),
            environments: edited_environments(
                self.store.environments,
                self.store.active_environment_id,
                self.inputs,
                self.rows,
            ),
            folders: match self.active_folder_id {
                Some(id) => edited_folders(self.store.folders, id, self.inputs, self.rows),
                None => self.store.folders,
            },
            requests: if self.active_folder_id is None && self.active_request_id is Some {
                edited_requests(
                    self.store.requests,
                    self.active_request_id->0,
                    self.inputs,
                    self.selections,
                    self.rows,
                )
            } else {
                self.store.requests
            },
            ..self.store
        }
    }

    /// The view after a commit. While commits are suppressed, one does nothing.
    pub open spec fn committed(self) -> ApiTestViewModel {
        if self.suppress_commit {
            self
        } else {
            ApiTestViewModel { store: self.committed_store(), ..self }
        }
    }

    /// Whether a commit changes what the tree shows of the active folder or request: the
    /// folder's name, or the request's name, method or protocol.
    pub open spec fn commit_changes_tree(self) -> bool {
        match self.active_folder_id {
            Some(id) => match position(self.store.folders, id) {
                Some(i) => self.store.folders[i].name != trimmed(self.inputs.name),
                None => false,
            },
            None => match self.active_request() {
                Some(request) => {
                    ||| request.name != self.inputs.name
                    ||| request.method != self.selections.current_method()
                    ||| request.protocol != self.selections.current_protocol()
                },
                None => false,
            },
        }
    }

    /// What follows a commit: the store is kept, and the tree is built anew where what it
    /// shows has changed.
    pub open spec fn commit_effects(self) -> Seq<Effect> {
        if self.suppress_commit {
            Seq::empty()
        } else if self.commit_changes_tree() {
            seq![Effect::SaveStore, Effect::RebuildTree]
        } else {
            seq![Effect::SaveStore]
        }
    }
}

fn commit_environment(
    environments: &mut Vec<ApiEnvironment>,
    active: &Option<String>,
    inputs: &EditorInputs,
    rows: &SectionRows,
)
    ensures
        final(environments).deep_view() == edited_environments(
            old(environments).deep_view(),
            active.deep_view(),
            inputs.deep_view(),
            rows.deep_view(),
        ),
{
    if let Some(id) = active {
        let ghost before = environments.deep_view();
        if let Some(i) = find(environments, id.as_str()) {
            assert(before[i as int] == environments@[i as int].deep_view());
            environments[i].base_url = trimmed_unless_blank(inputs.environment_base_url.as_str());
            environments[i].params = rows.keyvalues_from_rows(KvSection::EnvironmentParams);
            environments[i].headers = rows.keyvalues_from_rows(KvSection::EnvironmentHeaders);
            environments[i].cookies = rows.keyvalues_from_rows(KvSection::EnvironmentCookies);
            environments[i].variables = rows.keyvalues_from_rows(KvSection::Environment);
            assert(environments.deep_view() =~= before.update(
                i as int,
                edited_environment(before[i as int], inputs.deep_view(), rows.deep_view()),
            ));
        }
    }
}

fn commit_folder(
    folders: &mut Vec<StoredFolder>,
    id: &str,
    inputs: &EditorInputs,
    rows: &SectionRows,
) -> (renamed: bool)
    ensures
        final(folders).deep_view() == edited_folders(
            old(folders).deep_view(),
            id@,
            inputs.deep_view(),
            rows.deep_view(),
        ),
        renamed == (position(old(folders).deep_view(), id@) matches Some(i) && old(
            folders,
        ).deep_view()[i].name != trimmed(inputs.name@)),
{
    let ghost before = folders.deep_view();
    match find(folders, id) {
        Some(i) => {
            assert(before[i as int] == folders@[i as int].deep_view());
            let name = trim(inputs.name.as_str()).to_owned();
            let renamed = !same(folders[i].name.as_str(), name.as_str());
            folders[i].name = name;
            folders[i].description = inputs.folder_description.clone();
            folders[i].base_url = trimmed_unless_blank(inputs.folder_base_url.as_str());
            folders[i].params = rows.keyvalues_from_rows(KvSection::FolderParams);
            folders[i].headers = rows.keyvalues_from_rows(KvSection::FolderHeaders);
            folders[i].variables = rows.keyvalues_from_rows(KvSection::FolderVariables);
            assert(folders.deep_view() =~= before.update(
                i as int,
                edited_folder(before[i as int], inputs.deep_view(), rows.deep_view()),
            ));
            renamed
        },
        None => false,
    }
}

/// The request `id` as the editor holds it.
fn request_from_editor(
    id: String,
    existing: Option<&StoredRequest>,
    inputs: &EditorInputs,
    selections: &Selections,
    rows: &SectionRows,
) -> (r: StoredRequest)
    ensures
        r.deep_view() == edited_request(
            id@,
            existing.deep_view(),
            inputs.deep_view(),
            selections.deep_view(),
            rows.deep_view(),
        ),
{
    let mut r = StoredRequest::with_id(id, inputs.name.clone(), selections.current_method());
    r.description = inputs.request_description.clone();
    r.protocol = selections.current_protocol();
    r.url = inputs.url.clone();
    let header_rows = rows.keyvalues_from_rows(KvSection::Headers);
    r.headers = kv_text(header_rows.as_slice());
    r.params = rows.keyvalues_from_rows(KvSection::Params);
    r.path_vars = rows.keyvalues_from_rows(KvSection::Path);
    r.variables = rows.keyvalues_from_rows(KvSection::RequestVariables);
    r.header_rows = header_rows;
    r.cookies = rows.keyvalues_from_rows(KvSection::Cookies);
    r.body = inputs.body.clone();
    r.body_type = selections.current_body_type();
    r.raw_language = selections.current_raw_language();
    r.body_rows = rows.keyvalues_from_rows(KvSection::Body);
    r.auth = AuthConfig {
        auth_type: selections.current_auth_type(),
        token: inputs.auth_token.clone(),
        username: inputs.auth_username.clone(),
        password: inputs.auth_password.clone(),
        key: inputs.auth_key.clone(),
        value: inputs.auth_value.clone(),
        add_to: selections.current_auth_target(),
    };
    r.pre_script = inputs.pre_script.clone();
    r.tests = inputs.tests.clone();
    if let Some(request) = existing {
        r.folder_id = copy_optional(&request.folder_id);
        r.base_url_override = copy_optional(&request.base_url_override);
        r.mock = copy_optional(&request.mock);
        r.last_response = request.last_response.clone();
        r.success_example = request.success_example.clone();
        r.fail_examples = request.fail_examples.clone();
        assert(r.fail_examples.deep_view() =~= request.fail_examples.deep_view());
    }
    r
}

fn commit_request(
    requests: &mut Vec<StoredRequest>,
    id: &str,
    inputs: &EditorInputs,
    selections: &Selections,
    rows: &SectionRows,
) -> (changed: bool)
    ensures
        final(requests).deep_view() == edited_requests(
            old(requests).deep_view(),
            id@,
            inputs.deep_view(),
            selections.deep_view(),
            rows.deep_view(),
        ),
        changed == (position(old(requests).deep_view(), id@) matches Some(i) && ({
            let request = old(requests).deep_view()[i];
            ||| request.name != inputs.name@
            ||| request.method != selections.deep_view().current_method()
            ||| request.protocol != selections.deep_view().current_protocol()
        })),
{
    let ghost before = requests.deep_view();
    match find(requests, id) {
        Some(i) => {
            assert(before[i as int] == requests@[i as int].deep_view());
            let snapshot = request_from_editor(
                id.to_owned(),
                Some(&requests[i]),
                inputs,
                selections,
                rows,
            );
            let changed = !same(requests[i].name.as_str(), snapshot.name.as_str())
                || requests[i].method != snapshot.method || requests[i].protocol
                != snapshot.protocol;
            requests.set(i, snapshot);
            assert(requests.deep_view() =~= before.update(i as int, snapshot.deep_view()));
            changed
        },
        None => false,
    }
}

impl ApiTestView {
    /// What the editor holds, as a request. Where no request is active, it gets a fresh id.
    pub fn snapshot_request(&self) -> (r: StoredRequest)
        ensures
            r.deep_view() == self.deep_view().snapshot(r.id@),
            match self.deep_view().active_request_id {
                Some(id) => r.id@ == id,
                None => is_fresh_id(r.id@),
            },
    {
        match &self.active_request_id {
            Some(id) => self.snapshot_with_id(id.clone()),
            None => self.snapshot_with_id(fresh_id()),
        }
    }

    /// What the editor holds, as the request `id`.
    pub fn snapshot_with_id(&self, id: String) -> (r: StoredRequest)
        ensures
            r.deep_view() == self.deep_view().snapshot(id@),
    {
        let existing = match &self.active_request_id {
            Some(active) => match find(&self.store.requests, active.as_str()) {
                Some(i) => {
                    assert(self.store.requests.deep_view()[i as int]
                        == self.store.requests@[i as int].deep_view());
                    Some(&self.store.requests[i])
                },
                None => None,
            },
            None => None,
        };
        request_from_editor(id, existing, &self.inputs, &self.selections, &self.rows)
    }

    /// Writes what the editor holds back to the store.
    pub fn commit_current_to_store(&mut self) -> (effects: Vec<Effect>)
        ensures
            final(self).deep_view() == old(self).deep_view().committed(),
            effects@ == old(self).deep_view().commit_effects(),
    {
        let ghost before = self.deep_view();
        let mut effects: Vec<Effect> = Vec::new();
        if self.suppress_commit {
            return effects;
        }
        self.store.globals = self.rows.keyvalues_from_rows(KvSection::Globals);
        self.store.global_params = self.rows.keyvalues_from_rows(KvSection::GlobalParams);
        self.store.global_headers = self.rows.keyvalues_from_rows(KvSection::GlobalHeaders);
        self.store.global_cookies = self.rows.keyvalues_from_rows(KvSection::GlobalCookies);
        commit_environment(
            &mut self.store.environments,
            &self.store.active_environment_id,
            &self.inputs,
            &self.rows,
        );
        let mut tree_label_changed = false;
        match &self.active_folder_id {
            Some(id) => {
                tree_label_changed = commit_folder(
                    &mut self.store.folders,
                    id.as_str(),
                    &self.inputs,
                    &self.rows,
                );
            },
            None => {
                if let Some(id) = &self.active_request_id {
                    tree_label_changed = commit_request(
                        &mut self.store.requests,
                        id.as_str(),
                        &self.inputs,
                        &self.selections,
                        &self.rows,
                    );
                }
            },
        }
        effects.push(Effect::SaveStore);
        if tree_label_changed {
            effects.push(Effect::RebuildTree);
        }
        assert(effects@ =~= before.commit_effects());
        effects
    }

    /// A copy of the store, to keep it.
    pub fn save_store(&self) -> (r: ApiStore)
        ensures
            r.deep_view() == self.deep_view().store,
    {
        self.store.clone()
    }

    /// Commits, and gives a copy of the store.
    pub fn store_snapshot(&mut self) -> (r: (ApiStore, Vec<Effect>))
        ensures
            final(self).deep_view() == old(self).deep_view().committed(),
            r.0.deep_view() == old(self).deep_view().committed().store,
            r.1@ == old(self).deep_view().commit_effects(),
    {
        let effects = self.commit_current_to_store();
        (self.save_store(), effects)
    }
}

proof fn lemma_edited_environments_again(
    environments: Seq<ApiEnvironmentModel>,
    active: Option<Seq<char>>,
    inputs: EditorInputsModel,
    rows: SectionRowsModel,
)
    ensures
        edited_environments(
            edited_environments(environments, active, inputs, rows),
            active,
            inputs,
            rows,
        ) == edited_environments(environments, active, inputs, rows),
{
    if let Some(id) = active {
        lemma_position(environments, id);
        if let Some(i) = position(environments, id) {
            let once = edited_environments(environments, active, inputs, rows);
            lemma_same_names(environments, i, edited_environment(environments[i], inputs, rows), id);
            assert(edited_environments(once, active, inputs, rows) =~= once);
        }
    }
}

/// A second commit changes nothing, and what the tree shows stays as it is.
pub proof fn law_commit_idempotent(view: ApiTestViewModel)
    ensures
        view.committed().committed() == view.committed(),
        !view.suppress_commit ==> !view.committed().commit_changes_tree(),
{
    if !view.suppress_commit {
        let once = view.committed();
        lemma_edited_environments_again(
            view.store.environments,
            view.store.active_environment_id,
            view.inputs,
            view.rows,
        );
        if view.active_folder_id is Some {
            let id = view.active_folder_id->0;
            let folders = view.store.folders;
            lemma_position(folders, id);
            if let Some(i) = position(folders, id) {
                let changed = once.store.folders;
                lemma_same_names(folders, i, changed[i], id);
                assert(once.committed().store.folders =~= changed);
            }
        } else if view.active_request_id is Some {
            let id = view.active_request_id->0;
            let requests = view.store.requests;
            lemma_position(requests, id);
            if let Some(i) = position(requests, id) {
                let changed = once.store.requests;
                lemma_same_names(requests, i, changed[i], id);
                assert(changed[i] == edited_request(
                    id,
                    Some(requests[i]),
                    view.inputs,
                    view.selections,
                    view.rows,
                ));
                assert(once.committed().store.requests =~= changed);
            }
        }
        assert(once.committed() =~= once);
    }
}

/// A commit adds and removes no folder, no request and no environment, moves none, and
/// keeps every id.
pub proof fn law_commit_keeps_items(view: ApiTestViewModel)
    ensures
        ({
            let after = view.committed().store;
            let before = view.store;
            &&& after.folders.len() == before.folders.len()
            &&& after.requests.len() == before.requests.len()
            &&& after.environments.len() == before.environments.len()
            &&& forall|i: int|
                0 <= i < before.folders.len() ==> (#[trigger] after.folders[i]).id
                    == before.folders[i].id && after.folders[i].parent_id
                    == before.folders[i].parent_id
            &&& forall|i: int|
                0 <= i < before.requests.len() ==> (#[trigger] after.requests[i]).id
                    == before.requests[i].id && after.requests[i].folder_id
                    == before.requests[i].folder_id
            &&& forall|i: int|
                0 <= i < before.environments.len() ==> (#[trigger] after.environments[i]).id
                    == before.environments[i].id && after.environments[i].name
                    == before.environments[i].name
            &&& after.active_environment_id == before.active_environment_id
            &&& after.history == before.history
            &&& after.response_example_autosave == before.response_example_autosave
        }),
{
    if view.store.active_environment_id is Some {
        lemma_position(view.store.environments, view.store.active_environment_id->0);
    }
    if view.active_folder_id is Some {
        lemma_position(view.store.folders, view.active_folder_id->0);
    }
    if view.active_request_id is Some {
        lemma_position(view.store.requests, view.active_request_id->0);
    }
}

} // verus!
