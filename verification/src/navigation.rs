//! Opening, adding and removing folders and requests.

use vstd::prelude::*;
use crate::folders::{descendant_folder_ids, holds_id, subtree_ids};
use crate::headers::{parse_headers, parsed_headers};
use crate::http::{KeyValue, KeyValueModel, Protocol, RequestMethod};
use crate::ids::{fresh_id, is_fresh_id};
use crate::lookup::{find, lemma_position, position};
use crate::request_store::{
    ApiStoreModel, StoredFolder, StoredFolderModel, StoredRequest, StoredRequestModel, new_folder_model,
    new_request_model,
};
use crate::sections::{KeyPlaceholder, KvRowModel, SectionRowsModel, create_kv_rows, rows_of};
use crate::text::{copy_optional, decimal, decimal_text, is_blank, is_text, join3, trimmed};
use crate::view_state::{
    ApiTestView, ApiTestViewModel, EditorInputsModel, Effect, SelectionsModel,
};

verus! {

/// The header rows of a request. One that only has its headers as text gets the rows
/// that the text stands for, and none where the text cannot be read.
pub open spec fn header_rows_of(request: StoredRequestModel) -> Seq<KeyValueModel> {
    if request.header_rows.len() == 0 && trimmed(request.headers).len() > 0 {
        match parsed_headers(request.headers) {
            Ok(rows) => rows,
            Err(line) => Seq::empty(),
        }
    } else {
        request.header_rows
    }
}

/// What follows opening a request or a folder.
pub open spec fn open_effects() -> Seq<Effect> {
    seq![Effect::CancelConnections, Effect::ShowEditor, Effect::RebuildTree, Effect::Redraw]
}

impl ApiTestViewModel {
    /// The view with a request in the editor.
    pub open spec fn with_request(self, request: StoredRequestModel) -> ApiTestViewModel {
        ApiTestViewModel {
            active_request_id: Some(request.id),
            active_folder_id: None,
            selections: SelectionsModel {
                protocol: Some(request.protocol),
                method: Some(request.method),
                body_type: Some(request.body_type),
                raw_language: Some(request.raw_language),
                auth_type: Some(request.auth.auth_type),
                auth_target: Some(request.auth.add_to),
            },
            inputs: EditorInputsModel {
                name: request.name,
                url: request.url,
                request_description: request.description,
                body: request.body,
                pre_script: request.pre_script,
                tests: request.tests,
                auth_token: request.auth.token,
                auth_username: request.auth.username,
                auth_password: request.auth.password,
                auth_key: request.auth.key,
                auth_value: request.auth.value,
                folder_description: Seq::empty(),
                folder_base_url: Seq::empty(),
                ..self.inputs
            },
            rows: SectionRowsModel {
                params: rows_of(request.params, KeyPlaceholder::Key),
                path: rows_of(request.path_vars, KeyPlaceholder::Key),
                request_variables: rows_of(request.variables, KeyPlaceholder::Key),
                headers: rows_of(header_rows_of(request), KeyPlaceholder::Header),
                cookies: rows_of(request.cookies, KeyPlaceholder::Cookie),
                body: rows_of(request.body_rows, KeyPlaceholder::Key),
                folder_params: Seq::empty(),
                folder_headers: Seq::empty(),
                folder_variables: Seq::empty(),
                ..self.rows
            },
            request_generation: self.request_generation.wrapping_add(1),
            sending: false,
            response: request.last_response,
            prepared_request: None,
            pre_result: None,
            test_result: None,
            notice: None,
            suppress_commit: false,
            ..self
        }
    }

    /// The view after opening the request `id`; an unknown id changes nothing.
    pub open spec fn loaded_request(self, id: Seq<char>) -> ApiTestViewModel {
        match position(self.store.requests, id) {
            Some(i) => self.with_request(self.store.requests[i]),
            None => self,
        }
    }

    /// What follows opening the request `id`.
    pub open spec fn load_request_effects(self, id: Seq<char>) -> Seq<Effect> {
        if position(self.store.requests, id) is Some {
            open_effects()
        } else {
            Seq::empty()
        }
    }

    /// The view with a folder in the editor.
    pub open spec fn with_folder(self, folder: StoredFolderModel) -> ApiTestViewModel {
        ApiTestViewModel {
            active_request_id: None,
            active_folder_id: Some(folder.id),
            inputs: EditorInputsModel {
                request_description: Seq::empty(),
                name: folder.name,
                folder_description: folder.description,
                folder_base_url: match folder.base_url {
                    Some(url) => url,
                    None => Seq::empty(),
                },
                ..self.inputs
            },
            rows: SectionRowsModel {
                folder_params: rows_of(folder.params, KeyPlaceholder::Key),
                folder_headers: rows_of(folder.headers, KeyPlaceholder::Header),
                folder_variables: rows_of(folder.variables, KeyPlaceholder::Key),
                ..self.rows
            },
            request_generation: self.request_generation.wrapping_add(1),
            sending: false,
            response: None,
            prepared_request: None,
            pre_result: None,
            test_result: None,
            notice: None,
            suppress_commit: false,
            ..self
        }
    }

    /// The view after opening the folder `id`; an unknown id changes nothing.
    pub open spec fn loaded_folder(self, id: Seq<char>) -> ApiTestViewModel {
        match position(self.store.folders, id) {
            Some(i) => self.with_folder(self.store.folders[i]),
            None => self,
        }
    }

    /// What follows opening the folder `id`.
    pub open spec fn load_folder_effects(self, id: Seq<char>) -> Seq<Effect> {
        if position(self.store.folders, id) is Some {
            open_effects()
        } else {
            Seq::empty()
        }
    }

    /// The folder that new items go to: the active folder, else that of the active request.
    pub open spec fn parent_folder(self) -> Option<Seq<char>> {
        match self.active_folder_id {
            Some(id) => Some(id),
            None => match self.active_request() {
                Some(request) => request.folder_id,
                None => None,
            },
        }
    }
}

impl ApiTestView {
    fn show_request_rows(&mut self, request: &StoredRequest)
        ensures
            final(self).deep_view() == (ApiTestViewModel {
                rows: old(self).deep_view().with_request(request.deep_view()).rows,
                ..old(self).deep_view()
            }),
    {
        let header_rows = if request.header_rows.len() == 0 && !is_blank(request.headers.as_str()) {
            match parse_headers(request.headers.as_str()) {
                Ok(rows) => rows,
                Err(line) => {
                    let none: Vec<KeyValue> = Vec::new();
                    assert(none.deep_view() =~= Seq::<KeyValueModel>::empty());
                    none
                },
            }
        } else {
            crate::http::clone_rows(&request.header_rows)
        };
        self.rows.params = create_kv_rows(&request.params, KeyPlaceholder::Key);
        self.rows.path = create_kv_rows(&request.path_vars, KeyPlaceholder::Key);
        self.rows.request_variables = create_kv_rows(&request.variables, KeyPlaceholder::Key);
        self.rows.headers = create_kv_rows(&header_rows, KeyPlaceholder::Header);
        self.rows.cookies = create_kv_rows(&request.cookies, KeyPlaceholder::Cookie);
        self.rows.body = create_kv_rows(&request.body_rows, KeyPlaceholder::Key);
        self.rows.folder_params = Vec::new();
        self.rows.folder_headers = Vec::new();
        self.rows.folder_variables = Vec::new();
        proof {
            let none = Seq::<KvRowModel>::empty();
            assert(self.rows.folder_params.deep_view() =~= none);
            assert(self.rows.folder_headers.deep_view() =~= none);
            assert(self.rows.folder_variables.deep_view() =~= none);
        }
    }

    fn show_request_inputs(&mut self, request: &StoredRequest)
        ensures
            final(self).deep_view() == (ApiTestViewModel {
                inputs: old(self).deep_view().with_request(request.deep_view()).inputs,
                selections: old(self).deep_view().with_request(request.deep_view()).selections,
                ..old(self).deep_view()
            }),
    {
        self.selections.protocol = Some(request.protocol);
        self.selections.method = Some(request.method);
        self.selections.body_type = Some(request.body_type);
        self.selections.raw_language = Some(request.raw_language);
        self.selections.auth_type = Some(request.auth.auth_type);
        self.selections.auth_target = Some(request.auth.add_to);
        self.inputs.name = request.name.clone();
        self.inputs.url = request.url.clone();
        self.inputs.request_description = request.description.clone();
        self.inputs.body = request.body.clone();
        self.inputs.pre_script = request.pre_script.clone();
        self.inputs.tests = request.tests.clone();
        self.inputs.auth_token = request.auth.token.clone();
        self.inputs.auth_username = request.auth.username.clone();
        self.inputs.auth_password = request.auth.password.clone();
        self.inputs.auth_key = request.auth.key.clone();
        self.inputs.auth_value = request.auth.value.clone();
        self.inputs.folder_description = String::new();
        self.inputs.folder_base_url = String::new();
    }

    /// Forgets the last response and lets answers that are under way come to nothing.
    fn forget_response(&mut self)
        ensures
            final(self).deep_view() == (ApiTestViewModel {
                request_generation: old(self).deep_view().request_generation.wrapping_add(1),
                sending: false,
                response: None,
                prepared_request: None,
                pre_result: None,
                test_result: None,
                ..old(self).deep_view()
            }),
    {
        self.request_generation = self.request_generation.wrapping_add(1);
        self.sending = false;
        self.response = None;
        self.prepared_request = None;
        self.pre_result = None;
        self.test_result = None;
    }

    /// Opens the request `id` in the editor.
    pub fn load_request(&mut self, id: &str) -> (effects: Vec<Effect>)
        ensures
            final(self).deep_view() == old(self).deep_view().loaded_request(id@),
            effects@ == old(self).deep_view().load_request_effects(id@),
    {
        let request = match find(&self.store.requests, id) {
            Some(i) => {
                assert(self.store.requests.deep_view()[i as int]
                    == self.store.requests@[i as int].deep_view());
                self.store.requests[i].clone()
            },
            None => {
                return Vec::new();
            },
        };
        self.active_request_id = Some(request.id.clone());
        self.active_folder_id = None;
        self.show_request_inputs(&request);
        self.show_request_rows(&request);
        self.forget_response();
        self.response = request.last_response.clone();
        self.notice = None;
        self.suppress_commit = false;
        let effects = vec![
            Effect::CancelConnections,
            Effect::ShowEditor,
            Effect::RebuildTree,
            Effect::Redraw,
        ];
        assert(effects@ =~= open_effects());
        effects
    }

    /// The folder that new items go to: the active folder, else that of the active request.
    pub fn current_parent_folder_id(&self) -> (r: Option<String>)
        ensures
            r.deep_view() == self.deep_view().parent_folder(),
    {
        match &self.active_folder_id {
            Some(id) => Some(id.clone()),
            None => match &self.active_request_id {
                Some(active) => match find(&self.store.requests, active.as_str()) {
                    Some(i) => {
                        assert(self.store.requests.deep_view()[i as int]
                            == self.store.requests@[i as int].deep_view());
                        copy_optional(&self.store.requests[i].folder_id)
                    },
                    None => None,
                },
                None => None,
            },
        }
    }

    /// Opens the folder `id` in the editor.
    pub fn load_folder(&mut self, id: &str) -> (effects: Vec<Effect>)
        ensures
            final(self).deep_view() == old(self).deep_view().loaded_folder(id@),
            effects@ == old(self).deep_view().load_folder_effects(id@),
    {
        let folder = match find(&self.store.folders, id) {
            Some(i) => {
                assert(self.store.folders.deep_view()[i as int]
                    == self.store.folders@[i as int].deep_view());
                self.store.folders[i].clone()
            },
            None => {
                return Vec::new();
            },
        };
        self.active_request_id = None;
        self.active_folder_id = Some(folder.id.clone());
        self.inputs.request_description = String::new();
        self.inputs.name = folder.name.clone();
        self.inputs.folder_description = folder.description.clone();
        self.inputs.folder_base_url = match &folder.base_url {
            Some(url) => url.clone(),
            None => String::new(),
        };
        self.rows.folder_params = create_kv_rows(&folder.params, KeyPlaceholder::Key);
        self.rows.folder_headers = create_kv_rows(&folder.headers, KeyPlaceholder::Header);
        self.rows.folder_variables = create_kv_rows(&folder.variables, KeyPlaceholder::Key);
        self.forget_response();
        self.notice = None;
        self.suppress_commit = false;
        let effects = vec![
            Effect::CancelConnections,
            Effect::ShowEditor,
            Effect::RebuildTree,
            Effect::Redraw,
        ];
        assert(effects@ =~= open_effects());
        effects
    }
}

/// The folders outside the removed ones.
pub open spec fn folders_outside(
    folders: Seq<StoredFolderModel>,
    removed: Set<Seq<char>>,
) -> Seq<StoredFolderModel> {
    folders.filter(|folder: StoredFolderModel| !removed.contains(folder.id))
}

/// Whether a request lies in none of the removed folders.
pub open spec fn lies_outside(request: StoredRequestModel, removed: Set<Seq<char>>) -> bool {
    match request.folder_id {
        Some(folder) => !removed.contains(folder),
        None => true,
    }
}

/// The requests that lie in none of the removed folders.
pub open spec fn requests_outside(
    requests: Seq<StoredRequestModel>,
    removed: Set<Seq<char>>,
) -> Seq<StoredRequestModel> {
    requests.filter(|request: StoredRequestModel| lies_outside(request, removed))
}

fn retain_folders(folders: &mut Vec<StoredFolder>, removed: &Vec<String>)
    ensures
        final(folders).deep_view() == folders_outside(
            old(folders).deep_view(),
            removed.deep_view().to_set(),
        ),
{
    let ghost all = folders.deep_view();
    let ghost gone = removed.deep_view().to_set();
    let ghost keep = |folder: StoredFolderModel| !gone.contains(folder.id);
    let ghost mut n: int = 0;
    let mut i: usize = 0;
    proof {
        reveal(Seq::filter);
        assert(all.take(0).filter(keep) =~= Seq::<StoredFolderModel>::empty());
        assert(all.take(0).filter(keep) + all.skip(0) =~= all);
    }
    while i < folders.len()
        invariant
            gone == removed.deep_view().to_set(),
            keep == (|folder: StoredFolderModel| !gone.contains(folder.id)),
            0 <= n <= all.len(),
            folders.deep_view() == all.take(n).filter(keep) + all.skip(n),
            i == all.take(n).filter(keep).len(),
        decreases folders.len() - i,
    {
        reveal(Seq::filter);
        let ghost kept = all.take(n).filter(keep);
        let ghost held = folders.deep_view();
        proof {
            assert(held.len() == kept.len() + all.skip(n).len());
            assert(held[i as int] == all.skip(n)[0]);
            assert(held[i as int] == folders@[i as int].deep_view());
            assert(all.take(n + 1).drop_last() =~= all.take(n));
            assert(all.take(n + 1).last() == all[n]);
            assert(removed.deep_view().contains(all[n].id) == gone.contains(all[n].id));
        }
        if holds_id(removed, folders[i].id.as_str()) {
            folders.remove(i);
            assert(folders.deep_view() =~= held.remove(i as int));
            assert(folders.deep_view() =~= kept + all.skip(n + 1));
            assert(all.take(n + 1).filter(keep) =~= kept);
        } else {
            i = i + 1;
            assert(all.take(n + 1).filter(keep) =~= kept.push(all[n]));
            assert(held =~= kept.push(all[n]) + all.skip(n + 1));
        }
        proof {
            n = n + 1;
        }
    }
    proof {
        assert(all.skip(n).len() == 0);
        assert(all.take(n) =~= all);
        assert(folders.deep_view() =~= all.filter(keep));
    }
}

fn retain_requests(requests: &mut Vec<StoredRequest>, removed: &Vec<String>)
    ensures
        final(requests).deep_view() == requests_outside(
            old(requests).deep_view(),
            removed.deep_view().to_set(),
        ),
{
    let ghost all = requests.deep_view();
    let ghost gone = removed.deep_view().to_set();
    let ghost keep = |request: StoredRequestModel| lies_outside(request, gone);
    let ghost mut n: int = 0;
    let mut i: usize = 0;
    proof {
        reveal(Seq::filter);
        assert(all.take(0).filter(keep) =~= Seq::<StoredRequestModel>::empty());
        assert(all.take(0).filter(keep) + all.skip(0) =~= all);
    }
    while i < requests.len()
        invariant
            gone == removed.deep_view().to_set(),
            keep == (|request: StoredRequestModel| lies_outside(request, gone)),
            0 <= n <= all.len(),
            requests.deep_view() == all.take(n).filter(keep) + all.skip(n),
            i == all.take(n).filter(keep).len(),
        decreases requests.len() - i,
    {
        reveal(Seq::filter);
        let ghost kept = all.take(n).filter(keep);
        let ghost held = requests.deep_view();
        proof {
            assert(held.len() == kept.len() + all.skip(n).len());
            assert(held[i as int] == all.skip(n)[0]);
            assert(held[i as int] == requests@[i as int].deep_view());
            assert(all.take(n + 1).drop_last() =~= all.take(n));
            assert(all.take(n + 1).last() == all[n]);
        }
        let inside = match &requests[i].folder_id {
            Some(folder) => holds_id(removed, folder.as_str()),
            None => false,
        };
        assert(inside == !lies_outside(all[n], gone));
        if inside {
            requests.remove(i);
            assert(requests.deep_view() =~= held.remove(i as int));
            assert(requests.deep_view() =~= kept + all.skip(n + 1));
            assert(all.take(n + 1).filter(keep) =~= kept);
        } else {
            i = i + 1;
            assert(all.take(n + 1).filter(keep) =~= kept.push(all[n]));
            assert(held =~= kept.push(all[n]) + all.skip(n + 1));
        }
        proof {
            n = n + 1;
        }
    }
    proof {
        assert(all.skip(n).len() == 0);
        assert(all.take(n) =~= all);
        assert(requests.deep_view() =~= all.filter(keep));
    }
}

/// One list of effects after another.
pub fn in_turn(first: Vec<Effect>, second: Vec<Effect>) -> (r: Vec<Effect>)
    ensures
        r@ == first@ + second@,
{
    let mut r = first;
    let mut second = second;
    r.append(&mut second);
    r
}

/// A text with a number behind it.
pub open spec fn numbered(text: Seq<char>, n: nat) -> Seq<char> {
    text + " "@ + decimal_text(n)
}

impl ApiTestViewModel {
    /// The view with one more folder, under the id `id` and in the current folder.
    pub open spec fn pushed_folder(self, id: Seq<char>, text: Seq<char>) -> ApiTestViewModel {
        let folder = new_folder_model(
            id,
            numbered(text, self.store.folders.len() + 1),
            self.parent_folder(),
        );
        ApiTestViewModel {
            store: ApiStoreModel { folders: self.store.folders.push(folder), ..self.store },
            ..self
        }
    }

    /// The view with one more request, under the id `id` and in the current folder.
    pub open spec fn pushed_request(
        self,
        id: Seq<char>,
        text: Seq<char>,
        protocol: Protocol,
    ) -> ApiTestViewModel {
        let request = StoredRequestModel {
            protocol,
            folder_id: self.parent_folder(),
            ..new_request_model(
                id,
                numbered(text, self.store.requests.len() + 1),
                RequestMethod::Get,
            )
        };
        ApiTestViewModel {
            store: ApiStoreModel { requests: self.store.requests.push(request), ..self.store },
            ..self
        }
    }

    /// The view after the last request is gone: nothing is open in the editor.
    pub open spec fn with_nothing_open(self) -> ApiTestViewModel {
        ApiTestViewModel {
            active_request_id: None,
            request_generation: self.request_generation.wrapping_add(1),
            sending: false,
            response: None,
            prepared_request: None,
            pre_result: None,
            test_result: None,
            ..self
        }
    }

    /// The view with nothing open in the editor, and its inputs for folders cleared.
    pub open spec fn with_cleared_editor(self) -> ApiTestViewModel {
        ApiTestViewModel {
            notice: None,
            inputs: EditorInputsModel {
                folder_description: Seq::empty(),
                folder_base_url: Seq::empty(),
                name: Seq::empty(),
                ..self.inputs
            },
            rows: SectionRowsModel {
                folder_params: Seq::empty(),
                folder_headers: Seq::empty(),
                folder_variables: Seq::empty(),
                ..self.rows
            },
            ..self.with_nothing_open()
        }
    }

    /// The view with the folder `id`, all below it and all requests in them removed.
    pub open spec fn without_folder(self, id: Seq<char>) -> ApiTestViewModel {
        let removed = subtree_ids(self.store.folders, id);
        ApiTestViewModel {
            store: ApiStoreModel {
                folders: folders_outside(self.store.folders, removed),
                requests: requests_outside(self.store.requests, removed),
                ..self.store
            },
            active_folder_id: match self.active_folder_id {
                Some(folder) => if removed.contains(folder) {
                    None
                } else {
                    Some(folder)
                },
                None => None,
            },
            ..self
        }
    }

    /// Whether what is open in the editor goes with the folder `id`.
    pub open spec fn open_item_in_folder(self, id: Seq<char>) -> bool {
        let after = self.without_folder(id);
        ||| self.active_folder_id is Some && after.active_folder_id is None
        ||| self.active_request_id is Some && position(
            after.store.requests,
            self.active_request_id->0,
        ) is None
    }

    /// The view after deleting the folder `id`. Where what is open goes with it, the
    /// first request is opened, or the editor is cleared where there is none.
    pub open spec fn deleted_folder(self, id: Seq<char>) -> ApiTestViewModel {
        let after = self.without_folder(id);
        if !self.open_item_in_folder(id) {
            after
        } else if after.store.requests.len() > 0 {
            ApiTestViewModel { active_request_id: None, ..after }.loaded_request(
                after.store.requests[0].id,
            )
        } else {
            after.with_cleared_editor()
        }
    }

    /// What follows deleting the folder `id`.
    pub open spec fn delete_folder_effects(self, id: Seq<char>) -> Seq<Effect> {
        if self.open_item_in_folder(id) {
            seq![Effect::SaveStore] + open_effects()
        } else {
            seq![Effect::SaveStore, Effect::RebuildTree, Effect::Redraw]
        }
    }

    /// The view with the request at index `i` removed.
    pub open spec fn without_request(self, i: int) -> ApiTestViewModel {
        ApiTestViewModel {
            store: ApiStoreModel { requests: self.store.requests.remove(i), ..self.store },
            ..self
        }
    }

    /// The view after deleting the request `id`; an unknown id changes nothing. Where the
    /// request was open, the one after it is opened, or the one before it where it was
    /// the last, or nothing where it was the only one.
    pub open spec fn deleted_request(self, id: Seq<char>) -> ApiTestViewModel {
        match position(self.store.requests, id) {
            Some(i) => {
                let after = self.without_request(i);
                let left = after.store.requests;
                if self.active_request_id != Some(id) {
                    after
                } else if i < left.len() {
                    after.loaded_request(left[i].id)
                } else if left.len() > 0 {
                    after.loaded_request(left[i - 1].id)
                } else {
                    after.with_nothing_open()
                }
            },
            None => self,
        }
    }

    /// What follows deleting the request `id`.
    pub open spec fn delete_request_effects(self, id: Seq<char>) -> Seq<Effect> {
        match position(self.store.requests, id) {
            Some(i) => if self.active_request_id != Some(id) {
                seq![Effect::SaveStore, Effect::RebuildTree, Effect::Redraw]
            } else if self.store.requests.len() > 1 {
                seq![Effect::SaveStore] + open_effects()
            } else {
                seq![
                    Effect::SaveStore,
                    Effect::CancelConnections,
                    Effect::RebuildTree,
                    Effect::Redraw,
                ]
            },
            None => Seq::empty(),
        }
    }

    /// The view after a click on the request `id` of the tree.
    pub open spec fn selected_request(self, id: Seq<char>) -> ApiTestViewModel {
        if self.active_request_id == Some(id) {
            self
        } else {
            self.committed().loaded_request(id)
        }
    }

    /// What follows a click on the request `id` of the tree.
    pub open spec fn select_request_effects(self, id: Seq<char>) -> Seq<Effect> {
        if self.active_request_id == Some(id) {
            Seq::empty()
        } else {
            self.commit_effects() + self.committed().load_request_effects(id)
        }
    }

    /// The view after a click on the folder `id` of the tree; an unknown id changes nothing.
    pub open spec fn selected_folder(self, id: Seq<char>) -> ApiTestViewModel {
        if position(self.store.folders, id) is None || self.active_folder_id == Some(id) {
            self
        } else {
            self.committed().loaded_folder(id)
        }
    }

    /// What follows a click on the folder `id` of the tree.
    pub open spec fn select_folder_effects(self, id: Seq<char>) -> Seq<Effect> {
        if position(self.store.folders, id) is None || self.active_folder_id == Some(id) {
            Seq::empty()
        } else {
            self.commit_effects() + self.committed().load_folder_effects(id)
        }
    }
}

proof fn lemma_first_is_found(requests: Seq<StoredRequestModel>, i: int)
    requires
        0 <= i < requests.len(),
    ensures
        position(requests, requests[i].id) is Some,
{
    lemma_position(requests, requests[i].id);
    if position(requests, requests[i].id) is None {
        assert(crate::lookup::NamedModel::name_of(requests[i]) == requests[i].id);
    }
}

impl ApiTestView {
    /// Adds a folder under the id `id` and opens it. Its name is `text` with a number.
    pub fn add_folder(&mut self, id: String, text: &str) -> (effects: Vec<Effect>)
        ensures
            final(self).deep_view() == old(self).deep_view().committed().pushed_folder(
                id@,
                text@,
            ).loaded_folder(id@),
            effects@ == old(self).deep_view().commit_effects() + seq![Effect::SaveStore]
                + old(self).deep_view().committed().pushed_folder(id@, text@).load_folder_effects(
                id@,
            ),
    {
        let mut effects = self.commit_current_to_store();
        let ghost committed = self.deep_view();
        let parent_id = self.current_parent_folder_id();
        let number = decimal(self.store.folders.len() as u128 + 1);
        let name = join3(text, " ", number.as_str());
        let folder = StoredFolder::with_id(id.clone(), name, parent_id);
        self.store.folders.push(folder);
        assert(self.store.folders.deep_view() =~= committed.store.folders.push(folder.deep_view()));
        effects.push(Effect::SaveStore);
        let opened = self.load_folder(id.as_str());
        in_turn(effects, opened)
    }

    /// Adds a folder and opens it. Its name is `text` with a number.
    pub fn new_folder(&mut self, text: &str) -> (effects: Vec<Effect>)
        ensures
            exists|id: Seq<char>|
                is_fresh_id(id) && final(self).deep_view() == #[trigger] old(
                    self,
                ).deep_view().committed().pushed_folder(id, text@).loaded_folder(id) && effects@
                    == old(self).deep_view().commit_effects() + seq![Effect::SaveStore] + old(
                    self,
                ).deep_view().committed().pushed_folder(id, text@).load_folder_effects(id),
    {
        let id = fresh_id();
        self.add_folder(id, text)
    }

    /// Removes the folder `id`, all below it and all requests in them. Says whether what
    /// is open in the editor goes with it.
    fn remove_folder(&mut self, id: &str) -> (open_item: bool)
        ensures
            final(self).deep_view() == old(self).deep_view().without_folder(id@),
            open_item == old(self).deep_view().open_item_in_folder(id@),
    {
        let removed = descendant_folder_ids(&self.store.folders, id);
        let ghost gone = removed.deep_view().to_set();
        retain_folders(&mut self.store.folders, &removed);
        retain_requests(&mut self.store.requests, &removed);
        let active_request_removed = match &self.active_request_id {
            Some(active) => find(&self.store.requests, active.as_str()).is_none(),
            None => false,
        };
        let active_folder_removed = match &self.active_folder_id {
            Some(folder) => {
                assert(removed.deep_view().contains(folder@) == gone.contains(folder@));
                holds_id(&removed, folder.as_str())
            },
            None => false,
        };
        if active_folder_removed {
            self.active_folder_id = None;
        }
        active_request_removed || active_folder_removed
    }

    /// Clears the editor.
    fn clear_editor(&mut self)
        ensures
            final(self).deep_view() == old(self).deep_view().with_cleared_editor(),
    {
        self.active_request_id = None;
        self.forget_response();
        self.notice = None;
        self.inputs.folder_description = String::new();
        self.rows.folder_params = Vec::new();
        self.rows.folder_headers = Vec::new();
        self.rows.folder_variables = Vec::new();
        self.inputs.folder_base_url = String::new();
        self.inputs.name = String::new();
        proof {
            let none = Seq::<KvRowModel>::empty();
            assert(self.rows.folder_params.deep_view() =~= none);
            assert(self.rows.folder_headers.deep_view() =~= none);
            assert(self.rows.folder_variables.deep_view() =~= none);
        }
    }

    /// Deletes the folder `id`, all below it and all requests in them.
    pub fn delete_folder(&mut self, id: &str) -> (effects: Vec<Effect>)
        ensures
            final(self).deep_view() == old(self).deep_view().deleted_folder(id@),
            effects@ == old(self).deep_view().delete_folder_effects(id@),
    {
        let open_item = self.remove_folder(id);
        let ghost after = self.deep_view();
        if !open_item {
            return vec![Effect::SaveStore, Effect::RebuildTree, Effect::Redraw];
        }
        let effects = vec![Effect::SaveStore];
        if self.store.requests.len() > 0 {
            self.active_request_id = None;
            assert(after.store.requests[0] == self.store.requests@[0].deep_view());
            proof {
                lemma_first_is_found(after.store.requests, 0);
            }
            let next_id = self.store.requests[0].id.clone();
            let opened = self.load_request(next_id.as_str());
            in_turn(effects, opened)
        } else {
            self.clear_editor();
            let cleared = vec![
                Effect::CancelConnections,
                Effect::ShowEditor,
                Effect::RebuildTree,
                Effect::Redraw,
            ];
            assert(cleared@ =~= open_effects());
            in_turn(effects, cleared)
        }
    }

    /// Adds a request under the id `id` and opens it. Its name is `text` with a number.
    pub fn add_request(&mut self, id: String, text: &str, protocol: Protocol) -> (effects: Vec<
        Effect,
    >)
        ensures
            final(self).deep_view() == old(self).deep_view().committed().pushed_request(
                id@,
                text@,
                protocol,
            ).loaded_request(id@),
            effects@ == old(self).deep_view().commit_effects() + seq![Effect::SaveStore] + old(
                self,
            ).deep_view().committed().pushed_request(id@, text@, protocol).load_request_effects(
                id@,
            ),
    {
        let mut effects = self.commit_current_to_store();
        let ghost committed = self.deep_view();
        let number = decimal(self.store.requests.len() as u128 + 1);
        let name = join3(text, " ", number.as_str());
        let mut request = StoredRequest::with_id(id.clone(), name, RequestMethod::Get);
        request.protocol = protocol;
        request.folder_id = self.current_parent_folder_id();
        self.store.requests.push(request);
        assert(self.store.requests.deep_view() =~= committed.store.requests.push(
            request.deep_view(),
        ));
        effects.push(Effect::SaveStore);
        let opened = self.load_request(id.as_str());
        in_turn(effects, opened)
    }

    /// Adds a request for a protocol and opens it. Its name is `text` with a number.
    pub fn new_request_with_protocol(&mut self, text: &str, protocol: Protocol) -> (effects: Vec<
        Effect,
    >)
        ensures
            exists|id: Seq<char>|
                is_fresh_id(id) && final(self).deep_view() == #[trigger] old(
                    self,
                ).deep_view().committed().pushed_request(id, text@, protocol).loaded_request(id)
                    && effects@ == old(self).deep_view().commit_effects() + seq![Effect::SaveStore]
                    + old(self).deep_view().committed().pushed_request(
                    id,
                    text@,
                    protocol,
                ).load_request_effects(id),
    {
        let id = fresh_id();
        self.add_request(id, text, protocol)
    }

    /// Deletes the request `id`.
    pub fn delete_request(&mut self, id: &str) -> (effects: Vec<Effect>)
        ensures
            final(self).deep_view() == old(self).deep_view().deleted_request(id@),
            effects@ == old(self).deep_view().delete_request_effects(id@),
    {
        let ghost before = self.deep_view();
        let index = match find(&self.store.requests, id) {
            Some(i) => i,
            None => {
                return Vec::new();
            },
        };
        let was_active = is_text(&self.active_request_id, id);
        self.store.requests.remove(index);
        assert(self.store.requests.deep_view() =~= before.store.requests.remove(index as int));
        let ghost after = self.deep_view();
        let ghost left = after.store.requests;
        let mut effects = vec![Effect::SaveStore];
        if !was_active {
            effects.push(Effect::RebuildTree);
            effects.push(Effect::Redraw);
            assert(effects@ =~= before.delete_request_effects(id@));
            return effects;
        }
        if self.store.requests.len() > 0 {
            let next: usize = if index < self.store.requests.len() {
                index
            } else {
                index - 1
            };
            assert(left[next as int] == self.store.requests@[next as int].deep_view());
            proof {
                lemma_first_is_found(left, next as int);
            }
            let next_id = self.store.requests[next].id.clone();
            let opened = self.load_request(next_id.as_str());
            in_turn(effects, opened)
        } else {
            self.active_request_id = None;
            self.forget_response();
            effects.push(Effect::CancelConnections);
            effects.push(Effect::RebuildTree);
            effects.push(Effect::Redraw);
            assert(effects@ =~= before.delete_request_effects(id@));
            effects
        }
    }

    /// A click on the request `id` of the tree: commits, then opens the request.
    pub fn select_request(&mut self, id: &str) -> (effects: Vec<Effect>)
        ensures
            final(self).deep_view() == old(self).deep_view().selected_request(id@),
            effects@ == old(self).deep_view().select_request_effects(id@),
    {
        if is_text(&self.active_request_id, id) {
            return Vec::new();
        }
        let effects = self.commit_current_to_store();
        let opened = self.load_request(id);
        in_turn(effects, opened)
    }

    /// A click on the folder `id` of the tree: commits, then opens the folder.
    pub fn select_folder(&mut self, id: &str) -> (effects: Vec<Effect>)
        ensures
            final(self).deep_view() == old(self).deep_view().selected_folder(id@),
            effects@ == old(self).deep_view().select_folder_effects(id@),
    {
        if find(&self.store.folders, id).is_none() {
            return Vec::new();
        }
        if is_text(&self.active_folder_id, id) {
            return Vec::new();
        }
        let effects = self.commit_current_to_store();
        let opened = self.load_folder(id);
        in_turn(effects, opened)
    }
}

} // verus!
