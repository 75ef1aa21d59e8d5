//! Opening the workbench, and what holds of it through all operations.

use vstd::prelude::*;
use crate::commit::{edited_environment, edited_folder, edited_request};
use crate::folders::{law_subtree_is_least, subtree_ids};
use crate::headers::{header_lines, joined_lines};
use crate::ids::{fresh_id, is_fresh_id};
use crate::lookup::{NamedModel, find, lemma_position, lemma_same_names, position};
use crate::navigation::{header_rows_of, lies_outside};
use crate::request_store::{
    ApiEnvironment, ApiEnvironmentModel, ApiStore, ApiStoreModel, StoredFolderModel, StoredRequestModel,
    new_environment_model,
};
use crate::sections::{
    KeyPlaceholder, KvRowModel, KvSection, SectionRows, SectionRowsModel, create_kv_rows, law_rows_hold_entries, rows_of,
};
use crate::tabs::{RequestEditorTab, ResponseTab, SidebarMode};
use crate::view_state::{
    ApiTestView, ApiTestViewModel, EditorInputs, EditorInputsModel, Effect, Selections, SelectionsModel,
};
use crate::http::{AuthTarget, AuthType, BodyType, Protocol, RawLanguage, RequestMethod};

verus! {

/// The store with an environment, where it had none.
pub open spec fn with_default_environment(
    store: ApiStoreModel,
    id: Seq<char>,
    name: Seq<char>,
) -> ApiStoreModel {
    if store.environments.len() == 0 {
        ApiStoreModel { environments: seq![new_environment_model(id, name)], ..store }
    } else {
        store
    }
}

/// The store with its first environment active, where none was or an unknown one.
pub open spec fn with_known_environment(store: ApiStoreModel) -> ApiStoreModel {
    if store.active_environment_id is None || position(
        store.environments,
        store.active_environment_id->0,
    ) is None {
        ApiStoreModel {
            active_environment_id: if store.environments.len() > 0 {
                Some(store.environments[0].id)
            } else {
                None
            },
            ..store
        }
    } else {
        store
    }
}

/// The workbench on a store, before anything is open in the editor.
pub open spec fn blank_view(store: ApiStoreModel) -> ApiTestViewModel {
    ApiTestViewModel {
        inputs: EditorInputsModel {
            name: Seq::empty(),
            search: Seq::empty(),
            url: Seq::empty(),
            request_description: Seq::empty(),
            websocket_message: Seq::empty(),
            socket_io_message: Seq::empty(),
            tcp_message: Seq::empty(),
            body: Seq::empty(),
            pre_script: Seq::empty(),
            tests: Seq::empty(),
            auth_token: Seq::empty(),
            auth_username: Seq::empty(),
            auth_password: Seq::empty(),
            auth_key: Seq::empty(),
            auth_value: Seq::empty(),
            folder_base_url: Seq::empty(),
            folder_description: Seq::empty(),
            environment_base_url: Seq::empty(),
        },
        selections: SelectionsModel {
            protocol: Some(Protocol::Http),
            method: Some(RequestMethod::Get),
            body_type: Some(BodyType::NoBody),
            raw_language: Some(RawLanguage::Json),
            auth_type: Some(AuthType::NoAuth),
            auth_target: Some(AuthTarget::Header),
        },
        rows: SectionRowsModel {
            params: Seq::empty(),
            path: Seq::empty(),
            headers: Seq::empty(),
            cookies: Seq::empty(),
            body: Seq::empty(),
            globals: rows_of(store.globals, KeyPlaceholder::Key),
            global_params: rows_of(store.global_params, KeyPlaceholder::Key),
            global_headers: rows_of(store.global_headers, KeyPlaceholder::Header),
            global_cookies: rows_of(store.global_cookies, KeyPlaceholder::Cookie),
            environment: Seq::empty(),
            environment_params: Seq::empty(),
            environment_headers: Seq::empty(),
            environment_cookies: Seq::empty(),
            folder_params: Seq::empty(),
            folder_headers: Seq::empty(),
            folder_variables: Seq::empty(),
            request_variables: Seq::empty(),
        },
        store,
        active_request_id: None,
        active_folder_id: None,
        sidebar_mode: SidebarMode::Collections,
        sidebar_collapsed: false,
        active_editor_tab: RequestEditorTab::Params,
        active_response_tab: ResponseTab::Body,
        sending: false,
        response: None,
        prepared_request: None,
        pre_result: None,
        test_result: None,
        response_pretty: true,
        request_generation: 0,
        notice: None,
        suppress_commit: false,
    }
}

/// The workbench on a store, with the settings of the active environment and the first
/// request in the editor.
pub open spec fn opened_view(store: ApiStoreModel) -> ApiTestViewModel {
    let view = blank_view(store).with_environment_settings();
    if store.requests.len() > 0 {
        view.loaded_request(store.requests[0].id)
    } else {
        view
    }
}

/// The store that the workbench opens on.
pub open spec fn opened_store(
    store: ApiStoreModel,
    id: Seq<char>,
    name: Seq<char>,
) -> ApiStoreModel {
    with_known_environment(with_default_environment(store, id, name))
}

/// What follows opening the workbench.
pub open spec fn opening_effects(store: ApiStoreModel) -> Seq<Effect> {
    if store.requests.len() > 0 {
        blank_view(store).with_environment_settings().load_request_effects(store.requests[0].id)
    } else {
        seq![Effect::ShowEditor, Effect::RebuildTree]
    }
}

fn no_inputs() -> (r: EditorInputs)
    ensures
        forall|store: ApiStoreModel| r.deep_view() == (#[trigger] blank_view(store)).inputs,
{
    EditorInputs {
        name: String::new(),
        search: String::new(),
        url: String::new(),
        request_description: String::new(),
        websocket_message: String::new(),
        socket_io_message: String::new(),
        tcp_message: String::new(),
        body: String::new(),
        pre_script: String::new(),
        tests: String::new(),
        auth_token: String::new(),
        auth_username: String::new(),
        auth_password: String::new(),
        auth_key: String::new(),
        auth_value: String::new(),
        folder_base_url: String::new(),
        folder_description: String::new(),
        environment_base_url: String::new(),
    }
}

/// The tables with the global rows of the store.
fn global_rows(store: &ApiStore) -> (r: SectionRows)
    ensures
        r.deep_view() == blank_view(store.deep_view()).rows,
{
    let mut rows = SectionRows::new();
    let ghost empty = rows.deep_view();
    rows.globals = create_kv_rows(&store.globals, KeyPlaceholder::Key);
    rows.global_params = create_kv_rows(&store.global_params, KeyPlaceholder::Key);
    rows.global_headers = create_kv_rows(&store.global_headers, KeyPlaceholder::Header);
    rows.global_cookies = create_kv_rows(&store.global_cookies, KeyPlaceholder::Cookie);
    proof {
        let none = Seq::<KvRowModel>::empty();
        assert(empty.get(KvSection::Params) =~= none);
        assert(empty.get(KvSection::Path) =~= none);
        assert(empty.get(KvSection::Headers) =~= none);
        assert(empty.get(KvSection::Cookies) =~= none);
        assert(empty.get(KvSection::Body) =~= none);
        assert(empty.get(KvSection::Environment) =~= none);
        assert(empty.get(KvSection::EnvironmentParams) =~= none);
        assert(empty.get(KvSection::EnvironmentHeaders) =~= none);
        assert(empty.get(KvSection::EnvironmentCookies) =~= none);
        assert(empty.get(KvSection::FolderParams) =~= none);
        assert(empty.get(KvSection::FolderHeaders) =~= none);
        assert(empty.get(KvSection::FolderVariables) =~= none);
        assert(empty.get(KvSection::RequestVariables) =~= none);
    }
    rows
}

/// Gives the store an environment where it has none, and makes one the active one.
fn prepare_store(store: &mut ApiStore, id: String, name: &str)
    ensures
        final(store).deep_view() == opened_store(old(store).deep_view(), id@, name@),
{
    let ghost before = store.deep_view();
    if store.environments.len() == 0 {
        let environment = ApiEnvironment::with_id(id, name.to_owned());
        store.environments.push(environment);
        assert(store.environments.deep_view() =~= seq![environment.deep_view()]);
    } else {
        assert(before.environments.len() > 0);
    }
    let known = match &store.active_environment_id {
        Some(active) => find(&store.environments, active.as_str()).is_some(),
        None => false,
    };
    if !known {
        store.active_environment_id = if store.environments.len() > 0 {
            assert(store.environments.deep_view()[0] == store.environments@[0].deep_view());
            Some(store.environments[0].id.clone())
        } else {
            None
        };
    }
}

impl ApiTestView {
    /// The workbench on a store. Where the store has no environment it gets one under the
    /// id `environment_id`.
    pub fn with_store(store: ApiStore, environment_id: String, environment_name: &str) -> (r: (
        ApiTestView,
        Vec<Effect>,
    ))
        ensures
            r.0.deep_view() == opened_view(
                opened_store(store.deep_view(), environment_id@, environment_name@),
            ),
            r.1@ == opening_effects(
                opened_store(store.deep_view(), environment_id@, environment_name@),
            ),
    {
        let mut store = store;
        prepare_store(&mut store, environment_id, environment_name);
        let ghost opened = store.deep_view();
        let rows = global_rows(&store);
        let mut view = ApiTestView {
            inputs: no_inputs(),
            selections: Selections {
                protocol: Some(Protocol::Http),
                method: Some(RequestMethod::Get),
                body_type: Some(BodyType::NoBody),
                raw_language: Some(RawLanguage::Json),
                auth_type: Some(AuthType::NoAuth),
                auth_target: Some(AuthTarget::Header),
            },
            rows,
            store,
            active_request_id: None,
            active_folder_id: None,
            sidebar_mode: SidebarMode::Collections,
            sidebar_collapsed: false,
            active_editor_tab: RequestEditorTab::Params,
            active_response_tab: ResponseTab::Body,
            sending: false,
            response: None,
            prepared_request: None,
            pre_result: None,
            test_result: None,
            response_pretty: true,
            request_generation: 0,
            notice: None,
            suppress_commit: false,
        };
        assert(view.deep_view() == blank_view(opened));
        view.refresh_environment_settings();
        if view.store.requests.len() > 0 {
            assert(opened.requests[0] == view.store.requests@[0].deep_view());
            let first_id = view.store.requests[0].id.clone();
            let effects = view.load_request(first_id.as_str());
            (view, effects)
        } else {
            (view, vec![Effect::ShowEditor, Effect::RebuildTree])
        }
    }

    /// The workbench on a store. Where the store has no environment it gets one, named
    /// `environment_name`.
    pub fn new(store: ApiStore, environment_name: &str) -> (r: (ApiTestView, Vec<Effect>))
        ensures
            exists|id: Seq<char>|
                is_fresh_id(id) && r.0.deep_view() == opened_view(
                    #[trigger] opened_store(store.deep_view(), id, environment_name@),
                ) && r.1@ == opening_effects(
                    opened_store(store.deep_view(), id, environment_name@),
                ),
    {
        let id = fresh_id();
        ApiTestView::with_store(store, id, environment_name)
    }
}

/// What holds of the workbench at rest: not both a request and a folder are open, what
/// is open is in the store, the active environment is in the store, and commits are not
/// suppressed.
pub open spec fn consistent(view: ApiTestViewModel) -> bool {
    &&& view.active_request_id is None || view.active_folder_id is None
    &&& view.active_request_id is Some ==> position(
        view.store.requests,
        view.active_request_id->0,
    ) is Some
    &&& view.active_folder_id is Some ==> position(
        view.store.folders,
        view.active_folder_id->0,
    ) is Some
    &&& view.store.active_environment_id is Some ==> view.selected_environment() is Some
    &&& !view.suppress_commit
}

/// An item of a list is found under its name.
proof fn lemma_known<M: NamedModel>(items: Seq<M>, k: int)
    requires
        0 <= k < items.len(),
    ensures
        position(items, items[k].name_of()) is Some,
{
    lemma_position(items, items[k].name_of());
    if position(items, items[k].name_of()) is None {
        assert(items[k].name_of() != items[k].name_of());
    }
}

/// What is found in a list is found in a longer one that begins with it.
proof fn lemma_known_in_longer<M: NamedModel>(items: Seq<M>, more: Seq<M>, name: Seq<char>)
    requires
        position(items, name) is Some,
        items.len() <= more.len(),
        forall|k: int| 0 <= k < items.len() ==> more[k] == #[trigger] items[k],
    ensures
        position(more, name) is Some,
{
    lemma_position(items, name);
    let k = position(items, name)->0;
    assert(more[k] == items[k]);
    lemma_known(more, k);
}

/// A commit keeps the workbench consistent, and finds each item where it was.
pub proof fn law_commit_consistent(view: ApiTestViewModel, id: Seq<char>)
    ensures
        consistent(view) ==> consistent(view.committed()),
        position(view.committed().store.folders, id) == position(view.store.folders, id),
        position(view.committed().store.requests, id) == position(view.store.requests, id),
        position(view.committed().store.environments, id) == position(
            view.store.environments,
            id,
        ),
{
    if !view.suppress_commit {
        lemma_commit_positions(view, id);
        if view.active_request_id is Some {
            lemma_commit_positions(view, view.active_request_id->0);
        }
        if view.active_folder_id is Some {
            lemma_commit_positions(view, view.active_folder_id->0);
        }
        if view.store.active_environment_id is Some {
            lemma_commit_positions(view, view.store.active_environment_id->0);
        }
    }
}

pub proof fn lemma_commit_positions(view: ApiTestViewModel, id: Seq<char>)
    requires
        !view.suppress_commit,
    ensures
        position(view.committed().store.folders, id) == position(view.store.folders, id),
        position(view.committed().store.requests, id) == position(view.store.requests, id),
        position(view.committed().store.environments, id) == position(
            view.store.environments,
            id,
        ),
{
    let store = view.store;
    if let Some(active) = store.active_environment_id {
        lemma_position(store.environments, active);
        if let Some(i) = position(store.environments, active) {
            lemma_same_names(
                store.environments,
                i,
                edited_environment(store.environments[i], view.inputs, view.rows),
                id,
            );
        }
    }
    if let Some(active) = view.active_folder_id {
        lemma_position(store.folders, active);
        if let Some(i) = position(store.folders, active) {
            lemma_same_names(
                store.folders,
                i,
                edited_folder(store.folders[i], view.inputs, view.rows),
                id,
            );
        }
    } else if let Some(active) = view.active_request_id {
        lemma_position(store.requests, active);
        if let Some(i) = position(store.requests, active) {
            lemma_same_names(
                store.requests,
                i,
                edited_request(
                    active,
                    Some(store.requests[i]),
                    view.inputs,
                    view.selections,
                    view.rows,
                ),
                id,
            );
        }
    }
}

/// Opening a request or a folder keeps the workbench consistent.
pub proof fn law_opening_consistent(view: ApiTestViewModel, id: Seq<char>)
    requires
        consistent(view),
    ensures
        consistent(view.loaded_request(id)),
        consistent(view.loaded_folder(id)),
        consistent(view.selected_request(id)),
        consistent(view.selected_folder(id)),
{
    lemma_position(view.store.requests, id);
    lemma_position(view.store.folders, id);
    law_commit_consistent(view, id);
    let committed = view.committed();
    lemma_position(committed.store.requests, id);
    lemma_position(committed.store.folders, id);
}

/// The workbench is consistent when it opens, and has an active environment.
pub proof fn law_opened_consistent(store: ApiStoreModel, id: Seq<char>, name: Seq<char>)
    ensures
        consistent(opened_view(opened_store(store, id, name))),
        opened_view(opened_store(store, id, name)).active_environment() is Some,
{
    let first = with_default_environment(store, id, name);
    let opened = opened_store(store, id, name);
    assert(first.environments.len() > 0);
    lemma_known(first.environments, 0);
    let view = blank_view(opened).with_environment_settings();
    assert(consistent(view));
    if opened.requests.len() > 0 {
        law_opening_consistent(view, opened.requests[0].id);
    }
}

/// Adding a folder or a request keeps the workbench consistent; the new item is open.
pub proof fn law_adding_consistent(
    view: ApiTestViewModel,
    id: Seq<char>,
    text: Seq<char>,
    protocol: Protocol,
)
    requires
        consistent(view),
    ensures
        consistent(view.committed().pushed_folder(id, text).loaded_folder(id)),
        view.committed().pushed_folder(id, text).loaded_folder(id).active_folder_id == Some(id),
        consistent(view.committed().pushed_request(id, text, protocol).loaded_request(id)),
        view.committed().pushed_request(id, text, protocol).loaded_request(id).active_request_id
            == Some(id),
{
    law_commit_consistent(view, id);
    let committed = view.committed();
    let with_folder = committed.pushed_folder(id, text);
    let with_request = committed.pushed_request(id, text, protocol);
    if committed.active_folder_id is Some {
        lemma_known_in_longer(
            committed.store.folders,
            with_folder.store.folders,
            committed.active_folder_id->0,
        );
    }
    if committed.active_request_id is Some {
        lemma_known_in_longer(
            committed.store.requests,
            with_request.store.requests,
            committed.active_request_id->0,
        );
    }
    lemma_known(with_folder.store.folders, committed.store.folders.len() as int);
    lemma_known(with_request.store.requests, committed.store.requests.len() as int);
    lemma_position(with_folder.store.folders, id);
    lemma_position(with_request.store.requests, id);
    law_opening_consistent(with_folder, id);
    law_opening_consistent(with_request, id);
}

/// What is kept of a list is found in it.
proof fn lemma_known_in_filter<M: NamedModel>(items: Seq<M>, keep: spec_fn(M) -> bool, name: Seq<char>)
    requires
        position(items, name) is Some,
        keep(items[position(items, name)->0]),
    ensures
        position(items.filter(keep), name) is Some,
{
    lemma_position(items, name);
    let i = position(items, name)->0;
    items.lemma_filter_contains(keep, i);
    let k = choose|k: int| 0 <= k < items.filter(keep).len() && items.filter(keep)[k] == items[i];
    lemma_known(items.filter(keep), k);
}

/// Deleting a folder keeps the workbench consistent.
pub proof fn law_folder_deletion_consistent(view: ApiTestViewModel, id: Seq<char>)
    requires
        consistent(view),
    ensures
        consistent(view.deleted_folder(id)),
{
    let removed = subtree_ids(view.store.folders, id);
    let after = view.without_folder(id);
    if after.active_folder_id is Some {
        let active = view.active_folder_id->0;
        lemma_position(view.store.folders, active);
        lemma_known_in_filter(
            view.store.folders,
            |folder: StoredFolderModel| !removed.contains(folder.id),
            active,
        );
    }
    if view.open_item_in_folder(id) && after.store.requests.len() > 0 {
        let first = after.store.requests[0].id;
        let closed = ApiTestViewModel { active_request_id: None, ..after };
        lemma_known(after.store.requests, 0);
        lemma_position(after.store.requests, first);
        law_opening_consistent(closed, first);
    }
}

/// Deleting a folder removes the folder and all below it, and leaves nothing that lies in
/// a removed folder; every other folder and request stays.
pub proof fn law_folder_deletion_exact(
    view: ApiTestViewModel,
    id: Seq<char>,
    folder: StoredFolderModel,
    request: StoredRequestModel,
)
    ensures
        ({
            let removed = subtree_ids(view.store.folders, id);
            let after = view.deleted_folder(id).store;
            &&& removed.contains(id)
            &&& after.folders.contains(folder) <==> view.store.folders.contains(folder)
                && !removed.contains(folder.id)
            &&& after.folders.contains(folder) && folder.parent_id is Some ==> !removed.contains(
                folder.parent_id->0,
            )
            &&& after.requests.contains(request) <==> view.store.requests.contains(request)
                && lies_outside(request, removed)
        }),
{
    let removed = subtree_ids(view.store.folders, id);
    law_subtree_is_least(view.store.folders, id, removed);
    let folders = view.store.folders;
    let requests = view.store.requests;
    let keep_folder = |f: StoredFolderModel| !removed.contains(f.id);
    let keep_request = |r: StoredRequestModel| lies_outside(r, removed);
    let after = view.deleted_folder(id).store;
    assert(after.folders == folders.filter(keep_folder));
    assert(after.requests == requests.filter(keep_request));
    lemma_filter_exact(folders, keep_folder, folder);
    lemma_filter_exact(requests, keep_request, request);
    if after.folders.contains(folder) {
        let k = choose|k: int| 0 <= k < folders.len() && folders[k] == folder;
        assert(folders[k] == folder);
    }
}

/// A filtered list holds exactly the items of the list that pass.
proof fn lemma_filter_exact<T>(items: Seq<T>, keep: spec_fn(T) -> bool, item: T)
    ensures
        items.filter(keep).contains(item) <==> items.contains(item) && keep(item),
    decreases items.len(),
{
    reveal(Seq::filter);
    if items.len() > 0 {
        let before = items.drop_last();
        let kept = before.filter(keep);
        lemma_filter_exact(before, keep, item);
        if items.contains(item) && item != items.last() {
            let k = choose|k: int| 0 <= k < items.len() && items[k] == item;
            assert(before[k] == item);
        }
        if before.contains(item) {
            let k = choose|k: int| 0 <= k < before.len() && before[k] == item;
            assert(items[k] == item);
        }
        assert(items[items.len() - 1] == items.last());
        if keep(items.last()) {
            let all = items.filter(keep);
            assert(all == kept.push(items.last()));
            assert(all[kept.len() as int] == items.last());
            if kept.contains(item) {
                let k = choose|k: int| 0 <= k < kept.len() && kept[k] == item;
                assert(all[k] == item);
            }
            if all.contains(item) && item != items.last() {
                let k = choose|k: int| 0 <= k < all.len() && all[k] == item;
                assert(kept[k] == item);
            }
        }
    }
}

/// Deleting a request keeps the workbench consistent.
pub proof fn law_request_deletion_consistent(view: ApiTestViewModel, id: Seq<char>)
    requires
        consistent(view),
    ensures
        consistent(view.deleted_request(id)),
{
    let requests = view.store.requests;
    lemma_position(requests, id);
    if let Some(i) = position(requests, id) {
        let after = view.without_request(i);
        let left = after.store.requests;
        if view.active_request_id != Some(id) {
            if view.active_request_id is Some {
                let active = view.active_request_id->0;
                lemma_position(requests, active);
                let k = position(requests, active)->0;
                assert(k != i);
                if k < i {
                    assert(left[k] == requests[k]);
                    lemma_known(left, k);
                } else {
                    assert(left[k - 1] == requests[k]);
                    lemma_known(left, k - 1);
                }
            }
        } else if left.len() > 0 {
            let next = if i < left.len() {
                i
            } else {
                i - 1
            };
            lemma_known(left, next);
            lemma_position(left, left[next].id);
        }
    }
}

/// Selecting, adding, renaming and deleting environments keeps the workbench consistent.
pub proof fn law_environments_consistent(view: ApiTestViewModel, id: Seq<char>, name: Seq<char>)
    requires
        consistent(view),
    ensures
        consistent(view.environment_selected(id)),
        consistent(view.environment_created(id, name)),
        consistent(view.environment_renamed(name)),
        consistent(view.environment_deleted()),
{
    law_commit_consistent(view, id);
    let committed = view.committed();
    let environments = committed.store.environments;
    let more = environments.push(new_environment_model(id, name));
    lemma_known(more, environments.len() as int);
    if let Some(active) = committed.store.active_environment_id {
        lemma_position(environments, active);
        let i = position(environments, active)->0;
        lemma_same_names(
            environments,
            i,
            ApiEnvironmentModel { name, ..environments[i] },
            active,
        );
        let left = crate::environments::environments_without(environments, active);
        if left.len() > 0 {
            lemma_known(left, 0);
        }
    }
}

/// Whether no two environments have the same id.
pub open spec fn distinct_environment_ids(environments: Seq<ApiEnvironmentModel>) -> bool {
    forall|i: int, j: int|
        0 <= i < j < environments.len() ==> (#[trigger] environments[i]).id != (
        #[trigger] environments[j]).id
}

/// Deleting the active environment leaves at least one, and one of those left is active.
pub proof fn law_an_environment_stays(view: ApiTestViewModel)
    requires
        consistent(view),
        view.store.environments.len() > 0,
        view.active_environment() is Some,
        distinct_environment_ids(view.store.environments),
    ensures
        view.environment_deleted().store.environments.len() > 0,
        view.environment_deleted().active_environment() is Some,
        view.store.environments.len() > 1 ==> view.environment_deleted().store.environments.len()
            < view.store.environments.len(),
{
    law_commit_consistent(view, Seq::empty());
    crate::commit::law_commit_keeps_items(view);
    let committed = view.committed();
    let environments = committed.store.environments;
    let active = committed.store.active_environment_id->0;
    lemma_commit_positions(view, active);
    lemma_position(environments, active);
    if environments.len() > 1 {
        let i = position(environments, active)->0;
        let other: int = if i == 0 {
            1
        } else {
            0
        };
        let keep = |environment: ApiEnvironmentModel| environment.id != active;
        assert(environments[i].id == view.store.environments[i].id);
        assert(environments[other].id == view.store.environments[other].id);
        assert(environments[other].id != active);
        environments.lemma_filter_contains(keep, other);
        let left = environments.filter(keep);
        assert(left.len() > 0);
        lemma_known(left, 0);
        lemma_filter_shorter(environments, keep, i);
    }
}

/// A filter that drops an item gives a shorter list.
proof fn lemma_filter_shorter<T>(items: Seq<T>, keep: spec_fn(T) -> bool, i: int)
    requires
        0 <= i < items.len(),
        !keep(items[i]),
    ensures
        items.filter(keep).len() < items.len(),
    decreases items.len(),
{
    reveal(Seq::filter);
    if i < items.len() - 1 {
        lemma_filter_shorter(items.drop_last(), keep, i);
    } else {
        items.drop_last().lemma_filter_len(keep);
    }
}

/// Restoring a history entry and importing a collection keep the workbench consistent.
pub proof fn law_arrivals_consistent(
    view: ApiTestViewModel,
    entry: Seq<char>,
    id: Seq<char>,
    new_request: Seq<char>,
    history: Seq<char>,
    imported: crate::collections::ImportedCollectionModel,
)
    requires
        consistent(view),
    ensures
        consistent(view.history_restored(entry, id, new_request, history)),
        consistent(view.collection_imported(imported, id)),
{
    law_commit_consistent(view, id);
    let committed = view.committed();
    if let Some(i) = position(view.store.history, entry) {
        let restored = committed.with_restored(i, id, new_request, history);
        if committed.active_request_id is Some {
            lemma_known_in_longer(
                committed.store.requests,
                restored.store.requests,
                committed.active_request_id->0,
            );
        }
        law_opening_consistent(restored, id);
    }
    let items = committed.with_items(
        imported.name,
        imported.folders,
        imported.requests,
        id,
    );
    if committed.active_request_id is Some {
        lemma_known_in_longer(
            committed.store.requests,
            items.store.requests,
            committed.active_request_id->0,
        );
    }
    if committed.active_folder_id is Some {
        lemma_known_in_longer(
            committed.store.folders,
            items.store.folders,
            committed.active_folder_id->0,
        );
    }
    if let Some(environment) = imported.environment {
        let more = items.store.environments.push(environment);
        lemma_known(more, items.store.environments.len() as int);
    }
    let merged = view.merged_collection(imported, id);
    assert(consistent(merged));
    if imported.requests.len() > 0 {
        law_opening_consistent(merged, imported.requests[0].id);
    }
}

/// What the widgets report, and changes of rows, keep the workbench consistent.
pub proof fn law_editing_consistent(
    view: ApiTestViewModel,
    widget: crate::editing::Widget,
    event: crate::editing::WidgetEvent,
    section: KvSection,
    rows: Seq<KvRowModel>,
)
    requires
        consistent(view),
    ensures
        consistent(view.after_event(widget, event)),
        consistent(view.with_rows(section, rows).committed()),
{
    law_commit_consistent(view, Seq::empty());
    law_commit_consistent(view.protocol_changed(), Seq::empty());
    law_commit_consistent(view.with_rows(section, rows), Seq::empty());
}

/// The request with its headers in both forms: as rows, and as the text of those rows.
pub open spec fn with_both_header_forms(request: StoredRequestModel) -> StoredRequestModel {
    StoredRequestModel {
        header_rows: header_rows_of(request),
        headers: joined_lines(header_lines(header_rows_of(request))),
        ..request
    }
}

/// A request that is opened and read back from the editor is the request itself, with its
/// headers in both forms.
pub proof fn law_opened_request_reads_back(view: ApiTestViewModel, id: Seq<char>)
    requires
        position(view.store.requests, id) is Some,
    ensures
        view.loaded_request(id).snapshot(id) == with_both_header_forms(
            view.store.requests[position(view.store.requests, id)->0],
        ),
{
    lemma_position(view.store.requests, id);
    let request = view.store.requests[position(view.store.requests, id)->0];
    law_rows_hold_entries(request.params, KeyPlaceholder::Key);
    law_rows_hold_entries(request.path_vars, KeyPlaceholder::Key);
    law_rows_hold_entries(request.variables, KeyPlaceholder::Key);
    law_rows_hold_entries(header_rows_of(request), KeyPlaceholder::Header);
    law_rows_hold_entries(request.cookies, KeyPlaceholder::Cookie);
    law_rows_hold_entries(request.body_rows, KeyPlaceholder::Key);
    assert(view.loaded_request(id).snapshot(id) =~= with_both_header_forms(request));
}

/// A folder that is opened and committed at once keeps its settings; only the white space
/// around its name and its base URL goes, and a blank base URL is none.
pub proof fn law_opened_folder_reads_back(view: ApiTestViewModel, id: Seq<char>)
    requires
        position(view.store.folders, id) is Some,
    ensures
        ({
            let folder = view.store.folders[position(view.store.folders, id)->0];
            let opened = view.loaded_folder(id);
            edited_folder(folder, opened.inputs, opened.rows) == (StoredFolderModel {
                name: crate::text::trimmed(folder.name),
                base_url: match folder.base_url {
                    Some(url) => crate::commit::unless_blank(url),
                    None => None,
                },
                ..folder
            })
        }),
{
    lemma_position(view.store.folders, id);
    let folder = view.store.folders[position(view.store.folders, id)->0];
    law_rows_hold_entries(folder.params, KeyPlaceholder::Key);
    law_rows_hold_entries(folder.headers, KeyPlaceholder::Header);
    law_rows_hold_entries(folder.variables, KeyPlaceholder::Key);
    let none = Seq::<char>::empty();
    assert(crate::text::trimmed(none) == none) by {
        crate::text::lemma_trimmed_tight(none);
    }
}

/// Opening a request or a folder, and a change of the protocol, let answers that are under
/// way come to nothing: the generation that they carry is not the current one any more.
pub proof fn law_changes_invalidate_answers(view: ApiTestViewModel, id: Seq<char>)
    ensures
        position(view.store.requests, id) is Some ==> view.loaded_request(id).request_generation
            != view.request_generation,
        position(view.store.folders, id) is Some ==> view.loaded_folder(id).request_generation
            != view.request_generation,
        !view.suppress_commit ==> view.protocol_changed().request_generation
            != view.request_generation,
{
}

/// An import puts everything that arrives below one new folder, and changes no folder and
/// no request that was there.
pub proof fn law_import_adds_only(
    view: ApiTestViewModel,
    imported: crate::collections::ImportedCollectionModel,
    root: Seq<char>,
)
    ensures
        ({
            let before = view.committed().store;
            let after = view.collection_imported(imported, root).store;
            let n = before.folders.len() as int;
            let m = before.requests.len() as int;
            &&& after.folders.take(n) == before.folders
            &&& after.requests.take(m) == before.requests
            &&& after.folders.len() == n + 1 + imported.folders.len()
            &&& after.requests.len() == m + imported.requests.len()
            &&& after.folders[n].id == root && after.folders[n].parent_id is None
            &&& forall|k: int|
                n < k < after.folders.len() ==> (#[trigger] after.folders[k]).parent_id is Some
            &&& forall|k: int|
                m <= k < after.requests.len() ==> (#[trigger] after.requests[k]).folder_id is Some
        }),
{
    let before = view.committed().store;
    let after = view.collection_imported(imported, root).store;
    assert(after.folders.take(before.folders.len() as int) =~= before.folders);
    assert(after.requests.take(before.requests.len() as int) =~= before.requests);
}

} // verus!
