//! What the editor and the store hold of each other.

use vstd::prelude::*;
use crate::headers::{header_lines, joined_lines, parsed_headers};
use crate::http::KeyValueModel;
use crate::lookup::{lemma_position, position};
use crate::request_store::{ApiStoreModel, StoredRequestModel};
use crate::sections::{KeyPlaceholder, KvRowModel};
use crate::text::{lemma_trimmed_is_core, trimmed};
use crate::view_state::ApiTestViewModel;
use crate::workbench::opened_view;

verus! {

/// Whether a table shows a list: one row for each entry, in their order.
pub open spec fn shows(rows: Seq<KvRowModel>, entries: Seq<KeyValueModel>) -> bool {
    &&& rows.len() == entries.len()
    &&& forall|i: int| 0 <= i < rows.len() ==> (#[trigger] rows[i]).entry == entries[i]
}

/// Whether an optional text stands for what is typed: the text without the white space
/// around it, and nothing for a blank one.
pub open spec fn stands_for(stored: Option<Seq<char>>, typed: Seq<char>) -> bool {
    match stored {
        Some(text) => text == trimmed(typed) && text.len() > 0,
        None => trimmed(typed).len() == 0,
    }
}

/// What a commit stores of a request. With a request open, the first stored request with its
/// id holds in each field that the editor shows exactly what the editor holds, whatever was
/// stored before; a selection that was never made stands for its first choice. What the
/// editor does not show stays, and so does every other request and every folder.
pub proof fn law_commit_stores_the_request(view: ApiTestViewModel, k: int)
    requires
        !view.suppress_commit,
        view.active_folder_id is None,
        view.active_request_id is Some,
        position(view.store.requests, view.active_request_id->0) == Some(k),
    ensures
        ({
            let before = view.store.requests[k];
            let after = view.committed().store.requests[k];
            let inputs = view.inputs;
            let selections = view.selections;
            let rows = view.rows;
            &&& 0 <= k < view.store.requests.len()
            &&& position(view.committed().store.requests, view.active_request_id->0) == Some(k)
            &&& after.id == view.active_request_id->0
            &&& after.name == inputs.name
            &&& after.description == inputs.request_description
            &&& after.url == inputs.url
            &&& after.body == inputs.body
            &&& after.pre_script == inputs.pre_script
            &&& after.tests == inputs.tests
            &&& after.auth.token == inputs.auth_token
            &&& after.auth.username == inputs.auth_username
            &&& after.auth.password == inputs.auth_password
            &&& after.auth.key == inputs.auth_key
            &&& after.auth.value == inputs.auth_value
            &&& selections.method is Some ==> after.method == selections.method->0
            &&& selections.method is None ==> after.method is Get
            &&& selections.protocol is Some ==> after.protocol == selections.protocol->0
            &&& selections.protocol is None ==> after.protocol is Http
            &&& selections.body_type is Some ==> after.body_type == selections.body_type->0
            &&& selections.body_type is None ==> after.body_type is NoBody
            &&& selections.raw_language is Some ==> after.raw_language
                == selections.raw_language->0
            &&& selections.raw_language is None ==> after.raw_language is Json
            &&& selections.auth_type is Some ==> after.auth.auth_type == selections.auth_type->0
            &&& selections.auth_type is None ==> after.auth.auth_type is NoAuth
            &&& selections.auth_target is Some ==> after.auth.add_to == selections.auth_target->0
            &&& selections.auth_target is None ==> after.auth.add_to is Header
            &&& shows(rows.params, after.params)
            &&& shows(rows.path, after.path_vars)
            &&& shows(rows.request_variables, after.variables)
            &&& shows(rows.headers, after.header_rows)
            &&& after.headers == joined_lines(header_lines(after.header_rows))
            &&& shows(rows.cookies, after.cookies)
            &&& shows(rows.body, after.body_rows)
            &&& after.folder_id == before.folder_id
            &&& after.base_url_override == before.base_url_override
            &&& after.mock == before.mock
            &&& after.last_response == before.last_response
            &&& after.success_example == before.success_example
            &&& after.fail_examples == before.fail_examples
            &&& view.committed().store.requests.len() == view.store.requests.len()
            &&& forall|j: int|
                0 <= j < view.store.requests.len() && j != k
                    ==> #[trigger] view.committed().store.requests[j] == view.store.requests[j]
            &&& view.committed().store.folders == view.store.folders
        }),
{
    let id = view.active_request_id->0;
    lemma_position(view.store.requests, id);
    lemma_position(view.committed().store.requests, id);
    let before = view.store.requests;
    let after = view.committed().store.requests;
    match position(after, id) {
        Some(j) => {
            if j < k {
                assert(after[j] == before[j]);
            }
            if k < j {
                assert(after[k].id == id);
            }
        },
        None => {
            assert(after[k].id == id);
        },
    }
}

/// Opening a request again right after a commit shows what the editor held before: the same
/// texts, the selections that were made, and the same rows in each table of the request.
pub proof fn law_reopening_shows_what_was_typed(view: ApiTestViewModel)
    requires
        !view.suppress_commit,
        view.active_folder_id is None,
        view.active_request_id is Some,
        position(view.store.requests, view.active_request_id->0) is Some,
    ensures
        ({
            let again = view.committed().loaded_request(view.active_request_id->0);
            &&& again.active_request_id == view.active_request_id
            &&& again.inputs.name == view.inputs.name
            &&& again.inputs.url == view.inputs.url
            &&& again.inputs.request_description == view.inputs.request_description
            &&& again.inputs.body == view.inputs.body
            &&& again.inputs.pre_script == view.inputs.pre_script
            &&& again.inputs.tests == view.inputs.tests
            &&& again.inputs.auth_token == view.inputs.auth_token
            &&& again.inputs.auth_username == view.inputs.auth_username
            &&& again.inputs.auth_password == view.inputs.auth_password
            &&& again.inputs.auth_key == view.inputs.auth_key
            &&& again.inputs.auth_value == view.inputs.auth_value
            &&& again.inputs.search == view.inputs.search
            &&& again.inputs.environment_base_url == view.inputs.environment_base_url
            &&& view.selections.method is Some ==> again.selections.method
                == view.selections.method
            &&& view.selections.protocol is Some ==> again.selections.protocol
                == view.selections.protocol
            &&& view.selections.body_type is Some ==> again.selections.body_type
                == view.selections.body_type
            &&& view.selections.raw_language is Some ==> again.selections.raw_language
                == view.selections.raw_language
            &&& view.selections.auth_type is Some ==> again.selections.auth_type
                == view.selections.auth_type
            &&& view.selections.auth_target is Some ==> again.selections.auth_target
                == view.selections.auth_target
            &&& same_entries(again.rows.params, view.rows.params)
            &&& same_entries(again.rows.path, view.rows.path)
            &&& same_entries(again.rows.request_variables, view.rows.request_variables)
            &&& same_entries(again.rows.headers, view.rows.headers)
            &&& same_entries(again.rows.cookies, view.rows.cookies)
            &&& same_entries(again.rows.body, view.rows.body)
        }),
{
    let k = position(view.store.requests, view.active_request_id->0)->0;
    law_commit_stores_the_request(view, k);
    if view.rows.headers.len() == 0 {
        let none = Seq::<KeyValueModel>::empty();
        assert(view.committed().store.requests[k].header_rows =~= none);
        assert(joined_lines(header_lines(none)) =~= Seq::<char>::empty());
        lemma_trimmed_is_core(Seq::<char>::empty());
    }
}

/// Whether two tables hold the same entries.
pub open spec fn same_entries(a: Seq<KvRowModel>, b: Seq<KvRowModel>) -> bool {
    &&& a.len() == b.len()
    &&& forall|i: int| 0 <= i < a.len() ==> (#[trigger] a[i]).entry == b[i].entry
}

/// What a commit stores of a folder. With a folder open, the first stored folder with its id
/// holds exactly what the editor holds of it, whatever was stored before. Its id and its
/// place stay, and so does every other folder and every request.
pub proof fn law_commit_stores_the_folder(view: ApiTestViewModel, k: int)
    requires
        !view.suppress_commit,
        view.active_folder_id is Some,
        position(view.store.folders, view.active_folder_id->0) == Some(k),
    ensures
        ({
            let before = view.store.folders[k];
            let after = view.committed().store.folders[k];
            &&& 0 <= k < view.store.folders.len()
            &&& after.id == before.id
            &&& after.id == view.active_folder_id->0
            &&& after.parent_id == before.parent_id
            &&& after.name == trimmed(view.inputs.name)
            &&& after.description == view.inputs.folder_description
            &&& stands_for(after.base_url, view.inputs.folder_base_url)
            &&& shows(view.rows.folder_params, after.params)
            &&& shows(view.rows.folder_headers, after.headers)
            &&& shows(view.rows.folder_variables, after.variables)
            &&& view.committed().store.folders.len() == view.store.folders.len()
            &&& forall|j: int|
                0 <= j < view.store.folders.len() && j != k
                    ==> #[trigger] view.committed().store.folders[j] == view.store.folders[j]
            &&& view.committed().store.requests == view.store.requests
        }),
{
    lemma_position(view.store.folders, view.active_folder_id->0);
}

/// What a commit stores of the tables that every request shares: the global tables and those
/// of the active environment hold exactly what the editor shows. The name and id of that
/// environment stay, and so do every other environment and the choice of the active one. The
/// history stays.
pub proof fn law_commit_stores_the_shared_tables(view: ApiTestViewModel, e: int)
    requires
        !view.suppress_commit,
    ensures
        ({
            let store = view.committed().store;
            let active = view.store.active_environment_id;
            let found = active is Some && position(view.store.environments, active->0) == Some(e);
            &&& shows(view.rows.globals, store.globals)
            &&& shows(view.rows.global_params, store.global_params)
            &&& shows(view.rows.global_headers, store.global_headers)
            &&& shows(view.rows.global_cookies, store.global_cookies)
            &&& store.active_environment_id == active
            &&& store.history == view.store.history
            &&& store.environments.len() == view.store.environments.len()
            &&& found ==> {
                let before = view.store.environments[e];
                let after = store.environments[e];
                &&& 0 <= e < store.environments.len()
                &&& after.id == before.id
                &&& after.name == before.name
                &&& stands_for(after.base_url, view.inputs.environment_base_url)
                &&& shows(view.rows.environment, after.variables)
                &&& shows(view.rows.environment_params, after.params)
                &&& shows(view.rows.environment_headers, after.headers)
                &&& shows(view.rows.environment_cookies, after.cookies)
            }
            &&& forall|j: int|
                0 <= j < store.environments.len() && !(active is Some && position(
                    view.store.environments,
                    active->0,
                ) == Some(j)) ==> #[trigger] store.environments[j] == view.store.environments[j]
        }),
{
    if let Some(id) = view.store.active_environment_id {
        lemma_position(view.store.environments, id);
    }
}

/// A commit touches the store alone, and nothing at all while commits are suppressed. With
/// nothing open, or with what is open unknown, it leaves the folders and requests alone.
pub proof fn law_commit_touches_the_store_alone(view: ApiTestViewModel)
    ensures
        ({
            let after = view.committed();
            &&& view.suppress_commit ==> after == view
            &&& after.inputs == view.inputs
            &&& after.selections == view.selections
            &&& after.rows == view.rows
            &&& after.active_request_id == view.active_request_id
            &&& after.active_folder_id == view.active_folder_id
            &&& after.sidebar_mode == view.sidebar_mode
            &&& after.sidebar_collapsed == view.sidebar_collapsed
            &&& after.active_editor_tab == view.active_editor_tab
            &&& after.active_response_tab == view.active_response_tab
            &&& after.sending == view.sending
            &&& after.response == view.response
            &&& after.prepared_request == view.prepared_request
            &&& after.pre_result == view.pre_result
            &&& after.test_result == view.test_result
            &&& after.response_pretty == view.response_pretty
            &&& after.request_generation == view.request_generation
            &&& after.notice == view.notice
            &&& after.suppress_commit == view.suppress_commit
            &&& view.active_folder_id is Some ==> after.store.requests == view.store.requests
            &&& view.active_folder_id is None ==> after.store.folders == view.store.folders
            &&& view.active_folder_id is Some && position(
                view.store.folders,
                view.active_folder_id->0,
            ) is None ==> after.store.folders == view.store.folders
            &&& view.active_request_id is None ==> after.store.requests == view.store.requests
            &&& view.active_request_id is Some && position(
                view.store.requests,
                view.active_request_id->0,
            ) is None ==> after.store.requests == view.store.requests
        }),
{
}

/// Whether the editor shows a request: each text, selection and table is that of the request.
/// One that has its headers as text alone is shown with the rows that the text stands for, and
/// with none where it cannot be read.
pub open spec fn shows_request(view: ApiTestViewModel, request: StoredRequestModel) -> bool {
    let as_text = request.header_rows.len() == 0 && trimmed(request.headers).len() > 0;
    &&& view.active_request_id == Some(request.id)
    &&& view.active_folder_id is None
    &&& view.inputs.name == request.name
    &&& view.inputs.url == request.url
    &&& view.inputs.request_description == request.description
    &&& view.inputs.body == request.body
    &&& view.inputs.pre_script == request.pre_script
    &&& view.inputs.tests == request.tests
    &&& view.inputs.auth_token == request.auth.token
    &&& view.inputs.auth_username == request.auth.username
    &&& view.inputs.auth_password == request.auth.password
    &&& view.inputs.auth_key == request.auth.key
    &&& view.inputs.auth_value == request.auth.value
    &&& view.selections.protocol == Some(request.protocol)
    &&& view.selections.method == Some(request.method)
    &&& view.selections.body_type == Some(request.body_type)
    &&& view.selections.raw_language == Some(request.raw_language)
    &&& view.selections.auth_type == Some(request.auth.auth_type)
    &&& view.selections.auth_target == Some(request.auth.add_to)
    &&& shows(view.rows.params, request.params)
    &&& shows(view.rows.path, request.path_vars)
    &&& shows(view.rows.request_variables, request.variables)
    &&& shows(view.rows.cookies, request.cookies)
    &&& shows(view.rows.body, request.body_rows)
    &&& !as_text ==> shows(view.rows.headers, request.header_rows)
    &&& as_text ==> match parsed_headers(request.headers) {
        Ok(read) => shows(view.rows.headers, read),
        Err(line) => view.rows.headers.len() == 0,
    }
    &&& view.response == request.last_response
}

/// Whether the editor holds the same of a request's texts, selections and tables, but for its
/// name and description.
pub open spec fn request_part_agrees(a: ApiTestViewModel, b: ApiTestViewModel) -> bool {
    &&& a.inputs.url == b.inputs.url
    &&& a.inputs.search == b.inputs.search
    &&& a.inputs.websocket_message == b.inputs.websocket_message
    &&& a.inputs.socket_io_message == b.inputs.socket_io_message
    &&& a.inputs.tcp_message == b.inputs.tcp_message
    &&& a.inputs.body == b.inputs.body
    &&& a.inputs.pre_script == b.inputs.pre_script
    &&& a.inputs.tests == b.inputs.tests
    &&& a.inputs.auth_token == b.inputs.auth_token
    &&& a.inputs.auth_username == b.inputs.auth_username
    &&& a.inputs.auth_password == b.inputs.auth_password
    &&& a.inputs.auth_key == b.inputs.auth_key
    &&& a.inputs.auth_value == b.inputs.auth_value
    &&& a.inputs.environment_base_url == b.inputs.environment_base_url
    &&& a.selections == b.selections
    &&& a.rows.params == b.rows.params
    &&& a.rows.path == b.rows.path
    &&& a.rows.headers == b.rows.headers
    &&& a.rows.cookies == b.rows.cookies
    &&& a.rows.body == b.rows.body
    &&& a.rows.request_variables == b.rows.request_variables
}

/// What opening a request shows: each text, selection and table of the editor is that of the
/// stored request, with its last response. The tables of a folder are empty. The search text,
/// the message drafts, the environment's and the global tables stay, and so does the store.
/// A request that has its headers as text alone is shown with the rows that the text stands
/// for, and with none where it cannot be read.
pub proof fn law_opening_shows_the_request(view: ApiTestViewModel, id: Seq<char>, k: int)
    requires
        position(view.store.requests, id) == Some(k),
    ensures
        ({
            let stored = view.store.requests[k];
            let after = view.loaded_request(id);
            &&& stored.id == id
            &&& shows_request(after, stored)
            &&& after.inputs.folder_description.len() == 0
            &&& after.inputs.folder_base_url.len() == 0
            &&& after.inputs.search == view.inputs.search
            &&& after.inputs.websocket_message == view.inputs.websocket_message
            &&& after.inputs.socket_io_message == view.inputs.socket_io_message
            &&& after.inputs.tcp_message == view.inputs.tcp_message
            &&& after.inputs.environment_base_url == view.inputs.environment_base_url
            &&& after.rows.folder_params.len() == 0
            &&& after.rows.folder_headers.len() == 0
            &&& after.rows.folder_variables.len() == 0
            &&& shared_rows_agree(after, view)
            &&& nothing_under_way(after, view)
            &&& panels_agree(after, view)
            &&& after.store == view.store
        }),
{
    lemma_position(view.store.requests, id);
}

/// Whether two views show the same global tables and the same tables of the environment.
pub open spec fn shared_rows_agree(a: ApiTestViewModel, b: ApiTestViewModel) -> bool {
    &&& a.rows.globals == b.rows.globals
    &&& a.rows.global_params == b.rows.global_params
    &&& a.rows.global_headers == b.rows.global_headers
    &&& a.rows.global_cookies == b.rows.global_cookies
    &&& a.rows.environment == b.rows.environment
    &&& a.rows.environment_params == b.rows.environment_params
    &&& a.rows.environment_headers == b.rows.environment_headers
    &&& a.rows.environment_cookies == b.rows.environment_cookies
}

/// Whether the panels stand as they stood: the sidebar, the open tabs, and how a response is
/// shown.
pub open spec fn panels_agree(a: ApiTestViewModel, b: ApiTestViewModel) -> bool {
    &&& a.sidebar_mode == b.sidebar_mode
    &&& a.sidebar_collapsed == b.sidebar_collapsed
    &&& a.active_editor_tab == b.active_editor_tab
    &&& a.active_response_tab == b.active_response_tab
    &&& a.response_pretty == b.response_pretty
}

/// Whether nothing is under way any more: no request is being sent, nothing is left of the
/// last one's preparation and scripts, no notice is shown, commits are taken, and an answer to
/// what was sent before comes to nothing.
pub open spec fn nothing_under_way(after: ApiTestViewModel, before: ApiTestViewModel) -> bool {
    &&& !after.sending
    &&& after.prepared_request is None
    &&& after.pre_result is None
    &&& after.test_result is None
    &&& after.notice is None
    &&& !after.suppress_commit
    &&& after.request_generation != before.request_generation
}

/// What opening a folder shows: its name, description, base address and tables. What the
/// editor held of a request's own texts, selections and tables stays, but for the request's
/// description and the response, which are gone. The store stays.
pub proof fn law_opening_shows_the_folder(view: ApiTestViewModel, id: Seq<char>, k: int)
    requires
        position(view.store.folders, id) == Some(k),
    ensures
        ({
            let stored = view.store.folders[k];
            let after = view.loaded_folder(id);
            &&& after.active_folder_id == Some(id)
            &&& after.active_request_id is None
            &&& after.inputs.name == stored.name
            &&& after.inputs.folder_description == stored.description
            &&& stored.base_url is Some ==> after.inputs.folder_base_url == stored.base_url->0
            &&& stored.base_url is None ==> after.inputs.folder_base_url.len() == 0
            &&& after.inputs.request_description.len() == 0
            &&& request_part_agrees(after, view)
            &&& shows(after.rows.folder_params, stored.params)
            &&& shows(after.rows.folder_headers, stored.headers)
            &&& shows(after.rows.folder_variables, stored.variables)
            &&& shared_rows_agree(after, view)
            &&& after.response is None
            &&& nothing_under_way(after, view)
            &&& panels_agree(after, view)
            &&& after.store == view.store
        }),
{
    lemma_position(view.store.folders, id);
}

/// Opening a request or a folder that is not stored changes nothing.
pub proof fn law_opening_the_unknown_does_nothing(view: ApiTestViewModel, id: Seq<char>)
    ensures
        position(view.store.requests, id) is None ==> view.loaded_request(id) == view,
        position(view.store.folders, id) is None ==> view.loaded_folder(id) == view,
{
}

/// Whether every row of a table asks for the same kind of key.
pub open spec fn asks_for(rows: Seq<KvRowModel>, placeholder: KeyPlaceholder) -> bool {
    forall|i: int| 0 <= i < rows.len() ==> (#[trigger] rows[i]).placeholder == placeholder
}

/// The rows of an opened request and of an opened folder ask for what their tables hold: those
/// of headers for the name of a header, those of cookies for that of a cookie, and all others
/// for a key.
pub proof fn law_opened_rows_ask_for_their_keys(view: ApiTestViewModel, id: Seq<char>)
    ensures
        position(view.store.requests, id) is Some ==> {
            let rows = view.loaded_request(id).rows;
            &&& asks_for(rows.params, KeyPlaceholder::Key)
            &&& asks_for(rows.path, KeyPlaceholder::Key)
            &&& asks_for(rows.request_variables, KeyPlaceholder::Key)
            &&& asks_for(rows.body, KeyPlaceholder::Key)
            &&& asks_for(rows.headers, KeyPlaceholder::Header)
            &&& asks_for(rows.cookies, KeyPlaceholder::Cookie)
        },
        position(view.store.folders, id) is Some ==> {
            let rows = view.loaded_folder(id).rows;
            &&& asks_for(rows.folder_params, KeyPlaceholder::Key)
            &&& asks_for(rows.folder_variables, KeyPlaceholder::Key)
            &&& asks_for(rows.folder_headers, KeyPlaceholder::Header)
        },
{
}

/// The rows of the environment that is shown, and those of the global tables at the start, ask
/// for what their tables hold.
pub proof fn law_shared_rows_ask_for_their_keys(view: ApiTestViewModel, store: ApiStoreModel)
    ensures
        ({
            let rows = view.with_environment_settings().rows;
            &&& asks_for(rows.environment, KeyPlaceholder::Key)
            &&& asks_for(rows.environment_params, KeyPlaceholder::Key)
            &&& asks_for(rows.environment_headers, KeyPlaceholder::Header)
            &&& asks_for(rows.environment_cookies, KeyPlaceholder::Cookie)
        }),
        ({
            let rows = opened_view(store).rows;
            &&& asks_for(rows.globals, KeyPlaceholder::Key)
            &&& asks_for(rows.global_params, KeyPlaceholder::Key)
            &&& asks_for(rows.global_headers, KeyPlaceholder::Header)
            &&& asks_for(rows.global_cookies, KeyPlaceholder::Cookie)
        }),
{
}

} // verus!
