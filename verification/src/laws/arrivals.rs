//! What comes into the store from outside the editor: collections and requests of the history.

use vstd::prelude::*;
use crate::collections::ImportedCollectionModel;
use crate::laws::editor::{shows, shows_request};
use crate::lookup::{lemma_position, position};
use crate::request_store::{StoredFolderModel, StoredRequestModel};
use crate::text::trimmed;
use crate::view_state::{ApiTestViewModel, NoticeModel};

verus! {

/// Whether two requests hold the same, but for their ids, names and folders.
pub open spec fn same_content(a: StoredRequestModel, b: StoredRequestModel) -> bool {
    &&& a.description == b.description
    &&& a.method == b.method
    &&& a.protocol == b.protocol
    &&& a.url == b.url
    &&& a.base_url_override == b.base_url_override
    &&& a.headers == b.headers
    &&& a.params == b.params
    &&& a.path_vars == b.path_vars
    &&& a.variables == b.variables
    &&& a.header_rows == b.header_rows
    &&& a.cookies == b.cookies
    &&& a.body == b.body
    &&& a.body_type == b.body_type
    &&& a.raw_language == b.raw_language
    &&& a.body_rows == b.body_rows
    &&& a.auth.auth_type == b.auth.auth_type
    &&& a.auth.token == b.auth.token
    &&& a.auth.username == b.auth.username
    &&& a.auth.password == b.auth.password
    &&& a.auth.key == b.auth.key
    &&& a.auth.value == b.auth.value
    &&& a.auth.add_to == b.auth.add_to
    &&& a.pre_script == b.pre_script
    &&& a.tests == b.tests
    &&& a.mock == b.mock
    &&& a.last_response == b.last_response
    &&& a.success_example == b.success_example
    &&& a.fail_examples == b.fail_examples
}

/// Whether two folders hold the same, but for the folders they lie in.
pub open spec fn same_folder(a: StoredFolderModel, b: StoredFolderModel) -> bool {
    &&& a.id == b.id
    &&& a.name == b.name
    &&& a.description == b.description
    &&& a.base_url == b.base_url
    &&& a.params == b.params
    &&& a.headers == b.headers
    &&& a.variables == b.variables
}

/// Whether an item lies where an import puts it: in the collection's own folder where it lay
/// in none, and in its own folder otherwise.
pub open spec fn lies_under(
    after: Option<Seq<char>>,
    before: Option<Seq<char>>,
    root: Seq<char>,
) -> bool {
    &&& before is None ==> after == Some(root)
    &&& before is Some ==> after == before
}

/// What an import adds to the requests: behind those that are there, each request of the
/// collection, in their order and with everything that it holds. Those there are as the
/// commit left them.
pub proof fn law_import_brings_the_requests(
    view: ApiTestViewModel,
    imported: ImportedCollectionModel,
    root: Seq<char>,
    k: int,
)
    requires
        0 <= k < imported.requests.len(),
    ensures
        ({
            let before = view.committed().store.requests;
            let after = view.collection_imported(imported, root).store.requests;
            let came = after[before.len() + k];
            &&& after.len() == before.len() + imported.requests.len()
            &&& after.take(before.len() as int) == before
            &&& came.id == imported.requests[k].id
            &&& came.name == imported.requests[k].name
            &&& same_content(came, imported.requests[k])
            &&& lies_under(came.folder_id, imported.requests[k].folder_id, root)
        }),
{
    let before = view.committed().store.requests;
    let after = view.collection_imported(imported, root).store.requests;
    assert(after.take(before.len() as int) =~= before);
}

/// What an import adds to the folders: behind those that are there, a folder of the
/// collection's own at the top of the tree, with the collection's name and no settings, and
/// then each folder of the collection, in their order and with everything that it holds.
pub proof fn law_import_brings_the_folders(
    view: ApiTestViewModel,
    imported: ImportedCollectionModel,
    root: Seq<char>,
    k: int,
)
    ensures
        ({
            let before = view.committed().store.folders;
            let after = view.collection_imported(imported, root).store.folders;
            let own = after[before.len() as int];
            &&& after.len() == before.len() + 1 + imported.folders.len()
            &&& after.take(before.len() as int) == before
            &&& own.id == root
            &&& own.name == imported.name
            &&& own.parent_id is None
            &&& own.description.len() == 0
            &&& own.base_url is None
            &&& own.params.len() == 0
            &&& own.headers.len() == 0
            &&& own.variables.len() == 0
            &&& 0 <= k < imported.folders.len() ==> {
                let came = after[before.len() + 1 + k];
                &&& same_folder(came, imported.folders[k])
                &&& lies_under(came.parent_id, imported.folders[k].parent_id, root)
            }
        }),
{
    let before = view.committed().store.folders;
    let after = view.collection_imported(imported, root).store.folders;
    assert(after.take(before.len() as int) =~= before);
}

/// What an import does besides: the collection's environment, where it has one, is added
/// behind the others as it came and is the active one, and its tables are shown; else the
/// environments stay. Global tables and history stay. The first request that came is open,
/// where one came, and the user is told how many came.
pub proof fn law_import_opens_what_came(
    view: ApiTestViewModel,
    imported: ImportedCollectionModel,
    root: Seq<char>,
)
    ensures
        ({
            let before = view.committed().store;
            let after = view.collection_imported(imported, root);
            &&& after.store.globals == before.globals
            &&& after.store.global_params == before.global_params
            &&& after.store.global_headers == before.global_headers
            &&& after.store.global_cookies == before.global_cookies
            &&& after.store.history == before.history
            &&& imported.environment is None ==> after.store.environments == before.environments
                && after.store.active_environment_id == before.active_environment_id
            &&& imported.environment is Some ==> {
                let environment = imported.environment->0;
                &&& after.store.environments.len() == before.environments.len() + 1
                &&& after.store.environments.take(before.environments.len() as int)
                    == before.environments
                &&& after.store.environments.last() == environment
                &&& after.store.active_environment_id == Some(environment.id)
                &&& position(before.environments, environment.id) is None ==> {
                    &&& shows(after.rows.environment, environment.variables)
                    &&& shows(after.rows.environment_params, environment.params)
                    &&& shows(after.rows.environment_headers, environment.headers)
                    &&& shows(after.rows.environment_cookies, environment.cookies)
                    &&& environment.base_url is Some ==> after.inputs.environment_base_url
                        == environment.base_url->0
                    &&& environment.base_url is None ==> after.inputs.environment_base_url.len()
                        == 0
                }
            }
            &&& after.notice == Some(NoticeModel::ImportSuccess(imported.requests.len()))
            &&& imported.requests.len() == 0 ==> after.active_request_id
                == view.active_request_id && after.active_folder_id == view.active_folder_id
            &&& imported.requests.len() > 0 ==> after.active_request_id == Some(
                imported.requests[0].id,
            ) && after.active_folder_id is None
            &&& imported.requests.len() > 0 && position(
                before.requests,
                imported.requests[0].id,
            ) is None ==> shows_request(after, imported.requests[0])
            &&& after.sidebar_mode == view.sidebar_mode
            &&& after.active_editor_tab == view.active_editor_tab
            &&& after.active_response_tab == view.active_response_tab
        }),
{
    let before = view.committed().store;
    let merged = view.merged_collection(imported, root);
    let after = view.collection_imported(imported, root);
    if let Some(environment) = imported.environment {
        let environments = merged.store.environments;
        assert(environments == before.environments.push(environment));
        assert(environments.take(before.environments.len() as int) =~= before.environments);
        lemma_position(environments, environment.id);
        lemma_position(before.environments, environment.id);
        assert(environments[before.environments.len() as int].id == environment.id);
        if position(before.environments, environment.id) is None {
            let i = position(environments, environment.id)->0;
            if i < before.environments.len() {
                assert(before.environments[i] == environments[i]);
            }
        }
    }
    if imported.requests.len() > 0 {
        let id = imported.requests[0].id;
        let n = before.requests.len() as int;
        assert(merged.store.requests[n].id == id);
        lemma_position(merged.store.requests, id);
        lemma_position(before.requests, id);
        if position(before.requests, id) is None {
            let i = position(merged.store.requests, id)->0;
            if i < n {
                assert(before.requests[i] == merged.store.requests[i]);
            }
        }
    }
}

/// What restoring an entry of the history does: behind the stored requests, as the commit
/// left them, stands the request as it was sent, with everything that it held, under a new id
/// and in no folder. Its name is the one it had, or else its address, or else that of a new
/// request, with the word for the history in brackets. Nothing else of the store changes.
pub proof fn law_restoring_brings_the_request_back(
    view: ApiTestViewModel,
    entry: Seq<char>,
    id: Seq<char>,
    new_request: Seq<char>,
    history: Seq<char>,
    h: int,
)
    requires
        position(view.store.history, entry) == Some(h),
    ensures
        ({
            let sent = view.store.history[h].request;
            let before = view.committed().store;
            let after = view.history_restored(entry, id, new_request, history);
            let back = after.store.requests.last();
            let mark = " ("@ + history + ")"@;
            &&& after.store.requests.len() == before.requests.len() + 1
            &&& after.store.requests.drop_last() == before.requests
            &&& back.id == id
            &&& back.folder_id is None
            &&& same_content(back, sent)
            &&& trimmed(sent.name).len() > 0 ==> back.name == trimmed(sent.name) + mark
            &&& trimmed(sent.name).len() == 0 && trimmed(sent.url).len() > 0 ==> back.name
                == trimmed(sent.url) + mark
            &&& trimmed(sent.name).len() == 0 && trimmed(sent.url).len() == 0 ==> back.name
                == new_request + mark
            &&& after.store.folders == before.folders
            &&& after.store.environments == before.environments
            &&& after.store.active_environment_id == before.active_environment_id
            &&& after.store.globals == before.globals
            &&& after.store.global_params == before.global_params
            &&& after.store.global_headers == before.global_headers
            &&& after.store.global_cookies == before.global_cookies
            &&& after.store.history == view.store.history
        }),
{
    let sent = view.store.history[h].request;
    let before = view.committed().store;
    let after = view.history_restored(entry, id, new_request, history);
    assert(after.store.requests.drop_last() =~= before.requests);
    let mark = " ("@ + history + ")"@;
    let label = crate::tree::label_of_request(sent.name, sent.url, new_request);
    assert(label + " ("@ + history + ")"@ =~= label + mark);
}

/// What restoring an entry of the history shows: the collections, with the restored request
/// in the editor as it was sent. It takes an id that no stored request has.
pub proof fn law_restoring_shows_the_request(
    view: ApiTestViewModel,
    entry: Seq<char>,
    id: Seq<char>,
    new_request: Seq<char>,
    history: Seq<char>,
    h: int,
)
    requires
        position(view.store.history, entry) == Some(h),
        position(view.committed().store.requests, id) is None,
    ensures
        ({
            let sent = view.store.history[h].request;
            let after = view.history_restored(entry, id, new_request, history);
            &&& after.sidebar_mode is Collections
            &&& after.notice == Some(NoticeModel::RestoredFromHistory)
            &&& after.active_request_id == Some(id)
            &&& after.inputs.url == sent.url
            &&& shows_request(
                after,
                (StoredRequestModel { id, name: after.store.requests.last().name, ..sent }),
            )
        }),
{
    let before = view.committed().store.requests;
    let after = view.history_restored(entry, id, new_request, history);
    let requests = view.committed().with_restored(h, id, new_request, history).store.requests;
    lemma_position(before, id);
    lemma_position(requests, id);
    assert(requests[before.len() as int].id == id);
    let i = position(requests, id)->0;
    if i < before.len() {
        assert(before[i] == requests[i]);
    }
    assert(after.store.requests == requests);
    assert(requests.last() == requests[before.len() as int]);
}

/// Restoring an entry that the history does not hold changes nothing.
pub proof fn law_restoring_the_unknown_does_nothing(
    view: ApiTestViewModel,
    entry: Seq<char>,
    id: Seq<char>,
    new_request: Seq<char>,
    history: Seq<char>,
)
    ensures
        position(view.store.history, entry) is None ==> view.history_restored(
            entry,
            id,
            new_request,
            history,
        ) == view,
{
}

/// Clearing the history empties it and leaves everything else as it is.
pub proof fn law_clearing_empties_the_history_alone(view: ApiTestViewModel)
    ensures
        ({
            let after = view.history_cleared();
            &&& after.store.history.len() == 0
            &&& after.store.requests == view.store.requests
            &&& after.store.folders == view.store.folders
            &&& after.store.environments == view.store.environments
            &&& after.store.active_environment_id == view.store.active_environment_id
            &&& after.store.globals == view.store.globals
            &&& after.store.global_params == view.store.global_params
            &&& after.store.global_headers == view.store.global_headers
            &&& after.store.global_cookies == view.store.global_cookies
            &&& after.inputs == view.inputs
            &&& after.selections == view.selections
            &&& after.rows == view.rows
            &&& after.active_request_id == view.active_request_id
            &&& after.active_folder_id == view.active_folder_id
            &&& after.response == view.response
            &&& after.request_generation == view.request_generation
        }),
{
}

} // verus!
