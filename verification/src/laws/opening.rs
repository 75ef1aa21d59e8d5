//! How the workbench starts.

use vstd::prelude::*;
use crate::laws::editor::{shows, shows_request};
use crate::laws::switching::shows_environment;
use crate::lookup::{lemma_position, position};
use crate::request_store::ApiStoreModel;
use crate::workbench::{opened_store, opened_view};

verus! {

/// What a store is taken for at the start. One with environments keeps them as they are, and
/// one without gets one under the given id and name, without settings. The active environment
/// is the one that was chosen where it is stored, and else the first. All else stays.
pub proof fn law_a_start_has_an_environment(
    store: ApiStoreModel,
    id: Seq<char>,
    name: Seq<char>,
)
    ensures
        ({
            let after = opened_store(store, id, name);
            let chosen = store.active_environment_id;
            &&& store.environments.len() > 0 ==> after.environments == store.environments
            &&& store.environments.len() == 0 ==> {
                &&& after.environments.len() == 1
                &&& after.environments[0].id == id
                &&& after.environments[0].name == name
                &&& after.environments[0].base_url is None
                &&& after.environments[0].params.len() == 0
                &&& after.environments[0].headers.len() == 0
                &&& after.environments[0].cookies.len() == 0
                &&& after.environments[0].variables.len() == 0
                &&& after.active_environment_id == Some(id)
            }
            &&& store.environments.len() > 0 && chosen is Some && position(
                store.environments,
                chosen->0,
            ) is Some ==> after.active_environment_id == chosen
            &&& store.environments.len() > 0 && (chosen is None || position(
                store.environments,
                chosen->0,
            ) is None) ==> after.active_environment_id == Some(store.environments[0].id)
            &&& position(after.environments, after.active_environment_id->0) is Some
            &&& after.folders == store.folders
            &&& after.requests == store.requests
            &&& after.globals == store.globals
            &&& after.global_params == store.global_params
            &&& after.global_headers == store.global_headers
            &&& after.global_cookies == store.global_cookies
            &&& after.history == store.history
        }),
{
    let after = opened_store(store, id, name);
    if after.active_environment_id is Some {
        lemma_position(after.environments, after.active_environment_id->0);
    }
    if store.active_environment_id is Some {
        lemma_position(after.environments, store.active_environment_id->0);
    }
}

/// What the workbench shows at the start: the global tables and the settings of the active
/// environment as they are stored, and the first request, where there is one. Nothing else is
/// open, no answer is awaited and the search is empty.
pub proof fn law_a_start_shows_the_store(store: ApiStoreModel, e: int)
    ensures
        ({
            let view = opened_view(store);
            &&& view.store == store
            &&& shows(view.rows.globals, store.globals)
            &&& shows(view.rows.global_params, store.global_params)
            &&& shows(view.rows.global_headers, store.global_headers)
            &&& shows(view.rows.global_cookies, store.global_cookies)
            &&& store.active_environment_id is Some && position(
                store.environments,
                store.active_environment_id->0,
            ) == Some(e) ==> shows_environment(view, store.environments[e])
            &&& view.active_folder_id is None
            &&& view.inputs.search.len() == 0
            &&& view.inputs.websocket_message.len() == 0
            &&& view.inputs.socket_io_message.len() == 0
            &&& view.inputs.tcp_message.len() == 0
            &&& view.sidebar_mode is Collections
            &&& !view.sidebar_collapsed
            &&& view.active_editor_tab is Params
            &&& view.active_response_tab is Body
            &&& view.response_pretty
            &&& !view.sending
            &&& view.prepared_request is None
            &&& view.pre_result is None
            &&& view.test_result is None
            &&& view.notice is None
            &&& !view.suppress_commit
            &&& store.requests.len() == 0 ==> {
                &&& view.active_request_id is None
                &&& view.inputs.name.len() == 0
                &&& view.inputs.url.len() == 0
                &&& view.inputs.body.len() == 0
                &&& view.response is None
            }
            &&& store.requests.len() > 0 ==> shows_request(view, store.requests[0])
        }),
{
    if store.requests.len() > 0 {
        lemma_position(store.requests, store.requests[0].id);
    }
}

} // verus!
