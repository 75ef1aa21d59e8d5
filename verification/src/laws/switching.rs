//! The environments of the workbench.

use vstd::prelude::*;
use crate::environments::environments_without;
use crate::laws::editor::{
    law_commit_stores_the_shared_tables, panels_agree, same_entries, shows,
};
use crate::laws::items::{keeps, lemma_filter_keeps};
use crate::lookup::{lemma_position, position};
use crate::request_store::{ApiEnvironmentModel, ApiStoreModel};
use crate::scripting::ScriptResultModel;
use crate::text::trimmed;
use crate::view_state::{ApiTestViewModel, NoticeModel};
use crate::workbench::lemma_commit_positions;

verus! {

/// Whether two stores hold the same but for their environments.
pub open spec fn other_items_agree(a: ApiStoreModel, b: ApiStoreModel) -> bool {
    &&& a.folders == b.folders
    &&& a.requests == b.requests
    &&& a.globals == b.globals
    &&& a.global_params == b.global_params
    &&& a.global_headers == b.global_headers
    &&& a.global_cookies == b.global_cookies
    &&& a.history == b.history
}

/// Whether the editor shows the settings of an environment.
pub open spec fn shows_environment(
    view: ApiTestViewModel,
    environment: ApiEnvironmentModel,
) -> bool {
    &&& environment.base_url is Some ==> view.inputs.environment_base_url
        == environment.base_url->0
    &&& environment.base_url is None ==> view.inputs.environment_base_url.len() == 0
    &&& shows(view.rows.environment, environment.variables)
    &&& shows(view.rows.environment_params, environment.params)
    &&& shows(view.rows.environment_headers, environment.headers)
    &&& shows(view.rows.environment_cookies, environment.cookies)
}

/// Whether all of the editor but the environment's settings stands as it stood.
pub open spec fn rest_of_editor_agrees(a: ApiTestViewModel, b: ApiTestViewModel) -> bool {
    &&& a.inputs.name == b.inputs.name
    &&& a.inputs.search == b.inputs.search
    &&& a.inputs.url == b.inputs.url
    &&& a.inputs.request_description == b.inputs.request_description
    &&& a.inputs.websocket_message == b.inputs.websocket_message
    &&& a.inputs.socket_io_message == b.inputs.socket_io_message
    &&& a.inputs.tcp_message == b.inputs.tcp_message
    &&& a.inputs.body == b.inputs.body
    &&& a.inputs.pre_script == b.inputs.pre_script
    &&& a.inputs.tests == b.inputs.tests
    &&& a.inputs.auth_token == b.inputs.auth_token
    &&& a.inputs.auth_username == b.inputs.auth_username
    &&& a.inputs.auth_password == b.inputs.auth_password
    &&& a.inputs.auth_key == b.inputs.auth_key
    &&& a.inputs.auth_value == b.inputs.auth_value
    &&& a.inputs.folder_base_url == b.inputs.folder_base_url
    &&& a.inputs.folder_description == b.inputs.folder_description
    &&& a.selections == b.selections
    &&& a.rows.params == b.rows.params
    &&& a.rows.path == b.rows.path
    &&& a.rows.headers == b.rows.headers
    &&& a.rows.cookies == b.rows.cookies
    &&& a.rows.body == b.rows.body
    &&& a.rows.request_variables == b.rows.request_variables
    &&& a.rows.folder_params == b.rows.folder_params
    &&& a.rows.folder_headers == b.rows.folder_headers
    &&& a.rows.folder_variables == b.rows.folder_variables
    &&& a.rows.globals == b.rows.globals
    &&& a.rows.global_params == b.rows.global_params
    &&& a.rows.global_headers == b.rows.global_headers
    &&& a.rows.global_cookies == b.rows.global_cookies
    &&& a.active_request_id == b.active_request_id
    &&& a.active_folder_id == b.active_folder_id
    &&& a.response == b.response
    &&& a.prepared_request == b.prepared_request
    &&& a.pre_result == b.pre_result
    &&& a.test_result == b.test_result
    &&& a.sending == b.sending
    &&& a.request_generation == b.request_generation
    &&& panels_agree(a, b)
}

/// What selecting another environment does: what the editor holds is stored, the selected one
/// is the active one, and its settings are shown as they are stored. No environment changes
/// but by the commit. Selecting the active one does nothing, and selecting one that is not
/// stored only commits.
pub proof fn law_selecting_an_environment(view: ApiTestViewModel, id: Seq<char>, e: int)
    ensures
        view.store.active_environment_id == Some(id) ==> view.environment_selected(id) == view,
        view.store.active_environment_id != Some(id) && position(
            view.store.environments,
            id,
        ) is None ==> view.environment_selected(id) == view.committed(),
        view.store.active_environment_id != Some(id) && position(view.store.environments, id)
            == Some(e) ==> {
            let after = view.environment_selected(id);
            &&& after.store.active_environment_id == Some(id)
            &&& after.store.environments == view.committed().store.environments
            &&& other_items_agree(after.store, view.committed().store)
            &&& after.store.environments[e] == view.store.environments[e]
            &&& shows_environment(after, view.store.environments[e])
            &&& rest_of_editor_agrees(after, view)
            &&& after.notice == view.notice
            &&& !after.suppress_commit
        },
{
    lemma_position(view.store.environments, id);
    if !view.suppress_commit {
        lemma_commit_positions(view, id);
    }
    if let Some(active) = view.store.active_environment_id {
        lemma_position(view.store.environments, active);
    }
}

/// What is typed for an environment is there when it is selected again: after a change to
/// another one and back, its name, id and settings are those that the editor held.
pub proof fn law_environments_remember(
    view: ApiTestViewModel,
    active: Seq<char>,
    other: Seq<char>,
)
    requires
        !view.suppress_commit,
        view.store.active_environment_id == Some(active),
        active != other,
        position(view.store.environments, active) is Some,
        position(view.store.environments, other) is Some,
    ensures
        ({
            let back = view.environment_selected(other).environment_selected(active);
            &&& back.store.active_environment_id == Some(active)
            &&& same_entries(back.rows.environment, view.rows.environment)
            &&& same_entries(
                back.rows.environment_params,
                view.rows.environment_params,
            )
            &&& same_entries(
                back.rows.environment_headers,
                view.rows.environment_headers,
            )
            &&& same_entries(
                back.rows.environment_cookies,
                view.rows.environment_cookies,
            )
            &&& back.inputs.environment_base_url == trimmed(
                view.inputs.environment_base_url,
            )
        }),
{
    let e = position(view.store.environments, active)->0;
    let o = position(view.store.environments, other)->0;
    lemma_position(view.store.environments, active);
    lemma_position(view.store.environments, other);
    lemma_commit_positions(view, active);
    lemma_commit_positions(view, other);
    let there = view.environment_selected(other);
    law_selecting_an_environment(view, other, o);
    law_commit_stores_the_shared_tables(view, e);
    law_selecting_an_environment(there, active, e);
    let stored = view.committed().store.environments[e];
    assert(there.store.environments[e] == stored);
    if stored.base_url is None {
        let typed = trimmed(view.inputs.environment_base_url);
        let back = there.environment_selected(active);
        assert(back.inputs.environment_base_url =~= typed);
    }
}

/// What creating an environment does: behind the stored ones, as the commit left them, stands
/// one more under the given id and name, without settings; it is the active one.
pub proof fn law_creating_an_environment(view: ApiTestViewModel, id: Seq<char>, name: Seq<char>)
    ensures
        ({
            let before = view.committed().store;
            let after = view.environment_created(id, name);
            let created = after.store.environments.last();
            &&& after.store.environments.len() == before.environments.len() + 1
            &&& after.store.environments.drop_last() == before.environments
            &&& created.id == id
            &&& created.name == name
            &&& created.base_url is None
            &&& created.params.len() == 0
            &&& created.headers.len() == 0
            &&& created.cookies.len() == 0
            &&& created.variables.len() == 0
            &&& after.store.active_environment_id == Some(id)
            &&& other_items_agree(after.store, before)
            &&& rest_of_editor_agrees(after, view)
            &&& position(before.environments, id) is None ==> shows_environment(after, created)
        }),
{
    let before = view.committed().store.environments;
    let environments = view.environment_created(id, name).store.environments;
    assert(environments.drop_last() =~= before);
    assert(environments[before.len() as int].id == id);
    assert(environments.last() == environments[before.len() as int]);
    lemma_position(environments, id);
    lemma_position(before, id);
    let i = position(environments, id)->0;
    if position(before, id) is None && i < before.len() {
        assert(before[i] == environments[i]);
    }
}

/// What renaming the active environment does: it has the given name and keeps its id and
/// settings, as the commit left them. No other environment changes.
pub proof fn law_renaming_an_environment(view: ApiTestViewModel, name: Seq<char>, e: int)
    ensures
        ({
            let before = view.committed().store;
            let after = view.environment_renamed(name);
            let active = before.active_environment_id;
            let found = active is Some && position(before.environments, active->0) == Some(e);
            &&& after.store.environments.len() == before.environments.len()
            &&& after.store.active_environment_id == view.store.active_environment_id
            &&& other_items_agree(after.store, before)
            &&& after.inputs == view.inputs
            &&& after.rows == view.rows
            &&& found ==> {
                &&& after.store.environments[e].name == name
                &&& after.store.environments[e].id == before.environments[e].id
                &&& after.store.environments[e].base_url == before.environments[e].base_url
                &&& after.store.environments[e].params == before.environments[e].params
                &&& after.store.environments[e].headers == before.environments[e].headers
                &&& after.store.environments[e].cookies == before.environments[e].cookies
                &&& after.store.environments[e].variables == before.environments[e].variables
            }
            &&& forall|j: int|
                0 <= j < before.environments.len() && !(active is Some && position(
                    before.environments,
                    active->0,
                ) == Some(j)) ==> #[trigger] after.store.environments[j] == before.environments[j]
        }),
{
    let before = view.committed().store;
    if let Some(active) = before.active_environment_id {
        lemma_position(before.environments, active);
    }
}

/// What deleting the active environment does. The last one stays, and the user is told so.
/// Else the environments with the active id go, all others stay as they are and in their
/// order, the first one left is the active one, and its settings are shown.
pub proof fn law_deleting_an_environment(view: ApiTestViewModel) -> (from: Seq<int>)
    ensures
        view.store.environments.len() <= 1 ==> {
            let after = view.environment_deleted();
            &&& after.store == view.store
            &&& after.inputs == view.inputs
            &&& after.rows == view.rows
            &&& after.selections == view.selections
            &&& after.notice == Some(NoticeModel::CannotDeleteLastEnvironment)
            &&& rest_of_editor_agrees(after, view)
        },
        view.store.environments.len() > 1 && view.store.active_environment_id is None
            ==> view.environment_deleted() == view.committed(),
        view.store.environments.len() > 1 && view.store.active_environment_id is Some ==> {
            let before = view.committed().store;
            let after = view.environment_deleted();
            let active = view.store.active_environment_id->0;
            let left = after.store.environments;
            &&& keeps(
                left,
                before.environments,
                |environment: ApiEnvironmentModel| environment.id != active,
                from,
            )
            &&& other_items_agree(after.store, before)
            &&& rest_of_editor_agrees(after, view)
            &&& left.len() > 0 ==> after.store.active_environment_id == Some(left[0].id)
                && shows_environment(after, left[0])
            &&& left.len() == 0 ==> after.store.active_environment_id is None
        },
{
    let before = view.committed().store;
    if view.store.environments.len() > 1 && view.store.active_environment_id is Some {
        let active = view.store.active_environment_id->0;
        let stays = |environment: ApiEnvironmentModel| environment.id != active;
        let left = environments_without(before.environments, active);
        let from = lemma_filter_keeps(before.environments, stays);
        assert(left == before.environments.filter(stays));
        if left.len() > 0 {
            lemma_position(left, left[0].id);
        }
        from
    } else {
        Seq::empty()
    }
}

/// The selection of environments offers each of them, in their order, with its own id and
/// name, and marks the first one with the active id.
pub proof fn law_choices_are_the_environments(view: ApiTestViewModel, i: int)
    ensures
        view.environment_choices().len() == view.store.environments.len(),
        0 <= i < view.store.environments.len() ==> view.environment_choices()[i].id
            == view.store.environments[i].id && view.environment_choices()[i].name
            == view.store.environments[i].name,
        view.store.active_environment_id is None ==> view.selected_environment() is None,
        view.selected_environment() == Some(i) ==> 0 <= i < view.store.environments.len()
            && view.store.active_environment_id == Some(view.store.environments[i].id),
        view.selected_environment() is None && view.store.active_environment_id is Some && 0 <= i
            < view.store.environments.len() ==> view.store.environments[i].id
            != view.store.active_environment_id->0,
{
    if let Some(active) = view.store.active_environment_id {
        lemma_position(view.store.environments, active);
    }
}

/// What a script changes: the variables of the active environment alone. Without an active
/// environment it changes nothing.
pub proof fn law_scripts_change_the_variables_alone(
    view: ApiTestViewModel,
    result: ScriptResultModel,
)
    ensures
        ({
            let after = view.with_script_effects(result);
            let active = view.store.active_environment_id;
            let found = if active is Some {
                position(view.store.environments, active->0)
            } else {
                None
            };
            &&& found is None ==> after == view
            &&& other_items_agree(after.store, view.store)
            &&& after.store.active_environment_id == active
            &&& after.store.environments.len() == view.store.environments.len()
            &&& after.inputs == view.inputs
            &&& after.rows == view.rows
            &&& after.selections == view.selections
            &&& after.response == view.response
            &&& found is Some ==> {
                let a = after.store.environments[found->0];
                let b = view.store.environments[found->0];
                &&& a.id == b.id
                &&& a.name == b.name
                &&& a.base_url == b.base_url
                &&& a.params == b.params
                &&& a.headers == b.headers
                &&& a.cookies == b.cookies
            }
            &&& forall|j: int|
                0 <= j < view.store.environments.len() && found != Some(j)
                    ==> #[trigger] after.store.environments[j] == view.store.environments[j]
        }),
{
    if let Some(active) = view.store.active_environment_id {
        lemma_position(view.store.environments, active);
    }
}

} // verus!
