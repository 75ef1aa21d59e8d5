//! Adding, removing and selecting folders and requests.

use vstd::prelude::*;
use crate::folders::{law_subtree_is_least, subtree_ids};
use crate::http::Protocol;
use crate::laws::editor::{
    panels_agree, request_part_agrees, shared_rows_agree, shows, shows_request,
};
use crate::lookup::{lemma_position, position};
use crate::navigation::lies_outside;
use crate::request_store::{ApiStoreModel, StoredFolderModel, StoredRequestModel};
use crate::text::decimal_text;
use crate::view_state::ApiTestViewModel;
use crate::workbench::lemma_commit_positions;

verus! {

/// Whether two stores hold the same but for their folders and requests.
pub open spec fn other_tables_agree(a: ApiStoreModel, b: ApiStoreModel) -> bool {
    &&& a.environments == b.environments
    &&& a.active_environment_id == b.active_environment_id
    &&& a.globals == b.globals
    &&& a.global_params == b.global_params
    &&& a.global_headers == b.global_headers
    &&& a.global_cookies == b.global_cookies
    &&& a.history == b.history
}

/// Whether a new item goes to the folder `parent`: the open folder, or else the one of the
/// open request, or else none.
pub open spec fn goes_to(view: ApiTestViewModel, parent: Option<Seq<char>>) -> bool {
    &&& view.active_folder_id is Some ==> parent == view.active_folder_id
    &&& view.active_folder_id is None && view.active_request_id is None ==> parent is None
    &&& view.active_folder_id is None && view.active_request_id is Some ==> {
        let at = position(view.store.requests, view.active_request_id->0);
        &&& at is Some ==> parent == view.store.requests[at->0].folder_id
        &&& at is None ==> parent is None
    }
}

proof fn lemma_commit_keeps_the_parent(view: ApiTestViewModel, parent: Option<Seq<char>>)
    ensures
        goes_to(view, parent) == goes_to(view.committed(), parent),
{
    if view.active_folder_id is None && view.active_request_id is Some {
        let id = view.active_request_id->0;
        let before = view.store.requests;
        let after = view.committed().store.requests;
        lemma_position(before, id);
        lemma_position(after, id);
        if let Some(k) = position(before, id) {
            assert(after[k].id == id);
            let j = position(after, id)->0;
            if j < k {
                assert(after[j] == before[j]);
            }
        }
    }
}

/// What adding a request does: behind the stored requests, as the commit left them, stands one
/// more. It is named by the given text and its number, has the given id and protocol, the
/// method GET and nothing else, and lies in the open folder or else beside the open request.
pub proof fn law_adding_a_request(
    view: ApiTestViewModel,
    id: Seq<char>,
    text: Seq<char>,
    protocol: Protocol,
)
    ensures
        ({
            let before = view.committed().store;
            let after = view.committed().pushed_request(id, text, protocol).loaded_request(id);
            let added = after.store.requests.last();
            &&& after.store.requests.len() == before.requests.len() + 1
            &&& after.store.requests.drop_last() == before.requests
            &&& after.store.folders == before.folders
            &&& other_tables_agree(after.store, before)
            &&& added.id == id
            &&& added.name == text + " "@ + decimal_text(after.store.requests.len())
            &&& added.protocol == protocol
            &&& added.method is Get
            &&& goes_to(view, added.folder_id)
            &&& added.url.len() == 0
            &&& added.description.len() == 0
            &&& added.base_url_override is None
            &&& added.headers.len() == 0
            &&& added.params.len() == 0
            &&& added.path_vars.len() == 0
            &&& added.variables.len() == 0
            &&& added.header_rows.len() == 0
            &&& added.cookies.len() == 0
            &&& added.body.len() == 0
            &&& added.body_type is NoBody
            &&& added.raw_language is Json
            &&& added.body_rows.len() == 0
            &&& added.auth.auth_type is NoAuth
            &&& added.auth.token.len() == 0
            &&& added.auth.username.len() == 0
            &&& added.auth.password.len() == 0
            &&& added.auth.key.len() == 0
            &&& added.auth.value.len() == 0
            &&& added.auth.add_to is Header
            &&& added.pre_script.len() == 0
            &&& added.tests.len() == 0
            &&& added.mock is None
            &&& added.last_response is None
            &&& added.success_example is None
            &&& added.fail_examples.len() == 0
            &&& after.active_request_id == Some(id)
            &&& after.active_folder_id is None
            &&& position(before.requests, id) is None ==> {
                &&& shows_request(after, added)
                &&& shared_rows_agree(after, view)
                &&& panels_agree(after, view)
            }
        }),
{
    let before = view.committed().store.requests;
    let pushed = view.committed().pushed_request(id, text, protocol).store.requests;
    assert(pushed.drop_last() =~= before);
    assert(pushed.last() == pushed[before.len() as int]);
    assert(pushed[before.len() as int].id == id);
    lemma_position(pushed, id);
    lemma_position(before, id);
    let i = position(pushed, id)->0;
    if position(before, id) is None && i < before.len() {
        assert(before[i] == pushed[i]);
    }
    lemma_commit_keeps_the_parent(view, pushed.last().folder_id);
}

/// What adding a folder does: behind the stored folders, as the commit left them, stands one
/// more. It is named by the given text and its number, has the given id and no settings, and
/// lies in the open folder or else beside the open request.
pub proof fn law_adding_a_folder(view: ApiTestViewModel, id: Seq<char>, text: Seq<char>)
    ensures
        ({
            let before = view.committed().store;
            let after = view.committed().pushed_folder(id, text).loaded_folder(id);
            let added = after.store.folders.last();
            &&& after.store.folders.len() == before.folders.len() + 1
            &&& after.store.folders.drop_last() == before.folders
            &&& after.store.requests == before.requests
            &&& other_tables_agree(after.store, before)
            &&& added.id == id
            &&& added.name == text + " "@ + decimal_text(after.store.folders.len())
            &&& goes_to(view, added.parent_id)
            &&& added.description.len() == 0
            &&& added.base_url is None
            &&& added.params.len() == 0
            &&& added.headers.len() == 0
            &&& added.variables.len() == 0
            &&& after.active_folder_id == Some(id)
            &&& after.active_request_id is None
            &&& position(before.folders, id) is None ==> {
                &&& after.inputs.name == added.name
                &&& after.inputs.folder_description.len() == 0
                &&& after.inputs.folder_base_url.len() == 0
                &&& after.rows.folder_params.len() == 0
                &&& after.rows.folder_headers.len() == 0
                &&& after.rows.folder_variables.len() == 0
            }
        }),
{
    let before = view.committed().store.folders;
    let pushed = view.committed().pushed_folder(id, text).store.folders;
    assert(pushed.drop_last() =~= before);
    assert(pushed.last() == pushed[before.len() as int]);
    assert(pushed[before.len() as int].id == id);
    lemma_position(pushed, id);
    lemma_position(before, id);
    let i = position(pushed, id)->0;
    if position(before, id) is None && i < before.len() {
        assert(before[i] == pushed[i]);
    }
    lemma_commit_keeps_the_parent(view, pushed.last().parent_id);
}

/// Whether `after` holds the items of `before` at the indices `from`, which grow, and these
/// are all those that stay.
pub open spec fn keeps<T>(
    after: Seq<T>,
    before: Seq<T>,
    stays: spec_fn(T) -> bool,
    from: Seq<int>,
) -> bool {
    &&& from.len() == after.len()
    &&& forall|i: int|
        0 <= i < from.len() ==> 0 <= #[trigger] from[i] < before.len() && after[i]
            == before[from[i]] && stays(before[from[i]])
    &&& forall|i: int, j: int| 0 <= i < j < from.len() ==> #[trigger] from[i] < #[trigger] from[j]
    &&& forall|k: int|
        0 <= k < before.len() && stays(#[trigger] before[k]) ==> from.contains(k)
}

/// A filtered list holds the items that pass, in their order.
pub proof fn lemma_filter_keeps<T>(before: Seq<T>, stays: spec_fn(T) -> bool) -> (from: Seq<int>)
    ensures
        keeps(before.filter(stays), before, stays, from),
    decreases before.len(),
{
    reveal(Seq::filter);
    if before.len() == 0 {
        Seq::empty()
    } else {
        let fewer = before.drop_last();
        let last = before.len() - 1;
        let some = lemma_filter_keeps(fewer, stays);
        let after = before.filter(stays);
        let from = if stays(before[last]) {
            some.push(last)
        } else {
            some
        };
        assert(before.last() == before[last]);
        assert forall|i: int| 0 <= i < from.len() implies 0 <= #[trigger] from[i] < before.len()
            && after[i] == before[from[i]] && stays(before[from[i]]) by {
            if i < some.len() {
                assert(from[i] == some[i]);
                assert(fewer[some[i]] == before[some[i]]);
            }
        }
        assert forall|i: int, j: int| 0 <= i < j < from.len() implies #[trigger] from[i]
            < #[trigger] from[j] by {
            assert(from[i] == some[i]);
            if j < some.len() {
                assert(from[j] == some[j]);
            }
        }
        assert forall|k: int| 0 <= k < before.len() && stays(
            #[trigger] before[k],
        ) implies from.contains(k) by {
            if k < last {
                assert(fewer[k] == before[k]);
                assert(some.contains(k));
                let i = choose|i: int| 0 <= i < some.len() && some[i] == k;
                assert(from[i] == k);
            } else {
                assert(from[some.len() as int] == k);
            }
        }
        from
    }
}

/// Whether a set of ids holds a folder's id and, with a folder, all that lie in it.
pub open spec fn holds_all_below(
    ids: Set<Seq<char>>,
    folders: Seq<StoredFolderModel>,
    root: Seq<char>,
) -> bool {
    &&& ids.contains(root)
    &&& forall|k: int|
        0 <= k < folders.len() && (#[trigger] folders[k]).parent_id is Some && ids.contains(
            folders[k].parent_id->0,
        ) ==> ids.contains(folders[k].id)
}

/// What deleting a folder removes: the folder and all below it, that is what every set holds
/// that has the folder's id and, with a folder, all that lie in it, and every request in one
/// of them. All other folders and requests stay as they are, in their order.
pub proof fn law_deleting_a_folder(
    view: ApiTestViewModel,
    id: Seq<char>,
    ids: Set<Seq<char>>,
) -> (from: (Seq<int>, Seq<int>))
    ensures
        ({
            let gone = subtree_ids(view.store.folders, id);
            let after = view.deleted_folder(id).store;
            &&& holds_all_below(gone, view.store.folders, id)
            &&& holds_all_below(ids, view.store.folders, id) ==> gone.subset_of(ids)
            &&& keeps(
                after.folders,
                view.store.folders,
                |folder: StoredFolderModel| !gone.contains(folder.id),
                from.0,
            )
            &&& keeps(
                after.requests,
                view.store.requests,
                |request: StoredRequestModel|
                    request.folder_id is None || !gone.contains(request.folder_id->0),
                from.1,
            )
            &&& other_tables_agree(after, view.store)
        }),
{
    let gone = subtree_ids(view.store.folders, id);
    let after = view.deleted_folder(id).store;
    law_subtree_is_least(view.store.folders, id, ids);
    let folder_stays = |folder: StoredFolderModel| !gone.contains(folder.id);
    let request_stays = |request: StoredRequestModel|
        request.folder_id is None || !gone.contains(request.folder_id->0);
    let first = lemma_filter_keeps(view.store.folders, folder_stays);
    let second = lemma_filter_keeps(view.store.requests, request_stays);
    assert(request_stays =~= (|request: StoredRequestModel| lies_outside(request, gone)));
    assert(after.folders == view.store.folders.filter(folder_stays));
    assert(after.requests == view.store.requests.filter(request_stays));
    (first, second)
}

/// What is open after a folder was deleted. Where the open folder or request is still stored,
/// the editor stays as it is; else the first request left is opened, or where none is left
/// nothing is open, and the name and the folder's texts and tables are empty.
pub proof fn law_deleting_a_folder_keeps_the_editor(view: ApiTestViewModel, id: Seq<char>)
    ensures
        ({
            let gone = subtree_ids(view.store.folders, id);
            let after = view.deleted_folder(id);
            let left = after.store.requests;
            let folder_goes = view.active_folder_id is Some && gone.contains(
                view.active_folder_id->0,
            );
            let request_goes = view.active_request_id is Some && position(
                left,
                view.active_request_id->0,
            ) is None;
            &&& panels_agree(after, view)
            &&& shared_rows_agree(after, view)
            &&& !folder_goes && !request_goes ==> {
                &&& after.active_folder_id == view.active_folder_id
                &&& after.active_request_id == view.active_request_id
                &&& after.inputs == view.inputs
                &&& after.selections == view.selections
                &&& after.rows == view.rows
                &&& after.response == view.response
                &&& after.request_generation == view.request_generation
                &&& after.sending == view.sending
                &&& after.notice == view.notice
            }
            &&& (folder_goes || request_goes) && left.len() > 0 ==> {
                &&& after.active_folder_id is None
                &&& after.active_request_id == Some(left[0].id)
                &&& shows_request(after, left[0])
                &&& !after.sending
                &&& after.request_generation != view.request_generation
            }
            &&& (folder_goes || request_goes) && left.len() == 0 ==> {
                &&& after.active_folder_id is None || !folder_goes
                &&& after.active_request_id is None
                &&& request_part_agrees(after, view)
                &&& after.inputs.name.len() == 0
                &&& after.inputs.folder_description.len() == 0
                &&& after.inputs.folder_base_url.len() == 0
                &&& after.rows.folder_params.len() == 0
                &&& after.rows.folder_headers.len() == 0
                &&& after.rows.folder_variables.len() == 0
                &&& after.response is None
                &&& after.prepared_request is None
                &&& after.pre_result is None
                &&& after.test_result is None
                &&& after.notice is None
                &&& !after.sending
                &&& after.request_generation != view.request_generation
            }
        }),
{
    let left = view.deleted_folder(id).store.requests;
    if left.len() > 0 {
        lemma_position(left, left[0].id);
    }
}

/// What deleting a request does: the first request with the id goes, and all others stay as
/// they are, in their order. Where it was open, the one behind it is opened, or the one before
/// it where it was the last, or nothing where it was the only one; else the editor stays.
pub proof fn law_deleting_a_request(view: ApiTestViewModel, id: Seq<char>, k: int)
    requires
        position(view.store.requests, id) == Some(k),
    ensures
        ({
            let before = view.store.requests;
            let after = view.deleted_request(id);
            let left = after.store.requests;
            let opened = if k + 1 < before.len() {
                before[k + 1].id
            } else {
                before[k - 1].id
            };
            &&& left.len() == before.len() - 1
            &&& forall|j: int| 0 <= j < k ==> #[trigger] left[j] == before[j]
            &&& forall|j: int| k <= j < left.len() ==> #[trigger] left[j] == before[j + 1]
            &&& after.store.folders == view.store.folders
            &&& other_tables_agree(after.store, view.store)
            &&& after.active_folder_id == view.active_folder_id || after.active_folder_id is None
            &&& panels_agree(after, view)
            &&& shared_rows_agree(after, view)
            &&& view.active_request_id != Some(id) ==> {
                &&& after.active_request_id == view.active_request_id
                &&& after.active_folder_id == view.active_folder_id
                &&& after.inputs == view.inputs
                &&& after.selections == view.selections
                &&& after.rows == view.rows
                &&& after.response == view.response
                &&& after.request_generation == view.request_generation
                &&& after.sending == view.sending
                &&& after.notice == view.notice
            }
            &&& view.active_request_id == Some(id) && before.len() > 1 ==> {
                &&& after.active_request_id == Some(opened)
                &&& after.active_folder_id is None
                &&& position(left, opened) is Some
                &&& shows_request(after, left[position(left, opened)->0])
                &&& !after.sending
                &&& after.request_generation != view.request_generation
            }
            &&& view.active_request_id == Some(id) && before.len() == 1 ==> {
                &&& after.active_request_id is None
                &&& after.inputs == view.inputs
                &&& after.selections == view.selections
                &&& after.rows == view.rows
                &&& after.notice == view.notice
                &&& after.response is None
                &&& after.prepared_request is None
                &&& after.pre_result is None
                &&& after.test_result is None
                &&& !after.sending
                &&& after.request_generation != view.request_generation
            }
        }),
{
    let before = view.store.requests;
    lemma_position(before, id);
    let left = before.remove(k);
    assert(forall|j: int| k <= j < left.len() ==> #[trigger] left[j] == before[j + 1]);
    if before.len() > 1 {
        let opened = if k + 1 < before.len() {
            before[k + 1].id
        } else {
            before[k - 1].id
        };
        lemma_position(left, opened);
        if k + 1 < before.len() {
            assert(left[k].id == opened);
        } else {
            assert(left[k - 1].id == opened);
        }
    }
}

/// Deleting a request that is not stored changes nothing.
pub proof fn law_deleting_the_unknown_does_nothing(view: ApiTestViewModel, id: Seq<char>)
    ensures
        position(view.store.requests, id) is None ==> view.deleted_request(id) == view,
{
}

/// A click on a request of the tree stores what the editor holds and then shows that request;
/// a click on the open one does nothing. A click on a folder does the same with the folder,
/// and nothing where it is not stored.
pub proof fn law_a_click_commits_and_opens(view: ApiTestViewModel, id: Seq<char>, k: int)
    ensures
        view.active_request_id == Some(id) ==> view.selected_request(id) == view,
        view.active_request_id != Some(id) ==> view.selected_request(id).store
            == view.committed().store,
        view.active_request_id != Some(id) && position(view.store.requests, id) == Some(k) ==> {
            let after = view.selected_request(id);
            let stored = view.store.requests[k];
            &&& stored.id == id
            &&& shows_request(after, stored)
        },
        view.active_folder_id == Some(id) ==> view.selected_folder(id) == view,
        position(view.store.folders, id) is None ==> view.selected_folder(id) == view,
        view.active_folder_id != Some(id) && position(view.store.folders, id) == Some(k) ==> {
            let after = view.selected_folder(id);
            let stored = view.store.folders[k];
            &&& after.store == view.committed().store
            &&& after.active_folder_id == Some(id)
            &&& after.active_request_id is None
            &&& after.inputs.name == stored.name
            &&& after.inputs.folder_description == stored.description
            &&& shows(after.rows.folder_variables, stored.variables)
        },
{
    lemma_other_items_stay(view, id);
    lemma_position(view.store.requests, id);
    lemma_position(view.store.folders, id);
}

/// A commit leaves every item with another id than the open one where and as it is.
pub proof fn lemma_other_items_stay(view: ApiTestViewModel, id: Seq<char>)
    ensures
        view.active_request_id != Some(id) ==> {
            let at = position(view.store.requests, id);
            &&& position(view.committed().store.requests, id) == at
            &&& at is Some ==> view.committed().store.requests[at->0] == view.store.requests[at->0]
        },
        view.active_folder_id != Some(id) ==> {
            let at = position(view.store.folders, id);
            &&& position(view.committed().store.folders, id) == at
            &&& at is Some ==> view.committed().store.folders[at->0] == view.store.folders[at->0]
        },
{
    if !view.suppress_commit {
        lemma_commit_positions(view, id);
    }
    lemma_position(view.store.requests, id);
    lemma_position(view.store.folders, id);
    if view.active_request_id is Some {
        lemma_position(view.store.requests, view.active_request_id->0);
    }
    if view.active_folder_id is Some {
        lemma_position(view.store.folders, view.active_folder_id->0);
    }
}

} // verus!
