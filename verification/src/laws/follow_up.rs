//! What has to follow a change of the workbench: whatever changes is kept, shown and drawn.

use vstd::prelude::*;
use crate::collections::ImportedCollectionModel;
use crate::environments::switch_effects;
use crate::http::Protocol;
use crate::lookup::{lemma_position, position};
use crate::view_state::{ApiTestViewModel, Effect};

verus! {

/// Whether the tree is made of the same items: folders and requests in the same places, with
/// the same ids, names, methods and protocols.
pub open spec fn same_tree(a: ApiTestViewModel, b: ApiTestViewModel) -> bool {
    &&& a.store.folders.len() == b.store.folders.len()
    &&& a.store.requests.len() == b.store.requests.len()
    &&& forall|i: int|
        0 <= i < a.store.folders.len() ==> (#[trigger] a.store.folders[i]).id
            == b.store.folders[i].id && a.store.folders[i].name == b.store.folders[i].name
            && a.store.folders[i].parent_id == b.store.folders[i].parent_id
    &&& forall|i: int|
        0 <= i < a.store.requests.len() ==> (#[trigger] a.store.requests[i]).id
            == b.store.requests[i].id && a.store.requests[i].name == b.store.requests[i].name
            && a.store.requests[i].method == b.store.requests[i].method
            && a.store.requests[i].protocol == b.store.requests[i].protocol
            && a.store.requests[i].folder_id == b.store.requests[i].folder_id
}

/// Whether the selection of environments offers the same.
pub open spec fn same_choices(a: ApiTestViewModel, b: ApiTestViewModel) -> bool {
    &&& a.store.active_environment_id == b.store.active_environment_id
    &&& a.store.environments.len() == b.store.environments.len()
    &&& forall|i: int|
        0 <= i < a.store.environments.len() ==> (#[trigger] a.store.environments[i]).id
            == b.store.environments[i].id && a.store.environments[i].name
            == b.store.environments[i].name
}

/// Whether the editor holds the same.
pub open spec fn same_editor(a: ApiTestViewModel, b: ApiTestViewModel) -> bool {
    a.inputs == b.inputs && a.selections == b.selections && a.rows == b.rows
}

/// Whether the same items are open.
pub open spec fn same_open(a: ApiTestViewModel, b: ApiTestViewModel) -> bool {
    a.active_request_id == b.active_request_id && a.active_folder_id == b.active_folder_id
}

/// Whether the panels show the same besides the editor and the tree.
pub open spec fn same_panels(a: ApiTestViewModel, b: ApiTestViewModel) -> bool {
    &&& a.notice == b.notice
    &&& a.sidebar_mode == b.sidebar_mode
    &&& a.sidebar_collapsed == b.sidebar_collapsed
    &&& a.active_editor_tab == b.active_editor_tab
    &&& a.active_response_tab == b.active_response_tab
    &&& a.response == b.response
    &&& a.response_pretty == b.response_pretty
    &&& a.sending == b.sending
}

/// Whether the effects do all that a change calls for. A changed store is saved, a changed
/// tree or another open item has the tree built anew, a changed editor is shown, changed
/// environments are offered anew, connections end where answers under way come to nothing,
/// and what is on the screen is drawn.
pub open spec fn followed_up(
    before: ApiTestViewModel,
    after: ApiTestViewModel,
    effects: Seq<Effect>,
) -> bool {
    &&& before.store != after.store ==> effects.contains(Effect::SaveStore)
    &&& !same_tree(before, after) || !same_open(before, after) ==> effects.contains(
        Effect::RebuildTree,
    )
    &&& !same_editor(before, after) ==> effects.contains(Effect::ShowEditor)
    &&& !same_choices(before, after) ==> effects.contains(Effect::ShowEnvironments)
    &&& before.request_generation != after.request_generation ==> effects.contains(
        Effect::CancelConnections,
    )
    &&& !same_panels(before, after) || !same_editor(before, after) || !same_open(before, after)
        || !same_choices(before, after) ==> effects.contains(Effect::Redraw)
}

proof fn lemma_one_behind_the_other(a: Seq<Effect>, b: Seq<Effect>, effect: Effect)
    ensures
        (a + b).contains(effect) == (a.contains(effect) || b.contains(effect)),
{
    let both = a + b;
    if a.contains(effect) {
        let i = choose|i: int| 0 <= i < a.len() && a[i] == effect;
        assert(both[i] == effect);
    }
    if b.contains(effect) {
        let i = choose|i: int| 0 <= i < b.len() && b[i] == effect;
        assert(both[a.len() + i] == effect);
    }
    if both.contains(effect) {
        let i = choose|i: int| 0 <= i < both.len() && both[i] == effect;
        if i < a.len() {
            assert(a[i] == effect);
        } else {
            assert(b[i - a.len()] == effect);
        }
    }
}

proof fn lemma_both(a: Seq<Effect>, b: Seq<Effect>)
    ensures
        forall|effect: Effect| #[trigger]
            (a + b).contains(effect) == (a.contains(effect) || b.contains(effect)),
{
    assert forall|effect: Effect| #[trigger] (a + b).contains(effect) == (a.contains(effect)
        || b.contains(effect)) by {
        lemma_one_behind_the_other(a, b, effect);
    }
}

/// Two changes one behind the other are followed up by the effects of both.
proof fn lemma_in_turn(
    first: ApiTestViewModel,
    second: ApiTestViewModel,
    third: ApiTestViewModel,
    a: Seq<Effect>,
    b: Seq<Effect>,
)
    requires
        followed_up(first, second, a),
        followed_up(second, third, b),
    ensures
        followed_up(first, third, a + b),
{
    lemma_both(a, b);
    if same_tree(first, second) && same_tree(second, third) {
        assert(same_tree(first, third));
    }
    if same_choices(first, second) && same_choices(second, third) {
        assert(same_choices(first, third));
    }
}

/// A commit is followed up: the store is saved, and the tree is built anew where what it is
/// made of changes.
pub proof fn law_commit_is_followed_up(view: ApiTestViewModel)
    ensures
        followed_up(view, view.committed(), view.commit_effects()),
        !view.suppress_commit ==> view.commit_effects().contains(Effect::SaveStore),
        view.commit_effects().contains(Effect::RebuildTree) ==> !same_tree(view, view.committed()),
{
    let effects = view.commit_effects();
    let after = view.committed();
    if !view.suppress_commit {
        assert(effects[0] == Effect::SaveStore);
        assert(same_choices(view, after)) by {
            if let Some(id) = view.store.active_environment_id {
                lemma_position(view.store.environments, id);
            }
        }
        if let Some(id) = view.active_folder_id {
            lemma_position(view.store.folders, id);
        }
        if let Some(id) = view.active_request_id {
            lemma_position(view.store.requests, id);
        }
        if view.commit_changes_tree() {
            assert(effects[1] == Effect::RebuildTree);
            if same_tree(view, after) {
                match view.active_folder_id {
                    Some(id) => {
                        let i = position(view.store.folders, id)->0;
                        assert(view.store.folders[i].name == after.store.folders[i].name);
                    },
                    None => {
                        let i = position(view.store.requests, view.active_request_id->0)->0;
                        assert(view.store.requests[i].name == after.store.requests[i].name);
                    },
                }
            }
        } else {
            assert(same_tree(view, after));
            if effects.contains(Effect::RebuildTree) {
                assert(effects.len() == 1);
            }
        }
    }
}

proof fn lemma_open_effects()
    ensures
        ({
            let effects = crate::navigation::open_effects();
            &&& effects.contains(Effect::CancelConnections)
            &&& effects.contains(Effect::ShowEditor)
            &&& effects.contains(Effect::RebuildTree)
            &&& effects.contains(Effect::Redraw)
        }),
{
    let effects = crate::navigation::open_effects();
    assert(effects[0] == Effect::CancelConnections);
    assert(effects[1] == Effect::ShowEditor);
    assert(effects[2] == Effect::RebuildTree);
    assert(effects[3] == Effect::Redraw);
}

/// Opening a request or a folder is followed up.
pub proof fn law_opening_is_followed_up(view: ApiTestViewModel, id: Seq<char>)
    ensures
        followed_up(view, view.loaded_request(id), view.load_request_effects(id)),
        followed_up(view, view.loaded_folder(id), view.load_folder_effects(id)),
{
    lemma_open_effects();
}

/// A click on a request or a folder of the tree is followed up.
pub proof fn law_selecting_is_followed_up(view: ApiTestViewModel, id: Seq<char>)
    ensures
        followed_up(view, view.selected_request(id), view.select_request_effects(id)),
        followed_up(view, view.selected_folder(id), view.select_folder_effects(id)),
{
    law_commit_is_followed_up(view);
    let committed = view.committed();
    law_opening_is_followed_up(committed, id);
    lemma_in_turn(
        view,
        committed,
        committed.loaded_request(id),
        view.commit_effects(),
        committed.load_request_effects(id),
    );
    lemma_in_turn(
        view,
        committed,
        committed.loaded_folder(id),
        view.commit_effects(),
        committed.load_folder_effects(id),
    );
}

/// Adding a request or a folder is followed up.
pub proof fn law_adding_is_followed_up(
    view: ApiTestViewModel,
    id: Seq<char>,
    text: Seq<char>,
    protocol: Protocol,
)
    ensures
        followed_up(
            view,
            view.committed().pushed_request(id, text, protocol).loaded_request(id),
            view.commit_effects() + seq![Effect::SaveStore] + view.committed().pushed_request(
                id,
                text,
                protocol,
            ).load_request_effects(id),
        ),
        followed_up(
            view,
            view.committed().pushed_folder(id, text).loaded_folder(id),
            view.commit_effects() + seq![Effect::SaveStore] + view.committed().pushed_folder(
                id,
                text,
            ).load_folder_effects(id),
        ),
{
    let committed = view.committed();
    let saved = view.commit_effects() + seq![Effect::SaveStore];
    law_commit_is_followed_up(view);
    lemma_open_effects();
    lemma_both(view.commit_effects(), seq![Effect::SaveStore]);
    assert(seq![Effect::SaveStore][0] == Effect::SaveStore);
    assert(seq![Effect::SaveStore].contains(Effect::SaveStore));
    let more_requests = committed.pushed_request(id, text, protocol);
    let n = committed.store.requests.len() as int;
    assert(more_requests.store.requests[n].id == id);
    lemma_position(more_requests.store.requests, id);
    lemma_both(saved, more_requests.load_request_effects(id));
    let more_folders = committed.pushed_folder(id, text);
    let m = committed.store.folders.len() as int;
    assert(more_folders.store.folders[m].id == id);
    lemma_position(more_folders.store.folders, id);
    lemma_both(saved, more_folders.load_folder_effects(id));
    let request_open = more_requests.loaded_request(id);
    assert(same_choices(view, request_open)) by {
        assert(same_choices(committed, request_open));
        lemma_commit_offers_the_same(view);
    }
    let folder_open = more_folders.loaded_folder(id);
    assert(same_choices(view, folder_open)) by {
        assert(same_choices(committed, folder_open));
        lemma_commit_offers_the_same(view);
    }
}

proof fn lemma_commit_offers_the_same(view: ApiTestViewModel)
    ensures
        same_choices(view, view.committed()),
{
    if let Some(id) = view.store.active_environment_id {
        lemma_position(view.store.environments, id);
    }
}

/// Deleting a request or a folder is followed up.
pub proof fn law_deleting_is_followed_up(view: ApiTestViewModel, id: Seq<char>)
    ensures
        followed_up(view, view.deleted_request(id), view.delete_request_effects(id)),
        followed_up(view, view.deleted_folder(id), view.delete_folder_effects(id)),
{
    lemma_open_effects();
    let open = crate::navigation::open_effects();
    let save = seq![Effect::SaveStore];
    assert(save[0] == Effect::SaveStore);
    assert(save.contains(Effect::SaveStore));
    lemma_both(save, open);
    let plain = seq![Effect::SaveStore, Effect::RebuildTree, Effect::Redraw];
    assert(plain[0] == Effect::SaveStore && plain[1] == Effect::RebuildTree && plain[2]
        == Effect::Redraw);
    assert(plain.contains(Effect::SaveStore) && plain.contains(Effect::RebuildTree)
        && plain.contains(Effect::Redraw));
    let last = seq![
        Effect::SaveStore,
        Effect::CancelConnections,
        Effect::RebuildTree,
        Effect::Redraw,
    ];
    assert(last[0] == Effect::SaveStore && last[1] == Effect::CancelConnections && last[2]
        == Effect::RebuildTree && last[3] == Effect::Redraw);
    assert(last.contains(Effect::SaveStore) && last.contains(Effect::CancelConnections)
        && last.contains(Effect::RebuildTree) && last.contains(Effect::Redraw));
    lemma_position(view.store.requests, id);
}

/// Restoring an entry of the history and clearing it are followed up.
pub proof fn law_history_is_followed_up(
    view: ApiTestViewModel,
    entry: Seq<char>,
    id: Seq<char>,
    new_request: Seq<char>,
    history: Seq<char>,
)
    ensures
        followed_up(
            view,
            view.history_restored(entry, id, new_request, history),
            view.restore_effects(entry, id, new_request, history),
        ),
        followed_up(view, view.history_cleared(), seq![Effect::SaveStore, Effect::Redraw]),
{
    assert(seq![Effect::SaveStore, Effect::Redraw][0] == Effect::SaveStore);
    if let Some(h) = position(view.store.history, entry) {
        let committed = view.committed();
        let restored = committed.with_restored(h, id, new_request, history);
        let n = committed.store.requests.len() as int;
        let save = seq![Effect::SaveStore];
        let draw = seq![Effect::Redraw];
        let opened = restored.load_request_effects(id);
        law_commit_is_followed_up(view);
        lemma_commit_offers_the_same(view);
        lemma_open_effects();
        assert(restored.store.requests[n].id == id);
        lemma_position(restored.store.requests, id);
        assert(save[0] == Effect::SaveStore);
        assert(save.contains(Effect::SaveStore));
        lemma_both(view.commit_effects(), save);
        lemma_both(view.commit_effects() + save, opened);
        lemma_both(view.commit_effects() + save + opened, draw);
        let after = view.history_restored(entry, id, new_request, history);
        assert(same_choices(committed, after));
    }
}

proof fn lemma_switch_effects()
    ensures
        switch_effects().contains(Effect::ShowEnvironments),
        switch_effects().contains(Effect::ShowEditor),
        switch_effects().contains(Effect::SaveStore),
        switch_effects().contains(Effect::Redraw),
{
    let effects = switch_effects();
    assert(effects[0] == Effect::ShowEnvironments);
    assert(effects[1] == Effect::ShowEditor);
    assert(effects[2] == Effect::SaveStore);
    assert(effects[3] == Effect::Redraw);
}

/// Selecting, creating, renaming and deleting an environment are followed up.
pub proof fn law_environments_are_followed_up(
    view: ApiTestViewModel,
    id: Seq<char>,
    name: Seq<char>,
)
    ensures
        followed_up(view, view.environment_selected(id), view.select_environment_effects(id)),
        followed_up(
            view,
            view.environment_created(id, name),
            view.commit_effects() + switch_effects(),
        ),
        followed_up(view, view.environment_renamed(name), view.rename_environment_effects()),
        followed_up(view, view.environment_deleted(), view.delete_environment_effects()),
{
    let commit = view.commit_effects();
    let committed = view.committed();
    law_commit_is_followed_up(view);
    lemma_switch_effects();
    lemma_both(commit, switch_effects());
    let rename = seq![Effect::ShowEnvironments, Effect::SaveStore, Effect::Redraw];
    assert(rename[0] == Effect::ShowEnvironments && rename[1] == Effect::SaveStore && rename[2]
        == Effect::Redraw);
    assert(rename.contains(Effect::ShowEnvironments) && rename.contains(Effect::SaveStore)
        && rename.contains(Effect::Redraw));
    lemma_both(commit, rename);
    let draw = seq![Effect::Redraw];
    assert(draw[0] == Effect::Redraw);
    assert(draw.contains(Effect::Redraw));
    assert(same_tree(committed, view.environment_selected(id)) || view.environment_selected(id)
        == view);
    assert(same_tree(committed, view.environment_created(id, name)));
    assert(same_tree(committed, view.environment_renamed(name)));
    let deleted = view.environment_deleted();
    assert(same_tree(committed, deleted) || deleted.store == view.store);
}

/// Importing a collection is followed up.
pub proof fn law_import_is_followed_up(
    view: ApiTestViewModel,
    imported: ImportedCollectionModel,
    root: Seq<char>,
)
    ensures
        followed_up(
            view,
            view.collection_imported(imported, root),
            view.import_effects(imported, root),
        ),
{
    let commit = view.commit_effects();
    let committed = view.committed();
    let merged = view.merged_collection(imported, root);
    let draw = seq![Effect::Redraw];
    law_commit_is_followed_up(view);
    lemma_commit_offers_the_same(view);
    let plain = seq![Effect::SaveStore, Effect::RebuildTree];
    assert(plain[0] == Effect::SaveStore && plain[1] == Effect::RebuildTree);
    assert(plain.contains(Effect::SaveStore) && plain.contains(Effect::RebuildTree));
    lemma_both(commit, plain);
    let full = seq![
        Effect::ShowEnvironments,
        Effect::ShowEditor,
        Effect::SaveStore,
        Effect::RebuildTree,
    ];
    assert(full[0] == Effect::ShowEnvironments && full[1] == Effect::ShowEditor && full[2]
        == Effect::SaveStore && full[3] == Effect::RebuildTree);
    assert(full.contains(Effect::ShowEnvironments) && full.contains(Effect::ShowEditor)
        && full.contains(Effect::SaveStore) && full.contains(Effect::RebuildTree));
    lemma_both(commit, full);
    let opened = if imported.requests.len() > 0 {
        merged.load_request_effects(imported.requests[0].id)
    } else {
        Seq::empty()
    };
    lemma_open_effects();
    lemma_both(view.merge_effects(imported), opened);
    assert(draw[0] == Effect::Redraw);
    assert(draw.contains(Effect::Redraw));
    lemma_both(view.merge_effects(imported) + opened, draw);
    if imported.environment is None {
        assert(same_choices(committed, merged));
        assert(same_choices(view, view.collection_imported(imported, root)));
    }
}

} // verus!
