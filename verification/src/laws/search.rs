//! What the request tree shows.

use vstd::prelude::*;
use crate::labels::TreeTexts;
use crate::lookup::lemma_position_exists;
use crate::request_store::{StoredFolderModel, StoredRequestModel};
use crate::text::{lowercase_text, occurs_at, occurs_in, trimmed};
use crate::tree::{
    TreeModel, child_entries, depth_within, entry_ids, folder_entries, law_tree_shows_every_request,
    leads_down, matches_query, path_end, request_entries, tree_entries, visible_ids,
};
use crate::view_state::ApiTestViewModel;

verus! {

/// Whether the characters of `query` stand in `text` one behind the other.
pub open spec fn stands_in(query: Seq<char>, text: Seq<char>) -> bool {
    exists|at: int|
        0 <= at && at + query.len() <= text.len() && query == #[trigger] text.subrange(
            at,
            at + query.len(),
        )
}

proof fn lemma_stands_in(query: Seq<char>, text: Seq<char>)
    ensures
        stands_in(query, text) == occurs_in(query, text),
{
    if stands_in(query, text) {
        let at = choose|at: int|
            0 <= at && at + query.len() <= text.len() && query == #[trigger] text.subrange(
                at,
                at + query.len(),
            );
        assert(occurs_at(query, text, at));
    }
    if occurs_in(query, text) {
        let at = choose|at: int| #[trigger] occurs_at(query, text, at);
        assert(query == text.subrange(at, at + query.len()));
    }
}

/// Whether a label is that of a request: its name, or its address where it has no name, or
/// the text for a new request where it has neither, without the white space around it.
pub open spec fn is_label(
    label: Seq<char>,
    request: StoredRequestModel,
    texts: TreeTexts,
) -> bool {
    &&& trimmed(request.name).len() > 0 ==> label == trimmed(request.name)
    &&& trimmed(request.name).len() == 0 && trimmed(request.url).len() > 0 ==> label == trimmed(
        request.url,
    )
    &&& trimmed(request.name).len() == 0 && trimmed(request.url).len() == 0 ==> label
        == texts.new_request@
}

/// Whether a search finds a request: every request without a query, and with one those where
/// it stands in the label, the protocol, the method and the address, one behind the other
/// with a space between them, in lower case.
pub open spec fn finds_request(
    request: StoredRequestModel,
    texts: TreeTexts,
    query: Seq<char>,
) -> bool {
    query.len() > 0 ==> exists|label: Seq<char>| #[trigger]
        is_label(label, request, texts) && stands_in(
            query,
            lowercase_text(
                label + " "@ + texts.protocols.text(request.protocol) + " "@ + texts.methods.text(
                    request.method,
                ) + " "@ + request.url,
            ),
        )
}

proof fn lemma_finds_request(request: StoredRequestModel, texts: TreeTexts, query: Seq<char>)
    ensures
        finds_request(request, texts, query) == matches_query(request, texts, query),
{
    let label = crate::tree::label_of_request(request.name, request.url, texts.new_request@);
    assert(is_label(label, request, texts));
    assert forall|other: Seq<char>| is_label(other, request, texts) implies other == label by {}
    lemma_stands_in(query, crate::tree::searchable_text(request, texts));
}

/// Whether an entry is that of a request.
pub open spec fn is_entry_of_request(
    entry: TreeModel,
    request: StoredRequestModel,
    texts: TreeTexts,
) -> bool {
    &&& entry.id == request.id
    &&& is_label(entry.label, request, texts)
    &&& entry.children.len() == 0
    &&& !entry.expanded
    &&& !entry.disabled
}

/// Whether an entry is that of a folder, with the entries `below` it.
pub open spec fn is_entry_of_folder(
    entry: TreeModel,
    folder: StoredFolderModel,
    below: Seq<TreeModel>,
) -> bool {
    &&& entry.id == folder.id
    &&& entry.label == folder.name
    &&& entry.children == below
    &&& entry.expanded
    &&& !entry.disabled
}

/// For every search text, the tree shows each request that the search finds and that lies in
/// a folder which a path of folders leads to from the root, or in no folder.
pub proof fn law_search_reaches_every_match(
    folders: Seq<StoredFolderModel>,
    requests: Seq<StoredRequestModel>,
    texts: TreeTexts,
    search: Seq<char>,
    path: Seq<int>,
    k: int,
)
    requires
        depth_within(folders, None, folders.len()),
        leads_down(folders, None, path),
        0 <= k < requests.len(),
        requests[k].folder_id == path_end(folders, None, path),
    ensures
        finds_request(requests[k], texts, lowercase_text(trimmed(search))) ==> visible_ids(
            tree_entries(folders, requests, texts, search),
        ).contains(requests[k].id),
{
    let query = lowercase_text(trimmed(search));
    lemma_finds_request(requests[k], texts, query);
    law_tree_shows_every_request(folders, requests, texts, query, path, k);
}

/// Whether the entries are those of the requests at the indices `from`, which grow, and no
/// request of `parent` that the search finds is left out.
pub open spec fn lists_requests(
    entries: Seq<TreeModel>,
    requests: Seq<StoredRequestModel>,
    texts: TreeTexts,
    parent: Option<Seq<char>>,
    query: Seq<char>,
    from: Seq<int>,
) -> bool {
    &&& from.len() == entries.len()
    &&& forall|i: int|
        0 <= i < from.len() ==> {
            let k = #[trigger] from[i];
            &&& 0 <= k < requests.len()
            &&& requests[k].folder_id == parent
            &&& finds_request(requests[k], texts, query)
            &&& is_entry_of_request(entries[i], requests[k], texts)
        }
    &&& forall|i: int, j: int| 0 <= i < j < from.len() ==> #[trigger] from[i] < #[trigger] from[j]
    &&& forall|k: int|
        0 <= k < requests.len() && (#[trigger] requests[k]).folder_id == parent && finds_request(
            requests[k],
            texts,
            query,
        ) ==> from.contains(k)
}

/// The requests of a folder that a search finds each have their entry there, in the order of
/// the store, and nothing else has one.
pub proof fn law_requests_of_a_folder(
    requests: Seq<StoredRequestModel>,
    texts: TreeTexts,
    parent: Option<Seq<char>>,
    query: Seq<char>,
) -> (from: Seq<int>)
    ensures
        lists_requests(
            request_entries(requests, texts, parent, query),
            requests,
            texts,
            parent,
            query,
            from,
        ),
    decreases requests.len(),
{
    if requests.len() == 0 {
        Seq::empty()
    } else {
        let fewer = requests.drop_last();
        let last = requests.len() - 1;
        let some = law_requests_of_a_folder(fewer, texts, parent, query);
        lemma_finds_request(requests[last], texts, query);
        let entries = request_entries(requests, texts, parent, query);
        let before = request_entries(fewer, texts, parent, query);
        let kept = requests[last].folder_id == parent && finds_request(requests[last], texts, query);
        let from = if kept {
            some.push(last)
        } else {
            some
        };
        assert forall|i: int| 0 <= i < some.len() implies {
            let k = #[trigger] some[i];
            &&& 0 <= k < last
            &&& requests[k].folder_id == parent
            &&& finds_request(requests[k], texts, query)
            &&& is_entry_of_request(entries[i], requests[k], texts)
        } by {
            let k = some[i];
            assert(requests[k] == fewer[k]);
            assert(entries[i] == before[i]);
        }
        if kept {
            assert(entries[some.len() as int].id == requests[last].id);
            assert(from[some.len() as int] == last);
        }
        assert forall|i: int| 0 <= i < from.len() implies {
            let k = #[trigger] from[i];
            &&& 0 <= k < requests.len()
            &&& requests[k].folder_id == parent
            &&& finds_request(requests[k], texts, query)
            &&& is_entry_of_request(entries[i], requests[k], texts)
        } by {
            if i < some.len() {
                assert(from[i] == some[i]);
            }
        }
        assert forall|i: int, j: int| 0 <= i < j < from.len() implies #[trigger] from[i]
            < #[trigger] from[j] by {
            assert(from[i] == some[i]);
            if j < some.len() {
                assert(from[j] == some[j]);
            }
        }
        assert forall|k: int|
            0 <= k < requests.len() && (#[trigger] requests[k]).folder_id == parent
                && finds_request(requests[k], texts, query) implies from.contains(k) by {
            if k < last {
                assert(fewer[k] == requests[k]);
                assert(some.contains(k));
                let i = choose|i: int| 0 <= i < some.len() && some[i] == k;
                assert(from[i] == k);
            } else {
                assert(from[some.len() as int] == k);
            }
        }
        from
    }
}

/// Whether a search shows a folder with the entries `below` it: without a query in any case,
/// and with one where it stands in the folder's name, in lower case, or shows something below.
pub open spec fn shows_folder(
    folder: StoredFolderModel,
    below: Seq<TreeModel>,
    query: Seq<char>,
) -> bool {
    query.len() == 0 || stands_in(query, lowercase_text(folder.name)) || below.len() > 0
}

/// Whether the entries are those of the folders at the indices `from`, which grow, each with
/// all that the search shows in it, and no folder of `parent` that the search shows is left
/// out.
pub open spec fn lists_folders(
    entries: Seq<TreeModel>,
    folders: Seq<StoredFolderModel>,
    requests: Seq<StoredRequestModel>,
    texts: TreeTexts,
    parent: Option<Seq<char>>,
    query: Seq<char>,
    levels: nat,
    n: nat,
    from: Seq<int>,
) -> bool {
    let inside = |k: int|
        child_entries(
            folders,
            requests,
            texts,
            Some(folders[k].id),
            query,
            (levels - 1) as nat,
        );
    &&& from.len() == entries.len()
    &&& forall|i: int|
        0 <= i < from.len() ==> {
            let k = #[trigger] from[i];
            &&& 0 <= k < n
            &&& folders[k].parent_id == parent
            &&& shows_folder(folders[k], inside(k), query)
            &&& is_entry_of_folder(entries[i], folders[k], inside(k))
        }
    &&& forall|i: int, j: int| 0 <= i < j < from.len() ==> #[trigger] from[i] < #[trigger] from[j]
    &&& forall|k: int|
        0 <= k < n && (#[trigger] folders[k]).parent_id == parent && shows_folder(
            folders[k],
            inside(k),
            query,
        ) ==> from.contains(k)
}

proof fn lemma_first_folders(
    folders: Seq<StoredFolderModel>,
    requests: Seq<StoredRequestModel>,
    texts: TreeTexts,
    parent: Option<Seq<char>>,
    query: Seq<char>,
    levels: nat,
    n: nat,
) -> (from: Seq<int>)
    requires
        levels > 0,
        n <= folders.len(),
    ensures
        lists_folders(
            folder_entries(folders, requests, texts, parent, query, levels, n),
            folders,
            requests,
            texts,
            parent,
            query,
            levels,
            n,
            from,
        ),
    decreases n,
{
    if n == 0 {
        Seq::empty()
    } else {
        let last = n - 1;
        let some = lemma_first_folders(
            folders,
            requests,
            texts,
            parent,
            query,
            levels,
            (n - 1) as nat,
        );
        let below = child_entries(
            folders,
            requests,
            texts,
            Some(folders[last].id),
            query,
            (levels - 1) as nat,
        );
        lemma_stands_in(query, lowercase_text(folders[last].name));
        let entries = folder_entries(folders, requests, texts, parent, query, levels, n);
        let before = folder_entries(
            folders,
            requests,
            texts,
            parent,
            query,
            levels,
            (n - 1) as nat,
        );
        let kept = folders[last].parent_id == parent && shows_folder(folders[last], below, query);
        let from = if kept {
            some.push(last)
        } else {
            some
        };
        assert(kept ==> entries.len() == before.len() + 1);
        assert(!kept ==> entries == before);
        assert forall|i: int| 0 <= i < before.len() implies #[trigger] entries[i] == before[i] by {}
        assert forall|i: int| 0 <= i < from.len() implies {
            let k = #[trigger] from[i];
            let inside = child_entries(
                folders,
                requests,
                texts,
                Some(folders[k].id),
                query,
                (levels - 1) as nat,
            );
            &&& 0 <= k < n
            &&& folders[k].parent_id == parent
            &&& shows_folder(folders[k], inside, query)
            &&& is_entry_of_folder(entries[i], folders[k], inside)
        } by {
            if i < some.len() {
                assert(from[i] == some[i]);
                assert(entries[i] == before[i]);
            }
        }
        assert forall|i: int, j: int| 0 <= i < j < from.len() implies #[trigger] from[i]
            < #[trigger] from[j] by {
            assert(from[i] == some[i]);
            if j < some.len() {
                assert(from[j] == some[j]);
            }
        }
        assert forall|k: int|
            0 <= k < n && (#[trigger] folders[k]).parent_id == parent && shows_folder(
                folders[k],
                child_entries(
                    folders,
                    requests,
                    texts,
                    Some(folders[k].id),
                    query,
                    (levels - 1) as nat,
                ),
                query,
            ) implies from.contains(k) by {
            if k < last {
                assert(some.contains(k));
                let i = choose|i: int| 0 <= i < some.len() && some[i] == k;
                assert(from[i] == k);
            } else {
                assert(from[some.len() as int] == k);
            }
        }
        from
    }
}

/// What stands directly in a folder of the tree: first the entries of its folders that the
/// search shows, each with all that it shows in them whatever the folder's own name is, and
/// then those of its requests that it finds, both in the order of the store. It takes folders
/// that do not lie in themselves; `levels` is how deep they lie in one another at most.
pub proof fn law_children_of_a_folder(
    folders: Seq<StoredFolderModel>,
    requests: Seq<StoredRequestModel>,
    texts: TreeTexts,
    parent: Option<Seq<char>>,
    query: Seq<char>,
    levels: nat,
) -> (split: (Seq<int>, Seq<int>))
    requires
        depth_within(folders, parent, levels),
    ensures
        ({
            let entries = child_entries(folders, requests, texts, parent, query, levels);
            let count = split.0.len() as int;
            &&& count <= entries.len()
            &&& lists_folders(
                entries.take(count),
                folders,
                requests,
                texts,
                parent,
                query,
                levels,
                folders.len(),
                split.0,
            )
            &&& lists_requests(entries.skip(count), requests, texts, parent, query, split.1)
        }),
{
    let upper = if levels > 0 {
        lemma_first_folders(folders, requests, texts, parent, query, levels, folders.len())
    } else {
        Seq::empty()
    };
    let lower = law_requests_of_a_folder(requests, texts, parent, query);
    let entries = child_entries(folders, requests, texts, parent, query, levels);
    let first = folder_entries(folders, requests, texts, parent, query, levels, folders.len());
    let second = request_entries(requests, texts, parent, query);
    assert(entries.take(first.len() as int) =~= first);
    assert forall|k: int| 0 <= k < folders.len() && (#[trigger] folders[k]).parent_id
        == parent implies levels > 0 by {}
    assert(entries.skip(first.len() as int) =~= second);
    (upper, lower)
}

/// The whole tree of a search text has one root, expanded and under the heading of the list.
/// In it stand the entries of the top level, or one disabled entry where there are none. The
/// search goes by its text in lower case, without the white space around it.
pub proof fn law_tree_has_one_root(
    folders: Seq<StoredFolderModel>,
    requests: Seq<StoredRequestModel>,
    texts: TreeTexts,
    search: Seq<char>,
)
    ensures
        ({
            let tree = tree_entries(folders, requests, texts, search);
            let top = child_entries(
                folders,
                requests,
                texts,
                None,
                lowercase_text(trimmed(search)),
                folders.len(),
            );
            &&& tree.len() == 1
            &&& tree[0].id == "api-requests-root"@
            &&& tree[0].label == texts.request_list@
            &&& tree[0].expanded
            &&& !tree[0].disabled
            &&& top.len() > 0 ==> tree[0].children == top
            &&& top.len() == 0 ==> {
                &&& tree[0].children.len() == 1
                &&& tree[0].children[0].id == "api-requests-empty"@
                &&& tree[0].children[0].label == texts.empty_list@
                &&& tree[0].children[0].disabled
                &&& tree[0].children[0].children.len() == 0
            }
        }),
{
}

/// The visible entries stand from top to bottom: those of two lists one behind the other are
/// those of the first and then those of the second, and those of one entry are itself and
/// then, where it is expanded, those of its children.
pub proof fn law_visible_from_top_to_bottom(
    first: Seq<TreeModel>,
    second: Seq<TreeModel>,
    item: TreeModel,
)
    ensures
        visible_ids(first + second) == visible_ids(first) + visible_ids(second),
        visible_ids(seq![item])[0] == item.id,
        item.expanded ==> visible_ids(seq![item]).drop_first() == visible_ids(item.children),
        !item.expanded ==> visible_ids(seq![item]).len() == 1,
    decreases second.len(),
{
    let one = seq![item];
    assert(one.drop_last() =~= Seq::<TreeModel>::empty());
    assert(visible_ids(one.drop_last()) =~= Seq::<Seq<char>>::empty());
    assert(one.last() == item);
    assert(visible_ids(one) == visible_ids(one.drop_last()) + entry_ids(one.last()));
    assert(visible_ids(one) =~= entry_ids(item));
    assert(item.expanded ==> visible_ids(one).drop_first() =~= visible_ids(item.children));
    if second.len() == 0 {
        assert(first + second =~= first);
        assert(visible_ids(first) + visible_ids(second) =~= visible_ids(first));
    } else {
        law_visible_from_top_to_bottom(first, second.drop_last(), item);
        assert((first + second).drop_last() =~= first + second.drop_last());
        assert((first + second).last() == second.last());
        assert(visible_ids(first) + visible_ids(second) =~= visible_ids(
            first + second.drop_last(),
        ) + entry_ids(second.last()));
    }
}

/// The selected entry of the tree is the first visible one with the id of the open folder, or
/// else of the open request; where that is not visible, or nothing is open, none is selected.
pub proof fn law_the_open_item_is_selected(
    view: ApiTestViewModel,
    texts: TreeTexts,
    index: Option<usize>,
)
    requires
        view.is_tree_selection(texts, index),
    ensures
        ({
            let ids = visible_ids(
                tree_entries(view.store.folders, view.store.requests, texts, view.inputs.search),
            );
            let open = if view.active_folder_id is Some {
                view.active_folder_id
            } else {
                view.active_request_id
            };
            &&& index is Some ==> {
                &&& index->0 < ids.len()
                &&& open == Some(ids[index->0 as int])
                &&& forall|j: int| 0 <= j < index->0 ==> #[trigger] ids[j] != open->0
            }
            &&& index is None && open is Some && ids.len() <= usize::MAX ==> !ids.contains(open->0)
        }),
{
    let ids = visible_ids(
        tree_entries(view.store.folders, view.store.requests, texts, view.inputs.search),
    );
    let open = if view.active_folder_id is Some {
        view.active_folder_id
    } else {
        view.active_request_id
    };
    if open is Some {
        if ids.contains(open->0) {
            lemma_position_exists(ids, open->0);
        }
    }
}

} // verus!
