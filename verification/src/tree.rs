//! The request tree of the sidebar.

use vstd::prelude::*;
use crate::labels::TreeTexts;
use crate::lookup::{first_position, is_first, lemma_first_position, lemma_position_exists};
use crate::request_store::{StoredFolder, StoredFolderModel, StoredRequest, StoredRequestModel};
use crate::text::{
    contains, is_blank, is_text, join3, lowercase_text, occurs_in, same, to_lowercase, trim, trimmed,
};

verus! {

/// The id of the root of the tree.
pub open spec fn tree_root_id() -> Seq<char> {
    "api-requests-root"@
}

/// The id of the entry that stands for an empty tree.
pub open spec fn tree_empty_id() -> Seq<char> {
    "api-requests-empty"@
}

/// One entry of a tree, with the entries below it.
#[derive(Debug)]
pub struct TreeItem {
    pub id: String,
    pub label: String,
    pub expanded: bool,
    pub disabled: bool,
    pub children: Vec<TreeItem>,
}

/// Model of [`TreeItem`].
#[verifier::ext_equal]
pub struct TreeModel {
    pub id: Seq<char>,
    pub label: Seq<char>,
    pub expanded: bool,
    pub disabled: bool,
    pub children: Seq<TreeModel>,
}

impl TreeItem {
    /// The entry and all below it, as a model.
    pub open spec fn model(self) -> TreeModel
        decreases self,
    {
        TreeModel {
            id: self.id@,
            label: self.label@,
            expanded: self.expanded,
            disabled: self.disabled,
            children: Seq::new(
                self.children@.len(),
                |i: int|
                    if 0 <= i < self.children@.len() {
                        self.children@[i].model()
                    } else {
                        arbitrary()
                    },
            ),
        }
    }
}

/// The entries of a list, as models.
pub open spec fn tree_models(items: Seq<TreeItem>) -> Seq<TreeModel> {
    Seq::new(items.len(), |i: int| items[i].model())
}

/// The label of a request: its name, else its address, else the text for a new one.
pub open spec fn label_of_request(
    name: Seq<char>,
    url: Seq<char>,
    new_request: Seq<char>,
) -> Seq<char> {
    if trimmed(name).len() > 0 {
        trimmed(name)
    } else if trimmed(url).len() > 0 {
        trimmed(url)
    } else {
        new_request
    }
}

/// The label of a request: its name, else its address, else the text for a new one.
pub fn request_label(request: &StoredRequest, new_request: &str) -> (r: String)
    ensures
        r@ == label_of_request(request.name@, request.url@, new_request@),
{
    if is_blank(request.name.as_str()) {
        if is_blank(request.url.as_str()) {
            new_request.to_owned()
        } else {
            trim(request.url.as_str()).to_owned()
        }
    } else {
        trim(request.name.as_str()).to_owned()
    }
}

/// What a search looks at of a request: label, protocol, method and address.
pub open spec fn searchable_text(request: StoredRequestModel, texts: TreeTexts) -> Seq<char> {
    lowercase_text(
        label_of_request(request.name, request.url, texts.new_request@) + " "@
            + texts.protocols.text(request.protocol) + " "@ + texts.methods.text(request.method)
            + " "@ + request.url,
    )
}

/// The entries of the requests directly in `parent` that match `query`.
pub open spec fn request_entries(
    requests: Seq<StoredRequestModel>,
    texts: TreeTexts,
    parent: Option<Seq<char>>,
    query: Seq<char>,
) -> Seq<TreeModel>
    decreases requests.len(),
{
    if requests.len() == 0 {
        Seq::empty()
    } else {
        let before = request_entries(requests.drop_last(), texts, parent, query);
        let request = requests.last();
        if request.folder_id == parent && (query.len() == 0 || occurs_in(
            query,
            searchable_text(request, texts),
        )) {
            before.push(
                TreeModel {
                    id: request.id,
                    label: label_of_request(request.name, request.url, texts.new_request@),
                    expanded: false,
                    disabled: false,
                    children: Seq::empty(),
                },
            )
        } else {
            before
        }
    }
}

/// The entries of the first `n` folders that lie directly in `parent`, each with its
/// own entries. Without a query all are there; with one, those whose name matches and
/// those with an entry below them. `levels` bounds how deep the folders lie in one
/// another.
pub open spec fn folder_entries(
    folders: Seq<StoredFolderModel>,
    requests: Seq<StoredRequestModel>,
    texts: TreeTexts,
    parent: Option<Seq<char>>,
    query: Seq<char>,
    levels: nat,
    n: nat,
) -> Seq<TreeModel>
    decreases levels, n,
{
    if n == 0 || levels == 0 {
        Seq::empty()
    } else {
        let before = folder_entries(
            folders,
            requests,
            texts,
            parent,
            query,
            levels,
            (n - 1) as nat,
        );
        let folder = folders[n - 1];
        let below = child_entries(
            folders,
            requests,
            texts,
            Some(folder.id),
            query,
            (levels - 1) as nat,
        );
        if folder.parent_id == parent && (query.len() == 0 || occurs_in(
            query,
            lowercase_text(folder.name),
        ) || below.len() > 0) {
            before.push(
                TreeModel {
                    id: folder.id,
                    label: folder.name,
                    expanded: true,
                    disabled: false,
                    children: below,
                },
            )
        } else {
            before
        }
    }
}

/// The entries directly in `parent`: folders first, then requests.
pub open spec fn child_entries(
    folders: Seq<StoredFolderModel>,
    requests: Seq<StoredRequestModel>,
    texts: TreeTexts,
    parent: Option<Seq<char>>,
    query: Seq<char>,
    levels: nat,
) -> Seq<TreeModel>
    decreases levels, folders.len() + 1,
{
    folder_entries(folders, requests, texts, parent, query, levels, folders.len())
        + request_entries(requests, texts, parent, query)
}

/// Whether no chain of folders below `parent` is longer than `levels`.
pub open spec fn depth_within(
    folders: Seq<StoredFolderModel>,
    parent: Option<Seq<char>>,
    levels: nat,
) -> bool
    decreases levels,
{
    forall|k: int|
        0 <= k < folders.len() && (#[trigger] folders[k]).parent_id == parent ==> levels > 0
            && depth_within(folders, Some(folders[k].id), (levels - 1) as nat)
}

/// Whether an optional id is `id`.
fn is_id(o: &Option<String>, id: Option<&str>) -> (b: bool)
    ensures
        b == (o.deep_view() == id.deep_view()),
{
    match id {
        Some(id) => is_text(o, id),
        None => o.is_none(),
    }
}

/// An entry without entries below it.
pub fn leaf(id: String, label: String) -> (r: TreeItem)
    ensures
        r.model() == (TreeModel {
            id: id@,
            label: label@,
            expanded: false,
            disabled: false,
            children: Seq::empty(),
        }),
{
    let r = TreeItem { id, label, expanded: false, disabled: false, children: Vec::new() };
    assert(r.model().children =~= Seq::empty());
    r
}

fn push_request_entries(
    requests: &Vec<StoredRequest>,
    texts: &TreeTexts,
    parent: Option<&str>,
    query: &str,
    items: &mut Vec<TreeItem>,
)
    ensures
        tree_models(final(items)@) == tree_models(old(items)@) + request_entries(
            requests.deep_view(),
            *texts,
            parent.deep_view(),
            query@,
        ),
{
    let ghost all = requests.deep_view();
    let ghost start = tree_models(items@);
    let mut i: usize = 0;
    assert(all.take(0) =~= Seq::<StoredRequestModel>::empty());
    assert(start + request_entries(all.take(0), *texts, parent.deep_view(), query@) =~= start);
    while i < requests.len()
        invariant
            all == requests.deep_view(),
            i <= requests.len(),
            tree_models(items@) == start + request_entries(
                all.take(i as int),
                *texts,
                parent.deep_view(),
                query@,
            ),
        decreases requests.len() - i,
    {
        let request = &requests[i];
        let ghost held = tree_models(items@);
        assert(all[i as int] == request.deep_view());
        assert(all.take(i + 1).drop_last() =~= all.take(i as int));
        assert(all.take(i + 1).last() == request.deep_view());
        if is_id(&request.folder_id, parent) {
            let label = request_label(request, texts.new_request.as_str());
            let mut searchable = join3(label.as_str(), " ", texts.protocols.get(request.protocol));
            searchable.append(" ");
            searchable.append(texts.methods.get(request.method));
            searchable.append(" ");
            searchable.append(request.url.as_str());
            let searchable = to_lowercase(searchable.as_str());
            if query.is_empty() || contains(searchable.as_str(), query) {
                let item = leaf(request.id.clone(), label);
                let ghost entry = item.model();
                items.push(item);
                assert(tree_models(items@) =~= held.push(entry));
                assert(start + request_entries(
                    all.take(i + 1),
                    *texts,
                    parent.deep_view(),
                    query@,
                ) =~= held.push(entry));
            }
        }
        i = i + 1;
    }
    assert(all.take(all.len() as int) =~= all);
}

/// The entries directly in `parent` that match `query`, each with those below it.
fn entries_below(
    folders: &Vec<StoredFolder>,
    requests: &Vec<StoredRequest>,
    texts: &TreeTexts,
    parent: Option<&str>,
    query: &str,
    levels: usize,
) -> (r: Vec<TreeItem>)
    requires
        depth_within(folders.deep_view(), parent.deep_view(), levels as nat),
    ensures
        tree_models(r@) == child_entries(
            folders.deep_view(),
            requests.deep_view(),
            *texts,
            parent.deep_view(),
            query@,
            levels as nat,
        ),
    decreases levels,
{
    let ghost all = folders.deep_view();
    let ghost reqs = requests.deep_view();
    let ghost p = parent.deep_view();
    let mut items: Vec<TreeItem> = Vec::new();
    let mut i: usize = 0;
    assert(tree_models(items@) =~= folder_entries(all, reqs, *texts, p, query@, levels as nat, 0));
    while i < folders.len()
        invariant
            all == folders.deep_view(),
            reqs == requests.deep_view(),
            p == parent.deep_view(),
            i <= folders.len(),
            depth_within(all, p, levels as nat),
            tree_models(items@) == folder_entries(
                all,
                reqs,
                *texts,
                p,
                query@,
                levels as nat,
                i as nat,
            ),
        decreases folders.len() - i,
    {
        let folder = &folders[i];
        let ghost held = tree_models(items@);
        assert(all[i as int] == folder.deep_view());
        if is_id(&folder.parent_id, parent) {
            let below = entries_below(
                folders,
                requests,
                texts,
                Some(folder.id.as_str()),
                query,
                levels - 1,
            );
            let folder_matches = contains(to_lowercase(folder.name.as_str()).as_str(), query);
            let any_below = below.len() > 0;
            if query.is_empty() || folder_matches || any_below {
                let item = TreeItem {
                    id: folder.id.clone(),
                    label: folder.name.clone(),
                    expanded: true,
                    disabled: false,
                    children: below,
                };
                let ghost entry = item.model();
                assert(entry.children =~= tree_models(below@));
                items.push(item);
                assert(tree_models(items@) =~= held.push(entry));
            }
        }
        i = i + 1;
    }
    push_request_entries(requests, texts, parent, query, &mut items);
    items
}

/// The entries directly in `parent` that match `query`, each with those below it.
/// It takes folders that do not lie in themselves below `parent`.
pub fn child_tree_items(
    folders: &Vec<StoredFolder>,
    requests: &Vec<StoredRequest>,
    texts: &TreeTexts,
    parent: Option<&str>,
    query: &str,
) -> (r: Vec<TreeItem>)
    requires
        depth_within(folders.deep_view(), parent.deep_view(), folders.deep_view().len()),
    ensures
        tree_models(r@) == child_entries(
            folders.deep_view(),
            requests.deep_view(),
            *texts,
            parent.deep_view(),
            query@,
            folders.deep_view().len(),
        ),
{
    entries_below(folders, requests, texts, parent, query, folders.len())
}

/// The whole tree: a root with the entries that match the query, or with a disabled entry
/// where there are none.
pub open spec fn tree_with_query(
    folders: Seq<StoredFolderModel>,
    requests: Seq<StoredRequestModel>,
    texts: TreeTexts,
    query: Seq<char>,
) -> Seq<TreeModel> {
    let children = child_entries(folders, requests, texts, None, query, folders.len());
    seq![
        TreeModel {
            id: tree_root_id(),
            label: texts.request_list@,
            expanded: true,
            disabled: false,
            children: if children.len() == 0 {
                seq![
                    TreeModel {
                        id: tree_empty_id(),
                        label: texts.empty_list@,
                        expanded: false,
                        disabled: true,
                        children: Seq::empty(),
                    },
                ]
            } else {
                children
            },
        },
    ]
}

/// The whole tree for a search text: its query is the text in lower case, without the
/// white space around it.
pub open spec fn tree_entries(
    folders: Seq<StoredFolderModel>,
    requests: Seq<StoredRequestModel>,
    texts: TreeTexts,
    search: Seq<char>,
) -> Seq<TreeModel> {
    tree_with_query(folders, requests, texts, lowercase_text(trimmed(search)))
}

/// The whole tree for a search text. It takes folders that do not lie in themselves.
pub fn tree_items(
    folders: &Vec<StoredFolder>,
    requests: &Vec<StoredRequest>,
    texts: &TreeTexts,
    search: &str,
) -> (r: Vec<TreeItem>)
    requires
        depth_within(folders.deep_view(), None, folders.deep_view().len()),
    ensures
        tree_models(r@) == tree_entries(
            folders.deep_view(),
            requests.deep_view(),
            *texts,
            search@,
        ),
        trimmed(search@).len() == 0 ==> tree_models(r@) == tree_with_query(
            folders.deep_view(),
            requests.deep_view(),
            *texts,
            Seq::empty(),
        ),
{
    let query = to_lowercase(trim(search));
    assert(trimmed(search@).len() == 0 ==> query@ =~= Seq::<char>::empty());
    let mut children = child_tree_items(folders, requests, texts, None, query.as_str());
    if children.len() == 0 {
        let mut empty = leaf("api-requests-empty".to_owned(), texts.empty_list.clone());
        let ghost before = empty;
        empty.disabled = true;
        assert(empty.model().children =~= before.model().children);
        let ghost entry = empty.model();
        children.push(empty);
        assert(tree_models(children@) =~= seq![entry]);
    }
    let root = TreeItem {
        id: "api-requests-root".to_owned(),
        label: texts.request_list.clone(),
        expanded: true,
        disabled: false,
        children,
    };
    let ghost entry = root.model();
    assert(entry.children =~= tree_models(children@));
    let mut items: Vec<TreeItem> = Vec::new();
    items.push(root);
    assert(tree_models(items@) =~= seq![entry]);
    items
}

/// Whether no chain of folders below `parent` is longer than `levels`.
fn depth_fits(folders: &Vec<StoredFolder>, parent: Option<&str>, levels: usize) -> (b: bool)
    ensures
        b == depth_within(folders.deep_view(), parent.deep_view(), levels as nat),
    decreases levels,
{
    let ghost all = folders.deep_view();
    let ghost p = parent.deep_view();
    let mut i: usize = 0;
    while i < folders.len()
        invariant
            all == folders.deep_view(),
            p == parent.deep_view(),
            i <= folders.len(),
            forall|k: int|
                0 <= k < i && (#[trigger] all[k]).parent_id == p ==> levels > 0 && depth_within(
                    all,
                    Some(all[k].id),
                    (levels - 1) as nat,
                ),
        decreases folders.len() - i,
    {
        assert(all[i as int] == folders@[i as int].deep_view());
        if is_id(&folders[i].parent_id, parent) {
            if levels == 0 || !depth_fits(folders, Some(folders[i].id.as_str()), levels - 1) {
                return false;
            }
        }
        i = i + 1;
    }
    true
}

/// Whether the tree of the folders ends: no folder that hangs from the root lies in
/// itself.
pub fn tree_is_finite(folders: &Vec<StoredFolder>) -> (b: bool)
    ensures
        b == depth_within(folders.deep_view(), None, folders.deep_view().len()),
{
    depth_fits(folders, None, folders.len())
}

/// The ids of an entry and of the visible ones below it, from top to bottom.
pub open spec fn entry_ids(item: TreeModel) -> Seq<Seq<char>>
    decreases item,
{
    seq![item.id] + if item.expanded {
        visible_ids(item.children)
    } else {
        Seq::empty()
    }
}

/// The ids of the visible entries of a list, from top to bottom.
pub open spec fn visible_ids(items: Seq<TreeModel>) -> Seq<Seq<char>>
    decreases items,
{
    if items.len() == 0 {
        Seq::empty()
    } else {
        visible_ids(items.drop_last()) + entry_ids(items.last())
    }
}

/// The visible ids of a list begin with those of its first entries.
proof fn lemma_visible_prefix(items: Seq<TreeModel>, n: int)
    requires
        0 <= n <= items.len(),
    ensures
        visible_ids(items.take(n)).len() <= visible_ids(items).len(),
        visible_ids(items).take(visible_ids(items.take(n)).len() as int) == visible_ids(items.take(n)),
    decreases items.len() - n,
{
    let some = visible_ids(items.take(n));
    if n == items.len() {
        assert(items.take(n) =~= items);
        assert(some.take(some.len() as int) =~= some);
    } else {
        lemma_visible_prefix(items, n + 1);
        let more = visible_ids(items.take(n + 1));
        assert(items.take(n + 1).drop_last() =~= items.take(n));
        assert(more.take(some.len() as int) =~= some);
        assert(visible_ids(items).take(some.len() as int) =~= visible_ids(items).take(
            more.len() as int,
        ).take(some.len() as int));
    }
}

/// What a search for `target` in `ids` comes to, where the first id has the index `from`:
/// the index of the first `target`, or the index after the last id. There is no index after
/// the largest one.
spec fn walked(
    ids: Seq<Seq<char>>,
    target: Seq<char>,
    from: int,
    r: Result<usize, Option<usize>>,
) -> bool {
    match r {
        Ok(found) => from <= found && is_first(ids, target, found - from),
        Err(Some(next)) => next == from + ids.len() && !ids.contains(target),
        Err(None) => from + ids.len() > usize::MAX && forall|j: int|
            0 <= j < ids.len() && from + j <= usize::MAX ==> #[trigger] ids[j] != target,
    }
}

/// A search goes on behind ids that do not hold the target.
proof fn lemma_walked_on(
    above: Seq<Seq<char>>,
    below: Seq<Seq<char>>,
    target: Seq<char>,
    from: int,
    r: Result<usize, Option<usize>>,
)
    requires
        !above.contains(target),
        walked(below, target, from + above.len(), r),
    ensures
        walked(above + below, target, from, r),
{
    let ids = above + below;
    assert forall|j: int| 0 <= j < above.len() implies #[trigger] ids[j] != target by {
        assert(above.contains(above[j]));
    }
    assert forall|j: int| above.len() <= j < ids.len() implies #[trigger] ids[j] == below[j
        - above.len()] by {}
    match r {
        Ok(found) => {
            assert(ids[found - from] == below[found - from - above.len()]);
        },
        Err(Some(next)) => {
            if ids.contains(target) {
                let j = choose|j: int| 0 <= j < ids.len() && ids[j] == target;
                assert(below.contains(below[j - above.len()]));
            }
        },
        Err(None) => {},
    }
}

/// A search that ended before the last id ends the same way in a longer list.
proof fn lemma_walked_before(
    part: Seq<Seq<char>>,
    whole: Seq<Seq<char>>,
    target: Seq<char>,
    from: int,
    r: Result<usize, Option<usize>>,
)
    requires
        part.len() <= whole.len(),
        whole.take(part.len() as int) == part,
        walked(part, target, from, r),
        !(r matches Err(Some(next))),
    ensures
        walked(whole, target, from, r),
{
    assert forall|j: int| 0 <= j < part.len() implies #[trigger] whole[j] == part[j] by {
        assert(whole.take(part.len() as int)[j] == whole[j]);
    }
}

/// Searches an entry and what it shows below it.
fn walk_entry(item: &TreeItem, target: &str, from: usize) -> (r: Result<usize, Option<usize>>)
    ensures
        walked(entry_ids(item.model()), target@, from as int, r),
    decreases item,
{
    let ghost ids = entry_ids(item.model());
    let ghost own = seq![item.id@];
    assert(item.model().children =~= tree_models(item.children@));
    assert(ids[0] == item.id@);
    if same(item.id.as_str(), target) {
        return Ok(from);
    }
    assert(!own.contains(target@));
    if !item.expanded || item.children.len() == 0 {
        assert(ids =~= own);
        if from == usize::MAX {
            return Err(None);
        }
        return Err(Some(from + 1));
    }
    let ghost below = visible_ids(item.model().children);
    assert(ids =~= own + below);
    if from == usize::MAX {
        return Err(None);
    }
    let r = walk(&item.children, target, from + 1);
    proof {
        lemma_walked_on(own, below, target@, from as int, r);
    }
    r
}

/// Searches the visible entries of a list.
fn walk(items: &Vec<TreeItem>, target: &str, from: usize) -> (r: Result<usize, Option<usize>>)
    ensures
        walked(visible_ids(tree_models(items@)), target@, from as int, r),
    decreases items,
{
    let ghost models = tree_models(items@);
    let ghost ids = visible_ids(models);
    let mut index: usize = from;
    let mut i: usize = 0;
    assert(models.take(0) =~= Seq::<TreeModel>::empty());
    while i < items.len()
        invariant
            models == tree_models(items@),
            ids == visible_ids(models),
            i <= items.len(),
            index == from + visible_ids(models.take(i as int)).len(),
            !visible_ids(models.take(i as int)).contains(target@),
        decreases items.len() - i,
    {
        let r = walk_entry(&items[i], target, index);
        proof {
            let above = visible_ids(models.take(i as int));
            let more = visible_ids(models.take(i + 1));
            let entry = entry_ids(models[i as int]);
            assert(models.take(i + 1).drop_last() =~= models.take(i as int));
            assert(more == above + entry);
            lemma_walked_on(above, entry, target@, from as int, r);
            lemma_visible_prefix(models, i + 1);
            if !(r matches Err(Some(next))) {
                lemma_walked_before(more, ids, target@, from as int, r);
            }
        }
        match r {
            Err(Some(next)) => {
                index = next;
            },
            _ => {
                return r;
            },
        }
        i = i + 1;
    }
    assert(models.take(models.len() as int) =~= models);
    Err(Some(index))
}

/// Whether `index` is that of the first `id` in `ids`. There is none where `ids` does not
/// hold `id`, or only behind the largest index of the machine.
pub open spec fn is_index_of(ids: Seq<Seq<char>>, id: Seq<char>, index: Option<usize>) -> bool {
    match first_position(ids, id) {
        Some(i) => if i <= usize::MAX {
            index == Some(i as usize)
        } else {
            index is None
        },
        None => index is None,
    }
}

/// The index among the visible entries of the first one with the id `target_id`.
pub fn visible_tree_index(items: &Vec<TreeItem>, target_id: &str) -> (r: Option<usize>)
    ensures
        is_index_of(visible_ids(tree_models(items@)), target_id@, r),
{
    let ghost ids = visible_ids(tree_models(items@));
    match walk(items, target_id, 0) {
        Ok(found) => {
            proof {
                lemma_first_position(ids, target_id@, found as int);
            }
            Some(found)
        },
        Err(next) => {
            proof {
                if ids.contains(target_id@) {
                    lemma_position_exists(ids, target_id@);
                    let i = first_position(ids, target_id@)->0;
                    assert(ids[i] == target_id@);
                }
            }
            None
        },
    }
}

/// More levels than the folders need change nothing of the tree.
pub proof fn law_levels_suffice(
    folders: Seq<StoredFolderModel>,
    requests: Seq<StoredRequestModel>,
    texts: TreeTexts,
    parent: Option<Seq<char>>,
    query: Seq<char>,
    levels: nat,
    more: nat,
)
    requires
        depth_within(folders, parent, levels),
        levels <= more,
    ensures
        depth_within(folders, parent, more),
        child_entries(folders, requests, texts, parent, query, more) == child_entries(
            folders,
            requests,
            texts,
            parent,
            query,
            levels,
        ),
    decreases levels,
{
    lemma_levels_suffice(folders, requests, texts, parent, query, levels, more, folders.len());
    assert forall|k: int|
        0 <= k < folders.len() && (#[trigger] folders[k]).parent_id == parent implies more > 0
        && depth_within(folders, Some(folders[k].id), (more - 1) as nat) by {
        law_levels_suffice(
            folders,
            requests,
            texts,
            Some(folders[k].id),
            query,
            (levels - 1) as nat,
            (more - 1) as nat,
        );
    }
}

proof fn lemma_levels_suffice(
    folders: Seq<StoredFolderModel>,
    requests: Seq<StoredRequestModel>,
    texts: TreeTexts,
    parent: Option<Seq<char>>,
    query: Seq<char>,
    levels: nat,
    more: nat,
    n: nat,
)
    requires
        depth_within(folders, parent, levels),
        levels <= more,
        n <= folders.len(),
    ensures
        folder_entries(folders, requests, texts, parent, query, more, n) == folder_entries(
            folders,
            requests,
            texts,
            parent,
            query,
            levels,
            n,
        ),
    decreases levels, n,
{
    if n > 0 && more > 0 {
        lemma_levels_suffice(
            folders,
            requests,
            texts,
            parent,
            query,
            levels,
            more,
            (n - 1) as nat,
        );
        let folder = folders[n - 1];
        if folder.parent_id == parent {
            lemma_levels_suffice(
                folders,
                requests,
                texts,
                Some(folder.id),
                query,
                (levels - 1) as nat,
                (more - 1) as nat,
                folders.len(),
            );
            let id = Some(folder.id);
            assert(child_entries(folders, requests, texts, id, query, (more - 1) as nat)
                == child_entries(folders, requests, texts, id, query, (levels - 1) as nat));
        }
    }
}

/// Whether no two folders have the same id.
pub open spec fn distinct_folder_ids(folders: Seq<StoredFolderModel>) -> bool {
    forall|i: int, j: int|
        0 <= i < j < folders.len() ==> (#[trigger] folders[i]).id != (#[trigger] folders[j]).id
}

/// Whether the indices name folders that hang from the root one below the other.
spec fn hangs(folders: Seq<StoredFolderModel>, path: Seq<int>) -> bool {
    &&& path.len() > 0
    &&& forall|i: int| 0 <= i < path.len() ==> 0 <= #[trigger] path[i] < folders.len()
    &&& folders[path[0]].parent_id is None
    &&& forall|i: int|
        0 < i < path.len() ==> folders[#[trigger] path[i]].parent_id == Some(folders[path[i - 1]].id)
}

proof fn lemma_path_distinct(folders: Seq<StoredFolderModel>, path: Seq<int>, i: int, j: int)
    requires
        distinct_folder_ids(folders),
        hangs(folders, path),
        0 <= i < j < path.len(),
    ensures
        path[i] != path[j],
    decreases i,
{
    if path[i] == path[j] {
        assert(folders[path[j]].parent_id == Some(folders[path[j - 1]].id));
        if i > 0 {
            assert(folders[path[i]].parent_id == Some(folders[path[i - 1]].id));
            let a = path[i - 1];
            let b = path[j - 1];
            assert(folders[a].id == folders[b].id);
            assert(a == b) by {
                if a < b {
                    assert(folders[a].id != folders[b].id);
                } else if b < a {
                    assert(folders[b].id != folders[a].id);
                }
            }
            lemma_path_distinct(folders, path, i - 1, j - 1);
        }
    }
}

proof fn lemma_path_bound(folders: Seq<StoredFolderModel>, path: Seq<int>)
    requires
        distinct_folder_ids(folders),
        hangs(folders, path),
    ensures
        path.len() <= folders.len(),
{
    assert(path.no_duplicates()) by {
        assert forall|i: int, j: int|
            0 <= i < path.len() && 0 <= j < path.len() && i != j implies path[i] != path[j] by {
            if i < j {
                lemma_path_distinct(folders, path, i, j);
            } else {
                lemma_path_distinct(folders, path, j, i);
            }
        }
    }
    path.unique_seq_to_set();
    let all = vstd::set_lib::set_int_range(0, folders.len() as int);
    vstd::set_lib::lemma_int_range(0, folders.len() as int);
    assert(path.to_set().subset_of(all)) by {
        assert forall|x: int| path.to_set().contains(x) implies all.contains(x) by {
            let i = choose|i: int| 0 <= i < path.len() && path[i] == x;
            assert(0 <= path[i] < folders.len());
        }
    }
    vstd::set_lib::lemma_len_subset(path.to_set(), all);
}

proof fn lemma_depth_below(folders: Seq<StoredFolderModel>, path: Seq<int>, levels: nat)
    requires
        distinct_folder_ids(folders),
        hangs(folders, path),
        path.len() + levels == folders.len(),
    ensures
        depth_within(folders, Some(folders[path.last()].id), levels),
    decreases levels,
{
    assert forall|k: int|
        0 <= k < folders.len() && (#[trigger] folders[k]).parent_id == Some(
            folders[path.last()].id,
        ) implies levels > 0 && depth_within(folders, Some(folders[k].id), (levels - 1) as nat) by {
        let longer = path.push(k);
        assert(longer[0] == path[0]);
        assert forall|i: int| 0 < i < longer.len() implies folders[#[trigger] longer[i]].parent_id
            == Some(folders[longer[i - 1]].id) by {
            if i < path.len() {
                assert(longer[i] == path[i]);
                assert(longer[i - 1] == path[i - 1]);
            }
        }
        assert forall|i: int| 0 <= i < longer.len() implies 0 <= #[trigger] longer[i]
            < folders.len() by {
            if i < path.len() {
                assert(longer[i] == path[i]);
            }
        }
        assert(hangs(folders, longer));
        lemma_path_bound(folders, longer);
        lemma_depth_below(folders, longer, (levels - 1) as nat);
        assert(longer.last() == k);
    }
}

/// Folders with distinct ids make a tree that ends, whatever their parents are.
pub proof fn law_distinct_ids_make_a_tree(folders: Seq<StoredFolderModel>)
    requires
        distinct_folder_ids(folders),
    ensures
        depth_within(folders, None, folders.len()),
{
    assert forall|k: int|
        0 <= k < folders.len() && (#[trigger] folders[k]).parent_id == None::<
            Seq<char>,
        > implies folders.len() > 0 && depth_within(
        folders,
        Some(folders[k].id),
        (folders.len() - 1) as nat,
    ) by {
        let path = seq![k];
        assert(hangs(folders, path));
        lemma_depth_below(folders, path, (folders.len() - 1) as nat);
        assert(path.last() == k);
    }
}

/// The entry of a request.
pub open spec fn request_entry(request: StoredRequestModel, texts: TreeTexts) -> TreeModel {
    TreeModel {
        id: request.id,
        label: label_of_request(request.name, request.url, texts.new_request@),
        expanded: false,
        disabled: false,
        children: Seq::empty(),
    }
}

/// Whether a search finds a request.
pub open spec fn matches_query(
    request: StoredRequestModel,
    texts: TreeTexts,
    query: Seq<char>,
) -> bool {
    query.len() == 0 || occurs_in(query, searchable_text(request, texts))
}

/// Whether an entry is that of a request in `parent` that a search finds.
pub open spec fn stands_for_a_match(
    entry: TreeModel,
    requests: Seq<StoredRequestModel>,
    texts: TreeTexts,
    parent: Option<Seq<char>>,
    query: Seq<char>,
) -> bool {
    exists|k: int|
        #![trigger requests[k]]
        0 <= k < requests.len() && requests[k].folder_id == parent && matches_query(
            requests[k],
            texts,
            query,
        ) && entry == request_entry(requests[k], texts)
}

/// A search shows the requests of a folder that it finds, and no others.
pub proof fn law_search_shows_what_it_finds(
    requests: Seq<StoredRequestModel>,
    texts: TreeTexts,
    parent: Option<Seq<char>>,
    query: Seq<char>,
)
    ensures
        forall|k: int|
            #![trigger requests[k]]
            0 <= k < requests.len() && requests[k].folder_id == parent && matches_query(
                requests[k],
                texts,
                query,
            ) ==> request_entries(requests, texts, parent, query).contains(
                request_entry(requests[k], texts),
            ),
        forall|i: int|
            0 <= i < request_entries(requests, texts, parent, query).len() ==> stands_for_a_match(
                #[trigger] request_entries(requests, texts, parent, query)[i],
                requests,
                texts,
                parent,
                query,
            ),
    decreases requests.len(),
{
    if requests.len() > 0 {
        let fewer = requests.drop_last();
        let last = requests.len() - 1;
        let some = request_entries(fewer, texts, parent, query);
        let all = request_entries(requests, texts, parent, query);
        law_search_shows_what_it_finds(fewer, texts, parent, query);
        let kept = requests[last].folder_id == parent && matches_query(
            requests[last],
            texts,
            query,
        );
        assert(all == if kept {
            some.push(request_entry(requests[last], texts))
        } else {
            some
        });
        assert forall|k: int|
            #![trigger requests[k]]
            0 <= k < requests.len() && requests[k].folder_id == parent && matches_query(
                requests[k],
                texts,
                query,
            ) implies all.contains(request_entry(requests[k], texts)) by {
            if k < last {
                assert(fewer[k] == requests[k]);
                let entry = request_entry(requests[k], texts);
                let i = choose|i: int| 0 <= i < some.len() && some[i] == entry;
                assert(all[i] == entry);
            } else {
                assert(all[some.len() as int] == request_entry(requests[last], texts));
            }
        }
        assert forall|i: int| 0 <= i < all.len() implies stands_for_a_match(
            #[trigger] all[i],
            requests,
            texts,
            parent,
            query,
        ) by {
            if i < some.len() {
                assert(all[i] == some[i]);
                assert(stands_for_a_match(some[i], fewer, texts, parent, query));
                let k = choose|k: int|
                    #![trigger fewer[k]]
                    0 <= k < fewer.len() && fewer[k].folder_id == parent && matches_query(
                        fewer[k],
                        texts,
                        query,
                    ) && some[i] == request_entry(fewer[k], texts);
                assert(requests[k] == fewer[k]);
            } else {
                assert(requests[last].folder_id == parent);
            }
        }
    }
}

/// The visible ids of an entry are among those of its list.
proof fn lemma_entry_is_visible(items: Seq<TreeModel>, i: int, id: Seq<char>)
    requires
        0 <= i < items.len(),
        entry_ids(items[i]).contains(id),
    ensures
        visible_ids(items).contains(id),
    decreases items.len(),
{
    let all = visible_ids(items);
    let above = visible_ids(items.drop_last());
    if i == items.len() - 1 {
        let own = entry_ids(items.last());
        let k = choose|k: int| 0 <= k < own.len() && own[k] == id;
        assert(all[above.len() + k] == id);
    } else {
        assert(items.drop_last()[i] == items[i]);
        lemma_entry_is_visible(items.drop_last(), i, id);
        let k = choose|k: int| 0 <= k < above.len() && above[k] == id;
        assert(all[k] == id);
    }
}

/// The entry of a folder in `parent` is there where something below it is found, and without
/// a query in any case.
proof fn lemma_folder_entry_is_there(
    folders: Seq<StoredFolderModel>,
    requests: Seq<StoredRequestModel>,
    texts: TreeTexts,
    parent: Option<Seq<char>>,
    query: Seq<char>,
    levels: nat,
    n: nat,
    k: int,
) -> (i: int)
    requires
        levels > 0,
        n <= folders.len(),
        0 <= k < n,
        folders[k].parent_id == parent,
        query.len() == 0 || child_entries(
            folders,
            requests,
            texts,
            Some(folders[k].id),
            query,
            (levels - 1) as nat,
        ).len() > 0,
    ensures
        ({
            let entries = folder_entries(folders, requests, texts, parent, query, levels, n);
            &&& 0 <= i < entries.len()
            &&& entries[i] == (TreeModel {
                id: folders[k].id,
                label: folders[k].name,
                expanded: true,
                disabled: false,
                children: child_entries(
                    folders,
                    requests,
                    texts,
                    Some(folders[k].id),
                    query,
                    (levels - 1) as nat,
                ),
            })
        }),
    decreases n,
{
    let before = folder_entries(folders, requests, texts, parent, query, levels, (n - 1) as nat);
    if k == n - 1 {
        before.len() as int
    } else {
        lemma_folder_entry_is_there(
            folders,
            requests,
            texts,
            parent,
            query,
            levels,
            (n - 1) as nat,
            k,
        )
    }
}

/// Whether the indices name folders that lie one in the other, the first of them in
/// `parent`.
pub open spec fn leads_down(
    folders: Seq<StoredFolderModel>,
    parent: Option<Seq<char>>,
    path: Seq<int>,
) -> bool {
    &&& forall|i: int| 0 <= i < path.len() ==> 0 <= #[trigger] path[i] < folders.len()
    &&& path.len() > 0 ==> folders[path[0]].parent_id == parent
    &&& forall|i: int|
        0 < i < path.len() ==> folders[#[trigger] path[i]].parent_id == Some(
            folders[path[i - 1]].id,
        )
}

/// The folder that a path of folders leads to.
pub open spec fn path_end(
    folders: Seq<StoredFolderModel>,
    parent: Option<Seq<char>>,
    path: Seq<int>,
) -> Option<Seq<char>> {
    if path.len() == 0 {
        parent
    } else {
        Some(folders[path.last()].id)
    }
}

proof fn lemma_path_is_visible(
    folders: Seq<StoredFolderModel>,
    requests: Seq<StoredRequestModel>,
    texts: TreeTexts,
    parent: Option<Seq<char>>,
    query: Seq<char>,
    levels: nat,
    path: Seq<int>,
    k: int,
)
    requires
        depth_within(folders, parent, levels),
        leads_down(folders, parent, path),
        0 <= k < requests.len(),
        requests[k].folder_id == path_end(folders, parent, path),
        matches_query(requests[k], texts, query),
    ensures
        visible_ids(
            child_entries(folders, requests, texts, parent, query, levels),
        ).contains(requests[k].id),
    decreases path.len(),
{
    let upper = folder_entries(folders, requests, texts, parent, query, levels, folders.len());
    let lower = request_entries(requests, texts, parent, query);
    let entries = child_entries(folders, requests, texts, parent, query, levels);
    if path.len() == 0 {
        law_search_shows_what_it_finds(requests, texts, parent, query);
        let entry = request_entry(requests[k], texts);
        assert(lower.contains(entry));
        let i = choose|i: int| 0 <= i < lower.len() && lower[i] == entry;
        assert(entries[upper.len() + i] == entry);
        assert(entry_ids(entry)[0] == requests[k].id);
        lemma_entry_is_visible(entries, upper.len() + i, requests[k].id);
    } else {
        let first = path[0];
        let rest = path.drop_first();
        assert(folders[first].parent_id == parent);
        let below = Some(folders[first].id);
        assert forall|j: int| 0 <= j < rest.len() implies 0 <= #[trigger] rest[j]
            < folders.len() by {
            assert(rest[j] == path[j + 1]);
        }
        assert forall|j: int| 0 < j < rest.len() implies folders[#[trigger] rest[j]].parent_id
            == Some(folders[rest[j - 1]].id) by {
            assert(rest[j] == path[j + 1]);
            assert(rest[j - 1] == path[j]);
        }
        if rest.len() > 0 {
            assert(rest[0] == path[1]);
            assert(rest.last() == path.last());
        } else {
            assert(path.last() == first);
        }
        lemma_path_is_visible(
            folders,
            requests,
            texts,
            below,
            query,
            (levels - 1) as nat,
            rest,
            k,
        );
        let i = lemma_folder_entry_is_there(
            folders,
            requests,
            texts,
            parent,
            query,
            levels,
            folders.len(),
            first,
        );
        let entry = upper[i];
        let inside = visible_ids(entry.children);
        let j = choose|j: int| 0 <= j < inside.len() && inside[j] == requests[k].id;
        assert(entry_ids(entry)[1 + j] == requests[k].id);
        assert(entries[i] == entry);
        lemma_entry_is_visible(entries, i, requests[k].id);
    }
}

/// The tree of a search shows every request that the search finds and that lies in a folder
/// which a path of folders leads to from the root, or in no folder.
pub proof fn law_tree_shows_every_request(
    folders: Seq<StoredFolderModel>,
    requests: Seq<StoredRequestModel>,
    texts: TreeTexts,
    query: Seq<char>,
    path: Seq<int>,
    k: int,
)
    requires
        depth_within(folders, None, folders.len()),
        leads_down(folders, None, path),
        0 <= k < requests.len(),
        requests[k].folder_id == path_end(folders, None, path),
    ensures
        matches_query(requests[k], texts, query) ==> visible_ids(
            tree_with_query(folders, requests, texts, query),
        ).contains(requests[k].id),
{
    if matches_query(requests[k], texts, query) {
        lemma_path_is_visible(folders, requests, texts, None, query, folders.len(), path, k);
        let children = child_entries(folders, requests, texts, None, query, folders.len());
        let inside = visible_ids(children);
        let j = choose|j: int| 0 <= j < inside.len() && inside[j] == requests[k].id;
        assert(children.len() > 0);
        let tree = tree_with_query(folders, requests, texts, query);
        assert(entry_ids(tree[0])[1 + j] == requests[k].id);
        lemma_entry_is_visible(tree, 0, requests[k].id);
    }
}

} // verus!
