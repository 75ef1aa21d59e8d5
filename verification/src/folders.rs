//! How folders lie inside one another.

use vstd::prelude::*;
use crate::lookup::{find, lemma_position, position};
use crate::request_store::{StoredFolder, StoredFolderModel};
use crate::text::same;

verus! {

/// Whether `ids` holds `id`.
pub fn holds_id(ids: &Vec<String>, id: &str) -> (b: bool)
    ensures
        b == ids.deep_view().contains(id@),
{
    let ghost all = ids.deep_view();
    let mut i: usize = 0;
    while i < ids.len()
        invariant
            all == ids.deep_view(),
            i <= ids.len(),
            forall|k: int| 0 <= k < i ==> #[trigger] all[k] != id@,
        decreases ids.len() - i,
    {
        assert(all[i as int] == ids@[i as int]@);
        if same(ids[i].as_str(), id) {
            return true;
        }
        i = i + 1;
    }
    false
}

/// Whether the folder lies directly in one of the folders `ids`.
pub open spec fn lies_in(folder: StoredFolderModel, ids: Set<Seq<char>>) -> bool {
    folder.parent_id is Some && ids.contains(folder.parent_id->0)
}

/// The id `root` and those of the folders at most `depth` levels below it.
pub open spec fn ids_within(
    folders: Seq<StoredFolderModel>,
    root: Seq<char>,
    depth: nat,
) -> Set<Seq<char>>
    decreases depth,
{
    if depth == 0 {
        set![root]
    } else {
        let above = ids_within(folders, root, (depth - 1) as nat);
        above.union(
            Set::new(
                |id: Seq<char>|
                    exists|k: int|
                        0 <= k < folders.len() && (#[trigger] folders[k]).id == id && lies_in(
                            folders[k],
                            above,
                        ),
            ),
        )
    }
}

/// The id `root` and those of all folders below it, at any depth.
pub open spec fn subtree_ids(folders: Seq<StoredFolderModel>, root: Seq<char>) -> Set<Seq<char>> {
    Set::new(|id: Seq<char>| exists|depth: nat| #[trigger] ids_within(folders, root, depth).contains(id))
}

/// The subtree of a folder holds the folder and, with a folder, all that lie in it;
/// and it is the smallest such set.
pub proof fn law_subtree_is_least(
    folders: Seq<StoredFolderModel>,
    root: Seq<char>,
    ids: Set<Seq<char>>,
)
    ensures
        subtree_ids(folders, root).contains(root),
        forall|k: int|
            0 <= k < folders.len() && lies_in(#[trigger] folders[k], subtree_ids(folders, root))
                ==> subtree_ids(folders, root).contains(folders[k].id),
        ids.contains(root) && (forall|k: int|
            0 <= k < folders.len() && lies_in(#[trigger] folders[k], ids) ==> ids.contains(
                folders[k].id,
            )) ==> subtree_ids(folders, root).subset_of(ids),
{
    assert(ids_within(folders, root, 0).contains(root));
    assert forall|k: int|
        0 <= k < folders.len() && lies_in(
            #[trigger] folders[k],
            subtree_ids(folders, root),
        ) implies subtree_ids(folders, root).contains(folders[k].id) by {
        let parent = folders[k].parent_id->0;
        let depth = choose|depth: nat| #[trigger] ids_within(folders, root, depth).contains(parent);
        assert(lies_in(folders[k], ids_within(folders, root, depth)));
        assert(ids_within(folders, root, depth + 1).contains(folders[k].id));
    }
    if ids.contains(root) && (forall|k: int|
        0 <= k < folders.len() && lies_in(#[trigger] folders[k], ids) ==> ids.contains(
            folders[k].id,
        )) {
        assert forall|id: Seq<char>| subtree_ids(folders, root).contains(id) implies ids.contains(
            id,
        ) by {
            let depth = choose|depth: nat| #[trigger] ids_within(folders, root, depth).contains(id);
            lemma_within_closed(folders, root, depth, ids);
        }
    }
}

proof fn lemma_within_closed(
    folders: Seq<StoredFolderModel>,
    root: Seq<char>,
    depth: nat,
    ids: Set<Seq<char>>,
)
    requires
        ids.contains(root),
        forall|k: int|
            0 <= k < folders.len() && lies_in(#[trigger] folders[k], ids) ==> ids.contains(
                folders[k].id,
            ),
    ensures
        ids_within(folders, root, depth).subset_of(ids),
    decreases depth,
{
    if depth > 0 {
        lemma_within_closed(folders, root, (depth - 1) as nat, ids);
    }
}

/// How many folders have an id outside `ids`.
spec fn missing(folders: Seq<StoredFolderModel>, ids: Seq<Seq<char>>) -> nat
    decreases folders.len(),
{
    if folders.len() == 0 {
        0
    } else {
        missing(folders.drop_last(), ids) + if ids.contains(folders.last().id) {
            0nat
        } else {
            1nat
        }
    }
}

proof fn lemma_fewer_missing(folders: Seq<StoredFolderModel>, ids: Seq<Seq<char>>, k: int)
    requires
        0 <= k < folders.len(),
        !ids.contains(folders[k].id),
    ensures
        missing(folders, ids.push(folders[k].id)) < missing(folders, ids),
    decreases folders.len(),
{
    let more = ids.push(folders[k].id);
    lemma_missing_push(folders.drop_last(), ids, folders[k].id);
    assert forall|id: Seq<char>| ids.contains(id) implies more.contains(id) by {
        let j = choose|j: int| 0 <= j < ids.len() && ids[j] == id;
        assert(more[j] == id);
    }
    if k == folders.len() - 1 {
        assert(more[ids.len() as int] == folders.last().id);
    } else {
        assert(folders.drop_last()[k] == folders[k]);
        lemma_fewer_missing(folders.drop_last(), ids, k);
    }
}

proof fn lemma_missing_push(folders: Seq<StoredFolderModel>, ids: Seq<Seq<char>>, id: Seq<char>)
    ensures
        missing(folders, ids.push(id)) <= missing(folders, ids),
    decreases folders.len(),
{
    if folders.len() > 0 {
        lemma_missing_push(folders.drop_last(), ids, id);
        let last = folders.last().id;
        if ids.contains(last) {
            let j = choose|j: int| 0 <= j < ids.len() && ids[j] == last;
            assert(ids.push(id)[j] == last);
        }
    }
}

/// The id `id` and those of all folders below it, at any depth.
pub fn descendant_folder_ids(folders: &Vec<StoredFolder>, id: &str) -> (r: Vec<String>)
    ensures
        r.deep_view().to_set() == subtree_ids(folders.deep_view(), id@),
{
    let ghost all = folders.deep_view();
    let ghost whole = subtree_ids(all, id@);
    let mut ids: Vec<String> = Vec::new();
    ids.push(id.to_owned());
    proof {
        law_subtree_is_least(all, id@, whole);
        assert(ids.deep_view() =~= seq![id@]);
        assert(ids.deep_view()[0] == id@);
    }
    let mut changed = true;
    while changed
        invariant
            all == folders.deep_view(),
            whole == subtree_ids(all, id@),
            ids.deep_view().contains(id@),
            forall|k: int| 0 <= k < ids.deep_view().len() ==> whole.contains(
                #[trigger] ids.deep_view()[k],
            ),
            !changed ==> forall|k: int|
                0 <= k < all.len() && lies_in(#[trigger] all[k], ids.deep_view().to_set())
                    ==> ids.deep_view().contains(all[k].id),
        decreases
                missing(all, ids.deep_view()),
                if changed {
                    1int
                } else {
                    0int
                },
    {
        changed = false;
        let ghost start = ids.deep_view();
        let mut i: usize = 0;
        while i < folders.len()
            invariant
                all == folders.deep_view(),
                whole == subtree_ids(all, id@),
                i <= folders.len(),
                ids.deep_view().contains(id@),
                forall|k: int| 0 <= k < ids.deep_view().len() ==> whole.contains(
                    #[trigger] ids.deep_view()[k],
                ),
                changed ==> missing(all, ids.deep_view()) < missing(all, start),
                !changed ==> ids.deep_view() == start,
                !changed ==> forall|k: int|
                    0 <= k < i && lies_in(#[trigger] all[k], start.to_set()) ==> start.contains(
                        all[k].id,
                    ),
            decreases folders.len() - i,
        {
            let ghost held = ids.deep_view();
            assert(all[i as int] == folders@[i as int].deep_view());
            let inside = match &folders[i].parent_id {
                Some(parent) => holds_id(&ids, parent.as_str()),
                None => false,
            };
            assert(inside == lies_in(all[i as int], held.to_set()));
            if inside && !holds_id(&ids, folders[i].id.as_str()) {
                proof {
                    let parent = all[i as int].parent_id->0;
                    let j = choose|j: int| 0 <= j < held.len() && held[j] == parent;
                    assert(whole.contains(held[j]));
                    assert(lies_in(all[i as int], whole));
                    law_subtree_is_least(all, id@, whole);
                    lemma_fewer_missing(all, held, i as int);
                }
                ids.push(folders[i].id.clone());
                proof {
                    assert(ids.deep_view() =~= held.push(all[i as int].id));
                    let j = choose|j: int| 0 <= j < held.len() && held[j] == id@;
                    assert(ids.deep_view()[j] == id@);
                    assert forall|k: int| 0 <= k < ids.deep_view().len() implies whole.contains(
                        #[trigger] ids.deep_view()[k],
                    ) by {
                        if k < held.len() {
                            assert(whole.contains(held[k]));
                        }
                    }
                }
                changed = true;
            }
            i = i + 1;
        }
    }
    proof {
        let found = ids.deep_view().to_set();
        law_subtree_is_least(all, id@, found);
        assert forall|x: Seq<char>| found.contains(x) implies whole.contains(x) by {
            let k = choose|k: int| 0 <= k < ids.deep_view().len() && ids.deep_view()[k] == x;
            assert(whole.contains(ids.deep_view()[k]));
        }
        assert(found =~= whole);
    }
    ids
}

/// The ids from the outermost folder down to the folder `at`, in at most `steps`
/// folders. The way up ends at a folder without a parent, at an unknown id, and at
/// an id in `seen`.
pub open spec fn way_up(
    folders: Seq<StoredFolderModel>,
    at: Option<Seq<char>>,
    seen: Seq<Seq<char>>,
    steps: nat,
) -> Seq<Seq<char>>
    decreases steps,
{
    match at {
        Some(id) => match position(folders, id) {
            Some(k) => if steps == 0 || seen.contains(id) {
                Seq::empty()
            } else {
                way_up(folders, folders[k].parent_id, seen.push(id), (steps - 1) as nat).push(id)
            },
            None => Seq::empty(),
        },
        None => Seq::empty(),
    }
}

/// The ids of the folder `at` and of those that it lies in, outermost first.
pub open spec fn folder_chain(
    folders: Seq<StoredFolderModel>,
    at: Option<Seq<char>>,
) -> Seq<Seq<char>> {
    way_up(folders, at, Seq::empty(), folders.len())
}

fn way_up_ids(
    folders: &Vec<StoredFolder>,
    at: &Option<String>,
    seen: Vec<String>,
    steps: usize,
) -> (r: Vec<String>)
    ensures
        r.deep_view() == way_up(
            folders.deep_view(),
            at.deep_view(),
            seen.deep_view(),
            steps as nat,
        ),
    decreases steps,
{
    let ghost held = seen.deep_view();
    if let Some(id) = at {
        if let Some(k) = find(folders, id.as_str()) {
            assert(folders.deep_view()[k as int] == folders@[k as int].deep_view());
            if steps > 0 && !holds_id(&seen, id.as_str()) {
                let mut seen = seen;
                seen.push(id.clone());
                assert(seen.deep_view() =~= held.push(id@));
                let mut r = way_up_ids(folders, &folders[k].parent_id, seen, steps - 1);
                let ghost upper = r.deep_view();
                r.push(id.clone());
                assert(r.deep_view() =~= upper.push(id@));
                return r;
            }
        }
    }
    let r: Vec<String> = Vec::new();
    assert(r.deep_view() =~= Seq::<Seq<char>>::empty());
    r
}

/// The ids of the folder `at` and of those that it lies in, outermost first.
pub fn ancestor_folder_ids(folders: &Vec<StoredFolder>, at: &Option<String>) -> (r: Vec<String>)
    ensures
        r.deep_view() == folder_chain(folders.deep_view(), at.deep_view()),
{
    let seen: Vec<String> = Vec::new();
    assert(seen.deep_view() =~= Seq::<Seq<char>>::empty());
    way_up_ids(folders, at, seen, folders.len())
}

/// What a chain of folders is: it ends with the folder it starts from, each folder in
/// it is known and lies in the one before it, none occurs twice, and it goes up as
/// far as there are known folders that are not in it already.
pub open spec fn is_chain(
    folders: Seq<StoredFolderModel>,
    at: Option<Seq<char>>,
    chain: Seq<Seq<char>>,
) -> bool {
    &&& chain.no_duplicates()
    &&& chain.len() == 0 <==> (at is None || position(folders, at->0) is None)
    &&& chain.len() > 0 ==> at == Some(chain.last())
    &&& forall|i: int|
        0 <= i < chain.len() ==> position(folders, #[trigger] chain[i]) is Some
    &&& forall|i: int|
        0 < i < chain.len() ==> parent_of(folders, #[trigger] chain[i]) == Some(chain[i - 1])
    &&& chain.len() > 0 ==> {
        let above = parent_of(folders, chain[0]);
        above is None || position(folders, above->0) is None || chain.contains(above->0)
    }
}

/// The parent of the first folder with the id.
pub open spec fn parent_of(folders: Seq<StoredFolderModel>, id: Seq<char>) -> Option<Seq<char>> {
    match position(folders, id) {
        Some(k) => folders[k].parent_id,
        None => None,
    }
}

/// The folders around a place, outermost first, are a chain of folders, each in the one
/// before it, that goes up as far as it can.
pub proof fn law_folder_chain(folders: Seq<StoredFolderModel>, at: Option<Seq<char>>)
    ensures
        is_chain(folders, at, folder_chain(folders, at)),
{
    lemma_missing_bound(folders, Seq::empty());
    lemma_way_up(folders, at, Seq::empty(), folders.len());
}

proof fn lemma_missing_bound(folders: Seq<StoredFolderModel>, ids: Seq<Seq<char>>)
    ensures
        missing(folders, ids) <= folders.len(),
    decreases folders.len(),
{
    if folders.len() > 0 {
        lemma_missing_bound(folders.drop_last(), ids);
    }
}

proof fn lemma_none_missing(folders: Seq<StoredFolderModel>, ids: Seq<Seq<char>>, k: int)
    requires
        missing(folders, ids) == 0,
        0 <= k < folders.len(),
    ensures
        ids.contains(folders[k].id),
    decreases folders.len(),
{
    if k < folders.len() - 1 {
        lemma_none_missing(folders.drop_last(), ids, k);
    }
}

proof fn lemma_way_up(
    folders: Seq<StoredFolderModel>,
    at: Option<Seq<char>>,
    seen: Seq<Seq<char>>,
    steps: nat,
)
    requires
        missing(folders, seen) <= steps,
    ensures
        ({
            let chain = way_up(folders, at, seen, steps);
            &&& chain.no_duplicates()
            &&& forall|i: int| 0 <= i < chain.len() ==> !seen.contains(#[trigger] chain[i])
            &&& chain.len() == 0 <==> (at is None || position(folders, at->0) is None
                || seen.contains(at->0))
            &&& chain.len() > 0 ==> at == Some(chain.last())
            &&& forall|i: int|
                0 <= i < chain.len() ==> position(folders, #[trigger] chain[i]) is Some
            &&& forall|i: int|
                0 < i < chain.len() ==> parent_of(folders, #[trigger] chain[i]) == Some(
                    chain[i - 1],
                )
            &&& chain.len() > 0 ==> {
                let above = parent_of(folders, chain[0]);
                above is None || position(folders, above->0) is None || chain.contains(above->0)
                    || seen.contains(above->0)
            }
        }),
    decreases steps,
{
    let chain = way_up(folders, at, seen, steps);
    if at is Some && position(folders, at->0) is Some {
        let id = at->0;
        let k = position(folders, id)->0;
        lemma_position(folders, id);
        if steps == 0 {
            lemma_none_missing(folders, seen, k);
        } else if !seen.contains(id) {
            let more = seen.push(id);
            lemma_fewer_missing(folders, seen, k);
            let parent = folders[k].parent_id;
            lemma_way_up(folders, parent, more, (steps - 1) as nat);
            let upper = way_up(folders, parent, more, (steps - 1) as nat);
            assert(chain == upper.push(id));
            assert forall|x: Seq<char>| seen.contains(x) implies more.contains(x) by {
                let j = choose|j: int| 0 <= j < seen.len() && seen[j] == x;
                assert(more[j] == x);
            }
            assert(more[seen.len() as int] == id);
            assert forall|i: int| 0 <= i < chain.len() implies !seen.contains(
                #[trigger] chain[i],
            ) by {
                if i < upper.len() {
                    assert(chain[i] == upper[i]);
                }
            }
            assert forall|i: int| 0 <= i < upper.len() implies upper[i] != id by {
                assert(!more.contains(upper[i]));
            }
            assert forall|i: int| 0 <= i < chain.len() implies position(
                folders,
                #[trigger] chain[i],
            ) is Some by {
                if i < upper.len() {
                    assert(chain[i] == upper[i]);
                }
            }
            assert forall|i: int| 0 < i < chain.len() implies parent_of(
                folders,
                #[trigger] chain[i],
            ) == Some(chain[i - 1]) by {
                if i < upper.len() {
                    assert(chain[i] == upper[i]);
                    assert(chain[i - 1] == upper[i - 1]);
                }
            }
            if upper.len() == 0 {
                assert(chain[0] == id);
                let above = parent_of(folders, id);
                if above is Some && more.contains(above->0) && !seen.contains(above->0) {
                    let j = choose|j: int| 0 <= j < more.len() && more[j] == above->0;
                    if j < seen.len() {
                        assert(seen[j] == above->0);
                    }
                    assert(above->0 == id);
                    assert(chain.contains(id));
                }
            } else {
                assert(chain[0] == upper[0]);
                let above = parent_of(folders, chain[0]);
                if above is Some && upper.contains(above->0) {
                    let j = choose|j: int| 0 <= j < upper.len() && upper[j] == above->0;
                    assert(chain[j] == above->0);
                }
                if above is Some && more.contains(above->0) && !seen.contains(above->0) {
                    let j = choose|j: int| 0 <= j < more.len() && more[j] == above->0;
                    if j < seen.len() {
                        assert(seen[j] == above->0);
                    }
                    assert(chain[chain.len() - 1] == id);
                    assert(chain.contains(id));
                }
            }
        }
    }
}

} // verus!
