//! Where the variables of a request come from.

use vstd::prelude::*;
use crate::environments::folder_scopes;
use crate::folders::{folder_chain, is_chain, law_folder_chain};
use crate::http::KeyValueModel;
use crate::lookup::{lemma_position, position};
use crate::request_store::{StoredFolderModel, StoredRequestModel};
use crate::text::trimmed;
use crate::variables::{law_scope_precedence, text_before, value_in, value_in_scopes};
use crate::view_state::ApiTestViewModel;

verus! {

/// Whether a row gives the variable `name` a value: it is enabled, and its key is the name
/// with nothing but white space around it.
pub open spec fn row_sets(row: KeyValueModel, name: Seq<char>) -> bool {
    row.enabled && trimmed(row.key).len() > 0 && trimmed(row.key) == name
}

/// Whether `value` is what the last row for `name` gives it.
pub open spec fn rows_give(rows: Seq<KeyValueModel>, name: Seq<char>, value: Seq<char>) -> bool {
    exists|k: int|
        0 <= k < rows.len() && row_sets(#[trigger] rows[k], name) && rows[k].value == value
            && forall|j: int| k < j < rows.len() ==> !row_sets(#[trigger] rows[j], name)
}

/// Whether no row gives `name` a value.
pub open spec fn rows_silent(rows: Seq<KeyValueModel>, name: Seq<char>) -> bool {
    forall|k: int| 0 <= k < rows.len() ==> !row_sets(#[trigger] rows[k], name)
}

proof fn lemma_value_given(rows: Seq<KeyValueModel>, name: Seq<char>, value: Seq<char>)
    ensures
        rows_give(rows, name, value) ==> value_in(rows, name) == Some(value),
        rows_silent(rows, name) <==> value_in(rows, name) is None,
    decreases rows.len(),
{
    if rows.len() > 0 {
        let fewer = rows.drop_last();
        let last = rows.len() - 1;
        lemma_value_given(fewer, name, value);
        assert(rows.last() == rows[last]);
        if row_sets(rows[last], name) {
            if rows_give(rows, name, value) {
                let k = choose|k: int|
                    0 <= k < rows.len() && row_sets(#[trigger] rows[k], name) && rows[k].value
                        == value && forall|j: int|
                        k < j < rows.len() ==> !row_sets(#[trigger] rows[j], name);
                assert(k == last);
            }
        } else {
            if rows_give(rows, name, value) {
                let k = choose|k: int|
                    0 <= k < rows.len() && row_sets(#[trigger] rows[k], name) && rows[k].value
                        == value && forall|j: int|
                        k < j < rows.len() ==> !row_sets(#[trigger] rows[j], name);
                assert(fewer[k] == rows[k]);
                assert forall|j: int| k < j < fewer.len() implies !row_sets(
                    #[trigger] fewer[j],
                    name,
                ) by {
                    assert(fewer[j] == rows[j]);
                }
                assert(rows_give(fewer, name, value));
            }
            if rows_silent(rows, name) {
                assert forall|k: int| 0 <= k < fewer.len() implies !row_sets(
                    #[trigger] fewer[k],
                    name,
                ) by {
                    assert(fewer[k] == rows[k]);
                }
            }
            if rows_silent(fewer, name) {
                assert forall|k: int| 0 <= k < rows.len() implies !row_sets(
                    #[trigger] rows[k],
                    name,
                ) by {
                    if k < last {
                        assert(fewer[k] == rows[k]);
                    }
                }
            }
        }
    }
}

proof fn lemma_scope_given(
    scopes: Seq<Seq<KeyValueModel>>,
    name: Seq<char>,
    value: Seq<char>,
    k: int,
)
    requires
        0 <= k < scopes.len(),
        rows_give(scopes[k], name, value),
        forall|j: int| k < j < scopes.len() ==> rows_silent(#[trigger] scopes[j], name),
    ensures
        value_in_scopes(scopes, name) == Some(value),
    decreases scopes.len(),
{
    let last = scopes.len() - 1;
    lemma_value_given(scopes[last], name, value);
    if k < last {
        let fewer = scopes.drop_last();
        assert(rows_silent(scopes[last], name));
        assert forall|j: int| k < j < fewer.len() implies rows_silent(#[trigger] fewer[j], name) by {
            assert(fewer[j] == scopes[j]);
        }
        lemma_scope_given(fewer, name, value, k);
    }
}

proof fn lemma_scopes_silent(scopes: Seq<Seq<KeyValueModel>>, name: Seq<char>)
    requires
        forall|j: int| 0 <= j < scopes.len() ==> rows_silent(#[trigger] scopes[j], name),
    ensures
        value_in_scopes(scopes, name) is None,
    decreases scopes.len(),
{
    if scopes.len() > 0 {
        let fewer = scopes.drop_last();
        let last = scopes.len() - 1;
        assert(rows_silent(scopes[last], name));
        lemma_value_given(scopes[last], name, Seq::empty());
        assert forall|j: int| 0 <= j < fewer.len() implies rows_silent(#[trigger] fewer[j], name) by {
            assert(fewer[j] == scopes[j]);
        }
        lemma_scopes_silent(fewer, name);
    }
}

/// The variables of the first folder with an id.
pub open spec fn variables_of_folder(
    folders: Seq<StoredFolderModel>,
    id: Seq<char>,
) -> Seq<KeyValueModel> {
    folders[position(folders, id)->0].variables
}

/// Whether the active environment gives `name` no value, or there is none.
pub open spec fn environment_silent(view: ApiTestViewModel, name: Seq<char>) -> bool {
    forall|i: int|
        0 <= i < view.store.environments.len() && view.store.active_environment_id is Some
            && position(view.store.environments, view.store.active_environment_id->0) == Some(i)
            ==> rows_silent((#[trigger] view.store.environments[i]).variables, name)
}

/// Where the variables of a request come from. A name has the value that the request's own
/// variables give it; where those give none, that of its path variables; else that of the
/// innermost of its folders that gives one; else that of the active environment; else that of
/// the global variables. A name that none of them gives a value has none. The folders of a
/// request are the chain of folders that its own folder ends.
pub proof fn law_effective_variables(
    view: ApiTestViewModel,
    request: StoredRequestModel,
    name: Seq<char>,
    value: Seq<char>,
    k: int,
    e: int,
)
    ensures
        ({
            let vars = view.effective_variables(request);
            let has = vars.contains_key(name) && vars[name] == value;
            let folders = view.store.folders;
            let chain = folder_chain(folders, request.folder_id);
            let own_silent = rows_silent(request.variables, name);
            let path_silent = own_silent && rows_silent(request.path_vars, name);
            let folders_silent = path_silent && forall|j: int|
                0 <= j < chain.len() ==> rows_silent(
                    variables_of_folder(folders, #[trigger] chain[j]),
                    name,
                );
            &&& is_chain(folders, request.folder_id, chain)
            &&& rows_give(request.variables, name, value) ==> has
            &&& own_silent && rows_give(request.path_vars, name, value) ==> has
            &&& path_silent && 0 <= k < chain.len() && rows_give(
                variables_of_folder(folders, chain[k]),
                name,
                value,
            ) && (forall|j: int|
                k < j < chain.len() ==> rows_silent(
                    variables_of_folder(folders, #[trigger] chain[j]),
                    name,
                )) ==> has
            &&& folders_silent && view.store.active_environment_id is Some && position(
                view.store.environments,
                view.store.active_environment_id->0,
            ) == Some(e) && rows_give(view.store.environments[e].variables, name, value) ==> has
            &&& folders_silent && environment_silent(view, name) && rows_give(
                view.store.globals,
                name,
                value,
            ) ==> has
            &&& folders_silent && environment_silent(view, name) && rows_silent(
                view.store.globals,
                name,
            ) ==> !vars.contains_key(name)
        }),
{
    let folders = view.store.folders;
    let chain = folder_chain(folders, request.folder_id);
    let scopes = folder_scopes(folders, chain);
    let environment = view.environment_variables();
    law_folder_chain(folders, request.folder_id);
    law_scope_precedence(
        view.store.globals,
        environment,
        scopes,
        request.path_vars,
        request.variables,
        name,
    );
    lemma_value_given(request.variables, name, value);
    lemma_value_given(request.path_vars, name, value);
    lemma_value_given(environment, name, value);
    lemma_value_given(view.store.globals, name, value);
    assert forall|j: int| 0 <= j < chain.len() implies #[trigger] scopes[j] == variables_of_folder(
        folders,
        chain[j],
    ) by {
        assert(position(folders, chain[j]) is Some);
    }
    if 0 <= k < chain.len() && rows_give(variables_of_folder(folders, chain[k]), name, value) && (
    forall|j: int|
        k < j < chain.len() ==> rows_silent(
            variables_of_folder(folders, #[trigger] chain[j]),
            name,
        )) {
        assert forall|j: int| k < j < scopes.len() implies rows_silent(#[trigger] scopes[j], name) by {
            assert(rows_silent(variables_of_folder(folders, chain[j]), name));
        }
        assert(scopes[k] == variables_of_folder(folders, chain[k]));
        lemma_scope_given(scopes, name, value, k);
    }
    if forall|j: int|
        0 <= j < chain.len() ==> rows_silent(
            variables_of_folder(folders, #[trigger] chain[j]),
            name,
        ) {
        assert forall|j: int| 0 <= j < scopes.len() implies rows_silent(#[trigger] scopes[j], name) by {
            assert(rows_silent(variables_of_folder(folders, chain[j]), name));
        }
        lemma_scopes_silent(scopes, name);
    }
    if let Some(active) = view.store.active_environment_id {
        lemma_position(view.store.environments, active);
        if let Some(i) = position(view.store.environments, active) {
            assert(environment == view.store.environments[i].variables);
        }
    }
}

/// The order in which variables are listed goes by the first character in which two names
/// differ, and a name comes before every longer one that begins with it.
pub proof fn law_names_are_ordered_by_the_first_difference(
    common: Seq<char>,
    a: Seq<char>,
    b: Seq<char>,
)
    ensures
        a.len() == 0 && b.len() > 0 ==> text_before(common + a, common + b) && !text_before(
            common + b,
            common + a,
        ),
        a.len() > 0 && b.len() > 0 && a[0] < b[0] ==> text_before(common + a, common + b)
            && !text_before(common + b, common + a),
        !text_before(common, common),
    decreases common.len(),
{
    if common.len() == 0 {
        assert(common + a =~= a);
        assert(common + b =~= b);
    } else {
        law_names_are_ordered_by_the_first_difference(common.drop_first(), a, b);
        assert((common + a).drop_first() =~= common.drop_first() + a);
        assert((common + b).drop_first() =~= common.drop_first() + b);
    }
}

} // verus!
