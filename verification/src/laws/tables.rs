//! What clicks in a table and scripts do to the rows.

use vstd::prelude::*;
use crate::editing::KvAction;
use crate::http::{FieldType, KeyValueModel};
use crate::lookup::{lemma_position, position};
use crate::scripting::{ScriptResultModel, SideEffectModel, VarScope};
use crate::sections::{KvRowModel, KvSection, SectionRowsModel, law_sections_are_independent};
use crate::variables::{
    effects_change, last_setting, law_effects_on_rows, law_last_effect_wins, with_effects,
};
use crate::view_state::ApiTestViewModel;

verus! {

/// Each section names its own table.
pub proof fn law_sections_name_their_tables(rows: SectionRowsModel)
    ensures
        rows.get(KvSection::Params) == rows.params,
        rows.get(KvSection::Path) == rows.path,
        rows.get(KvSection::Headers) == rows.headers,
        rows.get(KvSection::Cookies) == rows.cookies,
        rows.get(KvSection::Body) == rows.body,
        rows.get(KvSection::Globals) == rows.globals,
        rows.get(KvSection::GlobalParams) == rows.global_params,
        rows.get(KvSection::GlobalHeaders) == rows.global_headers,
        rows.get(KvSection::GlobalCookies) == rows.global_cookies,
        rows.get(KvSection::Environment) == rows.environment,
        rows.get(KvSection::EnvironmentParams) == rows.environment_params,
        rows.get(KvSection::EnvironmentHeaders) == rows.environment_headers,
        rows.get(KvSection::EnvironmentCookies) == rows.environment_cookies,
        rows.get(KvSection::FolderParams) == rows.folder_params,
        rows.get(KvSection::FolderHeaders) == rows.folder_headers,
        rows.get(KvSection::FolderVariables) == rows.folder_variables,
        rows.get(KvSection::RequestVariables) == rows.request_variables,
{
}

/// The section that a click is about.
pub open spec fn section_of(action: KvAction) -> KvSection {
    match action {
        KvAction::Add(section) => section,
        KvAction::Remove { section, index } => section,
        KvAction::SetEnabled { section, index } => section,
        KvAction::SetFieldType { section, index, field_type } => section,
        KvAction::ChooseFile { section, index } => section,
    }
}

/// A click in a table changes that table alone: no other table, no text, no selection, nothing
/// of the store before it is committed, and nothing of what is open. Only the choice of no
/// file at all comes to nothing.
pub proof fn law_a_click_changes_one_table(
    view: ApiTestViewModel,
    action: KvAction,
    ticked: bool,
    paths: Seq<Seq<char>>,
    other: KvSection,
)
    ensures
        view.changed_by(action, ticked, paths) is None <==> action is ChooseFile && paths.len()
            == 0,
        view.changed_by(action, ticked, paths) is Some ==> {
            let after = view.changed_by(action, ticked, paths)->0;
            &&& other != section_of(action) ==> after.rows.get(other) == view.rows.get(other)
            &&& after.inputs == view.inputs
            &&& after.selections == view.selections
            &&& after.store == view.store
            &&& after.active_request_id == view.active_request_id
            &&& after.active_folder_id == view.active_folder_id
            &&& after.response == view.response
            &&& after.request_generation == view.request_generation
            &&& after.suppress_commit == view.suppress_commit
        },
{
    if let Some(after) = view.changed_by(action, ticked, paths) {
        let section = section_of(action);
        law_sections_are_independent(view.rows, section, after.rows.get(section), other);
        assert(after.rows == view.rows.with(section, after.rows.get(section))) by {
            lemma_with_get(view.rows, section, view.rows.get(section));
            lemma_with_get(view.rows, section, after.rows.get(section));
        }
    }
}

proof fn lemma_with_get(rows: SectionRowsModel, section: KvSection, new: Seq<KvRowModel>)
    ensures
        rows.with(section, new).get(section) == new,
        rows.with(section, rows.get(section)) == rows,
{
}

/// Adding a row puts an empty, enabled text row behind the others, which stay.
pub proof fn law_adding_a_row(
    view: ApiTestViewModel,
    section: KvSection,
    ticked: bool,
    paths: Seq<Seq<char>>,
)
    ensures
        ({
            let before = view.rows.get(section);
            let after = view.changed_by(KvAction::Add(section), ticked, paths)->0.rows.get(section);
            &&& after.len() == before.len() + 1
            &&& after.drop_last() == before
            &&& after.last().entry.key.len() == 0
            &&& after.last().entry.value.len() == 0
            &&& after.last().entry.enabled
            &&& after.last().entry.field_type is Text
            &&& after.last().entry.file_path is None
        }),
{
    let before = view.rows.get(section);
    lemma_with_get(view.rows, section, before.push(crate::editing::new_row()));
    let after = view.changed_by(KvAction::Add(section), ticked, paths)->0.rows.get(section);
    assert(after.drop_last() =~= before);
}

/// Removing a row takes that row out; those before it stay and those behind it move up. An
/// index behind the rows removes nothing.
pub proof fn law_removing_a_row(
    view: ApiTestViewModel,
    section: KvSection,
    index: usize,
    ticked: bool,
    paths: Seq<Seq<char>>,
)
    ensures
        ({
            let action = KvAction::Remove { section, index };
            let before = view.rows.get(section);
            let after = view.changed_by(action, ticked, paths)->0.rows.get(section);
            &&& index >= before.len() ==> after == before
            &&& index < before.len() ==> {
                &&& after.len() == before.len() - 1
                &&& forall|j: int| 0 <= j < index ==> #[trigger] after[j] == before[j]
                &&& forall|j: int| index <= j < after.len() ==> #[trigger] after[j] == before[j + 1]
            }
        }),
{
    let before = view.rows.get(section);
    lemma_with_get(view.rows, section, before.remove(index as int));
}

/// Whether a table is the one before but for the row at one index.
pub open spec fn one_row_differs(
    after: Seq<KvRowModel>,
    before: Seq<KvRowModel>,
    index: int,
) -> bool {
    &&& after.len() == before.len()
    &&& forall|j: int| 0 <= j < before.len() && j != index ==> #[trigger] after[j] == before[j]
}

/// Ticking the box of a row enables it, and taking the tick away disables it. Its key, value,
/// kind and file stay, and so do the other rows.
pub proof fn law_ticking_a_row(
    view: ApiTestViewModel,
    section: KvSection,
    index: usize,
    ticked: bool,
    paths: Seq<Seq<char>>,
)
    ensures
        ({
            let action = KvAction::SetEnabled { section, index };
            let before = view.rows.get(section);
            let after = view.changed_by(action, ticked, paths)->0.rows.get(section);
            &&& one_row_differs(after, before, index as int)
            &&& index < before.len() ==> {
                let a = after[index as int].entry;
                let b = before[index as int].entry;
                &&& a.enabled == ticked
                &&& a.key == b.key
                &&& a.value == b.value
                &&& a.field_type == b.field_type
                &&& a.file_path == b.file_path
                &&& after[index as int].placeholder == before[index as int].placeholder
            }
        }),
{
    let before = view.rows.get(section);
    lemma_with_get(
        view.rows,
        section,
        before.update(index as int, crate::editing::row_enabled(before[index as int], ticked)),
    );
}

/// Making a row hold text or name a file changes its kind. A row that holds text names no
/// file; one that names a file keeps the file it had. Its key, value and box stay, and so do
/// the other rows.
pub proof fn law_changing_the_kind_of_a_row(
    view: ApiTestViewModel,
    section: KvSection,
    index: usize,
    field_type: FieldType,
    ticked: bool,
    paths: Seq<Seq<char>>,
)
    ensures
        ({
            let action = KvAction::SetFieldType { section, index, field_type };
            let before = view.rows.get(section);
            let after = view.changed_by(action, ticked, paths)->0.rows.get(section);
            &&& one_row_differs(after, before, index as int)
            &&& index < before.len() ==> {
                let a = after[index as int].entry;
                let b = before[index as int].entry;
                &&& a.field_type == field_type
                &&& field_type is Text ==> a.file_path is None
                &&& field_type is File ==> a.file_path == b.file_path
                &&& a.key == b.key
                &&& a.value == b.value
                &&& a.enabled == b.enabled
            }
        }),
{
    let before = view.rows.get(section);
    lemma_with_get(
        view.rows,
        section,
        before.update(index as int, crate::editing::row_of_type(before[index as int], field_type)),
    );
}

/// Choosing a file makes the row name the first file chosen. Its key, value and box stay, and
/// so do the other rows.
pub proof fn law_choosing_a_file(
    view: ApiTestViewModel,
    section: KvSection,
    index: usize,
    ticked: bool,
    paths: Seq<Seq<char>>,
)
    requires
        paths.len() > 0,
    ensures
        ({
            let action = KvAction::ChooseFile { section, index };
            let before = view.rows.get(section);
            let after = view.changed_by(action, ticked, paths)->0.rows.get(section);
            &&& one_row_differs(after, before, index as int)
            &&& index < before.len() ==> {
                let a = after[index as int].entry;
                let b = before[index as int].entry;
                &&& a.field_type is File
                &&& a.file_path == Some(paths[0])
                &&& a.key == b.key
                &&& a.value == b.value
                &&& a.enabled == b.enabled
            }
        }),
{
    let before = view.rows.get(section);
    lemma_with_get(
        view.rows,
        section,
        before.update(index as int, crate::editing::row_of_file(before[index as int], paths[0])),
    );
}

/// Whether an effect sets the environment variable `name`.
pub open spec fn effect_sets(effect: SideEffectModel, name: Seq<char>) -> bool {
    effect->scope == VarScope::Environment && effect->name == name
}

/// Whether the last effect that sets the environment variable `name` gives it `value`.
pub open spec fn effects_give(
    effects: Seq<SideEffectModel>,
    name: Seq<char>,
    value: Seq<char>,
) -> bool {
    exists|n: int|
        0 <= n < effects.len() && effect_sets(#[trigger] effects[n], name) && effects[n]->value
            == value && forall|m: int|
            n < m < effects.len() ==> !effect_sets(#[trigger] effects[m], name)
}

proof fn lemma_effects_give(effects: Seq<SideEffectModel>, name: Seq<char>, value: Seq<char>)
    ensures
        effects_give(effects, name, value) ==> last_setting(effects, name) == Some(value),
        (forall|n: int| 0 <= n < effects.len() ==> !effect_sets(#[trigger] effects[n], name))
            ==> last_setting(effects, name) is None,
    decreases effects.len(),
{
    if effects.len() > 0 {
        let fewer = effects.drop_last();
        let last = effects.len() - 1;
        lemma_effects_give(fewer, name, value);
        assert(effects.last() == effects[last]);
        assert(forall|n: int| 0 <= n < last ==> #[trigger] fewer[n] == effects[n]);
        if effects_give(effects, name, value) {
            let n = choose|n: int|
                0 <= n < effects.len() && effect_sets(#[trigger] effects[n], name)
                    && effects[n]->value == value && forall|m: int|
                    n < m < effects.len() ==> !effect_sets(#[trigger] effects[m], name);
            if n < last {
                assert(fewer[n] == effects[n]);
                assert forall|m: int| n < m < fewer.len() implies !effect_sets(
                    #[trigger] fewer[m],
                    name,
                ) by {
                    assert(fewer[m] == effects[m]);
                }
                assert(effects_give(fewer, name, value));
                assert(!effect_sets(effects[last], name));
            }
        }
        if forall|n: int| 0 <= n < effects.len() ==> !effect_sets(#[trigger] effects[n], name) {
            assert forall|n: int| 0 <= n < fewer.len() implies !effect_sets(
                #[trigger] fewer[n],
                name,
            ) by {
                assert(fewer[n] == effects[n]);
            }
            assert(!effect_sets(effects[last], name));
        }
    }
}

/// What a script leaves in the active environment. A variable that it set has an enabled row
/// with the last value set, which is the first row with its name. The rows that were there
/// stay where they are with their keys, kinds and files; one that the script did not set, or
/// that is not the first with its name, stays as it is.
pub proof fn law_scripts_set_variables(
    view: ApiTestViewModel,
    result: ScriptResultModel,
    e: int,
    name: Seq<char>,
    value: Seq<char>,
    i: int,
)
    requires
        view.store.active_environment_id is Some,
        position(view.store.environments, view.store.active_environment_id->0) == Some(e),
    ensures
        ({
            let before = view.store.environments[e].variables;
            let after = view.with_script_effects(result).store.environments[e].variables;
            let none_sets = |key: Seq<char>|
                forall|n: int|
                    0 <= n < result.effects.len() ==> !effect_sets(
                        #[trigger] result.effects[n],
                        key,
                    );
            &&& effects_give(result.effects, name, value) ==> {
                &&& position(after, name) is Some
                &&& after[position(after, name)->0].key == name
                &&& after[position(after, name)->0].value == value
                &&& after[position(after, name)->0].enabled
            }
            &&& after.len() >= before.len()
            &&& 0 <= i < before.len() ==> {
                &&& after[i].key == before[i].key
                &&& after[i].field_type == before[i].field_type
                &&& after[i].file_path == before[i].file_path
                &&& none_sets(before[i].key) ==> after[i] == before[i]
                &&& position(before, before[i].key) != Some(i) ==> after[i] == before[i]
            }
        }),
{
    let before = view.store.environments[e].variables;
    lemma_position(view.store.environments, view.store.active_environment_id->0);
    let after = view.with_script_effects(result).store.environments[e].variables;
    assert(after == with_effects(before, result.effects));
    lemma_effects_give(result.effects, name, value);
    if effects_give(result.effects, name, value) {
        law_last_effect_wins(before, result.effects, name);
        lemma_position(after, name);
    }
    lemma_effects_only_grow(before, result.effects);
    if 0 <= i < before.len() {
        law_effects_on_rows(before, result.effects, i);
        lemma_effects_give(result.effects, before[i].key, value);
    }
}

proof fn lemma_effects_only_grow(rows: Seq<KeyValueModel>, effects: Seq<SideEffectModel>)
    ensures
        with_effects(rows, effects).len() >= rows.len(),
    decreases effects.len(),
{
    if effects.len() > 0 {
        lemma_effects_only_grow(rows, effects.drop_last());
        let before = with_effects(rows, effects.drop_last());
        lemma_position(before, effects.last()->name);
    }
}

/// The effects of a script are reported as a change exactly where one of them, in its turn,
/// changes the rows that those before it left.
pub proof fn law_changes_of_scripts_are_reported(
    rows: Seq<KeyValueModel>,
    effects: Seq<SideEffectModel>,
)
    ensures
        effects_change(rows, effects) <==> exists|n: int|
            0 <= n < effects.len() && with_effects(rows, #[trigger] effects.take(n))
                != with_effects(rows, effects.take(n + 1)),
        !effects_change(rows, effects) ==> with_effects(rows, effects) == rows,
    decreases effects.len(),
{
    if effects.len() > 0 {
        let fewer = effects.drop_last();
        let last = effects.len() - 1;
        law_changes_of_scripts_are_reported(rows, fewer);
        assert(effects.take(last) =~= fewer);
        assert(effects.take(last + 1) =~= effects);
        assert forall|n: int| 0 <= n <= last implies #[trigger] fewer.take(n) == effects.take(
            n,
        ) by {
            assert(fewer.take(n) =~= effects.take(n));
        }
        if effects_change(rows, fewer) {
            let n = choose|n: int|
                0 <= n < fewer.len() && with_effects(rows, #[trigger] fewer.take(n))
                    != with_effects(rows, fewer.take(n + 1));
            assert(fewer.take(n + 1) == effects.take(n + 1));
            assert(with_effects(rows, effects.take(n)) != with_effects(rows, effects.take(n + 1)));
        }
        if exists|n: int|
            0 <= n < effects.len() && with_effects(rows, #[trigger] effects.take(n))
                != with_effects(rows, effects.take(n + 1)) {
            let n = choose|n: int|
                0 <= n < effects.len() && with_effects(rows, #[trigger] effects.take(n))
                    != with_effects(rows, effects.take(n + 1));
            if n < last {
                assert(fewer.take(n) == effects.take(n));
                assert(fewer.take(n + 1) == effects.take(n + 1));
            }
        }
    }
}

} // verus!
