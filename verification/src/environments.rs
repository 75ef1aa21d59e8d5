//! Environments and the variables that hold for a request.

use vstd::prelude::*;
use crate::folders::{ancestor_folder_ids, folder_chain, law_folder_chain};
use crate::http::{KeyValue, KeyValueModel};
use crate::ids::{fresh_id, is_fresh_id};
use crate::lookup::{find, lemma_position, position};
use crate::navigation::in_turn;
use crate::request_store::{
    ApiEnvironment, ApiEnvironmentModel, ApiStoreModel, StoredFolderModel, StoredRequest,
    StoredRequestModel, new_environment_model,
};
use crate::scripting::{ScriptResult, ScriptResultModel};
use crate::sections::{KeyPlaceholder, SectionRowsModel, create_kv_rows, rows_of};
use crate::text::{copy_optional, is_text, trim, trimmed};
use crate::variables::{
    VariableMap, apply_environment_effects, effects_change, merge_variable_scopes, merged_scopes,
    with_effects,
};
use crate::view_state::{
    ApiTestView, ApiTestViewModel, EditorInputsModel, Effect, Notice, NoticeModel,
};

verus! {

/// An environment as a selection offers it.
#[derive(Debug)]
pub struct EnvironmentOption {
    pub id: String,
    pub name: String,
}

/// Model of [`EnvironmentOption`].
#[verifier::ext_equal]
pub struct EnvironmentOptionModel {
    pub id: Seq<char>,
    pub name: Seq<char>,
}

impl DeepView for EnvironmentOption {
    type V = EnvironmentOptionModel;

    open spec fn deep_view(&self) -> EnvironmentOptionModel {
        EnvironmentOptionModel { id: self.id@, name: self.name@ }
    }
}

/// The variable rows of the folders `ids`.
pub open spec fn folder_scopes(
    folders: Seq<StoredFolderModel>,
    ids: Seq<Seq<char>>,
) -> Seq<Seq<KeyValueModel>> {
    Seq::new(
        ids.len(),
        |i: int|
            match position(folders, ids[i]) {
                Some(k) => folders[k].variables,
                None => Seq::empty(),
            },
    )
}

impl ApiTestViewModel {
    /// The first environment with the active id.
    pub open spec fn active_environment(self) -> Option<ApiEnvironmentModel> {
        match self.store.active_environment_id {
            Some(id) => match position(self.store.environments, id) {
                Some(i) => Some(self.store.environments[i]),
                None => None,
            },
            None => None,
        }
    }

    /// The variables of the active environment.
    pub open spec fn environment_variables(self) -> Seq<KeyValueModel> {
        match self.active_environment() {
            Some(environment) => environment.variables,
            None => Seq::empty(),
        }
    }

    /// The variables that hold for a request.
    pub open spec fn effective_variables(
        self,
        request: StoredRequestModel,
    ) -> Map<Seq<char>, Seq<char>> {
        merged_scopes(
            self.store.globals,
            self.environment_variables(),
            folder_scopes(
                self.store.folders,
                folder_chain(self.store.folders, request.folder_id),
            ),
            request.path_vars,
            request.variables,
        )
    }

    /// The view after the environment variables that a script set.
    pub open spec fn with_script_effects(self, result: ScriptResultModel) -> ApiTestViewModel {
        match self.store.active_environment_id {
            Some(id) => match position(self.store.environments, id) {
                Some(i) => {
                    let environment = ApiEnvironmentModel {
                        variables: with_effects(
                            self.store.environments[i].variables,
                            result.effects,
                        ),
                        ..self.store.environments[i]
                    };
                    ApiTestViewModel {
                        store: ApiStoreModel {
                            environments: self.store.environments.update(i, environment),
                            ..self.store
                        },
                        ..self
                    }
                },
                None => self,
            },
            None => self,
        }
    }

    /// The view with the settings of the active environment in the editor.
    pub open spec fn with_environment_settings(self) -> ApiTestViewModel {
        let environment = match self.active_environment() {
            Some(environment) => environment,
            None => new_environment_model(Seq::empty(), Seq::empty()),
        };
        ApiTestViewModel {
            inputs: EditorInputsModel {
                environment_base_url: match environment.base_url {
                    Some(url) => url,
                    None => Seq::empty(),
                },
                ..self.inputs
            },
            rows: SectionRowsModel {
                environment_params: rows_of(environment.params, KeyPlaceholder::Key),
                environment_headers: rows_of(environment.headers, KeyPlaceholder::Header),
                environment_cookies: rows_of(environment.cookies, KeyPlaceholder::Cookie),
                environment: rows_of(environment.variables, KeyPlaceholder::Key),
                ..self.rows
            },
            suppress_commit: false,
            ..self
        }
    }

    /// The environments as a selection offers them.
    pub open spec fn environment_choices(self) -> Seq<EnvironmentOptionModel> {
        Seq::new(
            self.store.environments.len(),
            |i: int|
                EnvironmentOptionModel {
                    id: self.store.environments[i].id,
                    name: self.store.environments[i].name,
                },
        )
    }

    /// The index of the active environment.
    pub open spec fn selected_environment(self) -> Option<int> {
        match self.store.active_environment_id {
            Some(id) => position(self.store.environments, id),
            None => None,
        }
    }

    /// The view with another active environment.
    pub open spec fn with_active_environment(self, id: Option<Seq<char>>) -> ApiTestViewModel {
        ApiTestViewModel {
            store: ApiStoreModel { active_environment_id: id, ..self.store },
            ..self
        }
    }

    /// The view after the environment `id` was selected.
    pub open spec fn environment_selected(self, id: Seq<char>) -> ApiTestViewModel {
        if self.store.active_environment_id == Some(id) {
            self
        } else if position(self.store.environments, id) is None {
            self.committed()
        } else {
            self.committed().with_active_environment(Some(id)).with_environment_settings()
        }
    }

    /// What follows the selection of the environment `id`.
    pub open spec fn select_environment_effects(self, id: Seq<char>) -> Seq<Effect> {
        if self.store.active_environment_id == Some(id) {
            Seq::empty()
        } else if position(self.store.environments, id) is None {
            self.commit_effects()
        } else {
            self.commit_effects() + switch_effects()
        }
    }

    /// The view with one more environment, which is the active one.
    pub open spec fn environment_created(self, id: Seq<char>, name: Seq<char>) -> ApiTestViewModel {
        let before = self.committed();
        ApiTestViewModel {
            store: ApiStoreModel {
                environments: before.store.environments.push(new_environment_model(id, name)),
                active_environment_id: Some(id),
                ..before.store
            },
            ..before
        }.with_environment_settings()
    }

    /// The view after the active environment was renamed.
    pub open spec fn environment_renamed(self, name: Seq<char>) -> ApiTestViewModel {
        let before = self.committed();
        match before.selected_environment() {
            Some(i) => ApiTestViewModel {
                store: ApiStoreModel {
                    environments: before.store.environments.update(
                        i,
                        ApiEnvironmentModel { name, ..before.store.environments[i] },
                    ),
                    ..before.store
                },
                ..before
            },
            None => before,
        }
    }

    /// What follows renaming the active environment.
    pub open spec fn rename_environment_effects(self) -> Seq<Effect> {
        if self.committed().selected_environment() is Some {
            self.commit_effects() + seq![
                Effect::ShowEnvironments,
                Effect::SaveStore,
                Effect::Redraw,
            ]
        } else {
            self.commit_effects()
        }
    }

    /// The view after deleting the active environment: the first one left is the active
    /// one. The last environment cannot be deleted.
    pub open spec fn environment_deleted(self) -> ApiTestViewModel {
        if self.store.environments.len() <= 1 {
            ApiTestViewModel {
                notice: Some(NoticeModel::CannotDeleteLastEnvironment),
                ..self
            }
        } else {
            let before = self.committed();
            match before.store.active_environment_id {
                Some(active) => {
                    let left = environments_without(before.store.environments, active);
                    ApiTestViewModel {
                        store: ApiStoreModel {
                            environments: left,
                            active_environment_id: if left.len() > 0 {
                                Some(left[0].id)
                            } else {
                                None
                            },
                            ..before.store
                        },
                        ..before
                    }.with_environment_settings()
                },
                None => before,
            }
        }
    }

    /// What follows deleting the active environment.
    pub open spec fn delete_environment_effects(self) -> Seq<Effect> {
        if self.store.environments.len() <= 1 {
            seq![Effect::Redraw]
        } else if self.store.active_environment_id is Some {
            self.commit_effects() + switch_effects()
        } else {
            self.commit_effects()
        }
    }
}

/// What follows a change of the active environment.
pub open spec fn switch_effects() -> Seq<Effect> {
    seq![Effect::ShowEnvironments, Effect::ShowEditor, Effect::SaveStore, Effect::Redraw]
}

/// The environments with another id.
pub open spec fn environments_without(
    environments: Seq<ApiEnvironmentModel>,
    id: Seq<char>,
) -> Seq<ApiEnvironmentModel> {
    environments.filter(|environment: ApiEnvironmentModel| environment.id != id)
}

fn retain_environments(environments: &mut Vec<ApiEnvironment>, id: &str)
    ensures
        final(environments).deep_view() == environments_without(
            old(environments).deep_view(),
            id@,
        ),
{
    let ghost all = environments.deep_view();
    let ghost keep = |environment: ApiEnvironmentModel| environment.id != id@;
    let ghost mut n: int = 0;
    let mut i: usize = 0;
    proof {
        reveal(Seq::filter);
        assert(all.take(0).filter(keep) =~= Seq::<ApiEnvironmentModel>::empty());
        assert(all.take(0).filter(keep) + all.skip(0) =~= all);
    }
    while i < environments.len()
        invariant
            keep == (|environment: ApiEnvironmentModel| environment.id != id@),
            0 <= n <= all.len(),
            environments.deep_view() == all.take(n).filter(keep) + all.skip(n),
            i == all.take(n).filter(keep).len(),
        decreases environments.len() - i,
    {
        reveal(Seq::filter);
        let ghost kept = all.take(n).filter(keep);
        let ghost held = environments.deep_view();
        proof {
            assert(held.len() == kept.len() + all.skip(n).len());
            assert(held[i as int] == all.skip(n)[0]);
            assert(held[i as int] == environments@[i as int].deep_view());
            assert(all.take(n + 1).drop_last() =~= all.take(n));
            assert(all.take(n + 1).last() == all[n]);
        }
        if crate::text::same(environments[i].id.as_str(), id) {
            environments.remove(i);
            assert(environments.deep_view() =~= held.remove(i as int));
            assert(environments.deep_view() =~= kept + all.skip(n + 1));
            assert(all.take(n + 1).filter(keep) =~= kept);
        } else {
            i = i + 1;
            assert(all.take(n + 1).filter(keep) =~= kept.push(all[n]));
            assert(held =~= kept.push(all[n]) + all.skip(n + 1));
        }
        proof {
            n = n + 1;
        }
    }
    proof {
        assert(all.skip(n).len() == 0);
        assert(all.take(n) =~= all);
        assert(environments.deep_view() =~= all.filter(keep));
    }
}

fn switched() -> (r: Vec<Effect>)
    ensures
        r@ == switch_effects(),
{
    let r = vec![Effect::ShowEnvironments, Effect::ShowEditor, Effect::SaveStore, Effect::Redraw];
    assert(r@ =~= switch_effects());
    r
}

impl ApiTestView {
    /// The index of the active environment.
    pub fn selected_environment_index(&self) -> (r: Option<usize>)
        ensures
            match r {
                Some(i) => i < self.store.environments.len()
                    && self.deep_view().selected_environment() == Some(i as int),
                None => self.deep_view().selected_environment() is None,
            },
    {
        match &self.store.active_environment_id {
            Some(id) => find(&self.store.environments, id.as_str()),
            None => None,
        }
    }

    /// The first environment with the active id.
    pub fn active_environment(&self) -> (r: Option<&ApiEnvironment>)
        ensures
            r.deep_view() == self.deep_view().active_environment(),
    {
        match self.selected_environment_index() {
            Some(i) => {
                assert(self.store.environments.deep_view()[i as int]
                    == self.store.environments@[i as int].deep_view());
                Some(&self.store.environments[i])
            },
            None => None,
        }
    }

    /// The variables that hold for a request: its own, those of its path, of its folders
    /// from the innermost outwards, of the active environment, and the global ones.
    pub fn effective_vars(&self, request: &StoredRequest) -> (r: VariableMap)
        ensures
            r.map() == self.deep_view().effective_variables(request.deep_view()),
    {
        let none: Vec<KeyValue> = Vec::new();
        assert(none.deep_view() =~= Seq::<KeyValueModel>::empty());
        let environment = match self.active_environment() {
            Some(environment) => environment.variables.as_slice(),
            None => none.as_slice(),
        };
        let ids = ancestor_folder_ids(&self.store.folders, &request.folder_id);
        let ghost folders = self.store.folders.deep_view();
        let ghost chain = ids.deep_view();
        proof {
            law_folder_chain(folders, request.folder_id.deep_view());
        }
        let mut scopes: Vec<&[KeyValue]> = Vec::new();
        let mut i: usize = 0;
        while i < ids.len()
            invariant
                folders == self.store.folders.deep_view(),
                chain == ids.deep_view(),
                forall|k: int| 0 <= k < chain.len() ==> position(
                    folders,
                    #[trigger] chain[k],
                ) is Some,
                i <= ids.len(),
                scopes.len() == i,
                forall|k: int|
                    0 <= k < i ==> (#[trigger] scopes@[k]).deep_view() == folder_scopes(
                        folders,
                        chain,
                    )[k],
            decreases ids.len() - i,
        {
            assert(chain[i as int] == ids@[i as int]@);
            if let Some(k) = find(&self.store.folders, ids[i].as_str()) {
                assert(folders[k as int] == self.store.folders@[k as int].deep_view());
                scopes.push(self.store.folders[k].variables.as_slice());
            }
            i = i + 1;
        }
        let scopes = scopes.as_slice();
        assert(scopes.deep_view() =~= folder_scopes(folders, chain));
        merge_variable_scopes(
            self.store.globals.as_slice(),
            environment,
            scopes,
            request.path_vars.as_slice(),
            request.variables.as_slice(),
        )
    }

    /// Puts the environment variables that a script set into the active environment. Says
    /// whether that changed anything.
    pub fn persist_environment_effects(&mut self, result: &ScriptResult) -> (changed: bool)
        ensures
            final(self).deep_view() == old(self).deep_view().with_script_effects(
                result.deep_view(),
            ),
            changed == (old(self).deep_view().selected_environment() matches Some(i)
                && effects_change(
                old(self).deep_view().store.environments[i].variables,
                result.deep_view().effects,
            )),
    {
        let ghost before = self.deep_view();
        match self.selected_environment_index() {
            Some(i) => {
                assert(before.store.environments[i as int]
                    == self.store.environments@[i as int].deep_view());
                let mut variables = crate::http::clone_rows(&self.store.environments[i].variables);
                let changed = apply_environment_effects(&mut variables, result);
                self.store.environments[i].variables = variables;
                proof {
                    let environment = ApiEnvironmentModel {
                        variables: variables.deep_view(),
                        ..before.store.environments[i as int]
                    };
                    assert(self.store.environments.deep_view() =~= before.store.environments.update(
                        i as int,
                        environment,
                    ));
                }
                changed
            },
            None => false,
        }
    }

    /// Writes the settings of the active environment to the editor.
    pub fn refresh_environment_settings(&mut self) -> (effects: Vec<Effect>)
        ensures
            final(self).deep_view() == old(self).deep_view().with_environment_settings(),
            effects@ == seq![Effect::ShowEditor],
    {
        let environment = match self.active_environment() {
            Some(environment) => environment.clone(),
            None => ApiEnvironment::with_id(String::new(), String::new()),
        };
        self.inputs.environment_base_url = match &environment.base_url {
            Some(url) => url.clone(),
            None => String::new(),
        };
        self.rows.environment_params = create_kv_rows(&environment.params, KeyPlaceholder::Key);
        self.rows.environment_headers = create_kv_rows(&environment.headers, KeyPlaceholder::Header);
        self.rows.environment_cookies = create_kv_rows(&environment.cookies, KeyPlaceholder::Cookie);
        self.rows.environment = create_kv_rows(&environment.variables, KeyPlaceholder::Key);
        self.suppress_commit = false;
        vec![Effect::ShowEditor]
    }

    /// The environments as a selection offers them.
    pub fn environment_options(&self) -> (r: Vec<EnvironmentOption>)
        ensures
            r.deep_view() == self.deep_view().environment_choices(),
    {
        let ghost all = self.store.environments.deep_view();
        let mut r: Vec<EnvironmentOption> = Vec::new();
        let mut i: usize = 0;
        while i < self.store.environments.len()
            invariant
                all == self.store.environments.deep_view(),
                i <= self.store.environments.len(),
                r.len() == i,
                forall|k: int|
                    0 <= k < i ==> (#[trigger] r@[k]).deep_view() == (EnvironmentOptionModel {
                        id: all[k].id,
                        name: all[k].name,
                    }),
            decreases self.store.environments.len() - i,
        {
            assert(all[i as int] == self.store.environments@[i as int].deep_view());
            r.push(
                EnvironmentOption {
                    id: self.store.environments[i].id.clone(),
                    name: self.store.environments[i].name.clone(),
                },
            );
            i = i + 1;
        }
        assert(r.deep_view() =~= self.deep_view().environment_choices());
        r
    }

    /// What the selection of environments shows: its options, and which is selected.
    pub fn rebuild_environment_select(&self) -> (r: (Vec<EnvironmentOption>, Option<usize>))
        ensures
            r.0.deep_view() == self.deep_view().environment_choices(),
            match r.1 {
                Some(i) => self.deep_view().selected_environment() == Some(i as int),
                None => self.deep_view().selected_environment() is None,
            },
    {
        (self.environment_options(), self.selected_environment_index())
    }

    /// Makes the environment `id` the active one; an unknown id only commits.
    pub fn select_environment(&mut self, id: &str) -> (effects: Vec<Effect>)
        ensures
            final(self).deep_view() == old(self).deep_view().environment_selected(id@),
            effects@ == old(self).deep_view().select_environment_effects(id@),
    {
        if is_text(&self.store.active_environment_id, id) {
            return Vec::new();
        }
        let ghost before = self.deep_view();
        let effects = self.commit_current_to_store();
        proof {
            lemma_commit_keeps_positions(before, id@);
        }
        if find(&self.store.environments, id).is_none() {
            return effects;
        }
        self.store.active_environment_id = Some(id.to_owned());
        self.refresh_environment_settings();
        in_turn(effects, switched())
    }

    /// Adds an environment under the id `id` and makes it the active one.
    pub fn add_environment(&mut self, id: String, name: String) -> (effects: Vec<Effect>)
        ensures
            final(self).deep_view() == old(self).deep_view().environment_created(id@, name@),
            effects@ == old(self).deep_view().commit_effects() + switch_effects(),
    {
        let effects = self.commit_current_to_store();
        let ghost committed = self.deep_view();
        let environment = ApiEnvironment::with_id(id, name);
        self.store.active_environment_id = Some(environment.id.clone());
        self.store.environments.push(environment);
        assert(self.store.environments.deep_view() =~= committed.store.environments.push(
            environment.deep_view(),
        ));
        self.refresh_environment_settings();
        in_turn(effects, switched())
    }

    /// Adds an environment and makes it the active one.
    pub fn create_environment_named(&mut self, name: String) -> (effects: Vec<Effect>)
        ensures
            exists|id: Seq<char>|
                is_fresh_id(id) && final(self).deep_view() == #[trigger] old(
                    self,
                ).deep_view().environment_created(id, name@),
            effects@ == old(self).deep_view().commit_effects() + switch_effects(),
    {
        let id = fresh_id();
        self.add_environment(id, name)
    }

    /// Renames the active environment.
    pub fn rename_active_environment_named(&mut self, name: String) -> (effects: Vec<Effect>)
        ensures
            final(self).deep_view() == old(self).deep_view().environment_renamed(name@),
            effects@ == old(self).deep_view().rename_environment_effects(),
    {
        let effects = self.commit_current_to_store();
        let ghost committed = self.deep_view();
        match self.selected_environment_index() {
            Some(i) => {
                assert(committed.store.environments[i as int]
                    == self.store.environments@[i as int].deep_view());
                self.store.environments[i].name = name;
                assert(self.store.environments.deep_view() =~= committed.store.environments.update(
                    i as int,
                    ApiEnvironmentModel { name: name@, ..committed.store.environments[i as int] },
                ));
                let renamed = vec![Effect::ShowEnvironments, Effect::SaveStore, Effect::Redraw];
                in_turn(effects, renamed)
            },
            None => effects,
        }
    }

    /// The name that the dialog to rename the active environment starts with; there is
    /// no dialog where no environment is active.
    pub fn prompt_rename_active_environment(&self) -> (r: Option<String>)
        ensures
            r.deep_view() == (match self.deep_view().active_environment() {
                Some(environment) => Some(environment.name),
                None => None,
            }),
    {
        match self.active_environment() {
            Some(environment) => Some(environment.name.clone()),
            None => None,
        }
    }

    /// Takes the name from the dialog for a new environment. A blank name is refused: the
    /// dialog stays open and the user is told.
    pub fn confirm_new_environment(&mut self, text: &str) -> (r: (bool, Vec<Effect>))
        ensures
            r.0 == (trimmed(text@).len() > 0),
            !r.0 ==> final(self).deep_view() == old(self).deep_view().name_refused() && r.1@
                == seq![Effect::Redraw],
            r.0 ==> r.1@ == old(self).deep_view().commit_effects() + switch_effects(),
            r.0 ==> exists|id: Seq<char>|
                is_fresh_id(id) && final(self).deep_view() == #[trigger] old(
                    self,
                ).deep_view().without_notice().environment_created(id, trimmed(text@)),
    {
        let name = trim(text).to_owned();
        if name.as_str().is_empty() {
            self.notice = Some(Notice::EnvironmentNameRequired);
            return (false, vec![Effect::Redraw]);
        }
        self.notice = None;
        let effects = self.create_environment_named(name);
        (true, effects)
    }

    /// Takes the name from the dialog to rename the active environment. A blank name is
    /// refused: the dialog stays open and the user is told.
    pub fn confirm_rename_environment(&mut self, text: &str) -> (r: (bool, Vec<Effect>))
        ensures
            r.0 == (trimmed(text@).len() > 0),
            !r.0 ==> final(self).deep_view() == old(self).deep_view().name_refused() && r.1@
                == seq![Effect::Redraw],
            r.0 ==> final(self).deep_view() == old(
                self,
            ).deep_view().without_notice().environment_renamed(trimmed(text@)) && r.1@ == old(
                self,
            ).deep_view().rename_environment_effects(),
    {
        let name = trim(text).to_owned();
        if name.as_str().is_empty() {
            self.notice = Some(Notice::EnvironmentNameRequired);
            return (false, vec![Effect::Redraw]);
        }
        self.notice = None;
        let effects = self.rename_active_environment_named(name);
        (true, effects)
    }

    /// Deletes the active environment, unless it is the last one.
    pub fn delete_active_environment(&mut self) -> (effects: Vec<Effect>)
        ensures
            final(self).deep_view() == old(self).deep_view().environment_deleted(),
            effects@ == old(self).deep_view().delete_environment_effects(),
    {
        if self.store.environments.len() <= 1 {
            self.notice = Some(Notice::CannotDeleteLastEnvironment);
            return vec![Effect::Redraw];
        }
        let effects = self.commit_current_to_store();
        let active = match copy_optional(&self.store.active_environment_id) {
            Some(id) => id,
            None => {
                return effects;
            },
        };
        retain_environments(&mut self.store.environments, active.as_str());
        let ghost left = self.deep_view().store.environments;
        self.store.active_environment_id = if self.store.environments.len() > 0 {
            assert(left[0] == self.store.environments@[0].deep_view());
            Some(self.store.environments[0].id.clone())
        } else {
            None
        };
        self.refresh_environment_settings();
        in_turn(effects, switched())
    }
}

impl ApiTestViewModel {
    /// The view without a message for the user.
    pub open spec fn without_notice(self) -> ApiTestViewModel {
        ApiTestViewModel { notice: None, ..self }
    }

    /// The view after a blank name for an environment.
    pub open spec fn name_refused(self) -> ApiTestViewModel {
        ApiTestViewModel { notice: Some(NoticeModel::EnvironmentNameRequired), ..self }
    }
}

proof fn lemma_commit_keeps_positions(view: ApiTestViewModel, id: Seq<char>)
    ensures
        position(view.committed().store.environments, id) == position(
            view.store.environments,
            id,
        ),
{
    if let Some(active) = view.store.active_environment_id {
        lemma_position(view.store.environments, active);
        if let Some(i) = position(view.store.environments, active) {
            crate::lookup::lemma_same_names(
                view.store.environments,
                i,
                crate::commit::edited_environment(
                    view.store.environments[i],
                    view.inputs,
                    view.rows,
                ),
                id,
            );
        }
    }
}

} // verus!
