//! History, and collections that come from and go to files.

use vstd::prelude::*;
use crate::ids::{fresh_id, is_fresh_id};
use crate::lookup::{find, position};
use crate::navigation::in_turn;
use crate::request_store::{
    ApiEnvironment, ApiEnvironmentModel, ApiStoreModel, StoredFolder, StoredFolderModel, StoredRequest,
    StoredRequestModel, new_folder_model,
};
use crate::tabs::SidebarMode;
use crate::text::join3;
use crate::tree::{label_of_request, request_label};
use crate::view_state::{ApiTestView, ApiTestViewModel, Effect, Notice, NoticeModel};

verus! {

/// A collection that was read from a file.
#[derive(Debug)]
pub struct ImportedCollection {
    pub name: String,
    pub folders: Vec<StoredFolder>,
    pub requests: Vec<StoredRequest>,
    pub environment: Option<ApiEnvironment>,
}

/// Model of [`ImportedCollection`].
#[verifier::ext_equal]
pub struct ImportedCollectionModel {
    pub name: Seq<char>,
    pub folders: Seq<StoredFolderModel>,
    pub requests: Seq<StoredRequestModel>,
    pub environment: Option<ApiEnvironmentModel>,
}

impl DeepView for ImportedCollection {
    type V = ImportedCollectionModel;

    open spec fn deep_view(&self) -> ImportedCollectionModel {
        ImportedCollectionModel {
            name: self.name@,
            folders: self.folders.deep_view(),
            requests: self.requests.deep_view(),
            environment: self.environment.deep_view(),
        }
    }
}

/// The request of a history entry as a new request: without a folder, and named after the
/// entry's label with the text for history behind it.
pub open spec fn restored_request(
    request: StoredRequestModel,
    id: Seq<char>,
    new_request: Seq<char>,
    history: Seq<char>,
) -> StoredRequestModel {
    StoredRequestModel {
        id,
        folder_id: None,
        name: label_of_request(request.name, request.url, new_request) + " ("@ + history + ")"@,
        ..request
    }
}

/// The folders with those that have no parent put into the folder `root`.
pub open spec fn folders_under(
    folders: Seq<StoredFolderModel>,
    root: Seq<char>,
) -> Seq<StoredFolderModel> {
    Seq::new(
        folders.len(),
        |i: int|
            if folders[i].parent_id is None {
                StoredFolderModel { parent_id: Some(root), ..folders[i] }
            } else {
                folders[i]
            },
    )
}

/// The requests with those that have no folder put into the folder `root`.
pub open spec fn requests_under(
    requests: Seq<StoredRequestModel>,
    root: Seq<char>,
) -> Seq<StoredRequestModel> {
    Seq::new(
        requests.len(),
        |i: int|
            if requests[i].folder_id is None {
                StoredRequestModel { folder_id: Some(root), ..requests[i] }
            } else {
                requests[i]
            },
    )
}

impl ApiTestViewModel {
    /// The view with the request of the history entry `i` among the requests.
    pub open spec fn with_restored(
        self,
        i: int,
        id: Seq<char>,
        new_request: Seq<char>,
        history: Seq<char>,
    ) -> ApiTestViewModel {
        let request = restored_request(self.store.history[i].request, id, new_request, history);
        ApiTestViewModel {
            store: ApiStoreModel { requests: self.store.requests.push(request), ..self.store },
            sidebar_mode: SidebarMode::Collections,
            ..self
        }
    }

    /// The view after restoring a history entry; an unknown one changes nothing.
    pub open spec fn history_restored(
        self,
        entry: Seq<char>,
        id: Seq<char>,
        new_request: Seq<char>,
        history: Seq<char>,
    ) -> ApiTestViewModel {
        match position(self.store.history, entry) {
            Some(i) => ApiTestViewModel {
                notice: Some(NoticeModel::RestoredFromHistory),
                ..self.committed().with_restored(i, id, new_request, history).loaded_request(id)
            },
            None => self,
        }
    }

    /// What follows restoring a history entry.
    pub open spec fn restore_effects(
        self,
        entry: Seq<char>,
        id: Seq<char>,
        new_request: Seq<char>,
        history: Seq<char>,
    ) -> Seq<Effect> {
        match position(self.store.history, entry) {
            Some(i) => self.commit_effects() + seq![Effect::SaveStore] + self.committed().with_restored(
                i,
                id,
                new_request,
                history,
            ).load_request_effects(id) + seq![Effect::Redraw],
            None => Seq::empty(),
        }
    }

    /// The view with an empty history.
    pub open spec fn history_cleared(self) -> ApiTestViewModel {
        ApiTestViewModel {
            store: ApiStoreModel { history: Seq::empty(), ..self.store },
            ..self
        }
    }

    /// The view with the items of a collection in its store, in a folder of their own.
    pub open spec fn with_items(
        self,
        name: Seq<char>,
        folders: Seq<StoredFolderModel>,
        requests: Seq<StoredRequestModel>,
        root: Seq<char>,
    ) -> ApiTestViewModel {
        ApiTestViewModel {
            store: ApiStoreModel {
                folders: self.store.folders.push(new_folder_model(root, name, None))
                    + folders_under(folders, root),
                requests: self.store.requests + requests_under(requests, root),
                ..self.store
            },
            ..self
        }
    }

    /// The view with the environment of a collection, as the active one.
    pub open spec fn with_environment(self, environment: ApiEnvironmentModel) -> ApiTestViewModel {
        ApiTestViewModel {
            store: ApiStoreModel {
                environments: self.store.environments.push(environment),
                active_environment_id: Some(environment.id),
                ..self.store
            },
            ..self
        }.with_environment_settings()
    }

    /// The view with a collection merged into its store, before anything of it is opened.
    pub open spec fn merged_collection(
        self,
        imported: ImportedCollectionModel,
        root: Seq<char>,
    ) -> ApiTestViewModel {
        let merged = self.committed().with_items(
            imported.name,
            imported.folders,
            imported.requests,
            root,
        );
        match imported.environment {
            Some(environment) => merged.with_environment(environment),
            None => merged,
        }
    }

    /// The view after the import of a collection: its first request is open, and the user
    /// is told how many requests came.
    pub open spec fn collection_imported(
        self,
        imported: ImportedCollectionModel,
        root: Seq<char>,
    ) -> ApiTestViewModel {
        let merged = self.merged_collection(imported, root);
        let opened = if imported.requests.len() > 0 {
            merged.loaded_request(imported.requests[0].id)
        } else {
            merged
        };
        ApiTestViewModel {
            notice: Some(NoticeModel::ImportSuccess(imported.requests.len())),
            ..opened
        }
    }

    /// What follows the import of a collection.
    pub open spec fn import_effects(
        self,
        imported: ImportedCollectionModel,
        root: Seq<char>,
    ) -> Seq<Effect> {
        let opened = if imported.requests.len() > 0 {
            self.merged_collection(imported, root).load_request_effects(imported.requests[0].id)
        } else {
            Seq::empty()
        };
        self.merge_effects(imported) + opened + seq![Effect::Redraw]
    }

    /// What follows merging a collection into the store.
    pub open spec fn merge_effects(self, imported: ImportedCollectionModel) -> Seq<Effect> {
        if imported.environment is Some {
            self.commit_effects() + seq![
                Effect::ShowEnvironments,
                Effect::ShowEditor,
                Effect::SaveStore,
                Effect::RebuildTree,
            ]
        } else {
            self.commit_effects() + seq![Effect::SaveStore, Effect::RebuildTree]
        }
    }
}

fn put_folders_under(folders: &mut Vec<StoredFolder>, root: &str)
    ensures
        final(folders).deep_view() == folders_under(old(folders).deep_view(), root@),
{
    let ghost all = folders.deep_view();
    let mut i: usize = 0;
    while i < folders.len()
        invariant
            folders.len() == all.len(),
            i <= folders.len(),
            forall|k: int| 0 <= k < i ==> (#[trigger] folders@[k]).deep_view() == folders_under(
                all,
                root@,
            )[k],
            forall|k: int| i <= k < folders.len() ==> (#[trigger] folders@[k]).deep_view() == all[k],
        decreases folders.len() - i,
    {
        if folders[i].parent_id.is_none() {
            folders[i].parent_id = Some(root.to_owned());
        }
        i = i + 1;
    }
    assert(folders.deep_view() =~= folders_under(all, root@));
}

fn put_requests_under(requests: &mut Vec<StoredRequest>, root: &str)
    ensures
        final(requests).deep_view() == requests_under(old(requests).deep_view(), root@),
{
    let ghost all = requests.deep_view();
    let mut i: usize = 0;
    while i < requests.len()
        invariant
            requests.len() == all.len(),
            i <= requests.len(),
            forall|k: int| 0 <= k < i ==> (#[trigger] requests@[k]).deep_view() == requests_under(
                all,
                root@,
            )[k],
            forall|k: int|
                i <= k < requests.len() ==> (#[trigger] requests@[k]).deep_view() == all[k],
        decreases requests.len() - i,
    {
        if requests[i].folder_id.is_none() {
            requests[i].folder_id = Some(root.to_owned());
        }
        i = i + 1;
    }
    assert(requests.deep_view() =~= requests_under(all, root@));
}

impl ApiTestView {
    /// Restores a history entry as a new request under the id `id`.
    pub fn restore_history_as(
        &mut self,
        entry: &str,
        id: String,
        new_request: &str,
        history: &str,
    ) -> (effects: Vec<Effect>)
        ensures
            final(self).deep_view() == old(self).deep_view().history_restored(
                entry@,
                id@,
                new_request@,
                history@,
            ),
            effects@ == old(self).deep_view().restore_effects(
                entry@,
                id@,
                new_request@,
                history@,
            ),
    {
        let ghost before = self.deep_view();
        let index = match find(&self.store.history, entry) {
            Some(i) => i,
            None => {
                return Vec::new();
            },
        };
        let mut effects = self.commit_current_to_store();
        let ghost committed = self.deep_view();
        assert(committed.store.history == before.store.history);
        assert(committed.store.history[index as int]
            == self.store.history@[index as int].deep_view());
        let mut request = self.store.history[index].request.clone();
        let label = request_label(&request, new_request);
        let mut name = join3(label.as_str(), " (", history);
        name.append(")");
        request.id = id.clone();
        request.folder_id = None;
        request.name = name;
        self.store.requests.push(request);
        assert(self.store.requests.deep_view() =~= committed.store.requests.push(
            request.deep_view(),
        ));
        self.sidebar_mode = SidebarMode::Collections;
        effects.push(Effect::SaveStore);
        let opened = self.load_request(id.as_str());
        self.notice = Some(Notice::RestoredFromHistory);
        let mut effects = in_turn(effects, opened);
        effects.push(Effect::Redraw);
        assert(effects@ =~= before.restore_effects(entry@, id@, new_request@, history@));
        effects
    }

    /// Restores a history entry as a new request.
    pub fn restore_history(&mut self, entry: &str, new_request: &str, history: &str) -> (effects:
        Vec<Effect>)
        ensures
            exists|id: Seq<char>|
                is_fresh_id(id) && final(self).deep_view() == #[trigger] old(
                    self,
                ).deep_view().history_restored(entry@, id, new_request@, history@) && effects@
                    == old(self).deep_view().restore_effects(entry@, id, new_request@, history@),
    {
        let id = fresh_id();
        self.restore_history_as(entry, id, new_request, history)
    }

    /// Empties the history.
    pub fn clear_history(&mut self) -> (effects: Vec<Effect>)
        ensures
            final(self).deep_view() == old(self).deep_view().history_cleared(),
            effects@ == seq![Effect::SaveStore, Effect::Redraw],
    {
        self.store.history = Vec::new();
        assert(self.store.history.deep_view() =~= Seq::empty());
        vec![Effect::SaveStore, Effect::Redraw]
    }

    /// Puts the items of a collection into the store, in a folder under the id `root`.
    fn push_items(
        &mut self,
        name: String,
        folders: Vec<StoredFolder>,
        requests: Vec<StoredRequest>,
        root: String,
    )
        ensures
            final(self).deep_view() == old(self).deep_view().with_items(
                name@,
                folders.deep_view(),
                requests.deep_view(),
                root@,
            ),
    {
        let ghost before = self.deep_view();
        let mut folders = folders;
        let mut requests = requests;
        put_folders_under(&mut folders, root.as_str());
        put_requests_under(&mut requests, root.as_str());
        let folder = StoredFolder::with_id(root, name, None);
        let ghost added_folders = folders.deep_view();
        let ghost added_requests = requests.deep_view();
        self.store.folders.push(folder);
        self.store.folders.append(&mut folders);
        self.store.requests.append(&mut requests);
        proof {
            assert(self.store.folders.deep_view() =~= before.store.folders.push(folder.deep_view())
                + added_folders);
            assert(self.store.requests.deep_view() =~= before.store.requests + added_requests);
        }
    }

    /// Puts an environment into the store and makes it the active one.
    fn push_environment(&mut self, environment: ApiEnvironment)
        ensures
            final(self).deep_view() == old(self).deep_view().with_environment(
                environment.deep_view(),
            ),
    {
        let ghost before = self.deep_view();
        self.store.active_environment_id = Some(environment.id.clone());
        self.store.environments.push(environment);
        assert(self.store.environments.deep_view() =~= before.store.environments.push(
            environment.deep_view(),
        ));
        self.refresh_environment_settings();
    }

    /// Merges a collection into the store, without opening anything of it.
    fn merge_into_store(&mut self, imported: ImportedCollection, root: String) -> (effects: Vec<
        Effect,
    >)
        ensures
            final(self).deep_view() == old(self).deep_view().merged_collection(
                imported.deep_view(),
                root@,
            ),
            effects@ == old(self).deep_view().merge_effects(imported.deep_view()),
    {
        let effects = self.commit_current_to_store();
        let ImportedCollection { name, folders, requests, environment } = imported;
        self.push_items(name, folders, requests, root);
        let merged = match environment {
            Some(environment) => {
                self.push_environment(environment);
                vec![
                    Effect::ShowEnvironments,
                    Effect::ShowEditor,
                    Effect::SaveStore,
                    Effect::RebuildTree,
                ]
            },
            None => vec![Effect::SaveStore, Effect::RebuildTree],
        };
        in_turn(effects, merged)
    }

    /// Merges a collection into the store, in a folder under the id `root`.
    pub fn merge_collection_under(&mut self, imported: ImportedCollection, root: String) -> (effects:
        Vec<Effect>)
        ensures
            final(self).deep_view() == old(self).deep_view().collection_imported(
                imported.deep_view(),
                root@,
            ),
            effects@ == old(self).deep_view().import_effects(imported.deep_view(), root@),
    {
        let ghost model = imported.deep_view();
        let request_count = imported.requests.len();
        let first_request_id = if imported.requests.len() > 0 {
            assert(model.requests[0] == imported.requests@[0].deep_view());
            Some(imported.requests[0].id.clone())
        } else {
            None
        };
        let effects = self.merge_into_store(imported, root);
        let opened = match first_request_id {
            Some(id) => self.load_request(id.as_str()),
            None => Vec::new(),
        };
        self.notice = Some(Notice::ImportSuccess(request_count));
        in_turn(in_turn(effects, opened), vec![Effect::Redraw])
    }

    /// Merges a collection into the store, in a folder of its own.
    pub fn merge_imported_collection(&mut self, imported: ImportedCollection) -> (effects: Vec<
        Effect,
    >)
        ensures
            exists|root: Seq<char>|
                is_fresh_id(root) && final(self).deep_view() == #[trigger] old(
                    self,
                ).deep_view().collection_imported(imported.deep_view(), root) && effects@ == old(
                    self,
                ).deep_view().import_effects(imported.deep_view(), root),
    {
        let root = fresh_id();
        self.merge_collection_under(imported, root)
    }

    /// Takes what came of reading a collection from a file: merges it, or tells the user
    /// why there is none.
    pub fn finish_import(&mut self, result: Result<ImportedCollection, String>) -> (effects: Vec<
        Effect,
    >)
        ensures
            match result {
                Ok(imported) => exists|root: Seq<char>|
                    is_fresh_id(root) && final(self).deep_view() == #[trigger] old(
                        self,
                    ).deep_view().collection_imported(imported.deep_view(), root) && effects@
                        == old(self).deep_view().import_effects(imported.deep_view(), root),
                Err(error) => final(self).deep_view() == (ApiTestViewModel {
                    notice: Some(NoticeModel::ImportFailed(error@)),
                    ..old(self).deep_view()
                }) && effects@ == seq![Effect::Redraw],
            },
    {
        match result {
            Ok(imported) => self.merge_imported_collection(imported),
            Err(error) => {
                self.notice = Some(Notice::ImportFailed(error));
                vec![Effect::Redraw]
            },
        }
    }

    /// Takes what came of writing the file `path`, and tells the user.
    pub fn finish_export(&mut self, path: String, result: Result<(), String>) -> (effects: Vec<
        Effect,
    >)
        ensures
            final(self).deep_view() == (ApiTestViewModel {
                notice: Some(
                    match result {
                        Ok(()) => NoticeModel::ExportSuccess(path@),
                        Err(error) => NoticeModel::ExportFailed(error@),
                    },
                ),
                ..old(self).deep_view()
            }),
            effects@ == seq![Effect::Redraw],
    {
        self.notice = Some(
            match result {
                Ok(()) => Notice::ExportSuccess(path),
                Err(error) => Notice::ExportFailed(error),
            },
        );
        vec![Effect::Redraw]
    }
}

} // verus!
