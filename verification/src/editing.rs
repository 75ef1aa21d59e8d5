//! Changes of rows, and what the widgets report.

use vstd::prelude::*;
use crate::http::{FieldType, KeyValue, KeyValueModel, Protocol, text_row};
use crate::labels::TreeTexts;
use crate::navigation::in_turn;
use crate::sections::{
    KeyPlaceholder, KvRow, KvRowModel, KvSection, SectionRowsModel, all_sections, kv_sections,
};
use crate::tabs::{
    SidebarMode, all_editor_tabs, all_response_tabs, request_editor_tabs,
    response_tabs,
};
use crate::tree::{
    TreeItem, TreeModel, depth_within, is_index_of, tree_entries, tree_items, tree_models, visible_ids,
    visible_tree_index,
};
use crate::view_state::{ApiTestView, ApiTestViewModel, Effect};

verus! {

/// The row that is added to a table: empty and enabled.
pub open spec fn new_row() -> KvRowModel {
    KvRowModel { entry: text_row(Seq::empty(), Seq::empty()), placeholder: KeyPlaceholder::Key }
}

/// A row with its box ticked or not.
pub open spec fn row_enabled(row: KvRowModel, enabled: bool) -> KvRowModel {
    KvRowModel { entry: KeyValueModel { enabled, ..row.entry }, ..row }
}

/// A row that holds text or names a file. One that holds text names no file.
pub open spec fn row_of_type(row: KvRowModel, field_type: FieldType) -> KvRowModel {
    KvRowModel {
        entry: KeyValueModel {
            field_type,
            file_path: if field_type == FieldType::Text {
                None
            } else {
                row.entry.file_path
            },
            ..row.entry
        },
        ..row
    }
}

/// A row that names the file `path`.
pub open spec fn row_of_file(row: KvRowModel, path: Seq<char>) -> KvRowModel {
    KvRowModel {
        entry: KeyValueModel {
            field_type: FieldType::File,
            file_path: Some(path),
            ..row.entry
        },
        ..row
    }
}

/// What a click in a table does.
#[derive(Clone, Copy, PartialEq, Eq, Structural, Debug)]
pub enum KvAction {
    /// Adds a row to the table.
    Add(KvSection),
    /// Removes a row.
    Remove { section: KvSection, index: usize },
    /// Gives a row the state of its box.
    SetEnabled { section: KvSection, index: usize },
    /// Makes a row hold text or name a file.
    SetFieldType { section: KvSection, index: usize, field_type: FieldType },
    /// Asks for the file of a row.
    ChooseFile { section: KvSection, index: usize },
}

impl ApiTestViewModel {
    /// The view with the rows of one table replaced.
    pub open spec fn with_rows(self, section: KvSection, rows: Seq<KvRowModel>) -> ApiTestViewModel {
        ApiTestViewModel { rows: self.rows.with(section, rows), ..self }
    }

    /// The view with one row replaced; an index behind the rows changes nothing.
    pub open spec fn with_row(self, section: KvSection, index: int, row: KvRowModel) -> ApiTestViewModel {
        let rows = self.rows.get(section);
        if index < rows.len() {
            self.with_rows(section, rows.update(index, row))
        } else {
            self
        }
    }

    /// The view with one more row in a table.
    pub open spec fn row_added(self, section: KvSection) -> ApiTestViewModel {
        self.with_rows(section, self.rows.get(section).push(new_row()))
    }

    /// The view with a row removed; an index behind the rows changes nothing.
    pub open spec fn row_removed(self, section: KvSection, index: int) -> ApiTestViewModel {
        let rows = self.rows.get(section);
        if index < rows.len() {
            self.with_rows(section, rows.remove(index))
        } else {
            self
        }
    }
}

impl ApiTestView {
    /// Replaces a row; an index behind the rows changes nothing.
    fn set_row(&mut self, section: KvSection, index: usize, row: KvRow)
        ensures
            final(self).deep_view() == old(self).deep_view().with_row(
                section,
                index as int,
                row.deep_view(),
            ),
    {
        let ghost before = self.deep_view();
        let ghost held = before.rows.get(section);
        let rows = self.rows.rows_for_section_mut(section);
        if index < rows.len() {
            rows.set(index, row);
            assert(rows.deep_view() =~= held.update(index as int, row.deep_view()));
        } else {
            assert(before.rows.with(section, held) =~= before.rows);
        }
    }

    /// Commits, and has the view drawn anew.
    fn commit_and_redraw(&mut self) -> (effects: Vec<Effect>)
        ensures
            final(self).deep_view() == old(self).deep_view().committed(),
            effects@ == old(self).deep_view().commit_effects() + seq![Effect::Redraw],
    {
        let mut effects = self.commit_current_to_store();
        effects.push(Effect::Redraw);
        effects
    }

    /// Adds an empty row to a table.
    pub fn add_kv_row(&mut self, section: KvSection) -> (effects: Vec<Effect>)
        ensures
            final(self).deep_view() == old(self).deep_view().row_added(section).committed(),
            effects@ == seq![Effect::WatchNewRow(section)] + old(self).deep_view().row_added(
                section,
            ).commit_effects() + seq![Effect::Redraw],
    {
        let ghost held = self.deep_view().rows.get(section);
        let mut entry = KeyValue::default();
        entry.enabled = true;
        let row = KvRow { entry, placeholder: KeyPlaceholder::Key };
        let rows = self.rows.rows_for_section_mut(section);
        rows.push(row);
        assert(rows.deep_view() =~= held.push(new_row()));
        let committed = self.commit_and_redraw();
        in_turn(vec![Effect::WatchNewRow(section)], committed)
    }

    /// Removes a row of a table; an index behind the rows removes none.
    pub fn remove_kv_row(&mut self, section: KvSection, index: usize) -> (effects: Vec<Effect>)
        ensures
            final(self).deep_view() == old(self).deep_view().row_removed(
                section,
                index as int,
            ).committed(),
            effects@ == old(self).deep_view().row_removed(section, index as int).commit_effects()
                + seq![Effect::Redraw],
    {
        let ghost before = self.deep_view();
        let ghost held = before.rows.get(section);
        let rows = self.rows.rows_for_section_mut(section);
        if index < rows.len() {
            rows.remove(index);
            assert(rows.deep_view() =~= held.remove(index as int));
        } else {
            assert(before.rows.with(section, held) =~= before.rows);
        }
        self.commit_and_redraw()
    }

    /// A copy of a row; nothing where the index is behind the rows.
    fn row_at(&self, section: KvSection, index: usize) -> (r: Option<KvRow>)
        ensures
            match r {
                Some(row) => index < self.deep_view().rows.get(section).len() && row.deep_view()
                    == self.deep_view().rows.get(section)[index as int],
                None => index >= self.deep_view().rows.get(section).len(),
            },
    {
        let rows = self.rows.rows_for_section(section);
        if index < rows.len() {
            assert(rows.deep_view()[index as int] == rows@[index as int].deep_view());
            Some(KvRow { entry: rows[index].entry.clone(), placeholder: rows[index].placeholder })
        } else {
            None
        }
    }

    /// Ticks the box of a row, or takes the tick away.
    pub fn set_kv_row_enabled(&mut self, section: KvSection, index: usize, enabled: bool) -> (effects:
        Vec<Effect>)
        ensures
            ({
                let before = old(self).deep_view();
                let row = before.rows.get(section)[index as int];
                let changed = before.with_row(section, index as int, row_enabled(row, enabled));
                &&& final(self).deep_view() == changed.committed()
                &&& effects@ == changed.commit_effects() + seq![Effect::Redraw]
            }),
    {
        if let Some(mut row) = self.row_at(section, index) {
            row.entry.enabled = enabled;
            self.set_row(section, index, row);
        }
        self.commit_and_redraw()
    }

    /// Makes a row hold text or name a file.
    pub fn set_kv_row_field_type(&mut self, section: KvSection, index: usize, field_type: FieldType) -> (effects:
        Vec<Effect>)
        ensures
            ({
                let before = old(self).deep_view();
                let row = before.rows.get(section)[index as int];
                let changed = before.with_row(section, index as int, row_of_type(row, field_type));
                &&& final(self).deep_view() == changed.committed()
                &&& effects@ == changed.commit_effects() + seq![Effect::Redraw]
            }),
    {
        if let Some(mut row) = self.row_at(section, index) {
            row.entry.field_type = field_type;
            if field_type == FieldType::Text {
                row.entry.file_path = None;
            }
            self.set_row(section, index, row);
        }
        self.commit_and_redraw()
    }

    /// Takes the paths that the user chose for a row: the row names the first of them.
    /// Without one nothing happens.
    pub fn choose_kv_file(&mut self, section: KvSection, index: usize, paths: &Vec<String>) -> (effects:
        Vec<Effect>)
        ensures
            ({
                let before = old(self).deep_view();
                let row = before.rows.get(section)[index as int];
                let changed = before.with_row(
                    section,
                    index as int,
                    row_of_file(row, paths.deep_view()[0]),
                );
                if paths.len() == 0 {
                    final(self).deep_view() == before && effects@.len() == 0
                } else {
                    &&& final(self).deep_view() == changed.committed()
                    &&& effects@ == changed.commit_effects() + seq![Effect::Redraw]
                }
            }),
    {
        if paths.len() == 0 {
            return Vec::new();
        }
        assert(paths.deep_view()[0] == paths@[0]@);
        if let Some(mut row) = self.row_at(section, index) {
            row.entry.field_type = FieldType::File;
            row.entry.file_path = Some(paths[0].clone());
            self.set_row(section, index, row);
        }
        self.commit_and_redraw()
    }
}

impl ApiTestViewModel {
    /// The view with the change that a click in a table makes, before it is committed. The
    /// box is ticked or not, and the paths are those that the user chose. Where a file was
    /// asked for and none chosen, there is no change.
    pub open spec fn changed_by(
        self,
        action: KvAction,
        ticked: bool,
        paths: Seq<Seq<char>>,
    ) -> Option<ApiTestViewModel> {
        match action {
            KvAction::Add(section) => Some(self.row_added(section)),
            KvAction::Remove { section, index } => Some(self.row_removed(section, index as int)),
            KvAction::SetEnabled { section, index } => Some(
                self.with_row(
                    section,
                    index as int,
                    row_enabled(self.rows.get(section)[index as int], ticked),
                ),
            ),
            KvAction::SetFieldType { section, index, field_type } => Some(
                self.with_row(
                    section,
                    index as int,
                    row_of_type(self.rows.get(section)[index as int], field_type),
                ),
            ),
            KvAction::ChooseFile { section, index } => if paths.len() == 0 {
                None
            } else {
                Some(
                    self.with_row(
                        section,
                        index as int,
                        row_of_file(self.rows.get(section)[index as int], paths[0]),
                    ),
                )
            },
        }
    }

    /// What follows a click in a table: a new row is watched, and a change is committed and
    /// drawn.
    pub open spec fn kv_action_effects(
        self,
        action: KvAction,
        ticked: bool,
        paths: Seq<Seq<char>>,
    ) -> Seq<Effect> {
        match self.changed_by(action, ticked, paths) {
            Some(changed) => (match action {
                KvAction::Add(section) => seq![Effect::WatchNewRow(section)],
                _ => Seq::empty(),
            }) + changed.commit_effects() + seq![Effect::Redraw],
            None => Seq::empty(),
        }
    }
}

impl ApiTestView {
    /// Does what a click in a table asks for. The box of the row is ticked or not, and the
    /// paths are those that the user chose for it.
    pub fn on_kv_action(&mut self, action: KvAction, ticked: bool, paths: &Vec<String>) -> (effects:
        Vec<Effect>)
        ensures
            final(self).deep_view() == (match old(self).deep_view().changed_by(
                action,
                ticked,
                paths.deep_view(),
            ) {
                Some(changed) => changed.committed(),
                None => old(self).deep_view(),
            }),
            effects@ == old(self).deep_view().kv_action_effects(action, ticked, paths.deep_view()),
    {
        match action {
            KvAction::Add(section) => self.add_kv_row(section),
            KvAction::Remove { section, index } => self.remove_kv_row(section, index),
            KvAction::SetEnabled { section, index } => self.set_kv_row_enabled(
                section,
                index,
                ticked,
            ),
            KvAction::SetFieldType { section, index, field_type } => self.set_kv_row_field_type(
                section,
                index,
                field_type,
            ),
            KvAction::ChooseFile { section, index } => self.choose_kv_file(section, index, paths),
        }
    }
}

/// An input or a selection of the editor.
#[derive(Clone, Copy, PartialEq, Eq, Structural, Debug)]
pub enum Widget {
    /// An input or a row whose text goes into the store.
    Stored,
    /// The search for requests.
    Search,
    /// The message for a connection of the given protocol.
    Message(Protocol),
    /// The selection of the protocol.
    ProtocolSelect,
    /// Another selection whose value goes into the store.
    StoredSelect,
}

/// What a widget reports.
#[derive(Clone, Copy, PartialEq, Eq, Structural, Debug)]
pub enum WidgetEvent {
    Change,
    Blur,
    /// The enter key, alone or with the secondary modifier.
    PressEnter { secondary: bool },
    Focus,
    /// A value was selected.
    Confirm,
}

impl ApiTestViewModel {
    /// The view after a change of the protocol: answers under way come to nothing.
    pub open spec fn protocol_changed(self) -> ApiTestViewModel {
        if self.suppress_commit {
            self
        } else {
            ApiTestViewModel {
                request_generation: self.request_generation.wrapping_add(1),
                ..self
            }
        }
    }

    /// The view after what a widget reports.
    pub open spec fn after_event(self, widget: Widget, event: WidgetEvent) -> ApiTestViewModel {
        match widget {
            Widget::Stored => if event == WidgetEvent::Change || event == WidgetEvent::Blur {
                self.committed()
            } else {
                self
            },
            Widget::StoredSelect => self.committed(),
            Widget::ProtocolSelect => self.protocol_changed().committed(),
            Widget::Search => self,
            Widget::Message(protocol) => self,
        }
    }

    /// What follows what a widget reports.
    pub open spec fn event_effects(self, widget: Widget, event: WidgetEvent) -> Seq<Effect> {
        match widget {
            Widget::Stored => if event == WidgetEvent::Change || event == WidgetEvent::Blur {
                self.commit_effects()
            } else {
                Seq::empty()
            },
            Widget::StoredSelect => self.commit_effects(),
            Widget::ProtocolSelect => (if self.suppress_commit {
                Seq::empty()
            } else {
                seq![Effect::CancelConnections]
            }) + self.protocol_changed().commit_effects() + seq![Effect::Redraw],
            Widget::Search => if event == WidgetEvent::Change {
                seq![Effect::RebuildTree, Effect::Redraw]
            } else {
                Seq::empty()
            },
            Widget::Message(protocol) => if event == (WidgetEvent::PressEnter {
                secondary: false,
            }) {
                seq![Effect::SendMessage(protocol)]
            } else {
                Seq::empty()
            },
        }
    }
}

impl ApiTestView {
    /// Takes what a widget reports. The widget's text or value is in the view already.
    pub fn on_widget_event(&mut self, widget: Widget, event: WidgetEvent) -> (effects: Vec<Effect>)
        ensures
            final(self).deep_view() == old(self).deep_view().after_event(widget, event),
            effects@ == old(self).deep_view().event_effects(widget, event),
    {
        match widget {
            Widget::Stored => if event == WidgetEvent::Change || event == WidgetEvent::Blur {
                self.commit_current_to_store()
            } else {
                Vec::new()
            },
            Widget::StoredSelect => self.commit_current_to_store(),
            Widget::ProtocolSelect => {
                let mut effects: Vec<Effect> = Vec::new();
                if !self.suppress_commit {
                    self.request_generation = self.request_generation.wrapping_add(1);
                    effects.push(Effect::CancelConnections);
                }
                let committed = self.commit_and_redraw();
                in_turn(effects, committed)
            },
            Widget::Search => if event == WidgetEvent::Change {
                vec![Effect::RebuildTree, Effect::Redraw]
            } else {
                Vec::new()
            },
            Widget::Message(protocol) => match event {
                WidgetEvent::PressEnter { secondary } => if !secondary {
                    vec![Effect::SendMessage(protocol)]
                } else {
                    Vec::new()
                },
                _ => Vec::new(),
            },
        }
    }

    /// Folds the sidebar up, or out again.
    pub fn toggle_sidebar(&mut self) -> (effects: Vec<Effect>)
        ensures
            final(self).deep_view() == (ApiTestViewModel {
                sidebar_collapsed: !old(self).deep_view().sidebar_collapsed,
                ..old(self).deep_view()
            }),
            effects@ == seq![Effect::Redraw],
    {
        self.sidebar_collapsed = !self.sidebar_collapsed;
        vec![Effect::Redraw]
    }

    /// Shows the collections or the history in the sidebar.
    pub fn set_sidebar_mode(&mut self, mode: SidebarMode) -> (effects: Vec<Effect>)
        ensures
            final(self).deep_view() == (ApiTestViewModel {
                sidebar_mode: mode,
                ..old(self).deep_view()
            }),
            effects@ == seq![Effect::Redraw],
    {
        self.sidebar_mode = mode;
        vec![Effect::Redraw]
    }

    /// Shows the body of the response formatted, or as it came.
    pub fn set_response_pretty(&mut self, pretty: bool) -> (effects: Vec<Effect>)
        ensures
            final(self).deep_view() == (ApiTestViewModel {
                response_pretty: pretty,
                ..old(self).deep_view()
            }),
            effects@ == seq![Effect::Redraw],
    {
        self.response_pretty = pretty;
        vec![Effect::Redraw]
    }

    /// A click on a tab of the editor; one behind the tabs does nothing.
    pub fn click_editor_tab(&mut self, index: usize) -> (effects: Vec<Effect>)
        ensures
            if index < all_editor_tabs().len() {
                final(self).deep_view() == (ApiTestViewModel {
                    active_editor_tab: all_editor_tabs()[index as int],
                    ..old(self).deep_view()
                }) && effects@ == seq![Effect::Redraw]
            } else {
                final(self).deep_view() == old(self).deep_view() && effects@.len() == 0
            },
    {
        let tabs = request_editor_tabs();
        if index < tabs.len() {
            self.active_editor_tab = tabs[index];
            vec![Effect::Redraw]
        } else {
            Vec::new()
        }
    }

    /// A click on a tab of the response pane; one behind the tabs does nothing.
    pub fn click_response_tab(&mut self, index: usize) -> (effects: Vec<Effect>)
        ensures
            if index < all_response_tabs().len() {
                final(self).deep_view() == (ApiTestViewModel {
                    active_response_tab: all_response_tabs()[index as int],
                    ..old(self).deep_view()
                }) && effects@ == seq![Effect::Redraw]
            } else {
                final(self).deep_view() == old(self).deep_view() && effects@.len() == 0
            },
    {
        let tabs = response_tabs();
        if index < tabs.len() {
            self.active_response_tab = tabs[index];
            vec![Effect::Redraw]
        } else {
            Vec::new()
        }
    }

    /// The request tree for the search text, and which of its visible entries is selected:
    /// that of the active folder, else that of the active request.
    pub fn rebuild_tree(&self, texts: &TreeTexts) -> (r: (Vec<TreeItem>, Option<usize>))
        requires
            depth_within(
                self.deep_view().store.folders,
                None,
                self.deep_view().store.folders.len(),
            ),
        ensures
            tree_models(r.0@) == self.deep_view().tree(*texts),
            self.deep_view().is_tree_selection(*texts, r.1),
    {
        let items = tree_items(
            &self.store.folders,
            &self.store.requests,
            texts,
            self.inputs.search.as_str(),
        );
        let selected = match &self.active_folder_id {
            Some(id) => visible_tree_index(&items, id.as_str()),
            None => match &self.active_request_id {
                Some(id) => visible_tree_index(&items, id.as_str()),
                None => None,
            },
        };
        (items, selected)
    }
}

impl ApiTestViewModel {
    /// The request tree for the search text.
    pub open spec fn tree(self, texts: TreeTexts) -> Seq<TreeModel> {
        tree_entries(self.store.folders, self.store.requests, texts, self.inputs.search)
    }

    /// Whether `index` is that of the visible entry that is selected: that of the active
    /// folder, else that of the active request.
    pub open spec fn is_tree_selection(self, texts: TreeTexts, index: Option<usize>) -> bool {
        let ids = visible_ids(self.tree(texts));
        match self.active_folder_id {
            Some(id) => is_index_of(ids, id, index),
            None => match self.active_request_id {
                Some(id) => is_index_of(ids, id, index),
                None => index is None,
            },
        }
    }
}

/// A row of the editor: its table and its place in it.
#[derive(Clone, Copy, PartialEq, Eq, Structural, Debug)]
pub struct RowPlace {
    pub section: KvSection,
    pub index: usize,
}

/// The places of the rows of the first `n` tables.
pub open spec fn row_places(rows: SectionRowsModel, n: nat) -> Seq<RowPlace>
    decreases n,
{
    if n == 0 {
        Seq::empty()
    } else {
        let section = all_sections()[n - 1];
        row_places(rows, (n - 1) as nat) + Seq::new(
            rows.get(section).len(),
            |i: int| RowPlace { section, index: i as usize },
        )
    }
}

impl ApiTestView {
    /// The rows whose inputs are watched: all rows of all tables, in order.
    pub fn subscribe_editor_inputs(&self) -> (r: Vec<RowPlace>)
        ensures
            r@ == row_places(self.deep_view().rows, all_sections().len()),
    {
        let sections = kv_sections();
        let mut places: Vec<RowPlace> = Vec::new();
        let mut n: usize = 0;
        while n < sections.len()
            invariant
                sections@ == all_sections(),
                n <= sections.len(),
                places@ == row_places(self.deep_view().rows, n as nat),
            decreases sections.len() - n,
        {
            let section = sections[n];
            let count = self.rows.rows_for_section(section).len();
            let ghost before = places@;
            let mut i: usize = 0;
            while i < count
                invariant
                    i <= count,
                    count == self.deep_view().rows.get(section).len(),
                    places@ == before + Seq::new(
                        i as nat,
                        |k: int| RowPlace { section, index: k as usize },
                    ),
                decreases count - i,
            {
                places.push(RowPlace { section, index: i });
                i = i + 1;
                assert(places@ =~= before + Seq::new(
                    i as nat,
                    |k: int| RowPlace { section, index: k as usize },
                ));
            }
            n = n + 1;
        }
        places
    }
}

} // verus!
