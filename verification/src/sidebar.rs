//! What the window and its sidebar show.

use vstd::prelude::*;
use crate::appearance::{
    Caption, CaptionModel, Icon, Tone, badge_tone, badge_tone_of, icon_of_protocol, protocol_icon,
    status_tone, status_tone_of,
};
use crate::export::{CollectionExport, all_exports, collection_exports};
use crate::http::{Protocol, RequestMethod};
use crate::labels::{HttpShaped, Label, LabelModel, ProtocolTexts};
use crate::lookup::{find, position};
use crate::measures::{
    day_of_millis, format_millis, format_size, history_time, in_calendar, is_day, millis_text,
    moment_text, size_text,
};
use crate::request_store::{RequestHistoryEntry, RequestHistoryEntryModel};
use crate::tabs::SidebarMode;
use crate::text::{decimal, decimal_text, is_text, join3, same};
use crate::tree::{TreeItem, TreeModel, tree_empty_id, tree_root_id};
use crate::view_state::{ApiTestView, ApiTestViewModel, Effect};
use crate::widgets::{Button, ButtonAction, ButtonModel, icon_button, labelled};

verus! {

/// Which parts of the window are there, and their icons.
#[derive(Clone, Copy, PartialEq, Eq, Structural, Debug)]
pub struct WindowLayout {
    /// Whether the bar with protocol, method and address is shown.
    pub request_bar: bool,
    /// Whether the bar with a notice is shown.
    pub notice_bar: bool,
    /// Whether the response is shown below the editor.
    pub response_pane: bool,
    /// Whether the sidebar is folded up.
    pub sidebar_collapsed: bool,
    /// The icon before the name.
    pub meta_icon: Icon,
    /// The icon of the handle that folds the sidebar.
    pub toggle_icon: Icon,
}

/// The icon of the handle that folds the sidebar up or out.
pub open spec fn toggle_icon_of(collapsed: bool) -> Icon {
    if collapsed {
        Icon::ChevronRight
    } else {
        Icon::ChevronLeft
    }
}

impl ApiTestViewModel {
    /// The parts of the window: a folder has neither a request bar nor a response, and a
    /// notice is shown where there is one.
    pub open spec fn layout(self) -> WindowLayout {
        WindowLayout {
            request_bar: self.active_folder_id is None,
            notice_bar: self.notice is Some,
            response_pane: self.active_folder_id is None,
            sidebar_collapsed: self.sidebar_collapsed,
            meta_icon: if self.active_folder_id is Some {
                Icon::FolderOpen
            } else {
                Icon::File
            },
            toggle_icon: toggle_icon_of(self.sidebar_collapsed),
        }
    }
}

/// The buttons that show the collections or the history in the sidebar, and what is shown.
#[derive(Clone, Copy, Debug)]
pub struct ModeBar {
    pub collections: Button,
    pub history: Button,
    pub active: SidebarMode,
}

/// Model of [`ModeBar`].
#[verifier::ext_equal]
pub struct ModeBarModel {
    pub collections: ButtonModel,
    pub history: ButtonModel,
    pub active: SidebarMode,
}

impl DeepView for ModeBar {
    type V = ModeBarModel;

    open spec fn deep_view(&self) -> ModeBarModel {
        ModeBarModel {
            collections: self.collections.deep_view(),
            history: self.history.deep_view(),
            active: self.active,
        }
    }
}

/// The buttons of the sidebar.
pub open spec fn mode_bar(active: SidebarMode) -> ModeBarModel {
    ModeBarModel {
        collections: labelled(
            "api-sidebar-collections"@,
            "ApiTest.collections"@,
            ButtonAction::ShowSidebar(SidebarMode::Collections),
        ),
        history: labelled(
            "api-sidebar-history"@,
            "ApiTest.history"@,
            ButtonAction::ShowSidebar(SidebarMode::History),
        ),
        active,
    }
}

/// What stands around the request tree: the input for the search and the title with the
/// button for a new folder above it, the button for an import and the menu for exports below
/// it. The menu for new requests is beside the search.
#[derive(Debug)]
pub struct CollectionsFrame {
    pub search: String,
    pub title: Label,
    pub new_folder: Button,
    pub import: Button,
    pub export_id: &'static str,
    pub export_label: Label,
}

/// Model of [`CollectionsFrame`].
#[verifier::ext_equal]
pub struct CollectionsFrameModel {
    pub search: Seq<char>,
    pub title: LabelModel,
    pub new_folder: ButtonModel,
    pub import: ButtonModel,
    pub export_id: Seq<char>,
    pub export_label: LabelModel,
}

impl DeepView for CollectionsFrame {
    type V = CollectionsFrameModel;

    open spec fn deep_view(&self) -> CollectionsFrameModel {
        CollectionsFrameModel {
            search: self.search@,
            title: self.title.deep_view(),
            new_folder: self.new_folder.deep_view(),
            import: self.import.deep_view(),
            export_id: self.export_id@,
            export_label: self.export_label.deep_view(),
        }
    }
}

impl ApiTestViewModel {
    /// What stands around the request tree.
    pub open spec fn collections_frame(self) -> CollectionsFrameModel {
        CollectionsFrameModel {
            search: self.inputs.search,
            title: LabelModel::Message("ApiTest.request_list"@),
            new_folder: icon_button(
                "api-new-folder"@,
                "ApiTest.new_folder"@,
                ButtonAction::NewFolder,
            ),
            import: ButtonModel {
                tooltip: Some(LabelModel::Message("ApiTest.import_collection"@)),
                ..labelled(
                    "api-import-collection"@,
                    "ApiTest.import_collection"@,
                    ButtonAction::ImportCollection,
                )
            },
            export_id: "api-export-collection"@,
            export_label: LabelModel::Message("ApiTest.export"@),
        }
    }
}

impl ApiTestView {
    /// The parts of the window.
    pub fn render(&self) -> (r: WindowLayout)
        ensures
            r == self.deep_view().layout(),
    {
        let folder_open = self.active_folder_id.is_some();
        WindowLayout {
            request_bar: !folder_open,
            notice_bar: self.notice.is_some(),
            response_pane: !folder_open,
            sidebar_collapsed: self.sidebar_collapsed,
            meta_icon: self.render_request_meta_bar().0,
            toggle_icon: ApiTestView::render_sidebar_toggle_handle(self.sidebar_collapsed),
        }
    }

    /// The icon of the handle that folds the sidebar up or out.
    pub fn render_sidebar_toggle_handle(collapsed: bool) -> (r: Icon)
        ensures
            r == toggle_icon_of(collapsed),
    {
        if collapsed {
            Icon::ChevronRight
        } else {
            Icon::ChevronLeft
        }
    }

    /// The icon before the name, which is that of a folder or of a request, and the name.
    pub fn render_request_meta_bar(&self) -> (r: (Icon, String))
        ensures
            r.0 == self.deep_view().layout().meta_icon,
            r.1@ == self.deep_view().inputs.name,
    {
        let icon = if self.active_folder_id.is_some() {
            Icon::FolderOpen
        } else {
            Icon::File
        };
        (icon, self.inputs.name.clone())
    }

    /// The buttons of the sidebar, and which of them is the active one.
    pub fn render_sidebar(&self) -> (r: ModeBar)
        ensures
            r.deep_view() == mode_bar(self.deep_view().sidebar_mode),
    {
        ModeBar {
            collections: Button::labelled(
                "api-sidebar-collections",
                "ApiTest.collections",
                ButtonAction::ShowSidebar(SidebarMode::Collections),
            ),
            history: Button::labelled(
                "api-sidebar-history",
                "ApiTest.history",
                ButtonAction::ShowSidebar(SidebarMode::History),
            ),
            active: self.sidebar_mode,
        }
    }

    /// What stands around the request tree.
    pub fn render_collections_frame(&self) -> (r: CollectionsFrame)
        ensures
            r.deep_view() == self.deep_view().collections_frame(),
    {
        CollectionsFrame {
            search: self.inputs.search.clone(),
            title: Label::Message("ApiTest.request_list"),
            new_folder: Button::icon("api-new-folder", "ApiTest.new_folder", ButtonAction::NewFolder),
            import: Button {
                element_id: "api-import-collection",
                label: Some(Label::Message("ApiTest.import_collection")),
                tooltip: Some(Label::Message("ApiTest.import_collection")),
                enabled: true,
                click: ButtonAction::ImportCollection,
            },
            export_id: "api-export-collection",
            export_label: Label::Message("ApiTest.export"),
        }
    }
}

/// All protocols, in the order of the menu.
pub open spec fn all_protocols() -> Seq<Protocol> {
    seq![
        Protocol::Http,
        Protocol::Graphql,
        Protocol::Sse,
        Protocol::WebSocket,
        Protocol::Tcp,
        Protocol::GrpcWeb,
        Protocol::SocketIo,
    ]
}

/// All protocols, in the order of the menu.
pub fn protocols() -> (r: Vec<Protocol>)
    ensures
        r@ == all_protocols(),
{
    vec![
        Protocol::Http,
        Protocol::Graphql,
        Protocol::Sse,
        Protocol::WebSocket,
        Protocol::Tcp,
        Protocol::GrpcWeb,
        Protocol::SocketIo,
    ]
}

/// An entry of the menu for new requests.
#[derive(Debug)]
pub struct NewRequestItem {
    pub label: String,
    pub icon: Icon,
    pub protocol: Protocol,
}

/// Model of [`NewRequestItem`].
#[verifier::ext_equal]
pub struct NewRequestItemModel {
    pub label: Seq<char>,
    pub icon: Icon,
    pub protocol: Protocol,
}

impl DeepView for NewRequestItem {
    type V = NewRequestItemModel;

    open spec fn deep_view(&self) -> NewRequestItemModel {
        NewRequestItemModel {
            label: self.label@,
            icon: self.icon,
            protocol: self.protocol,
        }
    }
}

/// The menu for new requests: one entry for each protocol.
pub open spec fn new_request_menu(texts: ProtocolTexts) -> Seq<NewRequestItemModel> {
    Seq::new(
        all_protocols().len(),
        |i: int|
            NewRequestItemModel {
                label: texts.text(all_protocols()[i]),
                icon: icon_of_protocol(all_protocols()[i]),
                protocol: all_protocols()[i],
            },
    )
}

/// The menu for new requests: one entry for each protocol.
pub fn render_new_request_button(texts: &ProtocolTexts) -> (r: Vec<NewRequestItem>)
    ensures
        r.deep_view() == new_request_menu(*texts),
{
    let all = protocols();
    let mut r: Vec<NewRequestItem> = Vec::new();
    let mut i: usize = 0;
    while i < all.len()
        invariant
            all@ == all_protocols(),
            i <= all.len(),
            r.len() == i,
            forall|k: int| 0 <= k < i ==> (#[trigger] r@[k]).deep_view() == new_request_menu(
                *texts,
            )[k],
        decreases all.len() - i,
    {
        let protocol = all[i];
        r.push(
            NewRequestItem {
                label: texts.get(protocol).to_owned(),
                icon: protocol_icon(protocol),
                protocol,
            },
        );
        i = i + 1;
    }
    assert(r.deep_view() =~= new_request_menu(*texts));
    r
}

/// The prompts for the place of an exported file, in the user's language.
#[derive(Debug)]
pub struct ExportTexts {
    pub postman: String,
    pub openapi: String,
    pub swagger: String,
}

impl ExportTexts {
    /// The prompt for a form.
    pub open spec fn text(self, kind: CollectionExport) -> Seq<char> {
        match kind {
            CollectionExport::PostmanJson => self.postman@,
            CollectionExport::OpenApiJson | CollectionExport::OpenApiYaml => self.openapi@,
            CollectionExport::SwaggerJson | CollectionExport::SwaggerYaml => self.swagger@,
        }
    }

    /// The prompt for a form.
    pub fn get(&self, kind: CollectionExport) -> (r: &str)
        ensures
            r@ == self.text(kind),
    {
        match kind {
            CollectionExport::PostmanJson => self.postman.as_str(),
            CollectionExport::OpenApiJson | CollectionExport::OpenApiYaml => self.openapi.as_str(),
            CollectionExport::SwaggerJson | CollectionExport::SwaggerYaml => self.swagger.as_str(),
        }
    }
}

/// The label of a form in the menu for exports.
pub open spec fn export_label(texts: ExportTexts, kind: CollectionExport) -> Seq<char> {
    texts.text(kind) + " · "@ + (match kind.encoding_of() {
        crate::export::DocumentEncoding::Json => "JSON"@,
        crate::export::DocumentEncoding::Yaml => "YAML"@,
    })
}

/// The menu for exports: the label of each form, in the order of the forms.
pub fn render_export_button(texts: &ExportTexts) -> (r: Vec<String>)
    ensures
        r.len() == all_exports().len(),
        forall|i: int|
            0 <= i < r.len() ==> (#[trigger] r@[i])@ == export_label(*texts, all_exports()[i]),
{
    let all = collection_exports();
    let mut r: Vec<String> = Vec::new();
    let mut i: usize = 0;
    while i < all.len()
        invariant
            all@ == all_exports(),
            i <= all.len(),
            r.len() == i,
            forall|k: int|
                0 <= k < i ==> (#[trigger] r@[k])@ == export_label(*texts, all_exports()[k]),
        decreases all.len() - i,
    {
        r.push(all[i].menu_label(texts.get(all[i])));
        i = i + 1;
    }
    r
}

/// What a click in the tree does.
#[derive(Debug)]
pub enum TreeAction {
    SelectFolder(String),
    DeleteFolder(String),
    SelectRequest(String),
    DeleteRequest(String),
}

/// Model of [`TreeAction`].
#[verifier::ext_equal]
pub enum TreeActionModel {
    SelectFolder(Seq<char>),
    DeleteFolder(Seq<char>),
    SelectRequest(Seq<char>),
    DeleteRequest(Seq<char>),
}

impl DeepView for TreeAction {
    type V = TreeActionModel;

    open spec fn deep_view(&self) -> TreeActionModel {
        match self {
            TreeAction::SelectFolder(id) => TreeActionModel::SelectFolder(id@),
            TreeAction::DeleteFolder(id) => TreeActionModel::DeleteFolder(id@),
            TreeAction::SelectRequest(id) => TreeActionModel::SelectRequest(id@),
            TreeAction::DeleteRequest(id) => TreeActionModel::DeleteRequest(id@),
        }
    }
}

/// What a row of the tree looks like.
#[derive(Clone, Copy, PartialEq, Eq, Structural, Debug)]
pub enum TreeRowLook {
    /// A folder, open or closed. The root stands out.
    Folder { disclosure: Icon, folder: Icon, is_root: bool },
    /// The text of an empty tree.
    Empty,
    /// A request with its badge.
    Request { protocol: Protocol, method: RequestMethod, tone: Tone },
    /// An entry that is none of these: a row without content.
    Blank,
}

/// A row of the request tree.
#[derive(Debug)]
pub struct TreeRow {
    pub label: String,
    pub is_active: bool,
    pub look: TreeRowLook,
    pub click: Option<TreeAction>,
    pub delete: Option<TreeAction>,
    pub delete_tooltip: Option<Label>,
}

/// Model of [`TreeRow`].
#[verifier::ext_equal]
pub struct TreeRowModel {
    pub label: Seq<char>,
    pub is_active: bool,
    pub look: TreeRowLook,
    pub click: Option<TreeActionModel>,
    pub delete: Option<TreeActionModel>,
    pub delete_tooltip: Option<LabelModel>,
}

impl DeepView for TreeRow {
    type V = TreeRowModel;

    open spec fn deep_view(&self) -> TreeRowModel {
        TreeRowModel {
            label: self.label@,
            is_active: self.is_active,
            look: self.look,
            click: self.click.deep_view(),
            delete: self.delete.deep_view(),
            delete_tooltip: self.delete_tooltip.deep_view(),
        }
    }
}

impl ApiTestViewModel {
    /// Whether the id is that of a request.
    pub open spec fn is_request_id(self, id: Seq<char>) -> bool {
        position(self.store.requests, id) is Some
    }

    /// Whether an entry of the tree is shown as a folder: the root, a stored folder, and
    /// every entry with entries below it.
    pub open spec fn shown_as_folder(self, item: TreeModel) -> bool {
        item.id == tree_root_id() || position(self.store.folders, item.id) is Some
            || item.children.len() > 0
    }

    /// Whether an id belongs to an entry that stands for nothing stored: the root, or the
    /// text of an empty tree.
    pub open spec fn is_fixed_entry(id: Seq<char>) -> bool {
        id == tree_root_id() || id == tree_empty_id()
    }

    /// The row of an entry of the tree.
    pub open spec fn tree_row(
        self,
        item: TreeModel,
        expanded: bool,
        shaped: HttpShaped,
    ) -> TreeRowModel {
        let id = item.id;
        let is_request = self.is_request_id(id);
        TreeRowModel {
            label: item.label,
            is_active: self.active_request_id == Some(id) || (!is_request && self.active_folder_id
                == Some(id)),
            look: if self.shown_as_folder(item) {
                TreeRowLook::Folder {
                    disclosure: if expanded {
                        Icon::ChevronDown
                    } else {
                        Icon::ChevronRight
                    },
                    folder: if expanded {
                        Icon::FolderOpen
                    } else {
                        Icon::FolderClosed
                    },
                    is_root: id == tree_root_id(),
                }
            } else if id == tree_empty_id() {
                TreeRowLook::Empty
            } else if is_request {
                let request = self.store.requests[position(self.store.requests, id)->0];
                TreeRowLook::Request {
                    protocol: request.protocol,
                    method: request.method,
                    tone: badge_tone_of(shaped.holds(request.protocol), request.method),
                }
            } else {
                TreeRowLook::Blank
            },
            click: if self.shown_as_folder(item) {
                if Self::is_fixed_entry(id) {
                    None
                } else {
                    Some(TreeActionModel::SelectFolder(id))
                }
            } else if id != tree_empty_id() && is_request {
                Some(TreeActionModel::SelectRequest(id))
            } else {
                None
            },
            delete: if self.shown_as_folder(item) {
                if Self::is_fixed_entry(id) {
                    None
                } else {
                    Some(TreeActionModel::DeleteFolder(id))
                }
            } else if id != tree_empty_id() && is_request {
                Some(TreeActionModel::DeleteRequest(id))
            } else {
                None
            },
            delete_tooltip: if self.shown_as_folder(item) {
                if Self::is_fixed_entry(id) {
                    None
                } else {
                    Some(LabelModel::Message("ApiTest.delete_folder"@))
                }
            } else if id != tree_empty_id() && is_request {
                Some(LabelModel::Message("ApiTest.delete_request"@))
            } else {
                None
            },
        }
    }
}

impl ApiTestView {
    /// The row of an entry of the tree, which shows what is below it or not.
    pub fn render_collections_sidebar(
        &self,
        item: &TreeItem,
        expanded: bool,
        shaped: &HttpShaped,
    ) -> (r: TreeRow)
        ensures
            r.deep_view() == self.deep_view().tree_row(item.model(), expanded, *shaped),
    {
        let id = item.id.as_str();
        let request = find(&self.store.requests, id);
        let is_request = request.is_some();
        let is_root = same(id, "api-requests-root");
        let is_empty = same(id, "api-requests-empty");
        let is_folder = is_root || find(&self.store.folders, id).is_some() || item.children.len()
            > 0;
        let is_active = is_text(&self.active_request_id, id) || (!is_request && is_text(
            &self.active_folder_id,
            id,
        ));
        let label = item.label.clone();
        if is_folder {
            let look = TreeRowLook::Folder {
                disclosure: if expanded {
                    Icon::ChevronDown
                } else {
                    Icon::ChevronRight
                },
                folder: if expanded {
                    Icon::FolderOpen
                } else {
                    Icon::FolderClosed
                },
                is_root,
            };
            if is_root || is_empty {
                TreeRow {
                    label,
                    is_active,
                    look,
                    click: None,
                    delete: None,
                    delete_tooltip: None,
                }
            } else {
                TreeRow {
                    label,
                    is_active,
                    look,
                    click: Some(TreeAction::SelectFolder(item.id.clone())),
                    delete: Some(TreeAction::DeleteFolder(item.id.clone())),
                    delete_tooltip: Some(Label::Message("ApiTest.delete_folder")),
                }
            }
        } else if is_empty {
            TreeRow {
                label,
                is_active,
                look: TreeRowLook::Empty,
                click: None,
                delete: None,
                delete_tooltip: None,
            }
        } else {
            match request {
                Some(k) => {
                    assert(self.store.requests.deep_view()[k as int]
                        == self.store.requests@[k as int].deep_view());
                    let protocol = self.store.requests[k].protocol;
                    let method = self.store.requests[k].method;
                    let tone = badge_tone(shaped.uses_http_method(protocol), method);
                    let look = TreeRowLook::Request { protocol, method, tone };
                    TreeRow {
                        label,
                        is_active,
                        look,
                        click: Some(TreeAction::SelectRequest(item.id.clone())),
                        delete: Some(TreeAction::DeleteRequest(item.id.clone())),
                        delete_tooltip: Some(Label::Message("ApiTest.delete_request")),
                    }
                },
                None => TreeRow {
                    label,
                    is_active,
                    look: TreeRowLook::Blank,
                    click: None,
                    delete: None,
                    delete_tooltip: None,
                },
            }
        }
    }
}

impl ApiTestViewModel {
    /// The view after a click in the tree.
    pub open spec fn after_tree_action(self, action: TreeActionModel) -> ApiTestViewModel {
        match action {
            TreeActionModel::SelectFolder(id) => self.selected_folder(id),
            TreeActionModel::DeleteFolder(id) => self.deleted_folder(id),
            TreeActionModel::SelectRequest(id) => self.selected_request(id),
            TreeActionModel::DeleteRequest(id) => self.deleted_request(id),
        }
    }

    /// What follows a click in the tree.
    pub open spec fn tree_action_effects(self, action: TreeActionModel) -> Seq<Effect> {
        match action {
            TreeActionModel::SelectFolder(id) => self.select_folder_effects(id),
            TreeActionModel::DeleteFolder(id) => self.delete_folder_effects(id),
            TreeActionModel::SelectRequest(id) => self.select_request_effects(id),
            TreeActionModel::DeleteRequest(id) => self.delete_request_effects(id),
        }
    }
}

impl ApiTestView {
    /// Does what a click in the tree asks for.
    pub fn on_tree_action(&mut self, action: &TreeAction) -> (effects: Vec<Effect>)
        ensures
            final(self).deep_view() == old(self).deep_view().after_tree_action(action.deep_view()),
            effects@ == old(self).deep_view().tree_action_effects(action.deep_view()),
    {
        match action {
            TreeAction::SelectFolder(id) => self.select_folder(id.as_str()),
            TreeAction::DeleteFolder(id) => self.delete_folder(id.as_str()),
            TreeAction::SelectRequest(id) => self.select_request(id.as_str()),
            TreeAction::DeleteRequest(id) => self.delete_request(id.as_str()),
        }
    }
}

/// The root and the text of an empty tree can be neither opened nor deleted.
pub proof fn law_fixed_entries_do_nothing(
    view: ApiTestViewModel,
    item: TreeModel,
    expanded: bool,
    shaped: HttpShaped,
)
    requires
        ApiTestViewModel::is_fixed_entry(item.id),
    ensures
        view.tree_row(item, expanded, shaped).click is None,
        view.tree_row(item, expanded, shaped).delete is None,
{
}

/// A row of the history.
#[derive(Debug)]
pub struct HistoryRow {
    pub index: usize,
    pub protocol: Protocol,
    pub method: RequestMethod,
    pub badge_tone: Tone,
    pub name: String,
    pub status_tone: Tone,
    pub status: Caption,
    pub url: String,
    pub time: String,
    pub duration: String,
    pub size: String,
    pub restores: String,
}

/// Model of [`HistoryRow`].
#[verifier::ext_equal]
pub struct HistoryRowModel {
    pub index: usize,
    pub protocol: Protocol,
    pub method: RequestMethod,
    pub badge_tone: Tone,
    pub name: Seq<char>,
    pub status_tone: Tone,
    pub status: CaptionModel,
    pub url: Seq<char>,
    pub time: Seq<char>,
    pub duration: Seq<char>,
    pub size: Seq<char>,
    pub restores: Seq<char>,
}

impl DeepView for HistoryRow {
    type V = HistoryRowModel;

    open spec fn deep_view(&self) -> HistoryRowModel {
        HistoryRowModel {
            index: self.index,
            protocol: self.protocol,
            method: self.method,
            badge_tone: self.badge_tone,
            name: self.name@,
            status_tone: self.status_tone,
            status: self.status.deep_view(),
            url: self.url@,
            time: self.time@,
            duration: self.duration@,
            size: self.size@,
            restores: self.restores@,
        }
    }
}

/// Whether a text shows when a request was sent.
pub open spec fn shows_time(text: Seq<char>, sent_at: i64) -> bool {
    if in_calendar(sent_at as int) {
        exists|y: int, m: int, d: int|
            #[trigger] is_day(day_of_millis(sent_at as int), y, m, d) && text == moment_text(
                m,
                d,
                sent_at as int,
            )
    } else {
        text == "—"@
    }
}

/// The row of a history entry. A status of zero is shown as an error.
pub open spec fn history_row(
    index: usize,
    entry: RequestHistoryEntryModel,
    uses_http_method: bool,
    time: Seq<char>,
) -> HistoryRowModel {
    HistoryRowModel {
        index,
        protocol: entry.request.protocol,
        method: entry.method,
        badge_tone: badge_tone_of(uses_http_method, entry.method),
        name: entry.request_name,
        status_tone: status_tone_of(entry.error is Some, entry.status),
        status: if entry.status == 0 {
            CaptionModel::Message("ApiTest.error"@)
        } else {
            CaptionModel::Text(decimal_text(entry.status as nat))
        },
        url: entry.url,
        time,
        duration: millis_text(entry.time_ms),
        size: size_text(entry.size),
        restores: entry.id,
    }
}

/// The row of a history entry.
pub fn render_history_row(index: usize, entry: &RequestHistoryEntry, uses_http_method: bool) -> (r:
    HistoryRow)
    ensures
        shows_time(r.time@, entry.sent_at),
        r.deep_view() == history_row(index, entry.deep_view(), uses_http_method, r.time@),
{
    HistoryRow {
        index,
        protocol: entry.request.protocol,
        method: entry.method,
        badge_tone: badge_tone(uses_http_method, entry.method),
        name: entry.request_name.clone(),
        status_tone: status_tone(entry.error.is_some(), entry.status),
        status: if entry.status == 0 {
            Caption::Message("ApiTest.error")
        } else {
            Caption::Text(decimal(entry.status as u128))
        },
        url: entry.url.clone(),
        time: history_time(entry.sent_at),
        duration: format_millis(entry.time_ms),
        size: format_size(entry.size),
        restores: entry.id.clone(),
    }
}

/// The history in the sidebar: its title, the button that clears it, and a row for each
/// entry, or a text where there is none.
#[derive(Debug)]
pub struct HistoryPane {
    pub title: String,
    pub clear: Button,
    pub empty: Option<Label>,
    pub rows: Vec<HistoryRow>,
}

/// Model of [`HistoryPane`].
#[verifier::ext_equal]
pub struct HistoryPaneModel {
    pub title: Seq<char>,
    pub clear: ButtonModel,
    pub empty: Option<LabelModel>,
    pub rows: Seq<HistoryRowModel>,
}

impl DeepView for HistoryPane {
    type V = HistoryPaneModel;

    open spec fn deep_view(&self) -> HistoryPaneModel {
        HistoryPaneModel {
            title: self.title@,
            clear: self.clear.deep_view(),
            empty: self.empty.deep_view(),
            rows: self.rows.deep_view(),
        }
    }
}

impl ApiTestView {
    /// The history in the sidebar. Its head is the text for history with the number of
    /// entries.
    pub fn render_history_sidebar(&self, history: &str, shaped: &HttpShaped) -> (r: HistoryPane)
        ensures
            r.title@ == history@ + " · "@ + decimal_text(self.deep_view().store.history.len()),
            r.clear.deep_view() == (ButtonModel {
                enabled: self.deep_view().store.history.len() > 0,
                ..labelled(
                    "api-clear-history"@,
                    "ApiTest.clear_history"@,
                    ButtonAction::ClearHistory,
                )
            }),
            r.empty.deep_view() == (if self.deep_view().store.history.len() == 0 {
                Some(LabelModel::Message("ApiTest.history_empty"@))
            } else {
                None
            }),
            r.rows.len() == self.deep_view().store.history.len(),
            forall|i: int|
                #![trigger r.rows@[i]]
                0 <= i < r.rows.len() ==> ({
                    let entry = self.deep_view().store.history[i];
                    &&& shows_time(r.rows@[i].time@, entry.sent_at)
                    &&& r.rows@[i].deep_view() == history_row(
                        i as usize,
                        entry,
                        shaped.holds(entry.request.protocol),
                        r.rows@[i].time@,
                    )
                }),
    {
        let ghost all = self.store.history.deep_view();
        let mut rows: Vec<HistoryRow> = Vec::new();
        let mut i: usize = 0;
        while i < self.store.history.len()
            invariant
                all == self.store.history.deep_view(),
                i <= self.store.history.len(),
                rows.len() == i,
                forall|k: int|
                    #![trigger rows@[k]]
                    0 <= k < i ==> ({
                        &&& shows_time(rows@[k].time@, all[k].sent_at)
                        &&& rows@[k].deep_view() == history_row(
                            k as usize,
                            all[k],
                            shaped.holds(all[k].request.protocol),
                            rows@[k].time@,
                        )
                    }),
            decreases self.store.history.len() - i,
        {
            let entry = &self.store.history[i];
            assert(all[i as int] == entry.deep_view());
            rows.push(
                render_history_row(i, entry, shaped.uses_http_method(entry.request.protocol)),
            );
            i = i + 1;
        }
        let count = decimal(self.store.history.len() as u128);
        let mut clear = Button::labelled(
            "api-clear-history",
            "ApiTest.clear_history",
            ButtonAction::ClearHistory,
        );
        clear.enabled = self.store.history.len() > 0;
        let empty = if self.store.history.len() == 0 {
            Some(Label::Message("ApiTest.history_empty"))
        } else {
            None
        };
        HistoryPane {
            title: join3(history, " · ", count.as_str()),
            clear,
            empty,
            rows,
        }
    }
}

} // verus!
