//! Which parts of the window are there, and what menus and cards offer.

use vstd::prelude::*;
use crate::appearance::{Tone, badge_tone_of};
use crate::editor_panel::{Connections, folder_cards, variable_cards};
use crate::environment_panel::environment_cards;
use crate::export::CollectionExport;
use crate::http::{KeyValueModel, Protocol, RequestMethod};
use crate::labels::{HttpShaped, MethodTexts, ProtocolTexts};
use crate::sections::KvSection;
use crate::sidebar::{ExportTexts, all_protocols, export_label, mode_bar, new_request_menu};
use crate::tabs::{SidebarMode, all_response_tabs};
use crate::view_state::ApiTestViewModel;
use crate::widgets::ButtonAction;

verus! {

/// The parts of the window: a request has its bar and its response, which a folder has not; a
/// notice is shown exactly where there is one. The handle of the sidebar points to where the
/// sidebar goes.
pub proof fn law_parts_of_the_window(view: ApiTestViewModel)
    ensures
        view.layout().request_bar <==> view.active_folder_id is None,
        view.layout().response_pane <==> view.active_folder_id is None,
        view.layout().notice_bar <==> view.notice is Some,
        view.layout().sidebar_collapsed == view.sidebar_collapsed,
        view.layout().meta_icon is FolderOpen <==> view.active_folder_id is Some,
        view.layout().toggle_icon is ChevronRight <==> view.sidebar_collapsed,
        view.layout().toggle_icon is ChevronLeft <==> !view.sidebar_collapsed,
{
}

/// The request bar shows the address that the editor holds and the selected protocol, and the
/// selected method exactly where the protocol sends one.
pub proof fn law_the_request_bar_shows_the_request(
    view: ApiTestViewModel,
    connections: Connections,
    shaped: HttpShaped,
)
    requires
        view.selections.protocol is Some,
        view.selections.method is Some,
    ensures
        ({
            let bar = view.request_bar(connections, shaped);
            let protocol = view.selections.protocol->0;
            &&& bar.url == view.inputs.url
            &&& bar.protocol == protocol
            &&& bar.method is Some <==> shaped.holds(protocol)
            &&& bar.method is Some ==> bar.method->0 == Tone::Method(view.selections.method->0)
            &&& bar.send == view.send_button(protocol, connections, shaped.holds(protocol))
        }),
{
}

/// The response pane is that of the selected protocol. Where it has tabs, all are there in
/// their order and the active one is marked.
pub proof fn law_the_response_pane_is_of_the_protocol(
    view: ApiTestViewModel,
    streaming: bool,
    cookies: Seq<KeyValueModel>,
    console: Seq<char>,
    i: int,
)
    requires
        view.selections.protocol is Some,
    ensures
        ({
            let pane = view.response_pane(streaming, cookies, console);
            let protocol = view.selections.protocol->0;
            &&& pane is Tcp <==> protocol is Tcp
            &&& pane is WebSocket <==> protocol is WebSocket
            &&& pane is SocketIo <==> protocol is SocketIo
            &&& pane is Http ==> {
                &&& pane->tabs.len() == all_response_tabs().len()
                &&& pane->selected == view.active_response_tab.place()
                &&& pane->content == view.response_content(streaming, cookies, console)
                &&& pane->status_bar == view.status_bar(streaming)
                &&& 0 <= i < all_response_tabs().len() ==> pane->tabs[i].title
                    == all_response_tabs()[i].title_label()
            }
        }),
{
}

/// The menu for new requests offers every protocol, once, under its own name.
pub proof fn law_every_protocol_is_offered(texts: ProtocolTexts, protocol: Protocol)
    ensures
        all_protocols().no_duplicates(),
        exists|i: int|
            0 <= i < new_request_menu(texts).len() && (#[trigger] new_request_menu(
                texts,
            )[i]).protocol == protocol && new_request_menu(texts)[i].label == texts.text(protocol),
{
    let i: int = match protocol {
        Protocol::Http => 0,
        Protocol::Graphql => 1,
        Protocol::Sse => 2,
        Protocol::WebSocket => 3,
        Protocol::Tcp => 4,
        Protocol::GrpcWeb => 5,
        Protocol::SocketIo => 6,
    };
    assert(new_request_menu(texts)[i].protocol == protocol);
}

/// Each protocol and each method is written with its own text.
pub proof fn law_texts_are_told_apart(protocols: ProtocolTexts, methods: MethodTexts)
    ensures
        protocols.text(Protocol::Http) == protocols.http@,
        protocols.text(Protocol::Graphql) == protocols.graphql@,
        protocols.text(Protocol::Sse) == protocols.sse@,
        protocols.text(Protocol::WebSocket) == protocols.web_socket@,
        protocols.text(Protocol::Tcp) == protocols.tcp@,
        protocols.text(Protocol::GrpcWeb) == protocols.grpc_web@,
        protocols.text(Protocol::SocketIo) == protocols.socket_io@,
        methods.text(RequestMethod::Get) == methods.get@,
        methods.text(RequestMethod::Post) == methods.post@,
        methods.text(RequestMethod::Put) == methods.put@,
        methods.text(RequestMethod::Patch) == methods.patch@,
        methods.text(RequestMethod::Delete) == methods.delete@,
        methods.text(RequestMethod::Head) == methods.head@,
        methods.text(RequestMethod::Options) == methods.options@,
{
}

/// Whether a table is one of an environment.
pub open spec fn of_environment(section: KvSection) -> bool {
    section is Environment || section is EnvironmentParams || section is EnvironmentHeaders
        || section is EnvironmentCookies
}

/// Whether a table is one of a folder.
pub open spec fn of_folder(section: KvSection) -> bool {
    section is FolderParams || section is FolderHeaders || section is FolderVariables
}

/// Whether a table stands under the tab of the variables.
pub open spec fn of_variables(section: KvSection) -> bool {
    section is Globals || section is GlobalParams || section is GlobalHeaders
        || section is GlobalCookies || section is RequestVariables
}

/// Every table of an environment, of a folder and of the tab of variables has a card, and no
/// other table has one there.
pub proof fn law_every_table_has_a_card(section: KvSection)
    ensures
        of_environment(section) <==> exists|i: int|
            0 <= i < environment_cards().len() && (#[trigger] environment_cards()[i]).section
                == section,
        of_folder(section) <==> exists|i: int|
            0 <= i < folder_cards().len() && (#[trigger] folder_cards()[i]).section == section,
        of_variables(section) <==> exists|i: int|
            0 <= i < variable_cards().len() && (#[trigger] variable_cards()[i]).2 == section,
        environment_cards().len() == 4,
        folder_cards().len() == 3,
        variable_cards().len() == 5,
{
    let e = environment_cards();
    let f = folder_cards();
    let v = variable_cards();
    assert(e[0].section is Environment && e[1].section is EnvironmentHeaders && e[2].section is
        EnvironmentParams && e[3].section is EnvironmentCookies);
    assert(f[0].section is FolderParams && f[1].section is FolderHeaders && f[2].section is
        FolderVariables);
    assert(v[0].2 is Globals && v[1].2 is GlobalParams && v[2].2 is GlobalHeaders && v[3].2 is
        GlobalCookies && v[4].2 is RequestVariables);
}

/// The badge of a request has the colour of its method exactly where its protocol sends one.
pub proof fn law_badges_have_the_colour_of_the_method(
    uses_http_method: bool,
    method: RequestMethod,
)
    ensures
        uses_http_method ==> badge_tone_of(uses_http_method, method) == Tone::Method(method),
        !uses_http_method ==> badge_tone_of(uses_http_method, method) is Primary,
{
}

/// The buttons of the sidebar show what they are named after, and the one of what is shown is
/// marked.
pub proof fn law_sidebar_buttons(view: ApiTestViewModel)
    ensures
        mode_bar(view.sidebar_mode).active == view.sidebar_mode,
        mode_bar(view.sidebar_mode).collections.click == ButtonAction::ShowSidebar(
            SidebarMode::Collections,
        ),
        mode_bar(view.sidebar_mode).history.click == ButtonAction::ShowSidebar(
            SidebarMode::History,
        ),
        mode_bar(view.sidebar_mode).collections.enabled,
        mode_bar(view.sidebar_mode).history.enabled,
        view.collections_frame().search == view.inputs.search,
        view.collections_frame().new_folder.click == ButtonAction::NewFolder,
        view.collections_frame().import.click == ButtonAction::ImportCollection,
{
}

/// Each protocol is asked for on its own whether it sends a method, and each kind of export has
/// the text of its kind.
pub proof fn law_settings_are_told_apart(shaped: HttpShaped, texts: ExportTexts)
    ensures
        shaped.holds(Protocol::Http) == shaped.http,
        shaped.holds(Protocol::Graphql) == shaped.graphql,
        shaped.holds(Protocol::Sse) == shaped.sse,
        shaped.holds(Protocol::WebSocket) == shaped.web_socket,
        shaped.holds(Protocol::Tcp) == shaped.tcp,
        shaped.holds(Protocol::GrpcWeb) == shaped.grpc_web,
        shaped.holds(Protocol::SocketIo) == shaped.socket_io,
        export_label(texts, CollectionExport::PostmanJson) == texts.postman@ + " · "@ + "JSON"@,
        export_label(texts, CollectionExport::OpenApiJson) == texts.openapi@ + " · "@ + "JSON"@,
        export_label(texts, CollectionExport::OpenApiYaml) == texts.openapi@ + " · "@ + "YAML"@,
        export_label(texts, CollectionExport::SwaggerJson) == texts.swagger@ + " · "@ + "JSON"@,
        export_label(texts, CollectionExport::SwaggerYaml) == texts.swagger@ + " · "@ + "YAML"@,
{
}

} // verus!
