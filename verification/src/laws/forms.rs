//! What the panels show of what the editor holds.

use vstd::prelude::*;
use crate::appearance::CaptionModel;
use crate::editor_panel::{Connections, behind_last_slash, last_slash_part};
use crate::environment_panel::environment_rows;
use crate::http::FieldType;
use crate::laws::tables::{
    law_adding_a_row, law_changing_the_kind_of_a_row, law_choosing_a_file, law_removing_a_row,
    law_ticking_a_row, one_row_differs,
};
use crate::lookup::position;
use crate::request_store::ApiEnvironmentModel;
use crate::sections::KvSection;
use crate::tcp_panel::{TcpSession, tcp_pane};
use crate::text::decimal_text;
use crate::view_state::ApiTestViewModel;

verus! {

/// A table shows its rows in their order: each with its own box, key and value. Only the rows
/// of a form's body can name files, and there a row that names one offers to choose another in
/// place of a value.
pub proof fn law_tables_show_their_rows(
    view: ApiTestViewModel,
    section: KvSection,
    names: Seq<Option<Seq<char>>>,
    i: int,
)
    requires
        0 <= i < view.rows.get(section).len(),
    ensures
        ({
            let rows = view.rows.get(section);
            let table = view.table(section, names);
            let shown = table.rows[i];
            let is_form = section is Body && view.selections.body_type is Some
                && view.selections.body_type->0 is FormData;
            let names_file = is_form && rows[i].entry.field_type is File;
            &&& table.rows.len() == rows.len()
            &&& table.is_form_data == is_form
            &&& shown.enabled == rows[i].entry.enabled
            &&& shown.key == rows[i].entry.key
            &&& shown.key_placeholder == rows[i].placeholder
            &&& shown.type_buttons is Some <==> is_form
            &&& is_form ==> (shown.type_buttons->0.is_text <==> rows[i].entry.field_type is Text)
            &&& !names_file ==> shown.value is Input && shown.value->text == rows[i].entry.value
            &&& names_file ==> {
                let path = rows[i].entry.file_path;
                &&& shown.value is FilePicker
                &&& names[i] is Some ==> shown.value->label == CaptionModel::Text(names[i]->0)
                &&& names[i] is None ==> shown.value->label is Message
                &&& path is Some && path->0.len() > 0 ==> shown.value->tooltip
                    == CaptionModel::Text(path->0)
                &&& path is None || path->0.len() == 0 ==> shown.value->tooltip is Message
            }
        }),
{
}

/// All that a row of a table offers acts on that row alone: its box enables or disables it, its
/// buttons make it hold text or name a file, and choosing a file has it name the first file
/// chosen; its key and value stay. The button to delete it removes it, and the one to add a
/// row adds one to this table.
pub proof fn law_rows_offer_their_own_actions(
    view: ApiTestViewModel,
    section: KvSection,
    names: Seq<Option<Seq<char>>>,
    ticked: bool,
    paths: Seq<Seq<char>>,
    i: int,
)
    requires
        0 <= i < view.rows.get(section).len() <= usize::MAX,
    ensures
        ({
            let rows = view.rows.get(section);
            let table = view.table(section, names);
            let shown = table.rows[i];
            let toggled = view.changed_by(shown.toggle, ticked, paths)->0.rows.get(section);
            let removed = view.changed_by(shown.delete, ticked, paths)->0.rows.get(section);
            let added = view.changed_by(table.add, ticked, paths)->0.rows.get(section);
            &&& one_row_differs(toggled, rows, i)
            &&& toggled[i].entry.enabled == ticked
            &&& toggled[i].entry.key == rows[i].entry.key
            &&& toggled[i].entry.value == rows[i].entry.value
            &&& removed.len() == rows.len() - 1
            &&& forall|j: int| 0 <= j < i ==> #[trigger] removed[j] == rows[j]
            &&& forall|j: int| i <= j < removed.len() ==> #[trigger] removed[j] == rows[j + 1]
            &&& added.len() == rows.len() + 1
            &&& added.drop_last() == rows
            &&& shown.type_buttons is Some ==> {
                let buttons = shown.type_buttons->0;
                let text = view.changed_by(buttons.text_click, ticked, paths)->0.rows.get(section);
                let file = view.changed_by(buttons.file_click, ticked, paths)->0.rows.get(section);
                &&& one_row_differs(text, rows, i)
                &&& text[i].entry.field_type is Text
                &&& text[i].entry.key == rows[i].entry.key
                &&& one_row_differs(file, rows, i)
                &&& file[i].entry.field_type is File
                &&& file[i].entry.key == rows[i].entry.key
            }
            &&& shown.value is FilePicker && paths.len() > 0 ==> {
                let chosen = view.changed_by(shown.value->click, ticked, paths)->0.rows.get(
                    section,
                );
                &&& one_row_differs(chosen, rows, i)
                &&& chosen[i].entry.file_path == Some(paths[0])
                &&& chosen[i].entry.key == rows[i].entry.key
            }
        }),
{
    law_ticking_a_row(view, section, i as usize, ticked, paths);
    law_removing_a_row(view, section, i as usize, ticked, paths);
    law_adding_a_row(view, section, ticked, paths);
    law_changing_the_kind_of_a_row(
        view,
        section,
        i as usize,
        FieldType::Text,
        ticked,
        paths,
    );
    law_changing_the_kind_of_a_row(
        view,
        section,
        i as usize,
        FieldType::File,
        ticked,
        paths,
    );
    if paths.len() > 0 {
        law_choosing_a_file(view, section, i as usize, ticked, paths);
    }
}

/// What the editor shows: the settings of the open folder, or else the request with what its
/// active tab is for. The body is shown as its type says, and the authentication as its kind
/// says, with what was typed.
pub proof fn law_the_editor_shows_what_was_typed(view: ApiTestViewModel)
    ensures
        view.active_folder_id is Some ==> {
            &&& view.editor_pane() is Folder
            &&& view.editor_pane()->Folder_0.name == view.inputs.name
            &&& view.editor_pane()->Folder_0.description.text == view.inputs.folder_description
            &&& view.editor_pane()->Folder_0.base_url.text == view.inputs.folder_base_url
        },
        view.active_folder_id is None ==> {
            let shown = view.editor_pane()->Request_0;
            let content = shown.content;
            let tab = view.active_editor_tab;
            &&& view.editor_pane() is Request
            &&& shown.description.text == view.inputs.request_description
            &&& shown.selected == tab.place()
            &&& tab is Params ==> content is Table && content->Table_0 is Params
            &&& tab is Path ==> content is Table && content->Table_0 is Path
            &&& tab is Headers ==> content is Table && content->Table_0 is Headers
            &&& tab is Cookies ==> content is Table && content->Table_0 is Cookies
            &&& tab is PreRequest ==> content is PreRequestScript
                && content->PreRequestScript_text == view.inputs.pre_script
            &&& tab is Tests ==> content is TestScript && content->TestScript_text
                == view.inputs.tests
            &&& tab is Variables ==> content is Variables
            &&& tab is Body ==> content is Body
            &&& tab is Auth ==> content is Auth
        },
        view.selections.body_type is Some ==> {
            let chosen = view.selections.body_type->0;
            let shown = view.body_editor();
            &&& chosen is NoBody <==> shown is Nothing
            &&& chosen is Raw ==> shown is Text && shown->text == view.inputs.body
            &&& chosen is Raw && view.selections.raw_language is Some ==> shown->language
                == view.selections.raw_language->0
            &&& chosen is FormData || chosen is Urlencoded ==> shown is Fields
                && shown->section is Body && shown->body_type == chosen
        },
        view.selections.auth_type is Some ==> {
            let chosen = view.selections.auth_type->0;
            let shown = view.auth_editor();
            &&& chosen is NoAuth <==> shown is Nothing
            &&& chosen is Bearer ==> shown is Token && shown->Token_0.text
                == view.inputs.auth_token
            &&& chosen is Basic ==> shown is Login && shown->username.text
                == view.inputs.auth_username && shown->password.text == view.inputs.auth_password
            &&& chosen is ApiKey ==> shown is Key && shown->key == view.inputs.auth_key
                && shown->value == view.inputs.auth_value
        },
{
}

/// What the send button does. With the connection of the selected protocol open it ends that
/// connection, else it stops the stream where one runs, and else it sends. It looks like it
/// stops something exactly where it does, and is busy only while an answer is awaited.
pub proof fn law_the_send_button(
    view: ApiTestViewModel,
    connections: Connections,
    uses_http_method: bool,
)
    requires
        view.selections.protocol is Some,
    ensures
        ({
            let protocol = view.selections.protocol->0;
            let button = view.send_button(protocol, connections, uses_http_method);
            let open = (protocol is Tcp && connections.tcp) || (protocol is WebSocket
                && connections.websocket) || (protocol is SocketIo && connections.socket_io);
            &&& open && protocol is Tcp ==> button.click is DisconnectTcp
            &&& open && protocol is WebSocket ==> button.click is DisconnectWebSocket
            &&& open && protocol is SocketIo ==> button.click is DisconnectSocketIo
            &&& !open && connections.streaming ==> button.click is StopStream
            &&& !open && !connections.streaming ==> button.click is Send
            &&& button.icon is Pause <==> open || connections.streaming
            &&& button.icon is Play <==> !open && !connections.streaming
            &&& button.busy <==> view.sending && !connections.streaming && !(protocol is Tcp)
                && !(protocol is WebSocket) && !(protocol is SocketIo)
        }),
{
}

/// A list of environments shows each of them in their order, and marks those with the active
/// id.
pub proof fn law_lists_show_the_environments(
    environments: Seq<ApiEnvironmentModel>,
    active: Option<Seq<char>>,
    prefix: Seq<char>,
    i: int,
)
    requires
        0 <= i < environments.len(),
    ensures
        ({
            let rows = environment_rows(environments, active, prefix);
            &&& rows.len() == environments.len()
            &&& rows[i].id == environments[i].id
            &&& rows[i].name == environments[i].name
            &&& rows[i].is_active <==> active is Some && active->0 == environments[i].id
            &&& rows[i].element_id == prefix + decimal_text(i as nat)
        }),
{
}

/// The switcher and the manager of environments name the active one, count them all, and offer
/// each; the manager shows the base address that the editor holds, and offers to delete only
/// where another one is left.
pub proof fn law_the_manager_names_the_active_environment(view: ApiTestViewModel, e: int, i: int)
    ensures
        ({
            let manager = view.environment_manager();
            let switcher = view.environment_switcher();
            let active = view.store.active_environment_id;
            &&& manager.count == decimal_text(view.store.environments.len())
            &&& switcher.count == decimal_text(view.store.environments.len())
            &&& manager.rows.len() == view.store.environments.len()
            &&& switcher.rows.len() == view.store.environments.len()
            &&& manager.base_url.text == view.inputs.environment_base_url
            &&& manager.delete.enabled <==> view.store.environments.len() > 1
            &&& active is Some && position(view.store.environments, active->0) == Some(e) ==> {
                &&& manager.active_name == CaptionModel::Text(view.store.environments[e].name)
                &&& switcher.label == CaptionModel::Text(view.store.environments[e].name)
            }
            &&& active is None ==> manager.active_name is Message && switcher.label is Message
            &&& 0 <= i < view.store.environments.len() ==> {
                &&& manager.rows[i].id == view.store.environments[i].id
                &&& manager.rows[i].name == view.store.environments[i].name
                &&& switcher.rows[i].id == view.store.environments[i].id
                &&& switcher.rows[i].name == view.store.environments[i].name
            }
        }),
{
}

/// The pane of a TCP connection shows every entry of its timeline, in their order and with its
/// text, on the side of the one it comes from. A message can be sent while the connection is
/// open and at no other time.
pub proof fn law_the_timeline_is_shown_whole(
    session: TcpSession,
    messages: Seq<char>,
    message: Seq<char>,
    i: int,
)
    ensures
        ({
            let pane = tcp_pane(session, messages, message);
            &&& pane.entries.len() == session.timeline@.len()
            &&& pane.empty is Some <==> session.timeline@.len() == 0
            &&& pane.count == decimal_text(session.timeline@.len()) + " "@ + messages
            &&& pane.message == message
            &&& pane.can_send <==> session.state is Connected
            &&& pane.send.enabled <==> session.state is Connected
            &&& session.peer is Some ==> pane.peer == session.peer->0@
            &&& pane.tone is Success <==> session.state is Connected
            &&& pane.tone is Danger <==> session.state is Failed
            &&& pane.tone is Warning <==> session.state is Connecting || session.state is Closing
            &&& 0 <= i < session.timeline@.len() ==> {
                let entry = session.timeline@[i].deep_view();
                &&& pane.entries[i].text == entry.text
                &&& pane.entries[i].look is Sent <==> entry.direction is Sent
                &&& pane.entries[i].look is Received <==> entry.direction is Received
                &&& pane.entries[i].look is System <==> entry.direction is System
                &&& pane.entries[i].label is None <==> entry.direction is System
            }
        }),
{
}

/// The name of a file is what stands behind the last slash of its path. A slash behind it, or
/// a slash and a single dot, do not count, and a path that ends in two dots names no file.
pub proof fn law_files_are_named_by_the_last_part(folder: Seq<char>, name: Seq<char>)
    requires
        !name.contains('/'),
        name.len() > 0,
        name != seq!['.'],
        name != seq!['.', '.'],
    ensures
        last_slash_part(name) == Some(name),
        last_slash_part(folder + seq!['/'] + name) == Some(name),
        last_slash_part(folder + seq!['/'] + name + seq!['/']) == Some(name),
        last_slash_part(folder + seq!['/'] + name + seq!['/', '.']) == Some(name),
        last_slash_part(folder + seq!['/', '.', '.']) is None,
{
    let path = folder + seq!['/'] + name;
    lemma_behind_slash(folder, name);
    lemma_no_slash(name);
    let closed = path + seq!['/'];
    assert(closed.last() == '/');
    assert(closed.drop_last() =~= path);
    let dotted = path + seq!['/', '.'];
    assert(dotted =~= path + seq!['/'] + seq!['.']);
    assert(!seq!['.'].contains('/'));
    lemma_behind_slash(path, seq!['.']);
    assert(dotted.drop_last() =~= closed);
    let up = folder + seq!['/', '.', '.'];
    assert(up =~= folder + seq!['/'] + seq!['.', '.']);
    assert(!seq!['.', '.'].contains('/'));
    lemma_behind_slash(folder, seq!['.', '.']);
    assert(seq!['.', '.'].len() == 2 && seq!['.'].len() == 1);
}

proof fn lemma_behind_slash(folder: Seq<char>, name: Seq<char>)
    requires
        !name.contains('/'),
    ensures
        behind_last_slash(folder + seq!['/'] + name) == name,
    decreases name.len(),
{
    let path = folder + seq!['/'] + name;
    if name.len() == 0 {
        assert(path.last() == '/');
        assert(name =~= Seq::<char>::empty());
    } else {
        let shorter = name.drop_last();
        assert forall|i: int| 0 <= i < shorter.len() implies shorter[i] != '/' by {
            assert(name.contains(name[i]));
        }
        lemma_behind_slash(folder, shorter);
        assert(path.drop_last() =~= folder + seq!['/'] + shorter);
        assert(path.last() == name.last());
        assert(name.contains(name.last()));
        assert(shorter.push(name.last()) =~= name);
    }
}

proof fn lemma_no_slash(name: Seq<char>)
    requires
        !name.contains('/'),
    ensures
        behind_last_slash(name) == name,
    decreases name.len(),
{
    if name.len() > 0 {
        let shorter = name.drop_last();
        assert forall|i: int| 0 <= i < shorter.len() implies shorter[i] != '/' by {
            assert(name.contains(name[i]));
        }
        lemma_no_slash(shorter);
        assert(name.contains(name.last()));
        assert(shorter.push(name.last()) =~= name);
    } else {
        assert(name =~= Seq::<char>::empty());
    }
}

} // verus!
