//! What the rows of the sidebar stand for and what a click on them does.

use vstd::prelude::*;
use crate::appearance::CaptionModel;
use crate::labels::HttpShaped;
use crate::laws::arrivals::{law_restoring_brings_the_request_back, same_content};
use crate::laws::items::lemma_other_items_stay;
use crate::lookup::{lemma_position, position};
use crate::measures::{millis_text, size_text};
use crate::request_store::RequestHistoryEntryModel;
use crate::sidebar::history_row;
use crate::text::decimal_text;
use crate::tree::TreeModel;
use crate::view_state::ApiTestViewModel;

verus! {

/// A click on the row of a stored request opens that request, and one on the row of a stored
/// folder that folder. The row of a request shows its protocol and method, and the row of the
/// open item is marked.
pub proof fn law_a_row_opens_what_it_stands_for(
    view: ApiTestViewModel,
    item: TreeModel,
    expanded: bool,
    shaped: HttpShaped,
)
    requires
        item.id != "api-requests-root"@,
        item.id != "api-requests-empty"@,
    ensures
        ({
            let row = view.tree_row(item, expanded, shaped);
            let is_folder = position(view.store.folders, item.id) is Some || item.children.len()
                > 0;
            let is_request = !is_folder && position(view.store.requests, item.id) is Some;
            &&& row.label == item.label
            &&& is_folder ==> row.look is Folder && row.click is Some && row.delete is Some
            &&& position(view.store.folders, item.id) is Some ==> {
                &&& view.after_tree_action(row.click->0).active_folder_id == Some(item.id)
                &&& view.after_tree_action(row.delete->0) == view.deleted_folder(item.id)
            }
            &&& is_request ==> {
                let request = view.store.requests[position(view.store.requests, item.id)->0];
                &&& row.look is Request
                &&& row.look->protocol == request.protocol
                &&& row.look->method == request.method
                &&& row.click is Some
                &&& row.delete is Some
                &&& view.after_tree_action(row.click->0).active_request_id == Some(item.id)
                &&& view.after_tree_action(row.delete->0) == view.deleted_request(item.id)
            }
            &&& !is_folder && !is_request ==> row.click is None && row.delete is None
                && row.look is Blank
            &&& view.active_request_id == Some(item.id) ==> row.is_active
            &&& view.active_folder_id == Some(item.id) && position(view.store.requests, item.id)
                is None ==> row.is_active
            &&& view.active_request_id != Some(item.id) && view.active_folder_id != Some(item.id)
                ==> !row.is_active
        }),
{
    lemma_position(view.store.folders, item.id);
    lemma_position(view.store.requests, item.id);
    lemma_other_items_stay(view, item.id);
}

/// A row of the history shows its entry: the name, address, method and protocol of what was
/// sent, its status or that it failed, how long it took and how large the answer was.
pub proof fn law_a_history_row_shows_its_entry(
    index: usize,
    entry: RequestHistoryEntryModel,
    uses_http_method: bool,
    time: Seq<char>,
)
    ensures
        ({
            let row = history_row(index, entry, uses_http_method, time);
            &&& row.index == index
            &&& row.protocol == entry.request.protocol
            &&& row.method == entry.method
            &&& row.name == entry.request_name
            &&& row.url == entry.url
            &&& row.time == time
            &&& row.duration == millis_text(entry.time_ms)
            &&& row.size == size_text(entry.size)
            &&& entry.status == 0 ==> row.status is Message
            &&& entry.status != 0 ==> row.status == CaptionModel::Text(
                decimal_text(entry.status as nat),
            )
            &&& row.status_tone is Danger <==> entry.error is Some || entry.status < 200
                || entry.status >= 500
            &&& row.status_tone is Success <==> entry.error is None && 200 <= entry.status <= 299
            &&& row.status_tone is Warning <==> entry.error is None && 300 <= entry.status <= 499
        }),
{
}

/// A row of the history restores its own entry: the request that comes back is the one of the
/// first entry with the row's id.
pub proof fn law_a_history_row_restores_its_entry(
    view: ApiTestViewModel,
    h: int,
    uses_http_method: bool,
    time: Seq<char>,
    id: Seq<char>,
    new_request: Seq<char>,
    history: Seq<char>,
)
    requires
        0 <= h < view.store.history.len() <= usize::MAX,
        forall|j: int|
            0 <= j < h ==> (#[trigger] view.store.history[j]).id != view.store.history[h].id,
    ensures
        ({
            let entry = view.store.history[h];
            let row = history_row(h as usize, entry, uses_http_method, time);
            let after = view.history_restored(row.restores, id, new_request, history);
            &&& same_content(after.store.requests.last(), entry.request)
            &&& after.store.requests.last().id == id
        }),
{
    let entry = view.store.history[h];
    lemma_position(view.store.history, entry.id);
    law_restoring_brings_the_request_back(view, entry.id, id, new_request, history, h);
}

} // verus!
