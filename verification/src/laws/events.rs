//! What the workbench does with what its widgets report.

use vstd::prelude::*;
use crate::editing::{KvAction, RowPlace, Widget, WidgetEvent, row_places};
use crate::http::Protocol;
use crate::sections::{KvSection, SectionRowsModel, all_sections, law_sections_listed_once};
use crate::view_state::{ApiTestViewModel, Effect};

verus! {

/// What is typed or selected is stored: when an input whose text is stored changes or is left,
/// and when a selection is made. A change of the protocol also lets answers under way come to
/// nothing and ends the connections. The search and the drafts of messages are not stored, and
/// the enter key, without its modifier, sends a draft.
pub proof fn law_events_store_what_was_typed(
    view: ApiTestViewModel,
    event: WidgetEvent,
    protocol: Protocol,
)
    ensures
        event is Change || event is Blur ==> view.after_event(Widget::Stored, event).store
            == view.committed().store,
        event is Focus || event is PressEnter || event is Confirm ==> view.after_event(
            Widget::Stored,
            event,
        ) == view && view.event_effects(Widget::Stored, event).len() == 0,
        view.after_event(Widget::StoredSelect, event).store == view.committed().store,
        view.after_event(Widget::ProtocolSelect, event).store == view.committed().store,
        view.suppress_commit ==> view.after_event(Widget::ProtocolSelect, event) == view,
        !view.suppress_commit ==> {
            let after = view.after_event(Widget::ProtocolSelect, event);
            &&& after.request_generation != view.request_generation
            &&& view.event_effects(Widget::ProtocolSelect, event).contains(
                Effect::CancelConnections,
            )
            &&& view.event_effects(Widget::ProtocolSelect, event).contains(Effect::SaveStore)
            &&& after.inputs == view.inputs
            &&& after.rows == view.rows
            &&& after.selections == view.selections
        },
        view.after_event(Widget::Search, event) == view,
        event is Change ==> view.event_effects(Widget::Search, event).contains(
            Effect::RebuildTree,
        ),
        !(event is Change) ==> view.event_effects(Widget::Search, event).len() == 0,
        view.after_event(Widget::Message(protocol), event) == view,
        event is PressEnter && !event->secondary ==> view.event_effects(
            Widget::Message(protocol),
            event,
        ) == seq![Effect::SendMessage(protocol)],
        !(event is PressEnter) || event->secondary ==> view.event_effects(
            Widget::Message(protocol),
            event,
        ).len() == 0,
        !view.suppress_commit && (event is Change || event is Blur) ==> view.event_effects(
            Widget::Stored,
            event,
        ).contains(Effect::SaveStore),
        !view.suppress_commit ==> view.event_effects(Widget::StoredSelect, event).contains(
            Effect::SaveStore,
        ),
{
    let commit = view.commit_effects();
    let changed = view.protocol_changed();
    if !view.suppress_commit {
        assert(commit[0] == Effect::SaveStore);
        let effects = view.event_effects(Widget::ProtocolSelect, event);
        assert(changed.commit_effects()[0] == Effect::SaveStore);
        assert(effects[0] == Effect::CancelConnections);
        assert(effects[1] == Effect::SaveStore);
        assert(changed.committed().store == view.committed().store);
    }
    if event is Change {
        let effects = view.event_effects(Widget::Search, event);
        assert(effects[0] == Effect::RebuildTree);
    }
}

/// A click in a table is stored and drawn at once, and a new row is watched. Where no file was
/// chosen nothing follows.
pub proof fn law_clicks_in_tables_are_stored(
    view: ApiTestViewModel,
    action: KvAction,
    ticked: bool,
    paths: Seq<Seq<char>>,
)
    ensures
        view.changed_by(action, ticked, paths) is None ==> view.kv_action_effects(
            action,
            ticked,
            paths,
        ).len() == 0,
        view.changed_by(action, ticked, paths) is Some ==> {
            let effects = view.kv_action_effects(action, ticked, paths);
            &&& effects.contains(Effect::Redraw)
            &&& !view.suppress_commit ==> effects.contains(Effect::SaveStore)
            &&& action is Add ==> effects.contains(Effect::WatchNewRow(action->Add_0))
        },
{
    if let Some(changed) = view.changed_by(action, ticked, paths) {
        let effects = view.kv_action_effects(action, ticked, paths);
        let commit = changed.commit_effects();
        let watched: int = if action is Add {
            1
        } else {
            0
        };
        assert(changed.suppress_commit == view.suppress_commit);
        assert(effects[watched + commit.len()] == Effect::Redraw);
        if !view.suppress_commit {
            assert(commit[0] == Effect::SaveStore);
            assert(effects[watched] == Effect::SaveStore);
        }
        if action is Add {
            assert(effects[0] == Effect::WatchNewRow(action->Add_0));
        }
    }
}

/// Every row of every table is watched, and nothing else is.
pub proof fn law_every_row_is_watched(rows: SectionRowsModel, section: KvSection, index: usize)
    requires
        forall|other: KvSection| (#[trigger] rows.get(other)).len() <= usize::MAX,
    ensures
        row_places(rows, all_sections().len()).contains((RowPlace { section, index })) <==> index
            < rows.get(section).len(),
{
    law_sections_listed_once(section);
    let n = choose|n: int| 0 <= n < all_sections().len() && all_sections()[n] == section;
    lemma_places(rows, section, index, all_sections().len(), n);
}

proof fn lemma_places(
    rows: SectionRowsModel,
    section: KvSection,
    index: usize,
    count: nat,
    n: int,
)
    requires
        forall|other: KvSection| (#[trigger] rows.get(other)).len() <= usize::MAX,
        count <= all_sections().len(),
        0 <= n < all_sections().len(),
        all_sections()[n] == section,
        all_sections().no_duplicates(),
    ensures
        row_places(rows, count).contains((RowPlace { section, index })) <==> n < count && index
            < rows.get(section).len(),
    decreases count,
{
    if count > 0 {
        let last = all_sections()[count - 1];
        let before = row_places(rows, (count - 1) as nat);
        let more = Seq::new(
            rows.get(last).len(),
            |i: int| RowPlace { section: last, index: i as usize },
        );
        let all = row_places(rows, count);
        let place = RowPlace { section, index };
        lemma_places(rows, section, index, (count - 1) as nat, n);
        assert(all == before + more);
        assert(rows.get(last).len() <= usize::MAX);
        if before.contains(place) {
            let i = choose|i: int| 0 <= i < before.len() && before[i] == place;
            assert(all[i] == place);
        }
        if n == count - 1 && index < rows.get(section).len() {
            assert(more[index as int] == place);
            assert(all[before.len() + index] == place);
        }
        if all.contains(place) {
            let i = choose|i: int| 0 <= i < all.len() && all[i] == place;
            if i < before.len() {
                assert(before[i] == place);
            } else {
                assert(more[i - before.len()] == place);
                assert(last == section);
                assert(n == count - 1);
            }
        }
    }
}

} // verus!
