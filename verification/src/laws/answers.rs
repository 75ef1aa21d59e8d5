//! What the response pane shows of an answer.

use vstd::prelude::*;
use crate::appearance::{CaptionModel, status_tone_of};
use crate::http::KeyValueModel;
use crate::lookup::position;
use crate::measures::{millis_text, size_text};
use crate::request_store::ResponseExampleModel;
use crate::response_panel::{ExampleCardModel, ReadonlyTableModel, StatusCenterModel, cookie_values};
use crate::tabs::ResponseTab;
use crate::text::{ascii_lower, decimal_text, trimmed};
use crate::view_state::ApiTestViewModel;

verus! {

/// Whether a header has the name of those that set a cookie, in capital or small letters.
pub open spec fn named_set_cookie(header: KeyValueModel) -> bool {
    &&& header.key.len() == "set-cookie"@.len()
    &&& forall|i: int|
        0 <= i < header.key.len() ==> ascii_lower(#[trigger] header.key[i]) == ascii_lower(
            "set-cookie"@[i],
        )
}

/// Whether the values are those of the headers at the indices `from`, which grow, and these
/// are all that set a cookie.
pub open spec fn lists_cookies(
    values: Seq<Seq<char>>,
    headers: Seq<KeyValueModel>,
    from: Seq<int>,
) -> bool {
    &&& from.len() == values.len()
    &&& forall|i: int|
        0 <= i < from.len() ==> 0 <= #[trigger] from[i] < headers.len() && named_set_cookie(
            headers[from[i]],
        ) && values[i] == headers[from[i]].value
    &&& forall|i: int, j: int| 0 <= i < j < from.len() ==> #[trigger] from[i] < #[trigger] from[j]
    &&& forall|k: int|
        0 <= k < headers.len() && named_set_cookie(#[trigger] headers[k]) ==> from.contains(k)
}

/// The cookies of an answer are the values of all headers that set one, in their order.
pub proof fn law_cookies_of_an_answer(headers: Seq<KeyValueModel>) -> (from: Seq<int>)
    ensures
        lists_cookies(cookie_values(headers), headers, from),
    decreases headers.len(),
{
    if headers.len() == 0 {
        Seq::empty()
    } else {
        let fewer = headers.drop_last();
        let last = headers.len() - 1;
        let some = law_cookies_of_an_answer(fewer);
        let values = cookie_values(headers);
        let before = cookie_values(fewer);
        assert(headers.last() == headers[last]);
        let from = if named_set_cookie(headers[last]) {
            some.push(last)
        } else {
            some
        };
        assert forall|i: int| 0 <= i < from.len() implies 0 <= #[trigger] from[i] < headers.len()
            && named_set_cookie(headers[from[i]]) && values[i] == headers[from[i]].value by {
            if i < some.len() {
                assert(from[i] == some[i]);
                assert(fewer[some[i]] == headers[some[i]]);
                assert(values[i] == before[i]);
            }
        }
        assert forall|i: int, j: int| 0 <= i < j < from.len() implies #[trigger] from[i]
            < #[trigger] from[j] by {
            assert(from[i] == some[i]);
            if j < some.len() {
                assert(from[j] == some[j]);
            }
        }
        assert forall|k: int| 0 <= k < headers.len() && named_set_cookie(
            #[trigger] headers[k],
        ) implies from.contains(k) by {
            if k < last {
                assert(fewer[k] == headers[k]);
                assert(some.contains(k));
                let i = choose|i: int| 0 <= i < some.len() && some[i] == k;
                assert(from[i] == k);
            } else {
                assert(from[some.len() as int] == k);
            }
        }
        from
    }
}

/// How a status is coloured: as a danger for an error, for a status below 200 and for one from
/// 500 on; as a success from 200 to 299; as a warning between.
pub proof fn law_colour_of_a_status(failed: bool, status: u16)
    ensures
        status_tone_of(failed, status) is Danger <==> failed || status < 200 || status >= 500,
        status_tone_of(failed, status) is Success <==> !failed && 200 <= status <= 299,
        status_tone_of(failed, status) is Warning <==> !failed && 300 <= status <= 499,
{
}

/// How an answer is presented: as progress while one is awaited, as neutral before any came,
/// and else by its error and its status.
pub proof fn law_presentation_of_an_answer(view: ApiTestViewModel, streaming: bool)
    ensures
        view.presentation(streaming) is Progress <==> view.sending || streaming,
        view.presentation(streaming) is Neutral <==> !view.sending && !streaming
            && view.response is None,
        !view.sending && !streaming && view.response is Some ==> {
            let response = view.response->0;
            let failed = response.error is Some;
            &&& view.presentation(streaming) is Success <==> !failed && 200 <= response.status
                <= 299
            &&& view.presentation(streaming) is Warning <==> !failed && 300 <= response.status
                <= 499
            &&& view.presentation(streaming) is Error <==> failed || response.status == 0
                || response.status >= 500 || response.status < 200
        },
{
}

/// Whether a text is that of a status: its number, and behind it the text that came with it,
/// where that is not blank.
pub open spec fn names_status(label: Seq<char>, status: u16, text: Seq<char>) -> bool {
    &&& trimmed(text).len() == 0 ==> label == decimal_text(status as nat)
    &&& trimmed(text).len() > 0 ==> label == decimal_text(status as nat) + " "@ + text
}

/// What the status bar says. It is there as soon as something is sent. It names the status of
/// the answer, the error where there is one, how long the answer took, its size, and how the
/// tests went.
pub proof fn law_status_bar_names_the_answer(view: ApiTestViewModel, streaming: bool)
    ensures
        view.status_bar(streaming) is Some <==> view.sending || streaming || view.response
            is Some,
        view.status_bar(streaming) is Some ==> {
            let bar = view.status_bar(streaming)->0;
            &&& bar.presentation == view.presentation(streaming)
            &&& view.sending && !streaming ==> bar.leading is Sending
            &&& view.response is None ==> bar.metrics is None && !(bar.center is Error)
            &&& view.response is None && (!view.sending || streaming) ==> bar.leading is Blank
            &&& view.response is Some ==> {
                let response = view.response->0;
                &&& bar.metrics is Some
                &&& bar.metrics->0.duration == millis_text(response.time_ms)
                &&& bar.metrics->0.size == size_text(response.size)
                &&& view.test_result is None ==> bar.metrics->0.passed is None
                    && bar.metrics->0.failed is None
                &&& view.test_result is Some ==> bar.metrics->0.passed == Some(
                    view.test_result->0.assertions_passed,
                ) && bar.metrics->0.failed == Some(view.test_result->0.assertions_failed)
                &&& response.error is Some ==> bar.center == StatusCenterModel::Error(
                    response.error->0,
                )
                &&& response.error is None && (streaming || response.streaming)
                    ==> bar.center is Streaming
                &&& response.error is None && !streaming && !response.streaming
                    ==> bar.center is Blank
                &&& !view.sending || streaming ==> {
                    &&& bar.leading is Status
                    &&& response.status == 0 ==> bar.leading->label == "—"@
                    &&& response.status != 0 ==> names_status(
                        bar.leading->label,
                        response.status,
                        response.status_text,
                    )
                    &&& bar.leading->tone is Danger <==> response.error is Some
                        || response.status < 200 || response.status >= 500
                    &&& bar.leading->tone is Success <==> response.error is None && 200
                        <= response.status <= 299
                }
            }
        },
{
}

/// Whether a table that is only read shows the entries, one row for each in their order, each
/// with a button that copies it as one line.
pub open spec fn reads(table: ReadonlyTableModel, entries: Seq<KeyValueModel>) -> bool {
    &&& entries.len() == 0 ==> table is Empty
    &&& entries.len() > 0 ==> {
        &&& table is Rows
        &&& table->rows.len() == entries.len()
        &&& forall|i: int|
            0 <= i < entries.len() ==> {
                let row = #[trigger] table->rows[i];
                &&& row.key == entries[i].key
                &&& row.value == entries[i].value
                &&& row.copy_text == entries[i].key + ": "@ + entries[i].value
            }
    }
}

/// What each tab of the response pane shows. The kept examples are shown at any time. While an
/// answer is awaited, the other tabs say so, and before anything was sent they say that. Else
/// the body is shown as formatted or as it came, and the headers, the cookies, the request as
/// it was sent and the output of the scripts as they are.
pub proof fn law_tabs_show_the_answer(
    view: ApiTestViewModel,
    streaming: bool,
    cookies: Seq<KeyValueModel>,
    console: Seq<char>,
)
    ensures
        ({
            let content = view.response_content(streaming, cookies, console);
            let tab = view.active_response_tab;
            let awaited = view.sending && !streaming;
            let nothing = view.response is None && view.prepared_request is None
                && view.pre_result is None;
            &&& tab is Example <==> content is Examples
            &&& tab is Example ==> content->Examples_0 == view.examples()
            &&& !(tab is Example) && awaited ==> content is Loading
            &&& !(tab is Example) && !awaited && nothing ==> content is NoResponse
            &&& !awaited && !nothing ==> {
                &&& tab is Headers ==> content is Table
                &&& tab is Headers && view.response is Some ==> reads(
                    content->Table_0,
                    view.response->0.headers,
                )
                &&& tab is Headers && view.response is None ==> content->Table_0 is Empty
                &&& tab is Cookies ==> content is Table && reads(content->Table_0, cookies)
                &&& tab is ActualRequest ==> content is Text && content->Text_0.copy_text
                    == if view.prepared_request is Some {
                    view.prepared_request->0.actual_request
                } else {
                    Seq::empty()
                }
                &&& tab is Curl ==> content is Text && content->Text_0.copy_text
                    == if view.prepared_request is Some {
                    view.prepared_request->0.curl
                } else {
                    Seq::empty()
                }
                &&& tab is Console ==> content is Text && content->Text_0.copy_text == console
                &&& tab is ActualRequest || tab is Curl || tab is Console ==> {
                    let text = content->Text_0.copy_text;
                    &&& content->Text_0.is_empty <==> trimmed(text).len() == 0
                    &&& trimmed(text).len() > 0 ==> content->Text_0.shown == CaptionModel::Text(
                        text,
                    )
                    &&& trimmed(text).len() == 0 ==> content->Text_0.shown is Message
                }
                &&& tab is Body ==> content is Body && content->pretty == view.response_pretty
                &&& tab is Body && view.response is Some && view.response_pretty ==> content->text
                    == view.response->0.body
                &&& tab is Body && view.response is Some && !view.response_pretty ==> content->text
                    == view.response->0.raw_body
                &&& tab is Body && view.response is None ==> content->text.len() == 0
            }
        }),
{
}

/// Whether a card shows a kept answer: in the colour of a success or of a failure, with its
/// status, or as an error where it has none, the time where it is known, and its body.
pub open spec fn shows_example(
    card: ExampleCardModel,
    example: ResponseExampleModel,
    success: bool,
) -> bool {
    &&& card.tone is Success <==> success
    &&& card.tone is Danger <==> !success
    &&& card.body == example.body
    &&& example.status == 0 ==> card.status is Message
    &&& example.status != 0 ==> card.status is Text && names_status(
        card.status->Text_0,
        example.status,
        example.status_text,
    )
    &&& trimmed(example.saved_at).len() == 0 ==> card.saved_at is None
    &&& trimmed(example.saved_at).len() > 0 ==> card.saved_at == Some(example.saved_at)
}

/// The kept answers that are shown are those of the open request: the success, where there is
/// one, and each failure in their order. Where there is none, or no request is open, two texts
/// say so.
pub proof fn law_examples_are_those_of_the_request(view: ApiTestViewModel, k: int)
    ensures
        view.active_request_id is None ==> view.examples().success is None
            && view.examples().failures.len() == 0 && view.examples().empty.len() == 2,
        view.active_request_id is Some && position(view.store.requests, view.active_request_id->0)
            == Some(k) ==> {
            let request = view.store.requests[k];
            let pane = view.examples();
            &&& pane.success is Some <==> request.success_example is Some
            &&& pane.success is Some ==> shows_example(
                pane.success->0,
                request.success_example->0,
                true,
            )
            &&& pane.failures.len() == request.fail_examples.len()
            &&& forall|i: int|
                0 <= i < pane.failures.len() ==> shows_example(
                    #[trigger] pane.failures[i],
                    request.fail_examples[i],
                    false,
                )
            &&& pane.empty.len() > 0 <==> request.success_example is None
                && request.fail_examples.len() == 0
        },
{
}

/// The tab of the headers counts the headers of the answer, and that of the cookies those that
/// set one; no other tab counts anything.
pub proof fn law_tabs_count_what_they_show(view: ApiTestViewModel)
    ensures
        view.response is Some ==> view.response_tab(ResponseTab::Headers).count == Some(
            view.response->0.headers.len() as usize,
        ),
        view.response is Some ==> view.response_tab(ResponseTab::Cookies).count == Some(
            cookie_values(view.response->0.headers).len() as usize,
        ),
        view.response is None ==> view.response_tab(ResponseTab::Headers).count == Some(0usize),
        view.response is None ==> view.response_tab(ResponseTab::Cookies).count == Some(0usize),
        view.response_tab(ResponseTab::Body).count is None,
        view.response_tab(ResponseTab::ActualRequest).count is None,
        view.response_tab(ResponseTab::Curl).count is None,
        view.response_tab(ResponseTab::Console).count is None,
        view.response_tab(ResponseTab::Example).count is None,
{
}

} // verus!
