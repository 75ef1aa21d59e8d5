//! What the response pane shows.

use vstd::prelude::*;
use crate::appearance::{Caption, CaptionModel, Tone, status_tone, status_tone_of};
use crate::editor_panel::Connections;
use crate::http::{HttpResponse, HttpResponseModel, KeyValue, KeyValueModel, Protocol};
use crate::labels::{Label, LabelModel};
use crate::lookup::find;
use crate::measures::{format_millis, format_size, millis_text, size_text};
use crate::request_store::{ResponseExample, ResponseExampleModel};
use crate::tabs::{ResponseTab, all_response_tabs, response_tabs};
use crate::text::{
    decimal, decimal_text, eq_ignore_ascii_case, equal_ignoring_case, is_blank, join, join3,
    lemma_decimal_injective, trimmed,
};
use crate::view_state::{ApiTestView, ApiTestViewModel};
use crate::widgets::{Button, ButtonAction, ButtonModel, labelled};

verus! {

/// A row of a table that is only read, with a button that copies it.
#[derive(Debug)]
pub struct ReadonlyRow {
    pub key: String,
    pub value: String,
    pub copy_id: String,
    pub copy_text: String,
}

/// Model of [`ReadonlyRow`].
#[verifier::ext_equal]
pub struct ReadonlyRowModel {
    pub key: Seq<char>,
    pub value: Seq<char>,
    pub copy_id: Seq<char>,
    pub copy_text: Seq<char>,
}

impl DeepView for ReadonlyRow {
    type V = ReadonlyRowModel;

    open spec fn deep_view(&self) -> ReadonlyRowModel {
        ReadonlyRowModel {
            key: self.key@,
            value: self.value@,
            copy_id: self.copy_id@,
            copy_text: self.copy_text@,
        }
    }
}

/// A table that is only read.
#[derive(Debug)]
pub enum ReadonlyTable {
    /// What is shown where there are no rows.
    Empty(Label),
    /// The rows, and the element ids of what is around them.
    Rows {
        scroll_id: String,
        scrollbar_id: String,
        key_title: Label,
        value_title: Label,
        rows: Vec<ReadonlyRow>,
    },
}

/// Model of [`ReadonlyTable`].
#[verifier::ext_equal]
pub enum ReadonlyTableModel {
    Empty(LabelModel),
    Rows {
        scroll_id: Seq<char>,
        scrollbar_id: Seq<char>,
        key_title: LabelModel,
        value_title: LabelModel,
        rows: Seq<ReadonlyRowModel>,
    },
}

impl DeepView for ReadonlyTable {
    type V = ReadonlyTableModel;

    open spec fn deep_view(&self) -> ReadonlyTableModel {
        match self {
            ReadonlyTable::Empty(x) => ReadonlyTableModel::Empty(x.deep_view()),
            ReadonlyTable::Rows {
                scroll_id,
                scrollbar_id,
                key_title,
                value_title,
                rows,
            } => ReadonlyTableModel::Rows {
                scroll_id: scroll_id@,
                scrollbar_id: scrollbar_id@,
                key_title: key_title.deep_view(),
                value_title: value_title.deep_view(),
                rows: rows.deep_view(),
            },
        }
    }
}

/// A row as it is shown: the button copies key and value as one line.
pub open spec fn readonly_row(row: KeyValueModel, prefix: Seq<char>, index: int) -> ReadonlyRowModel {
    ReadonlyRowModel {
        key: row.key,
        value: row.value,
        copy_id: prefix + "-"@ + decimal_text(index as nat),
        copy_text: row.key + ": "@ + row.value,
    }
}

/// Rows as a table that is only read. The element ids start with the prefix.
pub open spec fn readonly_table(
    rows: Seq<KeyValueModel>,
    empty: LabelModel,
    prefix: Seq<char>,
) -> ReadonlyTableModel {
    if rows.len() == 0 {
        ReadonlyTableModel::Empty(empty)
    } else {
        ReadonlyTableModel::Rows {
            scroll_id: prefix + "-scroll-view"@,
            scrollbar_id: prefix + "-scrollbar"@,
            key_title: LabelModel::Message("ApiTest.key"@),
            value_title: LabelModel::Message("ApiTest.value"@),
            rows: Seq::new(rows.len(), |i: int| readonly_row(rows[i], prefix, i)),
        }
    }
}

/// Rows as a table that is only read.
pub fn render_readonly_kv(rows: &Vec<KeyValue>, empty: Label, prefix: &str) -> (r: ReadonlyTable)
    ensures
        r.deep_view() == readonly_table(rows.deep_view(), empty.deep_view(), prefix@),
{
    if rows.len() == 0 {
        return ReadonlyTable::Empty(empty);
    }
    let ghost all = rows.deep_view();
    let ghost model = Seq::new(all.len(), |i: int| readonly_row(all[i], prefix@, i));
    let mut shown: Vec<ReadonlyRow> = Vec::new();
    let mut i: usize = 0;
    while i < rows.len()
        invariant
            all == rows.deep_view(),
            model == Seq::new(all.len(), |i: int| readonly_row(all[i], prefix@, i)),
            i <= rows.len(),
            shown.len() == i,
            forall|k: int| 0 <= k < i ==> (#[trigger] shown@[k]).deep_view() == model[k],
        decreases rows.len() - i,
    {
        let row = &rows[i];
        assert(all[i as int] == row.deep_view());
        let index = decimal(i as u128);
        shown.push(
            ReadonlyRow {
                key: row.key.clone(),
                value: row.value.clone(),
                copy_id: join3(prefix, "-", index.as_str()),
                copy_text: join3(row.key.as_str(), ": ", row.value.as_str()),
            },
        );
        i = i + 1;
    }
    assert(shown.deep_view() =~= model);
    ReadonlyTable::Rows {
        scroll_id: join(prefix, "-scroll-view"),
        scrollbar_id: join(prefix, "-scrollbar"),
        key_title: Label::Message("ApiTest.key"),
        value_title: Label::Message("ApiTest.value"),
        rows: shown,
    }
}

/// Whether a header sets a cookie.
pub open spec fn sets_cookie(header: KeyValueModel) -> bool {
    equal_ignoring_case(header.key, "set-cookie"@)
}

/// The values of the headers that set a cookie, in order.
pub open spec fn cookie_values(headers: Seq<KeyValueModel>) -> Seq<Seq<char>>
    decreases headers.len(),
{
    if headers.len() == 0 {
        Seq::empty()
    } else if sets_cookie(headers.last()) {
        cookie_values(headers.drop_last()).push(headers.last().value)
    } else {
        cookie_values(headers.drop_last())
    }
}

/// The values of the headers that set a cookie, in order.
pub fn set_cookie_values(headers: &Vec<KeyValue>) -> (r: Vec<String>)
    ensures
        r.deep_view() == cookie_values(headers.deep_view()),
{
    let ghost all = headers.deep_view();
    let mut r: Vec<String> = Vec::new();
    let mut i: usize = 0;
    assert(all.take(0) =~= Seq::<KeyValueModel>::empty());
    assert(r.deep_view() =~= cookie_values(all.take(0)));
    while i < headers.len()
        invariant
            all == headers.deep_view(),
            i <= headers.len(),
            r.deep_view() == cookie_values(all.take(i as int)),
        decreases headers.len() - i,
    {
        let header = &headers[i];
        let ghost held = r.deep_view();
        assert(all[i as int] == header.deep_view());
        assert(all.take(i + 1).drop_last() =~= all.take(i as int));
        assert(all.take(i + 1).last() == header.deep_view());
        if eq_ignore_ascii_case(header.key.as_str(), "set-cookie") {
            r.push(header.value.clone());
            assert(r.deep_view() =~= held.push(header.value@));
        }
        i = i + 1;
    }
    assert(all.take(all.len() as int) =~= all);
    r
}

/// Whether `pair` makes the row of a cookie out of the value that sets it.
pub open spec fn makes_cookie<F: Fn(&str) -> KeyValue>(
    pair: F,
    value: Seq<char>,
    cookie: KeyValueModel,
) -> bool {
    exists|text: &str, row: KeyValue|
        #[trigger] call_ensures(pair, (text,), row) && text@ == value && row.deep_view() == cookie
}

/// Whether the rows of cookies are those that `pair` makes out of the values that set them,
/// one for each and in their order.
pub open spec fn makes_cookies<F: Fn(&str) -> KeyValue>(
    pair: F,
    values: Seq<Seq<char>>,
    cookies: Seq<KeyValueModel>,
) -> bool {
    &&& cookies.len() == values.len()
    &&& forall|i: int|
        0 <= i < values.len() ==> makes_cookie(pair, #[trigger] values[i], cookies[i])
}

/// The rows of cookies: what `pair` makes out of each value that sets one.
pub fn cookie_rows<F: Fn(&str) -> KeyValue>(values: &Vec<String>, pair: &F) -> (r: Vec<KeyValue>)
    requires
        forall|text: &str| #[trigger] call_requires(*pair, (text,)),
    ensures
        makes_cookies(*pair, values.deep_view(), r.deep_view()),
{
    let ghost all = values.deep_view();
    let mut r: Vec<KeyValue> = Vec::new();
    let mut i: usize = 0;
    while i < values.len()
        invariant
            forall|text: &str| #[trigger] call_requires(*pair, (text,)),
            all == values.deep_view(),
            i <= values.len(),
            r.len() == i,
            forall|k: int| 0 <= k < i ==> makes_cookie(*pair, #[trigger] all[k], r.deep_view()[k]),
        decreases values.len() - i,
    {
        let ghost held = r.deep_view();
        assert(all[i as int] == values@[i as int]@);
        let row = pair(values[i].as_str());
        assert(makes_cookie(*pair, all[i as int], row.deep_view()));
        r.push(row);
        assert(r.deep_view() =~= held.push(row.deep_view()));
        i = i + 1;
    }
    r
}

/// A kept response.
#[derive(Debug)]
pub struct ExampleCard {
    pub tone: Tone,
    pub status: Caption,
    pub saved_at: Option<String>,
    pub body: String,
    pub copy_id: String,
}

/// Model of [`ExampleCard`].
#[verifier::ext_equal]
pub struct ExampleCardModel {
    pub tone: Tone,
    pub status: CaptionModel,
    pub saved_at: Option<Seq<char>>,
    pub body: Seq<char>,
    pub copy_id: Seq<char>,
}

impl DeepView for ExampleCard {
    type V = ExampleCardModel;

    open spec fn deep_view(&self) -> ExampleCardModel {
        ExampleCardModel {
            tone: self.tone,
            status: self.status.deep_view(),
            saved_at: self.saved_at.deep_view(),
            body: self.body@,
            copy_id: self.copy_id@,
        }
    }
}

/// The kept responses of the open request. Where there are none, a hint is shown.
#[derive(Debug)]
pub struct ExamplesPane {
    pub empty: Vec<Label>,
    pub success_title: Option<Label>,
    pub success: Option<ExampleCard>,
    pub failures_title: Option<Label>,
    pub failures: Vec<ExampleCard>,
}

/// Model of [`ExamplesPane`].
#[verifier::ext_equal]
pub struct ExamplesPaneModel {
    pub empty: Seq<LabelModel>,
    pub success_title: Option<LabelModel>,
    pub success: Option<ExampleCardModel>,
    pub failures_title: Option<LabelModel>,
    pub failures: Seq<ExampleCardModel>,
}

impl DeepView for ExamplesPane {
    type V = ExamplesPaneModel;

    open spec fn deep_view(&self) -> ExamplesPaneModel {
        ExamplesPaneModel {
            empty: self.empty.deep_view(),
            success_title: self.success_title.deep_view(),
            success: self.success.deep_view(),
            failures_title: self.failures_title.deep_view(),
            failures: self.failures.deep_view(),
        }
    }
}

/// The kept responses under their titles. Where there are none, two texts say so.
pub open spec fn examples_pane(
    success: Option<ExampleCardModel>,
    failures: Seq<ExampleCardModel>,
) -> ExamplesPaneModel {
    ExamplesPaneModel {
        empty: if success is None && failures.len() == 0 {
            seq![
                LabelModel::Message("ApiTest.response_example_empty"@),
                LabelModel::Message("ApiTest.response_example_autosave_hint"@),
            ]
        } else {
            Seq::empty()
        },
        success_title: if success is Some {
            Some(LabelModel::Message("ApiTest.response_example_success"@))
        } else {
            None
        },
        success,
        failures_title: if failures.len() > 0 {
            Some(LabelModel::Message("ApiTest.response_example_failures"@))
        } else {
            None
        },
        failures,
    }
}

fn show_examples(success: Option<ExampleCard>, failures: Vec<ExampleCard>) -> (r: ExamplesPane)
    ensures
        r.deep_view() == examples_pane(success.deep_view(), failures.deep_view()),
{
    let empty = if success.is_none() && failures.len() == 0 {
        vec![
            Label::Message("ApiTest.response_example_empty"),
            Label::Message("ApiTest.response_example_autosave_hint"),
        ]
    } else {
        Vec::new()
    };
    assert(empty.deep_view() =~= examples_pane(success.deep_view(), failures.deep_view()).empty);
    ExamplesPane {
        empty,
        success_title: if success.is_some() {
            Some(Label::Message("ApiTest.response_example_success"))
        } else {
            None
        },
        success,
        failures_title: if failures.len() > 0 {
            Some(Label::Message("ApiTest.response_example_failures"))
        } else {
            None
        },
        failures,
    }
}

/// A status as text: its number, with its text behind it where it has one.
pub open spec fn status_label(status: u16, text: Seq<char>) -> Seq<char> {
    if trimmed(text).len() == 0 {
        decimal_text(status as nat)
    } else {
        decimal_text(status as nat) + " "@ + text
    }
}

fn label_status(status: u16, text: &str) -> (r: String)
    ensures
        r@ == status_label(status, text@),
{
    let number = decimal(status as u128);
    if is_blank(text) {
        number
    } else {
        join3(number.as_str(), " ", text)
    }
}

/// A kept response as it is shown. A status of zero is an error; the time is shown where
/// it is known.
pub open spec fn example_card(
    example: ResponseExampleModel,
    success: bool,
    copy_id: Seq<char>,
) -> ExampleCardModel {
    ExampleCardModel {
        tone: if success {
            Tone::Success
        } else {
            Tone::Danger
        },
        status: if example.status == 0 {
            CaptionModel::Message("ApiTest.error"@)
        } else {
            CaptionModel::Text(status_label(example.status, example.status_text))
        },
        saved_at: if trimmed(example.saved_at).len() == 0 {
            None
        } else {
            Some(example.saved_at)
        },
        body: example.body,
        copy_id,
    }
}

/// A kept response as it is shown.
pub fn render_response_example_card(example: &ResponseExample, success: bool, copy_id: String) -> (r:
    ExampleCard)
    ensures
        r.deep_view() == example_card(example.deep_view(), success, copy_id@),
{
    ExampleCard {
        tone: if success {
            Tone::Success
        } else {
            Tone::Danger
        },
        status: if example.status == 0 {
            Caption::Message("ApiTest.error")
        } else {
            Caption::Text(label_status(example.status, example.status_text.as_str()))
        },
        saved_at: if is_blank(example.saved_at.as_str()) {
            None
        } else {
            Some(example.saved_at.clone())
        },
        body: example.body.clone(),
        copy_id,
    }
}

impl ApiTestViewModel {
    /// The kept responses of the open request.
    pub open spec fn examples(self) -> ExamplesPaneModel {
        match self.active_request() {
            Some(request) => examples_pane(
                match request.success_example {
                    Some(example) => Some(
                        example_card(example, true, "api-copy-success-example"@),
                    ),
                    None => None,
                },
                Seq::new(
                    request.fail_examples.len(),
                    |i: int|
                        example_card(
                            request.fail_examples[i],
                            false,
                            "api-copy-failure-example-"@ + decimal_text(i as nat),
                        ),
                ),
            ),
            None => examples_pane(None, Seq::empty()),
        }
    }
}

impl ApiTestView {
    /// The kept responses of the open request.
    pub fn render_response_examples(&self) -> (r: ExamplesPane)
        ensures
            r.deep_view() == self.deep_view().examples(),
    {
        let mut failures: Vec<ExampleCard> = Vec::new();
        let found = match &self.active_request_id {
            Some(id) => find(&self.store.requests, id.as_str()),
            None => None,
        };
        let index = match found {
            Some(index) => index,
            None => {
                assert(failures.deep_view() =~= Seq::empty());
                return show_examples(None, failures);
            },
        };
        let request = &self.store.requests[index];
        assert(self.store.requests.deep_view()[index as int] == request.deep_view());
        let ghost all = request.fail_examples.deep_view();
        let ghost model = self.deep_view().examples().failures;
        let mut i: usize = 0;
        while i < request.fail_examples.len()
            invariant
                all == request.fail_examples.deep_view(),
                model.len() == all.len(),
                forall|k: int|
                    0 <= k < all.len() ==> (#[trigger] model[k]) == example_card(
                        all[k],
                        false,
                        "api-copy-failure-example-"@ + decimal_text(k as nat),
                    ),
                i <= request.fail_examples.len(),
                failures.len() == i,
                forall|k: int| 0 <= k < i ==> (#[trigger] failures@[k]).deep_view() == model[k],
            decreases request.fail_examples.len() - i,
        {
            assert(all[i as int] == request.fail_examples@[i as int].deep_view());
            let number = decimal(i as u128);
            let copy_id = join("api-copy-failure-example-", number.as_str());
            failures.push(
                render_response_example_card(&request.fail_examples[i], false, copy_id),
            );
            i = i + 1;
        }
        assert(failures.deep_view() =~= model);
        let success = match &request.success_example {
            Some(example) => Some(
                render_response_example_card(
                    example,
                    true,
                    "api-copy-success-example".to_owned(),
                ),
            ),
            None => None,
        };
        show_examples(success, failures)
    }
}

/// A tab of the response pane: its element id, its title, and the number behind it.
#[derive(Debug)]
pub struct ResponseTabView {
    pub element_id: Label,
    pub title: Label,
    pub count: Option<usize>,
}

/// Model of [`ResponseTabView`].
#[verifier::ext_equal]
pub struct ResponseTabViewModel {
    pub element_id: LabelModel,
    pub title: LabelModel,
    pub count: Option<usize>,
}

impl DeepView for ResponseTabView {
    type V = ResponseTabViewModel;

    open spec fn deep_view(&self) -> ResponseTabViewModel {
        ResponseTabViewModel {
            element_id: self.element_id.deep_view(),
            title: self.title.deep_view(),
            count: self.count,
        }
    }
}

impl ApiTestViewModel {
    /// The headers of the last response.
    pub open spec fn response_headers(self) -> Seq<KeyValueModel> {
        match self.response {
            Some(response) => response.headers,
            None => Seq::empty(),
        }
    }

    /// The tabs of the response pane, in their order.
    pub open spec fn response_tab_views(self) -> Seq<ResponseTabViewModel> {
        Seq::new(all_response_tabs().len(), |i: int| self.response_tab(all_response_tabs()[i]))
    }

    /// A tab of the response pane. Those of headers and cookies show how many there are.
    pub open spec fn response_tab(self, tab: ResponseTab) -> ResponseTabViewModel {
        ResponseTabViewModel {
            element_id: LabelModel::Literal(tab.id_text()),
            title: tab.title_label(),
            count: match tab {
                ResponseTab::Headers => Some(self.response_headers().len() as usize),
                ResponseTab::Cookies => Some(
                    cookie_values(self.response_headers()).len() as usize,
                ),
                _ => None,
            },
        }
    }
}

impl ApiTestView {
    /// The values of the headers of the last response that set a cookie.
    pub fn response_cookie_values(&self) -> (r: Vec<String>)
        ensures
            r.deep_view() == cookie_values(self.deep_view().response_headers()),
    {
        match &self.response {
            Some(response) => set_cookie_values(&response.headers),
            None => {
                let none: Vec<String> = Vec::new();
                assert(none.deep_view() =~= Seq::<Seq<char>>::empty());
                none
            },
        }
    }

    /// The tabs of the response pane, and the place of the active one.
    pub fn render_response_tabs(&self) -> (r: (Vec<ResponseTabView>, usize))
        ensures
            r.0.deep_view() == self.deep_view().response_tab_views(),
            r.1 == self.deep_view().active_response_tab.place(),
    {
        let header_count: usize = match &self.response {
            Some(response) => response.headers.len(),
            None => 0,
        };
        let cookie_count: usize = self.response_cookie_values().len();
        let tabs = response_tabs();
        let ghost model = self.deep_view().response_tab_views();
        let mut views: Vec<ResponseTabView> = Vec::new();
        let mut i: usize = 0;
        while i < tabs.len()
            invariant
                tabs@ == all_response_tabs(),
                header_count == self.deep_view().response_headers().len(),
                cookie_count == cookie_values(self.deep_view().response_headers()).len(),
                model == self.deep_view().response_tab_views(),
                i <= tabs.len(),
                views.len() == i,
                forall|k: int| 0 <= k < i ==> (#[trigger] views@[k]).deep_view() == model[k],
            decreases tabs.len() - i,
        {
            let tab = tabs[i];
            views.push(
                ResponseTabView {
                    element_id: Label::Literal(tab.element_id()),
                    title: tab.title(),
                    count: match tab {
                        ResponseTab::Headers => Some(header_count),
                        ResponseTab::Cookies => Some(cookie_count),
                        _ => None,
                    },
                },
            );
            i = i + 1;
        }
        assert(views.deep_view() =~= model);
        (views, self.active_response_tab.index())
    }
}

/// How the last response is presented as a whole.
#[derive(Clone, Copy, PartialEq, Eq, Structural, Debug)]
pub enum Presentation {
    Neutral,
    Progress,
    Success,
    Warning,
    Error,
}

/// What the status bar begins with.
#[derive(Debug)]
pub enum StatusLeading {
    /// That a request is being sent.
    Sending,
    /// The status of the response.
    Status { tone: Tone, label: String },
    /// Nothing.
    Blank,
}

/// Model of [`StatusLeading`].
#[verifier::ext_equal]
pub enum StatusLeadingModel {
    Sending,
    Status { tone: Tone, label: Seq<char> },
    Blank,
}

impl DeepView for StatusLeading {
    type V = StatusLeadingModel;

    open spec fn deep_view(&self) -> StatusLeadingModel {
        match self {
            StatusLeading::Sending => StatusLeadingModel::Sending,
            StatusLeading::Status { tone, label } => StatusLeadingModel::Status {
                tone: *tone,
                label: label@,
            },
            StatusLeading::Blank => StatusLeadingModel::Blank,
        }
    }
}

/// What stands in the middle of the status bar.
#[derive(Debug)]
pub enum StatusCenter {
    /// The error of the response.
    Error(String),
    /// That a stream is read.
    Streaming,
    /// Nothing.
    Blank,
}

/// Model of [`StatusCenter`].
#[verifier::ext_equal]
pub enum StatusCenterModel {
    Error(Seq<char>),
    Streaming,
    Blank,
}

impl DeepView for StatusCenter {
    type V = StatusCenterModel;

    open spec fn deep_view(&self) -> StatusCenterModel {
        match self {
            StatusCenter::Error(x) => StatusCenterModel::Error(x@),
            StatusCenter::Streaming => StatusCenterModel::Streaming,
            StatusCenter::Blank => StatusCenterModel::Blank,
        }
    }
}

/// How long the response took, its size, and how many assertions passed and failed.
#[derive(Debug)]
pub struct ResponseMetrics {
    pub duration: String,
    pub size: String,
    pub passed: Option<u64>,
    pub failed: Option<u64>,
}

/// Model of [`ResponseMetrics`].
#[verifier::ext_equal]
pub struct ResponseMetricsModel {
    pub duration: Seq<char>,
    pub size: Seq<char>,
    pub passed: Option<u64>,
    pub failed: Option<u64>,
}

impl DeepView for ResponseMetrics {
    type V = ResponseMetricsModel;

    open spec fn deep_view(&self) -> ResponseMetricsModel {
        ResponseMetricsModel {
            duration: self.duration@,
            size: self.size@,
            passed: self.passed,
            failed: self.failed,
        }
    }
}

/// The status bar of the response pane.
#[derive(Debug)]
pub struct ResponseStatusBar {
    pub presentation: Presentation,
    pub leading: StatusLeading,
    pub center: StatusCenter,
    pub metrics: Option<ResponseMetrics>,
}

/// Model of [`ResponseStatusBar`].
#[verifier::ext_equal]
pub struct ResponseStatusBarModel {
    pub presentation: Presentation,
    pub leading: StatusLeadingModel,
    pub center: StatusCenterModel,
    pub metrics: Option<ResponseMetricsModel>,
}

impl DeepView for ResponseStatusBar {
    type V = ResponseStatusBarModel;

    open spec fn deep_view(&self) -> ResponseStatusBarModel {
        ResponseStatusBarModel {
            presentation: self.presentation,
            leading: self.leading.deep_view(),
            center: self.center.deep_view(),
            metrics: self.metrics.deep_view(),
        }
    }
}

/// The status of a response as text; a dash where there is none.
pub open spec fn response_label(response: HttpResponseModel) -> Seq<char> {
    if response.status == 0 {
        "—"@
    } else {
        status_label(response.status, response.status_text)
    }
}

/// The status of a response: its colour and its text.
pub fn response_status_tag(response: &HttpResponse) -> (r: (Tone, String))
    ensures
        r.0 == status_tone_of(response.error.deep_view() is Some, response.status),
        r.1@ == response_label(response.deep_view()),
{
    let tone = status_tone(response.error.is_some(), response.status);
    let label = if response.status == 0 {
        "—".to_owned()
    } else {
        label_status(response.status, response.status_text.as_str())
    };
    (tone, label)
}

impl ApiTestViewModel {
    /// How the last response is presented as a whole.
    pub open spec fn presentation(self, streaming: bool) -> Presentation {
        if self.sending || streaming {
            Presentation::Progress
        } else {
            match self.response {
                Some(response) => if response.error is Some || response.status == 0 {
                    Presentation::Error
                } else if 200 <= response.status < 300 {
                    Presentation::Success
                } else if 300 <= response.status < 500 {
                    Presentation::Warning
                } else {
                    Presentation::Error
                },
                None => Presentation::Neutral,
            }
        }
    }

    /// What the status bar begins with.
    pub open spec fn status_leading(self, streaming: bool) -> StatusLeadingModel {
        if self.sending && !streaming {
            StatusLeadingModel::Sending
        } else {
            match self.response {
                Some(response) => StatusLeadingModel::Status {
                    tone: status_tone_of(response.error is Some, response.status),
                    label: response_label(response),
                },
                None => StatusLeadingModel::Blank,
            }
        }
    }

    /// What stands in the middle of the status bar.
    pub open spec fn status_center(self, streaming: bool) -> StatusCenterModel {
        if self.response is Some && self.response->0.error is Some {
            StatusCenterModel::Error(self.response->0.error->0)
        } else if streaming || (self.response is Some && self.response->0.streaming) {
            StatusCenterModel::Streaming
        } else {
            StatusCenterModel::Blank
        }
    }

    /// How long the response took, its size, and how the assertions went.
    pub open spec fn metrics(self) -> Option<ResponseMetricsModel> {
        match self.response {
            Some(response) => Some(
                ResponseMetricsModel {
                    duration: millis_text(response.time_ms),
                    size: size_text(response.size),
                    passed: match self.test_result {
                        Some(result) => Some(result.assertions_passed),
                        None => None,
                    },
                    failed: match self.test_result {
                        Some(result) => Some(result.assertions_failed),
                        None => None,
                    },
                },
            ),
            None => None,
        }
    }

    /// The status bar; there is none before anything was sent.
    pub open spec fn status_bar(self, streaming: bool) -> Option<ResponseStatusBarModel> {
        if self.sending || streaming || self.response is Some {
            Some(
                ResponseStatusBarModel {
                    presentation: self.presentation(streaming),
                    leading: self.status_leading(streaming),
                    center: self.status_center(streaming),
                    metrics: self.metrics(),
                },
            )
        } else {
            None
        }
    }
}

impl ApiTestView {
    /// How the last response is presented as a whole.
    pub fn response_presentation(&self, streaming: bool) -> (r: Presentation)
        ensures
            r == self.deep_view().presentation(streaming),
    {
        if self.sending || streaming {
            return Presentation::Progress;
        }
        match &self.response {
            Some(response) => {
                let status = response.status;
                if response.error.is_some() || status == 0 {
                    Presentation::Error
                } else if 200 <= status && status < 300 {
                    Presentation::Success
                } else if 300 <= status && status < 500 {
                    Presentation::Warning
                } else {
                    Presentation::Error
                }
            },
            None => Presentation::Neutral,
        }
    }

    /// What the status bar begins with.
    pub fn render_response_status_leading(&self, streaming: bool) -> (r: StatusLeading)
        ensures
            r.deep_view() == self.deep_view().status_leading(streaming),
    {
        if self.sending && !streaming {
            return StatusLeading::Sending;
        }
        match &self.response {
            Some(response) => {
                let (tone, label) = response_status_tag(response);
                StatusLeading::Status { tone, label }
            },
            None => StatusLeading::Blank,
        }
    }

    /// What stands in the middle of the status bar.
    pub fn render_response_status_center(&self, streaming: bool) -> (r: StatusCenter)
        ensures
            r.deep_view() == self.deep_view().status_center(streaming),
    {
        match &self.response {
            Some(response) => match &response.error {
                Some(error) => StatusCenter::Error(error.clone()),
                None => if streaming || response.streaming {
                    StatusCenter::Streaming
                } else {
                    StatusCenter::Blank
                },
            },
            None => if streaming {
                StatusCenter::Streaming
            } else {
                StatusCenter::Blank
            },
        }
    }

    /// How long the response took, its size, and how the assertions went.
    pub fn render_response_metrics(&self) -> (r: Option<ResponseMetrics>)
        ensures
            r.deep_view() == self.deep_view().metrics(),
    {
        match &self.response {
            Some(response) => {
                let (passed, failed) = match &self.test_result {
                    Some(result) => (
                        Some(result.assertions_passed),
                        Some(result.assertions_failed),
                    ),
                    None => (None, None),
                };
                Some(
                    ResponseMetrics {
                        duration: format_millis(response.time_ms),
                        size: format_size(response.size),
                        passed,
                        failed,
                    },
                )
            },
            None => None,
        }
    }

    /// The status bar; there is none before anything was sent.
    pub fn render_response_status_bar(&self, streaming: bool) -> (r: Option<ResponseStatusBar>)
        ensures
            r.deep_view() == self.deep_view().status_bar(streaming),
    {
        if self.sending || streaming || self.response.is_some() {
            Some(
                ResponseStatusBar {
                    presentation: self.response_presentation(streaming),
                    leading: self.render_response_status_leading(streaming),
                    center: self.render_response_status_center(streaming),
                    metrics: self.render_response_metrics(),
                },
            )
        } else {
            None
        }
    }
}

/// The colour of the status and the presentation of the response agree.
pub proof fn law_tone_and_presentation_agree(view: ApiTestViewModel)
    requires
        !view.sending,
        view.response is Some,
    ensures
        ({
            let response = view.response->0;
            let tone = status_tone_of(response.error is Some, response.status);
            &&& tone == Tone::Danger <==> view.presentation(false) == Presentation::Error
            &&& tone == Tone::Warning <==> view.presentation(false) == Presentation::Warning
            &&& tone == Tone::Success <==> view.presentation(false) == Presentation::Success
        }),
{
}

/// A text that is only read: what is shown, whether there is any text, and what the button
/// copies.
#[derive(Debug)]
pub struct TextPane {
    pub panel_id: Label,
    pub copy_id: Label,
    pub shown: Caption,
    pub is_empty: bool,
    pub copy_text: String,
}

/// Model of [`TextPane`].
#[verifier::ext_equal]
pub struct TextPaneModel {
    pub panel_id: LabelModel,
    pub copy_id: LabelModel,
    pub shown: CaptionModel,
    pub is_empty: bool,
    pub copy_text: Seq<char>,
}

impl DeepView for TextPane {
    type V = TextPaneModel;

    open spec fn deep_view(&self) -> TextPaneModel {
        TextPaneModel {
            panel_id: self.panel_id.deep_view(),
            copy_id: self.copy_id.deep_view(),
            shown: self.shown.deep_view(),
            is_empty: self.is_empty,
            copy_text: self.copy_text@,
        }
    }
}

/// What the response pane shows below its tabs.
#[derive(Debug)]
pub enum ResponseContent {
    /// The kept responses.
    Examples(ExamplesPane),
    /// That a request is being sent.
    Loading(Label),
    /// That there is no response.
    NoResponse(Label),
    /// The body, formatted or as it came, with the buttons to show it formatted and as it
    /// came, and the element id of the button that copies it.
    Body { text: String, pretty: bool, show_pretty: Button, show_raw: Button, copy_id: Label },
    /// Headers or cookies.
    Table(ReadonlyTable),
    /// The request as it was sent, as a command, or what the scripts wrote.
    Text(TextPane),
}

/// Model of [`ResponseContent`].
#[verifier::ext_equal]
pub enum ResponseContentModel {
    Examples(ExamplesPaneModel),
    Loading(LabelModel),
    NoResponse(LabelModel),
    Body {
        text: Seq<char>,
        pretty: bool,
        show_pretty: ButtonModel,
        show_raw: ButtonModel,
        copy_id: LabelModel,
    },
    Table(ReadonlyTableModel),
    Text(TextPaneModel),
}

impl DeepView for ResponseContent {
    type V = ResponseContentModel;

    open spec fn deep_view(&self) -> ResponseContentModel {
        match self {
            ResponseContent::Examples(x) => ResponseContentModel::Examples(x.deep_view()),
            ResponseContent::Loading(label) => ResponseContentModel::Loading(label.deep_view()),
            ResponseContent::NoResponse(label) => ResponseContentModel::NoResponse(
                label.deep_view(),
            ),
            ResponseContent::Body {
                text,
                pretty,
                show_pretty,
                show_raw,
                copy_id,
            } => ResponseContentModel::Body {
                text: text@,
                pretty: *pretty,
                show_pretty: show_pretty.deep_view(),
                show_raw: show_raw.deep_view(),
                copy_id: copy_id.deep_view(),
            },
            ResponseContent::Table(x) => ResponseContentModel::Table(x.deep_view()),
            ResponseContent::Text(x) => ResponseContentModel::Text(x.deep_view()),
        }
    }
}

/// The response pane: that of a connection, or that of a request.
#[derive(Debug)]
pub enum ResponsePane {
    Tcp,
    WebSocket,
    SocketIo,
    Http {
        tabs: Vec<ResponseTabView>,
        selected: usize,
        content: ResponseContent,
        status_bar: Option<ResponseStatusBar>,
    },
}

/// Model of [`ResponsePane`].
#[verifier::ext_equal]
pub enum ResponsePaneModel {
    Tcp,
    WebSocket,
    SocketIo,
    Http {
        tabs: Seq<ResponseTabViewModel>,
        selected: int,
        content: ResponseContentModel,
        status_bar: Option<ResponseStatusBarModel>,
    },
}

impl DeepView for ResponsePane {
    type V = ResponsePaneModel;

    open spec fn deep_view(&self) -> ResponsePaneModel {
        match self {
            ResponsePane::Tcp => ResponsePaneModel::Tcp,
            ResponsePane::WebSocket => ResponsePaneModel::WebSocket,
            ResponsePane::SocketIo => ResponsePaneModel::SocketIo,
            ResponsePane::Http { tabs, selected, content, status_bar } => ResponsePaneModel::Http {
                tabs: tabs.deep_view(),
                selected: *selected as int,
                content: content.deep_view(),
                status_bar: status_bar.deep_view(),
            },
        }
    }
}

/// A text that is only read. Where it is blank, the placeholder is shown.
pub open spec fn text_pane(
    panel_id: Seq<char>,
    copy_id: Seq<char>,
    text: Seq<char>,
    placeholder: Seq<char>,
) -> TextPaneModel {
    TextPaneModel {
        panel_id: LabelModel::Literal(panel_id),
        copy_id: LabelModel::Literal(copy_id),
        shown: if trimmed(text).len() == 0 {
            CaptionModel::Message(placeholder)
        } else {
            CaptionModel::Text(text)
        },
        is_empty: trimmed(text).len() == 0,
        copy_text: text,
    }
}

/// A text that is only read.
pub fn render_text_response(
    panel_id: &'static str,
    copy_id: &'static str,
    text: String,
    placeholder: &'static str,
) -> (r: TextPane)
    ensures
        r.deep_view() == text_pane(panel_id@, copy_id@, text@, placeholder@),
{
    let is_empty = is_blank(text.as_str());
    TextPane {
        panel_id: Label::Literal(panel_id),
        copy_id: Label::Literal(copy_id),
        shown: if is_empty {
            Caption::Message(placeholder)
        } else {
            Caption::Text(text.clone())
        },
        is_empty,
        copy_text: text,
    }
}

impl ApiTestViewModel {
    /// The body of the last response, formatted or as it came.
    pub open spec fn body_text(self) -> Seq<char> {
        match self.response {
            Some(response) => if self.response_pretty {
                response.body
            } else {
                response.raw_body
            },
            None => Seq::empty(),
        }
    }

    /// The request as it was sent, in its readable form.
    pub open spec fn actual_request(self) -> Seq<char> {
        match self.prepared_request {
            Some(request) => request.actual_request,
            None => Seq::empty(),
        }
    }

    /// The request as it was sent, as a command.
    pub open spec fn curl(self) -> Seq<char> {
        match self.prepared_request {
            Some(request) => request.curl,
            None => Seq::empty(),
        }
    }

    /// What the response pane shows below its tabs. The cookies are those of the response,
    /// the console is what the scripts wrote.
    pub open spec fn response_content(
        self,
        streaming: bool,
        cookies: Seq<KeyValueModel>,
        console: Seq<char>,
    ) -> ResponseContentModel {
        if self.active_response_tab == ResponseTab::Example {
            ResponseContentModel::Examples(self.examples())
        } else if self.sending && !streaming {
            ResponseContentModel::Loading(LabelModel::Message("ApiTest.sending"@))
        } else if self.response is None && self.prepared_request is None && self.pre_result is None {
            ResponseContentModel::NoResponse(LabelModel::Message("ApiTest.no_response"@))
        } else {
            match self.active_response_tab {
                ResponseTab::Headers => ResponseContentModel::Table(
                    readonly_table(
                        self.response_headers(),
                        LabelModel::Message("ApiTest.no_response_headers"@),
                        "api-copy-response-header"@,
                    ),
                ),
                ResponseTab::Cookies => ResponseContentModel::Table(
                    readonly_table(
                        cookies,
                        LabelModel::Message("ApiTest.no_response_cookies"@),
                        "api-copy-response-cookie"@,
                    ),
                ),
                ResponseTab::ActualRequest => ResponseContentModel::Text(
                    text_pane(
                        "api-actual-request"@,
                        "api-copy-actual-request"@,
                        self.actual_request(),
                        "ApiTest.no_response"@,
                    ),
                ),
                ResponseTab::Curl => ResponseContentModel::Text(
                    text_pane(
                        "api-curl-command"@,
                        "api-copy-curl"@,
                        self.curl(),
                        "ApiTest.no_response"@,
                    ),
                ),
                ResponseTab::Console => ResponseContentModel::Text(
                    text_pane(
                        "api-script-console"@,
                        "api-copy-console"@,
                        console,
                        "ApiTest.no_console_output"@,
                    ),
                ),
                _ => ResponseContentModel::Body {
                    text: self.body_text(),
                    pretty: self.response_pretty,
                    show_pretty: labelled(
                        "api-response-pretty"@,
                        "ApiTest.pretty"@,
                        ButtonAction::ShowPretty(true),
                    ),
                    show_raw: labelled(
                        "api-response-raw"@,
                        "ApiTest.raw"@,
                        ButtonAction::ShowPretty(false),
                    ),
                    copy_id: LabelModel::Literal("api-copy-response-body"@),
                },
            }
        }
    }

    /// The response pane.
    pub open spec fn response_pane(
        self,
        streaming: bool,
        cookies: Seq<KeyValueModel>,
        console: Seq<char>,
    ) -> ResponsePaneModel {
        match self.selections.current_protocol() {
            Protocol::Tcp => ResponsePaneModel::Tcp,
            Protocol::WebSocket => ResponsePaneModel::WebSocket,
            Protocol::SocketIo => ResponsePaneModel::SocketIo,
            _ => ResponsePaneModel::Http {
                tabs: self.response_tab_views(),
                selected: self.active_response_tab.place(),
                content: self.response_content(streaming, cookies, console),
                status_bar: self.status_bar(streaming),
            },
        }
    }
}

impl ApiTestView {
    fn show_body(&self) -> (r: String)
        ensures
            r@ == self.deep_view().body_text(),
    {
        match &self.response {
            Some(response) => if self.response_pretty {
                response.body.clone()
            } else {
                response.raw_body.clone()
            },
            None => String::new(),
        }
    }

    fn show_headers(&self) -> (r: ReadonlyTable)
        ensures
            r.deep_view() == readonly_table(
                self.deep_view().response_headers(),
                LabelModel::Message("ApiTest.no_response_headers"@),
                "api-copy-response-header"@,
            ),
    {
        let empty = Label::Message("ApiTest.no_response_headers");
        match &self.response {
            Some(response) => render_readonly_kv(
                &response.headers,
                empty,
                "api-copy-response-header",
            ),
            None => ReadonlyTable::Empty(empty),
        }
    }

    /// What the response pane shows below its tabs.
    pub fn show_response_content(&self, streaming: bool, cookies: &Vec<KeyValue>, console: &str) -> (r:
        ResponseContent)
        ensures
            r.deep_view() == self.deep_view().response_content(
                streaming,
                cookies.deep_view(),
                console@,
            ),
    {
        if self.active_response_tab == ResponseTab::Example {
            return ResponseContent::Examples(self.render_response_examples());
        }
        if self.sending && !streaming {
            return ResponseContent::Loading(Label::Message("ApiTest.sending"));
        }
        if self.response.is_none() && self.prepared_request.is_none() && self.pre_result.is_none() {
            return ResponseContent::NoResponse(Label::Message("ApiTest.no_response"));
        }
        match self.active_response_tab {
            ResponseTab::Headers => ResponseContent::Table(self.show_headers()),
            ResponseTab::Cookies => ResponseContent::Table(
                render_readonly_kv(
                    cookies,
                    Label::Message("ApiTest.no_response_cookies"),
                    "api-copy-response-cookie",
                ),
            ),
            ResponseTab::ActualRequest => {
                let text = match &self.prepared_request {
                    Some(request) => request.actual_request.clone(),
                    None => String::new(),
                };
                ResponseContent::Text(
                    render_text_response(
                        "api-actual-request",
                        "api-copy-actual-request",
                        text,
                        "ApiTest.no_response",
                    ),
                )
            },
            ResponseTab::Curl => {
                let text = match &self.prepared_request {
                    Some(request) => request.curl.clone(),
                    None => String::new(),
                };
                ResponseContent::Text(
                    render_text_response(
                        "api-curl-command",
                        "api-copy-curl",
                        text,
                        "ApiTest.no_response",
                    ),
                )
            },
            ResponseTab::Console => ResponseContent::Text(
                render_text_response(
                    "api-script-console",
                    "api-copy-console",
                    console.to_owned(),
                    "ApiTest.no_console_output",
                ),
            ),
            _ => ResponseContent::Body {
                text: self.show_body(),
                pretty: self.response_pretty,
                show_pretty: Button::labelled(
                    "api-response-pretty",
                    "ApiTest.pretty",
                    ButtonAction::ShowPretty(true),
                ),
                show_raw: Button::labelled(
                    "api-response-raw",
                    "ApiTest.raw",
                    ButtonAction::ShowPretty(false),
                ),
                copy_id: Label::Literal("api-copy-response-body"),
            },
        }
    }

    /// The response pane. `pair` makes the row of a cookie out of the header value that sets
    /// it; the console is what the scripts wrote.
    pub fn render_response<F: Fn(&str) -> KeyValue>(
        &self,
        connections: &Connections,
        pair: F,
        console: &str,
    ) -> (r: ResponsePane)
        requires
            forall|text: &str| #[trigger] call_requires(pair, (text,)),
        ensures
            exists|cookies: Seq<KeyValueModel>|
                makes_cookies(pair, cookie_values(self.deep_view().response_headers()), cookies)
                    && r.deep_view() == #[trigger] self.deep_view().response_pane(
                    connections.streaming,
                    cookies,
                    console@,
                ),
    {
        let cookies = cookie_rows(&self.response_cookie_values(), &pair);
        self.show_response(connections, &cookies, console)
    }

    /// The response pane, with the rows of the cookies of the response.
    pub fn show_response(
        &self,
        connections: &Connections,
        cookies: &Vec<KeyValue>,
        console: &str,
    ) -> (r: ResponsePane)
        ensures
            r.deep_view() == self.deep_view().response_pane(
                connections.streaming,
                cookies.deep_view(),
                console@,
            ),
    {
        match self.selections.current_protocol() {
            Protocol::Tcp => ResponsePane::Tcp,
            Protocol::WebSocket => ResponsePane::WebSocket,
            Protocol::SocketIo => ResponsePane::SocketIo,
            _ => {
                let (tabs, selected) = self.render_response_tabs();
                ResponsePane::Http {
                    tabs,
                    selected,
                    content: self.show_response_content(connections.streaming, cookies, console),
                    status_bar: self.render_response_status_bar(connections.streaming),
                }
            },
        }
    }
}

/// The tab of the cookies counts the rows that it shows.
pub proof fn law_cookie_count_agrees<F: Fn(&str) -> KeyValue>(
    view: ApiTestViewModel,
    pair: F,
    cookies: Seq<KeyValueModel>,
    empty: LabelModel,
    prefix: Seq<char>,
)
    requires
        view.response_headers().len() <= usize::MAX,
        makes_cookies(pair, cookie_values(view.response_headers()), cookies),
    ensures
        match readonly_table(cookies, empty, prefix) {
            ReadonlyTableModel::Empty(label) => view.response_tab(ResponseTab::Cookies).count
                == Some(0usize),
            ReadonlyTableModel::Rows { rows, .. } => view.response_tab(
                ResponseTab::Cookies,
            ).count == Some(rows.len() as usize) && rows.len() > 0,
        },
{
}

/// No two rows of a table that is only read have a button with the same element id.
pub proof fn law_copy_ids_distinct(
    a: KeyValueModel,
    b: KeyValueModel,
    prefix: Seq<char>,
    i: int,
    j: int,
)
    requires
        0 <= i,
        0 <= j,
        readonly_row(a, prefix, i).copy_id == readonly_row(b, prefix, j).copy_id,
    ensures
        i == j,
{
    let before = prefix + "-"@;
    let n = before.len() as int;
    assert(readonly_row(a, prefix, i).copy_id.skip(n) =~= decimal_text(i as nat));
    assert(readonly_row(b, prefix, j).copy_id.skip(n) =~= decimal_text(j as nat));
    lemma_decimal_injective(i as nat, j as nat);
}

} // verus!
