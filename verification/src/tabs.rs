//! The tabs of the editor and of the response pane, and the modes of the sidebar.

use vstd::prelude::*;
use crate::labels::{Label, LabelModel};

verus! {

/// What the sidebar shows.
#[derive(Clone, Copy, PartialEq, Eq, Structural, Debug)]
pub enum SidebarMode {
    Collections,
    History,
}

/// A tab of the request editor.
#[derive(Clone, Copy, PartialEq, Eq, Structural, Debug)]
pub enum RequestEditorTab {
    Params,
    Path,
    Headers,
    Body,
    Auth,
    Cookies,
    PreRequest,
    Tests,
    Variables,
}

impl RequestEditorTab {
    /// The title of the tab.
    pub open spec fn title_label(self) -> LabelModel {
        match self {
            RequestEditorTab::Params => LabelModel::Message("ApiTest.params"@),
            RequestEditorTab::Path => LabelModel::Message("ApiTest.path"@),
            RequestEditorTab::Headers => LabelModel::Message("ApiTest.headers"@),
            RequestEditorTab::Body => LabelModel::Message("ApiTest.body"@),
            RequestEditorTab::Auth => LabelModel::Message("ApiTest.auth"@),
            RequestEditorTab::Cookies => LabelModel::Message("ApiTest.cookies"@),
            RequestEditorTab::PreRequest => LabelModel::Message("ApiTest.pre_request"@),
            RequestEditorTab::Tests => LabelModel::Message("ApiTest.tests"@),
            RequestEditorTab::Variables => LabelModel::Message("ApiTest.variables"@),
        }
    }

    /// The title of the tab.
    pub fn title(self) -> (r: Label)
        ensures
            r.deep_view() == self.title_label(),
    {
        match self {
            RequestEditorTab::Params => Label::Message("ApiTest.params"),
            RequestEditorTab::Path => Label::Message("ApiTest.path"),
            RequestEditorTab::Headers => Label::Message("ApiTest.headers"),
            RequestEditorTab::Body => Label::Message("ApiTest.body"),
            RequestEditorTab::Auth => Label::Message("ApiTest.auth"),
            RequestEditorTab::Cookies => Label::Message("ApiTest.cookies"),
            RequestEditorTab::PreRequest => Label::Message("ApiTest.pre_request"),
            RequestEditorTab::Tests => Label::Message("ApiTest.tests"),
            RequestEditorTab::Variables => Label::Message("ApiTest.variables"),
        }
    }

    /// The element id of the tab.
    pub open spec fn id_text(self) -> Seq<char> {
        match self {
            RequestEditorTab::Params => "api-editor-tab-params"@,
            RequestEditorTab::Path => "api-editor-tab-path"@,
            RequestEditorTab::Headers => "api-editor-tab-headers"@,
            RequestEditorTab::Body => "api-editor-tab-body"@,
            RequestEditorTab::Auth => "api-editor-tab-auth"@,
            RequestEditorTab::Cookies => "api-editor-tab-cookies"@,
            RequestEditorTab::PreRequest => "api-editor-tab-pre-request"@,
            RequestEditorTab::Tests => "api-editor-tab-tests"@,
            RequestEditorTab::Variables => "api-editor-tab-variables"@,
        }
    }

    /// The element id of the tab.
    pub fn element_id(self) -> (r: &'static str)
        ensures
            r@ == self.id_text(),
    {
        match self {
            RequestEditorTab::Params => "api-editor-tab-params",
            RequestEditorTab::Path => "api-editor-tab-path",
            RequestEditorTab::Headers => "api-editor-tab-headers",
            RequestEditorTab::Body => "api-editor-tab-body",
            RequestEditorTab::Auth => "api-editor-tab-auth",
            RequestEditorTab::Cookies => "api-editor-tab-cookies",
            RequestEditorTab::PreRequest => "api-editor-tab-pre-request",
            RequestEditorTab::Tests => "api-editor-tab-tests",
            RequestEditorTab::Variables => "api-editor-tab-variables",
        }
    }

    /// The place of the tab in the tab bar.
    pub open spec fn place(self) -> int {
        match self {
            RequestEditorTab::Params => 0,
            RequestEditorTab::Path => 1,
            RequestEditorTab::Headers => 2,
            RequestEditorTab::Body => 3,
            RequestEditorTab::Auth => 4,
            RequestEditorTab::Cookies => 5,
            RequestEditorTab::PreRequest => 6,
            RequestEditorTab::Tests => 7,
            RequestEditorTab::Variables => 8,
        }
    }

    /// The place of the tab in the tab bar.
    pub fn index(self) -> (r: usize)
        ensures
            r == self.place(),
    {
        match self {
            RequestEditorTab::Params => 0,
            RequestEditorTab::Path => 1,
            RequestEditorTab::Headers => 2,
            RequestEditorTab::Body => 3,
            RequestEditorTab::Auth => 4,
            RequestEditorTab::Cookies => 5,
            RequestEditorTab::PreRequest => 6,
            RequestEditorTab::Tests => 7,
            RequestEditorTab::Variables => 8,
        }
    }
}

/// The tabs of the request editor, in order.
pub open spec fn all_editor_tabs() -> Seq<RequestEditorTab> {
    seq![
        RequestEditorTab::Params,
        RequestEditorTab::Path,
        RequestEditorTab::Headers,
        RequestEditorTab::Body,
        RequestEditorTab::Auth,
        RequestEditorTab::Cookies,
        RequestEditorTab::PreRequest,
        RequestEditorTab::Tests,
        RequestEditorTab::Variables,
    ]
}

/// The tabs of the request editor, in order.
pub fn request_editor_tabs() -> (r: Vec<RequestEditorTab>)
    ensures
        r@ == all_editor_tabs(),
{
    vec![
        RequestEditorTab::Params,
        RequestEditorTab::Path,
        RequestEditorTab::Headers,
        RequestEditorTab::Body,
        RequestEditorTab::Auth,
        RequestEditorTab::Cookies,
        RequestEditorTab::PreRequest,
        RequestEditorTab::Tests,
        RequestEditorTab::Variables,
    ]
}

/// Each tab stands in the tab bar at its place, and nowhere else.
pub proof fn law_editor_tab_places(tab: RequestEditorTab, i: int)
    ensures
        0 <= tab.place() < all_editor_tabs().len(),
        all_editor_tabs()[tab.place()] == tab,
        0 <= i < all_editor_tabs().len() ==> all_editor_tabs()[i].place() == i,
{
}

/// No two tabs have the same element id.
pub proof fn law_editor_tab_ids_distinct(a: RequestEditorTab, b: RequestEditorTab)
    requires
        a.id_text() == b.id_text(),
    ensures
        a == b,
{
    reveal_strlit("api-editor-tab-params");
    reveal_strlit("api-editor-tab-path");
    reveal_strlit("api-editor-tab-headers");
    reveal_strlit("api-editor-tab-body");
    reveal_strlit("api-editor-tab-auth");
    reveal_strlit("api-editor-tab-cookies");
    reveal_strlit("api-editor-tab-pre-request");
    reveal_strlit("api-editor-tab-tests");
    reveal_strlit("api-editor-tab-variables");
    let x = a.id_text();
    let y = b.id_text();
    assert(x.len() == y.len());
    assert(x[15] == y[15]);
    assert(x[16] == y[16]);
}

/// A tab of the response pane.
#[derive(Clone, Copy, PartialEq, Eq, Structural, Debug)]
pub enum ResponseTab {
    Body,
    Headers,
    Cookies,
    ActualRequest,
    Curl,
    Console,
    Example,
}

impl ResponseTab {
    /// The title of the tab.
    pub open spec fn title_label(self) -> LabelModel {
        match self {
            ResponseTab::Body => LabelModel::Message("ApiTest.response_body"@),
            ResponseTab::Headers => LabelModel::Message("ApiTest.response_headers"@),
            ResponseTab::Cookies => LabelModel::Message("ApiTest.response_cookies"@),
            ResponseTab::ActualRequest => LabelModel::Message("ApiTest.actual_request"@),
            ResponseTab::Curl => LabelModel::Literal("cURL"@),
            ResponseTab::Console => LabelModel::Message("ApiTest.console"@),
            ResponseTab::Example => LabelModel::Message("ApiTest.response_example"@),
        }
    }

    /// The title of the tab.
    pub fn title(self) -> (r: Label)
        ensures
            r.deep_view() == self.title_label(),
    {
        match self {
            ResponseTab::Body => Label::Message("ApiTest.response_body"),
            ResponseTab::Headers => Label::Message("ApiTest.response_headers"),
            ResponseTab::Cookies => Label::Message("ApiTest.response_cookies"),
            ResponseTab::ActualRequest => Label::Message("ApiTest.actual_request"),
            ResponseTab::Curl => Label::Literal("cURL"),
            ResponseTab::Console => Label::Message("ApiTest.console"),
            ResponseTab::Example => Label::Message("ApiTest.response_example"),
        }
    }

    /// The element id of the tab.
    pub open spec fn id_text(self) -> Seq<char> {
        match self {
            ResponseTab::Body => "api-response-tab-body"@,
            ResponseTab::Headers => "api-response-tab-headers"@,
            ResponseTab::Cookies => "api-response-tab-cookies"@,
            ResponseTab::ActualRequest => "api-response-tab-actual-request"@,
            ResponseTab::Curl => "api-response-tab-curl"@,
            ResponseTab::Console => "api-response-tab-console"@,
            ResponseTab::Example => "api-response-tab-example"@,
        }
    }

    /// The element id of the tab.
    pub fn element_id(self) -> (r: &'static str)
        ensures
            r@ == self.id_text(),
    {
        match self {
            ResponseTab::Body => "api-response-tab-body",
            ResponseTab::Headers => "api-response-tab-headers",
            ResponseTab::Cookies => "api-response-tab-cookies",
            ResponseTab::ActualRequest => "api-response-tab-actual-request",
            ResponseTab::Curl => "api-response-tab-curl",
            ResponseTab::Console => "api-response-tab-console",
            ResponseTab::Example => "api-response-tab-example",
        }
    }

    /// The place of the tab in the tab bar.
    pub open spec fn place(self) -> int {
        match self {
            ResponseTab::Body => 0,
            ResponseTab::Headers => 1,
            ResponseTab::Cookies => 2,
            ResponseTab::ActualRequest => 3,
            ResponseTab::Curl => 4,
            ResponseTab::Console => 5,
            ResponseTab::Example => 6,
        }
    }

    /// The place of the tab in the tab bar.
    pub fn index(self) -> (r: usize)
        ensures
            r == self.place(),
    {
        match self {
            ResponseTab::Body => 0,
            ResponseTab::Headers => 1,
            ResponseTab::Cookies => 2,
            ResponseTab::ActualRequest => 3,
            ResponseTab::Curl => 4,
            ResponseTab::Console => 5,
            ResponseTab::Example => 6,
        }
    }
}

/// The tabs of the response pane, in order.
pub open spec fn all_response_tabs() -> Seq<ResponseTab> {
    seq![
        ResponseTab::Body,
        ResponseTab::Headers,
        ResponseTab::Cookies,
        ResponseTab::ActualRequest,
        ResponseTab::Curl,
        ResponseTab::Console,
        ResponseTab::Example,
    ]
}

/// The tabs of the response pane, in order.
pub fn response_tabs() -> (r: Vec<ResponseTab>)
    ensures
        r@ == all_response_tabs(),
{
    vec![
        ResponseTab::Body,
        ResponseTab::Headers,
        ResponseTab::Cookies,
        ResponseTab::ActualRequest,
        ResponseTab::Curl,
        ResponseTab::Console,
        ResponseTab::Example,
    ]
}

/// Each tab stands in the tab bar at its place, and nowhere else.
pub proof fn law_response_tab_places(tab: ResponseTab, i: int)
    ensures
        0 <= tab.place() < all_response_tabs().len(),
        all_response_tabs()[tab.place()] == tab,
        0 <= i < all_response_tabs().len() ==> all_response_tabs()[i].place() == i,
{
}

/// No two tabs have the same element id.
pub proof fn law_response_tab_ids_distinct(a: ResponseTab, b: ResponseTab)
    requires
        a.id_text() == b.id_text(),
    ensures
        a == b,
{
    reveal_strlit("api-response-tab-body");
    reveal_strlit("api-response-tab-headers");
    reveal_strlit("api-response-tab-cookies");
    reveal_strlit("api-response-tab-actual-request");
    reveal_strlit("api-response-tab-curl");
    reveal_strlit("api-response-tab-console");
    reveal_strlit("api-response-tab-example");
    let x = a.id_text();
    let y = b.id_text();
    assert(x.len() == y.len());
    assert(x[17] == y[17]);
    assert(x[19] == y[19]);
}

} // verus!
