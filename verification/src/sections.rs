//! The key-value tables of the editor.

use vstd::prelude::*;
use crate::http::{KeyValue, KeyValueModel};

verus! {

/// One of the key-value tables.
#[derive(Clone, Copy, PartialEq, Eq, PartialOrd, Ord, Structural, Debug)]
pub enum KvSection {
    Params,
    Path,
    Headers,
    Cookies,
    Body,
    Globals,
    GlobalParams,
    GlobalHeaders,
    GlobalCookies,
    Environment,
    EnvironmentParams,
    EnvironmentHeaders,
    EnvironmentCookies,
    FolderParams,
    FolderHeaders,
    FolderVariables,
    RequestVariables,
}

impl KvSection {
    /// The part of element ids that names the table.
    pub open spec fn id_text(self) -> Seq<char> {
        match self {
            KvSection::Params => "params"@,
            KvSection::Path => "path"@,
            KvSection::Headers => "headers"@,
            KvSection::Cookies => "cookies"@,
            KvSection::Body => "body"@,
            KvSection::Globals => "globals"@,
            KvSection::GlobalParams => "global-params"@,
            KvSection::GlobalHeaders => "global-headers"@,
            KvSection::GlobalCookies => "global-cookies"@,
            KvSection::Environment => "environment"@,
            KvSection::EnvironmentParams => "environment-params"@,
            KvSection::EnvironmentHeaders => "environment-headers"@,
            KvSection::EnvironmentCookies => "environment-cookies"@,
            KvSection::FolderParams => "folder-params"@,
            KvSection::FolderHeaders => "folder-headers"@,
            KvSection::FolderVariables => "folder-variables"@,
            KvSection::RequestVariables => "request-variables"@,
        }
    }

    /// The part of element ids that names the table.
    pub fn element_id(self) -> (r: &'static str)
        ensures
            r@ == self.id_text(),
    {
        match self {
            KvSection::Params => "params",
            KvSection::Path => "path",
            KvSection::Headers => "headers",
            KvSection::Cookies => "cookies",
            KvSection::Body => "body",
            KvSection::Globals => "globals",
            KvSection::GlobalParams => "global-params",
            KvSection::GlobalHeaders => "global-headers",
            KvSection::GlobalCookies => "global-cookies",
            KvSection::Environment => "environment",
            KvSection::EnvironmentParams => "environment-params",
            KvSection::EnvironmentHeaders => "environment-headers",
            KvSection::EnvironmentCookies => "environment-cookies",
            KvSection::FolderParams => "folder-params",
            KvSection::FolderHeaders => "folder-headers",
            KvSection::FolderVariables => "folder-variables",
            KvSection::RequestVariables => "request-variables",
        }
    }
}

/// All tables, in order.
pub open spec fn all_sections() -> Seq<KvSection> {
    seq![
        KvSection::Params,
        KvSection::Path,
        KvSection::Headers,
        KvSection::Cookies,
        KvSection::Body,
        KvSection::Globals,
        KvSection::GlobalParams,
        KvSection::GlobalHeaders,
        KvSection::GlobalCookies,
        KvSection::Environment,
        KvSection::EnvironmentParams,
        KvSection::EnvironmentHeaders,
        KvSection::EnvironmentCookies,
        KvSection::FolderParams,
        KvSection::FolderHeaders,
        KvSection::FolderVariables,
        KvSection::RequestVariables,
    ]
}

/// All tables, in order.
pub fn kv_sections() -> (r: Vec<KvSection>)
    ensures
        r@ == all_sections(),
{
    vec![
        KvSection::Params,
        KvSection::Path,
        KvSection::Headers,
        KvSection::Cookies,
        KvSection::Body,
        KvSection::Globals,
        KvSection::GlobalParams,
        KvSection::GlobalHeaders,
        KvSection::GlobalCookies,
        KvSection::Environment,
        KvSection::EnvironmentParams,
        KvSection::EnvironmentHeaders,
        KvSection::EnvironmentCookies,
        KvSection::FolderParams,
        KvSection::FolderHeaders,
        KvSection::FolderVariables,
        KvSection::RequestVariables,
    ]
}

/// Every table is listed once.
pub proof fn law_sections_listed_once(section: KvSection)
    ensures
        all_sections().no_duplicates(),
        all_sections().contains(section),
{
    let all = all_sections();
    let i: int = match section {
        KvSection::Params => 0,
        KvSection::Path => 1,
        KvSection::Headers => 2,
        KvSection::Cookies => 3,
        KvSection::Body => 4,
        KvSection::Globals => 5,
        KvSection::GlobalParams => 6,
        KvSection::GlobalHeaders => 7,
        KvSection::GlobalCookies => 8,
        KvSection::Environment => 9,
        KvSection::EnvironmentParams => 10,
        KvSection::EnvironmentHeaders => 11,
        KvSection::EnvironmentCookies => 12,
        KvSection::FolderParams => 13,
        KvSection::FolderHeaders => 14,
        KvSection::FolderVariables => 15,
        KvSection::RequestVariables => 16,
    };
    assert(all[i] == section);
}

/// No two tables have the same element id.
pub proof fn law_section_ids_distinct(a: KvSection, b: KvSection)
    requires
        a.id_text() == b.id_text(),
    ensures
        a == b,
{
    reveal_strlit("params");
    reveal_strlit("path");
    reveal_strlit("headers");
    reveal_strlit("cookies");
    reveal_strlit("body");
    reveal_strlit("globals");
    reveal_strlit("global-params");
    reveal_strlit("global-headers");
    reveal_strlit("global-cookies");
    reveal_strlit("environment");
    reveal_strlit("environment-params");
    reveal_strlit("environment-headers");
    reveal_strlit("environment-cookies");
    reveal_strlit("folder-params");
    reveal_strlit("folder-headers");
    reveal_strlit("folder-variables");
    reveal_strlit("request-variables");
    let x = a.id_text();
    let y = b.id_text();
    assert(x.len() == y.len());
    assert(x[0] == y[0]);
    assert(x.len() == 14 ==> x[7] == y[7]);
    assert(x.len() == 19 ==> x[12] == y[12]);
}

/// What the input for a key shows while it is empty.
#[derive(Clone, Copy, PartialEq, Eq, Structural, Debug)]
pub enum KeyPlaceholder {
    Key,
    Header,
    Cookie,
}

impl KeyPlaceholder {
    /// The placeholder's text.
    pub open spec fn text(self) -> Seq<char> {
        match self {
            KeyPlaceholder::Key => "Key"@,
            KeyPlaceholder::Header => "Header"@,
            KeyPlaceholder::Cookie => "Cookie"@,
        }
    }

    /// The placeholder's text.
    pub fn as_str(self) -> (r: &'static str)
        ensures
            r@ == self.text(),
    {
        match self {
            KeyPlaceholder::Key => "Key",
            KeyPlaceholder::Header => "Header",
            KeyPlaceholder::Cookie => "Cookie",
        }
    }
}

/// One row of a table while it is edited. The input for the value shows `Value`
/// while it is empty.
#[derive(Debug)]
pub struct KvRow {
    pub entry: KeyValue,
    pub placeholder: KeyPlaceholder,
}

/// Model of [`KvRow`].
#[verifier::ext_equal]
pub struct KvRowModel {
    pub entry: KeyValueModel,
    pub placeholder: KeyPlaceholder,
}

impl DeepView for KvRow {
    type V = KvRowModel;

    open spec fn deep_view(&self) -> KvRowModel {
        KvRowModel { entry: self.entry.deep_view(), placeholder: self.placeholder }
    }
}

/// The rows that edit the given entries.
pub open spec fn rows_of(
    entries: Seq<KeyValueModel>,
    placeholder: KeyPlaceholder,
) -> Seq<KvRowModel> {
    Seq::new(entries.len(), |i: int| KvRowModel { entry: entries[i], placeholder })
}

/// The entries that rows edit.
pub open spec fn entries_of(rows: Seq<KvRowModel>) -> Seq<KeyValueModel> {
    Seq::new(rows.len(), |i: int| rows[i].entry)
}

/// What is put into a table can be read from it.
pub proof fn law_rows_hold_entries(entries: Seq<KeyValueModel>, placeholder: KeyPlaceholder)
    ensures
        entries_of(rows_of(entries, placeholder)) == entries,
{
    assert(entries_of(rows_of(entries, placeholder)) =~= entries);
}

/// The rows that edit the given entries.
pub fn create_kv_rows(entries: &Vec<KeyValue>, placeholder: KeyPlaceholder) -> (r: Vec<KvRow>)
    ensures
        r.deep_view() == rows_of(entries.deep_view(), placeholder),
{
    let ghost all = entries.deep_view();
    let mut r: Vec<KvRow> = Vec::new();
    let mut i: usize = 0;
    while i < entries.len()
        invariant
            all == entries.deep_view(),
            i <= entries.len(),
            r.len() == i,
            forall|k: int|
                0 <= k < i ==> (#[trigger] r@[k]).deep_view() == (KvRowModel {
                    entry: all[k],
                    placeholder,
                }),
        decreases entries.len() - i,
    {
        assert(all[i as int] == entries@[i as int].deep_view());
        r.push(KvRow { entry: entries[i].clone(), placeholder });
        i = i + 1;
    }
    assert(r.deep_view() =~= rows_of(all, placeholder));
    r
}

/// The entries that rows edit.
pub fn keyvalues(rows: &Vec<KvRow>) -> (r: Vec<KeyValue>)
    ensures
        r.deep_view() == entries_of(rows.deep_view()),
{
    let ghost all = rows.deep_view();
    let mut r: Vec<KeyValue> = Vec::new();
    let mut i: usize = 0;
    while i < rows.len()
        invariant
            all == rows.deep_view(),
            i <= rows.len(),
            r.len() == i,
            forall|k: int| 0 <= k < i ==> (#[trigger] r@[k]).deep_view() == all[k].entry,
        decreases rows.len() - i,
    {
        assert(all[i as int] == rows@[i as int].deep_view());
        r.push(rows[i].entry.clone());
        i = i + 1;
    }
    assert(r.deep_view() =~= entries_of(all));
    r
}

/// The rows of all tables.
#[derive(Debug)]
pub struct SectionRows {
    pub params: Vec<KvRow>,
    pub path: Vec<KvRow>,
    pub headers: Vec<KvRow>,
    pub cookies: Vec<KvRow>,
    pub body: Vec<KvRow>,
    pub globals: Vec<KvRow>,
    pub global_params: Vec<KvRow>,
    pub global_headers: Vec<KvRow>,
    pub global_cookies: Vec<KvRow>,
    pub environment: Vec<KvRow>,
    pub environment_params: Vec<KvRow>,
    pub environment_headers: Vec<KvRow>,
    pub environment_cookies: Vec<KvRow>,
    pub folder_params: Vec<KvRow>,
    pub folder_headers: Vec<KvRow>,
    pub folder_variables: Vec<KvRow>,
    pub request_variables: Vec<KvRow>,
}

/// Model of [`SectionRows`].
#[verifier::ext_equal]
pub struct SectionRowsModel {
    pub params: Seq<KvRowModel>,
    pub path: Seq<KvRowModel>,
    pub headers: Seq<KvRowModel>,
    pub cookies: Seq<KvRowModel>,
    pub body: Seq<KvRowModel>,
    pub globals: Seq<KvRowModel>,
    pub global_params: Seq<KvRowModel>,
    pub global_headers: Seq<KvRowModel>,
    pub global_cookies: Seq<KvRowModel>,
    pub environment: Seq<KvRowModel>,
    pub environment_params: Seq<KvRowModel>,
    pub environment_headers: Seq<KvRowModel>,
    pub environment_cookies: Seq<KvRowModel>,
    pub folder_params: Seq<KvRowModel>,
    pub folder_headers: Seq<KvRowModel>,
    pub folder_variables: Seq<KvRowModel>,
    pub request_variables: Seq<KvRowModel>,
}

impl DeepView for SectionRows {
    type V = SectionRowsModel;

    open spec fn deep_view(&self) -> SectionRowsModel {
        SectionRowsModel {
            params: self.params.deep_view(),
            path: self.path.deep_view(),
            headers: self.headers.deep_view(),
            cookies: self.cookies.deep_view(),
            body: self.body.deep_view(),
            globals: self.globals.deep_view(),
            global_params: self.global_params.deep_view(),
            global_headers: self.global_headers.deep_view(),
            global_cookies: self.global_cookies.deep_view(),
            environment: self.environment.deep_view(),
            environment_params: self.environment_params.deep_view(),
            environment_headers: self.environment_headers.deep_view(),
            environment_cookies: self.environment_cookies.deep_view(),
            folder_params: self.folder_params.deep_view(),
            folder_headers: self.folder_headers.deep_view(),
            folder_variables: self.folder_variables.deep_view(),
            request_variables: self.request_variables.deep_view(),
        }
    }
}

impl SectionRowsModel {
    /// The rows of one table.
    pub open spec fn get(self, section: KvSection) -> Seq<KvRowModel> {
        match section {
            KvSection::Params => self.params,
            KvSection::Path => self.path,
            KvSection::Headers => self.headers,
            KvSection::Cookies => self.cookies,
            KvSection::Body => self.body,
            KvSection::Globals => self.globals,
            KvSection::GlobalParams => self.global_params,
            KvSection::GlobalHeaders => self.global_headers,
            KvSection::GlobalCookies => self.global_cookies,
            KvSection::Environment => self.environment,
            KvSection::EnvironmentParams => self.environment_params,
            KvSection::EnvironmentHeaders => self.environment_headers,
            KvSection::EnvironmentCookies => self.environment_cookies,
            KvSection::FolderParams => self.folder_params,
            KvSection::FolderHeaders => self.folder_headers,
            KvSection::FolderVariables => self.folder_variables,
            KvSection::RequestVariables => self.request_variables,
        }
    }

    /// These rows with those of one table replaced.
    pub open spec fn with(self, section: KvSection, rows: Seq<KvRowModel>) -> SectionRowsModel {
        match section {
            KvSection::Params => SectionRowsModel { params: rows, ..self },
            KvSection::Path => SectionRowsModel { path: rows, ..self },
            KvSection::Headers => SectionRowsModel { headers: rows, ..self },
            KvSection::Cookies => SectionRowsModel { cookies: rows, ..self },
            KvSection::Body => SectionRowsModel { body: rows, ..self },
            KvSection::Globals => SectionRowsModel { globals: rows, ..self },
            KvSection::GlobalParams => SectionRowsModel { global_params: rows, ..self },
            KvSection::GlobalHeaders => SectionRowsModel { global_headers: rows, ..self },
            KvSection::GlobalCookies => SectionRowsModel { global_cookies: rows, ..self },
            KvSection::Environment => SectionRowsModel { environment: rows, ..self },
            KvSection::EnvironmentParams => SectionRowsModel { environment_params: rows, ..self },
            KvSection::EnvironmentHeaders => SectionRowsModel { environment_headers: rows, ..self },
            KvSection::EnvironmentCookies => SectionRowsModel { environment_cookies: rows, ..self },
            KvSection::FolderParams => SectionRowsModel { folder_params: rows, ..self },
            KvSection::FolderHeaders => SectionRowsModel { folder_headers: rows, ..self },
            KvSection::FolderVariables => SectionRowsModel { folder_variables: rows, ..self },
            KvSection::RequestVariables => SectionRowsModel { request_variables: rows, ..self },
        }
    }
}

/// A replaced table holds what was put there, and no other table changes.
pub proof fn law_sections_are_independent(
    rows: SectionRowsModel,
    section: KvSection,
    new: Seq<KvRowModel>,
    other: KvSection,
)
    ensures
        rows.with(section, new).get(section) == new,
        other != section ==> rows.with(section, new).get(other) == rows.get(other),
{
}

impl SectionRows {
    /// Empty tables.
    pub fn new() -> (r: SectionRows)
        ensures
            forall|section: KvSection| (#[trigger] r.deep_view().get(section)).len() == 0,
    {
        SectionRows {
            params: Vec::new(),
            path: Vec::new(),
            headers: Vec::new(),
            cookies: Vec::new(),
            body: Vec::new(),
            globals: Vec::new(),
            global_params: Vec::new(),
            global_headers: Vec::new(),
            global_cookies: Vec::new(),
            environment: Vec::new(),
            environment_params: Vec::new(),
            environment_headers: Vec::new(),
            environment_cookies: Vec::new(),
            folder_params: Vec::new(),
            folder_headers: Vec::new(),
            folder_variables: Vec::new(),
            request_variables: Vec::new(),
        }
    }

    /// The rows of one table.
    pub fn rows_for_section(&self, section: KvSection) -> (r: &Vec<KvRow>)
        ensures
            r.deep_view() == self.deep_view().get(section),
    {
        match section {
            KvSection::Params => &self.params,
            KvSection::Path => &self.path,
            KvSection::Headers => &self.headers,
            KvSection::Cookies => &self.cookies,
            KvSection::Body => &self.body,
            KvSection::Globals => &self.globals,
            KvSection::GlobalParams => &self.global_params,
            KvSection::GlobalHeaders => &self.global_headers,
            KvSection::GlobalCookies => &self.global_cookies,
            KvSection::Environment => &self.environment,
            KvSection::EnvironmentParams => &self.environment_params,
            KvSection::EnvironmentHeaders => &self.environment_headers,
            KvSection::EnvironmentCookies => &self.environment_cookies,
            KvSection::FolderParams => &self.folder_params,
            KvSection::FolderHeaders => &self.folder_headers,
            KvSection::FolderVariables => &self.folder_variables,
            KvSection::RequestVariables => &self.request_variables,
        }
    }

    /// The rows of one table, to change them.
    pub fn rows_for_section_mut(&mut self, section: KvSection) -> (r: &mut Vec<KvRow>)
        ensures
            r.deep_view() == old(self).deep_view().get(section),
            final(self).deep_view() == old(self).deep_view().with(section, final(r).deep_view()),
    {
        match section {
            KvSection::Params => &mut self.params,
            KvSection::Path => &mut self.path,
            KvSection::Headers => &mut self.headers,
            KvSection::Cookies => &mut self.cookies,
            KvSection::Body => &mut self.body,
            KvSection::Globals => &mut self.globals,
            KvSection::GlobalParams => &mut self.global_params,
            KvSection::GlobalHeaders => &mut self.global_headers,
            KvSection::GlobalCookies => &mut self.global_cookies,
            KvSection::Environment => &mut self.environment,
            KvSection::EnvironmentParams => &mut self.environment_params,
            KvSection::EnvironmentHeaders => &mut self.environment_headers,
            KvSection::EnvironmentCookies => &mut self.environment_cookies,
            KvSection::FolderParams => &mut self.folder_params,
            KvSection::FolderHeaders => &mut self.folder_headers,
            KvSection::FolderVariables => &mut self.folder_variables,
            KvSection::RequestVariables => &mut self.request_variables,
        }
    }

    /// The entries of one table.
    pub fn keyvalues_from_rows(&self, section: KvSection) -> (r: Vec<KeyValue>)
        ensures
            r.deep_view() == entries_of(self.deep_view().get(section)),
    {
        keyvalues(self.rows_for_section(section))
    }
}

} // verus!
