//! Links to database objects, exported documents, and tabs.

use vstd::prelude::*;
use crate::export::CollectionExport;
use crate::sql_definition::{
    DefaultSqlDefinitionProvider, LocationLink, LspPosition, ResolvedObject, SqlObjectDetails,
    finds, is_scheme_char, lemma_scheme_run, probed, scheme_in, taken,
};
use crate::tabs::{RequestEditorTab, ResponseTab};

verus! {

/// What a lookup gives. Where an object is found, the link is from the object's own range, which
/// goes from the place of its start to that of its end, to the address of the details, and the
/// details that are remembered are those found. Where none is found there is no link and
/// nothing is remembered. The schema stays.
pub proof fn law_a_lookup_links_what_it_finds<
    Schema,
    F: Fn(&str, usize, &Schema) -> Option<SqlObjectDetails>,
    P: Fn(&str, usize) -> LspPosition,
>(
    before: DefaultSqlDefinitionProvider<Schema>,
    after: DefaultSqlDefinitionProvider<Schema>,
    text: &str,
    offset: usize,
    resolve: F,
    position: P,
    link: Option<LocationLink>,
)
    requires
        probed(before, after, text, offset, resolve, position, link),
    ensures
        after.schema_of() == before.schema_of(),
        link is None ==> {
            &&& call_ensures(resolve, (text, offset, &before.schema_of()), None)
            &&& after.remembered() is None
        },
        link is Some ==> {
            let range = link->0.target_range;
            &&& link->0.origin_selection_range == Some(range)
            &&& link->0.target_selection_range == range
            &&& link->0.target_uri@ == "navop-sql-object://details"@
            &&& exists|details: SqlObjectDetails|
                #[trigger] call_ensures(
                    resolve,
                    (text, offset, &before.schema_of()),
                    Some(details),
                ) && call_ensures(position, (text, details.start), range.start) && call_ensures(
                    position,
                    (text, details.end),
                    range.end,
                ) && after.remembered() == Some(details.deep_view())
        },
{
    let found = choose|found: Option<ResolvedObject>|
        #[trigger] finds(before.schema_of(), text, offset, resolve, position, found) && taken(
            before,
            after,
            found,
            link,
        );
    if let Some(object) = found {
        let details = object.details;
        assert(call_ensures(resolve, (text, offset, &before.schema_of()), Some(details)));
    }
}

/// The scheme of an address is all that stands before its first colon, where that is made of
/// characters of a scheme; an address where something else stands there has none.
pub proof fn law_the_scheme_stands_before_the_colon(
    scheme: Seq<char>,
    rest: Seq<char>,
    other: char,
)
    requires
        forall|i: int| 0 <= i < scheme.len() ==> is_scheme_char(#[trigger] scheme[i]),
        !is_scheme_char(other),
        other != ':',
    ensures
        scheme_in(scheme + seq![':'] + rest) == Some(scheme),
        scheme_in(scheme + seq![other] + rest) is None,
        scheme_in(scheme) is None,
{
    let n = scheme.len() as int;
    let with = scheme + seq![':'] + rest;
    assert forall|i: int| 0 <= i < n implies is_scheme_char(#[trigger] with[i]) by {
        assert(with[i] == scheme[i]);
    }
    lemma_scheme_run(with, n);
    assert(with.take(n) =~= scheme);
    let without = scheme + seq![other] + rest;
    assert forall|i: int| 0 <= i < n implies is_scheme_char(#[trigger] without[i]) by {
        assert(without[i] == scheme[i]);
    }
    lemma_scheme_run(without, n);
    lemma_scheme_run(scheme, n);
}

/// The name of an exported file ends as its encoding says, and two exports that ask with the
/// same words write documents of the same kind.
pub proof fn law_exports_are_what_they_are_called(a: CollectionExport, b: CollectionExport)
    ensures
        a.encoding_of() is Json <==> a.file_name_text().skip(a.file_name_text().len() - 5)
            == ".json"@,
        a.encoding_of() is Yaml <==> a.file_name_text().skip(a.file_name_text().len() - 5)
            == ".yaml"@,
        a.prompt_label() == b.prompt_label() <==> a.kind_of() == b.kind_of(),
        a.kind_of() == b.kind_of() && a.encoding_of() == b.encoding_of() ==> a == b,
{
    reveal_strlit("navop-postman-collection.json");
    reveal_strlit("navop-openapi.json");
    reveal_strlit("navop-openapi.yaml");
    reveal_strlit("navop-swagger.json");
    reveal_strlit("navop-swagger.yaml");
    reveal_strlit(".json");
    reveal_strlit(".yaml");
    reveal_strlit("ApiTest.export_postman");
    reveal_strlit("ApiTest.export_openapi");
    reveal_strlit("ApiTest.export_swagger");
    let end = a.file_name_text().skip(a.file_name_text().len() - 5);
    assert(".json"@[1] == 'j' && ".yaml"@[1] == 'y');
    assert(a.encoding_of() is Json ==> end =~= ".json"@);
    assert(a.encoding_of() is Yaml ==> end =~= ".yaml"@);
    assert("ApiTest.export_postman"@[15] == 'p');
    assert("ApiTest.export_openapi"@[15] == 'o');
    assert("ApiTest.export_swagger"@[15] == 's');
}

/// No two tabs of the editor have the same title.
pub proof fn law_editor_tab_titles_distinct(a: RequestEditorTab, b: RequestEditorTab)
    requires
        a.title_label() == b.title_label(),
    ensures
        a == b,
{
    reveal_strlit("ApiTest.params");
    reveal_strlit("ApiTest.path");
    reveal_strlit("ApiTest.headers");
    reveal_strlit("ApiTest.body");
    reveal_strlit("ApiTest.auth");
    reveal_strlit("ApiTest.cookies");
    reveal_strlit("ApiTest.pre_request");
    reveal_strlit("ApiTest.tests");
    reveal_strlit("ApiTest.variables");
    let text = a.title_label()->Message_0;
    assert(text.len() == b.title_label()->Message_0.len());
    assert(text[8] == b.title_label()->Message_0[8]);
}

/// No two tabs of the response pane have the same title.
pub proof fn law_response_tab_titles_distinct(a: ResponseTab, b: ResponseTab)
    requires
        a.title_label() == b.title_label(),
    ensures
        a == b,
{
    reveal_strlit("ApiTest.response_body");
    reveal_strlit("ApiTest.response_headers");
    reveal_strlit("ApiTest.response_cookies");
    reveal_strlit("ApiTest.actual_request");
    reveal_strlit("ApiTest.console");
    reveal_strlit("ApiTest.response_example");
    if a.title_label() is Message {
        let text = a.title_label()->Message_0;
        assert(text.len() == b.title_label()->Message_0.len());
        assert(text[17] == b.title_label()->Message_0[17]);
    }
}

} // verus!
