//! Links to the details of database objects.

use navop_workbench::sql_definition::{
    is_object_details_uri, object_details_uri, DefaultSqlDefinitionProvider, LocationLink, LspPosition, LspRange,
    ResolvedObject, SqlHoverSources, SqlObjectDetails, Uri, SQL_OBJECT_DETAILS_SCHEME,
};

const TABLES: [&str; 1] = ["users"];

fn provider() -> DefaultSqlDefinitionProvider<Vec<String>> {
    let schema = TABLES.iter().map(|name| name.to_string()).collect();
    DefaultSqlDefinitionProvider::new(SqlHoverSources { schema })
}

/// The table whose name ends or stands at `offset` of a text.
fn resolve(text: &str, offset: usize, schema: &Vec<String>) -> Option<SqlObjectDetails> {
    let is_name = |c: char| c.is_ascii_alphanumeric() || c == '_';
    let start = text[..offset].rfind(|c| !is_name(c)).map_or(0, |i| i + 1);
    let end = text[offset..].find(|c| !is_name(c)).map_or(text.len(), |i| offset + i);
    let name = &text[start..end];
    if !schema.iter().any(|table| table == name) {
        return None;
    }
    Some(SqlObjectDetails {
        start,
        end,
        markdown: format!("**TABLE** `{name}`\n\nCREATE TABLE {name} (id INT)"),
    })
}

/// The line and the character of a byte of a text.
fn position(text: &str, offset: usize) -> LspPosition {
    let before = &text[..offset];
    let line = before.matches('\n').count();
    let start = before.rfind('\n').map_or(0, |i| i + 1);
    LspPosition {
        line: line as u32,
        character: before[start..].encode_utf16().count() as u32,
    }
}

fn probe(
    provider: &mut DefaultSqlDefinitionProvider<Vec<String>>,
    text: &str,
    offset: usize,
) -> Option<LocationLink> {
    provider.probe_object_details(text, offset, resolve, position)
}

#[test]
fn probe_returns_link_and_remembers_details_for_a_known_object() {
    let mut provider = provider();
    let text = "select * from users";
    let offset = text.len();

    let link = probe(&mut provider, text, offset).expect("table name should resolve");

    assert_eq!(Some(object_details_uri().as_str()), Some(link.target_uri.clone().as_str()));
    assert!(is_object_details_uri(&link.target_uri));
    // The underlined span is the identifier only, not the whole statement.
    let origin = link.origin_selection_range.expect("origin range");
    assert_eq!(
        LspRange {
            start: LspPosition { line: 0, character: 14 },
            end: LspPosition { line: 0, character: 19 },
        },
        origin
    );
    assert_eq!(link.target_range, origin);
    assert_eq!(link.target_selection_range, origin);

    let details = provider
        .take_pending_details()
        .expect("details should be primed for the click");
    assert_eq!(details.start..details.end, 14..19);
    assert!(details.markdown.contains("**TABLE**"));
    assert!(details.markdown.contains("CREATE TABLE"));
}

#[test]
fn pending_details_are_consumed_once() {
    let mut provider = provider();
    let text = "select * from users";

    probe(&mut provider, text, text.len());
    assert!(provider.take_pending_details().is_some());
    assert!(
        provider.take_pending_details().is_none(),
        "a second click without a fresh hover must not reopen the window"
    );
}

#[test]
fn unresolvable_offset_yields_no_link_and_clears_pending() {
    let mut provider = provider();
    let text = "select * from users";
    probe(&mut provider, text, text.len());

    assert!(probe(&mut provider, text, 0).is_none());
    assert!(
        provider.take_pending_details().is_none(),
        "stale details must not survive a miss"
    );
}

#[test]
fn object_details_uri_is_internal_and_never_external() {
    let uri = object_details_uri();
    assert!(is_object_details_uri(&uri));
    assert_eq!(Some(SQL_OBJECT_DETAILS_SCHEME), uri.scheme().map(|s| s.as_str()));

    let https = Uri::parse("https://example.com/table").expect("valid uri");
    assert!(!is_object_details_uri(&https));
    let file = Uri::parse("file:///tmp/query.sql").expect("valid uri");
    assert!(!is_object_details_uri(&file));
}

#[test]
fn a_new_provider_remembers_nothing() {
    assert!(provider().take_pending_details().is_none());
}

#[test]
fn a_hit_gives_one_definition_and_a_miss_none() {
    let mut provider = provider();
    let text = "select * from users";
    let links = provider.definitions(text, 15, resolve, position);
    assert_eq!(links.len(), 1);
    assert_eq!(links[0].target_uri.as_str(), "navop-sql-object://details");
    assert_eq!(links[0].origin_selection_range.map(|range| range.start.character), Some(14));

    assert_eq!(provider.definitions(text, 0, resolve, position).len(), 0);
    assert!(provider.take_pending_details().is_none());
}

#[test]
fn a_later_hit_replaces_the_details() {
    let mut provider = DefaultSqlDefinitionProvider::new(SqlHoverSources {
        schema: vec!["a".to_string(), "b".to_string()],
    });
    let text = "a b";
    probe(&mut provider, text, 0);
    probe(&mut provider, text, 3);
    let details = provider.take_pending_details().expect("details");
    assert_eq!((details.start, details.end), (2, 3));
}

#[test]
fn a_scheme_is_taken_as_it_is_written() {
    let loud = Uri::parse("NAVOP-SQL-OBJECT://details").expect("valid uri");
    assert_eq!(loud.scheme().map(|s| s.as_str()), Some("NAVOP-SQL-OBJECT"));
    assert_eq!(loud.as_str(), "NAVOP-SQL-OBJECT://details");
    assert!(!is_object_details_uri(&loud));

    let relative = Uri::parse("navop-sql-object/details").expect("valid reference");
    assert!(relative.scheme().is_none());
    assert!(!is_object_details_uri(&relative));

    let mail = Uri::parse("mailto:a@b").expect("valid uri");
    assert_eq!(mail.scheme().map(|s| s.as_str()), Some("mailto"));
}

#[test]
fn a_text_that_is_no_address_is_refused() {
    assert!(Uri::parse("not a uri").is_none());
    assert!(Uri::parse("1a:b").is_none());
    assert!(Uri::parse("http://[::1").is_none());
}

#[test]
fn a_refreshed_schema_is_looked_up_in() {
    let mut provider = provider();
    let text = "select * from orders";
    assert!(probe(&mut provider, text, text.len()).is_none());
    provider.refresh_schema(vec!["orders".to_string()]);
    assert_eq!(provider.schema(), &["orders"]);
    assert!(probe(&mut provider, text, text.len()).is_some());
    assert!(probe(&mut provider, "select * from users", 19).is_none());
}

#[test]
fn a_refresh_keeps_the_details() {
    let mut provider = provider();
    probe(&mut provider, "select * from users", 19);
    provider.refresh_schema(vec![]);
    assert_eq!(provider.take_pending_details().expect("details").start, 14);
}

#[test]
fn what_was_found_can_be_handed_in() {
    let mut provider = provider();
    let found = resolve("users", 0, provider.schema()).map(|details| ResolvedObject {
        range: LspRange {
            start: position("users", details.start),
            end: position("users", details.end),
        },
        details,
    });
    let link = provider.take_found(found).expect("a link");
    assert_eq!(link.target_range.end.character, 5);
    assert!(provider.take_found(None).is_none());
    assert!(provider.take_pending_details().is_none());
}

#[test]
fn a_link_runs_from_the_start_to_the_end_of_the_name() {
    let mut provider = provider();
    let text = "select 'é'\nfrom users";
    let link = probe(&mut provider, text, text.len()).expect("a link");
    let origin = link.origin_selection_range.expect("origin range");
    assert_eq!(
        origin,
        LspRange {
            start: LspPosition { line: 1, character: 5 },
            end: LspPosition { line: 1, character: 10 },
        }
    );
    let details = provider.take_pending_details().expect("details");
    assert_eq!(&text[details.start..details.end], "users");
}

#[test]
fn one_hit_opens_one_window() {
    let mut provider = provider();
    let text = "users nothing";
    probe(&mut provider, text, 0);
    provider.refresh_schema(vec!["users".to_string()]);
    assert!(provider.take_pending_details().is_some());
    assert!(provider.take_pending_details().is_none());
    probe(&mut provider, text, 0);
    probe(&mut provider, text, 8);
    assert!(provider.take_pending_details().is_none());
    probe(&mut provider, text, 0);
    assert!(provider.take_pending_details().is_some());
}
