//! Folders and the request tree.

use navop_workbench::folders::{ancestor_folder_ids, descendant_folder_ids, holds_id};
use navop_workbench::http::{Protocol, RequestMethod};
use navop_workbench::labels::{MethodTexts, ProtocolTexts, TreeTexts};
use navop_workbench::request_store::{StoredFolder, StoredRequest};
use navop_workbench::tree::{
    child_tree_items, leaf, request_label, tree_is_finite, tree_items, visible_tree_index, TreeItem,
};

fn texts() -> TreeTexts {
    TreeTexts {
        protocols: ProtocolTexts {
            http: "HTTP".to_string(),
            graphql: "GraphQL".to_string(),
            sse: "SSE".to_string(),
            web_socket: "WebSocket".to_string(),
            tcp: "TCP".to_string(),
            grpc_web: "gRPC-Web".to_string(),
            socket_io: "Socket.IO".to_string(),
        },
        methods: MethodTexts {
            get: "GET".to_string(),
            post: "POST".to_string(),
            put: "PUT".to_string(),
            patch: "PATCH".to_string(),
            delete: "DELETE".to_string(),
            head: "HEAD".to_string(),
            options: "OPTIONS".to_string(),
        },
        new_request: "New request".to_string(),
        request_list: "Requests".to_string(),
        empty_list: "Nothing here".to_string(),
    }
}

fn folder(id: &str, name: &str, parent: Option<&str>) -> StoredFolder {
    StoredFolder::with_id(id.to_string(), name.to_string(), parent.map(str::to_string))
}

fn request(id: &str, name: &str, url: &str, parent: Option<&str>) -> StoredRequest {
    let mut request = StoredRequest::with_id(id.to_string(), name.to_string(), RequestMethod::Get);
    request.url = url.to_string();
    request.folder_id = parent.map(str::to_string);
    request
}

/// An entry as `id=label`, with the entries below it in brackets.
fn outline(items: &[TreeItem]) -> String {
    let parts: Vec<String> = items
        .iter()
        .map(|item| {
            if item.children.is_empty() {
                format!("{}={}", item.id, item.label)
            } else {
                format!("{}={}[{}]", item.id, item.label, outline(&item.children))
            }
        })
        .collect();
    parts.join(" ")
}

fn sample() -> (Vec<StoredFolder>, Vec<StoredRequest>) {
    let folders = vec![
        folder("a", "Accounts", None),
        folder("b", "Billing", Some("a")),
        folder("c", "Catalog", None),
    ];
    let mut invoice = request("r2", "Invoice", "https://x/invoice", Some("b"));
    invoice.method = RequestMethod::Post;
    let mut feed = request("r3", " ", " wss://x/Feed ", None);
    feed.protocol = Protocol::WebSocket;
    let requests = vec![
        request("r1", " List ", "https://x/list", Some("a")),
        invoice,
        feed,
        request("r4", "", "", None),
        request("r5", "Lost", "", Some("gone")),
    ];
    (folders, requests)
}

#[test]
fn a_request_is_labelled_by_name_then_address_then_text() {
    assert_eq!(request_label(&request("r", " Name ", "u", None), "New"), "Name");
    assert_eq!(request_label(&request("r", " \t", " u ", None), "New"), "u");
    assert_eq!(request_label(&request("r", "", " ", None), "New"), "New");
}

#[test]
fn the_tree_shows_folders_before_requests() {
    let (folders, requests) = sample();
    let items = tree_items(&folders, &requests, &texts(), "");
    assert_eq!(
        outline(&items),
        "api-requests-root=Requests[a=Accounts[b=Billing[r2=Invoice] r1=List] c=Catalog \
         r3=wss://x/Feed r4=New request]"
    );
    assert!(items[0].expanded);
    assert!(items[0].children[0].expanded);
    assert!(!items[0].children[2].expanded);
    assert!(!items[0].disabled);
}

#[test]
fn a_search_keeps_matches_and_the_folders_above_them() {
    let (folders, requests) = sample();
    let found = |search: &str| outline(&tree_items(&folders, &requests, &texts(), search)[0].children);
    assert_eq!(found("  INVOICE "), "a=Accounts[b=Billing[r2=Invoice]]");
    assert_eq!(found("post"), "a=Accounts[b=Billing[r2=Invoice]]");
    assert_eq!(found("websocket get  wss"), "r3=wss://x/Feed");
    assert_eq!(found("/FEED"), "r3=wss://x/Feed");
    assert_eq!(found("cat"), "c=Catalog");
    assert_eq!(found("bill"), "a=Accounts[b=Billing]");
    assert_eq!(found("zzz"), "api-requests-empty=Nothing here");
}

#[test]
fn a_search_lowers_letters_beyond_ascii() {
    let folders = vec![folder("a", "ÜBERSICHT", None)];
    let items = tree_items(&folders, &vec![request("r", "ÉTÉ", "", None)], &texts(), "Été");
    assert_eq!(outline(&items[0].children), "r=ÉTÉ");
    let items = tree_items(&folders, &vec![], &texts(), "übers");
    assert_eq!(outline(&items[0].children), "a=ÜBERSICHT");
}

#[test]
fn an_empty_tree_says_so() {
    let items = tree_items(&vec![], &vec![], &texts(), "");
    assert_eq!(outline(&items), "api-requests-root=Requests[api-requests-empty=Nothing here]");
    assert!(items[0].children[0].disabled);
}

#[test]
fn the_entries_of_one_folder_can_be_listed() {
    let (folders, requests) = sample();
    let items = child_tree_items(&folders, &requests, &texts(), Some("a"), "");
    assert_eq!(outline(&items), "b=Billing[r2=Invoice] r1=List");
    assert_eq!(outline(&child_tree_items(&folders, &requests, &texts(), Some("gone"), "")), "r5=Lost");
    assert!(child_tree_items(&folders, &requests, &texts(), Some("r1"), "").is_empty());
}

#[test]
fn entries_are_counted_from_top_to_bottom() {
    let (folders, requests) = sample();
    let items = tree_items(&folders, &requests, &texts(), "");
    let ids = ["api-requests-root", "a", "b", "r2", "r1", "c", "r3", "r4"];
    for (index, id) in ids.iter().enumerate() {
        assert_eq!(visible_tree_index(&items, id), Some(index));
    }
    assert_eq!(visible_tree_index(&items, "r5"), None);
}

#[test]
fn entries_below_a_closed_one_are_not_counted() {
    let mut closed = leaf("closed".to_string(), "c".to_string());
    closed.children.push(leaf("below".to_string(), "b".to_string()));
    let items = vec![closed, leaf("next".to_string(), "n".to_string())];
    assert_eq!(visible_tree_index(&items, "below"), None);
    assert_eq!(visible_tree_index(&items, "next"), Some(1));
    assert_eq!(visible_tree_index(&vec![], "next"), None);
}

#[test]
fn a_repeated_id_counts_once() {
    let items = vec![
        leaf("x".to_string(), "1".to_string()),
        leaf("y".to_string(), "2".to_string()),
        leaf("x".to_string(), "3".to_string()),
    ];
    assert_eq!(visible_tree_index(&items, "x"), Some(0));
}

#[test]
fn folders_that_only_hold_one_another_are_not_shown() {
    let folders = vec![folder("a", "A", Some("b")), folder("b", "B", Some("a"))];
    assert!(tree_is_finite(&folders));
    let items = tree_items(&folders, &vec![], &texts(), "");
    assert_eq!(outline(&items[0].children), "api-requests-empty=Nothing here");
}

#[test]
fn a_repeated_folder_id_can_make_the_tree_endless() {
    assert!(!tree_is_finite(&vec![folder("x", "X", None), folder("x", "X", Some("x"))]));
    assert!(tree_is_finite(&vec![folder("x", "X", None), folder("x", "Y", None)]));
    assert!(tree_is_finite(&vec![]));
}

#[test]
fn a_subtree_holds_the_folder_and_all_below_it() {
    let folders = vec![
        folder("d", "D", Some("b")),
        folder("a", "A", None),
        folder("b", "B", Some("a")),
        folder("c", "C", None),
    ];
    let mut ids = descendant_folder_ids(&folders, "a");
    ids.sort();
    assert_eq!(ids, ["a", "b", "d"]);
    assert_eq!(descendant_folder_ids(&folders, "c"), ["c"]);
    assert_eq!(descendant_folder_ids(&folders, "unknown"), ["unknown"]);
    assert!(holds_id(&ids, "d"));
    assert!(!holds_id(&ids, "c"));
}

#[test]
fn a_subtree_ends_although_folders_hold_one_another() {
    let folders = vec![folder("a", "A", Some("b")), folder("b", "B", Some("a"))];
    let mut ids = descendant_folder_ids(&folders, "a");
    ids.sort();
    assert_eq!(ids, ["a", "b"]);
}

#[test]
fn a_chain_runs_from_the_outermost_folder() {
    let folders = vec![
        folder("d", "D", Some("b")),
        folder("a", "A", None),
        folder("b", "B", Some("a")),
    ];
    let chain = |id: &str| ancestor_folder_ids(&folders, &Some(id.to_string()));
    assert_eq!(chain("d"), ["a", "b", "d"]);
    assert_eq!(chain("a"), ["a"]);
    assert!(ancestor_folder_ids(&folders, &None).is_empty());
}
