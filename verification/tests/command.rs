use bookmarker::bookmark::Bookmark;
use bookmarker::bookmark::Content;
use bookmarker::command::command_add_clipboard;
use bookmarker::command::command_add_input;
use bookmarker::command::command_add_selection;
use bookmarker::command::command_clear;
use bookmarker::command::command_list;
use bookmarker::command::command_select;
use bookmarker::command::command_select_interactive;
use bookmarker::storage::BookmarkStore;

fn store_with(texts: &[&str]) -> BookmarkStore {
    let mut store = BookmarkStore::new();
    for text in texts {
        assert_eq!(command_add_input(&mut store, text.to_string()), 0);
    }
    store
}

#[test]
fn add_input_url_is_classified_and_round_trips() {
    let mut store = BookmarkStore::new();
    let code = command_add_input(&mut store, "https://example.com/path".to_string());
    assert_eq!(code, 0);
    let stored = store.get_bookmarks().last().unwrap();
    assert!(matches!(stored.content, Content::Url { .. }));
    assert_eq!(stored.content.long(), "https://example.com/path");
}

#[test]
fn add_input_path_is_classified_and_round_trips() {
    let mut store = BookmarkStore::new();
    let code = command_add_input(&mut store, "/usr/local/bin".to_string());
    assert_eq!(code, 0);
    let stored = store.get_bookmarks().last().unwrap();
    assert!(matches!(stored.content, Content::Path { .. }));
    assert_eq!(stored.content.long(), "/usr/local/bin");
}

#[test]
fn add_input_plain_text_falls_back_and_round_trips() {
    let mut store = BookmarkStore::new();
    let code = command_add_input(&mut store, "just some notes".to_string());
    assert_eq!(code, 0);
    let stored = store.get_bookmarks().last().unwrap();
    assert!(matches!(stored.content, Content::Text { .. }));
    assert_eq!(stored.content.long(), "just some notes");
}

#[test]
fn add_clipboard_without_content_fails_and_changes_nothing() {
    let mut store = store_with(&["kept"]);
    let before = store.get_bookmarks().clone();
    assert_eq!(command_add_clipboard(&mut store, None), 1);
    assert_eq!(store.get_bookmarks(), &before);
}

#[test]
fn add_clipboard_with_content_appends() {
    let mut store = BookmarkStore::new();
    let code = command_add_clipboard(&mut store, Some("https://example.com".to_string()));
    assert_eq!(code, 0);
    assert_eq!(store.len(), 1);
    assert_eq!(
        store.get_bookmarks()[0].content.long(),
        "https://example.com"
    );
}

#[test]
fn add_selection_mirrors_add_clipboard() {
    let mut store = BookmarkStore::new();
    assert_eq!(command_add_selection(&mut store, None), 1);
    assert_eq!(store.len(), 0);
    assert_eq!(
        command_add_selection(&mut store, Some("~/notes.txt".to_string())),
        0
    );
    let stored = store.get_bookmarks().last().unwrap();
    assert!(matches!(stored.content, Content::Path { .. }));
    assert_eq!(stored.content.long(), "~/notes.txt");
}

#[test]
fn list_yields_short_forms_in_order() {
    let store = store_with(&["https://example.com/path", "/usr/local/bin", "notes"]);
    let (lines, code) = command_list(&store);
    assert_eq!(code, 0);
    assert_eq!(lines, vec!["example.com/path", "/usr/local/bin", "notes"]);
}

#[test]
fn list_of_empty_store_is_empty() {
    let store = BookmarkStore::new();
    let (lines, code) = command_list(&store);
    assert_eq!(code, 0);
    assert!(lines.is_empty());
}

#[test]
fn select_past_end_fails_without_text() {
    let store = store_with(&["one", "two"]);
    let (text, code) = command_select(&store, 5);
    assert_eq!(text, None);
    assert_eq!(code, 1);
}

#[test]
fn select_in_range_yields_long_form() {
    let store = store_with(&["https://example.com/path", "two"]);
    let (text, code) = command_select(&store, 0);
    assert_eq!(text.as_deref(), Some("https://example.com/path"));
    assert_eq!(code, 0);
}

#[test]
fn clear_declined_leaves_store_unchanged() {
    let mut store = store_with(&["kept one", "kept two"]);
    let before = store.get_bookmarks().clone();
    let code = command_clear(&mut store, false, false);
    assert_eq!(code, 1);
    assert_eq!(store.get_bookmarks(), &before);
}

#[test]
fn clear_with_flag_or_confirmation_wipes() {
    let mut store = store_with(&["a", "b"]);
    assert_eq!(command_clear(&mut store, true, false), 0);
    assert_eq!(store.len(), 0);

    let mut confirmed = store_with(&["c"]);
    assert_eq!(command_clear(&mut confirmed, false, true), 0);
    assert_eq!(confirmed.len(), 0);
}

#[test]
fn select_interactive_resolves_the_pick() {
    let store = store_with(&["first", "second"]);
    let (text, code) = command_select_interactive(&store, 1);
    assert_eq!(text.as_deref(), Some("second"));
    assert_eq!(code, 0);

    let (missing, fail_code) = command_select_interactive(&store, 2);
    assert_eq!(missing, None);
    assert_eq!(fail_code, 1);
}

#[test]
fn stored_bookmark_equals_direct_interpretation() {
    let mut store = BookmarkStore::new();
    command_add_input(&mut store, "plain".to_string());
    let expected = Bookmark {
        content: Content::Text {
            raw: "plain".to_string(),
        },
    };
    assert_eq!(store.get_bookmarks().last(), Some(&expected));
}
