//! The command handlers: the decision logic of each user command, written
//! over plain values. The caller captures text, prompts, and writes the
//! clipboard; these functions decide what happens to the store, what text (if
//! any) is restored, and which exit code the process reports — `0` on
//! success, `1` on any failure.

use vstd::prelude::*;

use crate::bookmark::Bookmark;
use crate::interpreter::match_interpreter;
use crate::interpreter::resolve_spec;
use crate::storage::BookmarkStore;

verus! {

/// The outcome every `add` command must satisfy: with no captured text the
/// store is unchanged and the command fails; with captured text, the
/// classified bookmark is appended — earlier bookmarks untouched — and the
/// command succeeds.
pub open spec fn add_outcome(
    pre: Seq<Bookmark>,
    post: Seq<Bookmark>,
    captured: Option<Seq<char>>,
    code: i32,
) -> bool {
    match captured {
        Option::None => code == 1 && post == pre,
        Option::Some(text) => {
            &&& code == 0
            &&& post.len() == pre.len() + 1
            &&& post.subrange(0, pre.len() as int) == pre
            &&& post.last().content.wf()
            &&& post.last().content.long_spec() == text
            &&& post.last().content.kind() == resolve_spec(text)
        },
    }
}

/// The captured text a command received, as the sequence of its characters.
pub open spec fn captured_view(captured: Option<String>) -> Option<Seq<char>> {
    match captured {
        Option::None => Option::None,
        Option::Some(text) => Option::Some(text@),
    }
}

/// Classifies the captured text and appends the resulting bookmark: the step
/// shared by every `add` command once its text is in hand.
fn add_captured(store: &mut BookmarkStore, text: &str) -> (code: i32)
    ensures
        add_outcome(old(store)@, final(store)@, Some(text@), code),
{
    match match_interpreter(text) {
        Option::None => 1,
        Option::Some(interpreter) => {
            let bookmark = interpreter.interpret(text);
            store.store_bookmark(bookmark);
            proof {
                assert(final(store)@.subrange(0, old(store)@.len() as int) =~= old(store)@);
            }
            0
        },
    }
}

/// Adds a bookmark from the clipboard. `clipboard` is what the operating
/// system handed over, `None` when no content was available.
pub fn command_add_clipboard(store: &mut BookmarkStore, clipboard: Option<String>) -> (code: i32)
    ensures
        add_outcome(old(store)@, final(store)@, captured_view(clipboard), code),
{
    match clipboard {
        Option::None => 1,
        Option::Some(text) => add_captured(store, text.as_str()),
    }
}

/// Adds a bookmark from the current selection. `selection` is what the
/// operating system handed over, `None` when no content was available.
pub fn command_add_selection(store: &mut BookmarkStore, selection: Option<String>) -> (code: i32)
    ensures
        add_outcome(old(store)@, final(store)@, captured_view(selection), code),
{
    match selection {
        Option::None => 1,
        Option::Some(text) => add_captured(store, text.as_str()),
    }
}

/// Adds a bookmark from text given directly on the command line.
pub fn command_add_input(store: &mut BookmarkStore, input: String) -> (code: i32)
    ensures
        add_outcome(old(store)@, final(store)@, Some(input@), code),
{
    add_captured(store, input.as_str())
}

/// Lists the stored bookmarks: yields one short display line per bookmark,
/// in insertion order, and always succeeds.
pub fn command_list(store: &BookmarkStore) -> (r: (Vec<String>, i32))
    ensures
        r.1 == 0,
        r.0@.len() == store@.len(),
        forall|i: int|
            0 <= i < store@.len() ==> #[trigger] r.0@[i]@ == store@[i].content.short_spec(),
{
    let bookmarks = store.get_bookmarks();
    let n = bookmarks.len();
    let mut lines: Vec<String> = Vec::new();
    let mut idx: usize = 0;
    while idx < n
        invariant
            idx <= n,
            n == store@.len(),
            bookmarks@ == store@,
            lines@.len() == idx,
            forall|i: int| 0 <= i < idx ==> #[trigger] lines@[i]@ == store@[i].content.short_spec(),
        decreases n - idx,
    {
        lines.push(bookmarks[idx].content.short());
        idx = idx + 1;
    }
    (lines, 0)
}

/// Clears the store once the user has consented. `yes` is the command-line
/// flag; `confirmed` is the answer the confirmation prompt returned, and is
/// consulted only when the flag was not given. Declining leaves the store
/// untouched and fails.
pub fn command_clear(store: &mut BookmarkStore, yes: bool, confirmed: bool) -> (code: i32)
    ensures
        (yes || confirmed) ==> code == 0 && final(store)@ == Seq::<Bookmark>::empty(),
        !(yes || confirmed) ==> code == 1 && final(store)@ == old(store)@,
{
    if yes || confirmed {
        store.clear();
        0
    } else {
        1
    }
}

/// Selects the bookmark at ordinal position `id` in the current listing
/// order. On success, yields the long form to restore to the clipboard; when
/// `id` is past the end of the store, yields nothing, and fails without any
/// text to write.
pub fn command_select(store: &BookmarkStore, id: u32) -> (r: (Option<String>, i32))
    ensures
        match r.0 {
            Option::Some(text) => {
                &&& id < store@.len()
                &&& r.1 == 0
                &&& text@ == store@[id as int].content.long_spec()
            },
            Option::None => id >= store@.len() && r.1 == 1,
        },
{
    let bookmarks = store.get_bookmarks();
    let idx = id as usize;
    if idx < bookmarks.len() {
        let text = bookmarks[idx].content.long();
        (Some(text), 0)
    } else {
        (None, 1)
    }
}

/// Resolves an interactive pick: the caller ran the picker over the listing
/// and hands back the chosen ordinal position. A pick inside the store
/// yields that bookmark's long form; one outside it fails.
pub fn command_select_interactive(store: &BookmarkStore, picked: usize) -> (r: (
    Option<String>,
    i32,
))
    ensures
        match r.0 {
            Option::Some(text) => {
                &&& picked < store@.len()
                &&& r.1 == 0
                &&& text@ == store@[picked as int].content.long_spec()
            },
            Option::None => picked >= store@.len() && r.1 == 1,
        },
{
    let bookmarks = store.get_bookmarks();
    if picked < bookmarks.len() {
        let text = bookmarks[picked].content.long();
        (Some(text), 0)
    } else {
        (None, 1)
    }
}

} // verus!
