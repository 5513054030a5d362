//! What holds of the controller over several messages and file operations.
use vstd::prelude::*;
use crate::buffer::{lines_of_text, text_of_lines};
use crate::editor::{
    EditorView, Effect, Message, step, emits, dirty_after, is_content_edit, is_success,
};
use crate::error::Error;
use crate::files::{SaveStep, save_target_spec, save_result, open_result, read_finished_spec, write_finished_spec};

verus! {

/// The dirty flag after a run of messages, starting from `d`.
pub open spec fn dirty_run(d: bool, ms: Seq<Message>) -> bool
    decreases ms.len(),
{
    if ms.len() == 0 {
        d
    } else {
        dirty_after(dirty_run(d, ms.drop_last()), ms.last())
    }
}

/// The path of a save effect; `None` for any other effect.
pub open spec fn save_path(e: Effect) -> Option<String> {
    match e {
        Effect::Save { path, .. } => path,
        _ => None,
    }
}

/// The text of a save effect; empty for any other effect.
pub open spec fn save_text(e: Effect) -> Seq<char> {
    match e {
        Effect::Save { text, .. } => text@,
        _ => Seq::empty(),
    }
}

/// An edit that changes the text makes the document dirty, and it stays
/// dirty through every later message up to the next successful open or save.
pub proof fn lemma_edit_keeps_dirty(d: bool, ms: Seq<Message>)
    requires
        ms.len() > 0,
        is_content_edit(ms[0]),
        forall|i: int| 0 <= i < ms.len() ==> !is_success(#[trigger] ms[i]),
    ensures
        forall|k: int| 1 <= k <= ms.len() ==> dirty_run(d, #[trigger] ms.take(k)),
{
    assert forall|k: int| 1 <= k <= ms.len() implies dirty_run(d, #[trigger] ms.take(k)) by {
        lemma_prefix_dirty(d, ms, k);
    }
}

proof fn lemma_prefix_dirty(d: bool, ms: Seq<Message>, k: int)
    requires
        1 <= k <= ms.len(),
        is_content_edit(ms[0]),
        forall|i: int| 0 <= i < ms.len() ==> !is_success(#[trigger] ms[i]),
    ensures
        dirty_run(d, ms.take(k)),
    decreases k,
{
    let p = ms.take(k);
    assert(p.drop_last() =~= ms.take(k - 1));
    assert(p.last() == ms[k - 1]);
    if k == 1 {
        assert(ms.take(0) =~= Seq::<Message>::empty());
    } else {
        lemma_prefix_dirty(d, ms, k - 1);
        assert(!is_success(ms[k - 1]));
    }
}

/// An action that moves the cursor or the selection and does not edit
/// leaves the dirty flag as it was.
pub proof fn lemma_cursor_action_keeps_dirty(v: EditorView, a: iced::widget::text_editor::Action, w: EditorView)
    requires
        !(a is Edit),
        step(v, Message::EditText(a), w),
    ensures
        w.is_dirty == v.is_dirty,
        w.lines == v.lines,
{
}

/// A successful open sets the path, lays out the text read, clears the
/// dirty flag and the last error, whatever the state before.
pub proof fn lemma_open_replaces_state(v: EditorView, p: String, t: String, w: EditorView)
    requires
        step(v, Message::FileOpened(Ok((p, t))), w),
    ensures
        w.path == Some(p),
        w.lines == lines_of_text(t@),
        !w.is_dirty,
        w.error is None,
{
}

/// Saving a document with no path to the destination `p` that the user
/// chose, where the write succeeds, gives it the path `p`, makes it clean,
/// clears the last error and keeps the text.
pub proof fn lemma_save_to_chosen_destination(
    v: EditorView,
    e: Effect,
    v1: EditorView,
    p: String,
    w: EditorView,
)
    requires
        v.path is None,
        step(v, Message::Save, v1),
        emits(v, Message::Save, e),
        step(v1, Message::FileSaved(save_result(save_path(e), Some(p), Ok(()))), w),
    ensures
        w.path == Some(p),
        !w.is_dirty,
        w.error is None,
        w.lines == v.lines,
{
}

/// Saving a document that has the path `p` opens no dialog and writes to `p`,
/// whatever a dialog would have given.
pub proof fn lemma_save_to_own_path(
    v: EditorView,
    e: Effect,
    p: String,
    choice: Option<String>,
    write: Result<(), std::io::ErrorKind>,
)
    requires
        v.path == Some(p),
        emits(v, Message::Save, e),
    ensures
        save_target_spec(save_path(e)) == SaveStep::Write(p),
        save_result(save_path(e), choice, write) == write_finished_spec(p, write),
{
}

/// Closing the open dialog without a choice leaves the path, the buffer and
/// the dirty flag as they were, and records no read or write failure.
pub proof fn lemma_cancel_open(
    v: EditorView,
    e: Effect,
    v1: EditorView,
    read: Result<String, std::io::ErrorKind>,
    w: EditorView,
)
    requires
        step(v, Message::Open, v1),
        emits(v, Message::Open, e),
        step(v1, Message::FileOpened(open_result(None, read)), w),
    ensures
        e == Effect::PickAndLoad,
        w.path == v.path,
        w.lines == v.lines,
        w.cursor == v.cursor,
        w.selection == v.selection,
        w.is_dirty == v.is_dirty,
        !(w.error matches Some(Error::IO(_))),
{
}

/// Closing the save dialog of a document with no path leaves the path, the
/// buffer and the dirty flag as they were, and records no read or write
/// failure.
pub proof fn lemma_cancel_save(
    v: EditorView,
    e: Effect,
    v1: EditorView,
    write: Result<(), std::io::ErrorKind>,
    w: EditorView,
)
    requires
        v.path is None,
        step(v, Message::Save, v1),
        emits(v, Message::Save, e),
        step(v1, Message::FileSaved(save_result(save_path(e), None, write)), w),
    ensures
        w.path == v.path,
        w.lines == v.lines,
        w.cursor == v.cursor,
        w.selection == v.selection,
        w.is_dirty == v.is_dirty,
        !(w.error matches Some(Error::IO(_))),
{
}

/// A save writes the buffer's full text; where the file at `p` then reads back
/// what was written, opening it lays out exactly that text, at path `p`.
pub proof fn lemma_reload_lays_out_saved_text(
    v: EditorView,
    e: Effect,
    p: String,
    t: String,
    x: EditorView,
    w: EditorView,
)
    requires
        emits(v, Message::Save, e),
        t@ == save_text(e),
        step(x, Message::FileOpened(read_finished_spec(p, Ok(t))), w),
    ensures
        save_text(e) == text_of_lines(v.lines),
        w.path == Some(p),
        w.lines == lines_of_text(text_of_lines(v.lines)),
        !w.is_dirty,
{
}

} // verus!
