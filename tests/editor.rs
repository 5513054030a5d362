use iced::widget::text_editor::{Action, Edit, Motion};
use iced_editor::editor::{Editor, Effect, Message, Status};
use iced_editor::error::Error;
use iced_editor::files::{chosen, default_file, read_finished, save_target, write_finished, SaveStep};
use iced_editor::display::position_text;
use std::io::ErrorKind;

fn insert(c: char) -> Message {
    Message::EditText(Action::Edit(Edit::Insert(c)))
}

fn opened(path: &str, text: &str) -> Message {
    Message::FileOpened(Ok((path.to_string(), text.to_string())))
}

fn fresh() -> Editor {
    Editor::new("/base/src/main.rs".to_string()).0
}

#[test]
fn startup_asks_for_the_default_document() {
    let (editor, effect) = Editor::new(default_file("/base"));
    assert_eq!(effect, Effect::Load("/base/src/main.rs".to_string()));
    assert_eq!(editor.path, None);
    assert!(editor.is_dirty);
    assert_eq!(editor.error, None);
    assert_eq!(editor.status(), Status::NewFile);
}

#[test]
fn failed_startup_then_new_document() {
    let mut editor = fresh();
    let failed = read_finished("/base/src/main.rs".to_string(), Err(ErrorKind::NotFound));
    assert_eq!(editor.update(Message::FileOpened(failed)), Effect::Nothing);
    assert_eq!(editor.update(Message::New), Effect::Nothing);
    assert_eq!(editor.path, None);
    assert!(editor.is_dirty);
    assert_eq!(editor.text(), "\n");
    assert_eq!(editor.position(), "1:1");
}

#[test]
fn insert_on_empty_buffer() {
    let mut editor = fresh();
    editor.update(opened("/tmp/a.txt", ""));
    assert!(!editor.is_dirty);
    editor.update(insert('h'));
    assert!(editor.is_dirty);
    editor.update(insert('i'));
    assert_eq!(editor.text(), "hi\n");
    assert_eq!(editor.cursor(), (0, 2));
    assert_eq!(editor.position(), "1:3");
    assert!(editor.is_dirty);
}

#[test]
fn open_not_found_records_the_error() {
    let mut editor = fresh();
    editor.update(opened("/tmp/a.txt", "abc\n"));
    let failed = read_finished("/tmp/missing.txt".to_string(), Err(ErrorKind::NotFound));
    assert_eq!(failed, Err(Error::IO(ErrorKind::NotFound)));
    editor.update(Message::FileOpened(failed));
    assert_eq!(editor.error, Some(Error::IO(ErrorKind::NotFound)));
    assert_eq!(editor.path, Some("/tmp/a.txt".to_string()));
    assert_eq!(editor.text(), "abc\n");
    assert_eq!(editor.status(), Status::Failed(ErrorKind::NotFound));
}

#[test]
fn successful_open_replaces_the_state() {
    let mut editor = fresh();
    editor.update(Message::FileOpened(Err(Error::IO(ErrorKind::PermissionDenied))));
    editor.update(insert('x'));
    editor.update(opened("/tmp/b.rs", "fn main() {}\n"));
    assert_eq!(editor.path, Some("/tmp/b.rs".to_string()));
    assert_eq!(editor.text(), "fn main() {}\n");
    assert!(!editor.is_dirty);
    assert_eq!(editor.error, None);
    assert_eq!(editor.status(), Status::Path("/tmp/b.rs".to_string()));
}

#[test]
fn edits_keep_the_document_dirty_until_a_save() {
    let mut editor = fresh();
    editor.update(opened("/tmp/c.txt", "abc\n"));
    editor.update(insert('z'));
    assert!(editor.is_dirty);
    editor.update(Message::EditText(Action::Move(Motion::Right)));
    assert!(editor.is_dirty);
    editor.update(Message::FileOpened(Err(Error::DialogClosed)));
    assert!(editor.is_dirty);
    editor.update(Message::Open);
    editor.update(Message::EditText(Action::Edit(Edit::Backspace)));
    assert!(editor.is_dirty);
    editor.update(Message::FileSaved(Ok("/tmp/c.txt".to_string())));
    assert!(!editor.is_dirty);
}

#[test]
fn cursor_actions_leave_the_dirty_flag() {
    let mut editor = fresh();
    editor.update(opened("/tmp/d.txt", "one\ntwo\n"));
    editor.update(Message::EditText(Action::Move(Motion::DocumentEnd)));
    editor.update(Message::EditText(Action::Select(Motion::Left)));
    editor.update(Message::EditText(Action::SelectWord));
    editor.update(Message::EditText(Action::SelectLine));
    editor.update(Message::EditText(Action::Move(Motion::WordLeft)));
    assert!(!editor.is_dirty);
    assert!(!editor.can_save());
    assert_eq!(editor.text(), "one\ntwo\n");
    let mut dirty = fresh();
    dirty.update(Message::EditText(Action::Move(Motion::Left)));
    assert!(dirty.is_dirty);
    assert!(dirty.can_save());
}

#[test]
fn save_without_path_goes_to_the_chosen_destination() {
    let mut editor = fresh();
    editor.update(insert('a'));
    let effect = editor.update(Message::Save);
    let (text, path) = match effect {
        Effect::Save { text, path } => (text, path),
        other => panic!("unexpected effect {:?}", other),
    };
    assert_eq!(text, "a\n");
    assert_eq!(path, None);
    assert_eq!(save_target(path), SaveStep::ChooseDestination);
    let dest = chosen(Some("/tmp/new.txt".to_string())).unwrap();
    let saved = write_finished(dest, Ok(()));
    assert_eq!(saved, Ok("/tmp/new.txt".to_string()));
    editor.update(Message::FileSaved(saved));
    assert_eq!(editor.path, Some("/tmp/new.txt".to_string()));
    assert!(!editor.is_dirty);
}

#[test]
fn save_with_path_writes_there_without_a_dialog() {
    let mut editor = fresh();
    editor.update(opened("/tmp/e.txt", "e\n"));
    let effect = editor.update(Message::Save);
    assert_eq!(
        effect,
        Effect::Save { text: "e\n".to_string(), path: Some("/tmp/e.txt".to_string()) }
    );
    assert_eq!(
        save_target(Some("/tmp/e.txt".to_string())),
        SaveStep::Write("/tmp/e.txt".to_string())
    );
}

#[test]
fn failed_write_records_the_error() {
    let mut editor = fresh();
    editor.update(insert('q'));
    let saved = write_finished("/root/x".to_string(), Err(ErrorKind::PermissionDenied));
    assert_eq!(saved, Err(Error::IO(ErrorKind::PermissionDenied)));
    editor.update(Message::FileSaved(saved));
    assert_eq!(editor.error, Some(Error::IO(ErrorKind::PermissionDenied)));
    assert_eq!(editor.path, None);
    assert!(editor.is_dirty);
}

#[test]
fn closing_the_open_dialog_changes_nothing() {
    let mut editor = fresh();
    editor.update(opened("/tmp/f.txt", "f\n"));
    editor.update(insert('g'));
    assert_eq!(editor.update(Message::Open), Effect::PickAndLoad);
    let outcome = chosen(None);
    assert_eq!(outcome, Err(Error::DialogClosed));
    editor.update(Message::FileOpened(outcome.map(|p| (p, String::new()))));
    assert_eq!(editor.path, Some("/tmp/f.txt".to_string()));
    assert_eq!(editor.text(), "gf\n");
    assert!(editor.is_dirty);
    assert!(!editor.error.unwrap().is_io());
    assert_eq!(editor.status(), Status::Path("/tmp/f.txt".to_string()));
}

#[test]
fn closing_the_save_dialog_changes_nothing() {
    let mut editor = fresh();
    editor.update(insert('s'));
    editor.update(Message::Save);
    editor.update(Message::FileSaved(chosen(None)));
    assert_eq!(editor.path, None);
    assert_eq!(editor.text(), "s\n");
    assert!(editor.is_dirty);
    assert_eq!(editor.error, Some(Error::DialogClosed));
    assert_eq!(editor.status(), Status::NewFile);
}

#[test]
fn saved_text_reads_back_as_the_same_text() {
    let mut editor = fresh();
    for c in "let x = 1;".chars() {
        editor.update(insert(c));
    }
    editor.update(Message::EditText(Action::Edit(Edit::Enter)));
    editor.update(insert('y'));
    let text = match editor.update(Message::Save) {
        Effect::Save { text, .. } => text,
        other => panic!("unexpected effect {:?}", other),
    };
    assert_eq!(text, "let x = 1;\ny\n");
    let mut other = fresh();
    other.update(Message::FileOpened(read_finished("/tmp/r.rs".to_string(), Ok(text.clone()))));
    assert_eq!(other.text(), text);
    assert_eq!(other.path, Some("/tmp/r.rs".to_string()));
}

#[test]
fn default_file_is_under_the_base() {
    assert_eq!(default_file("/home/u/editor"), "/home/u/editor/src/main.rs");
    assert_eq!(default_file(""), "/src/main.rs");
}

#[test]
fn positions_are_one_based() {
    assert_eq!(position_text(0, 2), "1:3");
    assert_eq!(position_text(9, 99), "10:100");
    assert_eq!(position_text(0, 0), "1:1");
}

#[test]
fn error_kinds() {
    assert!(Error::IO(ErrorKind::NotFound).is_io());
    assert!(!Error::DialogClosed.is_io());
    assert_eq!(
        read_finished("/p".to_string(), Ok("t".to_string())),
        Ok(("/p".to_string(), "t".to_string()))
    );
}

#[test]
fn title_of_the_window() {
    assert_eq!(fresh().title(), "Iced Editor");
}

#[test]
fn successful_save_clears_the_error() {
    let mut editor = fresh();
    editor.update(insert('w'));
    let failed = write_finished("/root/w.txt".to_string(), Err(ErrorKind::PermissionDenied));
    editor.update(Message::FileSaved(failed));
    assert_eq!(editor.status(), Status::Failed(ErrorKind::PermissionDenied));
    let saved = write_finished("/tmp/w.txt".to_string(), Ok(()));
    editor.update(Message::FileSaved(saved));
    assert_eq!(editor.error, None);
    assert!(!editor.is_dirty);
    assert_eq!(editor.status(), Status::Path("/tmp/w.txt".to_string()));
    assert_eq!(editor.text(), "w\n");
}

#[test]
fn scrolling_leaves_the_text() {
    let mut editor = fresh();
    editor.update(opened("/tmp/s.txt", "a\nb\n"));
    editor.update(Message::EditText(Action::Scroll { lines: 3 }));
    editor.update(Message::EditText(Action::Scroll { lines: -2 }));
    assert!(!editor.is_dirty);
    assert_eq!(editor.text(), "a\nb\n");
}

#[test]
fn paste_on_empty_buffer() {
    let mut editor = fresh();
    editor.update(Message::EditText(Action::Edit(Edit::Paste(std::sync::Arc::new(
        "hi".to_string(),
    )))));
    assert_eq!(editor.text(), "hi\n");
    assert_eq!(editor.cursor(), (0, 2));
    assert_eq!(editor.position(), "1:3");
    assert!(editor.is_dirty);
}
