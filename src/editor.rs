//! The editor controller: its state, the messages it takes, the file
//! operations it asks for, and the projection of its state that is drawn.
use vstd::prelude::*;
use iced::widget::text_editor;
use crate::buffer::{Buffer, can_perform, buffer_lines, buffer_selection, edited_lines, buffer_cursor, lines_of_text, text_of_lines};
use crate::error::Error;
use crate::display::{position_text, position_spec};

verus! {

/// One event for the controller: a user action, or a finished file operation.
#[derive(Debug)]
pub enum Message {
    /// An action on the text: an edit, or a motion of the cursor or selection.
    EditText(text_editor::Action),
    /// An open finished, with the path and the text read, or an error.
    FileOpened(Result<(String, String), Error>),
    /// The user asks to open a file.
    Open,
    /// The user asks for a new, empty document.
    New,
    /// The user asks to save the document.
    Save,
    /// A save finished, with the path written, or an error.
    FileSaved(Result<String, Error>),
}

/// A file operation that the controller asks the runtime to perform; its
/// outcome comes back as a message.
#[derive(Debug, PartialEq, Eq)]
pub enum Effect {
    /// Nothing to perform.
    Nothing,
    /// Read the file at this path; the outcome comes back as `FileOpened`.
    Load(String),
    /// Let the user pick a file, then read it; the outcome comes back as
    /// `FileOpened`.
    PickAndLoad,
    /// Write `text` to `path`, or where the user chooses when `path` is
    /// `None`; the outcome comes back as `FileSaved`.
    Save { text: String, path: Option<String> },
}

/// What the status line shows.
#[derive(Debug, PartialEq, Eq)]
pub enum Status {
    /// The last read or write failed, with this kind.
    Failed(std::io::ErrorKind),
    /// The document's path.
    Path(String),
    /// The document has no path yet.
    NewFile,
}

/// The editor's state.
pub struct Editor {
    /// Where the document was loaded from or saved to; `None` for a new one.
    pub path: Option<String>,
    /// The text and its cursor.
    pub buffer: Buffer,
    /// The most recent failure of an open or a save.
    pub error: Option<Error>,
    /// Whether the text may differ from what was last loaded or saved.
    pub is_dirty: bool,
}

/// The editor's state as plain values: the buffer stands as its lines, its
/// cursor and the start of its selection.
pub struct EditorView {
    pub path: Option<String>,
    pub lines: Seq<Seq<char>>,
    pub cursor: (usize, usize),
    pub selection: Option<(usize, usize)>,
    pub error: Option<Error>,
    pub is_dirty: bool,
}

impl View for Editor {
    type V = EditorView;

    open spec fn view(&self) -> EditorView {
        EditorView {
            path: self.path,
            lines: buffer_lines(self.buffer),
            cursor: buffer_cursor(self.buffer),
            selection: buffer_selection(self.buffer),
            error: self.error,
            is_dirty: self.is_dirty,
        }
    }
}

/// Whether the message is an action that changes the text.
pub open spec fn is_content_edit(m: Message) -> bool {
    match m {
        Message::EditText(a) => a is Edit,
        _ => false,
    }
}

/// Whether the message reports an open or a save that succeeded.
pub open spec fn is_success(m: Message) -> bool {
    match m {
        Message::FileOpened(Ok(_)) => true,
        Message::FileSaved(Ok(_)) => true,
        _ => false,
    }
}

/// The dirty flag after a message.
pub open spec fn dirty_after(d: bool, m: Message) -> bool {
    match m {
        Message::EditText(a) => d || a is Edit,
        Message::FileOpened(Ok(_)) => false,
        Message::New => true,
        Message::FileSaved(Ok(_)) => false,
        _ => d,
    }
}

/// The path after a message.
pub open spec fn path_after(p: Option<String>, m: Message) -> Option<String> {
    match m {
        Message::FileOpened(Ok((q, _))) => Some(q),
        Message::New => None,
        Message::FileSaved(Ok(q)) => Some(q),
        _ => p,
    }
}

/// The last error after a message.
pub open spec fn error_after(e: Option<Error>, m: Message) -> Option<Error> {
    match m {
        Message::FileOpened(Ok(_)) => None,
        Message::FileOpened(Err(x)) => Some(x),
        Message::FileSaved(Ok(_)) => None,
        Message::FileSaved(Err(x)) => Some(x),
        _ => e,
    }
}

/// Whether the message leaves the buffer as it is: all but an action on the
/// text, a new document and a successful open.
pub open spec fn keeps_buffer(m: Message) -> bool {
    match m {
        Message::EditText(_) => false,
        Message::New => false,
        Message::FileOpened(Ok(_)) => false,
        _ => true,
    }
}

/// How the buffer changes on a message: an open lays out the text read, a new
/// document is laid out from the empty text, an edit changes the lines at the
/// cursor and the selection, an action that is no edit keeps the lines, and
/// every other message keeps the lines, the cursor and the selection.
pub open spec fn buffer_follows(v: EditorView, w: EditorView, m: Message) -> bool {
    match m {
        Message::FileOpened(Ok((_, t))) => w.lines == lines_of_text(t@),
        Message::New => w.lines == lines_of_text(Seq::empty()),
        Message::EditText(a) => match a {
            text_editor::Action::Edit(e) => w.lines == edited_lines(v.lines, v.cursor, v.selection, e),
            _ => w.lines == v.lines,
        },
        _ => w.lines == v.lines && w.cursor == v.cursor && w.selection == v.selection,
    }
}

/// One step of the controller: `w` is a state that `v` can become on `m`.
pub open spec fn step(v: EditorView, m: Message, w: EditorView) -> bool {
    &&& w.path == path_after(v.path, m)
    &&& w.is_dirty == dirty_after(v.is_dirty, m)
    &&& w.error == error_after(v.error, m)
    &&& buffer_follows(v, w, m)
}

/// The file operation that `v` asks for on `m`: a pick and load on `Open`, a
/// save of the full text to the current path on `Save`, and none otherwise.
pub open spec fn emits(v: EditorView, m: Message, e: Effect) -> bool {
    match m {
        Message::Open => e == Effect::PickAndLoad,
        Message::Save => match e {
            Effect::Save { text, path } => text@ == text_of_lines(v.lines) && path == v.path,
            _ => false,
        },
        _ => e == Effect::Nothing,
    }
}

/// What the status line shows for a state: a failed read or write while one
/// is recorded, else the path, else that the document is new.
pub open spec fn status_of(v: EditorView) -> Status {
    match v.error {
        Some(Error::IO(k)) => Status::Failed(k),
        _ => match v.path {
            Some(p) => Status::Path(p),
            None => Status::NewFile,
        },
    }
}

fn clone_path(p: &Option<String>) -> (r: Option<String>)
    ensures
        r == *p,
{
    match p {
        Some(s) => Some(s.clone()),
        None => None,
    }
}

impl Editor {
    /// A new, empty, dirty document with no path, and the load of the
    /// default document at `default_path`.
    pub fn new(default_path: String) -> (r: (Editor, Effect))
        ensures
            r.0@.path is None,
            r.0@.lines == lines_of_text(Seq::empty()),
            r.0@.error is None,
            r.0@.is_dirty,
            r.1 == Effect::Load(default_path),
    {
        proof {
            reveal_strlit("");
            assert(""@ =~= Seq::<char>::empty());
        }
        let editor = Editor { path: None, buffer: Buffer::with_text(""), error: None, is_dirty: true };
        (editor, Effect::Load(default_path))
    }

    /// Takes one message: changes the state as `step` says and returns the
    /// file operation to perform, as `emits` says. An action on the text must
    /// be one the buffer can perform: a scroll keeps the scroll offset within
    /// `i32`, and a motion that goes by the layout of the lines (up, down, a
    /// page, home, end) comes only once the text widget has laid them out.
    /// Only the widget lays them out, so verified code never passes such a
    /// motion.
    pub fn update(&mut self, message: Message) -> (r: Effect)
        requires
            message matches Message::EditText(a) ==> can_perform(old(self).buffer, a),
        ensures
            step(old(self)@, message, final(self)@),
            keeps_buffer(message) ==> final(self).buffer == old(self).buffer,
            emits(old(self)@, message, r),
    {
        match message {
            Message::EditText(action) => {
                self.is_dirty = self.is_dirty || action.is_edit();
                self.buffer.perform(action);
                Effect::Nothing
            },
            Message::FileOpened(Ok((path, content))) => {
                self.is_dirty = false;
                self.path = Some(path);
                self.buffer = Buffer::with_text(content.as_str());
                self.error = None;
                Effect::Nothing
            },
            Message::FileOpened(Err(e)) => {
                self.error = Some(e);
                Effect::Nothing
            },
            Message::Open => Effect::PickAndLoad,
            Message::New => {
                proof {
                    reveal_strlit("");
                    assert(""@ =~= Seq::<char>::empty());
                }
                self.path = None;
                self.is_dirty = true;
                self.buffer = Buffer::with_text("");
                Effect::Nothing
            },
            Message::Save => Effect::Save { text: self.buffer.text(), path: clone_path(&self.path) },
            Message::FileSaved(Ok(path)) => {
                self.path = Some(path);
                self.is_dirty = false;
                self.error = None;
                Effect::Nothing
            },
            Message::FileSaved(Err(e)) => {
                self.error = Some(e);
                Effect::Nothing
            },
        }
    }

    /// The title of the application window.
    pub fn title(&self) -> (r: String)
        ensures
            r@ == "Iced Editor"@,
    {
        String::from_str("Iced Editor")
    }

    /// What the status line shows.
    pub fn status(&self) -> (r: Status)
        ensures
            r == status_of(self@),
    {
        match self.error {
            Some(Error::IO(k)) => Status::Failed(k),
            _ => match &self.path {
                Some(p) => Status::Path(p.clone()),
                None => Status::NewFile,
            },
        }
    }

    /// Whether a save is offered: only while the text is dirty.
    pub fn can_save(&self) -> (r: bool)
        ensures
            r == self.is_dirty,
    {
        self.is_dirty
    }

    /// The full text of the buffer: its lines joined with `'\n'`, ending in
    /// `'\n'`.
    pub fn text(&self) -> (r: String)
        ensures
            r@ == text_of_lines(self@.lines),
    {
        self.buffer.text()
    }

    /// The zero-based line and column of the cursor.
    pub fn cursor(&self) -> (r: (usize, usize))
        ensures
            r == buffer_cursor(self.buffer),
    {
        self.buffer.cursor_position()
    }

    /// The cursor position as the status line shows it: one-based
    /// `line:column`.
    pub fn position(&self) -> (r: String)
        ensures
            r@ == position_spec(buffer_cursor(self.buffer).0 as nat + 1, buffer_cursor(self.buffer).1 as nat + 1),
    {
        let (line, column) = self.buffer.cursor_position();
        position_text(line, column)
    }
}


} // verus!
