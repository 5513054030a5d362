//! The text buffer, held in the GUI toolkit's editor content, and the edit
//! actions it performs.
use vstd::prelude::*;
use iced::widget::text_editor;

verus! {

/// The toolkit's point, carried opaque inside click and drag actions.
#[verifier::external_type_specification]
#[verifier::external_body]
#[verifier::reject_recursive_types(T)]
pub struct ExPoint<T>(iced::Point<T>);

/// The toolkit's cursor motions, an enum of unit variants.
#[verifier::external_type_specification]
pub struct ExMotion(text_editor::Motion);

/// The toolkit's text edits: insert, paste, enter, backspace, delete.
#[verifier::external_type_specification]
pub struct ExEdit(text_editor::Edit);

/// The toolkit's editor actions, read by variant.
#[verifier::external_type_specification]
pub struct ExAction(text_editor::Action);

/// A text buffer: the toolkit's editor content, which lays the text out in
/// lines and keeps the cursor and the selection. The view of the application
/// draws the content itself.
#[verifier::external_body]
pub struct Buffer {
    pub content: text_editor::Content,
}

/// Relies on `Action::is_edit`, which matches the `Edit` variant alone.
pub assume_specification[ text_editor::Action::is_edit ](a: &text_editor::Action) -> (r: bool)
    ensures
        r == (*a is Edit),
;

/// The lines that a buffer holds, each without its line ending.
pub uninterp spec fn buffer_lines(b: Buffer) -> Seq<Seq<char>>;

/// The zero-based line and column of a buffer's cursor.
pub uninterp spec fn buffer_cursor(b: Buffer) -> (usize, usize);

/// Where the selection of a buffer starts, as a line and a column; `None`
/// where nothing is selected.
pub uninterp spec fn buffer_selection(b: Buffer) -> Option<(usize, usize)>;

/// How many lines a buffer is scrolled by.
pub uninterp spec fn buffer_scroll(b: Buffer) -> i32;

/// The lines that an edit makes of the lines `ls`, with the cursor at
/// `cursor` and the selection starting at `selection`.
pub uninterp spec fn edited_lines(
    ls: Seq<Seq<char>>,
    cursor: (usize, usize),
    selection: Option<(usize, usize)>,
    e: text_editor::Edit,
) -> Seq<Seq<char>>;

/// Whether the toolkit's text widget has laid out the lines around the
/// cursor, which it does when it draws the buffer.
pub uninterp spec fn buffer_laid_out(b: Buffer) -> bool;

/// Whether the action moves the cursor by the layout of the lines: up or
/// down, by a page, or to a boundary of the line on screen.
pub open spec fn needs_layout(a: text_editor::Action) -> bool {
    match a {
        text_editor::Action::Move(m) | text_editor::Action::Select(m) => {
            m is Up || m is Down || m is Home || m is End || m is PageUp || m is PageDown
        },
        _ => false,
    }
}

/// Whether the buffer can perform the action without a panic: a motion that
/// goes by the layout needs the lines laid out, and a scroll must keep the
/// scroll offset within `i32`.
pub open spec fn can_perform(b: Buffer, a: text_editor::Action) -> bool {
    &&& needs_layout(a) ==> buffer_laid_out(b)
    &&& a matches text_editor::Action::Scroll { lines } ==> i32::MIN <= buffer_scroll(b) + lines
        <= i32::MAX
}

/// The lines that the toolkit's editor makes of a text when it lays it out.
pub uninterp spec fn lines_of_text(t: Seq<char>) -> Seq<Seq<char>>;

/// The lines joined with `'\n'`.
pub open spec fn join_lines(ls: Seq<Seq<char>>) -> Seq<char>
    decreases ls.len(),
{
    if ls.len() == 0 {
        seq![]
    } else if ls.len() == 1 {
        ls[0]
    } else {
        join_lines(ls.drop_last()) + seq!['\n'] + ls.last()
    }
}

/// The full text of a buffer with the given lines: the lines joined with
/// `'\n'`, with a final `'\n'` added where the joined text lacks one.
pub open spec fn text_of_lines(ls: Seq<Seq<char>>) -> Seq<char> {
    let j = join_lines(ls);
    if j.len() > 0 && j.last() == '\n' {
        j
    } else {
        j + seq!['\n']
    }
}

impl Buffer {
    /// Relies on `Content::with_text`: a content that holds the given text,
    /// split into lines and not laid out yet.
    #[verifier::external_body]
    pub(crate) fn with_text(t: &str) -> (r: Buffer)
        ensures
            buffer_lines(r) == lines_of_text(t@),
            !buffer_laid_out(r),
            buffer_scroll(r) == 0,
    {
        Buffer { content: text_editor::Content::with_text(t) }
    }

    /// Relies on `Content::perform`: an edit changes the lines as a function
    /// of the lines, the cursor, the selection and the edit; an action that is
    /// no `Edit` (a motion, a selection, a click, a drag or a scroll) moves the
    /// cursor, the selection or the scroll offset and leaves the lines as they
    /// were; a scroll adds its lines to the offset, unchecked. A motion that
    /// goes by the layout panics where the lines around the cursor were not
    /// laid out.
    #[verifier::external_body]
    pub(crate) fn perform(&mut self, a: text_editor::Action)
        requires
            can_perform(*old(self), a),
        ensures
            a matches text_editor::Action::Edit(e) ==> buffer_lines(*final(self)) == edited_lines(
                buffer_lines(*old(self)),
                buffer_cursor(*old(self)),
                buffer_selection(*old(self)),
                e,
            ),
            !(a is Edit) ==> buffer_lines(*final(self)) == buffer_lines(*old(self)),
            a matches text_editor::Action::Scroll { lines } ==> buffer_scroll(*final(self))
                == buffer_scroll(*old(self)) + lines,
    {
        self.content.perform(a)
    }

    /// Relies on `Content::text`: the lines joined with `'\n'`, ending in `'\n'`.
    #[verifier::external_body]
    pub(crate) fn text(&self) -> (r: String)
        ensures
            r@ == text_of_lines(buffer_lines(*self)),
    {
        self.content.text()
    }

    /// Relies on `Content::cursor_position`: the cursor's line and column.
    #[verifier::external_body]
    pub(crate) fn cursor_position(&self) -> (r: (usize, usize))
        ensures
            r == buffer_cursor(*self),
    {
        self.content.cursor_position()
    }
}

} // verus!
