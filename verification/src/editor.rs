//! What one todo's row does with each thing the user does to it: toggle,
//! destroy, and edit its title in place.

use vstd::prelude::*;
use crate::client::ApiError;
use crate::models::{CreateTodo, Todo};
use crate::text::{is_blank, same_text, trim, trimmed, lemma_trimmed_not_blank};

verus! {

/// The state of one row: the title it shows, whether it is done, whether its
/// editor is open, and the text in the editor.
pub struct RowState {
    pub title: String,
    pub completed: bool,
    pub editing: bool,
    pub edit_text: String,
}

/// A row's state with its texts as character sequences.
pub struct RowView {
    pub title: Seq<char>,
    pub completed: bool,
    pub editing: bool,
    pub edit_text: Seq<char>,
}

impl View for RowState {
    type V = RowView;

    open spec fn view(&self) -> RowView {
        RowView {
            title: self.title@,
            completed: self.completed,
            editing: self.editing,
            edit_text: self.edit_text@,
        }
    }
}

/// What the user does to a row.
pub enum RowEvent {
    /// A click on the check box.
    Toggle,
    /// A click on the destroy button.
    Destroy,
    /// A double click on the title.
    StartEditing,
    /// The editor's text changed to this.
    EditInput(String),
    /// A key went down in the editor; the key's name.
    KeyDown(String),
    /// The editor lost the focus.
    Blur,
}

/// An event with its texts as character sequences.
pub enum RowEventView {
    Toggle,
    Destroy,
    StartEditing,
    EditInput(Seq<char>),
    KeyDown(Seq<char>),
    Blur,
}

impl View for RowEvent {
    type V = RowEventView;

    open spec fn view(&self) -> RowEventView {
        match self {
            RowEvent::Toggle => RowEventView::Toggle,
            RowEvent::Destroy => RowEventView::Destroy,
            RowEvent::StartEditing => RowEventView::StartEditing,
            RowEvent::EditInput(t) => RowEventView::EditInput(t@),
            RowEvent::KeyDown(k) => RowEventView::KeyDown(k@),
            RowEvent::Blur => RowEventView::Blur,
        }
    }
}

/// What the row asks of the rest of the program after an event.
pub enum RowAction {
    /// Nothing.
    Nothing,
    /// Tell the service that the todo's completion is now this.
    SetCompleted(bool),
    /// Tell the service to delete the todo.
    Delete,
    /// Put the focus in the editor.
    FocusEditor,
    /// Tell the service that the todo's title is now this.
    Rename(String),
}

/// An action with its text as a character sequence.
pub enum RowActionView {
    Nothing,
    SetCompleted(bool),
    Delete,
    FocusEditor,
    Rename(Seq<char>),
}

impl View for RowAction {
    type V = RowActionView;

    open spec fn view(&self) -> RowActionView {
        match self {
            RowAction::Nothing => RowActionView::Nothing,
            RowAction::SetCompleted(b) => RowActionView::SetCompleted(*b),
            RowAction::Delete => RowActionView::Delete,
            RowAction::FocusEditor => RowActionView::FocusEditor,
            RowAction::Rename(t) => RowActionView::Rename(t@),
        }
    }
}

/// Closing the editor with its text: a blank text deletes the todo, the
/// unchanged title does nothing, any other text becomes the title, trimmed.
pub open spec fn save(s: RowView) -> (RowView, RowActionView) {
    let t = trimmed(s.edit_text);
    let closed = RowView { editing: false, ..s };
    if t.len() == 0 {
        (closed, RowActionView::Delete)
    } else if t == s.title {
        (closed, RowActionView::Nothing)
    } else {
        (RowView { title: t, ..closed }, RowActionView::Rename(t))
    }
}

/// The next state of a row and its action, after an event.
pub open spec fn row_step(s: RowView, e: RowEventView) -> (RowView, RowActionView) {
    match e {
        RowEventView::Toggle => (
            RowView { completed: !s.completed, ..s },
            RowActionView::SetCompleted(!s.completed),
        ),
        RowEventView::Destroy => (s, RowActionView::Delete),
        RowEventView::StartEditing => (
            RowView { edit_text: s.title, editing: true, ..s },
            RowActionView::FocusEditor,
        ),
        RowEventView::EditInput(t) => (RowView { edit_text: t, ..s }, RowActionView::Nothing),
        RowEventView::KeyDown(k) => if k == "Enter"@ {
            save(s)
        } else if k == "Escape"@ {
            (RowView { edit_text: s.title, editing: false, ..s }, RowActionView::Nothing)
        } else {
            (s, RowActionView::Nothing)
        },
        RowEventView::Blur => if s.editing {
            save(s)
        } else {
            (s, RowActionView::Nothing)
        },
    }
}

/// A rename always carries the editor's text trimmed, never a blank title
/// and never the title the row already had; the row then shows it.
pub proof fn lemma_rename_is_trimmed(s: RowView, e: RowEventView)
    ensures
        row_step(s, e).1 matches RowActionView::Rename(t) ==> {
            &&& t == trimmed(s.edit_text)
            &&& !is_blank(t)
            &&& t != s.title
            &&& row_step(s, e).0.title == t
        },
{
    lemma_trimmed_not_blank(s.edit_text);
}

/// A row whose title is not blank keeps a title that is not blank, whatever
/// the user does.
pub proof fn lemma_title_never_blank(s: RowView, e: RowEventView)
    requires
        !is_blank(s.title),
    ensures
        !is_blank(row_step(s, e).0.title),
{
    lemma_trimmed_not_blank(s.edit_text);
}

/// Two clicks on the check box bring the row back to where it was, and ask
/// the service for the two completions in turn.
pub proof fn lemma_toggle_twice(s: RowView)
    ensures
        row_step(row_step(s, RowEventView::Toggle).0, RowEventView::Toggle).0 == s,
        row_step(s, RowEventView::Toggle).1 == RowActionView::SetCompleted(!s.completed),
        row_step(row_step(s, RowEventView::Toggle).0, RowEventView::Toggle).1
            == RowActionView::SetCompleted(s.completed),
{
}

/// Escape closes the editor, puts the title back in it, and asks nothing.
pub proof fn lemma_escape_discards(s: RowView)
    ensures
        row_step(s, RowEventView::KeyDown("Escape"@)).0 == (RowView {
            edit_text: s.title,
            editing: false,
            ..s
        }),
        row_step(s, RowEventView::KeyDown("Escape"@)).1 == RowActionView::Nothing,
{
    reveal_strlit("Escape");
    reveal_strlit("Enter");
    assert("Escape"@ != "Enter"@) by {
        assert("Escape"@[1] != "Enter"@[1]);
    }
}

/// Enter closes the editor, so the blur that follows saves nothing again.
pub proof fn lemma_enter_then_blur(s: RowView)
    ensures
        !row_step(s, RowEventView::KeyDown("Enter"@)).0.editing,
        row_step(row_step(s, RowEventView::KeyDown("Enter"@)).0, RowEventView::Blur) == (
            row_step(s, RowEventView::KeyDown("Enter"@)).0,
            RowActionView::Nothing,
        ),
{
}

/// The row asks to delete its todo only on the destroy button, or when the
/// editor closes on a blank text.
pub proof fn lemma_delete_only_when_asked(s: RowView, e: RowEventView)
    ensures
        row_step(s, e).1 == RowActionView::Delete ==> e == RowEventView::Destroy || is_blank(
            s.edit_text,
        ),
{
    crate::text::lemma_trimmed_empty_iff_blank(s.edit_text);
}

/// Closing the editor, by Enter or by leaving an open editor, saves its
/// text: a blank text closes the editor and deletes the todo, the unchanged
/// title (once trimmed) closes it and asks nothing, and any other text
/// becomes the title, trimmed, and is sent as a rename.
pub proof fn lemma_closing_saves(s: RowView, e: RowEventView)
    requires
        e == RowEventView::KeyDown("Enter"@) || (e == RowEventView::Blur && s.editing),
    ensures
        is_blank(s.edit_text) ==> row_step(s, e) == (
            RowView { editing: false, ..s },
            RowActionView::Delete,
        ),
        !is_blank(s.edit_text) && trimmed(s.edit_text) == s.title ==> row_step(s, e) == (
            RowView { editing: false, ..s },
            RowActionView::Nothing,
        ),
        !is_blank(s.edit_text) && trimmed(s.edit_text) != s.title ==> row_step(s, e) == (
            RowView { title: trimmed(s.edit_text), editing: false, ..s },
            RowActionView::Rename(trimmed(s.edit_text)),
        ),
{
    crate::text::lemma_trimmed_empty_iff_blank(s.edit_text);
}

/// Leaving an open editor does exactly what Enter does.
pub proof fn lemma_blur_acts_as_enter(s: RowView)
    requires
        s.editing,
    ensures
        row_step(s, RowEventView::Blur) == row_step(s, RowEventView::KeyDown("Enter"@)),
{
    lemma_closing_saves(s, RowEventView::Blur);
    lemma_closing_saves(s, RowEventView::KeyDown("Enter"@));
}

/// What each of the other events does to a row: a click on the check box
/// flips the completion and reports it; destroy asks for a delete and changes
/// nothing; a double click opens the editor on the title; typing replaces
/// the editor's text; leaving a closed editor, and any key but Enter and
/// Escape, change nothing.
pub proof fn lemma_row_events(s: RowView, t: Seq<char>, k: Seq<char>)
    ensures
        row_step(s, RowEventView::Toggle) == (
            RowView { completed: !s.completed, ..s },
            RowActionView::SetCompleted(!s.completed),
        ),
        row_step(s, RowEventView::Destroy) == (s, RowActionView::Delete),
        row_step(s, RowEventView::StartEditing) == (
            RowView { editing: true, edit_text: s.title, ..s },
            RowActionView::FocusEditor,
        ),
        row_step(s, RowEventView::EditInput(t)) == (
            RowView { edit_text: t, ..s },
            RowActionView::Nothing,
        ),
        !s.editing ==> row_step(s, RowEventView::Blur) == (s, RowActionView::Nothing),
        k != "Enter"@ && k != "Escape"@ ==> row_step(s, RowEventView::KeyDown(k)) == (
            s,
            RowActionView::Nothing,
        ),
{
}

impl RowState {
    /// A row showing `todo`, with its editor closed.
    pub fn new(todo: &Todo) -> (r: RowState)
        ensures
            r@ == (RowView {
                title: todo.title@,
                completed: todo.completed,
                editing: false,
                edit_text: todo.title@,
            }),
    {
        RowState {
            title: todo.title.clone(),
            completed: todo.completed,
            editing: false,
            edit_text: todo.title.clone(),
        }
    }

    fn save(self) -> (r: (RowState, RowAction))
        ensures
            (r.0@, r.1@) == save(self@),
    {
        let t = String::from_str(trim(self.edit_text.as_str()));
        let closed = RowState { editing: false, ..self };
        if t.as_str().unicode_len() == 0 {
            (closed, RowAction::Delete)
        } else if t == closed.title {
            (closed, RowAction::Nothing)
        } else {
            let renamed = t.clone();
            (RowState { title: t, ..closed }, RowAction::Rename(renamed))
        }
    }

    /// The next state of the row and its action, after `event`.
    pub fn step(self, event: RowEvent) -> (r: (RowState, RowAction))
        ensures
            (r.0@, r.1@) == row_step(self@, event@),
    {
        match event {
            RowEvent::Toggle => {
                let c = !self.completed;
                (RowState { completed: c, ..self }, RowAction::SetCompleted(c))
            },
            RowEvent::Destroy => (self, RowAction::Delete),
            RowEvent::StartEditing => {
                let text = self.title.clone();
                (RowState { edit_text: text, editing: true, ..self }, RowAction::FocusEditor)
            },
            RowEvent::EditInput(t) => (RowState { edit_text: t, ..self }, RowAction::Nothing),
            RowEvent::KeyDown(k) => {
                if same_text(k.as_str(), "Enter") {
                    self.save()
                } else if same_text(k.as_str(), "Escape") {
                    let text = self.title.clone();
                    (RowState { edit_text: text, editing: false, ..self }, RowAction::Nothing)
                } else {
                    (self, RowAction::Nothing)
                }
            },
            RowEvent::Blur => {
                if self.editing {
                    self.save()
                } else {
                    (self, RowAction::Nothing)
                }
            },
        }
    }
}

/// What pressing Enter in the new-todo box sends: the trimmed text as the
/// title, or nothing when the text is blank.
pub fn submit_new_title(input: &str) -> (r: Option<CreateTodo>)
    ensures
        r is None <==> is_blank(input@),
        r matches Some(c) ==> c.title@ == trimmed(input@) && c.order is None,
{
    let t = trim(input);
    proof {
        crate::text::lemma_trimmed_empty_iff_blank(input@);
    }
    if t.unicode_len() == 0 {
        None
    } else {
        Some(CreateTodo { title: String::from_str(t), order: None })
    }
}

/// What a row passes on to the list once the service has answered its
/// request to change the todo: the service's version, on success only.
pub fn forward_update(reply: Result<Todo, ApiError>) -> (r: Option<Todo>)
    ensures
        match reply {
            Ok(t) => r == Some(t),
            Err(_) => r is None,
        },
{
    match reply {
        Ok(t) => Some(t),
        Err(_) => None,
    }
}

/// What a row passes on to the list once the service has answered its
/// request to delete todo `id`: the identifier, on success only.
pub fn forward_delete(id: String, reply: Result<(), ApiError>) -> (r: Option<String>)
    ensures
        match reply {
            Ok(_) => r == Some(id),
            Err(_) => r is None,
        },
{
    match reply {
        Ok(_) => Some(id),
        Err(_) => None,
    }
}

/// The state of the new-todo box: the text typed so far.
pub struct HeaderState {
    pub input: String,
}

/// What the user does in the new-todo box.
pub enum HeaderEvent {
    /// The box's text changed to this.
    Input(String),
    /// A key went down in the box; the key's name.
    KeyDown(String),
}

/// An event of the new-todo box with its texts as character sequences.
pub enum HeaderEventView {
    Input(Seq<char>),
    KeyDown(Seq<char>),
}

impl View for HeaderEvent {
    type V = HeaderEventView;

    open spec fn view(&self) -> HeaderEventView {
        match self {
            HeaderEvent::Input(t) => HeaderEventView::Input(t@),
            HeaderEvent::KeyDown(k) => HeaderEventView::KeyDown(k@),
        }
    }
}

/// What the new-todo box asks of the rest of the program.
pub enum HeaderAction {
    /// Nothing.
    Nothing,
    /// Ask the service to create this todo.
    Create(CreateTodo),
}

/// A header action with its texts as character sequences.
pub enum HeaderActionView {
    Nothing,
    Create(Seq<char>, Option<i64>),
}

impl View for HeaderAction {
    type V = HeaderActionView;

    open spec fn view(&self) -> HeaderActionView {
        match self {
            HeaderAction::Nothing => HeaderActionView::Nothing,
            HeaderAction::Create(c) => HeaderActionView::Create(c.title@, c.order),
        }
    }
}

/// The next text of the new-todo box and its action, after an event: only
/// Enter on a text that is not blank creates a todo, titled with the text
/// trimmed, and then empties the box.
pub open spec fn header_step(input: Seq<char>, e: HeaderEventView) -> (Seq<char>, HeaderActionView) {
    match e {
        HeaderEventView::Input(t) => (t, HeaderActionView::Nothing),
        HeaderEventView::KeyDown(k) => if k == "Enter"@ && !is_blank(input) {
            (Seq::empty(), HeaderActionView::Create(trimmed(input), None))
        } else {
            (input, HeaderActionView::Nothing)
        },
    }
}

impl HeaderState {
    /// An empty new-todo box.
    pub fn new() -> (r: HeaderState)
        ensures
            r.input@ == Seq::<char>::empty(),
    {
        HeaderState { input: String::new() }
    }

    /// The next state of the box and its action, after `event`.
    pub fn step(self, event: HeaderEvent) -> (r: (HeaderState, HeaderAction))
        ensures
            (r.0.input@, r.1@) == header_step(self.input@, event@),
    {
        match event {
            HeaderEvent::Input(t) => (HeaderState { input: t }, HeaderAction::Nothing),
            HeaderEvent::KeyDown(k) => {
                if same_text(k.as_str(), "Enter") {
                    match submit_new_title(self.input.as_str()) {
                        Some(c) => (HeaderState { input: String::new() }, HeaderAction::Create(c)),
                        None => (self, HeaderAction::Nothing),
                    }
                } else {
                    (self, HeaderAction::Nothing)
                }
            },
        }
    }
}

/// Enter on a box whose text is not blank always creates a todo titled with
/// the text trimmed and empties the box; Enter on a blank text, and any
/// other key, leave the box as it is and ask nothing; typing replaces the
/// text.
pub proof fn lemma_header_events(input: Seq<char>, t: Seq<char>, k: Seq<char>)
    ensures
        !is_blank(input) ==> header_step(input, HeaderEventView::KeyDown("Enter"@)) == (
            Seq::<char>::empty(),
            HeaderActionView::Create(trimmed(input), None),
        ),
        is_blank(input) ==> header_step(input, HeaderEventView::KeyDown("Enter"@)) == (
            input,
            HeaderActionView::Nothing,
        ),
        k != "Enter"@ ==> header_step(input, HeaderEventView::KeyDown(k)) == (
            input,
            HeaderActionView::Nothing,
        ),
        header_step(input, HeaderEventView::Input(t)) == (t, HeaderActionView::Nothing),
{
}

/// The new-todo box creates a todo only on Enter, never with a blank title,
/// always with the typed text trimmed, and is empty afterwards.
pub proof fn lemma_header_creates_on_enter_only(input: Seq<char>, e: HeaderEventView)
    ensures
        header_step(input, e).1 matches HeaderActionView::Create(title, order) ==> {
            &&& e == HeaderEventView::KeyDown("Enter"@)
            &&& title == trimmed(input)
            &&& !is_blank(title)
            &&& order is None
            &&& header_step(input, e).0.len() == 0
        },
{
    crate::text::lemma_trimmed_empty_iff_blank(input);
    lemma_trimmed_not_blank(input);
}

} // verus!
