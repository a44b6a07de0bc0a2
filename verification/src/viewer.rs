use vstd::prelude::*;

use crate::cursor::Cursor;
use crate::document::Document;
use crate::window::{window_len, ViewportWindow};

verus! {

/// The terminal's dimensions in character cells, read once at startup and
/// never re-queried (resize handling is out of scope).
#[derive(Clone, Copy, Debug, PartialEq, Eq, Structural)]
pub struct TerminalSize {
    pub width: usize,
    pub height: usize,
}

/// A discrete input event, as the session loop hands it to the navigation
/// controller. `Backspace` is kept as an alias for moving left, matching the
/// viewer's historical key layout; `Other` stands for any key without a
/// navigation meaning.
#[derive(Clone, Copy, Debug, PartialEq, Eq, Structural)]
pub enum InputEvent {
    Quit,
    Left,
    Right,
    Up,
    Down,
    Backspace,
    Other,
}

/// What the session loop must do after dispatching an event: stop, repaint
/// the whole screen, or merely move the terminal cursor to the (possibly
/// updated) cursor position.
#[derive(Clone, Copy, Debug, PartialEq, Eq, Structural)]
pub enum Reaction {
    Quit,
    Redraw,
    Reposition,
}

/// The lowest row the cursor may occupy when `visible` document lines are on
/// screen: the cursor stays on real lines, except that an empty document
/// still leaves it parked on row 1.
pub open spec fn row_limit(visible: int) -> int {
    if visible < 1 {
        1
    } else {
        visible
    }
}

/// The viewer's abstract state: the document's lines, the geometry, and the
/// three coordinates that navigation moves. The buffered window content is
/// not a separate field because the window invariant determines it, as
/// `window_view` spells out.
pub struct ViewerModel {
    pub lines: Seq<Seq<char>>,
    pub capacity: int,
    pub width: int,
    pub start_offset: int,
    pub column: int,
    pub row: int,
}

impl ViewerModel {
    /// How many document lines are on screen.
    pub open spec fn visible(self) -> int {
        window_len(self.lines.len() as int, self.capacity)
    }

    /// The document slice that a well-formed window materializes.
    pub open spec fn window_view(self) -> Seq<Seq<char>> {
        self.lines.subrange(self.start_offset, self.start_offset + self.visible())
    }

    /// The bounds every reachable state satisfies: the window sits inside the
    /// document and the cursor sits inside the visible area.
    pub open spec fn wf(self) -> bool {
        &&& self.capacity >= 1
        &&& self.width >= 1
        &&& 0 <= self.start_offset
        &&& self.start_offset + self.visible() <= self.lines.len()
        &&& 1 <= self.column <= self.width
        &&& 1 <= self.row <= row_limit(self.visible())
    }

    /// `Left` (and its `Backspace` alias): one column left, stopping at 1.
    pub open spec fn step_left(self) -> ViewerModel {
        if self.column > 1 {
            ViewerModel { column: self.column - 1, ..self }
        } else {
            self
        }
    }

    /// `Right`: one column right, stopping at the terminal's width.
    pub open spec fn step_right(self) -> ViewerModel {
        if self.column < self.width {
            ViewerModel { column: self.column + 1, ..self }
        } else {
            self
        }
    }

    /// An `Up` at the window's top edge slides the window rather than the
    /// cursor, provided document lines remain above.
    pub open spec fn up_slides(self) -> bool {
        self.row <= 1 && self.start_offset > 0
    }

    /// `Up`: one row up; at the top edge, retreat the window instead; at the
    /// document's very first line, do nothing.
    pub open spec fn step_up(self) -> ViewerModel {
        if self.row > 1 {
            ViewerModel { row: self.row - 1, ..self }
        } else if self.start_offset > 0 {
            ViewerModel { start_offset: self.start_offset - 1, ..self }
        } else {
            self
        }
    }

    /// A `Down` at the window's bottom edge slides the window rather than the
    /// cursor, provided document lines remain below.
    pub open spec fn down_slides(self) -> bool {
        &&& self.row >= self.visible()
        &&& self.row == self.capacity
        &&& self.start_offset + self.capacity < self.lines.len()
    }

    /// `Down`: one row down while real document lines remain below the
    /// cursor; at the window's bottom edge, advance the window instead; at
    /// the document's last line, do nothing.
    pub open spec fn step_down(self) -> ViewerModel {
        if self.row < self.visible() {
            ViewerModel { row: self.row + 1, ..self }
        } else if self.row == self.capacity && self.start_offset + self.capacity
            < self.lines.len() {
            ViewerModel { start_offset: self.start_offset + 1, ..self }
        } else {
            self
        }
    }

    /// The navigation controller's state transition for one input event.
    pub open spec fn step(self, event: InputEvent) -> ViewerModel {
        match event {
            InputEvent::Quit => self,
            InputEvent::Left => self.step_left(),
            InputEvent::Right => self.step_right(),
            InputEvent::Up => self.step_up(),
            InputEvent::Down => self.step_down(),
            InputEvent::Backspace => self.step_left(),
            InputEvent::Other => self,
        }
    }

    /// What the session loop is told to do after each event: `Left`, `Right`
    /// and meaningless keys always repaint; `Up` and `Down` repaint exactly
    /// when the window slid; `Backspace` only repositions the cursor.
    pub open spec fn reaction_to(self, event: InputEvent) -> Reaction {
        match event {
            InputEvent::Quit => Reaction::Quit,
            InputEvent::Left => Reaction::Redraw,
            InputEvent::Right => Reaction::Redraw,
            InputEvent::Up => if self.up_slides() {
                Reaction::Redraw
            } else {
                Reaction::Reposition
            },
            InputEvent::Down => if self.down_slides() {
                Reaction::Redraw
            } else {
                Reaction::Reposition
            },
            InputEvent::Backspace => Reaction::Reposition,
            InputEvent::Other => Reaction::Redraw,
        }
    }
}

/// One viewer session: the loaded document, the sliding window over it, the
/// on-screen cursor, the terminal's geometry, and the displayed file name.
pub struct TextViewer {
    pub doc: Document,
    pub window: ViewportWindow,
    pub cursor: Cursor,
    pub terminal_size: TerminalSize,
    pub file_name: String,
}

impl View for TextViewer {
    type V = ViewerModel;

    open spec fn view(&self) -> ViewerModel {
        ViewerModel {
            lines: self.doc@,
            capacity: self.window.capacity as int,
            width: self.terminal_size.width as int,
            start_offset: self.window.start_offset as int,
            column: self.cursor.column as int,
            row: self.cursor.row as int,
        }
    }
}

impl TextViewer {
    /// Everything the navigation operations preserve: the window's capacity
    /// is the terminal's height minus the three chrome rows, the window
    /// invariant holds against the document, and the cursor is inside the
    /// visible area.
    pub open spec fn wf(&self) -> bool {
        &&& self.terminal_size.width >= 1
        &&& self.terminal_size.height >= 4
        &&& self.window.capacity == self.terminal_size.height - 3
        &&& self.window.wf(self.doc@)
        &&& self.cursor.wf(
            self.terminal_size.width as int,
            row_limit(self.window.content@.len() as int),
        )
    }

    /// Starts a session over an already-loaded document: the window shows the
    /// document's head, the cursor sits at the top-left. The terminal must be
    /// wide enough for a cursor column and tall enough for the three chrome
    /// rows plus one content row.
    pub fn init(lines: Vec<String>, file_name: String, terminal_size: TerminalSize) -> (viewer:
        TextViewer)
        requires
            terminal_size.width >= 1,
            terminal_size.height >= 4,
        ensures
            viewer.wf(),
            viewer.doc@ == Seq::new(lines@.len(), |i: int| lines@[i]@),
            viewer.window.start_offset == 0,
            viewer.window.capacity == terminal_size.height - 3,
            viewer.cursor == (Cursor { column: 1, row: 1 }),
            viewer.terminal_size == terminal_size,
            viewer.file_name == file_name,
    {
        let doc = Document::new(lines);
        let capacity = terminal_size.height - 3;
        let window = ViewportWindow::initialize(&doc, capacity);
        TextViewer { doc, window, cursor: Cursor::origin(), terminal_size, file_name }
    }

    /// Moves the cursor to an explicit in-bounds position, as the repaint
    /// routine does when it restores the cursor after drawing.
    pub fn set_pos(&mut self, x: usize, y: usize)
        requires
            old(self).wf(),
            1 <= x <= old(self).terminal_size.width,
            1 <= y <= row_limit(old(self).window.content@.len() as int),
        ensures
            final(self).wf(),
            final(self).cursor == (Cursor { column: x, row: y }),
            final(self).doc == old(self).doc,
            final(self).window == old(self).window,
            final(self).terminal_size == old(self).terminal_size,
            final(self).file_name == old(self).file_name,
    {
        self.cursor.column = x;
        self.cursor.row = y;
    }

    /// `Right`: one column right, clamped to the terminal's width.
    pub fn inc_x(&mut self)
        requires
            old(self).wf(),
        ensures
            final(self).wf(),
            final(self)@ == old(self)@.step_right(),
            final(self).doc == old(self).doc,
            final(self).window == old(self).window,
            final(self).terminal_size == old(self).terminal_size,
            final(self).file_name == old(self).file_name,
            final(self).cursor.row == old(self).cursor.row,
    {
        if self.cursor.column < self.terminal_size.width {
            self.cursor.column = self.cursor.column + 1;
        }
    }

    /// `Left`: one column left, clamped to column 1.
    pub fn dec_x(&mut self)
        requires
            old(self).wf(),
        ensures
            final(self).wf(),
            final(self)@ == old(self)@.step_left(),
            final(self).doc == old(self).doc,
            final(self).window == old(self).window,
            final(self).terminal_size == old(self).terminal_size,
            final(self).file_name == old(self).file_name,
            final(self).cursor.row == old(self).cursor.row,
    {
        if self.cursor.column > 1 {
            self.cursor.column = self.cursor.column - 1;
        }
    }

    /// `Down`: one row down over real lines; at the window's bottom edge,
    /// slide the window forward instead. Returns whether the window moved and
    /// the screen therefore needs a repaint.
    pub fn inc_y(&mut self) -> (redraw: bool)
        requires
            old(self).wf(),
        ensures
            final(self).wf(),
            final(self)@ == old(self)@.step_down(),
            redraw == old(self)@.down_slides(),
            final(self).doc == old(self).doc,
            final(self).terminal_size == old(self).terminal_size,
            final(self).file_name == old(self).file_name,
            final(self).cursor.column == old(self).cursor.column,
    {
        let visible = self.window.content.len();
        if self.cursor.row < visible {
            self.cursor.row = self.cursor.row + 1;
            false
        } else if self.cursor.row == self.window.capacity {
            self.window.slide_forward(&self.doc)
        } else {
            false
        }
    }

    /// `Up`: one row up; at the window's top edge, slide the window backward
    /// instead. Returns whether the window moved and the screen therefore
    /// needs a repaint.
    pub fn dec_y(&mut self) -> (redraw: bool)
        requires
            old(self).wf(),
        ensures
            final(self).wf(),
            final(self)@ == old(self)@.step_up(),
            redraw == old(self)@.up_slides(),
            final(self).doc == old(self).doc,
            final(self).terminal_size == old(self).terminal_size,
            final(self).file_name == old(self).file_name,
            final(self).cursor.column == old(self).cursor.column,
    {
        if self.cursor.row > 1 {
            self.cursor.row = self.cursor.row - 1;
            false
        } else {
            self.window.slide_backward(&self.doc)
        }
    }

    /// The navigation controller: dispatches one input event, updates the
    /// state as `ViewerModel::step` describes, and tells the session loop
    /// what to do next, as `ViewerModel::reaction_to` describes.
    pub fn handle_event(&mut self, event: InputEvent) -> (reaction: Reaction)
        requires
            old(self).wf(),
        ensures
            final(self).wf(),
            final(self)@ == old(self)@.step(event),
            reaction == old(self)@.reaction_to(event),
            final(self).doc == old(self).doc,
            final(self).terminal_size == old(self).terminal_size,
            final(self).file_name == old(self).file_name,
    {
        match event {
            InputEvent::Quit => Reaction::Quit,
            InputEvent::Left => {
                self.dec_x();
                Reaction::Redraw
            },
            InputEvent::Right => {
                self.inc_x();
                Reaction::Redraw
            },
            InputEvent::Up => {
                if self.dec_y() {
                    Reaction::Redraw
                } else {
                    Reaction::Reposition
                }
            },
            InputEvent::Down => {
                if self.inc_y() {
                    Reaction::Redraw
                } else {
                    Reaction::Reposition
                }
            },
            InputEvent::Backspace => {
                self.dec_x();
                Reaction::Reposition
            },
            InputEvent::Other => Reaction::Redraw,
        }
    }
}

/// Window invariant: in every well-formed state, each buffered line equals
/// the document line at `start_offset` plus its position in the buffer, so
/// the window's visible lines are exactly the model's window slice.
pub proof fn lemma_window_invariant(viewer: TextViewer)
    requires
        viewer.wf(),
    ensures
        forall|i: int|
            0 <= i < viewer.window.content@.len() ==> #[trigger] viewer.window.content@[i]@
                == viewer.doc@[viewer.window.start_offset + i],
        viewer.window.lines_view() == viewer@.window_view(),
{
    viewer.window.lemma_window_matches_document(viewer.doc@);
}

/// Bounds invariant: in every well-formed state the window lies inside the
/// document's bounds and the cursor row stays between 1 and the window's
/// capacity; the abstract model is well formed as well.
pub proof fn lemma_bounds_invariant(viewer: TextViewer)
    requires
        viewer.wf(),
    ensures
        0 <= viewer.window.start_offset,
        viewer.window.start_offset + viewer.window.content@.len() <= viewer.doc@.len(),
        1 <= viewer.cursor.row <= viewer.window.capacity,
        viewer@.wf(),
{
}

/// No-op at the top: an `Up` issued when the window is at the document's
/// head and the cursor is on row 1 changes nothing.
pub proof fn lemma_up_noop_at_top(m: ViewerModel)
    requires
        m.row == 1,
        m.start_offset == 0,
    ensures
        m.step(InputEvent::Up) == m,
{
}

/// No-op at the bottom: a `Down` issued when the window already shows the
/// document's tail and the cursor sits on the bottom row changes nothing.
pub proof fn lemma_down_noop_at_bottom(m: ViewerModel)
    requires
        m.wf(),
        m.start_offset + m.capacity == m.lines.len(),
        m.row == m.capacity,
    ensures
        m.step(InputEvent::Down) == m,
{
}

/// Single-line slide upward: an `Up` from row 1 at start offset `k` strictly
/// between the document's ends moves the window to offset `k - 1`, and the
/// window's first visible line becomes document line `k - 1`.
pub proof fn lemma_up_slides_one(m: ViewerModel)
    requires
        m.wf(),
        m.row == 1,
        0 < m.start_offset < m.lines.len() - m.capacity,
    ensures
        m.step(InputEvent::Up).start_offset == m.start_offset - 1,
        m.step(InputEvent::Up).window_view().first() == m.lines[m.start_offset - 1],
{
}

/// Single-line slide downward: a `Down` from the bottom row at start offset
/// `k` strictly between the document's ends moves the window to offset
/// `k + 1`, and the window's last visible line becomes document line
/// `k + capacity`.
pub proof fn lemma_down_slides_one(m: ViewerModel)
    requires
        m.wf(),
        m.row == m.capacity,
        0 < m.start_offset < m.lines.len() - m.capacity,
    ensures
        m.step(InputEvent::Down).start_offset == m.start_offset + 1,
        m.step(InputEvent::Down).window_view().last() == m.lines[m.start_offset + m.capacity],
{
}

} // verus!
