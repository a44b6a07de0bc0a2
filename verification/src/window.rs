use vstd::prelude::*;

use crate::document::Document;
use std::collections::VecDeque;

verus! {

/// A bounded, contiguous slice of a document's lines, materialized for
/// display as a double-ended queue. It slides one line at a time by evicting
/// an element at one end and admitting the next document line at the other,
/// so the buffer is never rebuilt wholesale.
pub struct ViewportWindow {
    /// The materialized lines, front (topmost visible line) first.
    pub content: VecDeque<String>,
    /// How many document lines the window can show at once: the terminal's
    /// row count minus the rows reserved for the header and status chrome.
    pub capacity: usize,
    /// Document index of the window's first visible line.
    pub start_offset: usize,
}

/// How many lines a well-formed window over a document of `doc_len` lines
/// holds: the whole document when it is shorter than the window's capacity,
/// the capacity otherwise.
pub open spec fn window_len(doc_len: int, capacity: int) -> int {
    if doc_len < capacity {
        doc_len
    } else {
        capacity
    }
}

impl ViewportWindow {
    /// The views of the materialized lines, front first.
    pub open spec fn lines_view(self) -> Seq<Seq<char>> {
        Seq::new(self.content@.len(), |i: int| self.content@[i]@)
    }

    /// The window invariant, stated against the document the window slices:
    /// the buffer holds exactly `window_len` lines, sits inside the
    /// document's bounds, and each buffered line equals the document line at
    /// `start_offset` plus its position in the buffer.
    pub open spec fn wf(self, doc: Seq<Seq<char>>) -> bool {
        &&& self.capacity >= 1
        &&& self.content@.len() == window_len(doc.len() as int, self.capacity as int)
        &&& self.start_offset + self.content@.len() <= doc.len()
        &&& forall|i: int|
            0 <= i < self.content@.len() ==> #[trigger] self.content@[i]@ == doc[
                self.start_offset + i
            ]
    }

    /// More document lines exist below the window, so a forward slide moves.
    pub open spec fn can_slide_forward(self, doc: Seq<Seq<char>>) -> bool {
        self.start_offset + self.capacity < doc.len()
    }

    /// Document lines exist above the window, so a backward slide moves.
    pub open spec fn can_slide_backward(self) -> bool {
        self.start_offset > 0
    }

    /// Builds the initial window over the document's first
    /// `min(doc.len(), capacity)` lines.
    pub fn initialize(doc: &Document, capacity: usize) -> (w: ViewportWindow)
        requires
            capacity >= 1,
        ensures
            w.wf(doc@),
            w.capacity == capacity,
            w.start_offset == 0,
    {
        let doc_len = doc.len();
        let take: usize = if doc_len < capacity {
            doc_len
        } else {
            capacity
        };
        let mut content: VecDeque<String> = VecDeque::new();
        let mut i: usize = 0;
        while i < take
            invariant
                i <= take,
                take == window_len(doc@.len() as int, capacity as int),
                take <= doc@.len(),
                content@.len() == i,
                forall|j: int| 0 <= j < i ==> #[trigger] content@[j]@ == doc@[j],
            decreases take - i,
        {
            content.push_back(doc.line(i).clone());
            i += 1;
        }
        ViewportWindow { content, capacity, start_offset: 0 }
    }

    /// Advances the window one line: evict the front element, admit the next
    /// document line at the back. Asking to slide past the document's tail is
    /// a silent no-op, not an error. Returns whether the window moved, which
    /// is also whether a redraw is needed.
    pub fn slide_forward(&mut self, doc: &Document) -> (slid: bool)
        requires
            old(self).wf(doc@),
        ensures
            final(self).wf(doc@),
            final(self).capacity == old(self).capacity,
            slid == old(self).can_slide_forward(doc@),
            slid ==> final(self).start_offset == old(self).start_offset + 1,
            !slid ==> *final(self) == *old(self),
    {
        let doc_len = doc.len();
        let admit_index = self.start_offset + self.capacity;
        if admit_index < doc_len {
            self.start_offset = self.start_offset + 1;
            self.content.push_back(doc.line(admit_index).clone());
            let _evicted = self.content.pop_front();
            true
        } else {
            false
        }
    }

    /// Retreats the window one line: evict the back element, admit the
    /// preceding document line at the front. Asking to slide above the
    /// document's head is a silent no-op. Returns whether the window moved.
    pub fn slide_backward(&mut self, doc: &Document) -> (slid: bool)
        requires
            old(self).wf(doc@),
        ensures
            final(self).wf(doc@),
            final(self).capacity == old(self).capacity,
            slid == old(self).can_slide_backward(),
            slid ==> final(self).start_offset == old(self).start_offset - 1,
            !slid ==> *final(self) == *old(self),
    {
        if self.start_offset > 0 {
            self.start_offset = self.start_offset - 1;
            let _evicted = self.content.pop_back();
            self.content.push_front(doc.line(self.start_offset).clone());
            true
        } else {
            false
        }
    }

    /// The window invariant in slice form: a well-formed window's visible
    /// lines are exactly the document's lines from `start_offset` on, one for
    /// each buffered element.
    pub proof fn lemma_window_matches_document(self, doc: Seq<Seq<char>>)
        requires
            self.wf(doc),
        ensures
            self.lines_view() == doc.subrange(
                self.start_offset as int,
                self.start_offset + self.content@.len(),
            ),
    {
        assert(self.lines_view() =~= doc.subrange(
            self.start_offset as int,
            self.start_offset + self.content@.len(),
        ));
    }

    /// Round trip: sliding forward and then backward, or backward and then
    /// forward, restores the window's prior start offset and visible lines
    /// exactly. `w1` relates to `w0` as one slide's contract promises of a
    /// window that moved, and `w2` to `w1` as the opposite slide's contract
    /// promises.
    pub proof fn lemma_slide_round_trip(
        w0: ViewportWindow,
        w1: ViewportWindow,
        w2: ViewportWindow,
        doc: Seq<Seq<char>>,
    )
        requires
            w0.wf(doc),
            w1.wf(doc),
            w2.wf(doc),
            w1.capacity == w0.capacity,
            w2.capacity == w1.capacity,
            (w1.start_offset == w0.start_offset + 1 && w2.start_offset == w1.start_offset - 1)
                || (w0.can_slide_backward() && w1.start_offset == w0.start_offset - 1
                && w2.start_offset == w1.start_offset + 1),
        ensures
            w2.start_offset == w0.start_offset,
            w2.lines_view() == w0.lines_view(),
    {
        assert forall|i: int| 0 <= i < w2.lines_view().len() implies w2.lines_view()[i]
            == w0.lines_view()[i] by {
            assert(w2.content@[i]@ == doc[w2.start_offset + i]);
            assert(w0.content@[i]@ == doc[w0.start_offset + i]);
        }
        assert(w2.lines_view() =~= w0.lines_view());
    }
}

} // verus!
