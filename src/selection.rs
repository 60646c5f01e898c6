use vstd::prelude::*;

use crate::controller::{ControllerView, DataController};

verus! {

/// The highlighted row after moving forward among `len` rows: the first row
/// when none is highlighted, the next one otherwise, wrapping after the last.
/// Nothing moves when there are no rows.
pub open spec fn forward(index: Option<usize>, len: nat) -> Option<usize> {
    if len == 0 {
        index
    } else {
        match index {
            None => Some(0),
            Some(i) => if i < len - 1 {
                Some((i + 1) as usize)
            } else {
                Some(0)
            },
        }
    }
}

/// The highlighted row after moving back among `len` rows: the first row when
/// none is highlighted, the previous one otherwise, wrapping from the first
/// row to the last. Nothing moves when there are no rows.
pub open spec fn backward(index: Option<usize>, len: nat) -> Option<usize> {
    if len == 0 {
        index
    } else {
        match index {
            None => Some(0),
            Some(i) => if i == 0 || i >= len {
                Some((len - 1) as usize)
            } else {
                Some((i - 1) as usize)
            },
        }
    }
}

/// The highlighted row, if any, and the page request that a forward move
/// waits on.
pub struct SelectionView {
    pub index: Option<usize>,
    pub awaiting: Option<u64>,
}

impl SelectionView {
    /// The highlighted row lies among `len` rows.
    pub open spec fn fits(self, len: nat) -> bool {
        self.index matches Some(i) ==> i < len
    }
}

/// What a forward move did.
#[derive(Clone, Copy, Debug, PartialEq, Eq, Structural)]
pub enum Advance {
    /// The highlight moved, or there was nothing to move over.
    Moved,
    /// The next page was asked for; the move completes in `resume`.
    Waiting,
    /// The next page was needed but could not be asked for now (the queue is
    /// full, or a reload is pending); nothing moved.
    Busy,
}

/// Tracks which row is highlighted, and loads the next page exactly when the
/// highlight would move on from the last row loaded.
pub struct SelectionCursor {
    index: Option<usize>,
    awaiting: Option<u64>,
}

impl View for SelectionCursor {
    type V = SelectionView;

    closed spec fn view(&self) -> SelectionView {
        SelectionView { index: self.index, awaiting: self.awaiting }
    }
}

/// A forward move from the last row loaded must wait for the next page.
pub open spec fn needs_page<T>(selection: SelectionView, controller: ControllerView<T>) -> bool {
    &&& selection.awaiting is None
    &&& controller.collection.rows.len() > 0
    &&& selection.index == Some((controller.collection.rows.len() - 1) as usize)
    &&& controller.collection.cursor is Some
}

/// A forward move: the new selection, the controller after it, and what the
/// move did.
pub open spec fn advanced<T>(selection: SelectionView, controller: ControllerView<T>) -> (
    SelectionView,
    ControllerView<T>,
    Advance,
) {
    if selection.awaiting is Some {
        (selection, controller, Advance::Waiting)
    } else if needs_page(selection, controller) {
        if controller.can_request_page() {
            (
                SelectionView { awaiting: Some(controller.issued), ..selection },
                controller.page_requested(),
                Advance::Waiting,
            )
        } else {
            (selection, controller, Advance::Busy)
        }
    } else {
        (
            SelectionView {
                index: forward(selection.index, controller.collection.rows.len()),
                ..selection
            },
            controller,
            Advance::Moved,
        )
    }
}

/// Completing a waiting forward move: the new selection, and whether no
/// move is left waiting.
pub open spec fn resumed<T>(selection: SelectionView, controller: ControllerView<T>) -> (
    SelectionView,
    bool,
) {
    match selection.awaiting {
        None => (selection, true),
        Some(seq) => if controller.settled(seq) {
            (
                SelectionView {
                    index: forward(selection.index, controller.collection.rows.len()),
                    awaiting: None,
                },
                true,
            )
        } else {
            (selection, false)
        },
    }
}

/// A backward move among `len` rows.
pub open spec fn retreated(selection: SelectionView, len: nat) -> SelectionView {
    SelectionView { index: backward(selection.index, len), ..selection }
}

impl SelectionCursor {
    /// No row highlighted, nothing awaited.
    pub fn new() -> (r: Self)
        ensures
            r@.index is None,
            r@.awaiting is None,
    {
        SelectionCursor { index: None, awaiting: None }
    }

    pub fn selected(&self) -> (r: Option<usize>)
        ensures
            r == self@.index,
    {
        self.index
    }

    /// True while a forward move waits for a page.
    pub fn is_waiting(&self) -> (r: bool)
        ensures
            r == (self@.awaiting is Some),
    {
        self.awaiting.is_some()
    }

    /// Highlights `index` directly, or nothing.
    pub fn select(&mut self, index: Option<usize>)
        ensures
            final(self)@.index == index,
            final(self)@.awaiting == old(self)@.awaiting,
    {
        self.index = index;
    }

    /// Forgets any awaited page.
    pub fn clear_wait(&mut self)
        ensures
            final(self)@.index == old(self)@.index,
            final(self)@.awaiting is None,
    {
        self.awaiting = None;
    }

    /// Moves the highlight forward. On the last row loaded, while further
    /// pages exist, it asks `controller` for exactly one page and waits: the
    /// move is made by [`SelectionCursor::resume`] once that request has been
    /// served. On the last row of an exhausted collection it wraps to the
    /// first row without any fetch. While a move is waiting, nothing happens.
    pub fn advance<T>(&mut self, controller: &mut DataController<T>) -> (r: Advance)
        requires
            old(controller).wf(),
        ensures
            final(controller).wf(),
            (final(self)@, final(controller)@, r) == advanced(old(self)@, old(controller)@),
    {
        if self.awaiting.is_some() {
            return Advance::Waiting;
        }
        let len = controller.collection().len();
        if len == 0 {
            return Advance::Moved;
        }
        match self.index {
            Some(i) => {
                if i == len - 1 && !controller.collection().is_exhausted() {
                    return match controller.load_next_page() {
                        Some(seq) => {
                            self.awaiting = Some(seq);
                            Advance::Waiting
                        },
                        None => Advance::Busy,
                    };
                }
                self.index = if i < len - 1 {
                    Some(i + 1)
                } else {
                    Some(0)
                };
            },
            None => {
                self.index = Some(0);
            },
        }
        Advance::Moved
    }

    /// Completes a waiting forward move once its page request has been
    /// served, moving over the rows loaded by then. Returns false, with
    /// nothing changed, while the request is still pending.
    pub fn resume<T>(&mut self, controller: &DataController<T>) -> (r: bool)
        ensures
            (final(self)@, r) == resumed(old(self)@, controller@),
    {
        match self.awaiting {
            None => true,
            Some(seq) => {
                if !controller.is_settled(seq) {
                    return false;
                }
                let len = controller.collection().len();
                if len > 0 {
                    self.index = match self.index {
                        None => Some(0),
                        Some(i) => if i < len - 1 {
                            Some(i + 1)
                        } else {
                            Some(0)
                        },
                    };
                }
                self.awaiting = None;
                true
            },
        }
    }

    /// Moves the highlight back, wrapping from the first row to the last.
    /// It only reads the controller: moving back never fetches.
    pub fn retreat<T>(&mut self, controller: &DataController<T>)
        ensures
            final(self)@ == retreated(old(self)@, controller@.collection.rows.len()),
    {
        let len = controller.collection().len();
        if len == 0 {
            return;
        }
        self.index = match self.index {
            None => Some(0),
            Some(i) => if i == 0 || i >= len {
                Some(len - 1)
            } else {
                Some(i - 1)
            },
        };
    }
}

} // verus!
