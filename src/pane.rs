use vstd::prelude::*;

use crate::controller::{ControllerView, DataController, Page, Request};
use crate::selection::{advanced, resumed, retreated, Advance, SelectionCursor, SelectionView};

verus! {

/// A view's data and highlight, as mathematical values.
pub struct PaneView<T> {
    pub controller: ControllerView<T>,
    pub selection: SelectionView,
}

impl<T> PaneView<T> {
    pub open spec fn wf(self) -> bool {
        &&& self.controller.wf()
        &&& self.selection.fits(self.controller.collection.rows.len())
        &&& (self.selection.awaiting matches Some(seq) ==> seq < self.controller.issued)
    }

    /// The pane after the request in flight brought `rows` and `token`. A
    /// reload highlights the first of its rows, or nothing when it brought
    /// none, and forgets any forward move that waited.
    pub open spec fn applied(self, rows: Seq<T>, token: Seq<u8>, now: u64) -> PaneView<T> {
        let c = self.controller.applied(rows, token, now);
        if self.controller.in_flight->0.reload {
            PaneView {
                controller: c,
                selection: SelectionView {
                    index: if rows.len() > 0 {
                        Some(0)
                    } else {
                        None
                    },
                    awaiting: None,
                },
            }
        } else {
            PaneView { controller: c, selection: self.selection }
        }
    }

    /// The pane after the request in flight failed with `message`.
    pub open spec fn failed(self, message: String) -> PaneView<T> {
        PaneView { controller: self.controller.failed(message), selection: self.selection }
    }

    /// The pane after the request in flight ended with `outcome`.
    pub open spec fn finished(self, outcome: Result<Page<T>, String>, now: u64) -> PaneView<T> {
        match outcome {
            Ok(page) => self.applied(page.rows@, page.next_page_token@, now),
            Err(message) => self.failed(message),
        }
    }
}

/// One view's [`DataController`] together with its [`SelectionCursor`].
pub struct Pane<T> {
    controller: DataController<T>,
    selection: SelectionCursor,
}

impl<T> View for Pane<T> {
    type V = PaneView<T>;

    closed spec fn view(&self) -> PaneView<T> {
        PaneView { controller: self.controller@, selection: self.selection@ }
    }
}

impl<T> Pane<T> {
    pub open spec fn wf(&self) -> bool {
        self@.wf()
    }

    /// A fresh pane: no rows, nothing asked for, no highlight.
    pub fn new() -> (r: Self)
        ensures
            r.wf(),
            r@.controller.collection.rows == Seq::<T>::empty(),
            r@.controller.collection.cursor is None,
            r@.controller.state is Idle,
            r@.controller.queue.len() == 0,
            r@.controller.in_flight is None,
            r@.controller.issued == 0,
            r@.controller.completed == 0,
            r@.controller.filter.len() == 0,
            r@.controller.latest_reload is None,
            r@.controller.last_reload_at is None,
            r@.selection == (SelectionView { index: None, awaiting: None }),
    {
        Pane { controller: DataController::new(), selection: SelectionCursor::new() }
    }

    /// Queues a reload under `filter`; see [`DataController::reload`].
    pub fn reload(&mut self, filter: String) -> (r: Option<u64>)
        requires
            old(self).wf(),
        ensures
            final(self).wf(),
            final(self)@.selection == old(self)@.selection,
            old(self)@.controller.has_room() ==> r == Some(old(self)@.controller.issued)
                && final(self)@.controller == old(self)@.controller.reloaded(filter@),
            !old(self)@.controller.has_room() ==> r is None && final(self)@ == old(self)@,
    {
        self.controller.reload(filter)
    }

    /// Queues a request for the next page; see [`DataController::load_next_page`].
    pub fn load_next_page(&mut self) -> (r: Option<u64>)
        requires
            old(self).wf(),
        ensures
            final(self).wf(),
            final(self)@.selection == old(self)@.selection,
            old(self)@.controller.can_request_page()
                ==> r == Some(old(self)@.controller.issued) && final(self)@.controller == old(
                self,
            )@.controller.page_requested(),
            !old(self)@.controller.can_request_page() ==> r is None && final(self)@ == old(self)@,
    {
        self.controller.load_next_page()
    }

    /// Moves the highlight forward; see [`SelectionCursor::advance`].
    pub fn next_row(&mut self) -> (r: Advance)
        requires
            old(self).wf(),
        ensures
            final(self).wf(),
            (final(self)@.selection, final(self)@.controller, r) == advanced(
                old(self)@.selection,
                old(self)@.controller,
            ),
    {
        self.selection.advance(&mut self.controller)
    }

    /// Completes a waiting forward move; see [`SelectionCursor::resume`].
    pub fn resume_next_row(&mut self) -> (r: bool)
        requires
            old(self).wf(),
        ensures
            final(self).wf(),
            final(self)@.controller == old(self)@.controller,
            (final(self)@.selection, r) == resumed(old(self)@.selection, old(self)@.controller),
    {
        self.selection.resume(&self.controller)
    }

    /// Moves the highlight back; it never fetches.
    pub fn previous_row(&mut self)
        requires
            old(self).wf(),
        ensures
            final(self).wf(),
            final(self)@.controller == old(self)@.controller,
            final(self)@.selection == retreated(
                old(self)@.selection,
                old(self)@.controller.collection.rows.len(),
            ),
    {
        self.selection.retreat(&self.controller)
    }

    /// Hands the oldest waiting request to the worker; see
    /// [`DataController::start_next`].
    pub fn start_next(&mut self) -> (r: Option<Request>)
        requires
            old(self).wf(),
        ensures
            final(self).wf(),
            final(self)@.selection == old(self)@.selection,
            old(self)@.controller.in_flight is None && old(self)@.controller.queue.len() > 0 ==> {
                &&& r matches Some(req)
                &&& req@ == old(self)@.controller.queue[0]
                &&& final(self)@.controller == old(self)@.controller.started()
            },
            old(self)@.controller.in_flight is Some || old(self)@.controller.queue.len() == 0
                ==> r is None && final(self)@ == old(self)@,
    {
        self.controller.start_next()
    }

    /// Applies the outcome of the request in flight.
    pub fn finish(&mut self, outcome: Result<Page<T>, String>, now: u64)
        requires
            old(self).wf(),
            old(self)@.controller.in_flight is Some,
        ensures
            final(self).wf(),
            final(self)@ == old(self)@.finished(outcome, now),
    {
        let reload_ok = match self.controller.in_flight_is_reload() {
            Some(reload) => reload && outcome.is_ok(),
            None => false,
        };
        self.controller.finish(outcome, now);
        if reload_ok {
            let first = if self.controller.collection().len() > 0 {
                Some(0)
            } else {
                None
            };
            self.selection.select(first);
            self.selection.clear_wait();
        }
    }

    pub fn controller(&self) -> (r: &DataController<T>)
        ensures
            r@ == self@.controller,
            r.wf() == self@.controller.wf(),
    {
        &self.controller
    }

    pub fn selected(&self) -> (r: Option<usize>)
        ensures
            r == self@.selection.index,
    {
        self.selection.selected()
    }

    /// The highlighted row, if any.
    pub fn selected_row(&self) -> (r: Option<&T>)
        requires
            self.wf(),
        ensures
            match self@.selection.index {
                Some(i) => r == Some(&self@.controller.collection.rows[i as int]),
                None => r is None,
            },
    {
        match self.selection.selected() {
            Some(i) => self.controller.collection().get(i),
            None => None,
        }
    }

    /// True iff the highlight is on the last row loaded.
    pub fn is_on_last_row(&self) -> (r: bool)
        ensures
            r == (self@.selection.index matches Some(i) && i + 1
                == self@.controller.collection.rows.len()),
    {
        match self.selection.selected() {
            Some(i) => i as u128 + 1 == self.controller.collection().len() as u128,
            None => false,
        }
    }

    /// True while a forward move waits for a page.
    pub fn is_waiting(&self) -> (r: bool)
        ensures
            r == (self@.selection.awaiting is Some),
    {
        self.selection.is_waiting()
    }
}

} // verus!
