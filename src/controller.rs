use vstd::prelude::*;

use crate::collection::{token_cursor, CollectionView, PaginatedCollection};
use crate::loading::{LoadingState, Message, MessageView};

verus! {

/// The most fetch requests that may wait behind the one being served.
pub const QUEUE_CAPACITY: usize = 32;

/// One page of a remote response: its rows and the continuation token that
/// came with them (empty when no page follows).
pub struct Page<T> {
    pub rows: Vec<T>,
    pub next_page_token: Vec<u8>,
}

/// A queued fetch: its place in submission order, what it asks for, and the
/// filter text it is to be served with.
pub struct Request {
    pub seq: u64,
    pub message: Message,
    pub filter: String,
}

pub struct RequestView {
    pub seq: u64,
    pub message: MessageView,
    pub filter: Seq<char>,
}

impl View for Request {
    type V = RequestView;

    open spec fn view(&self) -> RequestView {
        RequestView { seq: self.seq, message: self.message@, filter: self.filter@ }
    }
}

/// The request that the background worker is serving.
#[derive(Clone, Copy, Debug, PartialEq, Eq, Structural)]
pub struct InFlight {
    pub seq: u64,
    pub reload: bool,
}

/// A page request is stale when a reload was submitted after it: its rows
/// belong to a generation of the collection that has since been replaced.
pub open spec fn is_stale(request: InFlight, latest_reload: Option<u64>) -> bool {
    &&& !request.reload
    &&& latest_reload matches Some(r)
    &&& r > request.seq
}

/// Everything a [`DataController`] holds, as mathematical values.
pub struct ControllerView<T> {
    pub collection: CollectionView<T>,
    pub state: LoadingState,
    /// Requests waiting to be served, oldest first.
    pub queue: Seq<RequestView>,
    pub in_flight: Option<InFlight>,
    /// How many requests were ever accepted; the next one gets this number.
    pub issued: u64,
    /// How many requests were served to completion.
    pub completed: u64,
    /// The number of the newest reload request.
    pub latest_reload: Option<u64>,
    /// The filter of the newest reload, which later page requests reuse.
    pub filter: Seq<char>,
    /// The clock reading at the last successful reload.
    pub last_reload_at: Option<u64>,
}

/// Mediates all remote reads of one view: it queues fetch requests, hands
/// them out one at a time in submission order, and applies their results to
/// its collection.
pub struct DataController<T> {
    collection: PaginatedCollection<T>,
    state: LoadingState,
    queue: Vec<Request>,
    in_flight: Option<InFlight>,
    issued: u64,
    completed: u64,
    latest_reload: Option<u64>,
    filter: String,
    last_reload_at: Option<u64>,
}

impl<T> View for DataController<T> {
    type V = ControllerView<T>;

    closed spec fn view(&self) -> ControllerView<T> {
        ControllerView {
            collection: self.collection@,
            state: self.state,
            queue: self.queue@.map_values(|r: Request| r@),
            in_flight: self.in_flight,
            issued: self.issued,
            completed: self.completed,
            latest_reload: self.latest_reload,
            filter: self.filter@,
            last_reload_at: self.last_reload_at,
        }
    }
}

impl<T> ControllerView<T> {
    /// Requests are numbered in submission order: the one in flight comes
    /// first, then the queue, oldest first.
    pub open spec fn wf(self) -> bool {
        let base = self.completed + if self.in_flight is Some { 1int } else { 0int };
        &&& self.queue.len() <= QUEUE_CAPACITY
        &&& self.issued == base + self.queue.len()
        &&& (self.in_flight matches Some(f) ==> f.seq == self.completed)
        &&& forall|i: int| 0 <= i < self.queue.len() ==> #[trigger] self.queue[i].seq == base + i
        &&& (self.latest_reload matches Some(r) ==> r < self.issued)
    }

    /// The request numbered `seq` has been served to completion.
    pub open spec fn settled(self, seq: u64) -> bool {
        seq < self.completed
    }

    /// A new request can be accepted.
    pub open spec fn has_room(self) -> bool {
        self.queue.len() < QUEUE_CAPACITY && self.issued < u64::MAX
    }

    /// The state after accepting a reload under `filter`: the state turns
    /// `Loading` at once.
    pub open spec fn reloaded(self, filter: Seq<char>) -> ControllerView<T> {
        ControllerView {
            latest_reload: Some(self.issued),
            filter,
            state: LoadingState::Loading,
            ..self.enqueued(
                RequestView { seq: self.issued, message: MessageView::Reload, filter },
            )
        }
    }

    /// The state after accepting a request for the page at the cursor.
    pub open spec fn page_requested(self) -> ControllerView<T> {
        self.enqueued(
            RequestView {
                seq: self.issued,
                message: MessageView::LoadPage { page_token: self.cursor_token() },
                filter: self.filter,
            },
        )
    }

    /// The cursor's token, when the collection has one.
    pub open spec fn cursor_token(self) -> Seq<u8> {
        match self.collection.cursor {
            Some(t) => t,
            None => Seq::empty(),
        }
    }

    /// The state after the oldest waiting request was handed out.
    pub open spec fn started(self) -> ControllerView<T> {
        ControllerView {
            queue: self.queue.drop_first(),
            in_flight: Some(
                InFlight { seq: self.queue[0].seq, reload: self.queue[0].message is Reload },
            ),
            state: LoadingState::Loading,
            ..self
        }
    }

    /// The state after the request in flight was served: it is no longer in
    /// flight and counts as completed.
    pub open spec fn served(self) -> ControllerView<T> {
        ControllerView { in_flight: None, completed: (self.completed + 1) as u64, ..self }
    }

    /// The state after the request in flight brought `rows` and the
    /// continuation token `token`, `now` being the caller's clock reading. A
    /// page superseded by a later reload is dropped.
    pub open spec fn applied(self, rows: Seq<T>, token: Seq<u8>, now: u64) -> ControllerView<T> {
        let request = self.in_flight->0;
        if is_stale(request, self.latest_reload) {
            self.served()
        } else if request.reload {
            ControllerView {
                collection: CollectionView { rows, cursor: token_cursor(token) },
                state: LoadingState::Reloaded,
                last_reload_at: Some(now),
                ..self.served()
            }
        } else {
            ControllerView {
                collection: CollectionView {
                    rows: self.collection.rows + rows,
                    cursor: token_cursor(token),
                },
                state: LoadingState::PageLoaded,
                ..self.served()
            }
        }
    }

    /// The state after the request in flight failed with `message`. The
    /// collection is left as it was; a superseded page's failure is dropped.
    pub open spec fn failed(self, message: String) -> ControllerView<T> {
        if is_stale(self.in_flight->0, self.latest_reload) {
            self.served()
        } else {
            ControllerView { state: LoadingState::Error(message), ..self.served() }
        }
    }

    /// The state after the request in flight ended with `outcome`.
    pub open spec fn finished(self, outcome: Result<Page<T>, String>, now: u64) -> ControllerView<T> {
        match outcome {
            Ok(page) => self.applied(page.rows@, page.next_page_token@, now),
            Err(message) => self.failed(message),
        }
    }

    /// The state after accepting `request`; the loading state is left as
    /// it was.
    pub open spec fn enqueued(self, request: RequestView) -> ControllerView<T> {
        ControllerView {
            queue: self.queue.push(request),
            issued: (self.issued + 1) as u64,
            ..self
        }
    }

    /// A reload was accepted and has not been served to completion yet.
    pub open spec fn reload_pending(self) -> bool {
        self.latest_reload matches Some(r) && r >= self.completed
    }

    /// A request for the next page can be accepted: the collection has a
    /// cursor, there is room, and no reload is pending. A page asked for
    /// while a reload is pending would continue the generation that the
    /// reload replaces.
    pub open spec fn can_request_page(self) -> bool {
        &&& self.collection.cursor is Some
        &&& self.has_room()
        &&& !self.reload_pending()
    }
}

impl<T> DataController<T> {
    pub open spec fn wf(&self) -> bool {
        self@.wf()
    }

    /// A controller with an empty collection and nothing asked for.
    pub fn new() -> (r: Self)
        ensures
            r.wf(),
            r@.collection.rows == Seq::<T>::empty(),
            r@.collection.cursor is None,
            r@.state is Idle,
            r@.queue == Seq::<RequestView>::empty(),
            r@.in_flight is None,
            r@.issued == 0,
            r@.completed == 0,
            r@.latest_reload is None,
            r@.filter == Seq::<char>::empty(),
            r@.last_reload_at is None,
    {
        let r = DataController {
            collection: PaginatedCollection::new(),
            state: LoadingState::Idle,
            queue: Vec::new(),
            in_flight: None,
            issued: 0,
            completed: 0,
            latest_reload: None,
            filter: String::new(),
            last_reload_at: None,
        };
        assert(r@.queue =~= Seq::<RequestView>::empty());
        r
    }

    proof fn lemma_push_request(&self, request: Request, r: &Self)
        requires
            self.wf(),
            self@.has_room(),
            request.seq == self@.issued,
            r.queue@ == self.queue@.push(request),
        ensures
            r.queue@.map_values(|q: Request| q@) == self@.queue.push(request@),
    {
        assert(r.queue@.map_values(|q: Request| q@) =~= self@.queue.push(request@));
    }

    /// Asks for the whole collection again, under `filter`. The state turns
    /// `Loading` at once. Returns the request's number, or `None`, with
    /// nothing changed, when no request can be accepted.
    pub fn reload(&mut self, filter: String) -> (r: Option<u64>)
        requires
            old(self).wf(),
        ensures
            final(self).wf(),
            old(self)@.has_room() ==> r == Some(old(self)@.issued) && final(self)@
                == old(self)@.reloaded(filter@),
            !old(self)@.has_room() ==> r is None && final(self)@ == old(self)@,
    {
        if self.queue.len() >= QUEUE_CAPACITY || self.issued == u64::MAX {
            return None;
        }
        let seq = self.issued;
        let request = Request { seq, message: Message::Reload, filter: filter.clone() };
        let ghost before = *self;
        self.queue.push(request);
        proof {
            before.lemma_push_request(request, self);
        }
        self.issued = seq + 1;
        self.latest_reload = Some(seq);
        self.filter = filter;
        self.state = LoadingState::Loading;
        Some(seq)
    }

    /// Asks for the page after the rows already loaded, under the filter of
    /// the newest reload. It only queues the request: the loading state is
    /// left to [`DataController::start_next`]. Returns `None`, with nothing
    /// changed, when the collection is exhausted, a reload is pending, or no
    /// request can be accepted; otherwise the request's number.
    pub fn load_next_page(&mut self) -> (r: Option<u64>)
        requires
            old(self).wf(),
        ensures
            final(self).wf(),
            old(self)@.can_request_page() ==> r == Some(
                old(self)@.issued,
            ) && final(self)@ == old(self)@.page_requested(),
            !old(self)@.can_request_page() ==> r is None
                && final(self)@ == old(self)@,
    {
        if self.queue.len() >= QUEUE_CAPACITY || self.issued == u64::MAX {
            return None;
        }
        let reload_pending = match self.latest_reload {
            Some(r) => r >= self.completed,
            None => false,
        };
        if reload_pending {
            return None;
        }
        let token = match self.collection.cursor() {
            Some(c) => c.clone(),
            None => {
                return None;
            },
        };
        assert(token@ =~= self@.collection.cursor->0);
        let seq = self.issued;
        let request = Request {
            seq,
            message: Message::LoadPage { page_token: token },
            filter: self.filter.clone(),
        };
        let ghost before = *self;
        self.queue.push(request);
        proof {
            before.lemma_push_request(request, self);
        }
        self.issued = seq + 1;
        Some(seq)
    }

    /// Hands the oldest waiting request to the worker, when none is being
    /// served. The state turns `Loading`.
    pub fn start_next(&mut self) -> (r: Option<Request>)
        requires
            old(self).wf(),
        ensures
            final(self).wf(),
            old(self)@.in_flight is None && old(self)@.queue.len() > 0 ==> {
                &&& r matches Some(req)
                &&& req@ == old(self)@.queue[0]
                &&& final(self)@ == old(self)@.started()
            },
            old(self)@.in_flight is Some || old(self)@.queue.len() == 0 ==> r is None
                && final(self)@ == old(self)@,
    {
        if self.in_flight.is_some() || self.queue.len() == 0 {
            return None;
        }
        let ghost before = *self;
        let request = self.queue.remove(0);
        let reload = match request.message {
            Message::Reload => true,
            Message::LoadPage { .. } => false,
        };
        self.in_flight = Some(InFlight { seq: request.seq, reload });
        self.state = LoadingState::Loading;
        proof {
            assert(self.queue@.map_values(|q: Request| q@) =~= before@.queue.drop_first());
            assert(before@.queue[0] == before.queue@[0]@);
            assert forall|i: int| 0 <= i < self@.queue.len() implies #[trigger] self@.queue[i].seq
                == self@.completed + 1 + i by {
                assert(self@.queue[i] == before@.queue[i + 1]);
            }
            assert(before@.queue[0].seq == before@.completed);
        }
        Some(request)
    }

    /// Applies the outcome of the request in flight. A page that a later
    /// reload has superseded is dropped, whatever its outcome. Otherwise a
    /// reload replaces the rows and cursor, a page appends to them, and a
    /// failure leaves the collection as it was and records its message.
    pub fn finish(&mut self, outcome: Result<Page<T>, String>, now: u64)
        requires
            old(self).wf(),
            old(self)@.in_flight is Some,
        ensures
            final(self).wf(),
            final(self)@ == old(self)@.finished(outcome, now),
    {
        let request = match self.in_flight {
            Some(f) => f,
            None => {
                return;
            },
        };
        self.in_flight = None;
        self.completed = self.completed + 1;
        let stale = !request.reload && match self.latest_reload {
            Some(r) => r > request.seq,
            None => false,
        };
        if stale {
            return;
        }
        match outcome {
            Ok(page) => {
                if request.reload {
                    self.collection.replace(page.rows, page.next_page_token);
                    self.state = LoadingState::Reloaded;
                    self.last_reload_at = Some(now);
                } else {
                    self.collection.append(page.rows, page.next_page_token);
                    self.state = LoadingState::PageLoaded;
                }
            },
            Err(message) => {
                self.state = LoadingState::Error(message);
            },
        }
    }

    /// True iff the request numbered `seq` has been served to completion.
    pub fn is_settled(&self, seq: u64) -> (r: bool)
        ensures
            r == self@.settled(seq),
    {
        seq < self.completed
    }

    pub fn collection(&self) -> (r: &PaginatedCollection<T>)
        ensures
            r@ == self@.collection,
    {
        &self.collection
    }

    pub fn loading_state(&self) -> (r: &LoadingState)
        ensures
            *r == self@.state,
    {
        &self.state
    }

    /// True while a fetch is asked for or running.
    pub fn is_loading(&self) -> (r: bool)
        ensures
            r == (self@.state is Loading),
    {
        self.state.is_loading()
    }

    /// The message of the last fetch, if it failed.
    pub fn error_message(&self) -> (r: Option<String>)
        ensures
            match self@.state {
                LoadingState::Error(m) => r matches Some(s) && s@ == m@,
                _ => r is None,
            },
    {
        self.state.error_message()
    }

    /// The clock reading that the caller gave with the last successful reload.
    pub fn last_successful_load(&self) -> (r: Option<u64>)
        ensures
            r == self@.last_reload_at,
    {
        self.last_reload_at
    }

    /// True iff a request is being served.
    pub fn has_in_flight(&self) -> (r: bool)
        ensures
            r == (self@.in_flight is Some),
    {
        self.in_flight.is_some()
    }
    /// Whether the request in flight is a reload, if one is in flight.
    pub fn in_flight_is_reload(&self) -> (r: Option<bool>)
        ensures
            match self@.in_flight {
                Some(f) => r == Some(f.reload),
                None => r is None,
            },
    {
        match self.in_flight {
            Some(f) => Some(f.reload),
            None => None,
        }
    }
    /// How many requests wait behind the one in flight.
    pub fn pending_requests(&self) -> (r: usize)
        ensures
            r == self@.queue.len(),
    {
        self.queue.len()
    }
}

} // verus!
