//! The controller of a synchronisation run.
//!
//! The controller does no work on the outside world. It is told what
//! happened there, one event at a time, and answers each event with the next
//! thing to do: create the schema, fetch a page, store a batch, or stop.

use crate::decode::{decode_page, page_of_text};
use crate::error::{FetchError, StoreError};
use crate::link::{last_offset, offset_of};
use crate::record::{views, AnimeItem, AnimeItemView};
use crate::text::lemma_without_char_absent;
use crate::wire::{records_of, AnimeListResponse};
use vstd::prelude::*;

verus! {

/// The address of the first request where none is configured.
pub const BASE_URL: &'static str = "https://kitsu.io/api/edge/anime";

/// The number of entries on a page where none is configured.
pub const PAGE_SIZE: u16 = 10;

/// The most pages that one run fetches where no other ceiling is configured.
pub const MAX_PAGES: u16 = 10;

/// The pause before each request that follows another, in milliseconds.
pub const PACING_MILLIS: u64 = 50;

/// What ended a run before its time.
#[derive(Clone, Copy, Debug, PartialEq, Eq, Structural)]
pub enum SyncError {
    /// A page could not be had.
    Fetch(FetchError),
    /// The store refused an operation.
    Store(StoreError),
    /// An event came that answers nothing the controller had asked for.
    OutOfTurn,
}

/// Where a run stands.
#[derive(Clone, Copy, Debug, PartialEq, Eq, Structural)]
pub enum SyncState {
    /// Nothing is known of the store yet.
    Uninitialized,
    /// The store is being set up and the first request is under way.
    Bootstrapping,
    /// Pages are being fetched and stored.
    Paging,
    /// The run is over and the catalogue can be read.
    Complete,
    /// The run was halted by an error.
    Failed,
}

/// Where a run stands, and within that, what the controller waits for.
#[derive(Clone, Copy, Debug, PartialEq, Eq, Structural)]
pub enum Phase {
    /// Waiting to hear whether a store exists.
    Uninitialized,
    /// Waiting for the schema to be created.
    CreatingSchema,
    /// Waiting for the answer to the first request.
    Discovering,
    /// Waiting for the next page.
    FetchingPage,
    /// Waiting for the last batch to be stored.
    StoringBatch,
    /// Done.
    Complete,
    /// Halted by an error.
    Failed(SyncError),
}

/// The settings of a run.
#[derive(Debug)]
pub struct SyncConfig {
    pub base_url: String,
    pub page_size: u16,
    pub max_pages: u16,
}

/// The settings of a run as plain values.
pub struct SyncConfigView {
    pub base_url: Seq<char>,
    pub page_size: u16,
    pub max_pages: u16,
}

impl View for SyncConfig {
    type V = SyncConfigView;

    open spec fn view(&self) -> SyncConfigView {
        SyncConfigView {
            base_url: self.base_url@,
            page_size: self.page_size,
            max_pages: self.max_pages,
        }
    }
}

impl SyncConfig {
    /// The settings of a run against the public service.
    pub fn standard() -> (config: SyncConfig)
        ensures
            config@ == (SyncConfigView {
                base_url: BASE_URL@,
                page_size: PAGE_SIZE,
                max_pages: MAX_PAGES,
            }),
    {
        SyncConfig { base_url: BASE_URL.to_owned(), page_size: PAGE_SIZE, max_pages: MAX_PAGES }
    }
}

/// What the outside world reports to the controller.
#[derive(Debug)]
pub enum SyncEvent {
    /// Whether a store was found.
    StoreChecked { exists: bool },
    /// The schema was created.
    SchemaCreated,
    /// The request was answered with this body.
    PageFetched { body: String },
    /// The batch was stored.
    BatchStored,
    /// The request failed.
    FetchFailed(FetchError),
    /// The store refused what was asked of it.
    StoreFailed(StoreError),
}

/// An event as plain values.
pub enum SyncEventView {
    StoreChecked { exists: bool },
    SchemaCreated,
    PageFetched { body: Seq<char> },
    BatchStored,
    FetchFailed(FetchError),
    StoreFailed(StoreError),
}

impl View for SyncEvent {
    type V = SyncEventView;

    open spec fn view(&self) -> SyncEventView {
        match *self {
            SyncEvent::StoreChecked { exists } => SyncEventView::StoreChecked { exists },
            SyncEvent::SchemaCreated => SyncEventView::SchemaCreated,
            SyncEvent::PageFetched { body } => SyncEventView::PageFetched { body: body@ },
            SyncEvent::BatchStored => SyncEventView::BatchStored,
            SyncEvent::FetchFailed(e) => SyncEventView::FetchFailed(e),
            SyncEvent::StoreFailed(e) => SyncEventView::StoreFailed(e),
        }
    }
}

/// What the controller asks of the outside world.
#[derive(Debug)]
pub enum SyncAction {
    /// Create the schema of the store.
    CreateSchema,
    /// Wait for the pause, then request this address.
    FetchPage { url: String, pause_millis: u64 },
    /// Add these records to the store, all or none.
    StoreBatch { records: Vec<AnimeItem> },
    /// Nothing more: the catalogue can be read.
    Finish,
    /// Nothing more: the run has failed.
    Abort(SyncError),
}

/// An action as plain values.
pub enum SyncActionView {
    CreateSchema,
    FetchPage { url: Seq<char>, pause_millis: u64 },
    StoreBatch { records: Seq<AnimeItemView> },
    Finish,
    Abort(SyncError),
}

impl View for SyncAction {
    type V = SyncActionView;

    open spec fn view(&self) -> SyncActionView {
        match *self {
            SyncAction::CreateSchema => SyncActionView::CreateSchema,
            SyncAction::FetchPage { url, pause_millis } => SyncActionView::FetchPage {
                url: url@,
                pause_millis,
            },
            SyncAction::StoreBatch { records } => SyncActionView::StoreBatch {
                records: views(records@),
            },
            SyncAction::Finish => SyncActionView::Finish,
            SyncAction::Abort(e) => SyncActionView::Abort(e),
        }
    }
}

/// The controller as a plain value.
pub struct Progress {
    pub phase: Phase,
    pub base_url: Seq<char>,
    pub page_size: u16,
    pub max_pages: u16,
    /// The number of pages fetched and stored.
    pub current: int,
    /// The number of pages that the service says it has.
    pub total: int,
    /// The address of the next page.
    pub next_url: Seq<char>,
    /// Whether the page fetched last was the one before the last page.
    pub at_end: bool,
}

/// The controller of a configuration before anything has happened.
pub open spec fn initial(config: SyncConfigView) -> Progress {
    Progress {
        phase: Phase::Uninitialized,
        base_url: config.base_url,
        page_size: config.page_size,
        max_pages: config.max_pages,
        current: 0,
        total: 0,
        next_url: Seq::empty(),
        at_end: false,
    }
}

/// The number of whole pages that lie before the offset of the last page.
/// With pages of size zero there are none.
pub open spec fn pages_available(last_offset: int, page_size: int) -> int {
    if page_size <= 0 {
        0
    } else {
        last_offset / page_size
    }
}

/// The number of pages that a run may fetch: what the service has, and no
/// more than the ceiling.
pub open spec fn page_limit(p: Progress) -> int {
    if p.total <= p.max_pages {
        p.total
    } else {
        p.max_pages as int
    }
}

/// The state that a phase belongs to.
pub open spec fn state_of(phase: Phase) -> SyncState {
    match phase {
        Phase::Uninitialized => SyncState::Uninitialized,
        Phase::CreatingSchema | Phase::Discovering => SyncState::Bootstrapping,
        Phase::FetchingPage | Phase::StoringBatch => SyncState::Paging,
        Phase::Complete => SyncState::Complete,
        Phase::Failed(_) => SyncState::Failed,
    }
}

/// Whether the controller has stopped.
pub open spec fn stopped(p: Progress) -> bool {
    p.phase is Complete || p.phase is Failed
}

/// The controller halted by `error`, and the action that says so.
pub open spec fn halted(p: Progress, error: SyncError) -> (Progress, SyncActionView) {
    (Progress { phase: Phase::Failed(error), ..p }, SyncActionView::Abort(error))
}

/// What the answer to the first request leads to: the links of the page say
/// where paging starts and how many pages there are.
pub open spec fn discovered(p: Progress, body: Seq<char>) -> (Progress, SyncActionView) {
    match page_of_text(body) {
        None => halted(p, SyncError::Fetch(FetchError::Decode)),
        Some(page) => match offset_of(page.links.last) {
            None => halted(p, SyncError::Fetch(FetchError::Decode)),
            Some(offset) => {
                let found = Progress {
                    current: 0,
                    total: pages_available(offset as int, p.page_size as int),
                    next_url: page.links.first,
                    at_end: false,
                    ..p
                };
                if 0 < page_limit(found) {
                    (
                        Progress { phase: Phase::FetchingPage, ..found },
                        SyncActionView::FetchPage {
                            url: page.links.first,
                            pause_millis: PACING_MILLIS,
                        },
                    )
                } else {
                    (Progress { phase: Phase::Complete, ..found }, SyncActionView::Finish)
                }
            },
        },
    }
}

/// What a fetched page leads to: its records are to be stored, and its
/// `next` link is where the run goes on.
pub open spec fn paged(p: Progress, body: Seq<char>) -> (Progress, SyncActionView) {
    match page_of_text(body) {
        None => halted(p, SyncError::Fetch(FetchError::Decode)),
        Some(page) => (
            Progress {
                phase: Phase::StoringBatch,
                next_url: page.links.next,
                at_end: page.links.next == page.links.last,
                ..p
            },
            SyncActionView::StoreBatch { records: records_of(page) },
        ),
    }
}

/// What a stored batch leads to: one more page is counted, and the run goes
/// on unless the page was the one before the last or the limit is reached.
pub open spec fn stored(p: Progress) -> (Progress, SyncActionView) {
    let counted = Progress { current: p.current + 1, ..p };
    if p.at_end || counted.current >= page_limit(p) {
        (Progress { phase: Phase::Complete, ..counted }, SyncActionView::Finish)
    } else {
        (
            Progress { phase: Phase::FetchingPage, ..counted },
            SyncActionView::FetchPage { url: p.next_url, pause_millis: PACING_MILLIS },
        )
    }
}

/// The transition of the controller: the state after `event`, and the action
/// that answers it.
pub open spec fn step(p: Progress, event: SyncEventView) -> (Progress, SyncActionView) {
    match p.phase {
        Phase::Complete => (p, SyncActionView::Finish),
        Phase::Failed(error) => (p, SyncActionView::Abort(error)),
        Phase::Uninitialized => match event {
            SyncEventView::StoreChecked { exists } => if exists {
                (Progress { phase: Phase::Complete, ..p }, SyncActionView::Finish)
            } else {
                (Progress { phase: Phase::CreatingSchema, ..p }, SyncActionView::CreateSchema)
            },
            _ => halted(p, SyncError::OutOfTurn),
        },
        Phase::CreatingSchema => match event {
            SyncEventView::SchemaCreated => (
                Progress { phase: Phase::Discovering, ..p },
                SyncActionView::FetchPage { url: p.base_url, pause_millis: 0 },
            ),
            SyncEventView::StoreFailed(e) => halted(p, SyncError::Store(e)),
            _ => halted(p, SyncError::OutOfTurn),
        },
        Phase::Discovering => match event {
            SyncEventView::PageFetched { body } => discovered(p, body),
            SyncEventView::FetchFailed(e) => halted(p, SyncError::Fetch(e)),
            _ => halted(p, SyncError::OutOfTurn),
        },
        Phase::FetchingPage => match event {
            SyncEventView::PageFetched { body } => paged(p, body),
            SyncEventView::FetchFailed(e) => halted(p, SyncError::Fetch(e)),
            _ => halted(p, SyncError::OutOfTurn),
        },
        Phase::StoringBatch => match event {
            SyncEventView::BatchStored => stored(p),
            SyncEventView::StoreFailed(e) => halted(p, SyncError::Store(e)),
            _ => halted(p, SyncError::OutOfTurn),
        },
    }
}

/// What holds of the controller at all times: while it pages, the count of
/// pages is below the limit; and it is never above.
pub open spec fn sound(p: Progress) -> bool {
    &&& 0 <= p.current <= page_limit(p)
    &&& 0 <= p.total
    &&& (p.phase is FetchingPage || p.phase is StoringBatch) ==> p.current < page_limit(p)
}

/// The controller of one run. It holds the settings of the run and how far
/// the run has come.
#[derive(Debug)]
pub struct AnimeDownloader {
    phase: Phase,
    base_url: String,
    page_size: u16,
    max_pages: u16,
    current: u16,
    total: u16,
    next_url: String,
    at_end: bool,
}

impl View for AnimeDownloader {
    type V = Progress;

    closed spec fn view(&self) -> Progress {
        Progress {
            phase: self.phase,
            base_url: self.base_url@,
            page_size: self.page_size,
            max_pages: self.max_pages,
            current: self.current as int,
            total: self.total as int,
            next_url: self.next_url@,
            at_end: self.at_end,
        }
    }
}

/// A controller for the given settings, with nothing done yet. It waits to
/// hear whether a store exists.
pub fn get_downloader(config: SyncConfig) -> (downloader: AnimeDownloader)
    ensures
        downloader@ == initial(config@),
{
    AnimeDownloader::new(config)
}

impl AnimeDownloader {
    /// Every controller is sound.
    #[verifier::type_invariant]
    spec fn is_sound(self) -> bool {
        sound(self@)
    }

    /// A controller for the given settings, with nothing done yet.
    pub fn new(config: SyncConfig) -> (downloader: AnimeDownloader)
        ensures
            downloader@ == initial(config@),
    {
        AnimeDownloader {
            phase: Phase::Uninitialized,
            base_url: config.base_url,
            page_size: config.page_size,
            max_pages: config.max_pages,
            current: 0,
            total: 0,
            next_url: String::new(),
            at_end: false,
        }
    }

    /// The state of the run.
    pub fn state(&self) -> (state: SyncState)
        ensures
            state == state_of(self@.phase),
            sound(self@),
    {
        proof {
            use_type_invariant(self);
        }
        match self.phase {
            Phase::Uninitialized => SyncState::Uninitialized,
            Phase::CreatingSchema | Phase::Discovering => SyncState::Bootstrapping,
            Phase::FetchingPage | Phase::StoringBatch => SyncState::Paging,
            Phase::Complete => SyncState::Complete,
            Phase::Failed(_) => SyncState::Failed,
        }
    }

    /// The error that halted the run, if one did.
    pub fn failure(&self) -> (failure: Option<SyncError>)
        ensures
            failure == (match self@.phase {
                Phase::Failed(error) => Some(error),
                _ => None,
            }),
    {
        match self.phase {
            Phase::Failed(error) => Some(error),
            _ => None,
        }
    }

    /// The number of pages fetched and stored so far.
    pub fn pages_fetched(&self) -> (count: u16)
        ensures
            count == self@.current,
            count <= self@.max_pages,
    {
        proof {
            use_type_invariant(self);
        }
        self.current
    }

    /// Whether the run still waits for something to happen.
    pub fn has_remaining(&self) -> (remaining: bool)
        ensures
            remaining == !stopped(self@),
    {
        match self.phase {
            Phase::Complete => false,
            Phase::Failed(_) => false,
            _ => true,
        }
    }

    /// Halts the run with `error`.
    fn halt(&mut self, error: SyncError) -> (action: SyncAction)
        ensures
            (final(self)@, action@) == halted(old(self)@, error),
    {
        proof {
            use_type_invariant(&*self);
        }
        self.phase = Phase::Failed(error);
        SyncAction::Abort(error)
    }

    /// Takes the answer to the first request.
    fn discover(&mut self, body: &str) -> (action: SyncAction)
        requires
            old(self)@.phase is Discovering,
        ensures
            (final(self)@, action@) == discovered(old(self)@, body@),
    {
        proof {
            use_type_invariant(&*self);
        }
        let page = match decode_page(body) {
            Ok(page) => page,
            Err(_) => {
                return self.halt(SyncError::Fetch(FetchError::Decode));
            },
        };
        let offset = match last_offset(page.links.last.as_str()) {
            Ok(offset) => offset,
            Err(_) => {
                return self.halt(SyncError::Fetch(FetchError::Decode));
            },
        };
        let total = if self.page_size == 0 {
            0
        } else {
            offset / self.page_size
        };
        let limit = if total <= self.max_pages {
            total
        } else {
            self.max_pages
        };
        self.current = 0;
        self.total = total;
        self.at_end = false;
        self.next_url = page.links.first.clone();
        if 0 < limit {
            self.phase = Phase::FetchingPage;
            SyncAction::FetchPage { url: page.links.first, pause_millis: PACING_MILLIS }
        } else {
            self.phase = Phase::Complete;
            SyncAction::Finish
        }
    }

    /// Takes the answer to the request for a page.
    fn take_page(&mut self, body: &str) -> (action: SyncAction)
        requires
            old(self)@.phase is FetchingPage,
        ensures
            (final(self)@, action@) == paged(old(self)@, body@),
    {
        proof {
            use_type_invariant(&*self);
        }
        let page = match decode_page(body) {
            Ok(page) => page,
            Err(_) => {
                return self.halt(SyncError::Fetch(FetchError::Decode));
            },
        };
        let records = page.records();
        self.at_end = page.links.next == page.links.last;
        self.next_url = page.links.next;
        self.phase = Phase::StoringBatch;
        SyncAction::StoreBatch { records }
    }

    /// Counts the page whose batch has been stored.
    fn count_page(&mut self) -> (action: SyncAction)
        requires
            old(self)@.phase is StoringBatch,
        ensures
            (final(self)@, action@) == stored(old(self)@),
    {
        proof {
            use_type_invariant(&*self);
        }
        let limit = if self.total <= self.max_pages {
            self.total
        } else {
            self.max_pages
        };
        if self.at_end || self.current + 1 >= limit {
            self.phase = Phase::Complete;
            self.current = self.current + 1;
            SyncAction::Finish
        } else {
            self.current = self.current + 1;
            self.phase = Phase::FetchingPage;
            SyncAction::FetchPage { url: self.next_url.clone(), pause_millis: PACING_MILLIS }
        }
    }

    /// Takes the run one event further and says what is to be done next.
    ///
    /// An event that answers nothing the controller had asked for halts the
    /// run, as does every error; a run that has stopped stays as it is.
    pub fn fetch_next(&mut self, event: SyncEvent) -> (action: SyncAction)
        ensures
            (final(self)@, action@) == step(old(self)@, event@),
            sound(old(self)@),
            sound(final(self)@),
    {
        proof {
            use_type_invariant(&*self);
            lemma_step_keeps_sound(self@, event@);
        }
        match self.phase {
            Phase::Complete => SyncAction::Finish,
            Phase::Failed(error) => SyncAction::Abort(error),
            Phase::Uninitialized => match event {
                SyncEvent::StoreChecked { exists } => if exists {
                    self.phase = Phase::Complete;
                    SyncAction::Finish
                } else {
                    self.phase = Phase::CreatingSchema;
                    SyncAction::CreateSchema
                },
                _ => self.halt(SyncError::OutOfTurn),
            },
            Phase::CreatingSchema => match event {
                SyncEvent::SchemaCreated => {
                    self.phase = Phase::Discovering;
                    SyncAction::FetchPage { url: self.base_url.clone(), pause_millis: 0 }
                },
                SyncEvent::StoreFailed(e) => self.halt(SyncError::Store(e)),
                _ => self.halt(SyncError::OutOfTurn),
            },
            Phase::Discovering => match event {
                SyncEvent::PageFetched { body } => self.discover(body.as_str()),
                SyncEvent::FetchFailed(e) => self.halt(SyncError::Fetch(e)),
                _ => self.halt(SyncError::OutOfTurn),
            },
            Phase::FetchingPage => match event {
                SyncEvent::PageFetched { body } => self.take_page(body.as_str()),
                SyncEvent::FetchFailed(e) => self.halt(SyncError::Fetch(e)),
                _ => self.halt(SyncError::OutOfTurn),
            },
            Phase::StoringBatch => match event {
                SyncEvent::BatchStored => self.count_page(),
                SyncEvent::StoreFailed(e) => self.halt(SyncError::Store(e)),
                _ => self.halt(SyncError::OutOfTurn),
            },
        }
    }
}

/// An upper bound on the number of events that a controller can still take
/// before it stops.
pub open spec fn events_left(p: Progress) -> int {
    match p.phase {
        Phase::Complete | Phase::Failed(_) => 0,
        Phase::StoringBatch => 2 * (page_limit(p) - p.current),
        Phase::FetchingPage => 2 * (page_limit(p) - p.current) + 1,
        Phase::Discovering => 2 * p.max_pages + 2,
        Phase::CreatingSchema => 2 * p.max_pages + 3,
        Phase::Uninitialized => 2 * p.max_pages + 4,
    }
}

/// A new controller is sound.
pub proof fn lemma_initial_sound(config: SyncConfigView)
    ensures
        sound(initial(config)),
        initial(config).phase is Uninitialized,
{
}

/// No event leads a sound controller to one that is not sound. So the count
/// of pages never passes the ceiling, whatever the service reports.
pub proof fn lemma_step_keeps_sound(p: Progress, event: SyncEventView)
    requires
        sound(p),
    ensures
        sound(step(p, event).0),
        step(p, event).0.current <= p.max_pages,
        step(p, event).0.max_pages == p.max_pages,
        step(p, event).0.page_size == p.page_size,
        step(p, event).0.base_url == p.base_url,
{
    if p.phase is Discovering {
        if let SyncEventView::PageFetched { body } = event {
            if let Some(page) = page_of_text(body) {
                if let Some(offset) = offset_of(page.links.last) {
                    if p.page_size > 0 {
                        assert(offset as int / p.page_size as int >= 0) by (nonlinear_arith)
                            requires
                                offset >= 0,
                                p.page_size > 0,
                        ;
                    }
                }
            }
        }
    }
}

/// The bound `events_left` is zero exactly for a controller that has
/// stopped, and a run never has more than `2 * max_pages + 4` events before
/// it.
pub proof fn lemma_events_left(p: Progress)
    requires
        sound(p),
    ensures
        0 <= events_left(p) <= 2 * p.max_pages + 4,
        events_left(p) == 0 <==> stopped(p),
{
}

/// Every event brings a sound controller that has not stopped nearer to its
/// end, so every run stops.
pub proof fn lemma_step_nears_end(p: Progress, event: SyncEventView)
    requires
        sound(p),
        !stopped(p),
    ensures
        events_left(step(p, event).0) < events_left(p),
{
    lemma_step_keeps_sound(p, event);
}

/// The batch that answers a page holds one record for each entry of that
/// page, in the page's order.
pub proof fn lemma_batch_holds_the_page(p: Progress, body: Seq<char>)
    requires
        p.phase is FetchingPage,
        page_of_text(body) is Some,
    ensures
        step(p, SyncEventView::PageFetched { body }).1 == (SyncActionView::StoreBatch {
            records: records_of(page_of_text(body)->0),
        }),
        records_of(page_of_text(body)->0).len() == page_of_text(body)->0.data.len(),
{
}

/// A controller that has stopped stays as it is and asks for nothing more:
/// after a failure no page is fetched and no batch is stored.
pub proof fn lemma_stopped_stays(p: Progress, event: SyncEventView)
    requires
        stopped(p),
    ensures
        step(p, event).0 == p,
        step(p, event).1 == (match p.phase {
            Phase::Failed(error) => SyncActionView::Abort(error),
            _ => SyncActionView::Finish,
        }),
{
}

/// Where a store exists, the run is complete at once: nothing is fetched.
pub proof fn lemma_existing_store_skips(config: SyncConfigView)
    ensures
        step(initial(config), SyncEventView::StoreChecked { exists: true }) == (
            Progress { phase: Phase::Complete, ..initial(config) },
            SyncActionView::Finish,
        ),
{
}

/// An error that the outside world reports, and a page that cannot be
/// decoded, halt a controller that has not stopped, with that error.
pub proof fn lemma_errors_halt(p: Progress, event: SyncEventView)
    requires
        !stopped(p),
    ensures
        event matches SyncEventView::FetchFailed(e) ==> step(p, event).0.phase is Failed
            && step(p, event).1 is Abort,
        event matches SyncEventView::StoreFailed(e) ==> step(p, event).0.phase is Failed
            && step(p, event).1 is Abort,
        (p.phase is Discovering || p.phase is FetchingPage) ==> (event matches SyncEventView::FetchFailed(
            e,
        ) ==> step(p, event) == halted(p, SyncError::Fetch(e))),
        (p.phase is CreatingSchema || p.phase is StoringBatch) ==> (event matches SyncEventView::StoreFailed(
            e,
        ) ==> step(p, event) == halted(p, SyncError::Store(e))),
        (p.phase is Discovering || p.phase is FetchingPage) ==> (event matches SyncEventView::PageFetched {
            body,
        } ==> (page_of_text(body) is None ==> step(p, event) == halted(
            p,
            SyncError::Fetch(FetchError::Decode),
        ))),
{
}

/// The count of pages changes only when a batch has been stored, and then by
/// one; and a batch is asked to be stored only in answer to a page.
pub proof fn lemma_pages_are_counted_once(p: Progress, event: SyncEventView)
    requires
        !(p.phase is Discovering),
    ensures
        step(p, event).0.current == if p.phase is StoringBatch && event is BatchStored {
            p.current + 1
        } else {
            p.current
        },
        step(p, event).1 is StoreBatch ==> p.phase is FetchingPage && event is PageFetched,
{
}

/// When the count reaches the ceiling the run is complete, whatever the
/// service says of the pages that it has left.
pub proof fn lemma_ceiling_completes(p: Progress)
    requires
        sound(p),
        p.phase is StoringBatch,
        p.current + 1 >= p.max_pages,
    ensures
        step(p, SyncEventView::BatchStored) == (
            Progress { phase: Phase::Complete, current: p.current + 1, ..p },
            SyncActionView::Finish,
        ),
{
}

/// No record that the controller hands to the store has a double quote in
/// its title.
pub proof fn lemma_batches_have_no_quotes(p: Progress, event: SyncEventView, i: int)
    requires
        step(p, event).1 is StoreBatch,
        0 <= i < step(p, event).1->records.len(),
    ensures
        !step(p, event).1->records[i].title.contains('"'),
{
    let body = event->body;
    let page = page_of_text(body)->0;
    assert(step(p, event).1->records == records_of(page));
    lemma_without_char_absent(page.data[i].attributes.canonical_title, '"');
}

/// The pause before a request does not depend on what happened before: none
/// before the first request of a run, `PACING_MILLIS` before every other.
pub proof fn lemma_pacing_is_constant(p: Progress, event: SyncEventView)
    requires
        step(p, event).1 is FetchPage,
    ensures
        step(p, event).1->pause_millis == if p.phase is CreatingSchema {
            0
        } else {
            PACING_MILLIS
        },
{
}

} // verus!
