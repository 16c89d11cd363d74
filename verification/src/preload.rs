//! The preload pipeline: a flag that lets one preload run at a time, and a
//! bounded queue of media that is ready to play.
//!
//! The pipeline holds no lock and performs no request. Its owner guards it
//! and calls [`PreloadPipeline::begin_preload`] before a fetch and
//! [`PreloadPipeline::finish_preload`] after it; each call is one step, and
//! every step keeps the queue within its capacity.

use crate::buffer::bytes_view;
use crate::error::QueueError;
use std::collections::VecDeque;
use vstd::prelude::*;
use vstd::string::*;

verus! {

/// The number of items that the queue holds at most.
pub const MAX_PRELOAD: usize = 2;

/// A media file that was downloaded ahead of its playback.
#[derive(Debug)]
pub struct PreloadedVideo {
    /// The identifier under which the item is served.
    pub id: String,
    /// The address that the item was downloaded from.
    pub url: String,
    /// The downloaded bytes.
    pub data: bytes::Bytes,
}

/// A preloaded item as mathematical values.
pub struct ItemView {
    pub id: Seq<char>,
    pub url: Seq<char>,
    pub data: Seq<u8>,
}

impl View for PreloadedVideo {
    type V = ItemView;

    open spec fn view(&self) -> ItemView {
        ItemView { id: self.id@, url: self.url@, data: bytes_view(self.data) }
    }
}

// ---------------------------------------------------------------------------
// Identifiers
// ---------------------------------------------------------------------------

/// A lower-case hexadecimal digit.
pub open spec fn is_hex_digit(c: char) -> bool {
    ('0' <= c <= '9') || ('a' <= c <= 'f')
}

/// The form of a generated identifier: 36 characters, a hyphen at each of
/// the indices 8, 13, 18 and 23, a lower-case hexadecimal digit elsewhere.
pub open spec fn is_stream_id(id: Seq<char>) -> bool {
    &&& id.len() == 36
    &&& forall|i: int|
        0 <= i < 36 ==> if i == 8 || i == 13 || i == 18 || i == 23 {
            #[trigger] id[i] == '-'
        } else {
            is_hex_digit(id[i])
        }
}

/// `Uuid::new_v4` of the `uuid` crate, written out with `to_string`: a
/// random identifier in the hyphenated lower-case form. Nothing else is
/// claimed of it.
#[verifier::external_body]
fn fresh_stream_id() -> (id: String)
    ensures
        is_stream_id(id@),
{
    uuid::Uuid::new_v4().to_string()
}

// ---------------------------------------------------------------------------
// The in-flight flag
// ---------------------------------------------------------------------------

/// Proof that the holder raised the in-flight flag and has to lower it again.
///
/// A guard that a pipeline hands out bears the number of the preload that it
/// was handed out for; a guard that was made for a flag bears none.
#[derive(Debug)]
pub struct PreloadGuard {
    ticket: Option<u64>,
}

impl PreloadGuard {
    /// The number of the preload that the guard was handed out for.
    pub closed spec fn ticket(&self) -> Option<u64> {
        self.ticket
    }

    /// Raises `flag` if it is down. Returns a guard exactly then; the guard
    /// bears no number.
    pub fn try_new(flag: &mut bool) -> (guard: Option<PreloadGuard>)
        ensures
            guard is Some <==> !*old(flag),
            guard is Some ==> guard->0.ticket() is None,
            *final(flag),
    {
        if *flag {
            None
        } else {
            *flag = true;
            Some(PreloadGuard { ticket: None })
        }
    }

    /// The guard with the number `serial`.
    fn numbered(self, serial: u64) -> (guard: PreloadGuard)
        ensures
            guard.ticket() == Some(serial),
    {
        PreloadGuard { ticket: Some(serial) }
    }

    /// Whether the guard bears the number `serial`.
    fn bears(&self, serial: u64) -> (same: bool)
        ensures
            same == (self.ticket() == Some(serial)),
    {
        match self.ticket {
            Some(t) => t == serial,
            None => false,
        }
    }

    /// Lowers `flag` again.
    pub fn release(self, flag: &mut bool)
        ensures
            !*final(flag),
    {
        *flag = false;
    }
}

// ---------------------------------------------------------------------------
// The state and its steps, as mathematics
// ---------------------------------------------------------------------------

/// The state of a pipeline as mathematical values.
pub struct PipelineView {
    /// The items that are ready, oldest first.
    pub queue: Seq<ItemView>,
    /// The item that is being served.
    pub playing: Option<ItemView>,
    /// A preload is running.
    pub in_progress: bool,
    /// The number of the preload that is running or ran last.
    pub serial: u64,
    /// The address of the video that was resolved or promoted last.
    pub current_url: Option<Seq<char>>,
}

/// The number of the preload that follows the preload `serial`.
pub open spec fn next_serial(serial: u64) -> u64 {
    if serial == u64::MAX {
        0
    } else {
        (serial + 1) as u64
    }
}

/// The queue is within its capacity.
pub open spec fn within_capacity(state: PipelineView) -> bool {
    state.queue.len() <= MAX_PRELOAD
}

/// A request to preload finds no preload running and room in the queue.
pub open spec fn may_fetch(state: PipelineView) -> bool {
    !state.in_progress && state.queue.len() < MAX_PRELOAD
}

/// The state after a request to preload: where a fetch may start, the
/// in-flight flag is raised and the preload gets the next number; nothing
/// changes otherwise.
pub open spec fn after_begin(state: PipelineView) -> PipelineView {
    if may_fetch(state) {
        PipelineView { in_progress: true, serial: next_serial(state.serial), ..state }
    } else {
        state
    }
}

/// The guard with the number `ticket` ends the preload that is running.
pub open spec fn ends_preload(state: PipelineView, ticket: Option<u64>) -> bool {
    state.in_progress && ticket == Some(state.serial)
}

/// The state after the holder of a guard with the number `ticket` reported
/// the end of a preload with `fetched`. Where the guard is that of the
/// preload that is running, the in-flight flag is down, and the item joined
/// the queue if there was one and the queue had room. Any other guard
/// changes nothing.
pub open spec fn after_finish(
    state: PipelineView,
    ticket: Option<u64>,
    fetched: Option<ItemView>,
) -> PipelineView {
    if ends_preload(state, ticket) {
        PipelineView {
            in_progress: false,
            queue: match fetched {
                Some(item) => if state.queue.len() < MAX_PRELOAD {
                    state.queue.push(item)
                } else {
                    state.queue
                },
                None => state.queue,
            },
            ..state
        }
    } else {
        state
    }
}

/// The state after the oldest item was taken for playback.
pub open spec fn after_pop(state: PipelineView) -> PipelineView {
    if state.queue.len() > 0 {
        PipelineView {
            queue: state.queue.drop_first(),
            playing: Some(state.queue[0]),
            current_url: Some(state.queue[0].url),
            ..state
        }
    } else {
        state
    }
}

/// The state after the queue was cleared.
pub open spec fn after_clear(state: PipelineView) -> PipelineView {
    PipelineView { queue: Seq::empty(), playing: None, ..state }
}

/// The state after an address was resolved for playback.
pub open spec fn after_resolved(state: PipelineView, url: Seq<char>) -> PipelineView {
    PipelineView { current_url: Some(url), ..state }
}

/// The item that a preload brought, under the identifier `id`.
pub open spec fn fetched_item(id: Seq<char>, fetched: Option<(String, bytes::Bytes)>) -> Option<
    ItemView,
> {
    match fetched {
        Some(pair) => Some(ItemView { id, url: pair.0@, data: bytes_view(pair.1) }),
        None => None,
    }
}

/// The address under which the item `id` is served.
pub open spec fn stream_uri(id: Seq<char>) -> Seq<char> {
    "stream:///video/"@ + id
}

// ---------------------------------------------------------------------------
// The pipeline
// ---------------------------------------------------------------------------

/// What a request to preload is answered with.
#[derive(Debug)]
pub enum PreloadStart {
    /// Another preload is running; holds the length of the queue.
    Busy(usize),
    /// The queue is full; holds its length.
    Full(usize),
    /// The caller fetches one item and then calls `finish_preload` with
    /// the guard.
    Fetch(PreloadGuard),
}

/// A [`PreloadStart`] as mathematical values.
pub enum StartView {
    Busy(nat),
    Full(nat),
    /// Holds the number that the guard bears.
    Fetch(Option<u64>),
}

impl View for PreloadStart {
    type V = StartView;

    open spec fn view(&self) -> StartView {
        match self {
            PreloadStart::Busy(n) => StartView::Busy(*n as nat),
            PreloadStart::Full(n) => StartView::Full(*n as nat),
            PreloadStart::Fetch(guard) => StartView::Fetch(guard.ticket()),
        }
    }
}

/// The answer to a request to preload in the given state.
pub open spec fn begin_answer(state: PipelineView) -> StartView {
    if state.in_progress {
        StartView::Busy(state.queue.len())
    } else if state.queue.len() >= MAX_PRELOAD {
        StartView::Full(state.queue.len())
    } else {
        StartView::Fetch(Some(next_serial(state.serial)))
    }
}

/// The preload pipeline.
pub struct PreloadPipeline {
    pub(crate) queue: VecDeque<PreloadedVideo>,
    pub(crate) playing: Option<PreloadedVideo>,
    pub(crate) in_progress: bool,
    pub(crate) serial: u64,
    pub(crate) current_url: Option<String>,
}

/// The views of the items of a queue.
pub open spec fn items_view(items: Seq<PreloadedVideo>) -> Seq<ItemView> {
    items.map_values(|item: PreloadedVideo| item@)
}

impl View for PreloadPipeline {
    type V = PipelineView;

    closed spec fn view(&self) -> PipelineView {
        PipelineView {
            queue: items_view(self.queue@),
            playing: match self.playing {
                Some(item) => Some(item@),
                None => None,
            },
            in_progress: self.in_progress,
            serial: self.serial,
            current_url: match self.current_url {
                Some(url) => Some(url@),
                None => None,
            },
        }
    }
}

impl PreloadPipeline {
    #[verifier::type_invariant]
    closed spec fn bounded(&self) -> bool {
        self.queue@.len() <= MAX_PRELOAD
    }

    /// A pipeline with an empty queue, nothing playing and no preload running.
    pub fn new() -> (pipeline: PreloadPipeline)
        ensures
            pipeline@ == (PipelineView {
                queue: Seq::empty(),
                playing: None,
                in_progress: false,
                serial: 0,
                current_url: None,
            }),
    {
        let pipeline = PreloadPipeline {
            queue: VecDeque::new(),
            playing: None,
            in_progress: false,
            serial: 0,
            current_url: None,
        };
        assert(items_view(pipeline.queue@) =~= Seq::empty());
        pipeline
    }

    /// The number of items that are ready.
    pub fn get_preload_count(&self) -> (count: usize)
        ensures
            count == self@.queue.len(),
            count <= MAX_PRELOAD,
    {
        proof {
            use_type_invariant(self);
        }
        self.queue.len()
    }

    /// Whether a preload is running.
    pub fn is_preloading(&self) -> (running: bool)
        ensures
            running == self@.in_progress,
    {
        self.in_progress
    }

    /// The item that is being served.
    pub fn playing(&self) -> (item: Option<&PreloadedVideo>)
        ensures
            match item {
                Some(video) => self@.playing == Some(video@),
                None => self@.playing is None,
            },
    {
        self.playing.as_ref()
    }

    /// The address of the video that was resolved or promoted last.
    pub fn current_video_url(&self) -> (url: Option<&String>)
        ensures
            match url {
                Some(text) => self@.current_url == Some(text@),
                None => self@.current_url is None,
            },
    {
        self.current_url.as_ref()
    }

    /// Records the address of a video that was resolved for playback.
    pub fn set_current_video_url(&mut self, url: String)
        ensures
            final(self)@ == after_resolved(old(self)@, url@),
    {
        proof {
            use_type_invariant(&*self);
        }
        self.current_url = Some(url);
    }

    /// Answers a request to preload.
    ///
    /// While another preload runs, or when the queue is full, nothing
    /// changes and the answer holds the length of the queue. Otherwise the
    /// in-flight flag is raised and the caller is to fetch one item.
    pub fn begin_preload(&mut self) -> (start: PreloadStart)
        ensures
            final(self)@ == after_begin(old(self)@),
            start@ == begin_answer(old(self)@),
    {
        proof {
            use_type_invariant(&*self);
        }
        let len: usize = self.queue.len();
        let mut flag: bool = self.in_progress;
        match PreloadGuard::try_new(&mut flag) {
            None => PreloadStart::Busy(len),
            Some(guard) => {
                if MAX_PRELOAD.saturating_sub(len) == 0 {
                    guard.release(&mut flag);
                    PreloadStart::Full(len)
                } else {
                    let serial: u64 = if self.serial == u64::MAX {
                        0
                    } else {
                        self.serial + 1
                    };
                    self.serial = serial;
                    self.in_progress = true;
                    PreloadStart::Fetch(guard.numbered(serial))
                }
            },
        }
    }

    /// Ends a preload: `fetched` is the address and the bytes of the item
    /// that was downloaded, under the identifier `id`, or `None` if the
    /// preload failed. Only the guard that `begin_preload` handed out for
    /// the preload that is running ends it; with any other guard nothing
    /// changes. Returns the length of the queue.
    pub fn finish_preload_as(
        &mut self,
        guard: PreloadGuard,
        id: String,
        fetched: Option<(String, bytes::Bytes)>,
    ) -> (count: usize)
        ensures
            final(self)@ == after_finish(old(self)@, guard.ticket(), fetched_item(id@, fetched)),
            count == final(self)@.queue.len(),
            count <= MAX_PRELOAD,
    {
        proof {
            use_type_invariant(&*self);
        }
        if !(self.in_progress && guard.bears(self.serial)) {
            return self.queue.len();
        }
        let ghost before = self.queue@;
        let mut queue: VecDeque<PreloadedVideo> = VecDeque::new();
        core::mem::swap(&mut self.queue, &mut queue);
        match fetched {
            Some((url, data)) => {
                if queue.len() < MAX_PRELOAD {
                    let item = PreloadedVideo { id, url, data };
                    queue.push_back(item);
                    assert(items_view(queue@) =~= items_view(before).push(item@));
                }
            },
            None => {},
        }
        self.queue = queue;
        let mut flag: bool = self.in_progress;
        guard.release(&mut flag);
        self.in_progress = flag;
        self.queue.len()
    }

    /// Ends a preload: `fetched` is the address and the bytes of the item
    /// that was downloaded, or `None` if the preload failed. A downloaded
    /// item joins the queue under a fresh identifier if the queue has room.
    /// Only the guard that `begin_preload` handed out for the preload that
    /// is running ends it; with any other guard nothing changes. Returns
    /// the length of the queue.
    pub fn finish_preload(
        &mut self,
        guard: PreloadGuard,
        fetched: Option<(String, bytes::Bytes)>,
    ) -> (count: usize)
        ensures
            exists|id: Seq<char>|
                is_stream_id(id) && final(self)@ == after_finish(
                    old(self)@,
                    guard.ticket(),
                    #[trigger] fetched_item(id, fetched),
                ),
            count == final(self)@.queue.len(),
            count <= MAX_PRELOAD,
    {
        let id = fresh_stream_id();
        self.finish_preload_as(guard, id, fetched)
    }

    /// Takes the oldest item for playback and returns the address under
    /// which it is served. Fails when nothing is ready.
    pub fn pop_next_video(&mut self) -> (uri: Result<String, QueueError>)
        ensures
            final(self)@ == after_pop(old(self)@),
            match uri {
                Ok(text) => old(self)@.queue.len() > 0 && text@ == stream_uri(
                    old(self)@.queue[0].id,
                ),
                Err(error) => old(self)@.queue.len() == 0 && error == QueueError::NothingPreloaded,
            },
    {
        proof {
            use_type_invariant(&*self);
        }
        let ghost before = self.queue@;
        let mut queue: VecDeque<PreloadedVideo> = VecDeque::new();
        core::mem::swap(&mut self.queue, &mut queue);
        let oldest = queue.pop_front();
        assert(oldest is Some ==> items_view(queue@) =~= items_view(before).drop_first());
        self.queue = queue;
        match oldest {
            Some(video) => {
                assert(items_view(before)[0] == video@);
                let mut uri = String::from_str("stream:///video/");
                uri.append(video.id.as_str());
                self.current_url = Some(video.url.clone());
                self.playing = Some(video);
                Ok(uri)
            },
            None => Err(QueueError::NothingPreloaded),
        }
    }

    /// Empties the queue and forgets the item that is being served.
    pub fn clear_preload_queue(&mut self)
        ensures
            final(self)@ == after_clear(old(self)@),
    {
        self.queue = VecDeque::new();
        self.playing = None;
        assert(items_view(self.queue@) =~= Seq::empty());
    }
}

// ---------------------------------------------------------------------------
// Laws
// ---------------------------------------------------------------------------

/// One step that an owner of the pipeline may take.
pub enum PipelineStep {
    /// A request to preload.
    Begin,
    /// The holder of a guard with the given number reports the end of a
    /// preload, with the item that it brought.
    Finish(Option<u64>, Option<ItemView>),
    /// The oldest item is taken for playback.
    Pop,
    /// The queue is cleared.
    Clear,
    /// An address was resolved for playback.
    Resolved(Seq<char>),
}

/// The state after one step.
pub open spec fn after_step(state: PipelineView, step: PipelineStep) -> PipelineView {
    match step {
        PipelineStep::Begin => after_begin(state),
        PipelineStep::Finish(ticket, fetched) => after_finish(state, ticket, fetched),
        PipelineStep::Pop => after_pop(state),
        PipelineStep::Clear => after_clear(state),
        PipelineStep::Resolved(url) => after_resolved(state, url),
    }
}

/// The state after the steps of `steps`, taken in order.
pub open spec fn after_steps(state: PipelineView, steps: Seq<PipelineStep>) -> PipelineView
    decreases steps.len(),
{
    if steps.len() == 0 {
        state
    } else {
        after_step(after_steps(state, steps.drop_last()), steps.last())
    }
}

/// The queue never holds more than its capacity: whatever steps the callers
/// of a pipeline take, and in whatever order they come to be served, a queue
/// that was within its capacity stays within it.
pub proof fn lemma_queue_stays_within_capacity(state: PipelineView, steps: Seq<PipelineStep>)
    requires
        within_capacity(state),
    ensures
        within_capacity(after_steps(state, steps)),
    decreases steps.len(),
{
    if steps.len() > 0 {
        lemma_queue_stays_within_capacity(state, steps.drop_last());
    }
}

/// While a preload is running, a further request to preload changes nothing
/// and is answered with the length that the queue had before it.
pub proof fn lemma_request_while_preloading(state: PipelineView)
    requires
        state.in_progress,
    ensures
        after_begin(state) == state,
        begin_answer(state) == StartView::Busy(state.queue.len()),
{
}

/// Of two requests to preload that come one after the other, only the first
/// can start a fetch: if it does, the second is answered with the length of
/// the queue and changes nothing.
pub proof fn lemma_single_flight(state: PipelineView)
    requires
        begin_answer(state) is Fetch,
    ensures
        begin_answer(after_begin(state)) == StartView::Busy(state.queue.len()),
        after_begin(after_begin(state)) == after_begin(state),
{
}

/// The guard that a request to preload hands out ends the preload that the
/// request started, whether the preload brought an item or not.
pub proof fn lemma_guard_ends_its_preload(state: PipelineView, fetched: Option<ItemView>)
    requires
        begin_answer(state) is Fetch,
    ensures
        !after_finish(after_begin(state), begin_answer(state)->Fetch_0, fetched).in_progress,
{
}

/// A guard that was not handed out for the preload that is running changes
/// nothing: neither one that bears no number, as a guard made for a flag,
/// nor one that bears another number.
pub proof fn lemma_other_guard_changes_nothing(
    state: PipelineView,
    ticket: Option<u64>,
    fetched: Option<ItemView>,
)
    requires
        ticket != Some(state.serial),
    ensures
        after_finish(state, ticket, fetched) == state,
{
}

/// While a preload is running, no step but the report of its own guard
/// lets another fetch start: after any step of another kind, and after the
/// report of any other guard, a request to preload is still answered as
/// busy.
pub proof fn lemma_preload_runs_until_its_guard_returns(state: PipelineView, step: PipelineStep)
    requires
        state.in_progress,
        step matches PipelineStep::Finish(ticket, _) ==> ticket != Some(state.serial),
    ensures
        after_step(state, step).in_progress,
        after_step(state, step).serial == state.serial,
        begin_answer(after_step(state, step)) is Busy,
{
}

} // verus!
