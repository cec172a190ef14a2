//! The lazy sequence of images of one account: the images of the first page,
//! then those of every further page, each page asked for only once the
//! previous one has been handed out.
//!
//! The stream decides; it does not talk to the network. When it needs a page
//! it says so, and the caller reports back what the request brought.

use crate::data::image_views;
use crate::data::text_of;
use crate::data::Image;
use crate::data::ImageView;
use crate::data::PageInfo;
use crate::data::PageInfoView;
use crate::data::User;
use vstd::prelude::*;

verus! {

/// What has to be sent to the server to get the page after a cursor.
#[derive(Debug)]
pub struct PageRequest {
    /// The account whose collection is read.
    pub id: String,
    /// The end of the page before the wanted one.
    pub cursor: String,
    /// The key that lets the caller use the paging endpoint.
    pub query_hash: String,
}

/// The mathematical content of a [`PageRequest`].
pub struct PageRequestView {
    pub id: Seq<char>,
    pub cursor: Seq<char>,
    pub query_hash: Seq<char>,
}

impl View for PageRequest {
    type V = PageRequestView;

    open spec fn view(&self) -> PageRequestView {
        PageRequestView { id: self.id@, cursor: self.cursor@, query_hash: self.query_hash@ }
    }
}

/// What a stream answers when it is asked for its next image.
#[derive(Debug)]
pub enum StreamStep {
    /// Here is the next image.
    Yield(Image),
    /// Nothing is buffered: fetch this page and report what came of it.
    Fetch(PageRequest),
    /// The sequence has ended.
    Done,
}

/// The mathematical content of a [`StreamStep`].
pub enum StepView {
    Yield(ImageView),
    Fetch(PageRequestView),
    Done,
}

impl View for StreamStep {
    type V = StepView;

    open spec fn view(&self) -> StepView {
        match self {
            StreamStep::Yield(image) => StepView::Yield(image@),
            StreamStep::Fetch(request) => StepView::Fetch(request@),
            StreamStep::Done => StepView::Done,
        }
    }
}

/// The view of an optional image.
pub open spec fn image_of(image: Option<Image>) -> Option<ImageView> {
    match image {
        Some(i) => Some(i@),
        None => None,
    }
}

/// The state of a stream, as the contracts see it.
pub struct StreamView {
    /// The images already fetched and not yet handed out. They leave from the
    /// back.
    pub buffer: Seq<ImageView>,
    /// The end of the last page received.
    pub page_info: PageInfoView,
    /// The account whose collection is read.
    pub id: Seq<char>,
    /// The key for the paging endpoint, if the caller has one.
    pub query_hash: Option<Seq<char>>,
    /// Set once a page request has failed or has brought an empty page.
    pub exhausted: bool,
}

impl StreamView {
    /// Whether a further page may be asked for once the buffer is empty: the
    /// stream has not been closed, the server announced a next page and gave
    /// its cursor, and the caller holds a key.
    pub open spec fn can_fetch(self) -> bool {
        !self.exhausted && self.page_info.continues() && self.query_hash is Some
    }

    /// Whether the stream is waiting for a page: nothing is buffered and a
    /// further page may be asked for.
    pub open spec fn awaits_page(self) -> bool {
        self.buffer.len() == 0 && self.can_fetch()
    }

    /// The request for the page after the current cursor.
    pub open spec fn request(self) -> PageRequestView
        recommends
            self.can_fetch(),
    {
        PageRequestView {
            id: self.id,
            cursor: self.page_info.end_cursor->0,
            query_hash: self.query_hash->0,
        }
    }

    /// What the stream answers in this state.
    pub open spec fn step(self) -> StepView {
        if self.buffer.len() > 0 {
            StepView::Yield(self.buffer.last())
        } else if self.can_fetch() {
            StepView::Fetch(self.request())
        } else {
            StepView::Done
        }
    }

    /// The state after the stream has answered: a buffered image has left;
    /// nothing else changes.
    pub open spec fn after_step(self) -> StreamView {
        if self.buffer.len() > 0 {
            StreamView { buffer: self.buffer.drop_last(), ..self }
        } else {
            self
        }
    }

    /// The state after `n` answers, none of which was followed by a page or a
    /// failure report.
    pub open spec fn after_steps(self, n: nat) -> StreamView
        decreases n,
    {
        if n == 0 {
            self
        } else {
            self.after_step().after_steps((n - 1) as nat)
        }
    }

    /// The image that is handed out at once when a page arrives: its last
    /// one, if it has any.
    pub open spec fn first_of_page(images: Seq<ImageView>) -> Option<ImageView> {
        if images.len() > 0 {
            Some(images.last())
        } else {
            None
        }
    }

    /// The state after the requested page has arrived: its images but the
    /// last are buffered and its cursor replaces the old one. An empty page
    /// closes the stream.
    pub open spec fn after_page(self, images: Seq<ImageView>, page_info: PageInfoView) -> StreamView {
        StreamView {
            buffer: if images.len() > 0 {
                images.drop_last()
            } else {
                images
            },
            page_info,
            exhausted: images.len() == 0,
            ..self
        }
    }

    /// The state after the page request has failed: the stream is closed.
    pub open spec fn after_failure(self) -> StreamView {
        StreamView { exhausted: true, ..self }
    }
}

/// The images of one account, handed out one at a time.
#[derive(Debug)]
pub struct ImageStream {
    buffer: Vec<Image>,
    page_info: PageInfo,
    id: String,
    query_hash: Option<String>,
    exhausted: bool,
}

impl View for ImageStream {
    type V = StreamView;

    closed spec fn view(&self) -> StreamView {
        StreamView {
            buffer: image_views(self.buffer@),
            page_info: self.page_info@,
            id: self.id@,
            query_hash: text_of(self.query_hash),
            exhausted: self.exhausted,
        }
    }
}

impl User {
    /// The stream of this account's images. It starts with the images of the
    /// page that came with the account; with a `query_hash` it goes on to the
    /// pages after it.
    pub fn images(self, query_hash: Option<String>) -> (stream: ImageStream)
        ensures
            stream@ == (StreamView {
                buffer: self@.timeline.images,
                page_info: self@.timeline.page_info,
                id: self@.id,
                query_hash: text_of(query_hash),
                exhausted: false,
            }),
    {
        let images: Vec<Image> = self.edge_owner_to_timeline_media.images();
        let page_info: PageInfo = self.edge_owner_to_timeline_media.page_info().clone();
        ImageStream { buffer: images, page_info, id: self.id, query_hash, exhausted: false }
    }
}

impl ImageStream {
    /// A stream over a first page that the caller holds already.
    pub fn new(images: Vec<Image>, page_info: PageInfo, id: String, query_hash: Option<String>) -> (stream: ImageStream)
        ensures
            stream@ == (StreamView {
                buffer: image_views(images@),
                page_info: page_info@,
                id: id@,
                query_hash: text_of(query_hash),
                exhausted: false,
            }),
    {
        ImageStream { buffer: images, page_info, id, query_hash, exhausted: false }
    }

    /// Whether the stream is waiting for a page, so that the next thing it
    /// must be told is what the request brought.
    pub fn awaits_page(&self) -> (waiting: bool)
        ensures
            waiting == self@.awaits_page(),
    {
        self.buffer.len() == 0 && !self.exhausted && self.page_info.has_next_page
            && self.page_info.end_cursor.is_some() && self.query_hash.is_some()
    }

    /// Asks for the next image. A buffered image is handed out at once, the
    /// last one first. With an empty buffer the stream asks for the next
    /// page if it may, and otherwise reports that the sequence has ended;
    /// neither changes its state, so an ended stream stays ended.
    pub fn next(&mut self) -> (step: StreamStep)
        ensures
            step@ == old(self)@.step(),
            final(self)@ == old(self)@.after_step(),
    {
        let ghost before = self.buffer@;
        match self.buffer.pop() {
            Some(image) => {
                assert(image_views(self.buffer@) =~= image_views(before).drop_last());
                StreamStep::Yield(image)
            },
            None => {
                if self.exhausted || !self.page_info.has_next_page {
                    return StreamStep::Done;
                }
                match (&self.page_info.end_cursor, &self.query_hash) {
                    (Some(cursor), Some(query_hash)) => StreamStep::Fetch(
                        PageRequest {
                            id: self.id.clone(),
                            cursor: cursor.clone(),
                            query_hash: query_hash.clone(),
                        },
                    ),
                    _ => StreamStep::Done,
                }
            },
        }
    }

    /// Reports that the requested page has arrived. Its images replace the
    /// buffer and its cursor the old one; the last image of the page is
    /// handed out at once. A page without images closes the stream, whatever
    /// its cursor says.
    pub fn page_fetched(&mut self, images: Vec<Image>, page_info: PageInfo) -> (first: Option<Image>)
        requires
            old(self)@.awaits_page(),
        ensures
            image_of(first) == StreamView::first_of_page(image_views(images@)),
            final(self)@ == old(self)@.after_page(image_views(images@), page_info@),
    {
        let mut images = images;
        let ghost page = images@;
        let first: Option<Image> = images.pop();
        assert(image_views(images@) =~= if page.len() > 0 {
            image_views(page).drop_last()
        } else {
            image_views(page)
        });
        self.exhausted = first.is_none();
        self.buffer = images;
        self.page_info = page_info;
        first
    }

    /// Reports that the page request has failed. The stream is closed: it
    /// hands out nothing more and asks for nothing more.
    pub fn fetch_failed(&mut self)
        requires
            old(self)@.awaits_page(),
        ensures
            final(self)@ == old(self)@.after_failure(),
    {
        self.exhausted = true;
    }
}

/// Without page requests a stream only ever loses images from the back of
/// its buffer: after `k` answers the first `len - k` are left.
proof fn lemma_buffer_after_steps(s: StreamView, k: nat)
    ensures
        s.after_steps(k).buffer == s.buffer.take(
            if k <= s.buffer.len() {
                s.buffer.len() - k
            } else {
                0
            },
        ),
        s.after_steps(k).page_info == s.page_info,
        s.after_steps(k).id == s.id,
        s.after_steps(k).query_hash == s.query_hash,
        s.after_steps(k).exhausted == s.exhausted,
    decreases k,
{
    if k > 0 {
        lemma_buffer_after_steps(s.after_step(), (k - 1) as nat);
    }
}

/// Whatever else a stream may do, it first hands out what it has buffered, the
/// last image first.
pub proof fn lemma_buffer_is_handed_out_first(s: StreamView, k: nat)
    requires
        k < s.buffer.len(),
    ensures
        s.after_steps(k).step() == StepView::Yield(s.buffer[s.buffer.len() - 1 - k]),
{
    lemma_buffer_after_steps(s, k);
}

/// A stream asks for a page exactly when nothing is buffered and a further
/// page may be asked for. Asking leaves the stream as it was, and the request
/// names the account, the cursor of the last page and the caller's key.
pub proof fn lemma_page_is_requested_when_drained(s: StreamView)
    ensures
        s.step() is Fetch <==> s.awaits_page(),
        s.step() is Fetch ==> s.after_step() == s && s.step() == StepView::Fetch(s.request()),
{
}

/// Once the requested page has arrived, the stream hands out its images, the
/// last one at once and the others on the calls that follow, before it asks
/// for anything else.
pub proof fn lemma_page_is_handed_out(
    s: StreamView,
    images: Seq<ImageView>,
    page_info: PageInfoView,
    k: nat,
)
    requires
        s.awaits_page(),
        images.len() > 0,
        k < images.len() - 1,
    ensures
        StreamView::first_of_page(images) == Some(images.last()),
        s.after_page(images, page_info).after_steps(k).step() == StepView::Yield(
            images[images.len() - 2 - k],
        ),
{
    lemma_buffer_is_handed_out_first(s.after_page(images, page_info), k);
}

/// Each buffered image leaves the stream once: what is handed out at
/// different calls comes from different places of the buffer. So where the
/// buffered images differ in their shortcodes, no shortcode is handed out
/// twice.
pub proof fn lemma_buffered_images_leave_once(s: StreamView, j: nat, k: nat)
    requires
        j < k < s.buffer.len(),
        forall|a: int, b: int|
            0 <= a < b < s.buffer.len() ==> s.buffer[a].shortcode != s.buffer[b].shortcode,
    ensures
        s.after_steps(j).step() matches StepView::Yield(first)
            && s.after_steps(k).step() matches StepView::Yield(second)
            && first.shortcode != second.shortcode,
{
    lemma_buffer_is_handed_out_first(s, j);
    lemma_buffer_is_handed_out_first(s, k);
}

/// A failed page request ends the sequence: the stream reports the end on
/// every call that follows, and asks for no page again.
pub proof fn lemma_failure_ends_the_stream(s: StreamView, k: nat)
    requires
        s.awaits_page(),
    ensures
        s.after_failure().after_steps(k).step() == StepView::Done,
{
    lemma_drains_without_fetching(s.after_failure(), k);
}

/// A page without images ends the sequence, whatever its cursor says.
pub proof fn lemma_empty_page_ends_the_stream(s: StreamView, page_info: PageInfoView, k: nat)
    requires
        s.awaits_page(),
    ensures
        StreamView::first_of_page(Seq::empty()) == None::<ImageView>,
        s.after_page(Seq::empty(), page_info).after_steps(k).step() == StepView::Done,
{
    lemma_drains_without_fetching(s.after_page(Seq::empty(), page_info), k);
}

/// A stream that may not ask for a page hands out the images of its buffer,
/// the last one first, and reports the end of the sequence ever after. It
/// never asks for a page.
pub proof fn lemma_drains_without_fetching(s: StreamView, k: nat)
    requires
        !s.can_fetch(),
    ensures
        k < s.buffer.len() ==> s.after_steps(k).step() == StepView::Yield(
            s.buffer[s.buffer.len() - 1 - k],
        ),
        k >= s.buffer.len() ==> s.after_steps(k).step() == StepView::Done,
{
    lemma_buffer_after_steps(s, k);
}

/// A stream whose page says that no page follows hands out exactly the
/// images of that page, the last one first, and reports the end of the
/// sequence on every later call.
pub proof fn lemma_last_page_is_drained(s: StreamView, k: nat)
    requires
        !s.page_info.has_next_page,
    ensures
        k < s.buffer.len() ==> s.after_steps(k).step() == StepView::Yield(
            s.buffer[s.buffer.len() - 1 - k],
        ),
        k >= s.buffer.len() ==> s.after_steps(k).step() == StepView::Done,
{
    lemma_drains_without_fetching(s, k);
}

/// A stream without a key for the paging endpoint hands out exactly the
/// images it started with, the last one first, and then reports the end of
/// the sequence; it never asks for a page, whatever the server announced.
pub proof fn lemma_no_key_no_request(s: StreamView, k: nat)
    requires
        s.query_hash is None,
    ensures
        !(s.after_steps(k).step() is Fetch),
        k < s.buffer.len() ==> s.after_steps(k).step() == StepView::Yield(
            s.buffer[s.buffer.len() - 1 - k],
        ),
        k >= s.buffer.len() ==> s.after_steps(k).step() == StepView::Done,
{
    lemma_drains_without_fetching(s, k);
}

} // verus!
