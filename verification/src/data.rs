//! The records of the remote API that the library works on, and what it
//! reads from them.

use crate::text::ellipsized;
use crate::text::pad_left;
use crate::text::remove_char;
use crate::text::right_align;
use crate::text::truncate_ellipse;
use crate::text::without;
use vstd::prelude::*;
use vstd::string::StringExecFns;

verus! {

/// Where a page of the collection ends and whether another one follows.
#[derive(Debug)]
pub struct PageInfo {
    pub has_next_page: bool,
    pub end_cursor: Option<String>,
}

/// The mathematical content of a [`PageInfo`].
pub struct PageInfoView {
    pub has_next_page: bool,
    pub end_cursor: Option<Seq<char>>,
}

/// The text of an optional string.
pub open spec fn text_of(s: Option<String>) -> Option<Seq<char>> {
    match s {
        Some(t) => Some(t@),
        None => None,
    }
}

impl View for PageInfo {
    type V = PageInfoView;

    open spec fn view(&self) -> PageInfoView {
        PageInfoView { has_next_page: self.has_next_page, end_cursor: text_of(self.end_cursor) }
    }
}

impl Clone for PageInfo {
    fn clone(&self) -> (copy: PageInfo)
        ensures
            copy@ == self@,
    {
        let end_cursor: Option<String> = match &self.end_cursor {
            Some(cursor) => Some(cursor.clone()),
            None => None,
        };
        PageInfo { has_next_page: self.has_next_page, end_cursor }
    }
}

impl PageInfoView {
    /// Whether a further page can be asked for: the server announced one and
    /// said where it starts.
    pub open spec fn continues(self) -> bool {
        self.has_next_page && self.end_cursor is Some
    }
}

/// The pixel size of an image.
#[derive(Debug, Copy, Clone)]
pub struct Dimensions {
    width: u32,
    height: u32,
}

impl Dimensions {
    /// The width in pixels.
    pub closed spec fn spec_width(&self) -> u32 {
        self.width
    }

    /// The height in pixels.
    pub closed spec fn spec_height(&self) -> u32 {
        self.height
    }

    pub fn new(width: u32, height: u32) -> (d: Dimensions)
        ensures
            d.width() == width,
            d.height() == height,
    {
        Dimensions { width, height }
    }

    /// The width in pixels.
    #[verifier::when_used_as_spec(spec_width)]
    pub fn width(&self) -> (w: u32)
        ensures
            w == self.width(),
    {
        self.width
    }

    /// The height in pixels.
    #[verifier::when_used_as_spec(spec_height)]
    pub fn height(&self) -> (h: u32)
        ensures
            h == self.height(),
    {
        self.height
    }
}

#[derive(Debug)]
struct Edge<T> {
    node: T,
}

#[derive(Debug)]
struct Caption {
    text: String,
}

/// The texts of a sequence of strings.
pub open spec fn texts_of(strings: Seq<String>) -> Seq<Seq<char>> {
    strings.map_values(|s: String| s@)
}

/// The captions attached to an image, in the order the server gave them.
#[derive(Debug)]
pub struct EdgeMediaToCaption {
    edges: Vec<Edge<Caption>>,
}

impl View for EdgeMediaToCaption {
    type V = Seq<Seq<char>>;

    closed spec fn view(&self) -> Seq<Seq<char>> {
        self.edges@.map_values(|e: Edge<Caption>| e.node.text@)
    }
}

impl EdgeMediaToCaption {
    /// Holds the given caption texts, in their order.
    pub fn new(texts: Vec<String>) -> (captions: EdgeMediaToCaption)
        ensures
            captions@ == texts_of(texts@),
    {
        let ghost wanted = texts_of(texts@);
        let mut edges: Vec<Edge<Caption>> = Vec::new();
        for text in it: texts
            invariant
                wanted == texts_of(it.seq()),
                edges.len() == it.index(),
                forall|k: int| 0 <= k < it.index() ==> edges@[k].node.text@ == wanted[k],
        {
            edges.push(Edge { node: Caption { text } });
        }
        let captions = EdgeMediaToCaption { edges };
        captions
    }

    /// Copies of the caption texts, in their order.
    pub fn texts(&self) -> (texts: Vec<String>)
        ensures
            texts_of(texts@) == self@,
    {
        let mut texts: Vec<String> = Vec::new();
        let mut i: usize = 0;
        while i < self.edges.len()
            invariant
                i <= self.edges.len(),
                texts.len() == i,
                forall|k: int| 0 <= k < i ==> texts@[k]@ == self.edges@[k].node.text@,
            decreases self.edges.len() - i,
        {
            texts.push(self.edges[i].node.text.clone());
            i = i + 1;
        }
        texts
    }
}

impl Clone for EdgeMediaToCaption {
    fn clone(&self) -> (copy: EdgeMediaToCaption)
        ensures
            copy@ == self@,
    {
        EdgeMediaToCaption::new(self.texts())
    }
}

/// One media record of the collection.
#[derive(Debug)]
pub struct Image {
    /// The record's identifier, unique within the collection.
    pub shortcode: String,
    pub dimensions: Dimensions,
    /// Where the picture itself can be fetched.
    pub url: String,
    pub edge_media_to_caption: EdgeMediaToCaption,
}

/// The mathematical content of an [`Image`].
pub struct ImageView {
    pub shortcode: Seq<char>,
    pub dimensions: Dimensions,
    pub url: Seq<char>,
    pub captions: Seq<Seq<char>>,
}

impl View for Image {
    type V = ImageView;

    open spec fn view(&self) -> ImageView {
        ImageView {
            shortcode: self.shortcode@,
            dimensions: self.dimensions,
            url: self.url@,
            captions: self.edge_media_to_caption@,
        }
    }
}

/// The first of a list of captions, if there is one.
pub open spec fn first_caption(captions: Seq<Seq<char>>) -> Option<Seq<char>> {
    if captions.len() > 0 {
        Some(captions[0])
    } else {
        None
    }
}

/// The contents of a sequence of images.
pub open spec fn image_views(images: Seq<Image>) -> Seq<ImageView> {
    images.map_values(|i: Image| i@)
}

impl Clone for Image {
    fn clone(&self) -> (copy: Image)
        ensures
            copy@ == self@,
    {
        Image {
            shortcode: self.shortcode.clone(),
            dimensions: self.dimensions,
            url: self.url.clone(),
            edge_media_to_caption: self.edge_media_to_caption.clone(),
        }
    }
}

impl Image {
    pub fn new(
        shortcode: String,
        dimensions: Dimensions,
        url: String,
        edge_media_to_caption: EdgeMediaToCaption,
    ) -> (image: Image)
        ensures
            image@ == (ImageView {
                shortcode: shortcode@,
                dimensions,
                url: url@,
                captions: edge_media_to_caption@,
            }),
    {
        Image { shortcode, dimensions, url, edge_media_to_caption }
    }

    /// The first caption of the image, if it has any.
    pub fn get_caption(&self) -> (caption: Option<String>)
        ensures
            text_of(caption) == first_caption(self@.captions),
    {
        if self.edge_media_to_caption.edges.len() > 0 {
            Some(self.edge_media_to_caption.edges[0].node.text.clone())
        } else {
            None
        }
    }
}

/// The number of grapheme clusters of a caption that a listing shows.
pub const CAPTION_LIMIT: usize = 40;

/// The width of the field in which a listing shows the shortcode.
pub const SHORTCODE_WIDTH: usize = 11;

/// What a listing shows of the captions of an image: the first caption,
/// without its line feeds and cut to [`CAPTION_LIMIT`] grapheme clusters.
pub open spec fn caption_summary(captions: Seq<Seq<char>>) -> Option<Seq<char>> {
    match first_caption(captions) {
        Some(caption) => Some(ellipsized(without(caption, '\n'), CAPTION_LIMIT)),
        None => None,
    }
}

/// The line that lists an image: its shortcode, right-aligned in a field of
/// [`SHORTCODE_WIDTH`] characters, a space, and the caption to show or the
/// words `no caption`.
pub open spec fn listing(shortcode: Seq<char>, caption: Option<Seq<char>>) -> Seq<char> {
    pad_left(shortcode, SHORTCODE_WIDTH as nat) + " "@ + match caption {
        Some(text) => text,
        None => "no caption"@,
    }
}

/// Writes the line that lists an image with the given shortcode and the
/// given caption to show.
pub fn listing_line(shortcode: &str, caption: &Option<String>) -> (line: String)
    ensures
        line@ == listing(shortcode@, text_of(*caption)),
{
    let mut line: String = right_align(shortcode, SHORTCODE_WIDTH);
    line.append(" ");
    match caption {
        Some(text) => line.append(text.as_str()),
        None => line.append("no caption"),
    }
    line
}

impl Image {
    /// What a listing shows of the captions of this image.
    pub fn caption_summary(&self) -> (summary: Option<String>)
        ensures
            text_of(summary) == caption_summary(self@.captions),
    {
        match self.get_caption() {
            Some(caption) => {
                let flat: String = remove_char(caption.as_str(), '\n');
                Some(truncate_ellipse(flat.as_str(), CAPTION_LIMIT))
            },
            None => None,
        }
    }

    /// The shortcode as a listing shows it.
    pub fn padded_shortcode(&self) -> (padded: String)
        ensures
            padded@ == pad_left(self@.shortcode, SHORTCODE_WIDTH as nat),
    {
        right_align(self.shortcode.as_str(), SHORTCODE_WIDTH)
    }

    /// The line that lists this image.
    pub fn describe(&self) -> (line: String)
        ensures
            line@ == listing(self@.shortcode, caption_summary(self@.captions)),
    {
        let summary: Option<String> = self.caption_summary();
        listing_line(self.shortcode.as_str(), &summary)
    }
}

/// One page of the collection as the server sends it: its images, the size of
/// the whole collection and where the page ends.
#[derive(Debug)]
pub struct EdgeOwnerToTimeline {
    pub count: u32,
    pub page_info: PageInfo,
    edges: Vec<Edge<Image>>,
}

/// The mathematical content of an [`EdgeOwnerToTimeline`].
pub struct TimelineView {
    pub count: u32,
    pub page_info: PageInfoView,
    pub images: Seq<ImageView>,
}

impl View for EdgeOwnerToTimeline {
    type V = TimelineView;

    closed spec fn view(&self) -> TimelineView {
        TimelineView {
            count: self.count,
            page_info: self.page_info@,
            images: self.edges@.map_values(|e: Edge<Image>| e.node@),
        }
    }
}

impl EdgeOwnerToTimeline {
    pub fn new(count: u32, page_info: PageInfo, images: Vec<Image>) -> (page: EdgeOwnerToTimeline)
        ensures
            page@ == (TimelineView {
                count,
                page_info: page_info@,
                images: image_views(images@),
            }),
    {
        let ghost wanted = image_views(images@);
        let mut edges: Vec<Edge<Image>> = Vec::new();
        for image in it: images
            invariant
                wanted == image_views(it.seq()),
                edges.len() == it.index(),
                forall|k: int| 0 <= k < it.index() ==> edges@[k].node@ == wanted[k],
        {
            edges.push(Edge { node: image });
        }
        let page = EdgeOwnerToTimeline { count, page_info, edges };
        assert(page@.images =~= wanted);
        page
    }

    /// The size of the whole collection, as the server reports it.
    pub fn count(&self) -> (count: u32)
        ensures
            count == self@.count,
    {
        self.count
    }

    /// Where this page ends.
    pub fn page_info(&self) -> (page_info: &PageInfo)
        ensures
            page_info@ == self@.page_info,
    {
        &self.page_info
    }

    /// Copies of the images of this page, in the server's order.
    pub fn images(&self) -> (images: Vec<Image>)
        ensures
            image_views(images@) == self@.images,
    {
        let mut images: Vec<Image> = Vec::new();
        let mut i: usize = 0;
        while i < self.edges.len()
            invariant
                i <= self.edges.len(),
                images.len() == i,
                forall|k: int| 0 <= k < i ==> images@[k]@ == self.edges@[k].node@,
            decreases self.edges.len() - i,
        {
            images.push(self.edges[i].node.clone());
            i = i + 1;
        }
        images
    }
}

impl Clone for EdgeOwnerToTimeline {
    fn clone(&self) -> (copy: EdgeOwnerToTimeline)
        ensures
            copy@ == self@,
    {
        EdgeOwnerToTimeline::new(self.count, self.page_info.clone(), self.images())
    }
}

/// An account and the first page of its collection.
#[derive(Debug)]
pub struct User {
    pub biography: String,
    pub username: String,
    pub id: String,
    pub profile_pic_url_hd: String,
    pub edge_owner_to_timeline_media: EdgeOwnerToTimeline,
}

/// The mathematical content of a [`User`].
pub struct UserView {
    pub biography: Seq<char>,
    pub username: Seq<char>,
    pub id: Seq<char>,
    pub profile_pic_url_hd: Seq<char>,
    pub timeline: TimelineView,
}

impl View for User {
    type V = UserView;

    open spec fn view(&self) -> UserView {
        UserView {
            biography: self.biography@,
            username: self.username@,
            id: self.id@,
            profile_pic_url_hd: self.profile_pic_url_hd@,
            timeline: self.edge_owner_to_timeline_media@,
        }
    }
}

impl Clone for User {
    fn clone(&self) -> (copy: User)
        ensures
            copy@ == self@,
    {
        User {
            biography: self.biography.clone(),
            username: self.username.clone(),
            id: self.id.clone(),
            profile_pic_url_hd: self.profile_pic_url_hd.clone(),
            edge_owner_to_timeline_media: self.edge_owner_to_timeline_media.clone(),
        }
    }
}

/// The account inside the answer to a page request.
#[derive(Debug)]
pub struct MoreRequestDataUser {
    pub edge_owner_to_timeline_media: EdgeOwnerToTimeline,
}

/// The data inside the answer to a page request.
#[derive(Debug)]
pub struct MoreRequestData {
    user: MoreRequestDataUser,
}

impl MoreRequestData {
    /// The page that the data holds.
    pub closed spec fn timeline(&self) -> TimelineView {
        self.user.edge_owner_to_timeline_media@
    }

    pub fn new(user: MoreRequestDataUser) -> (data: MoreRequestData)
        ensures
            data.timeline() == user.edge_owner_to_timeline_media@,
    {
        MoreRequestData { user }
    }
}

/// The answer to a page request.
#[derive(Debug)]
pub struct MoreRequest {
    data: MoreRequestData,
}

impl MoreRequest {
    /// The page that the answer holds.
    pub closed spec fn timeline(&self) -> TimelineView {
        self.data.timeline()
    }

    pub fn new(data: MoreRequestData) -> (answer: MoreRequest)
        ensures
            answer.timeline() == data.timeline(),
    {
        MoreRequest { data }
    }

    /// What the stream needs of the answer: the images of the page and where
    /// the page ends.
    pub fn into_page(self) -> (page: (Vec<Image>, PageInfo))
        ensures
            image_views(page.0@) == self.timeline().images,
            page.1@ == self.timeline().page_info,
    {
        let images: Vec<Image> = self.data.user.edge_owner_to_timeline_media.images();
        let page_info: PageInfo = self.data.user.edge_owner_to_timeline_media.page_info().clone();
        (images, page_info)
    }
}

/// The part of the profile data that holds the account.
#[derive(Debug)]
pub struct GraphQl {
    pub user: User,
}

/// One profile page of the profile data.
#[derive(Debug)]
pub struct ProfilePage {
    pub graphql: GraphQl,
}

/// The profile pages of the profile data.
#[derive(Debug)]
pub struct EntryData {
    pub profile_page: Vec<ProfilePage>,
}

/// What the script element of a profile page holds, decoded.
#[derive(Debug)]
pub struct ProfileData {
    pub entry_data: EntryData,
}

} // verus!
