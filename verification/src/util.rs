//! The rules by which one image is stored: when its file is left alone, when
//! it is fetched, and what is reported afterwards.
//!
//! The caller looks at the disk and talks to the network; the library says
//! what to do with what the caller found.

use crate::data::Image;
use crate::data::ImageView;
use vstd::prelude::*;
use vstd::string::StringExecFns;

verus! {

/// How the download of one image ended, where it did not fail.
#[derive(Debug, Clone, Copy, PartialEq, Eq, Structural)]
pub enum DownloadStatus {
    /// The image was downloaded.
    Downloaded,
    /// The image already existed and was downloaded again over it.
    ForceDownloaded,
    /// The image already exists; nothing was fetched.
    AlreadyExists,
}

impl DownloadStatus {
    /// The words that open the report of a download that ended this way.
    pub open spec fn spec_label(self) -> Seq<char> {
        match self {
            DownloadStatus::Downloaded => "Downloaded:     "@,
            DownloadStatus::ForceDownloaded => "Re-downloaded:  "@,
            DownloadStatus::AlreadyExists => "Already Exists: "@,
        }
    }

    /// The words that open the report of a download that ended this way.
    /// All are of one length, so that what follows them lines up.
    pub fn label(&self) -> (label: &'static str)
        ensures
            label@ == self.spec_label(),
    {
        match self {
            DownloadStatus::Downloaded => "Downloaded:     ",
            DownloadStatus::ForceDownloaded => "Re-downloaded:  ",
            DownloadStatus::AlreadyExists => "Already Exists: ",
        }
    }
}

/// The order to fetch an image and to write it to its file.
#[derive(Debug)]
pub struct Transfer {
    /// The name of the file inside the target directory.
    pub file_name: String,
    /// Where the picture is fetched from.
    pub url: String,
    /// Whether the file was there before.
    pub replaces: bool,
}

/// The mathematical content of a [`Transfer`].
pub struct TransferView {
    pub file_name: Seq<char>,
    pub url: Seq<char>,
    pub replaces: bool,
}

impl View for Transfer {
    type V = TransferView;

    open spec fn view(&self) -> TransferView {
        TransferView { file_name: self.file_name@, url: self.url@, replaces: self.replaces }
    }
}

/// What is to be done for an image once it is known whether its file exists.
#[derive(Debug)]
pub enum DownloadStep {
    /// Nothing is to be done, and this is how the download ended.
    Finished(DownloadStatus),
    /// The image has to be fetched and written.
    Transfer(Transfer),
}

/// The mathematical content of a [`DownloadStep`].
pub enum DownloadStepView {
    Finished(DownloadStatus),
    Transfer(TransferView),
}

impl View for DownloadStep {
    type V = DownloadStepView;

    open spec fn view(&self) -> DownloadStepView {
        match self {
            DownloadStep::Finished(status) => DownloadStepView::Finished(*status),
            DownloadStep::Transfer(transfer) => DownloadStepView::Transfer(transfer@),
        }
    }
}

/// The name of the file that holds the image with the given shortcode.
pub open spec fn file_name_of(shortcode: Seq<char>) -> Seq<char> {
    shortcode + ".jpg"@
}

/// What is to be done for an image: a file that is present is left alone unless
/// the download is forced; in every other case the image is fetched.
pub open spec fn download_step(image: ImageView, present: bool, force: bool) -> DownloadStepView {
    if present && !force {
        DownloadStepView::Finished(DownloadStatus::AlreadyExists)
    } else {
        DownloadStepView::Transfer(
            TransferView {
                file_name: file_name_of(image.shortcode),
                url: image.url,
                replaces: present,
            },
        )
    }
}

/// How a download ends once the transfer is over: a failed transfer fails
/// the download with the same reason; a successful one has replaced the
/// file or made it.
pub open spec fn transfer_outcome(replaces: bool, transfer: Result<(), Seq<char>>) -> Result<
    DownloadStatus,
    Seq<char>,
> {
    match transfer {
        Ok(_) => Ok(
            if replaces {
                DownloadStatus::ForceDownloaded
            } else {
                DownloadStatus::Downloaded
            },
        ),
        Err(reason) => Err(reason),
    }
}

/// The text inside the result of a transfer.
pub open spec fn transfer_view(transfer: Result<(), String>) -> Result<(), Seq<char>> {
    match transfer {
        Ok(_) => Ok(()),
        Err(reason) => Err(reason@),
    }
}

/// The text inside the outcome of a download.
pub open spec fn outcome_view(outcome: Result<DownloadStatus, String>) -> Result<
    DownloadStatus,
    Seq<char>,
> {
    match outcome {
        Ok(status) => Ok(status),
        Err(reason) => Err(reason@),
    }
}

impl Image {
    /// The name of the file that holds this image.
    pub fn file_name(&self) -> (name: String)
        ensures
            name@ == file_name_of(self@.shortcode),
    {
        let mut name: String = self.shortcode.clone();
        name.append(".jpg");
        name
    }
}

/// Decides what is to be done for `image`, given whether its file is `present`
/// and whether the download is forced.
pub fn download_image(image: &Image, present: bool, force: bool) -> (step: DownloadStep)
    ensures
        step@ == download_step(image@, present, force),
{
    if present && !force {
        return DownloadStep::Finished(DownloadStatus::AlreadyExists);
    }
    DownloadStep::Transfer(
        Transfer { file_name: image.file_name(), url: image.url.clone(), replaces: present },
    )
}

impl Transfer {
    /// How the download ends, given how the transfer went.
    pub fn finish(&self, result: Result<(), String>) -> (outcome: Result<DownloadStatus, String>)
        ensures
            outcome_view(outcome) == transfer_outcome(self.replaces, transfer_view(result)),
    {
        match result {
            Ok(_) => Ok(
                if self.replaces {
                    DownloadStatus::ForceDownloaded
                } else {
                    DownloadStatus::Downloaded
                },
            ),
            Err(reason) => Err(reason),
        }
    }
}

/// A file that is present is skipped when the download is not forced: the
/// download ends at once, and no transfer is ordered.
pub proof fn lemma_present_file_is_skipped(image: ImageView)
    ensures
        download_step(image, true, false) == DownloadStepView::Finished(
            DownloadStatus::AlreadyExists,
        ),
        !(download_step(image, true, false) is Transfer),
{
}

/// A forced download of a file that is present orders a transfer to the same
/// file, and once the transfer has succeeded the file counts as downloaded
/// again.
pub proof fn lemma_forced_download_replaces(image: ImageView)
    ensures
        download_step(image, true, true) matches DownloadStepView::Transfer(t) && t.replaces
            && t.file_name == file_name_of(image.shortcode) && t.url == image.url
            && transfer_outcome(t.replaces, Ok(())) == Ok::<DownloadStatus, Seq<char>>(
            DownloadStatus::ForceDownloaded,
        ),
{
}

/// A transfer is ordered exactly when the file is missing or the download is
/// forced.
pub proof fn lemma_transfer_ordered_iff(image: ImageView, present: bool, force: bool)
    ensures
        download_step(image, present, force) is Transfer <==> !present || force,
{
}

} // verus!
