//! The events that the gallery is fed with.

use vstd::prelude::*;
use crate::folder::{ImageFolder, ImageFolderView};
use crate::known::KnownFolderSet;
use crate::raster::{Thumbnail, ThumbnailView};

verus! {

/// What a scan tells the gallery.
#[derive(Debug)]
pub enum ScanEvent {
    /// A folder with pictures was found.
    FolderDiscovered(ImageFolder),
    /// The walk is over; these are the folders known now.
    ScanComplete(KnownFolderSet),
    /// The cover of the folder at `folder_index` in the gallery is made.
    CoverReady { folder_index: usize, thumbnail: Thumbnail },
}

/// What a scan event is, over the views of its parts.
pub enum ScanEventView {
    FolderDiscovered(ImageFolderView),
    ScanComplete(Set<Seq<char>>),
    CoverReady { folder_index: nat, thumbnail: ThumbnailView },
}

impl View for ScanEvent {
    type V = ScanEventView;

    open spec fn view(&self) -> ScanEventView {
        match self {
            ScanEvent::FolderDiscovered(folder) => ScanEventView::FolderDiscovered(folder@),
            ScanEvent::ScanComplete(known) => ScanEventView::ScanComplete(known@),
            ScanEvent::CoverReady { folder_index, thumbnail } => ScanEventView::CoverReady {
                folder_index: *folder_index as nat,
                thumbnail: thumbnail@,
            },
        }
    }
}

/// What opening a folder tells the gallery.
#[derive(Debug)]
pub enum ThumbnailEvent {
    /// The thumbnail of the picture at `index` in the folder is made.
    ThumbnailReady { index: usize, thumbnail: Thumbnail },
}

/// What a thumbnail event is, over the views of its parts.
pub enum ThumbnailEventView {
    ThumbnailReady { index: nat, thumbnail: ThumbnailView },
}

impl View for ThumbnailEvent {
    type V = ThumbnailEventView;

    open spec fn view(&self) -> ThumbnailEventView {
        match self {
            ThumbnailEvent::ThumbnailReady { index, thumbnail } => ThumbnailEventView::ThumbnailReady {
                index: *index as nat,
                thumbnail: thumbnail@,
            },
        }
    }
}

impl ThumbnailEventView {
    /// The place in its folder of the picture that the event is about.
    pub open spec fn index(self) -> nat {
        match self {
            ThumbnailEventView::ThumbnailReady { index, thumbnail } => index,
        }
    }
}

/// The views of a row of scan events.
pub open spec fn scan_events_view(events: Seq<ScanEvent>) -> Seq<ScanEventView> {
    events.map_values(|event: ScanEvent| event@)
}

/// The views of a row of thumbnail events.
pub open spec fn thumbnail_events_view(events: Seq<ThumbnailEvent>) -> Seq<ThumbnailEventView> {
    events.map_values(|event: ThumbnailEvent| event@)
}

/// The views of a row of thumbnails.
pub open spec fn thumbnails_view(thumbnails: Seq<Thumbnail>) -> Seq<ThumbnailView> {
    thumbnails.map_values(|thumbnail: Thumbnail| thumbnail@)
}

} // verus!
