//! A folder of the gallery: a directory with the pictures found directly in it.

use vstd::prelude::*;
use crate::known::path_seq;
use crate::raster::{Thumbnail, ThumbnailView};

verus! {

/// What a folder is, over the views of its parts.
pub struct ImageFolderView {
    pub path: Seq<char>,
    pub image_paths: Seq<Seq<char>>,
    pub cover_thumbnail: Option<ThumbnailView>,
    pub thumbnails: Seq<Option<ThumbnailView>>,
}

/// A directory that holds at least one picture as a direct child.
#[derive(Debug)]
pub struct ImageFolder {
    /// The directory's path, by which the folder is known.
    pub path: String,
    /// The pictures directly in the directory, in the order of its listing.
    pub image_paths: Vec<String>,
    /// The thumbnail that stands for the folder in the gallery, once it is made.
    pub cover_thumbnail: Option<Thumbnail>,
    /// One place for each picture, filled when its thumbnail is made.
    pub thumbnails: Vec<Option<Thumbnail>>,
}

/// The view of a thumbnail that may not be there yet.
pub open spec fn slot_view(slot: Option<Thumbnail>) -> Option<ThumbnailView> {
    match slot {
        Some(thumbnail) => Some(thumbnail@),
        None => None,
    }
}

/// The views of a row of thumbnails that may not be there yet.
pub open spec fn slots_view(slots: Seq<Option<Thumbnail>>) -> Seq<Option<ThumbnailView>> {
    slots.map_values(|slot: Option<Thumbnail>| slot_view(slot))
}

/// A row of `n` places without a thumbnail.
pub open spec fn empty_slots(n: nat) -> Seq<Option<ThumbnailView>> {
    Seq::new(n, |i: int| None::<ThumbnailView>)
}

impl View for ImageFolder {
    type V = ImageFolderView;

    open spec fn view(&self) -> ImageFolderView {
        ImageFolderView {
            path: self.path@,
            image_paths: path_seq(self.image_paths@),
            cover_thumbnail: slot_view(self.cover_thumbnail),
            thumbnails: slots_view(self.thumbnails@),
        }
    }
}

impl ImageFolderView {
    /// The folder as it is when found: no cover yet, and an empty place for
    /// each picture.
    pub open spec fn found(path: Seq<char>, image_paths: Seq<Seq<char>>) -> ImageFolderView {
        ImageFolderView {
            path,
            image_paths,
            cover_thumbnail: None,
            thumbnails: empty_slots(image_paths.len()),
        }
    }

    /// There is a picture, and each picture has its place.
    pub open spec fn wf(self) -> bool {
        &&& self.image_paths.len() > 0
        &&& self.thumbnails.len() == self.image_paths.len()
    }
}

/// Copies a row of paths.
pub fn clone_paths(paths: &Vec<String>) -> (copy: Vec<String>)
    ensures
        copy@ == paths@,
{
    let copy = paths.clone();
    assert(copy@ =~= paths@);
    copy
}

/// Copies a thumbnail that may not be there yet.
pub fn clone_slot(slot: &Option<Thumbnail>) -> (copy: Option<Thumbnail>)
    ensures
        slot_view(copy) == slot_view(*slot),
{
    match slot {
        Some(thumbnail) => Some(thumbnail.clone()),
        None => None,
    }
}

/// Copies a row of thumbnails that may not be there yet.
pub fn clone_slots(slots: &Vec<Option<Thumbnail>>) -> (copy: Vec<Option<Thumbnail>>)
    ensures
        slots_view(copy@) == slots_view(slots@),
{
    let mut copy: Vec<Option<Thumbnail>> = Vec::new();
    let n: usize = slots.len();
    let mut i: usize = 0;
    while i < n
        invariant
            n == slots.len(),
            i <= n,
            copy.len() == i,
            forall|j: int| 0 <= j < i ==> slot_view(copy[j]) == slot_view(slots[j]),
        decreases n - i,
    {
        copy.push(clone_slot(&slots[i]));
        i += 1;
    }
    assert(slots_view(copy@) =~= slots_view(slots@));
    copy
}

impl ImageFolder {
    /// There is a picture, and each picture has its place.
    pub open spec fn wf(&self) -> bool {
        self@.wf()
    }

    /// Makes the folder of a directory from the pictures found in it: no
    /// cover yet, and an empty place for each picture.
    pub fn new(path: String, image_paths: Vec<String>) -> (folder: ImageFolder)
        ensures
            folder@ == ImageFolderView::found(path@, path_seq(image_paths@)),
    {
        let mut thumbnails: Vec<Option<Thumbnail>> = Vec::new();
        let n: usize = image_paths.len();
        let mut i: usize = 0;
        while i < n
            invariant
                n == image_paths.len(),
                i <= n,
                thumbnails.len() == i,
                forall|j: int| 0 <= j < i ==> thumbnails[j] is None,
            decreases n - i,
        {
            thumbnails.push(None);
            i += 1;
        }
        assert(slots_view(thumbnails@) =~= empty_slots(n as nat));
        ImageFolder { path, image_paths, cover_thumbnail: None, thumbnails }
    }
}

impl Clone for ImageFolder {
    fn clone(&self) -> (copy: ImageFolder)
        ensures
            copy@ == self@,
    {
        ImageFolder {
            path: self.path.clone(),
            image_paths: clone_paths(&self.image_paths),
            cover_thumbnail: clone_slot(&self.cover_thumbnail),
            thumbnails: clone_slots(&self.thumbnails),
        }
    }
}

} // verus!
