//! The widgets that show one thumbnail: when each has to take a new picture.

use vstd::prelude::*;
use crate::folder::slot_view;
use crate::raster::{Raster, RasterView, Thumbnail};

verus! {

/// What the toolkit tells a widget about its own life.
#[derive(Clone, Copy, Debug, PartialEq, Eq, Structural)]
pub enum LifeCycle {
    /// The widget was put into the tree.
    WidgetAdded,
    /// Anything else.
    Other,
}

/// The raster that a place for a thumbnail shows: the thumbnail's, or the
/// empty raster while there is none.
pub open spec fn shown_raster(slot: Option<Thumbnail>) -> RasterView {
    match slot {
        Some(thumbnail) => thumbnail.image@,
        None => RasterView { width: 0, height: 0, pixels: Seq::empty() },
    }
}

/// The view of a picture that a widget may have to take.
pub open spec fn picture_view(picture: Option<Raster>) -> Option<RasterView> {
    match picture {
        Some(raster) => Some(raster@),
        None => None,
    }
}

/// Whether two places for a thumbnail hold the same.
pub fn same_slot(a: &Option<Thumbnail>, b: &Option<Thumbnail>) -> (same: bool)
    ensures
        same == (slot_view(*a) == slot_view(*b)),
{
    match (a, b) {
        (Some(x), Some(y)) => x.same(y),
        (None, None) => true,
        _ => false,
    }
}

/// The raster that a place for a thumbnail shows.
pub fn raster_of(slot: &Option<Thumbnail>) -> (raster: Raster)
    ensures
        raster@ == shown_raster(*slot),
{
    match slot {
        Some(thumbnail) => thumbnail.image.clone(),
        None => Raster::empty(),
    }
}

/// The controller of a folder's cover in the main view.
#[derive(Clone, Copy, Debug)]
pub struct GalleryThumbnailController;

impl GalleryThumbnailController {
    /// When the widget is put into the tree, it takes the picture of its data.
    pub fn lifecycle(&mut self, event: &LifeCycle, data: &Option<Thumbnail>) -> (picture: Option<Raster>)
        ensures
            picture_view(picture) == if *event == LifeCycle::WidgetAdded {
                Some(shown_raster(*data))
            } else {
                None
            },
    {
        match event {
            LifeCycle::WidgetAdded => Some(raster_of(data)),
            LifeCycle::Other => None,
        }
    }

    /// When its data is no longer the same, the widget takes the new picture.
    pub fn update(&mut self, old_data: &Option<Thumbnail>, data: &Option<Thumbnail>) -> (picture: Option<Raster>)
        ensures
            picture_view(picture) == if slot_view(*data) != slot_view(*old_data) {
                Some(shown_raster(*data))
            } else {
                None
            },
    {
        if !same_slot(data, old_data) {
            Some(raster_of(data))
        } else {
            None
        }
    }
}

/// The controller of a thumbnail in a strip of pictures, whose data is the
/// index of the picture on screen and the thumbnail.
#[derive(Clone, Copy, Debug)]
pub struct ThumbnailController;

impl ThumbnailController {
    /// When the widget is put into the tree, it takes the picture of its data.
    pub fn lifecycle(&mut self, event: &LifeCycle, data: &(usize, Option<Thumbnail>)) -> (picture: Option<Raster>)
        ensures
            picture_view(picture) == if *event == LifeCycle::WidgetAdded {
                Some(shown_raster(data.1))
            } else {
                None
            },
    {
        match event {
            LifeCycle::WidgetAdded => Some(raster_of(&data.1)),
            LifeCycle::Other => None,
        }
    }

    /// When its thumbnail is no longer the same, the widget takes the new
    /// picture; the index of the picture on screen does not count.
    pub fn update(&mut self, old_data: &(usize, Option<Thumbnail>), data: &(usize, Option<Thumbnail>)) -> (picture:
        Option<Raster>)
        ensures
            picture_view(picture) == if slot_view(data.1) != slot_view(old_data.1) {
                Some(shown_raster(data.1))
            } else {
                None
            },
    {
        if !same_slot(&data.1, &old_data.1) {
            Some(raster_of(&data.1))
        } else {
            None
        }
    }
}

/// The controller of a thumbnail in the view of a folder, whose data is the
/// thumbnail and its place in the folder.
#[derive(Clone, Copy, Debug)]
pub struct FolderThumbnailController;

impl FolderThumbnailController {
    /// When the widget is put into the tree, it takes the picture of its data.
    pub fn lifecycle(&mut self, event: &LifeCycle, data: &(Option<Thumbnail>, usize)) -> (picture: Option<Raster>)
        ensures
            picture_view(picture) == if *event == LifeCycle::WidgetAdded {
                Some(shown_raster(data.0))
            } else {
                None
            },
    {
        match event {
            LifeCycle::WidgetAdded => Some(raster_of(&data.0)),
            LifeCycle::Other => None,
        }
    }

    /// When its thumbnail or its place is no longer the same, the widget
    /// takes the new picture.
    pub fn update(&mut self, old_data: &(Option<Thumbnail>, usize), data: &(Option<Thumbnail>, usize)) -> (picture:
        Option<Raster>)
        ensures
            picture_view(picture) == if slot_view(data.0) != slot_view(old_data.0) || data.1 != old_data.1 {
                Some(shown_raster(data.0))
            } else {
                None
            },
    {
        if !same_slot(&data.0, &old_data.0) || data.1 != old_data.1 {
            Some(raster_of(&data.0))
        } else {
            None
        }
    }
}

} // verus!
