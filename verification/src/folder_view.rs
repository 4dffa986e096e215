//! The view of one folder: its state, how it follows the gallery's state,
//! and how it answers the thumbnails that come in and the user's choices.

use vstd::prelude::*;
use crate::app_data::{AppState, AppStateView};
use crate::events::{ThumbnailEvent, ThumbnailEventView};
use crate::folder::{clone_paths, clone_slots, slots_view, ImageFolderView};
use crate::known::path_seq;
use crate::raster::{Thumbnail, ThumbnailView};
use crate::thumbnail_view::LifeCycle;

verus! {

/// A view inside an opened folder.
#[derive(Clone, Copy, Debug, PartialEq, Eq, Hash, Structural)]
pub enum FolderView {
    /// The thumbnails of the folder.
    Folder,
    /// One picture at its full size.
    SingleImage,
}

/// What the state of an opened folder is, over the views of its parts.
pub struct FolderGalleryStateView {
    pub name: Seq<char>,
    pub images: Seq<Option<ThumbnailView>>,
    pub selected_folder: Option<nat>,
    pub selected_image: nat,
    pub views: Seq<FolderView>,
    pub paths: Seq<Seq<char>>,
}

/// The state of the folder that is open.
#[derive(Debug)]
pub struct FolderGalleryState {
    /// The path of the folder.
    pub name: String,
    /// One place for each picture, filled when its thumbnail is made.
    pub images: Vec<Option<Thumbnail>>,
    /// The place of the folder in the gallery.
    pub selected_folder: Option<usize>,
    /// The place in the folder of the picture on screen.
    pub selected_image: usize,
    /// The stack of views; the last is the one on screen.
    pub views: Vec<FolderView>,
    /// The paths of the pictures.
    pub paths: Vec<String>,
}

impl View for FolderGalleryState {
    type V = FolderGalleryStateView;

    open spec fn view(&self) -> FolderGalleryStateView {
        FolderGalleryStateView {
            name: self.name@,
            images: slots_view(self.images@),
            selected_folder: crate::app_data::index_view(self.selected_folder),
            selected_image: self.selected_image as nat,
            views: self.views@,
            paths: path_seq(self.paths@),
        }
    }
}

impl FolderGalleryStateView {
    /// The state of a view that is opened on the gallery: that of the open
    /// folder with its first picture chosen, or an empty one where no
    /// folder is open.
    pub open spec fn opened(app: AppStateView) -> FolderGalleryStateView {
        match app.selected_folder {
            Some(idx) => FolderGalleryStateView {
                name: app.all_images[idx as int].path,
                images: app.all_images[idx as int].thumbnails,
                selected_folder: Some(idx),
                selected_image: 0,
                views: seq![FolderView::Folder],
                paths: app.all_images[idx as int].image_paths,
            },
            None => FolderGalleryStateView {
                name: Seq::empty(),
                images: Seq::empty(),
                selected_folder: None,
                selected_image: 0,
                views: seq![FolderView::Folder],
                paths: Seq::empty(),
            },
        }
    }

    /// The state after it took over the folder that is open in the gallery:
    /// unchanged where that is the folder it shows already, or none is open.
    pub open spec fn after_read_input(self, app: AppStateView) -> FolderGalleryStateView {
        match app.selected_folder {
            Some(idx) => if self.selected_folder != Some(idx) {
                FolderGalleryStateView {
                    selected_folder: Some(idx),
                    name: app.all_images[idx as int].path,
                    images: app.all_images[idx as int].thumbnails,
                    paths: app.all_images[idx as int].image_paths,
                    ..self
                }
            } else {
                self
            },
            None => self,
        }
    }

    /// The gallery after the folder's name and thumbnails were written back
    /// to it: unchanged where the view shows no folder of the gallery.
    pub open spec fn written_back(self, app: AppStateView) -> AppStateView {
        match self.selected_folder {
            Some(idx) => if idx < app.all_images.len() {
                AppStateView {
                    all_images: app.all_images.update(
                        idx as int,
                        ImageFolderView {
                            path: self.name,
                            thumbnails: self.images,
                            ..app.all_images[idx as int]
                        },
                    ),
                    ..app
                }
            } else {
                app
            },
            None => app,
        }
    }

    /// The state after a thumbnail came in: the thumbnail stands at its
    /// place. One for a place that the folder does not have changes nothing.
    pub open spec fn after_thumbnail(self, event: ThumbnailEventView) -> FolderGalleryStateView {
        match event {
            ThumbnailEventView::ThumbnailReady { index, thumbnail } => if index < self.images.len() {
                FolderGalleryStateView { images: self.images.update(index as int, Some(thumbnail)), ..self }
            } else {
                self
            },
        }
    }

    /// The state after a step back to the picture before, where there is one.
    pub open spec fn after_select_previous(self) -> FolderGalleryStateView {
        if self.paths.len() == 0 || self.selected_image == 0 {
            self
        } else {
            FolderGalleryStateView { selected_image: (self.selected_image - 1) as nat, ..self }
        }
    }

    /// The state after a step on to the next picture, where there is one.
    pub open spec fn after_select_next(self) -> FolderGalleryStateView {
        if self.selected_image + 1 < self.paths.len() {
            FolderGalleryStateView { selected_image: self.selected_image + 1, ..self }
        } else {
            self
        }
    }

    /// The path of the picture on screen, where the folder has it.
    pub open spec fn selected_path(self) -> Option<Seq<char>> {
        if self.selected_image < self.paths.len() {
            Some(self.paths[self.selected_image as int])
        } else {
            None
        }
    }
}

impl FolderGalleryState {
    /// Opens the view of a folder on the gallery: it shows the folder that
    /// is open there, with its first picture chosen, or nothing where no
    /// folder is open.
    pub fn new(state: AppState) -> (opened: FolderGalleryState)
        requires
            state@.selection_in_gallery(),
        ensures
            opened@ == FolderGalleryStateView::opened(state@),
    {
        let mut views: Vec<FolderView> = Vec::new();
        views.push(FolderView::Folder);
        assert(views@ =~= seq![FolderView::Folder]);
        match state.selected_folder {
            Some(idx) => {
                let folder = &state.all_images[idx];
                FolderGalleryState {
                    name: folder.path.clone(),
                    images: clone_slots(&folder.thumbnails),
                    selected_folder: Some(idx),
                    selected_image: 0,
                    views,
                    paths: clone_paths(&folder.image_paths),
                }
            },
            None => {
                let opened = FolderGalleryState {
                    name: String::new(),
                    images: Vec::new(),
                    selected_folder: None,
                    selected_image: 0,
                    views,
                    paths: Vec::new(),
                };
                assert(slots_view(opened.images@) =~= Seq::empty());
                assert(path_seq(opened.paths@) =~= Seq::empty());
                opened
            },
        }
    }

    /// Puts a view on top of the stack.
    pub fn add_view(&mut self, view: FolderView)
        ensures
            final(self)@ == (FolderGalleryStateView { views: old(self)@.views.push(view), ..old(self)@ }),
    {
        self.views.push(view);
    }

    /// Takes the top view off the stack, if there is one.
    pub fn pop_view(&mut self)
        ensures
            old(self)@.views.len() > 0 ==> final(self)@ == (FolderGalleryStateView {
                views: old(self)@.views.drop_last(),
                ..old(self)@
            }),
            old(self)@.views.len() == 0 ==> final(self)@ == old(self)@,
    {
        self.views.pop();
    }

    /// The view on screen: the top of the stack.
    pub fn current_view(&self) -> (view: &FolderView)
        requires
            self.views.len() > 0,
        ensures
            *view == self@.views.last(),
    {
        &self.views[self.views.len() - 1]
    }

    /// The height of the stack of views.
    pub fn len(&self) -> (n: usize)
        ensures
            n == self@.views.len(),
    {
        self.views.len()
    }

    /// Whether the stack of views is empty.
    pub fn is_empty(&self) -> (b: bool)
        ensures
            b == (self@.views.len() == 0),
    {
        self.views.len() == 0
    }

    /// The number of places for thumbnails.
    pub fn data_len(&self) -> (n: usize)
        ensures
            n == self@.images.len(),
    {
        self.images.len()
    }

    /// A thumbnail to shape the grid by: the first of the folder, or none
    /// while the folder has no place for one. It goes with the place 0.
    pub fn child_data(&self) -> (child: (Option<Thumbnail>, usize))
        ensures
            child.1 == 0,
            crate::folder::slot_view(child.0) == if self@.images.len() > 0 {
                self@.images[0]
            } else {
                None
            },
    {
        if self.images.len() > 0 {
            (crate::folder::clone_slot(&self.images[0]), 0)
        } else {
            (None, 0)
        }
    }

    /// Steps back to the picture before the one on screen, where there is one.
    pub fn select_previous(&mut self)
        ensures
            final(self)@ == old(self)@.after_select_previous(),
    {
        if self.paths.len() == 0 || self.selected_image == 0 {
            return;
        }
        self.selected_image = self.selected_image - 1;
    }

    /// Steps on to the picture after the one on screen, where there is one.
    pub fn select_next(&mut self)
        ensures
            final(self)@ == old(self)@.after_select_next(),
    {
        if self.selected_image < self.paths.len() && self.selected_image + 1 < self.paths.len() {
            self.selected_image = self.selected_image + 1;
        }
    }

    /// The path of the picture on screen, where the folder has it.
    pub fn selected_path(&self) -> (path: Option<String>)
        ensures
            match self@.selected_path() {
                Some(expected) => path matches Some(found) && found@ == expected,
                None => path is None,
            },
    {
        if self.selected_image < self.paths.len() {
            Some(self.paths[self.selected_image].clone())
        } else {
            None
        }
    }
}

/// What can happen to the view of a folder.
#[derive(Debug)]
pub enum FolderEvent {
    /// The user chose the picture at this place, to be shown in this view.
    PushViewWithSelectedImage(FolderView, usize),
    /// A thumbnail of the folder is made.
    CreatedThumbnail(ThumbnailEvent),
    /// The user went back.
    PopFolderView,
    /// The picture at this place is to be on screen.
    SelectImage(usize),
}

/// The controller of the view of a folder.
#[derive(Clone, Copy, Debug)]
pub struct FolderViewController;

impl FolderViewController {
    /// Takes one event of the view of a folder. A chosen picture is put on
    /// screen in its view; a thumbnail that is made is put at its place;
    /// going back closes the top view. Any other event changes nothing.
    pub fn event(&mut self, event: FolderEvent, data: &mut FolderGalleryState)
        ensures
            match event {
                FolderEvent::PushViewWithSelectedImage(view, idx) => final(data)@ == (FolderGalleryStateView {
                    views: old(data)@.views.push(view),
                    selected_image: idx as nat,
                    ..old(data)@
                }),
                FolderEvent::CreatedThumbnail(made) => final(data)@ == old(data)@.after_thumbnail(made@),
                FolderEvent::PopFolderView => final(data)@ == (if old(data)@.views.len() > 0 {
                    FolderGalleryStateView { views: old(data)@.views.drop_last(), ..old(data)@ }
                } else {
                    old(data)@
                }),
                FolderEvent::SelectImage(_) => final(data)@ == old(data)@,
            },
    {
        match event {
            FolderEvent::PushViewWithSelectedImage(view, idx) => {
                data.add_view(view);
                data.selected_image = idx;
            },
            FolderEvent::CreatedThumbnail(ThumbnailEvent::ThumbnailReady { index, thumbnail }) => {
                if index < data.images.len() {
                    let ghost before = data.images@;
                    let ghost made = thumbnail@;
                    data.images[index] = Some(thumbnail);
                    assert(slots_view(data.images@) =~= slots_view(before).update(index as int, Some(made)));
                }
            },
            FolderEvent::PopFolderView => {
                data.pop_view();
            },
            FolderEvent::SelectImage(_) => {},
        }
    }
}

/// The controller of the view of one picture.
#[derive(Clone, Copy, Debug)]
pub struct ImageViewController;

impl ImageViewController {
    /// Takes one event of the view of a picture: the picture that is chosen
    /// is the one on screen from now on. Any other event changes nothing.
    pub fn event(&mut self, event: &FolderEvent, data: &mut FolderGalleryState)
        ensures
            match *event {
                FolderEvent::SelectImage(idx) => final(data)@ == (FolderGalleryStateView {
                    selected_image: idx as nat,
                    ..old(data)@
                }),
                _ => final(data)@ == old(data)@,
            },
    {
        match event {
            FolderEvent::SelectImage(idx) => {
                data.selected_image = *idx;
            },
            _ => {},
        }
    }
}

/// Carries the open folder from the gallery's state to the state of its
/// view, and the view's changes back.
#[derive(Clone, Copy, Debug)]
pub struct GalleryTransfer;

impl GalleryTransfer {
    /// Brings the state of the view up to the gallery's: where another
    /// folder is open there than the view shows, the view takes its name,
    /// thumbnails and paths. The picture on screen and the views stay.
    pub fn read_input(&self, state: &mut FolderGalleryState, inner: &AppState)
        requires
            inner@.selection_in_gallery(),
        ensures
            final(state)@ == old(state)@.after_read_input(inner@),
    {
        match inner.selected_folder {
            Some(idx) => {
                let differs = match state.selected_folder {
                    Some(current_idx) => idx != current_idx,
                    None => true,
                };
                if differs {
                    let folder = &inner.all_images[idx];
                    state.selected_folder = Some(idx);
                    state.name = folder.path.clone();
                    state.images = clone_slots(&folder.thumbnails);
                    state.paths = clone_paths(&folder.image_paths);
                }
            },
            None => {},
        }
    }

    /// Writes the name and the thumbnails of the view's folder back to the
    /// gallery. Where the view shows no folder of the gallery, nothing is written.
    pub fn write_back_input(&self, state: &FolderGalleryState, inner: &mut AppState)
        ensures
            final(inner)@ == state@.written_back(old(inner)@),
            old(inner).wf() ==> final(inner).wf(),
    {
        match state.selected_folder {
            Some(idx) => {
                if idx < inner.all_images.len() {
                    let ghost before = inner.all_images@;
                    inner.all_images[idx].path = state.name.clone();
                    inner.all_images[idx].thumbnails = clone_slots(&state.images);
                    assert(crate::app_data::folders_view(inner.all_images@) =~= crate::app_data::folders_view(
                        before,
                    ).update(
                        idx as int,
                        ImageFolderView {
                            path: state@.name,
                            thumbnails: state@.images,
                            ..crate::app_data::folders_view(before)[idx as int]
                        },
                    ));
                }
            },
            None => {},
        }
    }
}

/// The path that a step of the picture view asks to be loaded.
pub open spec fn path_view(path: Option<String>) -> Option<Seq<char>> {
    match path {
        Some(path) => Some(path@),
        None => None,
    }
}

/// The controller of the widget that shows one picture at its full size.
#[derive(Clone, Copy, Debug, PartialEq, Eq, Structural)]
pub struct DisplayImageController;

impl DisplayImageController {
    /// The controller of a widget that shows no picture yet.
    pub fn new() -> (controller: DisplayImageController)
        ensures
            controller == DisplayImageController,
    {
        DisplayImageController
    }

    /// Says which picture is to be loaded after the state changed: the one
    /// on screen, where it is another than before.
    pub fn update(&mut self, old_data: &FolderGalleryState, data: &FolderGalleryState) -> (load: Option<String>)
        ensures
            path_view(load) == if data@.selected_image != old_data@.selected_image {
                data@.selected_path()
            } else {
                None
            },
    {
        if data.paths.len() == 0 {
            return None;
        }
        if data.selected_image != old_data.selected_image {
            data.selected_path()
        } else {
            None
        }
    }

    /// Says which picture is to be loaded when the widget is put into the
    /// tree: the one on screen.
    pub fn lifecycle(&mut self, event: &LifeCycle, data: &FolderGalleryState) -> (load: Option<String>)
        ensures
            path_view(load) == if *event == LifeCycle::WidgetAdded {
                data@.selected_path()
            } else {
                None
            },
    {
        match event {
            LifeCycle::WidgetAdded => data.selected_path(),
            LifeCycle::Other => None,
        }
    }
}

/// A thumbnail that comes in fills a place and empties none: the folder
/// keeps as many places, and every place that was filled stays filled.
pub proof fn law_thumbnails_only_fill(state: FolderGalleryStateView, event: ThumbnailEventView)
    ensures
        ({
            let after = state.after_thumbnail(event);
            &&& after.images.len() == state.images.len()
            &&& after.paths == state.paths
            &&& after.selected_image == state.selected_image
            &&& forall|i: int|
                0 <= i < state.images.len() && (#[trigger] state.images[i]) is Some ==> after.images[i] is Some
            &&& event.index() < state.images.len() ==> after.images[event.index() as int] is Some
        }),
{
}

} // verus!
