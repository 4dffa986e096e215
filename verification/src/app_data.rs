//! The state of the gallery as a whole: the folders it holds, the folder that
//! is open, and the stack of views.

use vstd::prelude::*;
use crate::folder::{ImageFolder, ImageFolderView};
use crate::known::KnownFolderSet;

verus! {

/// A view of the application.
#[derive(Clone, Copy, Debug, PartialEq, Eq, Hash, Structural)]
pub enum AppView {
    MainView,
    ImageView,
    FolderView,
}

/// What the state of the gallery is, over the views of its parts.
pub struct AppStateView {
    pub images: Set<Seq<char>>,
    pub current_image_idx: nat,
    pub views: Seq<AppView>,
    pub all_images: Seq<ImageFolderView>,
    pub uncovered: nat,
    pub selected_folder: Option<nat>,
}

/// The state of the gallery.
#[derive(Debug)]
pub struct AppState {
    /// The folders that the gallery knows, as of the last scan that ended.
    pub images: KnownFolderSet,
    pub current_image_idx: usize,
    /// The stack of views; the last is the one on screen.
    pub views: Vec<AppView>,
    /// The folders of the gallery, in the order in which they were found.
    pub all_images: Vec<ImageFolder>,
    /// How many folders, at the end of `all_images`, were found since covers
    /// were last asked for.
    pub uncovered: usize,
    /// The folder that is open, as its place in `all_images`.
    pub selected_folder: Option<usize>,
}

/// The views of a row of folders.
pub open spec fn folders_view(folders: Seq<ImageFolder>) -> Seq<ImageFolderView> {
    folders.map_values(|folder: ImageFolder| folder@)
}

/// A place in a row, as a number without bound.
pub open spec fn index_view(index: Option<usize>) -> Option<nat> {
    match index {
        Some(i) => Some(i as nat),
        None => None,
    }
}

impl View for AppState {
    type V = AppStateView;

    open spec fn view(&self) -> AppStateView {
        AppStateView {
            images: self.images@,
            current_image_idx: self.current_image_idx as nat,
            views: self.views@,
            all_images: folders_view(self.all_images@),
            uncovered: self.uncovered as nat,
            selected_folder: index_view(self.selected_folder),
        }
    }
}

impl AppStateView {
    /// The open folder, if there is one, is one of the gallery's.
    pub open spec fn selection_in_gallery(self) -> bool {
        self.selected_folder matches Some(i) ==> i < self.all_images.len()
    }

    /// The open folder is one of the gallery's, and the folders that wait for
    /// a cover are among them.
    pub open spec fn wf(self) -> bool {
        &&& self.selection_in_gallery()
        &&& self.uncovered <= self.all_images.len()
    }
}

impl AppState {
    /// The open folder is one of the gallery's, and the folders that wait for
    /// a cover are among them.
    pub open spec fn wf(&self) -> bool {
        self@.wf()
    }

    /// Whether the open folder, if there is one, is one of the gallery's.
    pub fn selection_is_in_gallery(&self) -> (ok: bool)
        ensures
            ok == self@.selection_in_gallery(),
    {
        match self.selected_folder {
            Some(i) => i < self.all_images.len(),
            None => true,
        }
    }

    /// Whether the open folder is one of the gallery's, and the folders that
    /// wait for a cover are among them.
    pub fn is_well_formed(&self) -> (ok: bool)
        ensures
            ok == self.wf(),
    {
        self.selection_is_in_gallery() && self.uncovered <= self.all_images.len()
    }

    /// The gallery as it starts: no folder, and the main view on screen.
    pub fn new() -> (state: AppState)
        ensures
            state@ == (AppStateView {
                images: Set::empty(),
                current_image_idx: 0,
                views: seq![AppView::MainView],
                all_images: Seq::empty(),
                uncovered: 0,
                selected_folder: None,
            }),
            state.wf(),
    {
        let mut views: Vec<AppView> = Vec::new();
        views.push(AppView::MainView);
        let state = AppState {
            images: KnownFolderSet::new(),
            current_image_idx: 0,
            views,
            all_images: Vec::new(),
            uncovered: 0,
            selected_folder: None,
        };
        assert(state.views@ =~= seq![AppView::MainView]);
        assert(folders_view(state.all_images@) =~= Seq::empty());
        state
    }

    /// Puts a view on top of the stack.
    pub fn add_view(&mut self, view: AppView)
        ensures
            final(self)@ == (AppStateView { views: old(self)@.views.push(view), ..old(self)@ }),
    {
        self.views.push(view);
    }

    /// Takes the top view off the stack, if there is one.
    pub fn pop_view(&mut self)
        ensures
            old(self)@.views.len() > 0 ==> final(self)@ == (AppStateView {
                views: old(self)@.views.drop_last(),
                ..old(self)@
            }),
            old(self)@.views.len() == 0 ==> final(self)@ == old(self)@,
    {
        self.views.pop();
    }

    /// The view on screen: the top of the stack.
    pub fn current_view(&self) -> (view: &AppView)
        requires
            self.views.len() > 0,
        ensures
            *view == self@.views.last(),
    {
        &self.views[self.views.len() - 1]
    }

    /// The height of the stack of views.
    pub fn len(&self) -> (n: usize)
        ensures
            n == self@.views.len(),
    {
        self.views.len()
    }

    /// Whether the stack of views is empty.
    pub fn is_empty(&self) -> (b: bool)
        ensures
            b == (self@.views.len() == 0),
    {
        self.views.len() == 0
    }

    /// The number of folders in the gallery.
    pub fn data_len(&self) -> (n: usize)
        ensures
            n == self@.all_images.len(),
    {
        self.all_images.len()
    }

    /// A folder to shape the grid by: the first of the gallery, or a folder
    /// without a name and without pictures while the gallery is empty. It goes
    /// with the place 0.
    pub fn child_data(&self) -> (child: (ImageFolder, usize))
        ensures
            child.1 == 0,
            child.0@ == if self@.all_images.len() > 0 {
                self@.all_images[0]
            } else {
                ImageFolderView::found(Seq::empty(), Seq::empty())
            },
    {
        if self.all_images.len() > 0 {
            (self.all_images[0].clone(), 0)
        } else {
            let folder = ImageFolder::new(String::new(), Vec::new());
            assert(crate::known::path_seq(Seq::<String>::empty()) =~= Seq::empty());
            (folder, 0)
        }
    }
}

} // verus!
