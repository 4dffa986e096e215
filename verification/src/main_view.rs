//! The main view: how the gallery's state follows the events of a scan and
//! the user's choices.

use vstd::prelude::*;
use crate::app_data::{folders_view, AppState, AppStateView, AppView};
use crate::events::{ScanEvent, ScanEventView};
use crate::folder::ImageFolderView;
use crate::known::{path_seq, KnownFolderSet};

verus! {

/// What can happen to the main view.
#[derive(Debug)]
pub enum AppEvent {
    /// A scan reported something.
    Scan(ScanEvent),
    /// The user chose the folder at this place in the gallery.
    SelectedFolder(usize),
    /// The user went back.
    PopView,
    /// The user picked a directory to add to the gallery.
    OpenFile(String),
}

/// What is to be done after an event of the main view.
#[derive(Debug)]
pub enum AppAction {
    /// Nothing.
    Nothing,
    /// Lay the view out and paint it again.
    Redraw,
    /// Scan the tree at `root` for folders that are not in `known`.
    BeginScan { root: String, known: KnownFolderSet },
    /// Make the covers of the folders that stand from `first_index` on in
    /// the gallery; `first_images` holds the path of the first picture of each.
    GenerateCovers { first_index: usize, first_images: Vec<String> },
}

/// What an action is, over the views of its parts.
pub enum AppActionView {
    Nothing,
    Redraw,
    BeginScan { root: Seq<char>, known: Set<Seq<char>> },
    GenerateCovers { first_index: nat, first_images: Seq<Seq<char>> },
}

impl View for AppAction {
    type V = AppActionView;

    open spec fn view(&self) -> AppActionView {
        match self {
            AppAction::Nothing => AppActionView::Nothing,
            AppAction::Redraw => AppActionView::Redraw,
            AppAction::BeginScan { root, known } => AppActionView::BeginScan { root: root@, known: known@ },
            AppAction::GenerateCovers { first_index, first_images } => AppActionView::GenerateCovers {
                first_index: *first_index as nat,
                first_images: path_seq(first_images@),
            },
        }
    }
}

/// The path of the first picture of each folder of a row; the empty path for
/// a folder without pictures.
pub open spec fn first_image_paths(folders: Seq<ImageFolderView>) -> Seq<Seq<char>> {
    folders.map_values(
        |folder: ImageFolderView|
            if folder.image_paths.len() > 0 {
                folder.image_paths[0]
            } else {
                Seq::<char>::empty()
            },
    )
}

impl AppStateView {
    /// The place in the gallery of the first folder that waits to be asked a
    /// cover for; the end of the gallery where none does.
    pub open spec fn first_uncovered(self) -> nat {
        if self.uncovered <= self.all_images.len() {
            (self.all_images.len() - self.uncovered) as nat
        } else {
            0
        }
    }

    /// The state after a scan reported something, and what is to be done then.
    pub open spec fn after_scan_event(self, event: ScanEventView) -> (AppStateView, AppActionView) {
        match event {
            ScanEventView::FolderDiscovered(folder) => if self.uncovered < usize::MAX {
                (
                    AppStateView {
                        all_images: self.all_images.push(folder),
                        uncovered: self.uncovered + 1,
                        ..self
                    },
                    AppActionView::Redraw,
                )
            } else {
                (self, AppActionView::Nothing)
            },
            ScanEventView::ScanComplete(known) => {
                let first = self.first_uncovered();
                (
                    AppStateView { images: known, uncovered: 0, ..self },
                    AppActionView::GenerateCovers {
                        first_index: first,
                        first_images: first_image_paths(
                            self.all_images.subrange(first as int, self.all_images.len() as int),
                        ),
                    },
                )
            },
            ScanEventView::CoverReady { folder_index, thumbnail } => if folder_index < self.all_images.len() {
                (
                    AppStateView {
                        all_images: self.all_images.update(
                            folder_index as int,
                            ImageFolderView {
                                cover_thumbnail: Some(thumbnail),
                                ..self.all_images[folder_index as int]
                            },
                        ),
                        ..self
                    },
                    AppActionView::Nothing,
                )
            } else {
                (self, AppActionView::Nothing)
            },
        }
    }

    /// The state after the user chose a folder: the folder is open and its
    /// view on screen. A place where no folder stands changes nothing.
    pub open spec fn after_selected_folder(self, selected: nat) -> AppStateView {
        if selected < self.all_images.len() {
            AppStateView {
                selected_folder: Some(selected),
                views: self.views.push(AppView::FolderView),
                ..self
            }
        } else {
            self
        }
    }

    /// The state after the user went back: the top view is off the stack.
    pub open spec fn after_pop_view(self) -> AppStateView {
        if self.views.len() > 0 {
            AppStateView { views: self.views.drop_last(), ..self }
        } else {
            self
        }
    }
}

/// The controller of the main view.
#[derive(Clone, Copy, Debug)]
pub struct MainViewController;

impl MainViewController {
    /// Takes one event of the main view: changes the state and says what is
    /// to be done.
    ///
    /// A folder that a scan found is put at the end of the gallery. When the
    /// scan ends, the known folders are taken over, and covers are asked for
    /// the folders found since covers were last asked for. A cover that is
    /// ready is given to its folder. A chosen folder is opened; going back
    /// closes the top view; a picked directory starts a scan with the known
    /// folders.
    pub fn event(&mut self, event: AppEvent, data: &mut AppState) -> (action: AppAction)
        ensures
            old(data).wf() ==> final(data).wf(),
            match event {
                AppEvent::Scan(scan_event) => (final(data)@, action@) == old(data)@.after_scan_event(scan_event@),
                AppEvent::SelectedFolder(selected) => final(data)@ == old(data)@.after_selected_folder(
                    selected as nat,
                ) && action@ == AppActionView::Nothing,
                AppEvent::PopView => final(data)@ == old(data)@.after_pop_view() && action@
                    == AppActionView::Nothing,
                AppEvent::OpenFile(root) => final(data)@ == old(data)@ && action@ == (
                AppActionView::BeginScan { root: root@, known: old(data)@.images }),
            },
    {
        match event {
            AppEvent::Scan(ScanEvent::FolderDiscovered(folder)) => {
                if data.uncovered == usize::MAX {
                    return AppAction::Nothing;
                }
                let ghost before = data.all_images@;
                data.all_images.push(folder);
                data.uncovered = data.uncovered + 1;
                assert(folders_view(data.all_images@) =~= folders_view(before).push(folder@));
                AppAction::Redraw
            },
            AppEvent::Scan(ScanEvent::ScanComplete(known)) => {
                let n: usize = data.all_images.len();
                let first: usize = if data.uncovered <= n {
                    n - data.uncovered
                } else {
                    0
                };
                let mut first_images: Vec<String> = Vec::new();
                let mut i: usize = first;
                while i < n
                    invariant
                        n == data.all_images.len(),
                        first <= i <= n,
                        first_images.len() == i - first,
                        forall|j: int|
                            0 <= j < i - first ==> (#[trigger] first_images[j])@ == first_image_paths(
                                folders_view(data.all_images@),
                            )[first + j],
                    decreases n - i,
                {
                    let folder = &data.all_images[i];
                    if folder.image_paths.len() > 0 {
                        first_images.push(folder.image_paths[0].clone());
                    } else {
                        first_images.push(String::new());
                    }
                    i += 1;
                }
                data.images = known;
                data.uncovered = 0;
                assert(path_seq(first_images@) =~= first_image_paths(
                    folders_view(data.all_images@).subrange(first as int, n as int),
                ));
                AppAction::GenerateCovers { first_index: first, first_images }
            },
            AppEvent::Scan(ScanEvent::CoverReady { folder_index, thumbnail }) => {
                if folder_index < data.all_images.len() {
                    let ghost before = data.all_images@;
                    let ghost cover = thumbnail@;
                    data.all_images[folder_index].cover_thumbnail = Some(thumbnail);
                    assert(folders_view(data.all_images@) =~= folders_view(before).update(
                        folder_index as int,
                        ImageFolderView {
                            cover_thumbnail: Some(cover),
                            ..folders_view(before)[folder_index as int]
                        },
                    ));
                }
                AppAction::Nothing
            },
            AppEvent::SelectedFolder(selected) => {
                if selected < data.all_images.len() {
                    data.selected_folder = Some(selected);
                    data.add_view(AppView::FolderView);
                }
                AppAction::Nothing
            },
            AppEvent::PopView => {
                data.pop_view();
                AppAction::Nothing
            },
            AppEvent::OpenFile(root) => AppAction::BeginScan { root, known: data.images.clone() },
        }
    }
}

/// Whatever a scan reports, the gallery keeps its folders: none is taken out
/// or moved, none loses its pictures or its thumbnails, and a folder that
/// has its cover keeps one.
pub proof fn law_scan_events_keep_folders(state: AppStateView, event: ScanEventView)
    requires
        state.wf(),
    ensures
        ({
            let after = state.after_scan_event(event).0;
            &&& after.wf()
            &&& after.all_images.len() >= state.all_images.len()
            &&& after.views == state.views
            &&& after.selected_folder == state.selected_folder
            &&& forall|i: int|
                0 <= i < state.all_images.len() ==> {
                    let old_folder = #[trigger] state.all_images[i];
                    let new_folder = after.all_images[i];
                    &&& new_folder.path == old_folder.path
                    &&& new_folder.image_paths == old_folder.image_paths
                    &&& new_folder.thumbnails == old_folder.thumbnails
                    &&& old_folder.cover_thumbnail is Some ==> new_folder.cover_thumbnail is Some
                }
        }),
{
}

/// After the end of a scan no folder waits to be asked a cover for, and the
/// covers asked for are those of the folders found since the last time.
pub proof fn law_scan_complete_asks_covers(state: AppStateView, known: Set<Seq<char>>)
    requires
        state.wf(),
    ensures
        ({
            let (after, action) = state.after_scan_event(ScanEventView::ScanComplete(known));
            &&& after.uncovered == 0
            &&& after.images == known
            &&& action matches AppActionView::GenerateCovers { first_index, first_images }
            &&& first_index + first_images.len() == state.all_images.len()
            &&& first_images.len() == state.uncovered
        }),
{
}

} // verus!
