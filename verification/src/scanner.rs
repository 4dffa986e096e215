//! Finding the folders of a directory tree that hold pictures.
//!
//! The caller walks the tree depth first, each directory before its
//! contents, and hands over every entry it comes by together with its depth
//! and the listing of its direct children. Which entries are kept, which are
//! passed over, what is reported and what is remembered is decided here.

use vstd::prelude::*;
use crate::events::{scan_events_view, ScanEvent, ScanEventView};
use crate::folder::{empty_slots, ImageFolder, ImageFolderView};
use crate::known::{path_seq, KnownFolderSet};
use crate::prober::{is_displayable_image, FileProbe};

verus! {

/// One entry that a walk of a directory tree comes by.
#[derive(Debug)]
pub struct WalkEntry {
    /// The entry's path.
    pub path: String,
    /// How deep the entry lies below the root of the walk; the root has depth 0.
    pub depth: usize,
    /// Whether the entry is a directory.
    pub is_dir: bool,
    /// The direct children of the directory, in the order of its listing;
    /// `None` where the entry could not be opened as a directory.
    pub children: Option<Vec<FileProbe>>,
}

/// The paths of the pictures among the entries of a listing, in its order.
pub open spec fn image_paths_of(children: Seq<FileProbe>) -> Seq<Seq<char>> {
    children.filter(|file: FileProbe| file.displayable()).map_values(|file: FileProbe| file.path@)
}

/// A depth as a number without bound.
pub open spec fn depth_view(depth: Option<usize>) -> Option<nat> {
    match depth {
        Some(d) => Some(d as nat),
        None => None,
    }
}

impl WalkEntry {
    /// Whether the walk goes down into the entry: a directory that could be
    /// opened and is not empty.
    pub open spec fn walkable(&self) -> bool {
        &&& self.is_dir
        &&& self.children matches Some(children)
        &&& children.len() > 0
    }

    /// Whether the entry lies below the entry at depth `pruned_at` that the
    /// walk did not go down into, and so is passed over.
    pub open spec fn passed_over(&self, pruned_at: Option<nat>) -> bool {
        pruned_at matches Some(depth) && self.depth > depth
    }

    /// The depth of the entry whose contents are passed over once this entry
    /// is taken, where `pruned_at` was that depth before: unchanged while the
    /// entry is itself passed over, none after a directory that the walk goes
    /// down into, and the depth of the entry otherwise.
    pub open spec fn prunes(&self, pruned_at: Option<nat>) -> Option<nat> {
        if self.passed_over(pruned_at) {
            pruned_at
        } else if self.walkable() {
            None
        } else {
            Some(self.depth as nat)
        }
    }

    /// The paths of the pictures directly in the directory, in the order of
    /// its listing; none where it could not be opened.
    pub open spec fn image_paths(&self) -> Seq<Seq<char>> {
        match self.children {
            Some(children) => image_paths_of(children@),
            None => Seq::empty(),
        }
    }

    /// Whether the walk goes down into the directory and it holds a picture.
    pub open spec fn has_images(&self) -> bool {
        self.walkable() && self.image_paths().len() > 0
    }

    /// Whether a scan reports the entry when it passes over what lies below
    /// `pruned_at` and knows the folders `known`.
    pub open spec fn reported(&self, pruned_at: Option<nat>, known: Set<Seq<char>>) -> bool {
        &&& !self.passed_over(pruned_at)
        &&& self.has_images()
        &&& !known.contains(self.path@)
    }

    /// The folder that is reported for the entry.
    pub open spec fn folder(&self) -> ImageFolderView {
        ImageFolderView::found(self.path@, self.image_paths())
    }

    /// Whether the directory holds nothing but directories, or nothing at all.
    pub open spec fn holds_no_file(&self) -> bool {
        self.children matches Some(children) ==> forall|j: int|
            0 <= j < children.len() ==> !(#[trigger] children[j]).is_file
    }
}

/// The depth of the entry whose contents the walk passes over at the end of
/// `walk`, if it is passing over any.
pub open spec fn pruned_after(walk: Seq<WalkEntry>) -> Option<nat>
    decreases walk.len(),
{
    if walk.len() == 0 {
        None
    } else {
        walk.last().prunes(pruned_after(walk.drop_last()))
    }
}

/// Whether the walk goes down into the entry at `i`: it is a directory that
/// could be opened and is not empty, and it does not lie below an entry that
/// the walk did not go down into.
pub open spec fn visited(walk: Seq<WalkEntry>, i: int) -> bool
    recommends
        0 <= i < walk.len(),
{
    walk[i].walkable() && !walk[i].passed_over(pruned_after(walk.take(i)))
}

/// The folders known after a scan of `walk` that started with `known`:
/// `known` and the path of each entry that was reported.
pub open spec fn known_after(walk: Seq<WalkEntry>, known: Set<Seq<char>>) -> Set<Seq<char>>
    decreases walk.len(),
{
    if walk.len() == 0 {
        known
    } else {
        let before = known_after(walk.drop_last(), known);
        if walk.last().reported(pruned_after(walk.drop_last()), before) {
            before.insert(walk.last().path@)
        } else {
            before
        }
    }
}

/// The folders that a scan of `walk` reports, in the order of the walk, when
/// it starts with `known`: each directory that the walk goes down into, that
/// holds a picture and that is not known by the time the walk reaches it.
pub open spec fn discovered(walk: Seq<WalkEntry>, known: Set<Seq<char>>) -> Seq<ImageFolderView>
    decreases walk.len(),
{
    if walk.len() == 0 {
        Seq::empty()
    } else {
        let before = discovered(walk.drop_last(), known);
        if walk.last().reported(pruned_after(walk.drop_last()), known_after(walk.drop_last(), known)) {
            before.push(walk.last().folder())
        } else {
            before
        }
    }
}

/// The events of a scan: each folder as it is found, then the end of the walk
/// with the folders known by then.
pub open spec fn scan_events(walk: Seq<WalkEntry>, known: Set<Seq<char>>) -> Seq<ScanEventView> {
    found_events(discovered(walk, known)).push(ScanEventView::ScanComplete(known_after(walk, known)))
}

/// One `FolderDiscovered` for each folder of a row, in its order.
pub open spec fn found_events(folders: Seq<ImageFolderView>) -> Seq<ScanEventView> {
    folders.map_values(|folder: ImageFolderView| ScanEventView::FolderDiscovered(folder))
}

proof fn lemma_image_paths_push(children: Seq<FileProbe>, file: FileProbe)
    ensures
        image_paths_of(children.push(file)) == if file.displayable() {
            image_paths_of(children).push(file.path@)
        } else {
            image_paths_of(children)
        },
{
    let shown = |file: FileProbe| file.displayable();
    children.lemma_filter_push(file, shown);
    if file.displayable() {
        assert(children.filter(shown).push(file).map_values(|file: FileProbe| file.path@)
            =~= children.filter(shown).map_values(|file: FileProbe| file.path@).push(file.path@));
    }
}

/// Whether the walk goes down into an entry: only into a directory that can
/// be opened and is not empty.
pub fn keeps_entry(entry: &WalkEntry) -> (kept: bool)
    ensures
        kept == entry.walkable(),
{
    if !entry.is_dir {
        return false;
    }
    match &entry.children {
        Some(children) => children.len() > 0,
        None => false,
    }
}

/// Picks the pictures among the direct children of a directory: their paths,
/// in the order of the listing. A directory that could not be opened holds none.
pub fn check_folder_has_images(entry: &WalkEntry) -> (paths: Vec<String>)
    ensures
        path_seq(paths@) == entry.image_paths(),
{
    let mut paths: Vec<String> = Vec::new();
    match &entry.children {
        None => {
            assert(path_seq(paths@) =~= entry.image_paths());
        },
        Some(children) => {
            let n: usize = children.len();
            let mut i: usize = 0;
            proof {
                reveal(Seq::filter);
                assert(children@.subrange(0, 0) =~= Seq::<FileProbe>::empty());
                assert(path_seq(paths@) =~= image_paths_of(children@.subrange(0, 0)));
            }
            while i < n
                invariant
                    n == children.len(),
                    i <= n,
                    path_seq(paths@) == image_paths_of(children@.subrange(0, i as int)),
                decreases n - i,
            {
                let ghost before = paths@;
                proof {
                    lemma_image_paths_push(children@.subrange(0, i as int), children[i as int]);
                    assert(children@.subrange(0, i as int).push(children[i as int])
                        =~= children@.subrange(0, i + 1));
                }
                if is_displayable_image(&children[i]) {
                    paths.push(children[i].path.clone());
                    assert(path_seq(paths@) =~= path_seq(before).push(
                        children[i as int].path@,
                    ));
                }
                i += 1;
            }
            assert(children@.subrange(0, n as int) =~= children@);
        },
    }
    paths
}

/// A scan under way: the folders known so far, and the depth of the entry
/// whose contents are being passed over, if any.
#[derive(Debug)]
pub struct FolderScanner {
    known: KnownFolderSet,
    pruned_at: Option<usize>,
}

impl FolderScanner {
    /// The folders known so far.
    pub closed spec fn known(&self) -> Set<Seq<char>> {
        self.known@
    }

    /// The depth of the entry whose contents are being passed over, if any.
    pub closed spec fn pruned_at(&self) -> Option<nat> {
        depth_view(self.pruned_at)
    }

    /// Starts a scan that knows the folders `known`.
    pub fn new(known: KnownFolderSet) -> (scanner: FolderScanner)
        ensures
            scanner.known() == known@,
            scanner.pruned_at() == None::<nat>,
    {
        FolderScanner { known, pruned_at: None }
    }

    /// Takes the next entry of the walk. An entry below one that the walk
    /// did not go down into is passed over. An entry that is no directory,
    /// cannot be opened or is empty is not gone down into. Any other is a
    /// directory that is visited: where it holds a picture and is not known
    /// yet, its folder is reported and remembered as known.
    pub fn visit(&mut self, entry: &WalkEntry) -> (found: Option<ImageFolder>)
        ensures
            final(self).pruned_at() == entry.prunes(old(self).pruned_at()),
            entry.reported(old(self).pruned_at(), old(self).known()) ==> {
                &&& found matches Some(folder)
                &&& folder@ == entry.folder()
                &&& final(self).known() == old(self).known().insert(entry.path@)
            },
            !entry.reported(old(self).pruned_at(), old(self).known()) ==> found is None && final(self).known()
                == old(self).known(),
    {
        match self.pruned_at {
            Some(depth) => {
                if entry.depth > depth {
                    return None;
                }
            },
            None => {},
        }
        if !keeps_entry(entry) {
            self.pruned_at = Some(entry.depth);
            return None;
        }
        self.pruned_at = None;
        if self.known.contains(&entry.path) {
            return None;
        }
        let paths = check_folder_has_images(entry);
        if paths.len() == 0 {
            return None;
        }
        self.known.insert(entry.path.clone());
        Some(ImageFolder::new(entry.path.clone(), paths))
    }

    /// Ends the scan and hands out the folders known now.
    pub fn finish(self) -> (known: KnownFolderSet)
        ensures
            known@ == self.known(),
    {
        self.known
    }
}

/// Scans a walk of a directory tree. Each directory that the walk goes down
/// into, that holds a picture and that is not known yet is reported as it is
/// reached and remembered; the last event tells the folders known at the end.
pub fn flatten_and_add_paths(walk: &Vec<WalkEntry>, current_folders: KnownFolderSet) -> (events: Vec<
    ScanEvent,
>)
    ensures
        scan_events_view(events@) == scan_events(walk@, current_folders@),
{
    let ghost start = current_folders@;
    let mut scanner = FolderScanner::new(current_folders);
    let mut events: Vec<ScanEvent> = Vec::new();
    let n: usize = walk.len();
    let mut i: usize = 0;
    proof {
        assert(walk@.subrange(0, 0) =~= Seq::<WalkEntry>::empty());
        assert(scan_events_view(events@) =~= found_events(discovered(walk@.subrange(0, 0), start)));
    }
    while i < n
        invariant
            n == walk.len(),
            i <= n,
            scan_events_view(events@) == found_events(discovered(walk@.subrange(0, i as int), start)),
            scanner.known() == known_after(walk@.subrange(0, i as int), start),
            scanner.pruned_at() == pruned_after(walk@.subrange(0, i as int)),
        decreases n - i,
    {
        let ghost before = events@;
        let ghost found = discovered(walk@.subrange(0, i as int), start);
        proof {
            assert(walk@.subrange(0, i + 1).drop_last() =~= walk@.subrange(0, i as int));
            assert(walk@.subrange(0, i + 1).last() == walk[i as int]);
        }
        match scanner.visit(&walk[i]) {
            Some(folder) => {
                events.push(ScanEvent::FolderDiscovered(folder));
                assert(scan_events_view(events@) =~= scan_events_view(before).push(
                    ScanEventView::FolderDiscovered(folder@),
                ));
                assert(found_events(found.push(folder@)) =~= found_events(found).push(
                    ScanEventView::FolderDiscovered(folder@),
                ));
            },
            None => {},
        }
        i += 1;
    }
    let ghost before = events@;
    let known = scanner.finish();
    events.push(ScanEvent::ScanComplete(known));
    proof {
        assert(walk@.subrange(0, n as int) =~= walk@);
        assert(scan_events_view(events@) =~= scan_events_view(before).push(
            ScanEventView::ScanComplete(known@),
        ));
    }
    events
}

/// A scan forgets nothing: every folder known before is known after.
pub proof fn lemma_known_grows(walk: Seq<WalkEntry>, known: Set<Seq<char>>)
    ensures
        known.subset_of(known_after(walk, known)),
    decreases walk.len(),
{
    if walk.len() > 0 {
        lemma_known_grows(walk.drop_last(), known);
    }
}

/// After a scan, every directory that the walk went down into and that holds
/// a picture is known.
pub proof fn lemma_folders_become_known(walk: Seq<WalkEntry>, known: Set<Seq<char>>, i: int)
    requires
        0 <= i < walk.len(),
        visited(walk, i),
        walk[i].has_images(),
    ensures
        known_after(walk, known).contains(walk[i].path@),
    decreases walk.len(),
{
    let rest = walk.drop_last();
    if i < walk.len() - 1 {
        assert(rest.take(i) =~= walk.take(i));
        lemma_folders_become_known(rest, known, i);
    } else {
        assert(walk.take(i) =~= rest);
    }
}

/// A scan in which every directory that the walk goes down into and that
/// holds a picture is known already reports nothing and learns nothing.
pub proof fn lemma_all_known_reports_nothing(walk: Seq<WalkEntry>, known: Set<Seq<char>>)
    requires
        forall|i: int|
            0 <= i < walk.len() && visited(walk, i) && (#[trigger] walk[i]).has_images() ==> known.contains(
                walk[i].path@,
            ),
    ensures
        discovered(walk, known) == Seq::<ImageFolderView>::empty(),
        known_after(walk, known) == known,
    decreases walk.len(),
{
    if walk.len() > 0 {
        let rest = walk.drop_last();
        let last = walk.len() - 1;
        assert forall|i: int| 0 <= i < rest.len() && visited(rest, i) && (#[trigger] rest[i]).has_images() implies
            known.contains(rest[i].path@) by {
            assert(rest.take(i) =~= walk.take(i));
            assert(rest[i] == walk[i]);
        }
        lemma_all_known_reports_nothing(rest, known);
        assert(walk.take(last) =~= rest);
        assert(walk.last() == walk[last]);
    }
}

/// Scanning the same tree again, with the folders known after the first
/// scan, reports no folder and leaves the known folders as they are.
pub proof fn law_rescan_reports_nothing(walk: Seq<WalkEntry>, known: Set<Seq<char>>)
    ensures
        discovered(walk, known_after(walk, known)) == Seq::<ImageFolderView>::empty(),
        known_after(walk, known_after(walk, known)) == known_after(walk, known),
        scan_events(walk, known_after(walk, known)) == seq![
            ScanEventView::ScanComplete(known_after(walk, known)),
        ],
{
    let after = known_after(walk, known);
    assert forall|i: int| 0 <= i < walk.len() && visited(walk, i) && (#[trigger] walk[i]).has_images() implies
        after.contains(walk[i].path@) by {
        lemma_folders_become_known(walk, known, i);
    }
    lemma_all_known_reports_nothing(walk, after);
    assert(found_events(Seq::<ImageFolderView>::empty()).push(ScanEventView::ScanComplete(after)) =~= seq![
        ScanEventView::ScanComplete(after),
    ]);
}

/// A scan of a tree without a single picture reports no folder, whatever
/// was known, and learns nothing.
pub proof fn law_no_pictures_no_folders(walk: Seq<WalkEntry>, known: Set<Seq<char>>)
    requires
        forall|i: int| 0 <= i < walk.len() ==> (#[trigger] walk[i]).image_paths().len() == 0,
    ensures
        discovered(walk, known) == Seq::<ImageFolderView>::empty(),
        known_after(walk, known) == known,
        scan_events(walk, known) == seq![ScanEventView::ScanComplete(known)],
{
    lemma_all_known_reports_nothing(walk, known);
    assert(found_events(Seq::<ImageFolderView>::empty()).push(ScanEventView::ScanComplete(known)) =~= seq![
        ScanEventView::ScanComplete(known),
    ]);
}

/// A scan of a tree that is made of directories alone, down to the empty
/// ones, reports no folder.
pub proof fn law_only_directories_no_folders(walk: Seq<WalkEntry>, known: Set<Seq<char>>)
    requires
        forall|i: int| 0 <= i < walk.len() ==> (#[trigger] walk[i]).holds_no_file(),
    ensures
        discovered(walk, known) == Seq::<ImageFolderView>::empty(),
        known_after(walk, known) == known,
        scan_events(walk, known) == seq![ScanEventView::ScanComplete(known)],
{
    assert forall|i: int| 0 <= i < walk.len() implies (#[trigger] walk[i]).image_paths().len() == 0 by {
        assert(walk[i].holds_no_file());
        match walk[i].children {
            Some(children) => {
                let shown = |file: FileProbe| file.displayable();
                assert forall|j: int| 0 <= j < children@.len() implies !shown(#[trigger] children@[j]) by {
                    assert(!children[j].is_file);
                }
                children@.lemma_all_neg_filter_empty(shown);
            },
            None => {},
        }
    }
    law_no_pictures_no_folders(walk, known);
}

/// While the walk is below an entry that it did not go down into, that
/// entry's depth stays the depth below which entries are passed over.
pub proof fn lemma_pruning_lasts(walk: Seq<WalkEntry>, i: int, k: int)
    requires
        0 <= i < k <= walk.len(),
        !walk[i].walkable(),
        !walk[i].passed_over(pruned_after(walk.take(i))),
        forall|m: int| i < m < k ==> (#[trigger] walk[m]).depth > walk[i].depth,
    ensures
        pruned_after(walk.take(k)) == Some(walk[i].depth as nat),
    decreases k - i,
{
    assert(walk.take(k).drop_last() =~= walk.take(k - 1));
    assert(walk.take(k).last() == walk[k - 1]);
    if k > i + 1 {
        lemma_pruning_lasts(walk, i, k - 1);
    }
}

/// Nothing below an entry that the walk does not go down into is visited:
/// where the walk reaches an entry that is no directory, cannot be opened or
/// is empty, no entry that follows it at a greater depth, before the walk
/// comes back up, is visited or reported.
pub proof fn law_pruned_subtree_is_passed_over(walk: Seq<WalkEntry>, known: Set<Seq<char>>, i: int, j: int)
    requires
        0 <= i < j < walk.len(),
        !walk[i].walkable(),
        !walk[i].passed_over(pruned_after(walk.take(i))),
        forall|m: int| i < m <= j ==> (#[trigger] walk[m]).depth > walk[i].depth,
    ensures
        !visited(walk, j),
        !walk[j].reported(pruned_after(walk.take(j)), known_after(walk.take(j), known)),
        discovered(walk.take(j + 1), known) == discovered(walk.take(j), known),
{
    lemma_pruning_lasts(walk, i, j);
    assert(walk.take(j + 1).drop_last() =~= walk.take(j));
    assert(walk.take(j + 1).last() == walk[j]);
}

/// Every folder that a scan reports is known afterwards.
pub proof fn lemma_reported_are_known(walk: Seq<WalkEntry>, known: Set<Seq<char>>, j: int)
    requires
        0 <= j < discovered(walk, known).len(),
    ensures
        known_after(walk, known).contains(discovered(walk, known)[j].path),
    decreases walk.len(),
{
    if walk.len() > 0 {
        let rest = walk.drop_last();
        if j < discovered(rest, known).len() {
            lemma_reported_are_known(rest, known, j);
        }
    }
}

/// The folders known after a scan are those known before and the
/// directories with a picture that the walk went down into, and no others.
pub proof fn law_known_are_the_visited(walk: Seq<WalkEntry>, known: Set<Seq<char>>, path: Seq<char>)
    ensures
        known_after(walk, known).contains(path) <==> known.contains(path) || exists|i: int|
            0 <= i < walk.len() && visited(walk, i) && (#[trigger] walk[i]).has_images() && walk[i].path@ == path,
    decreases walk.len(),
{
    if walk.len() > 0 {
        let rest = walk.drop_last();
        let last = walk.len() - 1;
        law_known_are_the_visited(rest, known, path);
        assert(walk.take(last) =~= rest);
        if exists|i: int|
            0 <= i < rest.len() && visited(rest, i) && (#[trigger] rest[i]).has_images() && rest[i].path@ == path {
            let i = choose|i: int|
                0 <= i < rest.len() && visited(rest, i) && (#[trigger] rest[i]).has_images() && rest[i].path@
                    == path;
            assert(rest.take(i) =~= walk.take(i));
            assert(walk[i] == rest[i]);
        }
        if exists|i: int|
            0 <= i < walk.len() && visited(walk, i) && (#[trigger] walk[i]).has_images() && walk[i].path@ == path {
            let i = choose|i: int|
                0 <= i < walk.len() && visited(walk, i) && (#[trigger] walk[i]).has_images() && walk[i].path@
                    == path;
            if i < last {
                assert(rest.take(i) =~= walk.take(i));
                assert(walk[i] == rest[i]);
            }
        }
        if walk.last().reported(pruned_after(rest), known_after(rest, known)) && walk.last().path@ == path {
            assert(visited(walk, last) && walk[last].has_images());
        }
    }
}

/// A scan reports a directory exactly when the walk goes down into it, it
/// holds a picture, it was not known before the scan, and the walk has not
/// gone down into a directory with a picture under the same path before.
pub proof fn law_reported_on_first_visit(walk: Seq<WalkEntry>, known: Set<Seq<char>>, i: int)
    requires
        0 <= i < walk.len(),
    ensures
        walk[i].reported(pruned_after(walk.take(i)), known_after(walk.take(i), known)) <==> {
            &&& visited(walk, i)
            &&& walk[i].has_images()
            &&& !known.contains(walk[i].path@)
            &&& forall|j: int|
                0 <= j < i && visited(walk, j) && (#[trigger] walk[j]).has_images() ==> walk[j].path@
                    != walk[i].path@
        },
{
    let before = walk.take(i);
    let path = walk[i].path@;
    law_known_are_the_visited(before, known, path);
    if exists|j: int|
        0 <= j < before.len() && visited(before, j) && (#[trigger] before[j]).has_images() && before[j].path@
            == path {
        let j = choose|j: int|
            0 <= j < before.len() && visited(before, j) && (#[trigger] before[j]).has_images()
                && before[j].path@ == path;
        assert(before.take(j) =~= walk.take(j));
        assert(walk[j] == before[j]);
    }
    if exists|j: int| 0 <= j < i && visited(walk, j) && (#[trigger] walk[j]).has_images() && walk[j].path@ == path {
        let j = choose|j: int|
            0 <= j < i && visited(walk, j) && (#[trigger] walk[j]).has_images() && walk[j].path@ == path;
        assert(before.take(j) =~= walk.take(j));
        assert(walk[j] == before[j]);
    }
}

/// The folders known after a scan are those known before and those that
/// the scan reported, and no others.
pub proof fn law_known_after_scan(walk: Seq<WalkEntry>, known: Set<Seq<char>>, path: Seq<char>)
    ensures
        known_after(walk, known).contains(path) <==> known.contains(path) || exists|j: int|
            0 <= j < discovered(walk, known).len() && (#[trigger] discovered(walk, known)[j]).path == path,
    decreases walk.len(),
{
    if walk.len() > 0 {
        let rest = walk.drop_last();
        law_known_after_scan(rest, known, path);
        let before = discovered(rest, known);
        let all = discovered(walk, known);
        if exists|j: int| 0 <= j < before.len() && (#[trigger] before[j]).path == path {
            let j = choose|j: int| 0 <= j < before.len() && (#[trigger] before[j]).path == path;
            assert(all[j] == before[j]);
        }
        if exists|j: int| 0 <= j < all.len() && (#[trigger] all[j]).path == path {
            let j = choose|j: int| 0 <= j < all.len() && (#[trigger] all[j]).path == path;
            if j < before.len() {
                assert(all[j] == before[j]);
            }
        }
        if walk.last().reported(pruned_after(rest), known_after(rest, known)) && walk.last().path@ == path {
            assert(all[all.len() - 1].path == path);
        }
    }
}

/// The events of a scan come in order: one `FolderDiscovered` for each folder
/// found, in the order of the walk, and `ScanComplete` once, as the last.
pub proof fn law_scan_complete_comes_last(walk: Seq<WalkEntry>, known: Set<Seq<char>>)
    ensures
        scan_events(walk, known).len() == discovered(walk, known).len() + 1,
        scan_events(walk, known).last() == ScanEventView::ScanComplete(known_after(walk, known)),
        forall|j: int|
            0 <= j < discovered(walk, known).len() ==> #[trigger] scan_events(walk, known)[j]
                == ScanEventView::FolderDiscovered(discovered(walk, known)[j]),
{
}

/// What a scan reports: each folder holds a picture and has an empty place
/// for each of its pictures, none was known before, and none is reported twice.
pub proof fn law_reported_folders(walk: Seq<WalkEntry>, known: Set<Seq<char>>)
    ensures
        forall|j: int|
            0 <= j < discovered(walk, known).len() ==> {
                let folder = #[trigger] discovered(walk, known)[j];
                &&& folder.wf()
                &&& folder.cover_thumbnail is None
                &&& folder.thumbnails == empty_slots(folder.image_paths.len())
                &&& !known.contains(folder.path)
            },
        forall|j: int, k: int|
            0 <= j < k < discovered(walk, known).len() ==> (#[trigger] discovered(walk, known)[j]).path != (
            #[trigger] discovered(walk, known)[k]).path,
    decreases walk.len(),
{
    if walk.len() > 0 {
        let rest = walk.drop_last();
        law_reported_folders(rest, known);
        lemma_known_grows(rest, known);
        let before = discovered(rest, known);
        let all = discovered(walk, known);
        assert forall|j: int, k: int| 0 <= j < k < all.len() implies (#[trigger] all[j]).path != (
        #[trigger] all[k]).path by {
            if k < before.len() {
                assert(all[j] == before[j]);
                assert(all[k] == before[k]);
            } else {
                assert(all[j] == before[j]);
                lemma_reported_are_known(rest, known, j);
            }
        }
        assert forall|j: int| 0 <= j < all.len() implies {
            let folder = #[trigger] all[j];
            &&& folder.wf()
            &&& folder.cover_thumbnail is None
            &&& folder.thumbnails == empty_slots(folder.image_paths.len())
            &&& !known.contains(folder.path)
        } by {
            if j < before.len() {
                assert(all[j] == before[j]);
            }
        }
    }
}

} // verus!
