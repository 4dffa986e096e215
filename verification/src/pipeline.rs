//! The three things the gallery asks for: a scan of a directory tree, the
//! covers of the folders found, and the thumbnails of an opened folder.

use vstd::prelude::*;
use crate::codec::{
    create_thumbnail, create_thumbnail_spec, decode_and_scale, read_image, scaled_from, DecodeError,
};
use crate::events::{scan_events_view, thumbnail_events_view, thumbnails_view, ScanEvent, ScanEventView, ThumbnailEvent, ThumbnailEventView};
use crate::known::KnownFolderSet;
use crate::raster::{Raster, RasterView, Thumbnail, ThumbnailView, MAX_THUMB_HEIGHT};
use crate::scanner::{flatten_and_add_paths, scan_events, WalkEntry};

verus! {

/// Why a scan did not start.
#[derive(Clone, Copy, Debug, PartialEq, Eq, Structural)]
pub enum ScanError {
    /// The root path is empty.
    EmptyRootPath,
    /// There is nothing at the root path.
    RootNotFound,
}

/// Whether a walk is one of the tree at `root`: it starts with the root itself.
pub open spec fn starts_at(walk: Seq<WalkEntry>, root: Seq<char>) -> bool {
    walk.len() > 0 && walk[0].path@ == root
}

/// Whether a scan of the tree at `root` can start, and why not.
pub open spec fn check_root_spec(root: Seq<char>, found: bool) -> Result<(), ScanError> {
    if root.len() == 0 {
        Err(ScanError::EmptyRootPath)
    } else if !found {
        Err(ScanError::RootNotFound)
    } else {
        Ok(())
    }
}

/// What a scan of the tree at `root` gives.
pub open spec fn begin_scan_spec(root: Seq<char>, walk: Seq<WalkEntry>, known: Set<Seq<char>>) -> Result<
    Seq<ScanEventView>,
    ScanError,
> {
    match check_root_spec(root, starts_at(walk, root)) {
        Ok(_) => Ok(scan_events(walk, known)),
        Err(error) => Err(error),
    }
}

/// Decides whether a scan of the tree at `root` can start: not with an empty
/// path, and not where nothing was found at the path.
pub fn check_root(root: &String, found: bool) -> (res: Result<(), ScanError>)
    ensures
        res == check_root_spec(root@, found),
{
    if root.as_str().is_empty() {
        Err(ScanError::EmptyRootPath)
    } else if !found {
        Err(ScanError::RootNotFound)
    } else {
        Ok(())
    }
}

/// Scans the tree at `root` for folders that are not in `known`.
///
/// `walk` holds what a walk of the tree reached, the root first; it is empty
/// where there is nothing at `root`. An empty root path and a root that is
/// not there are errors. Otherwise each new folder is reported in the order
/// of the walk, and `ScanComplete` comes last.
pub fn begin_scan(root: &String, walk: &Vec<WalkEntry>, known: KnownFolderSet) -> (res: Result<
    Vec<ScanEvent>,
    ScanError,
>)
    ensures
        match begin_scan_spec(root@, walk@, known@) {
            Ok(expected) => res matches Ok(events) && scan_events_view(events@) == expected,
            Err(error) => res == Err::<Vec<ScanEvent>, ScanError>(error),
        },
{
    let found = walk.len() > 0 && walk[0].path == *root;
    match check_root(root, found) {
        Ok(_) => Ok(flatten_and_add_paths(walk, known)),
        Err(error) => Err(error),
    }
}

/// The view of what decoding a file gave: the picture, or none.
pub open spec fn decoded_view(decoded: Option<Raster>) -> Option<RasterView> {
    match decoded {
        Some(picture) => Some(picture@),
        None => None,
    }
}

/// The views of what decoding a row of files gave.
pub open spec fn decoded_seq_view(decoded: Seq<Option<Raster>>) -> Seq<Option<RasterView>> {
    decoded.map_values(|picture: Option<Raster>| decoded_view(picture))
}

/// Whether `decoded` can be what decoding gives for what was read of a
/// file: no picture where the file could not be read, and never a picture
/// whose bytes do not match its size. Whether a file that was read decodes,
/// and to what, is the decoder's matter.
pub open spec fn may_decode_to(contents: Option<Vec<u8>>, decoded: Option<RasterView>) -> bool {
    &&& contents is None ==> decoded is None
    &&& decoded matches Some(picture) ==> picture.wf()
}

/// Whether `decoded` can be what decoding gives for a row of files, one for one.
pub open spec fn may_decode_all(files: Seq<Option<Vec<u8>>>, decoded: Seq<Option<RasterView>>) -> bool {
    &&& decoded.len() == files.len()
    &&& forall|i: int| 0 <= i < files.len() ==> may_decode_to(#[trigger] files[i], decoded[i])
}

/// Whether what decoding a file gave gives a thumbnail: there is a picture,
/// and it can be scaled down.
pub open spec fn gives_thumbnail(decoded: Option<RasterView>) -> bool {
    decoded matches Some(picture) && create_thumbnail_spec(0, picture, MAX_THUMB_HEIGHT) is Ok
}

/// The thumbnail of a picture that gives one, stamped with `index`.
pub open spec fn thumbnail_at(decoded: Option<RasterView>, index: nat) -> ThumbnailView {
    create_thumbnail_spec(index, decoded->Some_0, MAX_THUMB_HEIGHT)->Ok_0
}

/// The thumbnails of the pictures of a folder, from what decoding each
/// gave: one for each that gives one, stamped with the place of the
/// picture, in the order of the pictures.
pub open spec fn thumbnails_of(decoded: Seq<Option<RasterView>>) -> Seq<ThumbnailView>
    decreases decoded.len(),
{
    if decoded.len() == 0 {
        Seq::empty()
    } else {
        let before = thumbnails_of(decoded.drop_last());
        if gives_thumbnail(decoded.last()) {
            before.push(thumbnail_at(decoded.last(), (decoded.len() - 1) as nat))
        } else {
            before
        }
    }
}

/// One `ThumbnailReady` for each thumbnail of a row, with the thumbnail's
/// own index, in the order of the row.
pub open spec fn ready_events(thumbnails: Seq<ThumbnailView>) -> Seq<ThumbnailEventView> {
    thumbnails.map_values(
        |thumbnail: ThumbnailView| ThumbnailEventView::ThumbnailReady { index: thumbnail.index, thumbnail },
    )
}

/// The event for the picture at `index` in its folder, from what decoding
/// it gave; none where that gives no thumbnail.
pub open spec fn thumbnail_event_for(decoded: Option<RasterView>, index: nat) -> Option<ThumbnailEventView> {
    if gives_thumbnail(decoded) {
        Some(ThumbnailEventView::ThumbnailReady { index, thumbnail: thumbnail_at(decoded, index) })
    } else {
        None
    }
}

/// The event for the cover of the folder at `folder_index` in the gallery,
/// from what decoding its first picture gave; none where that gives no
/// thumbnail. The cover is stamped with the index 0.
pub open spec fn cover_event_for(decoded: Option<RasterView>, folder_index: nat) -> Option<ScanEventView> {
    if gives_thumbnail(decoded) {
        Some(ScanEventView::CoverReady { folder_index, thumbnail: thumbnail_at(decoded, 0) })
    } else {
        None
    }
}

/// The covers of a row of folders, of which the first stands at
/// `first_index` in the gallery, from what decoding the first picture of
/// each gave: one `CoverReady` for each that gives a thumbnail, in the order
/// of the folders.
pub open spec fn cover_events(first_index: nat, decoded: Seq<Option<RasterView>>) -> Seq<ScanEventView>
    decreases decoded.len(),
{
    if decoded.len() == 0 {
        Seq::empty()
    } else {
        let before = cover_events(first_index, decoded.drop_last());
        if gives_thumbnail(decoded.last()) {
            before.push(
                ScanEventView::CoverReady {
                    folder_index: (first_index + decoded.len() - 1) as nat,
                    thumbnail: thumbnail_at(decoded.last(), 0),
                },
            )
        } else {
            before
        }
    }
}

/// Whether a picture gives a thumbnail does not depend on the index it is
/// stamped with.
pub proof fn lemma_thumbnail_at_any_index(decoded: Option<RasterView>, index: nat)
    ensures
        gives_thumbnail(decoded) == (decoded matches Some(picture) && create_thumbnail_spec(
            index,
            picture,
            MAX_THUMB_HEIGHT,
        ) is Ok),
        gives_thumbnail(decoded) ==> thumbnail_at(decoded, index).index == index,
{
}

/// The view of an event that may not have come.
pub open spec fn scan_event_view(event: Option<ScanEvent>) -> Option<ScanEventView> {
    match event {
        Some(event) => Some(event@),
        None => None,
    }
}

/// The view of an event that may not have come.
pub open spec fn thumbnail_event_view(event: Option<ThumbnailEvent>) -> Option<ThumbnailEventView> {
    match event {
        Some(event) => Some(event@),
        None => None,
    }
}

/// Decodes what was read of a file: the picture, or none where the file
/// could not be read or its bytes do not decode.
fn decoded_picture(contents: &Option<Vec<u8>>) -> (decoded: Option<Raster>)
    ensures
        may_decode_to(*contents, decoded_view(decoded)),
{
    match read_image(contents) {
        Ok(picture) => Some(picture),
        Err(_) => None,
    }
}

/// Makes the event for the picture at `index` in its folder from what
/// decoding the picture gave. A picture that was not decoded, or that
/// cannot be scaled down, gives no event.
pub fn thumbnail_event_from(decoded: &Option<Raster>, index: usize) -> (event: Option<ThumbnailEvent>)
    ensures
        thumbnail_event_view(event) == thumbnail_event_for(decoded_view(*decoded), index as nat),
{
    proof {
        lemma_thumbnail_at_any_index(decoded_view(*decoded), index as nat);
    }
    match decoded {
        Some(picture) => match create_thumbnail(index, picture, MAX_THUMB_HEIGHT) {
            Ok(thumbnail) => Some(ThumbnailEvent::ThumbnailReady { index, thumbnail }),
            Err(_) => None,
        },
        None => None,
    }
}

/// Makes the event for the cover of the folder at `folder_index` in the
/// gallery from what decoding its first picture gave. A picture that was
/// not decoded, or that cannot be scaled down, gives no event.
pub fn cover_event_from(decoded: &Option<Raster>, folder_index: usize) -> (event: Option<ScanEvent>)
    ensures
        scan_event_view(event) == cover_event_for(decoded_view(*decoded), folder_index as nat),
{
    match decoded {
        Some(picture) => match create_thumbnail(0, picture, MAX_THUMB_HEIGHT) {
            Ok(thumbnail) => Some(ScanEvent::CoverReady { folder_index, thumbnail }),
            Err(_) => None,
        },
        None => None,
    }
}

/// Makes the thumbnails of the pictures of a folder from what decoding each
/// gave, in the order of the folder. Each thumbnail is stamped with the
/// place of its picture; a picture that was not decoded, or that cannot be
/// scaled down, is passed over.
pub fn thumbnails_from(decoded: &Vec<Option<Raster>>) -> (thumbnails: Vec<Thumbnail>)
    ensures
        thumbnails_view(thumbnails@) == thumbnails_of(decoded_seq_view(decoded@)),
{
    let ghost pictures = decoded_seq_view(decoded@);
    let mut thumbnails: Vec<Thumbnail> = Vec::new();
    let n: usize = decoded.len();
    let mut i: usize = 0;
    proof {
        assert(pictures.subrange(0, 0) =~= Seq::<Option<RasterView>>::empty());
        assert(thumbnails_view(thumbnails@) =~= thumbnails_of(pictures.subrange(0, 0)));
    }
    while i < n
        invariant
            n == decoded.len(),
            i <= n,
            pictures == decoded_seq_view(decoded@),
            thumbnails_view(thumbnails@) == thumbnails_of(pictures.subrange(0, i as int)),
        decreases n - i,
    {
        let ghost before = thumbnails@;
        proof {
            assert(pictures.subrange(0, i + 1).drop_last() =~= pictures.subrange(0, i as int));
            assert(pictures.subrange(0, i + 1).last() == decoded_view(decoded[i as int]));
        }
        match thumbnail_event_from(&decoded[i], i) {
            Some(ThumbnailEvent::ThumbnailReady { index, thumbnail }) => {
                thumbnails.push(thumbnail);
                assert(thumbnails_view(thumbnails@) =~= thumbnails_view(before).push(thumbnail@));
            },
            None => {},
        }
        i += 1;
    }
    assert(pictures.subrange(0, n as int) =~= pictures);
    thumbnails
}

/// Makes the covers of a row of folders from what decoding the first
/// picture of each gave, in the order of the folders; the first of them
/// stands at `first_index` in the gallery. A picture that was not decoded,
/// or that cannot be scaled down, is passed over.
pub fn covers_from(first_index: usize, decoded: &Vec<Option<Raster>>) -> (events: Vec<ScanEvent>)
    requires
        first_index + decoded.len() <= usize::MAX,
    ensures
        scan_events_view(events@) == cover_events(first_index as nat, decoded_seq_view(decoded@)),
{
    let ghost pictures = decoded_seq_view(decoded@);
    let mut events: Vec<ScanEvent> = Vec::new();
    let n: usize = decoded.len();
    let mut i: usize = 0;
    proof {
        assert(pictures.subrange(0, 0) =~= Seq::<Option<RasterView>>::empty());
        assert(scan_events_view(events@) =~= cover_events(first_index as nat, pictures.subrange(0, 0)));
    }
    while i < n
        invariant
            n == decoded.len(),
            i <= n,
            first_index + n <= usize::MAX,
            pictures == decoded_seq_view(decoded@),
            scan_events_view(events@) == cover_events(first_index as nat, pictures.subrange(0, i as int)),
        decreases n - i,
    {
        let ghost before = events@;
        proof {
            assert(pictures.subrange(0, i + 1).drop_last() =~= pictures.subrange(0, i as int));
            assert(pictures.subrange(0, i + 1).last() == decoded_view(decoded[i as int]));
        }
        match cover_event_from(&decoded[i], first_index + i) {
            Some(event) => {
                events.push(event);
                assert(scan_events_view(events@) =~= scan_events_view(before).push(event@));
            },
            None => {},
        }
        i += 1;
    }
    assert(pictures.subrange(0, n as int) =~= pictures);
    events
}

/// Makes the cover of a folder from the contents of its first picture: the
/// thumbnail of that picture, stamped with the index 0.
///
/// `first_image` is what reading the file gave, `None` where it could not
/// be read. Where its bytes do not decode, the answer is `InvalidFormat`;
/// where they do, it is what `create_thumbnail` gives for the decoded picture.
pub fn create_first_image_thumbnail(first_image: &Option<Vec<u8>>) -> (res: Result<Thumbnail, DecodeError>)
    ensures
        *first_image is None ==> res == Err::<Thumbnail, DecodeError>(DecodeError::Unreadable),
        *first_image is Some ==> res == Err::<Thumbnail, DecodeError>(DecodeError::InvalidFormat) || exists|
            source: RasterView,
        | scaled_from(res, 0, source, MAX_THUMB_HEIGHT),
        res matches Ok(thumbnail) ==> {
            &&& thumbnail.index == 0
            &&& thumbnail.image.wf()
            &&& thumbnail.image.height == MAX_THUMB_HEIGHT
        },
{
    decode_and_scale(first_image, 0, MAX_THUMB_HEIGHT)
}

/// Makes the cover of the folder at `folder_index` in the gallery from what
/// reading its first picture gave, and reports it: the file is decoded, and
/// the event is what `cover_event_from` gives for what came of that. A file
/// that could not be read gives no event.
pub fn cover_event(first_image: &Option<Vec<u8>>, folder_index: usize) -> (event: Option<ScanEvent>)
    ensures
        exists|decoded: Option<RasterView>|
            #[trigger] may_decode_to(*first_image, decoded) && scan_event_view(event) == cover_event_for(
                decoded,
                folder_index as nat,
            ),
{
    let decoded = decoded_picture(first_image);
    let event = cover_event_from(&decoded, folder_index);
    assert(may_decode_to(*first_image, decoded_view(decoded)));
    event
}

/// Makes the thumbnail of the picture at `index` in its folder from what
/// reading the picture gave, and reports it: the file is decoded, and the
/// event is what `thumbnail_event_from` gives for what came of that. A file
/// that could not be read gives no event.
pub fn thumbnail_event(contents: &Option<Vec<u8>>, index: usize) -> (event: Option<ThumbnailEvent>)
    ensures
        exists|decoded: Option<RasterView>|
            #[trigger] may_decode_to(*contents, decoded) && thumbnail_event_view(event) == thumbnail_event_for(
                decoded,
                index as nat,
            ),
{
    let decoded = decoded_picture(contents);
    let event = thumbnail_event_from(&decoded, index);
    assert(may_decode_to(*contents, decoded_view(decoded)));
    event
}

/// Makes the covers of the folders that a scan found. `first_images` holds,
/// for each folder in the order in which they were found, what reading its
/// first picture gave; the first of these folders stands at `first_index` in
/// the gallery. Each file is decoded in turn, and the events are what
/// `covers_from` gives for what came of that.
pub fn generate_covers(first_index: usize, first_images: &Vec<Option<Vec<u8>>>) -> (events: Vec<ScanEvent>)
    requires
        first_index + first_images.len() <= usize::MAX,
    ensures
        exists|decoded: Seq<Option<RasterView>>|
            #[trigger] may_decode_all(first_images@, decoded) && scan_events_view(events@) == cover_events(
                first_index as nat,
                decoded,
            ),
{
    let ghost mut decoded: Seq<Option<RasterView>> = Seq::empty();
    let mut events: Vec<ScanEvent> = Vec::new();
    let n: usize = first_images.len();
    let mut i: usize = 0;
    while i < n
        invariant
            n == first_images.len(),
            i <= n,
            first_index + n <= usize::MAX,
            decoded.len() == i,
            forall|j: int| 0 <= j < i ==> may_decode_to(#[trigger] first_images[j], decoded[j]),
            scan_events_view(events@) == cover_events(first_index as nat, decoded),
        decreases n - i,
    {
        let ghost before = events@;
        let ghost so_far = decoded;
        let picture = decoded_picture(&first_images[i]);
        proof {
            decoded = so_far.push(decoded_view(picture));
            assert(decoded.drop_last() =~= so_far);
        }
        match cover_event_from(&picture, first_index + i) {
            Some(event) => {
                events.push(event);
                assert(scan_events_view(events@) =~= scan_events_view(before).push(event@));
            },
            None => {},
        }
        i += 1;
    }
    assert(may_decode_all(first_images@, decoded));
    events
}

/// Makes the thumbnails of the pictures of a folder. `files` holds, for each
/// picture in the order of the folder, what reading it gave. Each file is
/// decoded in turn, and the thumbnails are what `thumbnails_from` gives for
/// what came of that: each is stamped with the place of its picture, and a
/// picture that gives none is passed over.
pub fn create_thumbnails(files: &Vec<Option<Vec<u8>>>) -> (thumbnails: Vec<Thumbnail>)
    ensures
        exists|decoded: Seq<Option<RasterView>>|
            #[trigger] may_decode_all(files@, decoded) && thumbnails_view(thumbnails@) == thumbnails_of(decoded),
{
    let ghost mut decoded: Seq<Option<RasterView>> = Seq::empty();
    let mut thumbnails: Vec<Thumbnail> = Vec::new();
    let n: usize = files.len();
    let mut i: usize = 0;
    while i < n
        invariant
            n == files.len(),
            i <= n,
            decoded.len() == i,
            forall|j: int| 0 <= j < i ==> may_decode_to(#[trigger] files[j], decoded[j]),
            thumbnails_view(thumbnails@) == thumbnails_of(decoded),
        decreases n - i,
    {
        let ghost before = thumbnails@;
        let ghost so_far = decoded;
        let picture = decoded_picture(&files[i]);
        proof {
            decoded = so_far.push(decoded_view(picture));
            assert(decoded.drop_last() =~= so_far);
        }
        match thumbnail_event_from(&picture, i) {
            Some(ThumbnailEvent::ThumbnailReady { index, thumbnail }) => {
                thumbnails.push(thumbnail);
                assert(thumbnails_view(thumbnails@) =~= thumbnails_view(before).push(thumbnail@));
            },
            None => {},
        }
        i += 1;
    }
    assert(may_decode_all(files@, decoded));
    thumbnails
}

/// Makes the thumbnails of an opened folder and reports each as an event
/// that carries the place of its picture. `files` holds, for each picture
/// in the order of the folder, what reading it gave. Each file is decoded in
/// turn; there is one event for each thumbnail that `thumbnails_from` gives
/// for what came of that, in the same order.
pub fn begin_folder_thumbnails(files: &Vec<Option<Vec<u8>>>) -> (events: Vec<ThumbnailEvent>)
    ensures
        exists|decoded: Seq<Option<RasterView>>|
            #[trigger] may_decode_all(files@, decoded) && thumbnail_events_view(events@) == ready_events(
                thumbnails_of(decoded),
            ),
{
    let ghost mut decoded: Seq<Option<RasterView>> = Seq::empty();
    let mut events: Vec<ThumbnailEvent> = Vec::new();
    let n: usize = files.len();
    let mut i: usize = 0;
    proof {
        assert(thumbnail_events_view(events@) =~= ready_events(thumbnails_of(decoded)));
    }
    while i < n
        invariant
            n == files.len(),
            i <= n,
            decoded.len() == i,
            forall|j: int| 0 <= j < i ==> may_decode_to(#[trigger] files[j], decoded[j]),
            thumbnail_events_view(events@) == ready_events(thumbnails_of(decoded)),
        decreases n - i,
    {
        let ghost before = events@;
        let ghost so_far = decoded;
        let ghost made = thumbnails_of(so_far);
        let picture = decoded_picture(&files[i]);
        proof {
            decoded = so_far.push(decoded_view(picture));
            assert(decoded.drop_last() =~= so_far);
        }
        match thumbnail_event_from(&picture, i) {
            Some(event) => {
                events.push(event);
                assert(thumbnail_events_view(events@) =~= thumbnail_events_view(before).push(event@));
                assert(ready_events(made.push(thumbnail_at(decoded_view(picture), i as nat))) =~= ready_events(
                    made,
                ).push(event@));
            },
            None => {},
        }
        i += 1;
    }
    assert(may_decode_all(files@, decoded));
    events
}

/// The thumbnails of a folder come in the order of its pictures: every index
/// is that of a picture of the folder, and the indices go strictly up, so
/// that none comes twice.
pub proof fn law_thumbnail_indices_ascend(decoded: Seq<Option<RasterView>>)
    ensures
        forall|k: int|
            0 <= k < thumbnails_of(decoded).len() ==> (#[trigger] thumbnails_of(decoded)[k]).index < decoded.len(),
        forall|j: int, k: int|
            0 <= j < k < thumbnails_of(decoded).len() ==> (#[trigger] thumbnails_of(decoded)[j]).index < (
            #[trigger] thumbnails_of(decoded)[k]).index,
    decreases decoded.len(),
{
    if decoded.len() > 0 {
        let rest = decoded.drop_last();
        law_thumbnail_indices_ascend(rest);
        lemma_thumbnail_at_any_index(decoded.last(), (decoded.len() - 1) as nat);
        let before = thumbnails_of(rest);
        let all = thumbnails_of(decoded);
        assert forall|k: int| 0 <= k < all.len() implies (#[trigger] all[k]).index < decoded.len() by {
            if k < before.len() {
                assert(all[k] == before[k]);
            }
        }
        assert forall|j: int, k: int| 0 <= j < k < all.len() implies (#[trigger] all[j]).index < (
        #[trigger] all[k]).index by {
            assert(all[j] == before[j]);
            if k < before.len() {
                assert(all[k] == before[k]);
            }
        }
    }
}

/// A picture of a folder gets a thumbnail exactly when it was decoded and
/// can be scaled down.
pub proof fn law_thumbnail_iff_scalable(decoded: Seq<Option<RasterView>>, i: int)
    requires
        0 <= i < decoded.len(),
    ensures
        gives_thumbnail(decoded[i]) <==> exists|k: int|
            0 <= k < thumbnails_of(decoded).len() && (#[trigger] thumbnails_of(decoded)[k]).index == i,
    decreases decoded.len(),
{
    let rest = decoded.drop_last();
    let before = thumbnails_of(rest);
    let all = thumbnails_of(decoded);
    let last = decoded.len() - 1;
    lemma_thumbnail_at_any_index(decoded.last(), last as nat);
    law_thumbnail_indices_ascend(rest);
    if i < last {
        law_thumbnail_iff_scalable(rest, i);
        assert(rest[i] == decoded[i]);
        if gives_thumbnail(decoded[i]) {
            let k = choose|k: int| 0 <= k < before.len() && (#[trigger] before[k]).index == i;
            assert(all[k] == before[k]);
        }
        if exists|k: int| 0 <= k < all.len() && (#[trigger] all[k]).index == i {
            let k = choose|k: int| 0 <= k < all.len() && (#[trigger] all[k]).index == i;
            if k < before.len() {
                assert(all[k] == before[k]);
            }
        }
    } else {
        if gives_thumbnail(decoded[i]) {
            assert(all[all.len() - 1].index == i);
        }
        if exists|k: int| 0 <= k < all.len() && (#[trigger] all[k]).index == i {
            let k = choose|k: int| 0 <= k < all.len() && (#[trigger] all[k]).index == i;
            if k < before.len() {
                assert(all[k] == before[k]);
                assert(before[k].index < rest.len());
            }
        }
    }
}

/// Where every picture of a folder was decoded and can be scaled down, the
/// folder gets one thumbnail for each picture, each at the place of its picture: the indices
/// are 0, 1, and so on up to the last picture, with none left out and none twice.
pub proof fn law_all_scalable_all_indices(decoded: Seq<Option<RasterView>>)
    requires
        forall|i: int| 0 <= i < decoded.len() ==> gives_thumbnail(#[trigger] decoded[i]),
    ensures
        thumbnails_of(decoded).len() == decoded.len(),
        forall|i: int| 0 <= i < decoded.len() ==> (#[trigger] thumbnails_of(decoded)[i]).index == i,
        forall|i: int| 0 <= i < decoded.len() ==> (#[trigger] ready_events(thumbnails_of(decoded))[i]).index() == i,
    decreases decoded.len(),
{
    if decoded.len() > 0 {
        let rest = decoded.drop_last();
        assert forall|i: int| 0 <= i < rest.len() implies gives_thumbnail(#[trigger] rest[i]) by {
            assert(rest[i] == decoded[i]);
        }
        law_all_scalable_all_indices(rest);
        lemma_thumbnail_at_any_index(decoded.last(), (decoded.len() - 1) as nat);
        let before = thumbnails_of(rest);
        let all = thumbnails_of(decoded);
        assert(gives_thumbnail(decoded[decoded.len() - 1]));
        assert forall|i: int| 0 <= i < decoded.len() implies (#[trigger] all[i]).index == i by {
            if i < before.len() {
                assert(all[i] == before[i]);
            }
        }
    }
}

/// A picture that was not decoded, or cannot be scaled down, costs its own
/// thumbnail and no other: the thumbnails are as many as the pictures that
/// give one.
pub proof fn law_thumbnail_count(decoded: Seq<Option<RasterView>>)
    ensures
        thumbnails_of(decoded).len() == decoded.filter(|picture: Option<RasterView>| gives_thumbnail(picture)).len(),
        ready_events(thumbnails_of(decoded)).len() == thumbnails_of(decoded).len(),
    decreases decoded.len(),
{
    let gives = |picture: Option<RasterView>| gives_thumbnail(picture);
    if decoded.len() > 0 {
        let rest = decoded.drop_last();
        law_thumbnail_count(rest);
        rest.lemma_filter_push(decoded.last(), gives);
        assert(rest.push(decoded.last()) =~= decoded);
    } else {
        reveal(Seq::filter);
    }
}

/// Whether an event is the cover of a folder that stands at or after `first`
/// and before `end` in the gallery, stamped with the index 0.
pub open spec fn is_cover_within(event: ScanEventView, first: nat, end: nat) -> bool {
    &&& event matches ScanEventView::CoverReady { folder_index, thumbnail }
    &&& first <= folder_index < end
    &&& thumbnail.index == 0
}

/// The covers of a scan stand for the folders in their order: the folder
/// indices go strictly up from `first_index`, and stay below the end of the row.
pub proof fn law_cover_indices_ascend(first_index: nat, decoded: Seq<Option<RasterView>>)
    ensures
        cover_events(first_index, decoded).len() <= decoded.len(),
        forall|k: int|
            0 <= k < cover_events(first_index, decoded).len() ==> is_cover_within(
                #[trigger] cover_events(first_index, decoded)[k],
                first_index,
                first_index + decoded.len(),
            ),
        forall|j: int, k: int|
            0 <= j < k < cover_events(first_index, decoded).len() ==> (#[trigger] cover_events(
                first_index,
                decoded,
            )[j])->folder_index < (#[trigger] cover_events(first_index, decoded)[k])->folder_index,
        (forall|i: int| 0 <= i < decoded.len() ==> gives_thumbnail(#[trigger] decoded[i]))
            ==> cover_events(first_index, decoded).len() == decoded.len(),
    decreases decoded.len(),
{
    if decoded.len() > 0 {
        let rest = decoded.drop_last();
        law_cover_indices_ascend(first_index, rest);
        lemma_thumbnail_at_any_index(decoded.last(), 0);
        let before = cover_events(first_index, rest);
        let all = cover_events(first_index, decoded);
        assert forall|k: int| 0 <= k < all.len() implies is_cover_within(
            #[trigger] all[k],
            first_index,
            first_index + decoded.len(),
        ) by {
            if k < before.len() {
                assert(all[k] == before[k]);
            }
        }
        assert forall|j: int, k: int| 0 <= j < k < all.len() implies (#[trigger] all[j])->folder_index < (
        #[trigger] all[k])->folder_index by {
            assert(all[j] == before[j]);
            if k < before.len() {
                assert(all[k] == before[k]);
            }
        }
        if forall|i: int| 0 <= i < decoded.len() ==> gives_thumbnail(#[trigger] decoded[i]) {
            assert forall|i: int| 0 <= i < rest.len() implies gives_thumbnail(#[trigger] rest[i]) by {
                assert(rest[i] == decoded[i]);
            }
            assert(gives_thumbnail(decoded[decoded.len() - 1]));
        }
    }
}

} // verus!
