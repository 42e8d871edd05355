use rand::seq::SliceRandom;
use vstd::prelude::*;
use crate::error::WallpaperError;
use crate::image::{image_name, is_image_name};

verus! {

/// One entry of a directory listing.
pub struct Entry {
    /// The entry's file name, as raw bytes.
    pub name: Vec<u8>,
    /// The entry's full path as text, or `None` where the path has no text form.
    pub path: Option<String>,
}

/// Entry `i` of `entries` is an image.
pub open spec fn is_image_entry(entries: Seq<Entry>, i: int) -> bool {
    image_name(entries[i].name@)
}

/// `entries` holds at least one image.
pub open spec fn has_image(entries: Seq<Entry>) -> bool {
    exists|i: int| 0 <= i < entries.len() && is_image_entry(entries, i)
}

/// Every image entry of `entries` has a text path.
pub open spec fn image_paths_are_text(entries: Seq<Entry>) -> bool {
    forall|i: int| 0 <= i < entries.len() && is_image_entry(entries, i) ==> (#[trigger] entries[i]).path is Some
}

/// `p` is the text path of some image entry of `entries`.
pub open spec fn is_image_path_of(entries: Seq<Entry>, p: Seq<char>) -> bool {
    exists|i: int|
        0 <= i < entries.len() && is_image_entry(entries, i) && ((#[trigger] entries[i]).path matches Some(
            q,
        ) && q@ == p)
}

/// What a selection out of `entries` may end in: no image at all exactly when
/// the listing holds none; otherwise the text path of an image entry, or
/// `InvalidPath` where some image entry has no text path.
pub open spec fn selected_from(entries: Seq<Entry>, r: Result<String, WallpaperError>) -> bool {
    match r {
        Ok(p) => is_image_path_of(entries, p@),
        Err(WallpaperError::ImageNotFound) => !has_image(entries),
        Err(WallpaperError::InvalidPath) => has_image(entries) && !image_paths_are_text(entries),
        Err(_) => false,
    }
}

/// The indices of the image entries of `entries`, in increasing order.
pub fn image_candidates(entries: &Vec<Entry>) -> (r: Vec<usize>)
    ensures
        forall|k: int| 0 <= k < r@.len() ==> r@[k] < entries@.len() && is_image_entry(entries@, r@[k] as int),
        forall|k: int, l: int| 0 <= k < l < r@.len() ==> r@[k] < r@[l],
        forall|i: int| 0 <= i < entries@.len() && is_image_entry(entries@, i) ==> r@.contains(i as usize),
{
    let mut r: Vec<usize> = Vec::new();
    let mut i: usize = 0;
    while i < entries.len()
        invariant
            i <= entries@.len(),
            forall|k: int| 0 <= k < r@.len() ==> r@[k] < i && is_image_entry(entries@, r@[k] as int),
            forall|k: int, l: int| 0 <= k < l < r@.len() ==> r@[k] < r@[l],
            forall|j: int| 0 <= j < i && is_image_entry(entries@, j) ==> r@.contains(j as usize),
        decreases entries@.len() - i,
    {
        if is_image_name(entries[i].name.as_slice()) {
            let ghost before = r@;
            r.push(i);
            proof {
                assert(r@[before.len() as int] == i);
                assert forall|j: int| 0 <= j < i + 1 && is_image_entry(entries@, j) implies r@.contains(j as usize) by {
                    if j < i {
                        let k = choose|k: int| 0 <= k < before.len() && before[k] == j as usize;
                        assert(r@[k] == j as usize);
                    }
                }
            }
        }
        i = i + 1;
    }
    r
}

/// Relies on rand's `SliceRandom::choose`, drawing from `thread_rng`: `None`
/// exactly for an empty slice, otherwise one of its items.
#[verifier::external_body]
fn choose_one(items: &Vec<usize>) -> (r: Option<usize>)
    ensures
        items@.len() == 0 <==> r is None,
        r matches Some(x) ==> items@.contains(x),
{
    items.as_slice().choose(&mut rand::thread_rng()).copied()
}

/// The outcome of a selection once the random choice is known: no choice
/// means no image; otherwise the chosen entry's text path, if it has one.
pub fn select_entry(entries: &Vec<Entry>, chosen: Option<usize>) -> (r: Result<String, WallpaperError>)
    requires
        chosen matches Some(i) ==> i < entries@.len(),
    ensures
        match chosen {
            None => r matches Err(WallpaperError::ImageNotFound),
            Some(i) => match entries@[i as int].path {
                Some(p) => r == Ok::<String, WallpaperError>(p),
                None => r matches Err(WallpaperError::InvalidPath),
            },
        },
{
    match chosen {
        None => Err(WallpaperError::ImageNotFound),
        Some(i) => match &entries[i].path {
            Some(p) => Ok(p.clone()),
            None => Err(WallpaperError::InvalidPath),
        },
    }
}

/// Picks an image out of a directory listing uniformly at random; `None`
/// stands for a directory that could not be listed.
pub fn select_wallpaper(listing: Option<Vec<Entry>>) -> (r: Result<String, WallpaperError>)
    ensures
        listing is None <==> r matches Err(WallpaperError::DirectoryNotFound),
        listing matches Some(es) ==> selected_from(es@, r),
{
    match listing {
        None => Err(WallpaperError::DirectoryNotFound),
        Some(entries) => {
            let candidates = image_candidates(&entries);
            let chosen = choose_one(&candidates);
            proof {
                if has_image(entries@) {
                    let i = choose|i: int| 0 <= i < entries@.len() && is_image_entry(entries@, i);
                    assert(candidates@.contains(i as usize));
                }
            }
            select_entry(&entries, chosen)
        },
    }
}

} // verus!
