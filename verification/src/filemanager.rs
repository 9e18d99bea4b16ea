//! The application's data directories, and the search for the downloader
//! executable among the files of one of them.
use vstd::prelude::*;
use crate::music::{clone_opt_string, opt_view};
use crate::text::chars_of;

verus! {

/// Whether `needle` occurs as a contiguous run of characters inside `hay`.
pub open spec fn has_infix(hay: Seq<char>, needle: Seq<char>) -> bool {
    exists|i: int|
        0 <= i && i + needle.len() <= hay.len() && #[trigger] hay.subrange(i, i + needle.len())
            == needle
}

/// Whether `needle` occurs as a contiguous run of characters inside `hay`.
pub fn contains_chars(hay: &Vec<char>, needle: &Vec<char>) -> (r: bool)
    ensures
        r == has_infix(hay@, needle@),
{
    let n = needle.len();
    if n > hay.len() {
        return false;
    }
    let mut i: usize = 0;
    while i <= hay.len() - n
        invariant
            n == needle.len(),
            n <= hay.len(),
            i <= hay.len() - n + 1,
            forall|k: int| 0 <= k < i ==> #[trigger] hay@.subrange(k, k + n) != needle@,
        decreases hay.len() - n + 1 - i,
    {
        let mut j: usize = 0;
        while j < n && hay[i + j] == needle[j]
            invariant
                n == needle.len(),
                i + n <= hay.len(),
                j <= n,
                forall|k: int| 0 <= k < j ==> hay@[i + k] == needle@[k],
            decreases n - j,
        {
            j = j + 1;
        }
        if j == n {
            assert(hay@.subrange(i as int, i + n) =~= needle@);
            return true;
        }
        assert(hay@.subrange(i as int, i + n)[j as int] != needle@[j as int]);
        i = i + 1;
    }
    false
}

/// The name that marks the downloader executable among the dependencies.
pub open spec fn downloader_marker() -> Seq<char> {
    "yt-dlp"@
}

/// Whether a path names the downloader executable: it contains `yt-dlp`.
pub open spec fn is_downloader_path(path: Seq<char>) -> bool {
    has_infix(path, downloader_marker())
}

/// Whether `path` names the downloader executable.
pub fn is_downloader(path: &String) -> (r: bool)
    ensures
        r == is_downloader_path(path@),
{
    let marker = "yt-dlp";
    proof {
        reveal_strlit("yt-dlp");
    }
    let hay = chars_of(path.as_str());
    let needle = chars_of(marker);
    contains_chars(&hay, &needle)
}

/// The first of `paths` that names the downloader executable, if any.
pub fn find_downloader(paths: &Vec<String>) -> (r: Option<String>)
    ensures
        match r {
            Some(p) => exists|i: int|
                0 <= i < paths.len() && paths@[i]@ == p@ && is_downloader_path(p@) && forall|k: int|
                    0 <= k < i ==> !is_downloader_path(#[trigger] paths@[k]@),
            None => forall|k: int| 0 <= k < paths.len() ==> !is_downloader_path(#[trigger] paths@[k]@),
        },
{
    let mut i: usize = 0;
    while i < paths.len()
        invariant
            i <= paths.len(),
            forall|k: int| 0 <= k < i ==> !is_downloader_path(#[trigger] paths@[k]@),
        decreases paths.len() - i,
    {
        if is_downloader(&paths[i]) {
            return Some(paths[i].clone());
        }
        i = i + 1;
    }
    None
}

/// The paths a `DataDir` holds, as text.
pub struct DataDirView {
    pub root: Seq<char>,
    pub music: Seq<char>,
    pub dependencies: Seq<char>,
    pub thumbnails: Seq<char>,
    pub default_thumbnail: Seq<char>,
    pub dlp_path: Option<Seq<char>>,
}

/// Where the application keeps its data: the root directory, the
/// directories for music, dependencies and thumbnails under it, the image
/// shown for songs without a thumbnail, and the downloader executable once it
/// is known.
pub struct DataDir {
    root: String,
    music: String,
    dependencies: String,
    thumbnails: String,
    default_thumbnail: String,
    dlp_path: Option<String>,
}

impl View for DataDir {
    type V = DataDirView;

    closed spec fn view(&self) -> DataDirView {
        DataDirView {
            root: self.root@,
            music: self.music@,
            dependencies: self.dependencies@,
            thumbnails: self.thumbnails@,
            default_thumbnail: self.default_thumbnail@,
            dlp_path: opt_view(self.dlp_path),
        }
    }
}

impl Clone for DataDir {
    fn clone(&self) -> (r: Self)
        ensures
            r@ == self@,
    {
        DataDir {
            root: self.root.clone(),
            music: self.music.clone(),
            dependencies: self.dependencies.clone(),
            thumbnails: self.thumbnails.clone(),
            default_thumbnail: self.default_thumbnail.clone(),
            dlp_path: clone_opt_string(&self.dlp_path),
        }
    }
}

impl DataDir {
    /// A set of data directories made of the given paths.
    pub fn new(
        root: String,
        music: String,
        dependencies: String,
        thumbnails: String,
        default_thumbnail: String,
        dlp_path: Option<String>,
    ) -> (r: DataDir)
        ensures
            r@ == (DataDirView {
                root: root@,
                music: music@,
                dependencies: dependencies@,
                thumbnails: thumbnails@,
                default_thumbnail: default_thumbnail@,
                dlp_path: opt_view(dlp_path),
            }),
    {
        DataDir { root, music, dependencies, thumbnails, default_thumbnail, dlp_path }
    }

    /// Records where the downloader executable is.
    pub fn take_dlp_path(&mut self, dlp_path: String)
        ensures
            final(self)@ == (DataDirView { dlp_path: Some(dlp_path@), ..old(self)@ }),
    {
        self.dlp_path = Some(dlp_path);
    }

    /// The root directory.
    pub fn get_root_ref(&self) -> (r: &String)
        ensures
            r@ == self@.root,
    {
        &self.root
    }

    /// The directory that holds downloaded music.
    pub fn get_music_ref(&self) -> (r: &String)
        ensures
            r@ == self@.music,
    {
        &self.music
    }

    /// The directory that holds dependencies such as the downloader.
    pub fn get_dependencies_ref(&self) -> (r: &String)
        ensures
            r@ == self@.dependencies,
    {
        &self.dependencies
    }

    /// The directory that holds thumbnails.
    pub fn get_thumbnails_ref(&self) -> (r: &String)
        ensures
            r@ == self@.thumbnails,
    {
        &self.thumbnails
    }

    /// The downloader executable, once it is known.
    pub fn get_dlp_ref(&self) -> (r: Option<&String>)
        ensures
            match r {
                Some(p) => self@.dlp_path == Some(p@),
                None => self@.dlp_path is None,
            },
    {
        match &self.dlp_path {
            Some(p) => Some(p),
            None => None,
        }
    }

    /// The image shown for songs without a thumbnail of their own.
    pub fn get_default_thumbnail(&self) -> (r: &String)
        ensures
            r@ == self@.default_thumbnail,
    {
        &self.default_thumbnail
    }
}

} // verus!
