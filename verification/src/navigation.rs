//! The pages of the application and the moves between them.
use vstd::prelude::*;

verus! {

/// A page of the application.
#[derive(Clone, Copy, Debug, PartialEq, Eq, Structural)]
pub enum PageType {
    SearchSongs,
    Playlists,
    ViewPlaylist,
    ImportSpotify,
    Settings,
}

/// Where the back button of a page leads, as plain values.
pub open spec fn back_spec(page: PageType, previous: (PageType, Option<usize>)) -> (PageType, Option<usize>) {
    if page == PageType::ViewPlaylist {
        (PageType::Playlists, None)
    } else {
        previous
    }
}

/// Where the back button of a page leads, given the page shown before it:
/// from a playlist's own page it leads to the list of playlists, from every
/// other page to the page shown before.
pub fn page_back(page: PageType, previous: (PageType, Option<usize>)) -> (r: (PageType, Option<usize>))
    ensures
        r == back_spec(page, previous),
{
    match page {
        PageType::ViewPlaylist => (PageType::Playlists, None),
        _ => previous,
    }
}

/// Whether a page can be opened with the given playlist id: the search page
/// needs the playlist that songs are added to.
pub open spec fn can_open(page: PageType, playlist_id: Option<usize>) -> bool {
    !(page == PageType::SearchSongs && playlist_id is None)
}

/// The page shown and the one shown before it.
pub struct Navigation {
    pub last_page: (PageType, Option<usize>),
    pub current_page: (PageType, Option<usize>),
}

impl Navigation {
    /// The application starts on the list of playlists.
    pub fn new() -> (r: Navigation)
        ensures
            r.last_page == (PageType::Playlists, None::<usize>),
            r.current_page == (PageType::Playlists, None::<usize>),
    {
        Navigation { last_page: (PageType::Playlists, None), current_page: (PageType::Playlists, None) }
    }

    /// Opens a page: the page shown so far becomes the previous one.
    pub fn load_page(&mut self, page: PageType, playlist_id: Option<usize>)
        requires
            can_open(page, playlist_id),
        ensures
            (final(self).current_page, final(self).last_page) == load_spec(old(self).current_page, page, playlist_id),
    {
        self.last_page = self.current_page;
        self.current_page = (page, playlist_id);
    }

    /// Where the back button of the given page leads.
    pub fn back(&self, page: PageType) -> (r: (PageType, Option<usize>))
        ensures
            r == back_spec(page, self.last_page),
    {
        page_back(page, self.last_page)
    }
}

/// The pages shown and shown before, after opening a page.
pub open spec fn load_spec(
    current: (PageType, Option<usize>),
    page: PageType,
    playlist_id: Option<usize>,
) -> ((PageType, Option<usize>), (PageType, Option<usize>)) {
    ((page, playlist_id), current)
}

/// After a page is opened, its back button leads to the page shown before,
/// unless it is a playlist's page, whose back button leads to the list of
/// playlists.
pub proof fn law_back_returns(current: (PageType, Option<usize>), page: PageType, playlist_id: Option<usize>)
    ensures
        back_spec(page, load_spec(current, page, playlist_id).1) == if page == PageType::ViewPlaylist {
            (PageType::Playlists, None::<usize>)
        } else {
            current
        },
{
}

/// Opening a page shows it, with the playlist it was opened for, and keeps
/// the page shown before as the previous one.
pub proof fn law_open_shows_page(current: (PageType, Option<usize>), page: PageType, playlist_id: Option<usize>)
    ensures
        load_spec(current, page, playlist_id).0 == (page, playlist_id),
        load_spec(current, page, playlist_id).1 == current,
{
}

} // verus!
