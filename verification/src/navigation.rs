//! The navigation state machine: which level is in focus, what has been
//! chosen on the way there, and which listing each pane shows.

use crate::library::{is_absolute, join, joined, LibraryRoot};
use crate::listing::{entries_of, is_listing, listing_of, Listing};
use crate::scanner::{scan, IoError};
use vstd::prelude::*;
use vstd::string::StringExecFns;

verus! {

/// How deep the focus is in the library.
#[derive(Clone, Copy, Debug, PartialEq, Eq, Structural)]
pub enum NavigationLevel {
    Artists,
    Albums,
    Songs,
}

impl NavigationLevel {
    /// The depth of the level: 0 for artists, 1 for albums, 2 for songs.
    pub open spec fn depth_of(self) -> nat {
        match self {
            NavigationLevel::Artists => 0,
            NavigationLevel::Albums => 1,
            NavigationLevel::Songs => 2,
        }
    }

    /// The depth of the level, which is also the index of its pane.
    pub fn depth(self) -> (depth: usize)
        ensures
            depth == self.depth_of(),
    {
        match self {
            NavigationLevel::Artists => 0,
            NavigationLevel::Albums => 1,
            NavigationLevel::Songs => 2,
        }
    }
}

/// The names chosen on the way to the current level, as values.
pub struct SelectionView {
    pub artist: Option<Seq<char>>,
    pub album: Option<Seq<char>>,
}

impl SelectionView {
    /// Nothing chosen.
    pub open spec fn none() -> SelectionView {
        SelectionView { artist: None, album: None }
    }

    /// An album is only ever chosen below an artist.
    pub open spec fn wf(self) -> bool {
        self.album is Some ==> self.artist is Some
    }
}

/// The names chosen on the way to the current level.
#[derive(Debug)]
pub struct Selection {
    artist: Option<String>,
    album: Option<String>,
}

impl View for Selection {
    type V = SelectionView;

    closed spec fn view(&self) -> SelectionView {
        SelectionView {
            artist: match self.artist {
                Some(name) => Some(name@),
                None => None,
            },
            album: match self.album {
                Some(name) => Some(name@),
                None => None,
            },
        }
    }
}

impl Selection {
    /// An album is only ever chosen below an artist.
    #[verifier::type_invariant]
    pub open spec fn well_formed(self) -> bool {
        self@.wf()
    }

    /// The chosen artist, if one is chosen.
    pub fn artist(&self) -> (name: Option<&str>)
        ensures
            match name {
                Some(n) => self@.artist == Some(n@),
                None => self@.artist is None,
            },
    {
        match &self.artist {
            Some(name) => Some(name.as_str()),
            None => None,
        }
    }

    /// The chosen album, if one is chosen.
    pub fn album(&self) -> (name: Option<&str>)
        ensures
            match name {
                Some(n) => self@.album == Some(n@) && self@.artist is Some,
                None => self@.album is None,
            },
    {
        proof {
            use_type_invariant(self);
        }
        match &self.album {
            Some(name) => Some(name.as_str()),
            None => None,
        }
    }
}

/// A song to play, named by the choices that lead to it.
#[derive(Clone, Debug, PartialEq, Eq)]
pub struct PlayRequest {
    pub artist: String,
    pub album: String,
    pub song: String,
}

impl PlayRequest {
    /// The song's file below the library root: artist, album and song, joined.
    pub open spec fn track_of(self) -> Seq<char> {
        joined(joined(self.artist@, self.album@), self.song@)
    }

    /// The song's file below the library root, as path text.
    pub fn track(&self) -> (path: String)
        ensures
            path@ == self.track_of(),
    {
        let folder = join(self.artist.as_str(), self.album.as_str());
        join(folder.as_str(), self.song.as_str())
    }

    /// The song's file in the library at `root`: an absolute path below the root.
    pub fn locate(&self, root: &LibraryRoot) -> (path: String)
        ensures
            path@ == joined(root@, self.track_of()),
            is_absolute(path@),
            root@.is_prefix_of(path@),
    {
        let track = self.track();
        root.locate(track.as_str())
    }
}

/// What selecting a name asks of the shell.
#[derive(Clone, Debug, PartialEq, Eq)]
pub enum Request {
    /// Read the directory `folder` below the library root, then report with
    /// [`Navigator::enter`].
    Scan { folder: String },
    /// Play the song.
    Play(PlayRequest),
}

/// The state of the navigation, as values.
pub struct NavigatorView {
    pub level: NavigationLevel,
    pub selection: SelectionView,
    pub artists: Seq<Seq<char>>,
    pub albums: Seq<Seq<char>>,
    pub songs: Seq<Seq<char>>,
}

impl NavigatorView {
    /// The state at the start: the artists are listed, nothing is chosen.
    pub open spec fn initial(artists: Seq<Seq<char>>) -> NavigatorView {
        NavigatorView {
            level: NavigationLevel::Artists,
            selection: SelectionView::none(),
            artists,
            albums: Seq::empty(),
            songs: Seq::empty(),
        }
    }

    /// What holds of every state: each pane shows a listing; the selection
    /// reaches exactly as deep as the level; each chosen name is listed in
    /// the pane it was chosen from; the panes below the level are empty.
    pub open spec fn wf(self) -> bool {
        &&& is_listing(self.artists)
        &&& is_listing(self.albums)
        &&& is_listing(self.songs)
        &&& match self.level {
            NavigationLevel::Artists => {
                &&& self.selection.artist is None
                &&& self.selection.album is None
                &&& self.albums.len() == 0
                &&& self.songs.len() == 0
            },
            NavigationLevel::Albums => {
                &&& self.selection.artist is Some
                &&& self.artists.contains(self.selection.artist->0)
                &&& self.selection.album is None
                &&& self.songs.len() == 0
            },
            NavigationLevel::Songs => {
                &&& self.selection.artist is Some
                &&& self.artists.contains(self.selection.artist->0)
                &&& self.selection.album is Some
                &&& self.albums.contains(self.selection.album->0)
            },
        }
    }

    /// The listing of the pane at `level`.
    pub open spec fn listing(self, level: NavigationLevel) -> Seq<Seq<char>> {
        match level {
            NavigationLevel::Artists => self.artists,
            NavigationLevel::Albums => self.albums,
            NavigationLevel::Songs => self.songs,
        }
    }

    /// The listing of the pane in focus.
    pub open spec fn focused(self) -> Seq<Seq<char>> {
        self.listing(self.level)
    }

    /// The directory below the library root that holds what `name` leads to:
    /// the artist's directory, or the album's directory below the chosen artist.
    pub open spec fn folder_of(self, name: Seq<char>) -> Seq<char> {
        match self.selection.artist {
            Some(artist) => joined(artist, name),
            None => name,
        }
    }

    /// Whether `name` can be selected: it is listed in the pane in focus.
    pub open spec fn offers(self, name: Seq<char>) -> bool {
        self.focused().contains(name)
    }

    /// Whether selecting `name` leads one level down: it is on offer, and
    /// there is a level below.
    pub open spec fn enters(self, name: Seq<char>) -> bool {
        self.offers(name) && self.level != NavigationLevel::Songs
    }

    /// The state after `name` was selected and its directory was found to
    /// hold `listing`: one level down, with `name` chosen. Where the
    /// selection does not lead down, the state stays as it is.
    pub open spec fn enter(self, name: Seq<char>, listing: Seq<Seq<char>>) -> NavigatorView {
        if !self.enters(name) {
            self
        } else if self.level == NavigationLevel::Artists {
            NavigatorView {
                level: NavigationLevel::Albums,
                selection: SelectionView { artist: Some(name), album: None },
                albums: listing,
                ..self
            }
        } else {
            NavigatorView {
                level: NavigationLevel::Songs,
                selection: SelectionView { artist: self.selection.artist, album: Some(name) },
                songs: listing,
                ..self
            }
        }
    }

    /// The state after going back: one level up, with the last choice and
    /// the listing it led to cleared. At the artists the state stays as it is.
    pub open spec fn back(self) -> NavigatorView {
        match self.level {
            NavigationLevel::Artists => self,
            NavigationLevel::Albums => NavigatorView {
                level: NavigationLevel::Artists,
                selection: SelectionView::none(),
                albums: Seq::empty(),
                ..self
            },
            NavigationLevel::Songs => NavigatorView {
                level: NavigationLevel::Albums,
                selection: SelectionView { artist: self.selection.artist, album: None },
                songs: Seq::empty(),
                ..self
            },
        }
    }
}

/// Every state that is reached keeps the rules of the data: an album is
/// chosen only below an artist, and the selection reaches as deep as the level.
pub proof fn lemma_selection_follows_level(state: NavigatorView)
    requires
        state.wf(),
    ensures
        state.selection.wf(),
        state.selection.artist is Some <==> state.level.depth_of() >= 1,
        state.selection.album is Some <==> state.level.depth_of() == 2,
{
}

/// A completed selection leads from a state that keeps the rules to one
/// that keeps them.
pub proof fn lemma_enter_keeps_wf(state: NavigatorView, name: Seq<char>, listing: Seq<Seq<char>>)
    requires
        state.wf(),
        is_listing(listing),
    ensures
        state.enter(name, listing).wf(),
{
}

/// Going back leads from a state that keeps the rules to one that keeps them.
pub proof fn lemma_back_keeps_wf(state: NavigatorView)
    requires
        state.wf(),
    ensures
        state.back().wf(),
{
}

/// Going back after a selection that led one level down restores the state
/// held before the selection: the level, the selection and every listing.
pub proof fn lemma_back_undoes_enter(
    state: NavigatorView,
    name: Seq<char>,
    listing: Seq<Seq<char>>,
)
    requires
        state.wf(),
        state.enters(name),
    ensures
        state.enter(name, listing).back() == state,
{
    let there = state.enter(name, listing);
    let back = there.back();
    assert(back.albums =~= state.albums);
    assert(back.songs =~= state.songs);
}

/// At the artists, going back changes nothing.
pub proof fn lemma_back_at_artists(state: NavigatorView)
    requires
        state.level == NavigationLevel::Artists,
    ensures
        state.back() == state,
{
}

/// At the songs, a selection changes neither the level nor the selection
/// nor any listing.
pub proof fn lemma_enter_at_songs(state: NavigatorView, name: Seq<char>, listing: Seq<Seq<char>>)
    requires
        state.level == NavigationLevel::Songs,
    ensures
        state.enter(name, listing) == state,
{
}

/// The navigation state machine.
#[derive(Debug)]
pub struct Navigator {
    level: NavigationLevel,
    selection: Selection,
    artists: Listing,
    albums: Listing,
    songs: Listing,
}

impl View for Navigator {
    type V = NavigatorView;

    closed spec fn view(&self) -> NavigatorView {
        NavigatorView {
            level: self.level,
            selection: self.selection@,
            artists: self.artists@,
            albums: self.albums@,
            songs: self.songs@,
        }
    }
}

impl Navigator {
    /// Every navigator is in a state that keeps the rules of [`NavigatorView::wf`].
    #[verifier::type_invariant]
    pub open spec fn well_formed(self) -> bool {
        self@.wf()
    }

    /// The navigator at the start, with the artists listed.
    pub fn new(artists: Listing) -> (navigator: Navigator)
        ensures
            navigator@ == NavigatorView::initial(artists@),
            navigator@.wf(),
    {
        proof {
            use_type_invariant(&artists);
        }
        Navigator {
            level: NavigationLevel::Artists,
            selection: Selection { artist: None, album: None },
            artists,
            albums: Listing::empty(),
            songs: Listing::empty(),
        }
    }

    /// The level in focus.
    pub fn level(&self) -> (level: NavigationLevel)
        ensures
            level == self@.level,
    {
        self.level
    }

    /// The names chosen so far.
    pub fn selection(&self) -> (selection: &Selection)
        ensures
            selection@ == self@.selection,
    {
        &self.selection
    }

    /// The listing of the pane at `level`.
    pub fn listing(&self, level: NavigationLevel) -> (listing: &Listing)
        ensures
            listing@ == self@.listing(level),
    {
        match level {
            NavigationLevel::Artists => &self.artists,
            NavigationLevel::Albums => &self.albums,
            NavigationLevel::Songs => &self.songs,
        }
    }

    /// The listing of the pane in focus.
    pub fn focused(&self) -> (listing: &Listing)
        ensures
            listing@ == self@.focused(),
    {
        self.listing(self.level)
    }

    /// What selecting `name` asks of the shell, where `name` is on offer in
    /// the focused pane. Above the songs it is a scan of the directory that
    /// `name` leads to; at the songs it is a request to play `name`. The
    /// state is not touched: a scan's outcome is reported with
    /// [`Navigator::enter`].
    pub fn select(&self, name: &str) -> (request: Option<Request>)
        ensures
            match request {
                None => !self@.offers(name@),
                Some(Request::Scan { folder }) => {
                    &&& self@.offers(name@)
                    &&& self@.level != NavigationLevel::Songs
                    &&& folder@ == self@.folder_of(name@)
                },
                Some(Request::Play(play)) => {
                    &&& self@.offers(name@)
                    &&& self@.level == NavigationLevel::Songs
                    &&& self@.selection.artist == Some(play.artist@)
                    &&& self@.selection.album == Some(play.album@)
                    &&& play.song@ == name@
                },
            },
    {
        proof {
            use_type_invariant(self);
        }
        if !self.focused().contains(name) {
            return None;
        }
        match self.level {
            NavigationLevel::Artists => Some(Request::Scan { folder: String::from_str(name) }),
            NavigationLevel::Albums => {
                let artist = self.selection.artist.as_ref().unwrap();
                Some(Request::Scan { folder: join(artist.as_str(), name) })
            },
            NavigationLevel::Songs => {
                let artist = self.selection.artist.as_ref().unwrap();
                let album = self.selection.album.as_ref().unwrap();
                Some(
                    Request::Play(
                        PlayRequest {
                            artist: artist.clone(),
                            album: album.clone(),
                            song: String::from_str(name),
                        },
                    ),
                )
            },
        }
    }

    /// Completes the selection of `name` with the outcome of the scan that
    /// [`Navigator::select`] asked for. Where the scan succeeded, `name` is
    /// chosen, the pane below shows the new listing and takes the focus.
    /// Where it failed, the error is handed back and nothing changes.
    /// Nothing changes either at the songs, which have no pane below, or for
    /// a name that is not on offer. Says whether the level changed.
    pub fn enter(&mut self, name: String, scanned: Result<Vec<Option<String>>, IoError>) -> (result:
        Result<bool, IoError>)
        ensures
            final(self)@.wf(),
            match scanned {
                Ok(entries) => {
                    &&& result == Ok::<bool, IoError>(old(self)@.enters(name@))
                    &&& final(self)@ == old(self)@.enter(
                        name@,
                        listing_of(entries_of(entries@)),
                    )
                },
                Err(error) => {
                    &&& result == Err::<bool, IoError>(error)
                    &&& *final(self) == *old(self)
                },
            },
            !old(self)@.enters(name@) ==> *final(self) == *old(self),
    {
        proof {
            use_type_invariant(&*self);
        }
        let enters = self.level != NavigationLevel::Songs && self.focused().contains(
            name.as_str(),
        );
        let listing = match scan(scanned) {
            Ok(listing) => listing,
            Err(error) => {
                return Err(error);
            },
        };
        if !enters {
            return Ok(false);
        }
        let mut left = Navigator::new(Listing::empty());
        core::mem::swap(self, &mut left);
        let Navigator { level, selection, artists, albums, songs } = left;
        let Selection { artist, album } = selection;
        match level {
            NavigationLevel::Artists => {
                *self = Navigator {
                    level: NavigationLevel::Albums,
                    selection: Selection { artist: Some(name), album },
                    artists,
                    albums: listing,
                    songs,
                };
            },
            _ => {
                *self = Navigator {
                    level: NavigationLevel::Songs,
                    selection: Selection { artist, album: Some(name) },
                    artists,
                    albums,
                    songs: listing,
                };
            },
        }
        Ok(true)
    }

    /// Goes back one level: the last choice is cleared, the pane it led to
    /// is emptied, and the pane above takes the focus. At the artists this
    /// changes nothing. Says whether the level changed.
    pub fn back(&mut self) -> (moved: bool)
        ensures
            final(self)@.wf(),
            final(self)@ == old(self)@.back(),
            moved == (old(self)@.level != NavigationLevel::Artists),
            !moved ==> *final(self) == *old(self),
    {
        proof {
            use_type_invariant(&*self);
        }
        if self.level == NavigationLevel::Artists {
            return false;
        }
        let mut left = Navigator::new(Listing::empty());
        core::mem::swap(self, &mut left);
        let Navigator { level, selection, artists, albums, songs } = left;
        let Selection { artist, album } = selection;
        match level {
            NavigationLevel::Songs => {
                *self = Navigator {
                    level: NavigationLevel::Albums,
                    selection: Selection { artist, album: None },
                    artists,
                    albums,
                    songs: Listing::empty(),
                };
            },
            _ => {
                *self = Navigator {
                    level: NavigationLevel::Artists,
                    selection: Selection { artist: None, album },
                    artists,
                    albums: Listing::empty(),
                    songs,
                };
            },
        }
        true
    }
}

} // verus!
