//! Where the music lies: the library root and the paths below it.

use vstd::prelude::*;
use vstd::string::StringExecFns;

verus! {

/// The directory under the user's home that holds the library.
pub const MUSIC_FOLDER: &'static str = "music";

/// `child` below `parent`, as path text.
pub open spec fn joined(parent: Seq<char>, child: Seq<char>) -> Seq<char> {
    parent + seq!['/'] + child
}

/// A path is absolute when it starts at the file system's root.
pub open spec fn is_absolute(path: Seq<char>) -> bool {
    path.len() > 0 && path[0] == '/'
}

/// The path text of `child` below `parent`.
pub fn join(parent: &str, child: &str) -> (path: String)
    ensures
        path@ == joined(parent@, child@),
{
    proof {
        reveal_strlit("/");
    }
    let mut path = String::from_str(parent);
    path.append("/");
    path.append(child);
    path
}

/// Whether `path` is absolute.
pub fn absolute(path: &str) -> (yes: bool)
    ensures
        yes == is_absolute(path@),
{
    let mut chars = path.chars();
    match chars.next() {
        Some(first) => first == '/',
        None => false,
    }
}

/// The root directory of the music library: an absolute path, fixed when
/// it is made.
#[derive(Debug)]
pub struct LibraryRoot {
    path: String,
}

impl View for LibraryRoot {
    type V = Seq<char>;

    closed spec fn view(&self) -> Seq<char> {
        self.path@
    }
}

impl LibraryRoot {
    /// The root is an absolute path.
    #[verifier::type_invariant]
    pub open spec fn well_formed(self) -> bool {
        is_absolute(self@)
    }

    /// The library at `path`, where `path` is absolute.
    pub fn new(path: String) -> (root: Option<LibraryRoot>)
        ensures
            match root {
                Some(root) => is_absolute(path@) && root@ == path@,
                None => !is_absolute(path@),
            },
    {
        if absolute(path.as_str()) {
            Some(LibraryRoot { path })
        } else {
            None
        }
    }

    /// The library of the user whose home directory is `home`, where `home`
    /// is absolute: the music folder below it.
    pub fn in_home(home: &str) -> (root: Option<LibraryRoot>)
        ensures
            match root {
                Some(root) => is_absolute(home@) && root@ == joined(home@, MUSIC_FOLDER@),
                None => !is_absolute(home@),
            },
    {
        if absolute(home) {
            Some(LibraryRoot { path: join(home, MUSIC_FOLDER) })
        } else {
            None
        }
    }

    /// The root directory itself: the directory of the artists.
    pub fn path(&self) -> (path: &str)
        ensures
            path@ == self@,
            is_absolute(path@),
    {
        proof {
            use_type_invariant(self);
        }
        self.path.as_str()
    }

    /// The location of `relative` below the root.
    pub fn locate(&self, relative: &str) -> (path: String)
        ensures
            path@ == joined(self@, relative@),
            is_absolute(path@),
            self@.is_prefix_of(path@),
    {
        proof {
            use_type_invariant(self);
        }
        join(self.path.as_str(), relative)
    }
}

} // verus!
