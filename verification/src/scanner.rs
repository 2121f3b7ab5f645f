//! The library scanner: from what a directory read yielded to a listing.

use crate::listing::{entries_of, is_listing, listing_of, visible_names, Listing};
use vstd::prelude::*;

verus! {

/// Why a directory could not be read.
#[derive(Clone, Copy, Debug, PartialEq, Eq, Structural)]
pub enum IoError {
    /// The path does not exist.
    Missing,
    /// The directory exists but may not be read.
    PermissionDenied,
    /// The directory could not be read for any other reason.
    Unreadable,
}

impl IoError {
    /// The notice shown for this error.
    pub fn message(&self) -> (text: &'static str)
        ensures
            text@ == match *self {
                IoError::Missing => "no such directory"@,
                IoError::PermissionDenied => "permission denied"@,
                IoError::Unreadable => "directory cannot be read"@,
            },
    {
        match self {
            IoError::Missing => "no such directory",
            IoError::PermissionDenied => "permission denied",
            IoError::Unreadable => "directory cannot be read",
        }
    }
}

/// The listing of a directory, given the outcome of reading its immediate
/// entries: the visible names in ascending order, or the error of the read.
pub fn scan(read: Result<Vec<Option<String>>, IoError>) -> (result: Result<Listing, IoError>)
    ensures
        match read {
            Ok(entries) => result matches Ok(listing) && {
                &&& listing@ == listing_of(entries_of(entries@))
                &&& is_listing(listing@)
                &&& listing@.to_multiset() == visible_names(entries_of(entries@)).to_multiset()
            },
            Err(error) => result matches Err(e) && e == error,
        },
{
    match read {
        Ok(entries) => Ok(Listing::from_entries(entries)),
        Err(error) => Err(error),
    }
}

} // verus!
