use music_browser::scanner::{scan, IoError};

fn read(names: &[&str]) -> Result<Vec<Option<String>>, IoError> {
    Ok(names.iter().map(|name| Some(name.to_string())).collect())
}

fn names_of(result: Result<music_browser::listing::Listing, IoError>) -> Vec<String> {
    match result {
        Ok(listing) => listing.names().clone(),
        Err(error) => panic!("the scan failed: {:?}", error),
    }
}

#[test]
fn scan_sorts_and_hides() {
    assert_eq!(names_of(scan(read(&[".cache", "Bowie", "ABBA"]))), vec!["ABBA", "Bowie"]);
}

#[test]
fn scan_of_an_empty_directory_lists_nothing() {
    assert_eq!(names_of(scan(read(&[]))), Vec::<String>::new());
}

#[test]
fn scan_skips_unreadable_names() {
    let entries = vec![Some("b".to_string()), None, Some("a".to_string())];
    assert_eq!(names_of(scan(Ok(entries))), vec!["a", "b"]);
}

#[test]
fn scan_of_a_missing_path_fails() {
    match scan(Err(IoError::Missing)) {
        Err(error) => assert_eq!(error, IoError::Missing),
        Ok(_) => panic!("a listing of a missing path"),
    }
}

#[test]
fn scan_without_permission_fails() {
    match scan(Err(IoError::PermissionDenied)) {
        Err(error) => assert_eq!(error, IoError::PermissionDenied),
        Ok(_) => panic!("a listing without permission"),
    }
}

#[test]
fn scan_of_an_unreadable_directory_fails() {
    match scan(Err(IoError::Unreadable)) {
        Err(error) => assert_eq!(error, IoError::Unreadable),
        Ok(_) => panic!("a listing of an unreadable directory"),
    }
}

#[test]
fn scan_twice_gives_the_same_listing() {
    let first = names_of(scan(read(&["Voulez-Vous", "Arrival", ".lock", "Waterloo"])));
    let second = names_of(scan(read(&["Waterloo", ".lock", "Voulez-Vous", "Arrival"])));
    assert_eq!(first, vec!["Arrival", "Voulez-Vous", "Waterloo"]);
    assert_eq!(first, second);
}

#[test]
fn io_errors_have_their_notices() {
    assert_eq!(IoError::Missing.message(), "no such directory");
    assert_eq!(IoError::PermissionDenied.message(), "permission denied");
    assert_eq!(IoError::Unreadable.message(), "directory cannot be read");
}
