use gmpublisher_core::datadir::{
    occupied_message, DataDirError, DataDirReply, DataDirRequest, DataDirSearch, PathKind,
    DATA_DIR_NAME,
};

const HOME: &str = "/home/user/.gmpublisher";
const CWD: &str = "/work/.gmpublisher";

fn inspect(path: &str) -> DataDirRequest {
    DataDirRequest::Inspect { path: path.to_string() }
}

fn create(path: &str) -> DataDirRequest {
    DataDirRequest::Create { path: path.to_string() }
}

#[test]
fn file_in_place_of_the_home_directory_is_fatal() {
    let search = DataDirSearch::start(Some(HOME.to_string()));
    assert_eq!(search.request(), inspect(HOME));
    let search = search.advance(DataDirReply::Kind(PathKind::File));
    assert_eq!(search.request(), DataDirRequest::Finish);
    assert_eq!(
        search.outcome(),
        Some(Err(DataDirError::Occupied { path: HOME.to_string() }))
    );
}

#[test]
fn a_failed_search_cannot_be_tried_again() {
    let failed = DataDirSearch::start(Some(HOME.to_string()))
        .advance(DataDirReply::Kind(PathKind::File));
    let again = failed.advance(DataDirReply::Kind(PathKind::Directory));
    assert_eq!(
        again,
        DataDirSearch::Failed { error: DataDirError::Occupied { path: HOME.to_string() } }
    );
    let again = again.advance(DataDirReply::Created(Ok(())));
    assert_eq!(
        again.outcome(),
        Some(Err(DataDirError::Occupied { path: HOME.to_string() }))
    );
}

#[test]
fn existing_home_directory_is_used() {
    let search = DataDirSearch::start(Some(HOME.to_string()))
        .advance(DataDirReply::Kind(PathKind::Directory));
    assert_eq!(search.request(), DataDirRequest::Finish);
    assert_eq!(search.outcome(), Some(Ok(HOME.to_string())));
}

#[test]
fn absent_home_directory_is_created() {
    let search = DataDirSearch::start(Some(HOME.to_string()))
        .advance(DataDirReply::Kind(PathKind::Missing));
    assert_eq!(search.request(), create(HOME));
    let search = search.advance(DataDirReply::Created(Ok(())));
    assert_eq!(search.outcome(), Some(Ok(HOME.to_string())));
}

#[test]
fn without_a_home_the_working_directory_is_used() {
    let search = DataDirSearch::start(None);
    assert_eq!(search.request(), DataDirRequest::WorkingDir);
    let search = search.advance(DataDirReply::WorkingDir(Ok(CWD.to_string())));
    assert_eq!(search.request(), inspect(CWD));
    let search = search.advance(DataDirReply::Kind(PathKind::Directory));
    assert_eq!(search.outcome(), Some(Ok(CWD.to_string())));
}

#[test]
fn home_that_cannot_be_created_falls_back_to_the_working_directory() {
    let search = DataDirSearch::start(Some(HOME.to_string()))
        .advance(DataDirReply::Kind(PathKind::Missing))
        .advance(DataDirReply::Created(Err("Permission denied".to_string())));
    assert_eq!(search.request(), DataDirRequest::WorkingDir);
    let search = search
        .advance(DataDirReply::WorkingDir(Ok(CWD.to_string())))
        .advance(DataDirReply::Kind(PathKind::Missing));
    assert_eq!(search.request(), create(CWD));
    let search = search.advance(DataDirReply::Created(Ok(())));
    assert_eq!(search.outcome(), Some(Ok(CWD.to_string())));
}

#[test]
fn file_in_place_of_the_working_directory_candidate_is_fatal() {
    let search = DataDirSearch::start(None)
        .advance(DataDirReply::WorkingDir(Ok(CWD.to_string())))
        .advance(DataDirReply::Kind(PathKind::File));
    assert_eq!(
        search.outcome(),
        Some(Err(DataDirError::Occupied { path: CWD.to_string() }))
    );
}

#[test]
fn unknown_working_directory_fails_the_search() {
    let search = DataDirSearch::start(None)
        .advance(DataDirReply::WorkingDir(Err("No such file or directory".to_string())));
    assert_eq!(
        search.outcome(),
        Some(Err(DataDirError::NoWorkingDir { reason: "No such file or directory".to_string() }))
    );
}

#[test]
fn working_directory_candidate_that_cannot_be_created_fails_the_search() {
    let search = DataDirSearch::start(None)
        .advance(DataDirReply::WorkingDir(Ok(CWD.to_string())))
        .advance(DataDirReply::Kind(PathKind::Missing))
        .advance(DataDirReply::Created(Err("Read-only file system".to_string())));
    assert_eq!(
        search.outcome(),
        Some(Err(DataDirError::CreateFailed {
            path: CWD.to_string(),
            reason: "Read-only file system".to_string(),
        }))
    );
}

#[test]
fn a_reply_to_another_request_changes_nothing() {
    let search = DataDirSearch::start(Some(HOME.to_string()))
        .advance(DataDirReply::Created(Ok(())));
    assert_eq!(search, DataDirSearch::Home { candidate: HOME.to_string() });
    let search = search.advance(DataDirReply::WorkingDir(Ok(CWD.to_string())));
    assert_eq!(search, DataDirSearch::Home { candidate: HOME.to_string() });
    assert_eq!(search.outcome(), None);
}

#[test]
fn occupied_message_quotes_the_path() {
    let error = DataDirError::Occupied { path: HOME.to_string() };
    assert_eq!(
        error.message(),
        "This file is present on your system, and shouldn't be: \"/home/user/.gmpublisher\""
    );
    let error = DataDirError::Occupied { path: "C:\\Users\\u\\.gmpublisher".to_string() };
    assert_eq!(
        error.message(),
        "This file is present on your system, and shouldn't be: \"C:\\\\Users\\\\u\\\\.gmpublisher\""
    );
}

#[test]
fn other_messages_are_the_reason_given() {
    let error = DataDirError::NoWorkingDir { reason: "No such file or directory".to_string() };
    assert_eq!(error.message(), "No such file or directory");
    let error = DataDirError::CreateFailed {
        path: CWD.to_string(),
        reason: "Read-only file system".to_string(),
    };
    assert_eq!(error.message(), "Read-only file system");
}

#[test]
fn occupied_message_puts_the_quoted_path_last() {
    assert_eq!(
        occupied_message("\"/x\""),
        "This file is present on your system, and shouldn't be: \"/x\""
    );
    assert_eq!(
        occupied_message(""),
        "This file is present on your system, and shouldn't be: "
    );
}

#[test]
fn data_directory_name() {
    assert_eq!(DATA_DIR_NAME, ".gmpublisher");
}
