use doup::database::models::uploads::{expiration_for, Uploads, UPLOAD_WINDOW_SECS};
use doup::file_type::FileType;
use doup::routes::get_upload::upload_destination_path;
use doup::routes::give_upload::stored_file_path;
use doup::utils::files::{verify_file, FileVerdict};

const ID: u128 = 0xa1a2a3a4b1b2c1c2d1d2d3d4d5d6d7d8;
const ID_TEXT: &str = "a1a2a3a4-b1b2-c1c2-d1d2-d3d4d5d6d7d8";

#[test]
fn slots_last_ten_minutes() {
    assert_eq!(UPLOAD_WINDOW_SECS, 600);
    assert_eq!(expiration_for(1_700_000_000), 1_700_000_600);
}

#[test]
fn a_slot_takes_a_file_until_it_expires() {
    let row = Uploads { uuid: ID, expiration: expiration_for(1_000), getted: false };
    assert!(row.accepts_file_at(1_000));
    assert!(row.accepts_file_at(1_600));
    assert!(!row.expired_at(1_600));
    assert!(!row.accepts_file_at(1_601));
    assert!(row.expired_at(1_601));
}

#[test]
fn a_filled_slot_takes_no_file() {
    let row = Uploads { uuid: ID, expiration: 2_000, getted: true };
    assert!(!row.accepts_file_at(1_000));
    assert!(!row.expired_at(1_000));
}

#[test]
fn only_archives_pass_verification() {
    let zip = Some(FileType { is_archive: true, mime_type: "application/zip".to_string() });
    let png = Some(FileType { is_archive: false, mime_type: "image/png".to_string() });
    assert!(verify_file(&zip) == FileVerdict::Archive);
    assert!(verify_file(&png) == FileVerdict::NotArchive);
    assert!(verify_file(&None) == FileVerdict::Unknown);
}

#[test]
fn stored_file_is_named_after_the_slot() {
    assert_eq!(stored_file_path(ID), format!("apps/files/{ID_TEXT}"));
}

#[test]
fn received_file_is_named_after_the_slot() {
    assert_eq!(upload_destination_path(&None, ID), format!("apps/files/{ID_TEXT}"));
    assert_eq!(upload_destination_path(&Some("report.zip".to_string()), ID), format!("apps/files/{ID_TEXT}"));
}

#[test]
fn received_file_keeps_the_directories_of_its_name() {
    assert_eq!(
        upload_destination_path(&Some("nested/dir/report.zip".to_string()), ID),
        format!("apps/files/nested/dir/{ID_TEXT}")
    );
    assert_eq!(upload_destination_path(&Some("/tmp/report.zip".to_string()), ID), format!("/tmp/{ID_TEXT}"));
}
