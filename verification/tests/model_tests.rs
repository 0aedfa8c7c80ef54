use stump_core::enums::{FileStatus, LayoutMode, UserRole};
use stump_core::error::{ApiError, ProcessFileError};
use stump_core::models::{
    AuthenticatedUser, Library, Media, Series, SeriesRecord, UserPreferences, UserRecord,
};

#[test]
fn file_status_round_trip() {
    for status in [
        FileStatus::Unknown,
        FileStatus::Ready,
        FileStatus::Unsupported,
        FileStatus::Error,
        FileStatus::Missing,
    ] {
        assert_eq!(FileStatus::from_str(status.as_str()), Ok(status));
    }
    assert_eq!(FileStatus::from_str("BOGUS"), Err(()));
    assert_eq!(FileStatus::Ready.as_str(), "READY");
}

#[test]
fn role_and_layout_strings() {
    assert_eq!(UserRole::ServerOwner.as_str(), "SERVER_OWNER");
    assert_eq!(UserRole::Member.as_str(), "MEMBER");
    assert_eq!(UserRole::default(), UserRole::Member);
    assert_eq!(LayoutMode::Grid.as_str(), "GRID");
    assert_eq!(LayoutMode::List.as_str(), "LIST");
}

#[test]
fn api_error_status_codes() {
    assert_eq!(ApiError::BadRequest("x".into()).status_code(), 400);
    assert_eq!(ApiError::NotFound("x".into()).status_code(), 404);
    assert_eq!(ApiError::InternalServerError("x".into()).status_code(), 500);
    assert_eq!(ApiError::Unauthorized("x".into()).status_code(), 401);
    assert_eq!(ApiError::Forbidden("x".into()).status_code(), 403);
    assert_eq!(ApiError::NotImplemented("x".into()).status_code(), 501);
    assert_eq!(ApiError::ServiceUnavailable("x".into()).status_code(), 503);
    assert_eq!(ApiError::BadGateway("x".into()).status_code(), 502);
    assert_eq!(ApiError::Unknown("x".into()).status_code(), 500);
    assert_eq!(ApiError::Redirect("x".into()).status_code(), 308);
}

#[test]
fn process_file_errors_carry_messages_and_statuses() {
    let unsupported = ProcessFileError::UnsupportedFileType("a.xyz".to_string());
    assert_eq!(unsupported.message(), "Unsupported file type: a.xyz");
    assert!(matches!(unsupported.file_status(), FileStatus::Unsupported));

    let open = ProcessFileError::ArchiveOpenError;
    assert_eq!(open.message(), "Could not open archive");
    assert!(matches!(open.file_status(), FileStatus::Error));

    let api = ApiError::from_process_file_error(&open);
    match api {
        ApiError::InternalServerError(msg) => assert_eq!(msg, "Could not open archive"),
        other => panic!("expected an internal error, got {:?}", other),
    }
}

fn sample_record() -> SeriesRecord {
    SeriesRecord {
        id: "s1".to_string(),
        name: "The Amazing Test-Man".to_string(),
        path: "/media/test-man".to_string(),
        description: None,
        status: "READY".to_string(),
        updated_at: "2022-09-01".to_string(),
        library_id: "l1".to_string(),
        library: Some(Library {
            id: "l1".to_string(),
            name: "Main".to_string(),
            path: "/media".to_string(),
        }),
        media: Some(vec![Media {
            id: "m1".to_string(),
            name: "Issue 1".to_string(),
            path: "/media/test-man/001.cbz".to_string(),
            checksum: None,
            status: FileStatus::Ready,
            pages: 20,
        }]),
        tags: None,
    }
}

#[test]
fn series_from_record_parses_status_and_counts_media() {
    let series = Series::from_record(sample_record());
    assert!(matches!(series.status, FileStatus::Ready));
    assert_eq!(series.media_count, Some(1));
    assert_eq!(series.library_id, "l1");
}

#[test]
fn series_from_record_falls_back_to_error_status() {
    let mut record = sample_record();
    record.status = "WHAT".to_string();
    let series = Series::from_record(record);
    assert!(matches!(series.status, FileStatus::Error));
}

#[test]
fn without_media_drops_the_relation() {
    let series = Series::from_record(sample_record());
    let slim = Series::without_media(series.clone(), 42);
    assert_eq!(slim.media, None);
    assert_eq!(slim.media_count, Some(42));
    assert_eq!(slim.id, series.id);
    assert_eq!(slim.name, series.name);
}

#[test]
fn set_media_count_updates_only_the_count() {
    let mut series = Series::from_record(sample_record());
    let name = series.name.clone();
    series.set_media_count(9);
    assert_eq!(series.media_count, Some(9));
    assert_eq!(series.name, name);
}

#[test]
fn authenticated_user_from_record() {
    let user = AuthenticatedUser::from_record(UserRecord {
        id: "u1".to_string(),
        username: "oromei".to_string(),
        role: "SERVER_OWNER".to_string(),
        user_preferences: Some(UserPreferences {
            id: "p1".to_string(),
            locale: "en".to_string(),
            library_layout_mode: LayoutMode::Grid,
        }),
    });
    assert_eq!(user.username, "oromei");
    assert!(user.is_server_owner());

    let member = AuthenticatedUser::from_record(UserRecord {
        id: "u2".to_string(),
        username: "guest".to_string(),
        role: "MEMBER".to_string(),
        user_preferences: Some(UserPreferences {
            id: "p2".to_string(),
            locale: "en".to_string(),
            library_layout_mode: LayoutMode::List,
        }),
    });
    assert!(!member.is_server_owner());
}
