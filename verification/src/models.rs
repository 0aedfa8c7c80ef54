//! Data model: series, media, tags and user-facing types, together with the
//! conversions from the plain records the persistence collaborator hands
//! back.
//!
//! A record struct carries exactly what the store returns — relations are
//! `None` when they were not fetched — and the conversion into the public
//! model is verified field by field.

use vstd::prelude::*;
use crate::enums::{FileStatus, LayoutMode, UserRole};

verus! {

/// A user-assigned tag.
#[derive(Debug, Clone, PartialEq, Eq)]
pub struct Tag {
    pub id: String,
    /// The name of the tag. ex: "comic"
    pub name: String,
}

/// A library root registered with the server.
#[derive(Debug, Clone, PartialEq, Eq)]
pub struct Library {
    pub id: String,
    pub name: String,
    /// Filesystem path of the library root.
    pub path: String,
}

/// One media file tracked by the server.
#[derive(Debug, Clone, PartialEq, Eq)]
pub struct Media {
    pub id: String,
    pub name: String,
    /// Filesystem path of the archive.
    pub path: String,
    /// Content fingerprint, absent when sampling failed.
    pub checksum: Option<String>,
    /// Status recorded by the last scan that saw this file.
    pub status: FileStatus,
    /// Number of pages the extractor counted.
    pub pages: u32,
}

/// A series: one directory of media inside a library.
#[derive(Debug, Clone, PartialEq, Eq)]
pub struct Series {
    pub id: String,
    /// The name of the series. ex: "The Amazing Spider-Man (2018)"
    pub name: String,
    /// The path to the series.
    pub path: String,
    /// The description of the series.
    pub description: Option<String>,
    /// The status of the series since last scan or access.
    pub status: FileStatus,
    pub updated_at: String,
    /// The ID of the library this series belongs to.
    pub library_id: String,
    /// The library this series belongs to; `None` when not loaded.
    pub library: Option<Library>,
    /// The media in this series; `None` when the relation is not loaded.
    pub media: Option<Vec<Media>>,
    /// The number of media in this series.
    pub media_count: Option<i64>,
    /// The user-assigned tags; `None` when the relation is not loaded.
    pub tags: Option<Vec<Tag>>,
}

/// What the store returns for one series row: the relations are present only
/// when they were fetched with the row.
pub struct SeriesRecord {
    pub id: String,
    pub name: String,
    pub path: String,
    pub description: Option<String>,
    /// Wire string of the series status.
    pub status: String,
    pub updated_at: String,
    pub library_id: String,
    pub library: Option<Library>,
    pub media: Option<Vec<Media>>,
    pub tags: Option<Vec<Tag>>,
}

/// Parsing of a stored status string, falling back to an errored status for
/// anything unrecognised.
pub open spec fn spec_status_or_error(s: Seq<char>) -> FileStatus {
    if s == spec_file_status_str(FileStatus::Unknown) {
        FileStatus::Unknown
    } else if s == spec_file_status_str(FileStatus::Ready) {
        FileStatus::Ready
    } else if s == spec_file_status_str(FileStatus::Unsupported) {
        FileStatus::Unsupported
    } else if s == spec_file_status_str(FileStatus::Missing) {
        FileStatus::Missing
    } else {
        FileStatus::Error
    }
}

use crate::enums::spec_file_status_str;

impl Series {
    /// Build the public model from a stored row. The status string is parsed
    /// with an errored fallback; the media count is taken from the loaded
    /// media relation when there is one.
    pub fn from_record(record: SeriesRecord) -> (r: Series)
        requires
            match record.media {
                Some(m) => m@.len() <= i64::MAX,
                None => true,
            },
        ensures
            r.id == record.id,
            r.name == record.name,
            r.path == record.path,
            r.description == record.description,
            r.status == spec_status_or_error(record.status@),
            r.updated_at == record.updated_at,
            r.library_id == record.library_id,
            r.library == record.library,
            r.media == record.media,
            match (record.media, r.media_count) {
                (Some(m), Some(n)) => n == m@.len(),
                (None, None) => true,
                _ => false,
            },
            r.tags == record.tags,
    {
        let status = match FileStatus::from_str(record.status.as_str()) {
            Ok(st) => st,
            Err(_) => FileStatus::Error,
        };
        proof {
            let s = record.status@;
            if s == spec_file_status_str(status) {
                if s == spec_file_status_str(FileStatus::Unknown) {
                    crate::enums::lemma_file_status_str_injective(status, FileStatus::Unknown);
                } else if s == spec_file_status_str(FileStatus::Ready) {
                    crate::enums::lemma_file_status_str_injective(status, FileStatus::Ready);
                } else if s == spec_file_status_str(FileStatus::Unsupported) {
                    crate::enums::lemma_file_status_str_injective(status, FileStatus::Unsupported);
                } else if s == spec_file_status_str(FileStatus::Missing) {
                    crate::enums::lemma_file_status_str_injective(status, FileStatus::Missing);
                }
            }
        }
        let media_count: Option<i64> = match &record.media {
            Some(m) => Some(m.len() as i64),
            None => None,
        };
        Series {
            id: record.id,
            name: record.name,
            path: record.path,
            description: record.description,
            status,
            updated_at: record.updated_at,
            library_id: record.library_id,
            library: record.library,
            media: record.media,
            media_count,
            tags: record.tags,
        }
    }

    /// Drop the loaded media relation, keeping only the given count.
    pub fn without_media(series: Series, media_count: i64) -> (r: Series)
        ensures
            r.media is None,
            r.media_count == Some(media_count),
            r.id == series.id,
            r.name == series.name,
            r.path == series.path,
            r.description == series.description,
            r.status == series.status,
            r.updated_at == series.updated_at,
            r.library_id == series.library_id,
            r.library == series.library,
            r.tags == series.tags,
    {
        Series { media: None, media_count: Some(media_count), ..series }
    }

    /// Record how many media this series holds.
    pub fn set_media_count(&mut self, count: i64)
        ensures
            final(self).media_count == Some(count),
            final(self).id == old(self).id,
            final(self).name == old(self).name,
            final(self).path == old(self).path,
            final(self).description == old(self).description,
            final(self).status == old(self).status,
            final(self).updated_at == old(self).updated_at,
            final(self).library_id == old(self).library_id,
            final(self).library == old(self).library,
            final(self).media == old(self).media,
            final(self).tags == old(self).tags,
    {
        self.media_count = Some(count);
    }
}

/// The fields written back to a media row after one `process` call.
#[derive(Debug, Clone, PartialEq, Eq)]
pub struct MediaUpdate {
    pub id: String,
    pub checksum: Option<String>,
    pub status: FileStatus,
    pub metadata: Option<crate::comic_info::MediaMetadata>,
    pub pages: usize,
}

/// What the store is asked to write for one processed file: a success
/// records the processing result under a ready status; a failure records
/// only the error's status — absent checksum and metadata are valid states,
/// never a crash.
pub fn update_media(
    id: String,
    outcome: Result<crate::media_file::ProcessedMediaFile, crate::error::ProcessFileError>,
) -> (r: MediaUpdate)
    ensures
        r.id == id,
        match outcome {
            Ok(p) => {
                &&& r.checksum == p.checksum
                &&& r.status == FileStatus::Ready
                &&& r.metadata == p.metadata
                &&& r.pages == p.pages
            },
            Err(e) => {
                &&& r.checksum is None
                &&& r.status == crate::error::spec_status_of_error(e)
                &&& r.metadata is None
                &&& r.pages == 0
            },
        },
{
    match outcome {
        Ok(p) => MediaUpdate {
            id,
            checksum: p.checksum,
            status: FileStatus::Ready,
            metadata: p.metadata,
            pages: p.pages,
        },
        Err(e) => MediaUpdate {
            id,
            checksum: None,
            status: e.file_status(),
            metadata: None,
            pages: 0,
        },
    }
}

/// Client-side preferences of one user.
#[derive(Debug, Clone, PartialEq, Eq)]
pub struct UserPreferences {
    pub id: String,
    pub locale: String,
    pub library_layout_mode: LayoutMode,
}

/// A logged-in user as the serving layer sees it.
#[derive(Debug, Clone, PartialEq, Eq)]
pub struct AuthenticatedUser {
    pub id: String,
    pub username: String,
    pub role: String,
    pub user_preferences: UserPreferences,
}

/// What the store returns for one user row.
pub struct UserRecord {
    pub id: String,
    pub username: String,
    pub role: String,
    /// Present only when the preferences relation was fetched.
    pub user_preferences: Option<UserPreferences>,
}

impl AuthenticatedUser {
    /// Build the serving-layer view of a user. Every stored user owns
    /// preferences, so the caller must have fetched them.
    pub fn from_record(record: UserRecord) -> (r: AuthenticatedUser)
        requires
            record.user_preferences is Some,
        ensures
            r.id == record.id,
            r.username == record.username,
            r.role == record.role,
            Some(r.user_preferences) == record.user_preferences,
    {
        let user_preferences = match record.user_preferences {
            Some(p) => p,
            None => {
                proof {
                    assert(false);
                }
                UserPreferences {
                    id: String::new(),
                    locale: String::new(),
                    library_layout_mode: LayoutMode::Grid,
                }
            },
        };
        AuthenticatedUser {
            id: record.id,
            username: record.username,
            role: record.role,
            user_preferences,
        }
    }

    /// Whether this user is the server owner.
    pub fn is_server_owner(&self) -> (r: bool)
        ensures
            r == (self.role@ == crate::enums::spec_user_role_str(UserRole::ServerOwner)),
    {
        crate::strutil::str_eq(self.role.as_str(), "SERVER_OWNER")
    }
}

/// Credentials decoded from an authorization header.
#[derive(Debug)]
pub struct DecodedCredentials {
    pub username: String,
    pub password: String,
}

/// Body of a login request.
pub struct LoginRequest {
    pub username: String,
    pub password: String,
}

} // verus!
