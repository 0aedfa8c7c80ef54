//! Small enumerations shared across the library: user roles, layout modes
//! and the per-file status recorded by a scan.

use vstd::prelude::*;

verus! {

/// Role of an authenticated user.
#[derive(Debug, Clone, Copy, PartialEq, Eq, Structural)]
pub enum UserRole {
    ServerOwner,
    Member,
}

/// How a client lays out a library view.
#[derive(Debug, Clone, Copy, PartialEq, Eq, Structural)]
pub enum LayoutMode {
    Grid,
    List,
}

/// Status of a media file as recorded by the scanner: exactly one value at a
/// time, written only by the media processor's caller.
#[derive(Debug, Clone, Copy, PartialEq, Eq, Structural)]
pub enum FileStatus {
    Unknown,
    Ready,
    Unsupported,
    Error,
    Missing,
}

/// The canonical wire string of a file status.
pub open spec fn spec_file_status_str(s: FileStatus) -> Seq<char> {
    match s {
        FileStatus::Unknown => "UNKNOWN"@,
        FileStatus::Ready => "READY"@,
        FileStatus::Unsupported => "UNSUPPORTED"@,
        FileStatus::Error => "ERROR"@,
        FileStatus::Missing => "MISSING"@,
    }
}

impl FileStatus {
    /// Canonical wire string of this status.
    pub fn as_str(&self) -> (r: &'static str)
        ensures
            r@ == spec_file_status_str(*self),
    {
        match self {
            FileStatus::Unknown => "UNKNOWN",
            FileStatus::Ready => "READY",
            FileStatus::Unsupported => "UNSUPPORTED",
            FileStatus::Error => "ERROR",
            FileStatus::Missing => "MISSING",
        }
    }

    /// Parse a wire string back into a status; anything but the five
    /// canonical strings is rejected.
    pub fn from_str(s: &str) -> (r: Result<FileStatus, ()>)
        ensures
            match r {
                Ok(st) => s@ == spec_file_status_str(st),
                Err(_) => forall|st: FileStatus| s@ != spec_file_status_str(st),
            },
    {
        if crate::strutil::str_eq(s, "UNKNOWN") {
            Ok(FileStatus::Unknown)
        } else if crate::strutil::str_eq(s, "READY") {
            Ok(FileStatus::Ready)
        } else if crate::strutil::str_eq(s, "UNSUPPORTED") {
            Ok(FileStatus::Unsupported)
        } else if crate::strutil::str_eq(s, "ERROR") {
            Ok(FileStatus::Error)
        } else if crate::strutil::str_eq(s, "MISSING") {
            Ok(FileStatus::Missing)
        } else {
            Err(())
        }
    }
}

/// The five status strings are pairwise distinct, so printing a status and
/// parsing the result gives back exactly the status printed: together with
/// the contracts of [`FileStatus::as_str`] and [`FileStatus::from_str`] this
/// makes the two conversions a round trip.
pub proof fn lemma_file_status_str_injective(a: FileStatus, b: FileStatus)
    requires
        spec_file_status_str(a) == spec_file_status_str(b),
    ensures
        a == b,
{
    reveal_strlit("UNKNOWN");
    reveal_strlit("READY");
    reveal_strlit("UNSUPPORTED");
    reveal_strlit("ERROR");
    reveal_strlit("MISSING");
    let sa = spec_file_status_str(a);
    let sb = spec_file_status_str(b);
    if a != b {
        assert(sa.len() == sb.len());
        assert(sa[0] == sb[0]);
        assert(sa[1] == sb[1]);
        assert(false) by {
            match a {
                FileStatus::Unknown => assert(sa[0] == 'U' && sa.len() == 7),
                FileStatus::Ready => assert(sa[0] == 'R' && sa.len() == 5),
                FileStatus::Unsupported => assert(sa[0] == 'U' && sa.len() == 11),
                FileStatus::Error => assert(sa[0] == 'E' && sa.len() == 5),
                FileStatus::Missing => assert(sa[0] == 'M' && sa.len() == 7),
            }
            match b {
                FileStatus::Unknown => assert(sb[0] == 'U' && sb.len() == 7),
                FileStatus::Ready => assert(sb[0] == 'R' && sb.len() == 5),
                FileStatus::Unsupported => assert(sb[0] == 'U' && sb.len() == 11),
                FileStatus::Error => assert(sb[0] == 'E' && sb.len() == 5),
                FileStatus::Missing => assert(sb[0] == 'M' && sb.len() == 7),
            }
        }
    }
}

/// The canonical wire string of a user role.
pub open spec fn spec_user_role_str(r: UserRole) -> Seq<char> {
    match r {
        UserRole::ServerOwner => "SERVER_OWNER"@,
        UserRole::Member => "MEMBER"@,
    }
}

impl UserRole {
    /// Canonical wire string of this role.
    pub fn as_str(&self) -> (r: &'static str)
        ensures
            r@ == spec_user_role_str(*self),
    {
        match self {
            UserRole::ServerOwner => "SERVER_OWNER",
            UserRole::Member => "MEMBER",
        }
    }
}

impl Default for UserRole {
    /// A user is an ordinary member unless promoted.
    fn default() -> (r: Self)
        ensures
            r == UserRole::Member,
    {
        UserRole::Member
    }
}

/// The canonical wire string of a layout mode.
pub open spec fn spec_layout_mode_str(m: LayoutMode) -> Seq<char> {
    match m {
        LayoutMode::Grid => "GRID"@,
        LayoutMode::List => "LIST"@,
    }
}

impl LayoutMode {
    /// Canonical wire string of this layout mode.
    pub fn as_str(&self) -> (r: &'static str)
        ensures
            r@ == spec_layout_mode_str(*self),
    {
        match self {
            LayoutMode::Grid => "GRID",
            LayoutMode::List => "LIST",
        }
    }
}

} // verus!
