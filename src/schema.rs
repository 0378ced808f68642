//! The records exchanged with the remote metadata service.

use vstd::prelude::*;

verus! {

/// What a tracked entry is.
#[allow(non_camel_case_types)]
#[derive(Clone, Copy, Debug, PartialEq, Eq, Structural)]
pub enum FileType {
    FILE,
    DIRECTORY,
}

/// Where a tracked entry stands in its lifecycle: `OPEN` until its content is
/// confirmed, `CLOSED` after.
#[allow(non_camel_case_types)]
#[derive(Clone, Copy, Debug, PartialEq, Eq, Structural)]
pub enum FileStatus {
    OPEN,
    CLOSED,
}

/// The literal that stands for a kind on the wire.
pub open spec fn file_type_text(t: FileType) -> Seq<char> {
    match t {
        FileType::FILE => seq!['F', 'I', 'L', 'E'],
        FileType::DIRECTORY => seq!['D', 'I', 'R', 'E', 'C', 'T', 'O', 'R', 'Y'],
    }
}

/// The literal that stands for a status on the wire.
pub open spec fn file_status_text(s: FileStatus) -> Seq<char> {
    match s {
        FileStatus::OPEN => seq!['O', 'P', 'E', 'N'],
        FileStatus::CLOSED => seq!['C', 'L', 'O', 'S', 'E', 'D'],
    }
}

impl FileType {
    /// The wire literal of this kind.
    pub fn to_text(&self) -> (r: String)
        ensures
            r@ == file_type_text(*self),
    {
        proof {
            reveal_strlit("FILE");
            reveal_strlit("DIRECTORY");
        }
        match self {
            FileType::FILE => "FILE".to_owned(),
            FileType::DIRECTORY => "DIRECTORY".to_owned(),
        }
    }

    /// Reads a kind from its wire literal; any other text is refused.
    pub fn parse(s: &String) -> (r: Option<FileType>)
        ensures
            r matches Some(t) ==> file_type_text(t) == s@,
            r is None <==> (s@ != file_type_text(FileType::FILE) && s@ != file_type_text(
                FileType::DIRECTORY,
            )),
    {
        let file = FileType::FILE.to_text();
        let dir = FileType::DIRECTORY.to_text();
        if *s == file {
            Some(FileType::FILE)
        } else if *s == dir {
            Some(FileType::DIRECTORY)
        } else {
            None
        }
    }
}

impl FileStatus {
    /// The wire literal of this status.
    pub fn to_text(&self) -> (r: String)
        ensures
            r@ == file_status_text(*self),
    {
        proof {
            reveal_strlit("OPEN");
            reveal_strlit("CLOSED");
        }
        match self {
            FileStatus::OPEN => "OPEN".to_owned(),
            FileStatus::CLOSED => "CLOSED".to_owned(),
        }
    }

    /// Reads a status from its wire literal; any other text is refused.
    pub fn parse(s: &String) -> (r: Option<FileStatus>)
        ensures
            r matches Some(t) ==> file_status_text(t) == s@,
            r is None <==> (s@ != file_status_text(FileStatus::OPEN) && s@ != file_status_text(
                FileStatus::CLOSED,
            )),
    {
        let open = FileStatus::OPEN.to_text();
        let closed = FileStatus::CLOSED.to_text();
        if *s == open {
            Some(FileStatus::OPEN)
        } else if *s == closed {
            Some(FileStatus::CLOSED)
        } else {
            None
        }
    }
}

/// A tracked entry as the remote service reports it. Identifiers are 128-bit
/// values, instants are milliseconds since the Unix epoch.
#[derive(Clone, Debug)]
pub struct FileResponse {
    pub id: u128,
    pub name: String,
    pub directory: String,
    pub file_type: FileType,
    pub status: FileStatus,
    /// A time-limited read destination for the content.
    pub presigned_url: Option<String>,
    /// A time-limited write destination for the content, given right after a
    /// file is registered.
    pub upload_presigned_url: Option<String>,
    pub created_at: i64,
    pub modified_at: i64,
}

/// The body of a registration: a new entry is always `OPEN`.
#[derive(Clone, Debug)]
pub struct FileCreateRequest {
    pub name: String,
    pub directory: String,
    pub file_type: FileType,
    pub status: FileStatus,
}

/// The body of an update of a registered entry.
#[derive(Clone, Debug)]
pub struct FileUpdateRequest {
    pub name: String,
    pub directory: String,
    pub file_type: FileType,
    pub status: FileStatus,
    pub created_at: i64,
    pub modified_at: i64,
}

impl FileResponse {
    /// Builds a record from the fields of a reply, whose kind and status come as
    /// text. A kind or a status that is not one of the wire literals makes the
    /// reply malformed, and nothing is built.
    pub fn from_wire(
        id: u128,
        name: String,
        directory: String,
        file_type: &String,
        status: &String,
        presigned_url: Option<String>,
        upload_presigned_url: Option<String>,
        created_at: i64,
        modified_at: i64,
    ) -> (r: Option<FileResponse>)
        ensures
            r is Some <==> (exists|t: FileType, s: FileStatus|
                file_type_text(t) == file_type@ && file_status_text(s) == status@),
            r matches Some(rec) ==> {
                &&& rec.id == id
                &&& rec.name@ == name@
                &&& rec.directory@ == directory@
                &&& file_type_text(rec.file_type) == file_type@
                &&& file_status_text(rec.status) == status@
                &&& rec.presigned_url == presigned_url
                &&& rec.upload_presigned_url == upload_presigned_url
                &&& rec.created_at == created_at
                &&& rec.modified_at == modified_at
            },
    {
        let t = FileType::parse(file_type);
        let s = FileStatus::parse(status);
        match (t, s) {
            (Some(t), Some(s)) => Some(
                FileResponse {
                    id,
                    name,
                    directory,
                    file_type: t,
                    status: s,
                    presigned_url,
                    upload_presigned_url,
                    created_at,
                    modified_at,
                },
            ),
            _ => {
                proof {
                    if t is None {
                        assert forall|t2: FileType, s2: FileStatus|
                            !(file_type_text(t2) == file_type@ && file_status_text(s2) == status@) by {
                            match t2 {
                                FileType::FILE => {},
                                FileType::DIRECTORY => {},
                            }
                        }
                    } else {
                        assert forall|t2: FileType, s2: FileStatus|
                            !(file_type_text(t2) == file_type@ && file_status_text(s2) == status@) by {
                            match s2 {
                                FileStatus::OPEN => {},
                                FileStatus::CLOSED => {},
                            }
                        }
                    }
                }
                None
            },
        }
    }
}

} // verus!
