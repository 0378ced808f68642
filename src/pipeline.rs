//! The upload pipeline: the protocol that takes one local entry to the remote
//! service. A directory is registered, and that is all. A file is registered,
//! its content is written to the destination the registration returned, and the
//! entry is then marked `CLOSED`. Each phase waits for the previous one to
//! succeed; any failure ends the run without a record, so that the path stays
//! due and is tried again, from the start, on a later scan.

use vstd::prelude::*;
use crate::paths::{name_of, name_spec, parent_of, parent_spec};
use crate::remote::{file_endpoint, file_path, files_endpoint, files_path};
use crate::schema::{FileCreateRequest, FileResponse, FileStatus, FileType, FileUpdateRequest};

verus! {

/// Where a run of the pipeline stands.
#[derive(Clone, Copy, Debug, PartialEq, Eq, Structural)]
pub enum Phase {
    /// The entry is to be registered.
    Create,
    /// The file's content is to be written.
    Transfer,
    /// The entry is to be marked `CLOSED`.
    Finalize,
    /// Every phase succeeded.
    Succeeded,
    /// A phase failed; nothing is left to do.
    Failed,
}

/// A call that the pipeline asks for.
#[derive(Clone, Debug)]
pub enum Request {
    /// Post `body` to `endpoint` to register the entry.
    Create { endpoint: String, body: FileCreateRequest },
    /// Write the whole content of the file at `path` to `target`.
    Transfer { target: String, path: String },
    /// Put `body` to `endpoint` to update the entry.
    Update { endpoint: String, body: FileUpdateRequest },
}

/// How a requested call went.
#[derive(Clone, Debug)]
pub enum Reply {
    /// The registration's record, or `None` when the call failed or its reply
    /// could not be read.
    Created(Option<FileResponse>),
    /// Whether the content was accepted.
    Transferred(bool),
    /// Whether the update was accepted and its reply could be read.
    Updated(bool),
}

/// One run of the pipeline for one path.
pub struct UploadPipeline {
    path: String,
    kind: FileType,
    phase: Phase,
    created: Option<FileResponse>,
}

/// The phase and the registration record after `reply` comes in.
pub open spec fn advance_spec(
    kind: FileType,
    phase: Phase,
    created: Option<FileResponse>,
    reply: Reply,
) -> (Phase, Option<FileResponse>) {
    match (phase, reply) {
        (Phase::Create, Reply::Created(Some(rec))) => {
            if kind == FileType::DIRECTORY {
                (Phase::Succeeded, Some(rec))
            } else if rec.upload_presigned_url is Some {
                (Phase::Transfer, Some(rec))
            } else {
                (Phase::Failed, created)
            }
        },
        (Phase::Transfer, Reply::Transferred(true)) => (Phase::Finalize, created),
        (Phase::Finalize, Reply::Updated(true)) => (Phase::Succeeded, created),
        (Phase::Succeeded, _) => (Phase::Succeeded, created),
        _ => (Phase::Failed, created),
    }
}

/// A file whose content transfer fails ends its run as failed, and so leaves
/// no record for the index; neither does a failed registration or a failed
/// finalisation.
pub proof fn lemma_failure_leaves_no_record(kind: FileType, created: Option<FileResponse>)
    ensures
        advance_spec(kind, Phase::Create, created, Reply::Created(None)).0 == Phase::Failed,
        advance_spec(kind, Phase::Transfer, created, Reply::Transferred(false)).0 == Phase::Failed,
        advance_spec(kind, Phase::Finalize, created, Reply::Updated(false)).0 == Phase::Failed,
        advance_spec(kind, Phase::Failed, created, Reply::Transferred(true)).0 == Phase::Failed,
{
}

impl UploadPipeline {
    pub closed spec fn path_spec(&self) -> Seq<char> {
        self.path@
    }

    pub closed spec fn kind_spec(&self) -> FileType {
        self.kind
    }

    pub closed spec fn phase_spec(&self) -> Phase {
        self.phase
    }

    /// The record of the registration, once it succeeded.
    pub closed spec fn created_spec(&self) -> Option<FileResponse> {
        self.created
    }

    /// A file past its registration holds a record with a write destination.
    pub closed spec fn wf(&self) -> bool {
        &&& (self.phase == Phase::Transfer || self.phase == Phase::Finalize) ==> {
            &&& self.kind == FileType::FILE
            &&& self.created matches Some(rec)
            &&& rec.upload_presigned_url is Some
        }
        &&& self.phase == Phase::Succeeded ==> self.created is Some
    }

    /// A run for the entry at `path`, not started.
    pub fn new(path: String, kind: FileType) -> (r: UploadPipeline)
        ensures
            r.wf(),
            r.path_spec() == path@,
            r.kind_spec() == kind,
            r.phase_spec() == Phase::Create,
            r.created_spec() is None,
    {
        UploadPipeline { path, kind, phase: Phase::Create, created: None }
    }

    /// Where the run stands.
    pub fn phase(&self) -> (r: Phase)
        ensures
            r == self.phase_spec(),
    {
        self.phase
    }

    /// The call to make now, or `None` once the run has ended.
    pub fn next_request(&self) -> (r: Option<Request>)
        requires
            self.wf(),
        ensures
            self.phase_spec() == Phase::Create <==> r matches Some(Request::Create { .. }),
            self.phase_spec() == Phase::Transfer <==> r matches Some(Request::Transfer { .. }),
            self.phase_spec() == Phase::Finalize <==> r matches Some(Request::Update { .. }),
            r matches Some(Request::Create { endpoint, body }) ==> {
                &&& endpoint@ == files_path()
                &&& body.name@ == name_spec(self.path_spec())
                &&& body.directory@ == parent_spec(self.path_spec())
                &&& body.file_type == self.kind_spec()
                &&& body.status == FileStatus::OPEN
            },
            r matches Some(Request::Transfer { target, path }) ==> {
                &&& Some(target) == self.created_spec()->0.upload_presigned_url
                &&& path@ == self.path_spec()
            },
            r matches Some(Request::Update { endpoint, body }) ==> {
                let rec = self.created_spec()->0;
                &&& endpoint@ == file_path(rec.id)
                &&& body.name@ == rec.name@
                &&& body.directory@ == rec.directory@
                &&& body.file_type == FileType::FILE
                &&& body.status == FileStatus::CLOSED
                &&& body.created_at == rec.created_at
                &&& body.modified_at == rec.modified_at
            },
    {
        match self.phase {
            Phase::Create => {
                let body = FileCreateRequest {
                    name: name_of(&self.path),
                    directory: parent_of(&self.path),
                    file_type: self.kind,
                    status: FileStatus::OPEN,
                };
                Some(Request::Create { endpoint: files_endpoint(), body })
            },
            Phase::Transfer => {
                let rec = self.created.as_ref().unwrap();
                let target = rec.upload_presigned_url.as_ref().unwrap().clone();
                Some(Request::Transfer { target, path: self.path.clone() })
            },
            Phase::Finalize => {
                let rec = self.created.as_ref().unwrap();
                let body = FileUpdateRequest {
                    name: rec.name.clone(),
                    directory: rec.directory.clone(),
                    file_type: FileType::FILE,
                    status: FileStatus::CLOSED,
                    created_at: rec.created_at,
                    modified_at: rec.modified_at,
                };
                Some(Request::Update { endpoint: file_endpoint(rec.id), body })
            },
            _ => None,
        }
    }

    /// Takes in how the last requested call went. A reply that is not the one
    /// the current phase waits for ends the run as failed.
    pub fn advance(&mut self, reply: Reply)
        requires
            old(self).wf(),
        ensures
            final(self).wf(),
            final(self).path_spec() == old(self).path_spec(),
            final(self).kind_spec() == old(self).kind_spec(),
            (final(self).phase_spec(), final(self).created_spec()) == advance_spec(
                old(self).kind_spec(),
                old(self).phase_spec(),
                old(self).created_spec(),
                reply,
            ),
    {
        match (self.phase, reply) {
            (Phase::Create, Reply::Created(Some(rec))) => {
                if self.kind == FileType::DIRECTORY {
                    self.created = Some(rec);
                    self.phase = Phase::Succeeded;
                } else if rec.upload_presigned_url.is_some() {
                    self.created = Some(rec);
                    self.phase = Phase::Transfer;
                } else {
                    self.phase = Phase::Failed;
                }
            },
            (Phase::Transfer, Reply::Transferred(true)) => {
                self.phase = Phase::Finalize;
            },
            (Phase::Finalize, Reply::Updated(true)) => {
                self.phase = Phase::Succeeded;
            },
            (Phase::Succeeded, _) => {},
            _ => {
                self.phase = Phase::Failed;
            },
        }
    }

    /// What the run leaves for the local index: the registration's record when
    /// every phase succeeded, and nothing otherwise.
    pub fn into_outcome(self) -> (r: Option<FileResponse>)
        requires
            self.wf(),
        ensures
            r is Some <==> self.phase_spec() == Phase::Succeeded,
            r is Some ==> r == self.created_spec(),
    {
        match self.phase {
            Phase::Succeeded => self.created,
            _ => None,
        }
    }
}

} // verus!
