//! The per-connection protocol state machine.
//!
//! One handler runs per accepted peer connection: it ingests exactly one
//! rendering request, fetches the template bundle if the cache lacks the
//! requested version, stages in-memory uploads to disk, enqueues the job,
//! and then streams the job's status to the peer every poll interval until
//! a terminal status is sent, after which it drops the status entry.  The
//! shell reads and writes the wire messages and does the file work; every
//! decision between those steps is verified here.

use vstd::prelude::*;
use crate::formats::ExportFormat;
use crate::ids::uuid_str;
use crate::queue::{is_disk, RenderingRequest, UploadedFiles};
use crate::status::{is_terminal, RenderingError, RenderingStatus, StatusMap};
use crate::textutil::join2;

verus! {

/// A protocol fault reported to the peer before closing.
#[derive(Debug)]
pub enum CommunicationError {
    UnexpectedMessageType,
    WrongTemplateDataSend,
}

/// A template bundle as the peer delivers it: the ids it is for, the file
/// tree of its bytes (opaque to the core), and the export formats the
/// bundle declares.
pub struct TemplateData<M> {
    pub template_id: u128,
    pub template_version_id: u128,
    pub contents: M,
    pub export_formats: Vec<ExportFormat>,
}

/// The wire messages the core distinguishes.  `P` is the opaque prepared
/// document model, `M` the opaque file tree of the codec.
pub enum Message<P, M> {
    RenderingRequest(RenderingRequest<P, M>),
    TemplateDataRequest { template_id: u128, template_version_id: u128 },
    TemplateDataResult(TemplateData<M>),
    RenderingRequestStatus(RenderingStatus),
    CommunicationError(CommunicationError),
}

/// What to do with the first message of a connection.
pub enum FirstMessageOutcome<P, M> {
    /// A rendering request: register it and carry on.
    Accept(RenderingRequest<P, M>),
    /// Some other message: report the fault, then close.
    Reject(CommunicationError),
    /// The read failed: close without a word.
    CloseSilently,
}

/// Classifies the first message of a connection: only a rendering request
/// is accepted; any other message is an unexpected type, and a failed read
/// closes the connection silently.
pub fn on_first_message<P, M>(msg: Option<Message<P, M>>) -> (r: FirstMessageOutcome<P, M>)
    ensures
        match msg {
            Some(m) => match m {
                Message::RenderingRequest(req) => r matches FirstMessageOutcome::Accept(req2)
                    && req2 == req,
                _ => r matches FirstMessageOutcome::Reject(c) && c
                    == CommunicationError::UnexpectedMessageType,
            },
            None => r is CloseSilently,
        },
{
    match msg {
        Some(Message::RenderingRequest(req)) => FirstMessageOutcome::Accept(req),
        Some(_) => FirstMessageOutcome::Reject(CommunicationError::UnexpectedMessageType),
        None => FirstMessageOutcome::CloseSilently,
    }
}

/// The message asking the peer for the template bundle the request names.
pub fn template_request_message<P, M>(req: &RenderingRequest<P, M>) -> (m: Message<P, M>)
    ensures
        m matches Message::TemplateDataRequest { template_id, template_version_id }
            && template_id == req.template_id && template_version_id == req.template_version_id,
{
    Message::TemplateDataRequest {
        template_id: req.template_id,
        template_version_id: req.template_version_id,
    }
}

/// What to do with the peer's reply to a template-data request.
pub enum TemplateDataOutcome<M> {
    /// The right bundle: write its tree to the template root, then install
    /// it in the cache under these ids.
    Install { template_id: u128, template_version_id: u128, contents: M, export_formats: Vec<
        ExportFormat,
    > },
    /// The wrong bundle or the wrong message type: report, then close.
    Reject(CommunicationError),
    /// The read failed: close without a word.
    CloseSilently,
}

/// Classifies the awaited template-data reply.  A reply whose ids differ
/// from the request's is a wrong send; a different message type is
/// unexpected; the matching bundle is to be installed.
pub fn on_template_data<P, M>(req: &RenderingRequest<P, M>, msg: Option<Message<P, M>>) -> (r:
    TemplateDataOutcome<M>)
    ensures
        match msg {
            Some(m) => match m {
                Message::TemplateDataResult(td) => {
                    if td.template_id == req.template_id && td.template_version_id
                        == req.template_version_id {
                        r matches TemplateDataOutcome::Install {
                            template_id,
                            template_version_id,
                            contents,
                            export_formats,
                        } && template_id == req.template_id && template_version_id
                            == req.template_version_id && contents == td.contents
                            && export_formats == td.export_formats
                    } else {
                        r matches TemplateDataOutcome::Reject(c) && c
                            == CommunicationError::WrongTemplateDataSend
                    }
                },
                _ => r matches TemplateDataOutcome::Reject(c) && c
                    == CommunicationError::UnexpectedMessageType,
            },
            None => r is CloseSilently,
        },
{
    match msg {
        Some(Message::TemplateDataResult(td)) => {
            if td.template_id == req.template_id && td.template_version_id
                == req.template_version_id {
                TemplateDataOutcome::Install {
                    template_id: td.template_id,
                    template_version_id: td.template_version_id,
                    contents: td.contents,
                    export_formats: td.export_formats,
                }
            } else {
                TemplateDataOutcome::Reject(CommunicationError::WrongTemplateDataSend)
            }
        },
        Some(_) => TemplateDataOutcome::Reject(CommunicationError::UnexpectedMessageType),
        None => TemplateDataOutcome::CloseSilently,
    }
}

/// Whether the uploads still have to be staged to disk before the job may
/// enter the queue.
pub fn needs_staging<P, M>(req: &RenderingRequest<P, M>) -> (b: bool)
    ensures
        b == !is_disk(*req),
{
    match &req.project_uploaded_files {
        UploadedFiles::Memory(_) => true,
        UploadedFiles::Disk(_) => false,
    }
}

/// The staging directory for in-memory uploads, named after a fresh id.
pub fn staging_dir(fresh: u128) -> (r: String)
    ensures
        r@ == "temp/"@ + uuid_str(fresh),
{
    let tail = crate::ids::uuid_hyphenated(fresh);
    join2("temp/", tail.as_str())
}

/// The request after its uploads were staged into `dir`.
pub open spec fn staged<P, M>(req: RenderingRequest<P, M>, dir: String) -> RenderingRequest<
    P,
    M,
> {
    RenderingRequest { project_uploaded_files: UploadedFiles::Disk(dir), ..req }
}

/// Rewrites the uploads to the staged directory; everything else of the
/// request, the request id first of all, stays as it was.
pub fn apply_staging<P, M>(req: &mut RenderingRequest<P, M>, dir: String)
    ensures
        *final(req) == staged(*old(req), dir),
        is_disk(*final(req)),
{
    req.project_uploaded_files = UploadedFiles::Disk(dir);
}

/// The terminal status reported when staging the uploads to disk fails;
/// the peer is told before the connection closes.
pub fn staging_failed_status() -> (s: RenderingStatus)
    ensures
        s matches RenderingStatus::Failed(e) && e matches RenderingError::Other(m) && m@
            == "IO Error saving uploads"@,
{
    RenderingStatus::Failed(RenderingError::Other("IO Error saving uploads".to_owned()))
}

/// The terminal status synthesized when the status entry has vanished.
pub fn not_found_status() -> (s: RenderingStatus)
    ensures
        s matches RenderingStatus::Failed(e) && e matches RenderingError::Other(m) && m@
            == "Not Found"@,
{
    RenderingStatus::Failed(RenderingError::Other("Not Found".to_owned()))
}

/// One status-streaming session: the request id under which the handler
/// polls, fixed when the request is accepted.
pub struct HandlerSession {
    pub request_id: u128,
}

/// Opens the streaming session for an accepted request; the session polls
/// under exactly that request's id.
pub fn open_session<P, M>(req: &RenderingRequest<P, M>) -> (s: HandlerSession)
    ensures
        s.request_id == req.request_id,
{
    HandlerSession { request_id: req.request_id }
}

/// One poll of the status map: the status now registered under the
/// session's request id, and whether this is the last update to send.  A
/// vanished entry ends the stream; the shell then sends the synthesized
/// not-found failure.
pub fn stream_tick<'a>(session: &HandlerSession, map: &'a StatusMap) -> (r: (
    Option<&'a RenderingStatus>,
    bool,
))
    requires
        map.wf(),
    ensures
        match r.0 {
            Some(s) => map@.contains_key(session.request_id) && *s == map@[session.request_id]
                && r.1 == is_terminal(*s),
            None => !map@.contains_key(session.request_id) && r.1,
        },
{
    match map.get(session.request_id) {
        Some(s) => {
            let done = crate::status::status_is_terminal(s);
            (Some(s), done)
        },
        None => (None, true),
    }
}

/// Ends the session: the handler drops the status entry it registered, so
/// nothing leaks past the connection's life.
pub fn close_session(session: HandlerSession, map: &mut StatusMap)
    requires
        old(map).wf(),
    ensures
        final(map).wf(),
        final(map)@ == old(map)@.remove(session.request_id),
{
    map.remove(session.request_id);
}

/// Round trip of the request id: staging the uploads never changes a job's
/// request id, a job entering the queue at the front keeps it, and the
/// streaming session opened for a request polls the status map under that
/// same id — so every status update sent back belongs to the request the
/// peer submitted.
pub proof fn lemma_request_id_round_trip<P, M>(
    req: RenderingRequest<P, M>,
    dir: String,
    rest: Seq<RenderingRequest<P, M>>,
)
    ensures
        staged(req, dir).request_id == req.request_id,
        (seq![staged(req, dir)] + rest)[0].request_id == req.request_id,
{
}

} // verus!
