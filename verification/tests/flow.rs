use rendering_worker::cache::TemplateCache;
use rendering_worker::formats::{ExportFormat, ExportStep, ExportStepData, RawExportStep,
    VivliostyleExportStep};
use rendering_worker::handler::{apply_staging, close_session, needs_staging, not_found_status,
    on_first_message, on_template_data, open_session, staging_dir, staging_failed_status,
    stream_tick, template_request_message, CommunicationError, FirstMessageOutcome, Message,
    TemplateData, TemplateDataOutcome};
use rendering_worker::ids::uuid_hyphenated;
use rendering_worker::pipeline::{abort_pipeline, begin_step, carry_over_plan, check_files_to_keep,
    file_name_exec, finish_pipeline, on_raw_outcome, on_scratch_ready, on_vivliostyle_outcome,
    on_pandoc_outcome, start_pipeline, step_action, ProcessOutcome, RawOutcome, StepAction};
use rendering_worker::queue::{JobQueue, RenderingRequest, UploadedFiles};
use rendering_worker::scheduler::cleanup_dirs;
use rendering_worker::status::{RenderingError, RenderingStatus, StatusMap};

type Req = RenderingRequest<u32, u32>;
type Msg = Message<u32, u32>;

fn request(uploads: UploadedFiles<u32>) -> Req {
    RenderingRequest {
        request_id: 77,
        template_id: 1,
        template_version_id: 10,
        export_formats: vec![String::from("pdf")],
        prepared_project: 0,
        project_uploaded_files: uploads,
    }
}

fn pdf_format() -> ExportFormat {
    ExportFormat {
        slug: String::from("pdf"),
        export_steps: vec![
            ExportStep {
                name: String::from("layout"),
                data: ExportStepData::Vivliostyle(VivliostyleExportStep {
                    input_file: String::from("book.html"),
                    output_file: String::from("book.pdf"),
                    press_ready: false,
                }),
                files_to_keep: vec![String::from("book.pdf")],
            },
        ],
    }
}

fn raw_format() -> ExportFormat {
    ExportFormat {
        slug: String::from("svg"),
        export_steps: vec![
            ExportStep {
                name: String::from("templating"),
                data: ExportStepData::Raw(RawExportStep {
                    entry_point: String::from("figure.hbs.html"),
                    output_file: String::from("figure.svg"),
                }),
                files_to_keep: vec![String::from("figure.svg")],
            },
        ],
    }
}

#[test]
fn cold_cache_single_format_success() {
    // The peer submits a request for a version the cache lacks; the worker
    // asks for the bundle, installs it, queues the job, runs the single
    // layout step, and finishes with the produced file.
    let mut cache = TemplateCache::new();
    let mut queue: JobQueue<u32, u32> = JobQueue::new();
    let mut status = StatusMap::new();

    let incoming: Option<Msg> = Some(Message::RenderingRequest(request(UploadedFiles::Disk(
        String::from("temp/up"),
    ))));
    let req = match on_first_message(incoming) {
        FirstMessageOutcome::Accept(r) => r,
        _ => panic!("a rendering request is accepted"),
    };
    assert!(status.register(req.request_id, RenderingStatus::SentToWorker));

    assert!(!cache.has_version(req.template_id, req.template_version_id));
    assert!(status.advance(req.request_id, RenderingStatus::RequestingTemplate));
    let ask = template_request_message(&req);
    match ask {
        Message::TemplateDataRequest { template_id, template_version_id } => {
            assert_eq!(template_id, 1);
            assert_eq!(template_version_id, 10);
        },
        _ => panic!("a template data request is sent"),
    }

    let reply: Option<Msg> = Some(Message::TemplateDataResult(TemplateData {
        template_id: 1,
        template_version_id: 10,
        contents: 0,
        export_formats: vec![pdf_format()],
    }));
    match on_template_data(&req, reply) {
        TemplateDataOutcome::Install { template_id, template_version_id, export_formats, .. } => {
            let stale = cache.install(template_id, template_version_id, export_formats);
            assert!(stale.is_none());
        },
        _ => panic!("the matching bundle is installed"),
    }
    assert!(cache.has_version(1, 10));

    assert!(!needs_staging(&req));
    queue.push_front(req);
    let job = queue.pop_front().unwrap();
    assert!(status.advance(job.request_id, RenderingStatus::Running));

    // One export format: drive its pipeline.
    let mut run = start_pipeline(&cache, job.template_id, &job.export_formats[0]).unwrap();
    let root = String::from("templates");
    let plan = begin_step(&mut run, &root, &job.project_uploaded_files, 5);
    assert_eq!(plan.dir, format!("temp/{}", uuid_hyphenated(5)));
    assert_eq!(plan.assets_src, format!("templates/{}/assets", uuid_hyphenated(10)));
    assert_eq!(plan.format_src, format!("templates/{}/formats/pdf", uuid_hyphenated(10)));
    assert_eq!(plan.uploads_src.as_deref(), Some("temp/up"));
    let dir = plan.dir.clone();
    on_scratch_ready(&mut run, plan.dir, true).unwrap();
    assert!(carry_over_plan(&run, &dir).unwrap().is_empty());
    match step_action(&run, &dir, false, false) {
        StepAction::RunVivliostyle { args } => assert_eq!(args[0], "bwrap"),
        _ => panic!("a layout step runs the layout engine"),
    }
    on_vivliostyle_outcome(&mut run, ProcessOutcome::Ran(String::from(
        "Built successfully in 2s",
    )))
        .unwrap();
    check_files_to_keep(&mut run, &dir, &vec![true]).unwrap();
    let result = finish_pipeline(run);
    assert_eq!(result.files_to_transfer, vec![format!("{}/book.pdf", dir)]);
    assert_eq!(result.temp_dirs, vec![dir]);

    // The worker publishes the terminal status; the peer observes it.
    let files = vec![rendering_worker::status::NamedFile {
        name: String::from("book.pdf"),
        content: vec![1, 2, 3],
    }];
    assert!(status.advance(job.request_id, RenderingStatus::Finished(files)));
    let session = open_session(&job);
    assert_eq!(session.request_id, 77);
    let (st, done) = stream_tick(&session, &status);
    assert!(done);
    assert!(matches!(st, Some(RenderingStatus::Finished(_))));
    close_session(session, &mut status);
    assert!(status.get(77).is_none());
}

#[test]
fn warm_cache_skips_the_template_request() {
    let mut cache = TemplateCache::new();
    cache.install(1, 10, vec![pdf_format()]);
    let req = request(UploadedFiles::Disk(String::from("temp/up")));
    // The cache already has the requested version: no template request, the
    // job goes straight from registration towards the queue.
    assert!(cache.has_version(req.template_id, req.template_version_id));
}

#[test]
fn wrong_version_reply_is_rejected_without_cache_mutation() {
    let mut cache = TemplateCache::new();
    cache.install(1, 1, vec![pdf_format()]);
    let mut req = request(UploadedFiles::Disk(String::from("temp/up")));
    req.template_version_id = 2;
    assert!(!cache.has_version(1, 2));
    let reply: Option<Msg> = Some(Message::TemplateDataResult(TemplateData {
        template_id: 1,
        template_version_id: 3,
        contents: 0,
        export_formats: Vec::new(),
    }));
    match on_template_data(&req, reply) {
        TemplateDataOutcome::Reject(CommunicationError::WrongTemplateDataSend) => {},
        _ => panic!("a mismatched version is a wrong send"),
    }
    // No installation happened: the cache still holds only version 1.
    assert!(cache.has_version(1, 1));
    assert!(!cache.has_version(1, 3));
}

#[test]
fn unexpected_first_message_is_rejected() {
    let incoming: Option<Msg> = Some(Message::RenderingRequestStatus(
        RenderingStatus::SentToWorker,
    ));
    assert!(matches!(
        on_first_message(incoming),
        FirstMessageOutcome::Reject(CommunicationError::UnexpectedMessageType)
    ));
    let nothing: Option<Msg> = None;
    assert!(matches!(
        on_first_message(nothing),
        FirstMessageOutcome::CloseSilently
    ));
}

#[test]
fn missing_kept_file_fails_with_its_name_and_log() {
    let mut cache = TemplateCache::new();
    cache.install(1, 10, vec![raw_format()]);
    let job = request(UploadedFiles::Disk(String::from("temp/up")));
    let mut run = start_pipeline(&cache, 1, &String::from("svg")).unwrap();
    let root = String::from("templates");
    let plan = begin_step(&mut run, &root, &job.project_uploaded_files, 6);
    let dir = plan.dir.clone();
    on_scratch_ready(&mut run, plan.dir, true).unwrap();
    match step_action(&run, &dir, false, false) {
        StepAction::RunRaw { entry_name, output_file } => {
            assert_eq!(entry_name, "figure");
            assert_eq!(output_file, "figure.svg");
        },
        _ => panic!("a templating step runs the templating engine"),
    }
    on_raw_outcome(&mut run, RawOutcome::Rendered).unwrap();
    // Rendering did not produce the declared file.
    match check_files_to_keep(&mut run, &dir, &vec![false]) {
        Err(RenderingError::MissingExpectedFileToKeep(name, log)) => {
            assert_eq!(name, "figure.svg");
            assert!(log.contains("Started rendering export format svg."));
        },
        _ => panic!("the missing kept file fails the format"),
    }
    // The scratch directory created so far is still handed over for deletion.
    let dirs = abort_pipeline(run);
    assert_eq!(dirs, vec![dir]);
}

#[test]
fn memory_uploads_are_staged_before_queueing() {
    let mut queue: JobQueue<u32, u32> = JobQueue::new();
    let mut req = request(UploadedFiles::Memory(3));
    assert!(needs_staging(&req));
    let dir = staging_dir(42);
    assert_eq!(dir, format!("temp/{}", uuid_hyphenated(42)));
    apply_staging(&mut req, dir.clone());
    assert!(!needs_staging(&req));
    assert_eq!(req.request_id, 77);
    queue.push_front(req);
    let job = queue.pop_front().unwrap();
    match &job.project_uploaded_files {
        UploadedFiles::Disk(d) => assert_eq!(d, &dir),
        _ => panic!("queued jobs are disk-normalized"),
    }
    // After the terminal status the staged directory is deleted with the job.
    let del = cleanup_dirs(&job, &Vec::new());
    assert_eq!(del, vec![dir]);
}

#[test]
fn staging_failure_and_missing_entry_statuses() {
    match staging_failed_status() {
        RenderingStatus::Failed(RenderingError::Other(m)) => {
            assert_eq!(m, "IO Error saving uploads")
        },
        _ => panic!("staging failure is a terminal Other"),
    }
    match not_found_status() {
        RenderingStatus::Failed(RenderingError::Other(m)) => assert_eq!(m, "Not Found"),
        _ => panic!("a vanished entry reads as Failed"),
    }
    let status = StatusMap::new();
    let session = open_session(&request(UploadedFiles::Disk(String::from("x"))));
    let (st, done) = stream_tick(&session, &status);
    assert!(st.is_none());
    assert!(done);
}

#[test]
fn pipeline_errors_carry_the_outcome() {
    let mut cache = TemplateCache::new();
    cache.install(1, 10, vec![pdf_format()]);
    assert!(matches!(
        start_pipeline(&cache, 2, &String::from("pdf")),
        Err(RenderingError::TemplateNotFound)
    ));
    assert!(matches!(
        start_pipeline(&cache, 1, &String::from("epub")),
        Err(RenderingError::TemplateNotFound)
    ));
    let job = request(UploadedFiles::Disk(String::from("temp/up")));
    let mut run = start_pipeline(&cache, 1, &String::from("pdf")).unwrap();
    let root = String::from("templates");
    let plan = begin_step(&mut run, &root, &job.project_uploaded_files, 7);
    // The scratch directory could not be materialized.
    match on_scratch_ready(&mut run, plan.dir, false) {
        Err(RenderingError::Other(m)) => assert_eq!(m, "IO Error preparing temp directory."),
        _ => panic!("scratch failure is an Other"),
    }
    // A layout run without the success line fails with the log.
    let mut run2 = start_pipeline(&cache, 1, &String::from("pdf")).unwrap();
    match on_vivliostyle_outcome(&mut run2, ProcessOutcome::Ran(String::from("crashed"))) {
        Err(RenderingError::VivliostyleRenderingFailed(log)) => assert!(log.contains("crashed")),
        _ => panic!("an unsuccessful build fails the format"),
    }
    let mut run3 = start_pipeline(&cache, 1, &String::from("pdf")).unwrap();
    match on_pandoc_outcome(&mut run3, ProcessOutcome::SpawnFailed(String::from("no binary"))) {
        Err(RenderingError::PandocConversionFailed(log)) => assert!(log.contains("no binary")),
        _ => panic!("a spawn failure fails the conversion"),
    }
    let mut run4 = start_pipeline(&cache, 1, &String::from("pdf")).unwrap();
    match on_raw_outcome(&mut run4, RawOutcome::TemplatesLoadFailed(String::from("bad dir"))) {
        Err(RenderingError::CouldntLoadHandlebarTemplates(d)) => assert_eq!(d, "bad dir"),
        _ => panic!("a load failure keeps the loader's detail"),
    }
    let mut run5 = start_pipeline(&cache, 1, &String::from("pdf")).unwrap();
    match on_raw_outcome(&mut run5, RawOutcome::RenderFailed(String::from("helper error"))) {
        Err(RenderingError::HandlebarsRenderingFailed(log)) => {
            assert!(log.contains("Handlebars rendering failed: helper error"))
        },
        _ => panic!("a render failure carries the log"),
    }
}

#[test]
fn carry_over_copies_by_bare_file_name() {
    let mut cache = TemplateCache::new();
    cache.install(1, 10, vec![pdf_format()]);
    let job = request(UploadedFiles::Disk(String::from("temp/up")));
    let mut run = start_pipeline(&cache, 1, &String::from("pdf")).unwrap();
    let root = String::from("templates");
    let plan = begin_step(&mut run, &root, &job.project_uploaded_files, 8);
    let dir = plan.dir.clone();
    on_scratch_ready(&mut run, plan.dir, true).unwrap();
    on_vivliostyle_outcome(&mut run, ProcessOutcome::Ran(String::from("Built successfully")))
        .unwrap();
    check_files_to_keep(&mut run, &dir, &vec![true]).unwrap();
    // Into a hypothetical next scratch directory, the kept file is copied
    // under its bare name.
    let next = String::from("temp/next");
    let copies = carry_over_plan(&run, &next).unwrap();
    assert_eq!(copies.len(), 1);
    assert_eq!(copies[0].src, format!("{}/book.pdf", dir));
    assert_eq!(copies[0].dst, "temp/next/book.pdf");
    assert_eq!(file_name_exec("a/b/c.svg"), "c.svg");
    assert_eq!(file_name_exec("plain"), "plain");
    assert_eq!(file_name_exec("broken/"), "");
}

#[test]
fn warm_cache_goes_straight_to_running() {
    // Scenario continued from a completed cold-cache run: the bundle for
    // version 10 is cached, so a second request for the same version never
    // asks for template data and moves from registration to running.
    let mut cache = TemplateCache::new();
    cache.install(1, 10, vec![pdf_format()]);
    let mut status = StatusMap::new();
    let req = request(UploadedFiles::Disk(String::from("temp/up2")));
    assert!(status.register(req.request_id, RenderingStatus::SentToWorker));
    assert!(cache.has_version(req.template_id, req.template_version_id));
    // No RequestingTemplate transition happens; the scheduler takes over.
    assert!(status.advance(req.request_id, RenderingStatus::Running));
    let files = vec![rendering_worker::status::NamedFile {
        name: String::from("book.epub"),
        content: vec![9],
    }];
    assert!(status.advance(req.request_id, RenderingStatus::Finished(files)));
    let session = open_session(&req);
    let (st, done) = stream_tick(&session, &status);
    assert!(done);
    assert!(matches!(st, Some(RenderingStatus::Finished(_))));
}

#[test]
fn failed_carry_copy_names_the_file() {
    let mut cache = TemplateCache::new();
    cache.install(1, 10, vec![pdf_format()]);
    let mut run = start_pipeline(&cache, 1, &String::from("pdf")).unwrap();
    let e = rendering_worker::pipeline::carry_copy_failure(
        &mut run,
        String::from("book.pdf"),
        "permission denied",
    );
    match e {
        RenderingError::MissingExpectedFileToKeep(name, log) => {
            assert_eq!(name, "book.pdf");
            assert!(log.contains(
                "Couldn't copy file to keep to new export step temp directory: permission denied"
            ));
        }
        _ => panic!("a failed carry copy is a missing kept file"),
    }
}

#[test]
fn layout_engine_spawn_failure_fails_the_format() {
    let mut cache = TemplateCache::new();
    cache.install(1, 10, vec![pdf_format()]);
    let mut run = start_pipeline(&cache, 1, &String::from("pdf")).unwrap();
    match on_vivliostyle_outcome(&mut run, ProcessOutcome::SpawnFailed(String::from("not found"))) {
        Err(RenderingError::VivliostyleRenderingFailed(log)) => {
            assert!(log.contains("Couldn't run vivliostyle: not found"));
        }
        _ => panic!("a spawn failure fails the layout step"),
    }
}

#[test]
fn failed_scratch_directory_is_still_deleted() {
    let mut cache = TemplateCache::new();
    cache.install(1, 10, vec![pdf_format()]);
    let job = request(UploadedFiles::Disk(String::from("temp/up")));
    let mut run = start_pipeline(&cache, 1, &String::from("pdf")).unwrap();
    let root = String::from("templates");
    let plan = begin_step(&mut run, &root, &job.project_uploaded_files, 9);
    let dir = plan.dir.clone();
    assert!(on_scratch_ready(&mut run, plan.dir, false).is_err());
    // The half-created directory is part of the deletion set.
    assert_eq!(abort_pipeline(run), vec![dir]);
}
