use rendering_worker::cache::TemplateCache;
use rendering_worker::formats::ExportFormat;
use rendering_worker::queue::{JobQueue, RenderingRequest, UploadedFiles};
use rendering_worker::scheduler::{cleanup_dirs, collect_results, reported_dirs, scheduler_step,
    ExportFormatRenderingResult, SchedulerDecision, WorkerCounter};
use rendering_worker::status::{status_is_terminal, RenderingError, RenderingStatus, StatusMap};

fn disk_job(id: u128) -> RenderingRequest<u32, u32> {
    RenderingRequest {
        request_id: id,
        template_id: 1,
        template_version_id: 1,
        export_formats: vec![String::from("pdf")],
        prepared_project: 0u32,
        project_uploaded_files: UploadedFiles::Disk(String::from("temp/up")),
    }
}

#[test]
fn status_map_registers_and_advances() {
    let mut map = StatusMap::new();
    assert!(map.register(7, RenderingStatus::SentToWorker));
    assert!(!map.register(7, RenderingStatus::SentToWorker));
    assert!(map.advance(7, RenderingStatus::RequestingTemplate));
    assert!(map.advance(7, RenderingStatus::Running));
    assert!(matches!(map.get(7), Some(RenderingStatus::Running)));
}

#[test]
fn status_never_regresses_from_terminal() {
    let mut map = StatusMap::new();
    assert!(map.register(9, RenderingStatus::SentToWorker));
    assert!(map.advance(9, RenderingStatus::Failed(RenderingError::TemplateNotFound)));
    // A terminal status refuses every later transition, forward or back.
    assert!(!map.advance(9, RenderingStatus::Running));
    assert!(!map.advance(9, RenderingStatus::Finished(Vec::new())));
    let s = map.get(9).unwrap();
    assert!(status_is_terminal(s));
    assert!(matches!(s, RenderingStatus::Failed(RenderingError::TemplateNotFound)));
}

#[test]
fn status_no_backward_transitions() {
    let mut map = StatusMap::new();
    assert!(map.register(3, RenderingStatus::Running));
    assert!(!map.advance(3, RenderingStatus::SentToWorker));
    assert!(matches!(map.get(3), Some(RenderingStatus::Running)));
    map.remove(3);
    assert!(map.get(3).is_none());
}

#[test]
fn queue_pops_in_reverse_submission_order() {
    let mut q: JobQueue<u32, u32> = JobQueue::new();
    q.push_front(disk_job(1));
    q.push_front(disk_job(2));
    q.push_front(disk_job(3));
    assert_eq!(q.pop_front().unwrap().request_id, 3);
    assert_eq!(q.pop_front().unwrap().request_id, 2);
    assert_eq!(q.pop_front().unwrap().request_id, 1);
    assert!(q.pop_front().is_none());
}

#[test]
fn every_dequeued_job_has_disk_uploads() {
    let mut q: JobQueue<u32, u32> = JobQueue::new();
    q.push_front(disk_job(1));
    let job = q.pop_front().unwrap();
    assert!(matches!(job.project_uploaded_files, UploadedFiles::Disk(_)));
}

#[test]
fn cache_coherence_over_installs() {
    let mut cache = TemplateCache::new();
    assert!(!cache.has_version(10, 100));
    let stale = cache.install(10, 100, Vec::new());
    assert!(stale.is_none());
    assert!(cache.has_version(10, 100));
    // Same key, new version: the old directory is handed back for deletion.
    let stale = cache.install(10, 200, Vec::new());
    assert_eq!(stale, Some(100));
    assert!(!cache.has_version(10, 100));
    assert!(cache.has_version(10, 200));
    // Idempotent reinstall of the same version hands nothing back.
    let formats: Vec<ExportFormat> = Vec::new();
    let stale = cache.install(10, 200, formats);
    assert!(stale.is_none());
    assert!(cache.has_version(10, 200));
}

#[test]
fn cache_clear_all_drops_every_bundle() {
    let mut cache = TemplateCache::new();
    cache.install(1, 11, Vec::new());
    cache.install(2, 22, Vec::new());
    let dirs = cache.clear_all();
    assert!(dirs.contains(&11));
    assert!(dirs.contains(&22));
    assert_eq!(dirs.len(), 2);
    assert!(!cache.has_version(1, 11));
    assert!(cache.lookup(2).is_none());
}

#[test]
fn counter_never_passes_the_ceiling() {
    let mut c = WorkerCounter::new(2);
    assert!(c.try_acquire());
    assert!(c.try_acquire());
    assert!(!c.try_acquire());
    c.release();
    assert!(c.try_acquire());
    assert!(!c.try_acquire());
}

#[test]
fn scheduler_respects_saturation_and_queue() {
    let mut q: JobQueue<u32, u32> = JobQueue::new();
    let mut c = WorkerCounter::new(1);
    // Empty queue, free slot: idle.
    assert!(matches!(scheduler_step(&mut c, &mut q), SchedulerDecision::Idle));
    q.push_front(disk_job(1));
    q.push_front(disk_job(2));
    // A job and a free slot: spawn the newest job, slot claimed.
    match scheduler_step(&mut c, &mut q) {
        SchedulerDecision::Spawn(j) => assert_eq!(j.request_id, 2),
        _ => panic!("expected a spawn"),
    }
    // Ceiling reached: no pop happens while saturated.
    assert!(matches!(scheduler_step(&mut c, &mut q), SchedulerDecision::Saturated));
    assert_eq!(q.len(), 1);
    c.release();
    match scheduler_step(&mut c, &mut q) {
        SchedulerDecision::Spawn(j) => assert_eq!(j.request_id, 1),
        _ => panic!("expected a spawn"),
    }
}

#[test]
fn collect_results_concatenates_in_order() {
    let results = vec![
        Ok(ExportFormatRenderingResult {
            files_to_transfer: vec![String::from("temp/a/book.pdf")],
            temp_dirs: vec![String::from("temp/a")],
        }),
        Ok(ExportFormatRenderingResult {
            files_to_transfer: vec![String::from("temp/b/book.epub"), String::from("temp/b/x")],
            temp_dirs: vec![String::from("temp/b")],
        }),
    ];
    let (files, dirs) = match collect_results(&results) {
        Ok(v) => v,
        Err(_) => panic!("no error expected"),
    };
    assert_eq!(files, vec!["temp/a/book.pdf", "temp/b/book.epub", "temp/b/x"]);
    assert_eq!(dirs, vec!["temp/a", "temp/b"]);
}

#[test]
fn collect_results_first_error_wins() {
    let results = vec![
        Ok(ExportFormatRenderingResult { files_to_transfer: Vec::new(), temp_dirs: Vec::new() }),
        Err(RenderingError::VivliostyleRenderingFailed(String::from("log one"))),
        Err(RenderingError::TemplateNotFound),
    ];
    match collect_results(&results) {
        Err(RenderingError::VivliostyleRenderingFailed(log)) => assert_eq!(log, "log one"),
        _ => panic!("expected the first error"),
    }
}

#[test]
fn cleanup_covers_scratch_and_uploads() {
    let job = disk_job(5);
    let dirs = vec![String::from("temp/s1"), String::from("temp/s2")];
    let del = cleanup_dirs(&job, &dirs);
    assert_eq!(del, vec!["temp/s1", "temp/s2", "temp/up"]);
}

#[test]
fn concurrent_saturation_with_ceiling_two() {
    // Three jobs, ceiling two: at most two run at once, and the third is
    // only spawned after a predecessor finishes.
    let mut q: JobQueue<u32, u32> = JobQueue::new();
    let mut c = WorkerCounter::new(2);
    q.push_front(disk_job(1));
    q.push_front(disk_job(2));
    q.push_front(disk_job(3));
    assert!(matches!(scheduler_step(&mut c, &mut q), SchedulerDecision::Spawn(_)));
    assert!(matches!(scheduler_step(&mut c, &mut q), SchedulerDecision::Spawn(_)));
    // Saturated: the third job stays queued.
    assert!(matches!(scheduler_step(&mut c, &mut q), SchedulerDecision::Saturated));
    assert!(matches!(scheduler_step(&mut c, &mut q), SchedulerDecision::Saturated));
    assert_eq!(q.len(), 1);
    // One worker reaches a terminal state and releases its slot.
    c.release();
    match scheduler_step(&mut c, &mut q) {
        SchedulerDecision::Spawn(j) => assert_eq!(j.request_id, 1),
        _ => panic!("the third job runs once a slot is free"),
    }
    assert_eq!(q.len(), 0);
}

#[test]
fn install_keeps_a_version_another_template_still_holds() {
    let mut cache = TemplateCache::new();
    assert!(cache.install(1, 5, Vec::new()).is_none());
    assert!(cache.install(2, 5, Vec::new()).is_none());
    // Template 1 moves on, but version 5 is still template 2's directory:
    // nothing is handed back for deletion.
    assert!(cache.install(1, 6, Vec::new()).is_none());
    assert!(cache.has_version(1, 6));
    assert!(cache.has_version(2, 5));
    // Once template 2 moves on too, version 5 is displaced and reported.
    assert_eq!(cache.install(2, 7, Vec::new()), Some(5));
}

#[test]
fn failed_job_still_deletes_reported_scratch_and_uploads() {
    let job = disk_job(8);
    // One format finished and reported its scratch; the other failed (its
    // own scratch was already deleted when its pipeline was aborted).
    let results = vec![
        Ok(ExportFormatRenderingResult {
            files_to_transfer: vec![String::from("temp/ok/book.pdf")],
            temp_dirs: vec![String::from("temp/ok")],
        }),
        Err(RenderingError::PandocConversionFailed(String::from("log"))),
    ];
    assert!(collect_results(&results).is_err());
    let del = cleanup_dirs(&job, &reported_dirs(&results));
    assert_eq!(del, vec!["temp/ok", "temp/up"]);
}
