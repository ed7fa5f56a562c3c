//! The per-format pipeline executor, as a state machine the shell drives.
//!
//! For one (job, export-format slug) the pipeline runs the declared steps in
//! order.  Each step gets a fresh scratch directory populated by copy-in;
//! the kept files of a step are carried into the next step and the final
//! step's kept files are the deliverable.  All file operations and child
//! processes happen in the shell; every decision — what to copy, what to
//! run, what each outcome means, which files must exist afterwards — is
//! verified here.

use vstd::prelude::*;
use vstd::string::StrSliceExecFns;
use vstd::string::StringExecFns;
use crate::cache::TemplateCache;
use crate::commands::{pandoc_args, pandoc_args_spec, vivliostyle_args, vivliostyle_args_spec};
use crate::formats::{dup_steps, find_format, spec_find_format, steps_eqv, ExportStep,
    ExportStepData};
use crate::ids::uuid_str;
use crate::queue::UploadedFiles;
use crate::scheduler::ExportFormatRenderingResult;
use crate::status::RenderingError;
use crate::textutil::{contains_sub, join2, join3, remove_all, spec_contains, spec_remove_all};

verus! {

/// The state of one export format's pipeline: the steps to run, how far the
/// run has come, the files carried from the last finished step, every
/// scratch directory created so far, and the rendering log.
pub struct PipelineRun {
    /// Version directory the steps read their assets from.
    pub template_version_id: u128,
    pub slug: String,
    pub steps: Vec<ExportStep>,
    /// Index of the next step to run; the run is complete when it reaches
    /// `steps.len()`.
    pub next_step: usize,
    /// Full paths of the kept files of the last finished step.
    pub carry: Vec<String>,
    /// Full paths of every scratch directory this run has created; all of
    /// them are deleted once the job reaches a terminal status.
    pub scratch_dirs: Vec<String>,
    /// Textual rendering log; it travels inside any error this run emits.
    pub log: String,
}

/// Resolves the export format in the cache and opens a pipeline run for it.
/// Missing template or missing slug is `TemplateNotFound`.
pub fn start_pipeline(cache: &TemplateCache, template_id: u128, slug: &String) -> (r: Result<
    PipelineRun,
    RenderingError,
>)
    requires
        cache.wf(),
    ensures
        match r {
            Ok(run) => {
                &&& cache@.contains_key(template_id)
                &&& spec_find_format(cache@[template_id].export_formats@, slug@) matches Some(f)
                    && steps_eqv(f.export_steps@, run.steps@) && run.slug == f.slug
                &&& run.template_version_id == cache@[template_id].version_id
                &&& run.next_step == 0
                &&& run.carry@.len() == 0
                &&& run.scratch_dirs@.len() == 0
                &&& run.log@ == "Started rendering export format "@ + run.slug@ + "."@
            },
            Err(e) => {
                &&& e == RenderingError::TemplateNotFound
                &&& (!cache@.contains_key(template_id) || spec_find_format(
                    cache@[template_id].export_formats@,
                    slug@,
                ) is None)
            },
        },
{
    let entry = match cache.lookup(template_id) {
        Some(e) => e,
        None => {
            return Err(RenderingError::TemplateNotFound);
        },
    };
    let format = match find_format(&entry.export_formats, slug) {
        Some(f) => f,
        None => {
            return Err(RenderingError::TemplateNotFound);
        },
    };
    let log = join3("Started rendering export format ", format.slug.as_str(), ".");
    Ok(
        PipelineRun {
            template_version_id: entry.version_id,
            slug: format.slug.clone(),
            steps: dup_steps(&format.export_steps),
            next_step: 0,
            carry: Vec::new(),
            scratch_dirs: Vec::new(),
            log,
        },
    )
}

/// What the shell copies into a fresh scratch directory before a step runs:
/// the bundle's global assets, the per-format assets (entries merged at the
/// scratch root), and the job's uploads directory when it has one.
pub struct ScratchPlan {
    /// The fresh scratch directory to create.
    pub dir: String,
    /// `<template-root>/<version-id>/assets`, copied to `dir/global_assets`.
    pub assets_src: String,
    /// `<template-root>/<version-id>/formats/<slug>`, whose entries are
    /// copied into `dir` (files directly, directories merged).
    pub format_src: String,
    /// The job's on-disk uploads, copied to `dir/uploads`, when present.
    pub uploads_src: Option<String>,
}

/// Opens the next step: notes it in the log and plans the scratch
/// directory, named after the fresh id.
pub fn begin_step<M>(
    run: &mut PipelineRun,
    template_root: &String,
    uploads: &UploadedFiles<M>,
    fresh: u128,
) -> (p: ScratchPlan)
    requires
        old(run).next_step < old(run).steps@.len(),
    ensures
        final(run).steps@ == old(run).steps@,
        final(run).next_step == old(run).next_step,
        final(run).carry@ == old(run).carry@,
        final(run).scratch_dirs@ == old(run).scratch_dirs@,
        final(run).template_version_id == old(run).template_version_id,
        final(run).slug == old(run).slug,
        final(run).log@ == old(run).log@ + "Started rendering export step "@ + old(run).steps@[old(run).next_step as int].name@ + "."@,
        p.dir@ == "temp/"@ + uuid_str(fresh),
        p.assets_src@ == template_root@ + "/"@ + uuid_str(old(run).template_version_id)
            + "/assets"@,
        p.format_src@ == template_root@ + "/"@ + uuid_str(old(run).template_version_id)
            + "/formats/"@ + old(run).slug@,
        match (uploads, &p.uploads_src) {
            (UploadedFiles::Disk(src), Some(dst)) => dst == src,
            (UploadedFiles::Memory(_), None) => true,
            _ => false,
        },
{
    let note = join3("Started rendering export step ", run.steps[run.next_step].name.as_str(), ".");
    run.log.append(note.as_str());
    let version = crate::ids::uuid_hyphenated(run.template_version_id);
    let dir = join2("temp/", crate::ids::uuid_hyphenated(fresh).as_str());
    let base = join3(template_root.as_str(), "/", version.as_str());
    let assets_src = join2(base.as_str(), "/assets");
    let format_src = join3(base.as_str(), "/formats/", run.slug.as_str());
    let uploads_src = match uploads {
        UploadedFiles::Disk(src) => Some(src.clone()),
        UploadedFiles::Memory(_) => None,
    };
    proof {
        assert(assets_src@ =~= template_root@ + "/"@ + uuid_str(run.template_version_id)
            + "/assets"@);
        assert(format_src@ =~= template_root@ + "/"@ + uuid_str(run.template_version_id)
            + "/formats/"@ + run.slug@);
    }
    ScratchPlan { dir, assets_src, format_src, uploads_src }
}

/// Records the outcome of materializing the scratch directory.  The
/// directory joins the run's scratch list either way — a half-created
/// directory must still be deleted with the job — but a filesystem failure
/// ends the pipeline with an `Other` error, as nothing can run without
/// scratch.
pub fn on_scratch_ready(run: &mut PipelineRun, dir: String, ok: bool) -> (r: Result<
    (),
    RenderingError,
>)
    ensures
        final(run).steps@ == old(run).steps@,
        final(run).next_step == old(run).next_step,
        final(run).carry@ == old(run).carry@,
        final(run).template_version_id == old(run).template_version_id,
        final(run).slug == old(run).slug,
        final(run).scratch_dirs@ == old(run).scratch_dirs@.push(dir),
        match r {
            Ok(()) => {
                &&& ok
                &&& final(run).log@ == old(run).log@ + "Prepared temporary directory."@
            },
            Err(e) => {
                &&& !ok
                &&& e matches RenderingError::Other(m) && m@ == "IO Error preparing temp directory."@
                &&& final(run).log@ == old(run).log@
            },
        },
{
    run.scratch_dirs.push(dir);
    if !ok {
        let msg = "IO Error preparing temp directory.".to_owned();
        return Err(RenderingError::Other(msg));
    }
    run.log.append("Prepared temporary directory.");
    Ok(())
}


/// The characters after the last separator: the file's bare name.  A path
/// that is empty or ends in a separator has no name.
pub open spec fn file_name_of(p: Seq<char>) -> Seq<char>
    decreases p.len(),
{
    if p.len() == 0 {
        Seq::empty()
    } else if p.last() == '/' {
        Seq::empty()
    } else {
        file_name_of(p.drop_last()).push(p.last())
    }
}

/// Extracts the bare file name of a path.
pub fn file_name_exec(p: &str) -> (r: String)
    requires
        p@.len() <= usize::MAX,
    ensures
        r@ == file_name_of(p@),
    decreases p@.len(),
{
    let n = p.unicode_len();
    if n == 0 {
        return String::new();
    }
    let last = p.get_char(n - 1);
    if last == '/' {
        return String::new();
    }
    let head = p.substring_char(0, n - 1);
    proof {
        assert(head@ =~= p@.drop_last());
    }
    let mut r = file_name_exec(head);
    crate::textutil::push_char(&mut r, last);
    r
}

/// One carry-over copy: source path from the previous step's scratch, and
/// destination inside the new scratch directory, by bare file name.
pub struct CarryCopy {
    pub src: String,
    pub dst: String,
}

/// Plans the carry-over of the previous step's kept files into the fresh
/// scratch directory: each file is copied under its bare name, not its
/// subpath.  A carried path without a name fails the pipeline.
pub fn carry_over_plan(run: &PipelineRun, dir: &String) -> (r: Result<
    Vec<CarryCopy>,
    RenderingError,
>)
    requires
        forall|i: int| 0 <= i < run.carry@.len() ==> (#[trigger] run.carry@[i])@.len()
            <= usize::MAX,
        dir@.len() + 1 <= usize::MAX,
    ensures
        match r {
            Ok(copies) => {
                &&& copies@.len() == run.carry@.len()
                &&& forall|i: int| 0 <= i < copies@.len() ==> {
                    &&& (#[trigger] copies@[i]).src == run.carry@[i]
                    &&& copies@[i].dst@ == dir@ + "/"@ + file_name_of(run.carry@[i]@)
                    &&& file_name_of(run.carry@[i]@).len() > 0
                }
            },
            Err(e) => {
                &&& e matches RenderingError::Other(m) && m@ == "Couldn't parse file name."@
                &&& exists|i: int| 0 <= i < run.carry@.len() && file_name_of(
                    (#[trigger] run.carry@[i])@,
                ).len() == 0
            },
        },
{
    let mut copies: Vec<CarryCopy> = Vec::new();
    let mut i: usize = 0;
    while i < run.carry.len()
        invariant
            i <= run.carry@.len(),
            copies@.len() == i,
            forall|k: int| 0 <= k < run.carry@.len() ==> (#[trigger] run.carry@[k])@.len()
                <= usize::MAX,
            dir@.len() + 1 <= usize::MAX,
            forall|k: int| 0 <= k < i ==> {
                &&& (#[trigger] copies@[k]).src == run.carry@[k]
                &&& copies@[k].dst@ == dir@ + "/"@ + file_name_of(run.carry@[k]@)
                &&& file_name_of(run.carry@[k]@).len() > 0
            },
        decreases run.carry@.len() - i,
    {
        let name = file_name_exec(run.carry[i].as_str());
        if name.as_str().unicode_len() == 0 {
            let msg = "Couldn't parse file name.".to_owned();
            return Err(RenderingError::Other(msg));
        }
        let dst = join3(dir.as_str(), "/", name.as_str());
        copies.push(CarryCopy { src: run.carry[i].clone(), dst });
        i = i + 1;
    }
    Ok(copies)
}

/// Turns a failed carry-over copy into the pipeline's error: the log gains
/// the copy failure and the error names the file and carries the log.
pub fn carry_copy_failure(run: &mut PipelineRun, file_name: String, io_msg: &str) -> (e:
    RenderingError)
    ensures
        final(run).steps@ == old(run).steps@,
        final(run).next_step == old(run).next_step,
        final(run).carry@ == old(run).carry@,
        final(run).scratch_dirs@ == old(run).scratch_dirs@,
        final(run).log@ == old(run).log@
            + "Couldn't copy file to keep to new export step temp directory: "@ + io_msg@,
        e matches RenderingError::MissingExpectedFileToKeep(f, l) && f == file_name
            && l == final(run).log,
{
    let note = join2("Couldn't copy file to keep to new export step temp directory: ", io_msg);
    run.log.append(note.as_str());
    RenderingError::MissingExpectedFileToKeep(file_name, run.log.clone())
}

/// What the shell must run for the current step.
pub enum StepAction {
    /// Templating: register every template under the scratch directory,
    /// render `entry_name` against the prepared project, write the result
    /// to `output_file` inside scratch.
    RunRaw { entry_name: String, output_file: String },
    /// Layout engine, sandboxed; the full argument vector, program first.
    RunVivliostyle { args: Vec<String> },
    /// Document converter, sandboxed; the full argument vector, program
    /// first.
    RunPandoc { args: Vec<String> },
}

/// Decides the action for the current step.  The templating entry name is
/// the entry-point file name with every extension occurrence removed; the
/// two tool actions carry their exact sandboxed argument vectors.
pub fn step_action(run: &PipelineRun, dir: &String, fonts_usr: bool, fonts_local: bool) -> (a:
    StepAction)
    requires
        run.next_step < run.steps@.len(),
    ensures
        match run.steps@[run.next_step as int].data {
            ExportStepData::Raw(rw) => a matches StepAction::RunRaw { entry_name, output_file }
                && entry_name@ == spec_remove_all(rw.entry_point@, ".hbs.html"@) && output_file
                == rw.output_file,
            ExportStepData::Vivliostyle(v) => a matches StepAction::RunVivliostyle { args }
                && args.deep_view() == vivliostyle_args_spec(v, dir@, fonts_usr, fonts_local),
            ExportStepData::Pandoc(pd) => a matches StepAction::RunPandoc { args }
                && args.deep_view() == pandoc_args_spec(pd, dir@),
        },
{
    match &run.steps[run.next_step].data {
        ExportStepData::Raw(rw) => {
            let entry_name = remove_all(rw.entry_point.as_str(), ".hbs.html");
            StepAction::RunRaw { entry_name, output_file: rw.output_file.clone() }
        },
        ExportStepData::Vivliostyle(v) => {
            StepAction::RunVivliostyle { args: vivliostyle_args(v, dir, fonts_usr, fonts_local) }
        },
        ExportStepData::Pandoc(pd) => {
            StepAction::RunPandoc { args: pandoc_args(pd, dir) }
        },
    }
}


/// How a templating run went, as the shell observed it.
pub enum RawOutcome {
    /// The template registry could not load the scratch templates; the
    /// detail is the loader's message.
    TemplatesLoadFailed(String),
    /// Rendering succeeded and the output file was written.
    Rendered,
    /// The engine failed to render; the detail is its message.
    RenderFailed(String),
    /// Rendering succeeded but writing the output file failed.
    OutputWriteFailed(String),
}

/// Maps a templating outcome onto the pipeline: a load failure carries the
/// loader's detail, a render or write failure carries the log.
pub fn on_raw_outcome(run: &mut PipelineRun, outcome: RawOutcome) -> (r: Result<
    (),
    RenderingError,
>)
    ensures
        final(run).steps@ == old(run).steps@,
        final(run).next_step == old(run).next_step,
        final(run).carry@ == old(run).carry@,
        final(run).scratch_dirs@ == old(run).scratch_dirs@,
        match r {
            Ok(()) => {
                &&& outcome is Rendered
                &&& final(run).log@ == old(run).log@ + "Starting handlebars rendering."@
            },
            Err(e) => match outcome {
                RawOutcome::TemplatesLoadFailed(d) => e
                    == RenderingError::CouldntLoadHandlebarTemplates(d) && final(run).log@ == old(run).log@,
                RawOutcome::RenderFailed(d) => e matches
                    RenderingError::HandlebarsRenderingFailed(l) && l == final(run).log && final(run).log@ == old(run).log@ + "Starting handlebars rendering."@
                    + "Handlebars rendering failed: "@ + d@,
                RawOutcome::OutputWriteFailed(d) => e matches
                    RenderingError::HandlebarsRenderingFailed(l) && l == final(run).log && final(run).log@ == old(run).log@ + "Starting handlebars rendering."@
                    + "Couldn't write rendered template: "@ + d@,
                RawOutcome::Rendered => false,
            },
        },
{
    match outcome {
        RawOutcome::TemplatesLoadFailed(d) => {
            Err(RenderingError::CouldntLoadHandlebarTemplates(d))
        },
        RawOutcome::Rendered => {
            run.log.append("Starting handlebars rendering.");
            Ok(())
        },
        RawOutcome::RenderFailed(d) => {
            run.log.append("Starting handlebars rendering.");
            let note = join2("Handlebars rendering failed: ", d.as_str());
            run.log.append(note.as_str());
            Err(RenderingError::HandlebarsRenderingFailed(run.log.clone()))
        },
        RawOutcome::OutputWriteFailed(d) => {
            run.log.append("Starting handlebars rendering.");
            let note = join2("Couldn't write rendered template: ", d.as_str());
            run.log.append(note.as_str());
            Err(RenderingError::HandlebarsRenderingFailed(run.log.clone()))
        },
    }
}

/// How a sandboxed child process run went, as the shell observed it.
pub enum ProcessOutcome {
    /// The child ran to completion; the text is its combined output.
    Ran(String),
    /// The child could not be started; the text is the spawn error.
    SpawnFailed(String),
}

/// Maps a layout-engine outcome onto the pipeline.  The run succeeded
/// exactly when the combined output contains the builder's success line;
/// any other outcome fails the format with the log.
pub fn on_vivliostyle_outcome(run: &mut PipelineRun, outcome: ProcessOutcome) -> (r: Result<
    (),
    RenderingError,
>)
    ensures
        final(run).steps@ == old(run).steps@,
        final(run).next_step == old(run).next_step,
        final(run).carry@ == old(run).carry@,
        final(run).scratch_dirs@ == old(run).scratch_dirs@,
        match r {
            Ok(()) => {
                &&& outcome matches ProcessOutcome::Ran(out) && spec_contains(
                    out@,
                    "Built successfully"@,
                )
                &&& outcome matches ProcessOutcome::Ran(out) ==> final(run).log@ == old(run).log@
                    + out@
            },
            Err(e) => {
                &&& e matches RenderingError::VivliostyleRenderingFailed(l) && l == final(run).log
                &&& match outcome {
                    ProcessOutcome::Ran(out) => !spec_contains(out@, "Built successfully"@)
                        && final(run).log@ == old(run).log@ + out@,
                    ProcessOutcome::SpawnFailed(m) => final(run).log@ == old(run).log@
                        + "Couldn't run vivliostyle: "@ + m@,
                }
            },
        },
{
    match outcome {
        ProcessOutcome::Ran(out) => {
            let built = contains_sub(out.as_str(), "Built successfully");
            run.log.append(out.as_str());
            if built {
                Ok(())
            } else {
                Err(RenderingError::VivliostyleRenderingFailed(run.log.clone()))
            }
        },
        ProcessOutcome::SpawnFailed(m) => {
            let note = join2("Couldn't run vivliostyle: ", m.as_str());
            run.log.append(note.as_str());
            Err(RenderingError::VivliostyleRenderingFailed(run.log.clone()))
        },
    }
}

/// Maps a converter outcome onto the pipeline.  A converter that ran has
/// succeeded, whatever it printed; only a spawn failure fails the format.
pub fn on_pandoc_outcome(run: &mut PipelineRun, outcome: ProcessOutcome) -> (r: Result<
    (),
    RenderingError,
>)
    ensures
        final(run).steps@ == old(run).steps@,
        final(run).next_step == old(run).next_step,
        final(run).carry@ == old(run).carry@,
        final(run).scratch_dirs@ == old(run).scratch_dirs@,
        match r {
            Ok(()) => outcome matches ProcessOutcome::Ran(out) && final(run).log@ == old(run).log@
                + out@,
            Err(e) => {
                &&& e matches RenderingError::PandocConversionFailed(l) && l == final(run).log
                &&& outcome matches ProcessOutcome::SpawnFailed(m) && final(run).log@ == old(run).log@ + "Couldn't start pandoc: "@ + m@
            },
        },
{
    match outcome {
        ProcessOutcome::Ran(out) => {
            run.log.append(out.as_str());
            Ok(())
        },
        ProcessOutcome::SpawnFailed(m) => {
            let note = join2("Couldn't start pandoc: ", m.as_str());
            run.log.append(note.as_str());
            Err(RenderingError::PandocConversionFailed(run.log.clone()))
        },
    }
}

/// Checks the step's declared files-to-keep after its tool ran: every one
/// must now exist in the scratch directory (`kept_exists[i]` reports file
/// `i`).  On success the kept files, under their scratch paths, become the
/// carry into the next step, and the run advances.  A missing file fails
/// the format, naming the file and carrying the log.
pub fn check_files_to_keep(run: &mut PipelineRun, dir: &String, kept_exists: &Vec<bool>) -> (r:
    Result<(), RenderingError>)
    requires
        old(run).next_step < old(run).steps@.len(),
        kept_exists@.len() == old(run).steps@[old(run).next_step as int].files_to_keep@.len(),
        dir@.len() + 1 <= usize::MAX,
    ensures
        final(run).steps@ == old(run).steps@,
        final(run).scratch_dirs@ == old(run).scratch_dirs@,
        final(run).log@ == old(run).log@,
        match r {
            Ok(()) => {
                &&& forall|i: int| 0 <= i < kept_exists@.len() ==> kept_exists@[i]
                &&& final(run).next_step == old(run).next_step + 1
                &&& final(run).carry@.len() == kept_exists@.len()
                &&& forall|i: int| 0 <= i < kept_exists@.len() ==> (#[trigger] final(run).carry@[i])@ == dir@ + "/"@ + old(run).steps@[old(run).next_step as int].files_to_keep@[i]@
            },
            Err(e) => {
                &&& final(run).next_step == old(run).next_step
                &&& final(run).carry@ == old(run).carry@
                &&& exists|i: int|
                    {
                        &&& 0 <= i < kept_exists@.len()
                        &&& !(#[trigger] kept_exists@[i])
                        &&& e matches RenderingError::MissingExpectedFileToKeep(f, l) && f == old(run).steps@[old(run).next_step as int].files_to_keep@[i] && l == final(run).log
                    }
            },
        },
{
    let files = &run.steps[run.next_step].files_to_keep;
    let mut kept: Vec<String> = Vec::new();
    let mut i: usize = 0;
    while i < files.len()
        invariant
            *run == *old(run),
            run.next_step < run.steps@.len(),
            files@ == run.steps@[run.next_step as int].files_to_keep@,
            i <= files@.len(),
            kept_exists@.len() == files@.len(),
            dir@.len() + 1 <= usize::MAX,
            kept@.len() == i,
            forall|k: int| 0 <= k < i ==> kept_exists@[k],
            forall|k: int| 0 <= k < i ==> (#[trigger] kept@[k])@ == dir@ + "/"@ + files@[k]@,
        decreases files@.len() - i,
    {
        if !kept_exists[i] {
            let file = files[i].clone();
            let log = run.log.clone();
            proof {
                let i0: int = i as int;
                assert(!(#[trigger] kept_exists@[i0]));
                assert(file == run.steps@[run.next_step as int].files_to_keep@[i0]);
                assert(log == run.log);
            }
            return Err(RenderingError::MissingExpectedFileToKeep(file, log));
        }
        let path = join3(dir.as_str(), "/", files[i].as_str());
        kept.push(path);
        i = i + 1;
    }
    run.carry = kept;
    let n = run.steps.len();
    proof {
        assert(run.next_step < n);
    }
    run.next_step = run.next_step + 1;
    Ok(())
}

/// Closes a completed run: the carried files of the final step are the
/// deliverable, and every scratch directory of the run is to be deleted
/// once they are captured.
pub fn finish_pipeline(run: PipelineRun) -> (r: ExportFormatRenderingResult)
    requires
        run.next_step == run.steps@.len(),
    ensures
        r.files_to_transfer@ == run.carry@,
        r.temp_dirs@ == run.scratch_dirs@,
{
    ExportFormatRenderingResult { files_to_transfer: run.carry, temp_dirs: run.scratch_dirs }
}

/// Closes a failed run: no files are delivered, but the scratch
/// directories created so far must still be deleted with the job.
pub fn abort_pipeline(run: PipelineRun) -> (dirs: Vec<String>)
    ensures
        dirs@ == run.scratch_dirs@,
{
    run.scratch_dirs
}

} // verus!


