//! The export-format data model: a template bundle declares, per export
//! format, an ordered pipeline of export steps, each implemented by the
//! templating engine, the layout engine, or the document converter.

use vstd::prelude::*;

verus! {

/// Templating step: render the entry-point template against the prepared
/// project and write the result into the scratch directory.
pub struct RawExportStep {
    /// File name of the entry-point template, e.g. `book.hbs.html`.
    pub entry_point: String,
    /// File the rendered output is written to, relative to scratch.
    pub output_file: String,
}

/// Layout step: the layout engine builds `input_file` into `output_file`
/// inside the sandbox.
pub struct VivliostyleExportStep {
    pub input_file: String,
    pub output_file: String,
    /// Pass the press-ready flag to the builder.
    pub press_ready: bool,
}

/// Conversion step: the document converter turns `input_file` (in
/// `input_format`) into `output_file` (in `output_format`); each optional
/// field adds one flag when present.
pub struct PandocExportStep {
    pub input_file: String,
    pub input_format: String,
    pub output_file: String,
    pub output_format: String,
    pub shift_heading_level_by: Option<i64>,
    pub metadata_file: Option<String>,
    pub epub_cover_image_path: Option<String>,
    pub epub_title_page: Option<bool>,
    pub epub_metadata_file: Option<String>,
    pub epub_embed_fonts: Option<Vec<String>>,
}

/// The kind-specific payload of one export step.
pub enum ExportStepData {
    Raw(RawExportStep),
    Vivliostyle(VivliostyleExportStep),
    Pandoc(PandocExportStep),
}

/// One stage of an export pipeline.
pub struct ExportStep {
    pub name: String,
    pub data: ExportStepData,
    /// Relative paths that must exist after the step and are carried into
    /// the next step and ultimately returned to the peer.
    pub files_to_keep: Vec<String>,
}

/// A named, ordered pipeline of export steps producing one deliverable.
pub struct ExportFormat {
    pub slug: String,
    pub export_steps: Vec<ExportStep>,
}

/// First format in the sequence whose slug reads `slug`, if any.
pub open spec fn spec_find_format(formats: Seq<ExportFormat>, slug: Seq<char>) -> Option<
    ExportFormat,
>
    decreases formats.len(),
{
    if formats.len() == 0 {
        None
    } else if formats[0].slug@ == slug {
        Some(formats[0])
    } else {
        spec_find_format(formats.skip(1), slug)
    }
}

/// Looks an export format up by slug.
pub fn find_format<'a>(formats: &'a Vec<ExportFormat>, slug: &String) -> (r: Option<&'a ExportFormat>)
    ensures
        match r {
            Some(f) => spec_find_format(formats@, slug@) == Some(*f),
            None => spec_find_format(formats@, slug@) is None,
        },
{
    let n = formats.len();
    let mut i: usize = 0;
    proof {
        assert(formats@.skip(0) =~= formats@);
    }
    while i < n
        invariant
            n == formats@.len(),
            i <= n,
            spec_find_format(formats@, slug@) == spec_find_format(formats@.skip(i as int), slug@),
        decreases n - i,
    {
        proof {
            assert(formats@.skip(i as int)[0] == formats@[i as int]);
        }
        if formats[i].slug == *slug {
            return Some(&formats[i]);
        }
        proof {
            assert(formats@.skip(i as int).skip(1) =~= formats@.skip(i as int + 1));
        }
        i = i + 1;
    }
    None
}


/// Converter steps match up to the value of every field; the font list is
/// compared element for element.
pub open spec fn pandoc_eqv(a: PandocExportStep, b: PandocExportStep) -> bool {
    &&& a.input_file == b.input_file
    &&& a.input_format == b.input_format
    &&& a.output_file == b.output_file
    &&& a.output_format == b.output_format
    &&& a.shift_heading_level_by == b.shift_heading_level_by
    &&& a.metadata_file == b.metadata_file
    &&& a.epub_cover_image_path == b.epub_cover_image_path
    &&& a.epub_title_page == b.epub_title_page
    &&& a.epub_metadata_file == b.epub_metadata_file
    &&& match (a.epub_embed_fonts, b.epub_embed_fonts) {
        (Some(x), Some(y)) => x@ == y@,
        (None, None) => true,
        _ => false,
    }
}

/// Step payloads match: same kind, same fields.
pub open spec fn step_data_eqv(a: ExportStepData, b: ExportStepData) -> bool {
    match (a, b) {
        (ExportStepData::Raw(x), ExportStepData::Raw(y)) => x == y,
        (ExportStepData::Vivliostyle(x), ExportStepData::Vivliostyle(y)) => x == y,
        (ExportStepData::Pandoc(x), ExportStepData::Pandoc(y)) => pandoc_eqv(x, y),
        _ => false,
    }
}

/// Steps match: same name, payload, and files to keep.
pub open spec fn step_eqv(a: ExportStep, b: ExportStep) -> bool {
    &&& a.name == b.name
    &&& step_data_eqv(a.data, b.data)
    &&& a.files_to_keep@ == b.files_to_keep@
}

/// Step sequences match pairwise.
pub open spec fn steps_eqv(a: Seq<ExportStep>, b: Seq<ExportStep>) -> bool {
    &&& a.len() == b.len()
    &&& forall|i: int| 0 <= i < a.len() ==> step_eqv(#[trigger] a[i], #[trigger] b[i])
}

/// Copies one converter step; the copy matches the original.
pub fn dup_pandoc(p: &PandocExportStep) -> (r: PandocExportStep)
    ensures
        pandoc_eqv(*p, r),
{
    PandocExportStep {
        input_file: p.input_file.clone(),
        input_format: p.input_format.clone(),
        output_file: p.output_file.clone(),
        output_format: p.output_format.clone(),
        shift_heading_level_by: match &p.shift_heading_level_by {
            Some(v) => Some(*v),
            None => None,
        },
        metadata_file: match &p.metadata_file {
            Some(v) => Some(v.clone()),
            None => None,
        },
        epub_cover_image_path: match &p.epub_cover_image_path {
            Some(v) => Some(v.clone()),
            None => None,
        },
        epub_title_page: match &p.epub_title_page {
            Some(v) => Some(*v),
            None => None,
        },
        epub_metadata_file: match &p.epub_metadata_file {
            Some(v) => Some(v.clone()),
            None => None,
        },
        epub_embed_fonts: match &p.epub_embed_fonts {
            Some(v) => Some(crate::scheduler::clone_strings(v)),
            None => None,
        },
    }
}

/// Copies one export step; the copy matches the original.
pub fn dup_step(s: &ExportStep) -> (r: ExportStep)
    ensures
        step_eqv(*s, r),
{
    let data = match &s.data {
        ExportStepData::Raw(x) => ExportStepData::Raw(RawExportStep {
            entry_point: x.entry_point.clone(),
            output_file: x.output_file.clone(),
        }),
        ExportStepData::Vivliostyle(x) => ExportStepData::Vivliostyle(VivliostyleExportStep {
            input_file: x.input_file.clone(),
            output_file: x.output_file.clone(),
            press_ready: x.press_ready,
        }),
        ExportStepData::Pandoc(x) => ExportStepData::Pandoc(dup_pandoc(x)),
    };
    ExportStep {
        name: s.name.clone(),
        data,
        files_to_keep: crate::scheduler::clone_strings(&s.files_to_keep),
    }
}

/// Copies a whole step pipeline; the copy matches the original pairwise.
pub fn dup_steps(steps: &Vec<ExportStep>) -> (r: Vec<ExportStep>)
    ensures
        steps_eqv(steps@, r@),
{
    let mut r: Vec<ExportStep> = Vec::new();
    let mut i: usize = 0;
    while i < steps.len()
        invariant
            i <= steps@.len(),
            r@.len() == i,
            forall|j: int| 0 <= j < i ==> step_eqv(#[trigger] steps@[j], #[trigger] r@[j]),
        decreases steps@.len() - i,
    {
        r.push(dup_step(&steps[i]));
        i = i + 1;
    }
    r
}

} // verus!

