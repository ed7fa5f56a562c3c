//! Sandboxed tool invocations: the exact argument vectors for the layout
//! engine and the document converter, built per step.
//!
//! Every rendering tool runs inside an isolation sandbox: all namespaces
//! unshared, the scratch directory bound read-write at `/data`, the per-tool
//! environment bound read-only at `/env`, and for the layout engine a tmpfs
//! at `/tmp`, read-only system library roots, and font directories when
//! present.  The shell spawns the process; the argument list itself is
//! verified against these specifications.

use vstd::prelude::*;
use vstd::arithmetic::div_mod::lemma_div_decreases;
use vstd::string::StrSliceExecFns;
use vstd::string::StringExecFns;
use crate::formats::{PandocExportStep, VivliostyleExportStep};
use crate::ids::{hex_digit, hex_digit_exec};
use crate::textutil::{join2, push_char};

verus! {

/// The decimal digits of a non-negative number (digits below ten share
/// their characters with the hex digits).
pub open spec fn dec_seq(n: int) -> Seq<char>
    decreases n,
{
    if n < 10 {
        seq![hex_digit(n)]
    } else {
        dec_seq(n / 10).push(hex_digit(n % 10))
    }
}

/// The decimal text of an integer, with a leading minus for negatives.
pub open spec fn dec_str(v: int) -> Seq<char> {
    if v < 0 {
        seq!['-'] + dec_seq(-v)
    } else {
        dec_seq(v)
    }
}

/// Formats a non-negative number in decimal.
pub fn dec_u64(n: u64) -> (r: String)
    ensures
        r@ == dec_seq(n as int),
    decreases n,
{
    if n < 10 {
        let mut r = String::new();
        let c = hex_digit_exec(n as u8);
        push_char(&mut r, c);
        proof {
            assert(r@ =~= dec_seq(n as int));
        }
        r
    } else {
        proof {
            lemma_div_decreases(n as int, 10);
        }
        let mut r = dec_u64(n / 10);
        let c = hex_digit_exec((n % 10) as u8);
        push_char(&mut r, c);
        r
    }
}

/// Formats a signed number in decimal.
pub fn dec_i64(v: i64) -> (r: String)
    ensures
        r@ == dec_str(v as int),
{
    if v >= 0 {
        dec_u64(v as u64)
    } else {
        let mag: u64 = (-(v as i128)) as u64;
        let mut r = String::new();
        push_char(&mut r, '-');
        let digits = dec_u64(mag);
        r.append(digits.as_str());
        proof {
            assert(r@ =~= dec_str(v as int));
        }
        r
    }
}

/// Pushes one literal argument.
fn push_lit(r: &mut Vec<String>, lit: &str)
    ensures
        final(r).deep_view() == old(r).deep_view().push(lit@),
{
    r.push(lit.to_owned());
    proof {
        assert(r.deep_view() =~= old(r).deep_view().push(lit@));
    }
}

/// Pushes one computed argument.
fn push_string(r: &mut Vec<String>, s: String)
    ensures
        final(r).deep_view() == old(r).deep_view().push(s@),
{
    let ghost v = s@;
    r.push(s);
    proof {
        assert(r.deep_view() =~= old(r).deep_view().push(v));
    }
}

/// The sandbox prologue shared by every layout-engine run: unshare all
/// namespaces, mount a tmpfs at `/tmp`, bind the system library roots
/// read-only, and provide `/proc` and `/dev`.
pub open spec fn sandbox_prologue() -> Seq<Seq<char>> {
    seq![
        "bwrap"@,
        "--unshare-all"@,
        "--tmpfs"@,
        "/tmp"@,
        "--ro-bind"@,
        "/lib"@,
        "/lib"@,
        "--ro-bind"@,
        "/lib64"@,
        "/lib64"@,
        "--ro-bind"@,
        "/usr/lib"@,
        "/usr/lib"@,
        "--proc"@,
        "/proc"@,
        "--dev"@,
        "/dev"@,
    ]
}

/// The full argument vector (program first) for one layout-engine run.
/// `fonts_usr` and `fonts_local` say which system font directories exist on
/// this machine and are bound read-only into the sandbox.
pub open spec fn vivliostyle_args_spec(
    step: VivliostyleExportStep,
    temp_dir: Seq<char>,
    fonts_usr: bool,
    fonts_local: bool,
) -> Seq<Seq<char>> {
    sandbox_prologue() + seq![
        "--bind"@,
        temp_dir,
        "/data"@,
        "--ro-bind"@,
        "rendering-envs/vivliostyle"@,
        "/env"@,
        "/env/node"@,
        "/env/node_modules/.bin/vivliostyle"@,
        "build"@,
        "/data/"@ + step.input_file@,
    ] + (if fonts_usr {
        seq!["--ro-bind"@, "/usr/share/fonts"@, "/usr/share/fonts"@]
    } else {
        Seq::empty()
    }) + (if fonts_local {
        seq!["--ro-bind"@, "/usr/local/share/fonts"@, "/usr/share/fonts/more"@]
    } else {
        Seq::empty()
    }) + (if step.press_ready {
        seq!["-p"@]
    } else {
        Seq::empty()
    }) + seq![
        "-o"@,
        "/data/"@ + step.output_file@,
        "--executable-browser"@,
        "/env/chromium/chrome"@,
    ]
}

/// Builds the layout-engine argument vector for one step.
#[verifier::rlimit(50)]
pub fn vivliostyle_args(
    step: &VivliostyleExportStep,
    temp_dir: &String,
    fonts_usr: bool,
    fonts_local: bool,
) -> (r: Vec<String>)
    ensures
        r.deep_view() == vivliostyle_args_spec(*step, temp_dir@, fonts_usr, fonts_local),
{
    let mut r: Vec<String> = Vec::new();
    push_lit(&mut r, "bwrap");
    push_lit(&mut r, "--unshare-all");
    push_lit(&mut r, "--tmpfs");
    push_lit(&mut r, "/tmp");
    push_lit(&mut r, "--ro-bind");
    push_lit(&mut r, "/lib");
    push_lit(&mut r, "/lib");
    push_lit(&mut r, "--ro-bind");
    push_lit(&mut r, "/lib64");
    push_lit(&mut r, "/lib64");
    push_lit(&mut r, "--ro-bind");
    push_lit(&mut r, "/usr/lib");
    push_lit(&mut r, "/usr/lib");
    push_lit(&mut r, "--proc");
    push_lit(&mut r, "/proc");
    push_lit(&mut r, "--dev");
    push_lit(&mut r, "/dev");
    push_lit(&mut r, "--bind");
    push_string(&mut r, temp_dir.clone());
    push_lit(&mut r, "/data");
    push_lit(&mut r, "--ro-bind");
    push_lit(&mut r, "rendering-envs/vivliostyle");
    push_lit(&mut r, "/env");
    push_lit(&mut r, "/env/node");
    push_lit(&mut r, "/env/node_modules/.bin/vivliostyle");
    push_lit(&mut r, "build");
    push_string(&mut r, join2("/data/", step.input_file.as_str()));
    if fonts_usr {
        push_lit(&mut r, "--ro-bind");
        push_lit(&mut r, "/usr/share/fonts");
        push_lit(&mut r, "/usr/share/fonts");
    }
    if fonts_local {
        push_lit(&mut r, "--ro-bind");
        push_lit(&mut r, "/usr/local/share/fonts");
        push_lit(&mut r, "/usr/share/fonts/more");
    }
    if step.press_ready {
        push_lit(&mut r, "-p");
    }
    push_lit(&mut r, "-o");
    push_string(&mut r, join2("/data/", step.output_file.as_str()));
    push_lit(&mut r, "--executable-browser");
    push_lit(&mut r, "/env/chromium/chrome");
    proof {
        assert(r.deep_view() =~= vivliostyle_args_spec(*step, temp_dir@, fonts_usr, fonts_local));
    }
    r
}

/// The fixed head of every converter run, through the input-format flag.
pub open spec fn pandoc_base(step: PandocExportStep, temp_dir: Seq<char>) -> Seq<Seq<char>> {
    seq![
        "bwrap"@,
        "--unshare-all"@,
        "--bind"@,
        temp_dir,
        "/data"@,
        "--ro-bind"@,
        "rendering-envs/pandoc"@,
        "/env"@,
        "/env/pandoc"@,
        "-o"@,
        "/data/"@ + step.output_file@,
        "-t"@,
        step.output_format@,
        "-f"@,
        step.input_format@,
    ]
}

/// One optional flag argument: present exactly when the field is set.
pub open spec fn opt_flag(prefix: Seq<char>, field: Option<Seq<char>>) -> Seq<Seq<char>> {
    match field {
        Some(v) => seq![prefix + v],
        None => Seq::empty(),
    }
}

/// The embedded-font flags, one per named font, in order.
pub open spec fn font_flags(fonts: Option<Vec<String>>) -> Seq<Seq<char>> {
    match fonts {
        Some(fs) => Seq::new(fs@.len(), |i: int| "--epub-embed-font="@ + fs@[i]@),
        None => Seq::empty(),
    }
}

/// The full argument vector (program first) for one converter run; each
/// optional flag appears exactly when its field is present.
pub open spec fn pandoc_args_spec(step: PandocExportStep, temp_dir: Seq<char>) -> Seq<Seq<char>> {
    pandoc_base(step, temp_dir) + opt_flag(
        "--shift-heading-level-by="@,
        match step.shift_heading_level_by {
            Some(sh) => Some(dec_str(sh as int)),
            None => None,
        },
    ) + opt_flag(
        "--metadata-file="@,
        match step.metadata_file {
            Some(f) => Some(f@),
            None => None,
        },
    ) + opt_flag(
        "--epub-cover-image="@,
        match step.epub_cover_image_path {
            Some(p) => Some(p@),
            None => None,
        },
    ) + (match step.epub_title_page {
        Some(b) => seq![if b {
            "--epub-title-page=true"@
        } else {
            "--epub-title-page=false"@
        }],
        None => Seq::empty(),
    }) + opt_flag(
        "--epub-metadata="@,
        match step.epub_metadata_file {
            Some(f) => Some(f@),
            None => None,
        },
    ) + font_flags(step.epub_embed_fonts) + seq!["data/"@ + step.input_file@]
}

/// Builds the converter argument vector for one step.
#[verifier::rlimit(50)]
pub fn pandoc_args(step: &PandocExportStep, temp_dir: &String) -> (r: Vec<String>)
    ensures
        r.deep_view() == pandoc_args_spec(*step, temp_dir@),
{
    let mut r: Vec<String> = Vec::new();
    push_lit(&mut r, "bwrap");
    push_lit(&mut r, "--unshare-all");
    push_lit(&mut r, "--bind");
    push_string(&mut r, temp_dir.clone());
    push_lit(&mut r, "/data");
    push_lit(&mut r, "--ro-bind");
    push_lit(&mut r, "rendering-envs/pandoc");
    push_lit(&mut r, "/env");
    push_lit(&mut r, "/env/pandoc");
    push_lit(&mut r, "-o");
    push_string(&mut r, join2("/data/", step.output_file.as_str()));
    push_lit(&mut r, "-t");
    push_string(&mut r, step.output_format.clone());
    push_lit(&mut r, "-f");
    push_string(&mut r, step.input_format.clone());
    proof {
        assert(r.deep_view() =~= pandoc_base(*step, temp_dir@));
    }
    let ghost mut acc: Seq<Seq<char>> = pandoc_base(*step, temp_dir@);
    match &step.shift_heading_level_by {
        Some(sh) => {
            let mut s = "--shift-heading-level-by=".to_owned();
            let d = dec_i64(*sh);
            s.append(d.as_str());
            push_string(&mut r, s);
        },
        None => {},
    }
    proof {
        acc = acc + opt_flag(
            "--shift-heading-level-by="@,
            match step.shift_heading_level_by {
                Some(sh) => Some(dec_str(sh as int)),
                None => None,
            },
        );
        assert(r.deep_view() =~= acc);
    }
    match &step.metadata_file {
        Some(f) => {
            let mut s = "--metadata-file=".to_owned();
            s.append(f.as_str());
            push_string(&mut r, s);
        },
        None => {},
    }
    proof {
        acc = acc + opt_flag(
            "--metadata-file="@,
            match &step.metadata_file {
                Some(f) => Some(f@),
                None => None,
            },
        );
        assert(r.deep_view() =~= acc);
    }
    match &step.epub_cover_image_path {
        Some(p) => {
            let mut s = "--epub-cover-image=".to_owned();
            s.append(p.as_str());
            push_string(&mut r, s);
        },
        None => {},
    }
    proof {
        acc = acc + opt_flag(
            "--epub-cover-image="@,
            match &step.epub_cover_image_path {
                Some(p) => Some(p@),
                None => None,
            },
        );
        assert(r.deep_view() =~= acc);
    }
    match &step.epub_title_page {
        Some(b) => {
            if *b {
                push_lit(&mut r, "--epub-title-page=true");
            } else {
                push_lit(&mut r, "--epub-title-page=false");
            }
        },
        None => {},
    }
    proof {
        acc = acc + (match step.epub_title_page {
            Some(b) => seq![if b {
                "--epub-title-page=true"@
            } else {
                "--epub-title-page=false"@
            }],
            None => Seq::empty(),
        });
        assert(r.deep_view() =~= acc);
    }
    match &step.epub_metadata_file {
        Some(f) => {
            let mut s = "--epub-metadata=".to_owned();
            s.append(f.as_str());
            push_string(&mut r, s);
        },
        None => {},
    }
    proof {
        acc = acc + opt_flag(
            "--epub-metadata="@,
            match &step.epub_metadata_file {
                Some(f) => Some(f@),
                None => None,
            },
        );
        assert(r.deep_view() =~= acc);
    }
    match &step.epub_embed_fonts {
        Some(fonts) => {
            let mut i: usize = 0;
            proof {
                assert(r.deep_view() =~= acc + Seq::new(0nat, |j: int| "--epub-embed-font="@
                    + fonts@[j]@));
            }
            while i < fonts.len()
                invariant
                    i <= fonts@.len(),
                    r.deep_view() == acc + Seq::new(
                        i as nat,
                        |j: int| "--epub-embed-font="@ + fonts@[j]@,
                    ),
                decreases fonts@.len() - i,
            {
                let mut s = "--epub-embed-font=".to_owned();
                s.append(fonts[i].as_str());
                push_string(&mut r, s);
                proof {
                    assert(r.deep_view() =~= acc + Seq::new(
                        (i + 1) as nat,
                        |j: int| "--epub-embed-font="@ + fonts@[j]@,
                    ));
                }
                i = i + 1;
            }
        },
        None => {},
    }
    proof {
        acc = acc + font_flags(step.epub_embed_fonts);
        assert(r.deep_view() =~= acc);
    }
    push_string(&mut r, join2("data/", step.input_file.as_str()));
    proof {
        assert(r.deep_view() =~= pandoc_args_spec(*step, temp_dir@));
    }
    r
}

} // verus!
