//! Output-path planning for a single-image run: the derived file name, the
//! optional folder-structure-preserving placement, and the record a skipped
//! file reports.

use vstd::prelude::*;
use crate::config::{ProcessConfig, ProcessResult};
use crate::pathutil::{
    is_under, join_path, join_path_exec, output_file_name, output_file_name_spec, parent_of,
    split_dir_name, starts_with_dir,
};

verus! {

/// The view of an optional string.
pub open spec fn opt_str_view(o: Option<String>) -> Option<Seq<char>> {
    match o {
        Some(s) => Some(s@),
        None => None,
    }
}

/// The output path a single-image run aims at, before conflict resolution.
///
/// With folder-structure preservation on, an input lying under the base path
/// keeps its directory structure relative to it under the output directory;
/// every other case places the derived file name directly in the output
/// directory.
pub open spec fn single_output_base_spec(
    input: Seq<char>,
    preserve: bool,
    base: Option<Seq<char>>,
    outdir: Seq<char>,
    f: crate::config::OutputFormat,
) -> Seq<char> {
    let fname = output_file_name_spec(input, f);
    match base {
        Some(b) => {
            if preserve && is_under(b, input) {
                let rel = input.subrange(b.len() as int + 1, input.len() as int);
                let rel_parent = parent_of(rel);
                if rel_parent.len() > 0 {
                    join_path(join_path(outdir, rel_parent), fname)
                } else {
                    join_path(outdir, fname)
                }
            } else {
                join_path(outdir, fname)
            }
        },
        None => join_path(outdir, fname),
    }
}

/// Derives the pre-conflict output path for one input under `config`.
pub fn derive_single_output_path(input_path: &String, config: &ProcessConfig) -> (r: String)
    ensures
        r@ == single_output_base_spec(
            input_path@,
            config.preserve_folder_structure,
            opt_str_view(config.base_path),
            config.output_path@,
            config.output_format,
        ),
{
    let fname = output_file_name(input_path.as_str(), &config.output_format);
    if config.preserve_folder_structure {
        match &config.base_path {
            Some(bp) => {
                if starts_with_dir(input_path.as_str(), bp.as_str()) {
                    let bn: usize = bp.as_str().unicode_len();
                    let pn: usize = input_path.as_str().unicode_len();
                    let rel = input_path.as_str().substring_char(bn + 1, pn);
                    let (rel_parent, _rname) = split_dir_name(rel);
                    if rel_parent.as_str().unicode_len() > 0 {
                        let d = join_path_exec(config.output_path.as_str(), rel_parent.as_str());
                        join_path_exec(d.as_str(), fname.as_str())
                    } else {
                        join_path_exec(config.output_path.as_str(), fname.as_str())
                    }
                } else {
                    join_path_exec(config.output_path.as_str(), fname.as_str())
                }
            },
            None => join_path_exec(config.output_path.as_str(), fname.as_str()),
        }
    } else {
        join_path_exec(config.output_path.as_str(), fname.as_str())
    }
}

/// The record a run reports when the conflict policy skips an existing file:
/// counted a success, zero sizes, no error, and a sentinel in place of an
/// output path.
pub fn skipped_result() -> (r: ProcessResult)
    ensures
        r.success,
        r.original_size == 0,
        r.new_size == 0,
        r.compression_ratio == 0,
        r.output_path@ == "Skipped (file exists)"@,
        r.error is None,
{
    ProcessResult {
        success: true,
        original_size: 0,
        new_size: 0,
        compression_ratio: 0,
        output_path: String::from_str("Skipped (file exists)"),
        error: None,
    }
}

} // verus!
