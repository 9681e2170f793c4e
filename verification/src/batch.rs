//! The batch executor's core: per-item output-path derivation, conflict
//! resolution against the existing output paths, and the index-preserving,
//! failure-isolating run over a list of inputs.
//!
//! The caller's I/O layer lists the existing output paths, reads each input
//! file (and may do so in parallel), and writes each slot's encoded bytes;
//! every decision between those edges is made here. Each item's failure is
//! captured in its own result slot and never touches a sibling.

use vstd::prelude::*;
use crate::config::{ProcessConfig, ProcessResult};
use crate::error::AppError;
use crate::pathutil::{join_path, join_path_exec, output_file_name, output_file_name_spec};
use crate::pipeline::{config_wf, decode_rgba, pipeline_supported, process_image};
use crate::resolve::{resolution_spec, resolve_output_path};
use crate::single::skipped_result;
use crate::stats::ratio_spec;

verus! {

/// One batch entry: the input path and the outcome of reading the file's
/// bytes and byte size.
pub struct BatchItem {
    pub input_path: String,
    pub read: Result<(Vec<u8>, u64), String>,
}

/// One batch slot: the result record, and the encoded bytes the caller must
/// write to the result's output path (present exactly on success; a skipped
/// file succeeds with nothing to write).
pub struct BatchOutcome {
    pub result: ProcessResult,
    pub encoded: Option<Vec<u8>>,
}

/// The base output path a batch run derives for `input_path`, before
/// conflict resolution: the derived output file name placed directly in the
/// configured output directory.
pub open spec fn batch_output_path_spec(input_path: Seq<char>, config: ProcessConfig) -> Seq<
    char,
> {
    join_path(config.output_path@, output_file_name_spec(input_path, config.output_format))
}

/// Derives the base output path for one batch input.
pub fn derive_batch_output_path(input_path: &String, config: &ProcessConfig) -> (r: String)
    ensures
        r@ == batch_output_path_spec(input_path@, *config),
{
    let name = output_file_name(input_path.as_str(), &config.output_format);
    join_path_exec(config.output_path.as_str(), name.as_str())
}

/// What one slot says about its own item, under the conflict policy's
/// resolution of the item's base path against the existing output paths.
///
/// A resolution error fails the slot; a skip succeeds with the sentinel path
/// and nothing to write. Otherwise the slot fails exactly when its error is
/// set: a failed read or an undecodable input fails it, every supported
/// input succeeds, and a successful slot reports the item's own size, the
/// exact ratio, the resolved path, and encoded bytes of exactly the reported
/// size.
pub open spec fn batch_slot_matches(
    item: BatchItem,
    config: ProcessConfig,
    existing: Seq<String>,
    slot: BatchOutcome,
) -> bool {
    let res = slot.result;
    let base = batch_output_path_spec(item.input_path@, config);
    match resolution_spec(base, config.file_conflict_mode, existing) {
        None => !res.success && res.error is Some && slot.encoded is None,
        Some(None) => res.success && res.error is None && res.original_size == 0 && res.new_size
            == 0 && res.output_path@ == "Skipped (file exists)"@ && slot.encoded is None,
        Some(Some(p)) => {
            &&& (res.success <==> res.error is None)
            &&& (res.success <==> slot.encoded is Some)
            &&& (item.read matches Err(_) ==> !res.success)
            &&& (item.read matches Ok(rd) ==> (decode_rgba(rd.0@) is None ==> !res.success))
            &&& (item.read matches Ok(rd) && pipeline_supported(rd.0@, config) ==> res.success)
            &&& (res.success ==> (item.read matches Ok(rd) && res.original_size == rd.1
                && res.compression_ratio == ratio_spec(rd.1, res.new_size) && res.output_path@
                == p && (slot.encoded matches Some(b) && b@.len() == res.new_size)))
        },
    }
}

/// The result record for an item whose processing failed.
fn failure_result(error: AppError) -> (r: ProcessResult)
    ensures
        !r.success,
        r.error is Some,
{
    ProcessResult {
        success: false,
        original_size: 0,
        new_size: 0,
        compression_ratio: 0,
        output_path: String::new(),
        error: Some(error.message()),
    }
}

/// Copies an optional string.
fn clone_opt_string(o: &Option<String>) -> (r: Option<String>)
    ensures
        match r {
            Some(s) => o matches Some(t) && s@ == t@,
            None => o is None,
        },
{
    match o {
        Some(s) => Some(s.clone()),
        None => None,
    }
}

/// Runs the pipeline for one batch item that was read successfully, aiming
/// at the already-resolved output path.
fn process_batch_item(
    bytes: &Vec<u8>,
    size: u64,
    config: &ProcessConfig,
    out_path: String,
) -> (slot: BatchOutcome)
    requires
        config_wf(*config),
    ensures
        slot.result.success <==> slot.result.error is None,
        slot.result.success <==> slot.encoded is Some,
        decode_rgba(bytes@) is None ==> !slot.result.success,
        pipeline_supported(bytes@, *config) ==> slot.result.success,
        slot.result.success ==> slot.result.original_size == size && slot.result.compression_ratio
            == ratio_spec(size, slot.result.new_size) && slot.result.output_path@ == out_path@ && (
        slot.encoded matches Some(b) && b@.len() == slot.result.new_size),
{
    let item_config = ProcessConfig {
        output_format: config.output_format,
        resize: config.resize,
        png_options: config.png_options,
        jpeg_options: config.jpeg_options,
        webp_options: config.webp_options,
        metadata_mode: config.metadata_mode,
        file_conflict_mode: config.file_conflict_mode,
        preserve_folder_structure: config.preserve_folder_structure,
        base_path: clone_opt_string(&config.base_path),
        output_path: out_path,
    };
    proof {
        assert(pipeline_supported(bytes@, item_config) == pipeline_supported(bytes@, *config));
    }
    match process_image(bytes, size, &item_config) {
        Ok((encoded, res)) => BatchOutcome { result: res, encoded: Some(encoded) },
        Err(e) => BatchOutcome { result: failure_result(e), encoded: None },
    }
}

/// Runs the pipeline over a list of read inputs, resolving each item's
/// derived output path against the existing paths first, per the configured
/// conflict policy. The slot list has one entry per item, in item order;
/// each slot reflects its own item alone, so one failed item never disturbs
/// its siblings.
pub fn process_batch(items: &Vec<BatchItem>, config: &ProcessConfig, existing: &Vec<String>) -> (r:
    Vec<BatchOutcome>)
    requires
        config_wf(*config),
    ensures
        r@.len() == items@.len(),
        forall|i: int| 0 <= i < items@.len() ==> batch_slot_matches(
            items@[i],
            *config,
            existing@,
            #[trigger] r@[i],
        ),
{
    let mut results: Vec<BatchOutcome> = Vec::new();
    let mut i: usize = 0;
    while i < items.len()
        invariant
            i <= items@.len(),
            results@.len() == i,
            config_wf(*config),
            forall|j: int| 0 <= j < i ==> batch_slot_matches(
                items@[j],
                *config,
                existing@,
                #[trigger] results@[j],
            ),
        decreases items@.len() - i,
    {
        let item = &items[i];
        let base = derive_batch_output_path(&item.input_path, config);
        let slot = match resolve_output_path(&base, &config.file_conflict_mode, existing) {
            Err(e) => BatchOutcome { result: failure_result(e), encoded: None },
            Ok(None) => BatchOutcome { result: skipped_result(), encoded: None },
            Ok(Some(path)) => match &item.read {
                Ok((bytes, size)) => process_batch_item(bytes, *size, config, path),
                Err(m) => BatchOutcome {
                    result: failure_result(AppError::Io(m.clone())),
                    encoded: None,
                },
            },
        };
        results.push(slot);
        i = i + 1;
    }
    results
}

} // verus!
