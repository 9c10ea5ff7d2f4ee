//! Extraction of a filtered subset of an archive's entries into a directory
//! tree: the settings read from TOML, the list of candidate names, pattern
//! filtering, destination paths, and the per-entry decisions of an
//! extraction run with its statistics.

mod config;
mod filter;
mod listfile;
mod paths;
mod report;
mod run;

pub use filter::{glob_match, glob_valid, all_valid, matches_any, CompiledGlob, PatternError, PatternSet};
pub use paths::{join, last_sep, opt_view, parent_dir_of, resolution_is_stable, resolve_destination, Destination};
pub use report::{skip_record, RunReporter, RunStats, SkipReason, SkipRecord};
pub use run::{count_matching, run_counts, is_destination, is_listfile, listfile_skips_are_not_not_found, no_not_found, opened_names_pass_the_filter, run_accounting, Extraction, Mode, OpenOutcome, Phase, StreamOutcome};
pub use config::{
    all_strings, config_spec, extract_spec, field_spec, listfile_spec, lookup, parse_spec, read_field, storage_spec,
    string_result, string_spec, strings_spec, toml_parse, view_result, with_prefix, Config, ExtractConfig, StorageConfig,
    TomlValue,
};
pub use listfile::{byte_lines, listfile_names, listfile_names_spec, lossy_utf8, trim_ws};
