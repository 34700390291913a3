//! Locates, in a tree of Rust source files, every top-level function whose
//! declaration marks it as an export-boundary symbol: public visibility, a
//! `no_mangle` marker attribute, and a `"C"` (or absent) calling convention.
//! For each match the library records the exact source span and groups the
//! results per file.

mod classify;
mod collector;
mod driver;
mod span;
mod visitor;

pub use classify::FnDecl;
pub use classify::has_no_mangle_attr;
pub use classify::convention_allows_export;
pub use classify::is_export_boundary_fn;
pub use classify::is_marker_ident;
pub use classify::is_no_mangle_pub_export_c_fn;
pub use classify::lemma_all_three_conditions_required;
pub use classify::lemma_missing_convention_defaults_to_pass;
pub use collector::SourceEntry;
pub use collector::has_rs_suffix;
pub use collector::is_rust_source_name;
pub use collector::select_rust_sources;
pub use collector::selected_paths;
pub use driver::FileParse;
pub use driver::ParsedFile;
pub use driver::parse_for_no_mangle_pub_extern_c_fns;
pub use driver::reports_of;
pub use span::LineColumnEnds;
pub use visitor::NoManglePubExportCFns;
pub use visitor::SourceItem;
pub use visitor::fn_decl_matches;
pub use visitor::item_matches;
pub use visitor::matches_in;
pub use visitor::decl_in_item;
pub use visitor::decl_in_items;
pub use visitor::item_spans_ordered;
pub use visitor::items_spans_ordered;
pub use visitor::span_is_a_match;
pub use visitor::span_is_a_match_in_item;
pub use visitor::lemma_nested_match_is_found;
pub use visitor::lemma_nested_match_is_found_in_item;
pub use visitor::lemma_every_span_is_a_match;
pub use visitor::lemma_every_span_is_a_match_in_item;
pub use visitor::lemma_match_set_spans_ordered;
pub use visitor::lemma_match_set_deterministic;
