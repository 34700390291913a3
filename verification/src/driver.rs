//! The parse-and-report driver: assembles one report per successfully
//! parsed file, skipping the files that could not be read or parsed.

use vstd::prelude::*;
use crate::span::LineColumnEnds;
use crate::visitor::NoManglePubExportCFns;
use crate::visitor::SourceItem;
use crate::visitor::matches_in;

verus! {

/// The outcome of opening and parsing one candidate file: its path, and
/// its declaration tree — or `None` where the file could not be opened,
/// decoded as text, or parsed.
#[derive(Debug)]
pub struct FileParse {
    /// The path exactly as the collector presented it.
    pub path: String,
    /// The parsed declaration tree, or `None` for a file to skip.
    pub tree: Option<Vec<SourceItem>>,
}

/// The report for one successfully parsed file: its path and the match
/// set its tree yielded.
#[derive(Debug)]
pub struct ParsedFile {
    /// The path exactly as the collector presented it.
    pub path: String,
    /// The spans of the file's export-boundary functions, in encounter
    /// order.
    pub no_mangle_pub_export_c_fns: NoManglePubExportCFns,
}

/// The reports owed for a sequence of per-file outcomes: one entry per
/// parsed file, in input order, pairing the file's path with its match
/// set — and no entry at all for a skipped file.
pub open spec fn reports_of(files: Seq<FileParse>) -> Seq<(Seq<char>, Seq<LineColumnEnds>)>
    decreases files,
{
    if files.len() == 0 {
        Seq::empty()
    } else {
        reports_of(files.drop_last()) + (match files.last().tree {
            Some(items) => seq![(files.last().path@, matches_in(items@))],
            None => Seq::empty(),
        })
    }
}

/// Builds the per-file reports: every parsed file yields exactly one
/// report — its path and the match set of a fresh traversal of its tree —
/// in input order; a skipped file yields none and does not disturb the
/// rest. Each file's traversal starts from an empty accumulator, so no
/// report draws matches from another file's tree.
pub fn parse_for_no_mangle_pub_extern_c_fns(files: &Vec<FileParse>) -> (reports: Vec<ParsedFile>)
    ensures
        reports@.len() == reports_of(files@).len(),
        forall|j: int|
            0 <= j < reports@.len() ==> reports@[j].path@ == reports_of(files@)[j].0
                && reports@[j].no_mangle_pub_export_c_fns.0@ == reports_of(files@)[j].1,
{
    let mut reports: Vec<ParsedFile> = Vec::new();
    let mut i: usize = 0;
    while i < files.len()
        invariant
            i <= files.len(),
            reports@.len() == reports_of(files@.subrange(0, i as int)).len(),
            forall|j: int|
                0 <= j < reports@.len() ==> reports@[j].path@ == reports_of(
                    files@.subrange(0, i as int),
                )[j].0 && reports@[j].no_mangle_pub_export_c_fns.0@ == reports_of(
                    files@.subrange(0, i as int),
                )[j].1,
        decreases files.len() - i,
    {
        match &files[i].tree {
            Some(items) => {
                let mut no_mangle_pub_export_c_fns = NoManglePubExportCFns(Vec::new());
                no_mangle_pub_export_c_fns.visit_items(items);
                proof {
                    assert(no_mangle_pub_export_c_fns.0@ =~= matches_in(items@));
                }
                reports.push(
                    ParsedFile { path: files[i].path.clone(), no_mangle_pub_export_c_fns },
                );
            },
            None => {},
        }
        proof {
            let s = files@;
            let t = s.subrange(0, i as int + 1);
            assert(t.drop_last() =~= s.subrange(0, i as int));
            assert(t.last() == s[i as int]);
            assert(reports_of(t) =~= reports_of(s.subrange(0, i as int)) + (match s[i as int].tree {
                Some(items) => seq![(s[i as int].path@, matches_in(items@))],
                None => Seq::empty(),
            }));
        }
        i += 1;
    }
    proof {
        assert(files@.subrange(0, files@.len() as int) =~= files@);
    }
    reports
}

} // verus!
