//! The file collector's selection step: which entries of a directory walk
//! are candidate source files.

use vstd::prelude::*;
use vstd::string::StrSliceExecFns;

verus! {

/// One filesystem entry as the directory walk presented it: the entry's
/// bare file name and its full path, in the walk's own order.
#[derive(Debug)]
pub struct SourceEntry {
    /// The entry's file name, its path's last component.
    pub file_name: String,
    /// The entry's full path, as presented by the walk.
    pub path: String,
}

/// The name ends with the canonical Rust source extension `.rs`.
pub open spec fn has_rs_suffix(name: Seq<char>) -> bool {
    name.len() >= 3 && name[name.len() - 3] == '.' && name[name.len() - 2] == 'r' && name[name.len()
        - 1] == 's'
}

/// Decides whether a file name carries the `.rs` extension.
pub fn is_rust_source_name(name: &str) -> (r: bool)
    ensures
        r == has_rs_suffix(name@),
{
    let n: usize = name.unicode_len();
    if n < 3 {
        return false;
    }
    name.get_char(n - 3) == '.' && name.get_char(n - 2) == 'r' && name.get_char(n - 1) == 's'
}

/// The paths of exactly those entries whose file name ends in `.rs`, in
/// the walk's order.
pub open spec fn selected_paths(entries: Seq<SourceEntry>) -> Seq<String>
    decreases entries,
{
    if entries.len() == 0 {
        Seq::empty()
    } else {
        selected_paths(entries.drop_last()) + (if has_rs_suffix(entries.last().file_name@) {
            seq![entries.last().path]
        } else {
            Seq::empty()
        })
    }
}

/// Selects the candidate source files from a directory walk: exactly the
/// entries whose file name ends in `.rs`, in the walk's order. Entries
/// with any other name are dropped here, so they never need to be opened.
pub fn select_rust_sources(entries: &Vec<SourceEntry>) -> (paths: Vec<String>)
    ensures
        paths@ == selected_paths(entries@),
{
    let mut paths: Vec<String> = Vec::new();
    let mut i: usize = 0;
    while i < entries.len()
        invariant
            i <= entries.len(),
            paths@ == selected_paths(entries@.subrange(0, i as int)),
        decreases entries.len() - i,
    {
        if is_rust_source_name(entries[i].file_name.as_str()) {
            paths.push(entries[i].path.clone());
        }
        proof {
            let s = entries@;
            let t = s.subrange(0, i as int + 1);
            assert(t.drop_last() =~= s.subrange(0, i as int));
            assert(t.last() == s[i as int]);
            assert(paths@ =~= selected_paths(t));
        }
        i += 1;
    }
    proof {
        assert(entries@.subrange(0, entries@.len() as int) =~= entries@);
    }
    paths
}

} // verus!
