//! What the directory scanner is asked for when it gathers reference code.

use vstd::prelude::*;

verus! {

/// The pattern that selects every file of a directory tree.
pub const ALL_FILES: &'static str = "**/*";

/// The filters handed to the directory scanner.
pub struct ScanSettings {
    /// Glob patterns of the files whose content is gathered.
    pub selected: Vec<String>,
    /// Glob patterns of the files left out.
    pub excluded: Vec<String>,
    /// Glob patterns of the files shown in the tree only.
    pub tree_listed: Vec<String>,
    /// Whether only the tree is rendered, without file contents.
    pub tree_only: bool,
}

impl ScanSettings {
    /// Every file of the tree with its content, none left out.
    pub fn whole_tree() -> (r: ScanSettings)
        ensures
            r.selected@.len() == 1,
            r.selected@[0]@ == ALL_FILES@,
            r.excluded@.len() == 0,
            r.tree_listed@.len() == 0,
            !r.tree_only,
    {
        let mut selected: Vec<String> = Vec::new();
        selected.push(ALL_FILES.to_owned());
        ScanSettings { selected, excluded: Vec::new(), tree_listed: Vec::new(), tree_only: false }
    }
}

} // verus!
