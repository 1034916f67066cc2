//! Where the public character rules markdown lies.

use crate::roles::data::rules_path_of;
use crate::roles::Character;
use vstd::prelude::*;
use vstd::string::*;

verus! {

/// Path of the `docs/roles/...` markdown for `character` under the repository root.
pub fn rules_markdown_path(root: &str, character: Character) -> (p: String)
    ensures
        p@ == root@ + "/"@ + rules_path_of(character),
{
    let mut p = root.to_owned();
    p.append("/");
    p.append(character.rules_doc_path());
    p
}

} // verus!
