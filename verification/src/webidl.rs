//! The interface-definition module: one script and no ops.

use vstd::prelude::*;
use crate::extensions::{Extension, SourcePair};

verus! {

/// The extension, given the text of its script.
pub fn init(source: &'static str) -> (e: Extension)
    ensures
        e.js_files().len() == 1,
        e.js_files()[0].0@ == "deno:op_crates/webidl/00_webidl.js"@,
        e.js_files()[0].1 == source,
        e.ops() =~= Seq::empty(),
        e.opstate_fn() is None,
        e.middleware_fn() is None,
        !e.ops_consumed(),
        !e.state_consumed(),
{
    let mut files: Vec<SourcePair> = Vec::new();
    files.push(("deno:op_crates/webidl/00_webidl.js", source));
    Extension::pure_js(files)
}

} // verus!
