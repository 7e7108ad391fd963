//! The console module: two scripts and no ops.

use vstd::prelude::*;
use crate::extensions::SourcePair;
use crate::runtime_modules::{BasicModule, JsRuntimeModule};

verus! {

/// The module, given the texts of its two scripts.
pub fn init(colors_source: &'static str, console_source: &'static str) -> (m: BasicModule)
    ensures
        m.js().len() == 2,
        m.js()[0].0@ == "deno:op_crates/console/01_colors.js"@,
        m.js()[0].1 == colors_source,
        m.js()[1].0@ == "deno:op_crates/console/02_console.js"@,
        m.js()[1].1 == console_source,
        m.ops() =~= Seq::empty(),
        m.opstate_fn() is None,
        !m.ops_consumed(),
{
    let mut files: Vec<SourcePair> = Vec::new();
    files.push(("deno:op_crates/console/01_colors.js", colors_source));
    files.push(("deno:op_crates/console/02_console.js", console_source));
    BasicModule::pure_js(files)
}

/// The name of the type declarations of this module.
pub fn get_declaration() -> (name: &'static str)
    ensures
        name@ == "lib.deno_console.d.ts"@,
{
    "lib.deno_console.d.ts"
}

} // verus!
