//! The output table: the mapping from intended output file name to the
//! render context that should produce it, built once per generator run.

use vstd::prelude::*;

use crate::context::ContextBuilder;
use crate::context::ContextModel;
use crate::context::RenderContext;

verus! {

/// Builds the complete filename-to-context table for one generator run.
///
/// The table is returned as a list of pairs; its keys are distinct,
/// non-empty file names, so it is a mapping in no required order. It holds
/// exactly one entry: `BVector2d.cs`, produced from the boolean-vector
/// preset of dimension 2. Each further generated file is one more preset
/// invocation paired with a file name literal here.
pub fn build_output_pairs() -> (r: Vec<(String, RenderContext)>)
    ensures
        r@.len() == 1,
        r@[0].0@ == "BVector2d.cs"@,
        r@[0].1@ == (ContextModel {
            template_path: Option::Some("vec.cs.tera"@),
            element_t: Option::Some("bool"@),
            dim: Option::Some(2u32),
        }),
        forall|i: int, j: int|
            0 <= i < r@.len() && 0 <= j < r@.len() && i != j ==> r@[i].0@ != r@[j].0@,
        forall|i: int| 0 <= i < r@.len() ==> r@[i].0@.len() > 0,
{
    let name = String::from_str("BVector2d.cs");
    let ctx = ContextBuilder::new_bvec(2).build();
    let mut pairs: Vec<(String, RenderContext)> = Vec::new();
    pairs.push((name, ctx));
    proof {
        reveal_strlit("BVector2d.cs");
    }
    pairs
}

} // verus!
