//! Erases calls on the `console` object from script source text.
//!
//! Source text is registered with a [`pipeline::Context`], parsed into a
//! syntax tree, rewritten by [`visitor::ConsoleEraser`] and printed again.
//! Every member access `console.name` becomes the inert expression
//! `void 0`, so that `console.log("x")` is printed as `void 0("x")`.
//!
//! Parsing, walking the tree and printing are done by swc. What is decided
//! here is stated and proved:
//!
//! - [`pattern`]: which expression is a target, on plain values;
//! - [`model`]: what the pass makes of a whole tree, and what that achieves;
//! - [`visitor`]: the visitor, which does to swc's expressions what the model
//!   says, given that swc's walk hands it every expression;
//! - [`pipeline`]: the stages of a transform and how their failures end it;
//! - [`options`]: the name of the source and the style of the error report.

use vstd::prelude::*;

pub mod model;
pub mod options;
pub mod pattern;
pub mod pipeline;
pub mod visitor;

use crate::options::{ErrorFormat, FileIdentity, Options};
use crate::pipeline::{
    ends, parses, reports, run, without_bom, Context, SourceUnit, SyntaxTree, TransformOutput,
};

verus! {

/// Transforms `s` as an anonymous source, with a context of its own and
/// the default options. Text that is not valid syntax ends in a report in
/// the normal style. For other text the tree that is printed is the tree
/// of `s` after the pass, and the transform ends with the printer's code,
/// or with a report where the printer fails.
pub fn transform_sync(s: &str) -> (result: Result<TransformOutput, String>)
    ensures
        !parses(without_bom(s@)) ==> (result matches Err(report) && reports(
            ErrorFormat::Normal,
            report@,
        )),
        parses(without_bom(s@)) ==> exists|unit: SourceUnit, tree: SyntaxTree|
            {
                &&& unit.registered()
                &&& unit.spec_identity() == FileIdentity::Anonymous
                &&& unit.spec_text() == s@
                &&& #[trigger] unit.tree().passed(tree)
                &&& ends(tree.printed(), ErrorFormat::Normal, result)
            },
{
    let context = Context::new();
    let options = Options::default();
    run(&context, s, &options)
}

} // verus!
