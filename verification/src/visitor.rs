//! The rewrite pass: a visitor over the syntax tree that replaces every
//! member access on `console` by `void 0`.
//!
//! The tree is swc's. Walking it is swc's work too; what this module
//! decides is what happens at each expression once its children are done.

use vstd::prelude::*;
use swc_ecmascript::ast::{Expr, Lit, MemberProp, Number, UnaryExpr, UnaryOp};
use swc_ecmascript::visit::{VisitMut, VisitMutWith};
use crate::model::{
    lemma_pass_children, lemma_pass_leaves_no_target, pass_each, replacement, rewrite_root,
    shape, target_free, target_free_each, visited, Tree,
};
use crate::pattern::{is_target, target_span, Operand, Property, Shape, Span};

verus! {

/// swc's `Expr`, an expression of the syntax tree.
#[verifier::external_type_specification]
#[verifier::external_body]
pub struct ExExpr(Expr);

/// The tree that an expression of swc is. Its kind is read off the
/// variant of `Expr`: `Ident` with its `sym`, `Member` with the variant of
/// its `MemberProp` and its span, `Unary` with `UnaryOp::Void` and its span,
/// `Lit`, or other. Its children are the expressions that swc's walk reaches
/// from it without passing through another expression, in the order of
/// the walk: for a `Member` the object first, for a `Unary` the operand.
pub uninterp spec fn expr_tree(expr: Expr) -> Tree;

/// Reads the shape of an expression off swc's `Expr`: a `Member` node gives
/// `Shape::Member` with its object (`Ident` with its `sym`, or other), the
/// variant of its `MemberProp` and its span; all else is `Shape::Other`.
#[verifier::external_body]
fn shape_of(expr: &Expr) -> (found: Shape)
    ensures
        found == shape(expr_tree(*expr)),
{
    match expr {
        Expr::Member(m) => Shape::Member {
            object: match &*m.obj {
                Expr::Ident(i) => Operand::Identifier(i.sym.to_string()),
                _ => Operand::Other,
            },
            property: match &m.prop {
                MemberProp::Ident(_) => Property::Identifier,
                MemberProp::PrivateName(_) => Property::Private,
                MemberProp::Computed(_) => Property::Computed,
            },
            span: Span { lo: m.span.lo.0, hi: m.span.hi.0 },
        },
        _ => Shape::Other,
    }
}

/// Builds swc's `Expr::Unary` for `void 0`: operator `UnaryOp::Void` over the
/// numeric literal zero, both carrying `span`.
#[verifier::external_body]
fn void_zero(span: Span) -> (expr: Expr)
    ensures
        expr_tree(expr) == replacement(span),
{
    let span = swc_common::Span {
        lo: swc_common::BytePos(span.lo),
        hi: swc_common::BytePos(span.hi),
    };
    let zero = Number { span, value: Default::default(), raw: None };
    Expr::Unary(UnaryExpr { span, op: UnaryOp::Void, arg: Box::new(Expr::Lit(Lit::Num(zero))) })
}

/// The visitor that erases member accesses on `console`.
pub struct ConsoleEraser;

/// Hands the children of `expr` to the visitor, through swc's
/// `VisitMutWith::visit_mut_children_with`. What is taken from swc is that
/// it calls `visit_mut_expr` on every child, once and in order, and changes
/// nothing else of `expr`; that each child then has been through the pass,
/// and is as it was where it held no target, is what `visit_mut_expr`
/// ensures.
#[verifier::external_body]
fn visit_children(eraser: &mut ConsoleEraser, expr: &mut Expr)
    ensures
        expr_tree(*final(expr)).kind == expr_tree(*old(expr)).kind,
        expr_tree(*final(expr)).children.len() == expr_tree(*old(expr)).children.len(),
        forall|i: int|
            0 <= i < expr_tree(*old(expr)).children.len() ==> visited(
                expr_tree(*old(expr)).children[i],
                #[trigger] expr_tree(*final(expr)).children[i],
            ),
        target_free_each(expr_tree(*old(expr)).children) ==> *final(expr) == *old(expr),
{
    expr.visit_mut_children_with(eraser);
}

/// Applies the rule to one expression, whose children are left alone: a
/// target is replaced by `void 0` over its own span, anything else stays
/// as it is.
pub fn rewrite_node(expr: &mut Expr)
    ensures
        expr_tree(*final(expr)) == rewrite_root(expr_tree(*old(expr))),
        !is_target(shape(expr_tree(*old(expr)))) ==> *final(expr) == *old(expr),
{
    let found = shape_of(expr);
    match target_span(&found) {
        Some(span) => {
            *expr = void_zero(span);
        },
        None => {},
    }
}

impl VisitMut for ConsoleEraser {
    /// Visits the children first and the expression itself last, so that
    /// nested targets are rewritten from the inside out: the expression
    /// goes through the pass. An expression that holds no target is left
    /// as it was, with all that is below it.
    fn visit_mut_expr(&mut self, expr: &mut Expr)
        ensures
            visited(expr_tree(*old(expr)), expr_tree(*final(expr))),
            target_free(expr_tree(*old(expr))) ==> *final(expr) == *old(expr),
    {
        visit_children(self, expr);
        proof {
            let before = expr_tree(*old(expr));
            lemma_pass_children(before);
            assert(expr_tree(*expr).children =~= pass_each(before.children));
        }
        rewrite_node(expr);
    }
}

/// An expression that has been visited holds no target, so that another
/// visit leaves it as it is: `after` stands for `before` after a visit.
pub proof fn lemma_visited_holds_no_target(before: Expr, after: Expr)
    requires
        visited(expr_tree(before), expr_tree(after)),
    ensures
        target_free(expr_tree(after)),
{
    lemma_pass_leaves_no_target(expr_tree(before));
}

} // verus!
