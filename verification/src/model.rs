//! What the rewrite pass is, stated on a model of the syntax tree.
//!
//! The model keeps of every expression what the rule can tell apart and
//! the expressions directly below it. On it the pass is a function, and
//! what it achieves on whole trees is proved: nothing is left to rewrite
//! after one pass, a second pass changes nothing, and a tree without
//! targets is not changed at all. The visitor's contracts speak of the
//! trees of swc in these terms.

use vstd::prelude::*;
use crate::pattern::{is_target, Operand, Property, Shape, Span};

verus! {

/// What an expression is by itself.
pub enum Kind {
    /// A plain identifier.
    Identifier { name: String },
    /// A member access. Its first child is the object; a computed property
    /// is the second.
    Member { property: Property, span: Span },
    /// The `void` operator. Its child is the operand.
    Void { span: Span },
    /// A literal.
    Literal,
    /// Anything else.
    Other,
}

/// An expression with the expressions directly below it, in the order in
/// which they are visited.
pub struct Tree {
    pub kind: Kind,
    pub children: Seq<Tree>,
}

/// What a tree is as the object of a member access.
pub open spec fn operand(tree: Tree) -> Operand {
    match tree.kind {
        Kind::Identifier { name } => Operand::Identifier(name),
        _ => Operand::Other,
    }
}

/// The shape that the rule sees at the root of a tree.
pub open spec fn shape(tree: Tree) -> Shape {
    match tree.kind {
        Kind::Member { property, span } => Shape::Member {
            object: if tree.children.len() > 0 {
                operand(tree.children[0])
            } else {
                Operand::Other
            },
            property,
            span,
        },
        _ => Shape::Other,
    }
}

/// The tree of `void 0` over `span`: `void` applied to a literal, which
/// evaluates to `undefined` and does nothing else.
pub open spec fn replacement(span: Span) -> Tree {
    Tree { kind: Kind::Void { span }, children: seq![Tree { kind: Kind::Literal, children: Seq::empty() }] }
}

/// The rule at the root of a tree whose children are done.
pub open spec fn rewrite_root(tree: Tree) -> Tree {
    if is_target(shape(tree)) {
        replacement(shape(tree)->Member_span)
    } else {
        tree
    }
}

/// The pass: the children first, each by the pass itself, then the root.
pub open spec fn pass(tree: Tree) -> Tree
    decreases tree, 1int,
{
    rewrite_root(Tree { kind: tree.kind, children: pass_children(tree) })
}

/// The children of a tree, each after the pass.
pub open spec fn pass_children(tree: Tree) -> Seq<Tree>
    decreases tree, 0int,
{
    Seq::new(
        tree.children.len(),
        |i: int|
            if 0 <= i < tree.children.len() {
                pass(tree.children[i])
            } else {
                tree
            },
    )
}

/// The pass on each tree of a sequence.
pub open spec fn pass_each(trees: Seq<Tree>) -> Seq<Tree> {
    Seq::new(trees.len(), |i: int| pass(trees[i]))
}

/// What holds of an expression before and after it was visited: it has
/// been through the pass.
pub open spec fn visited(before: Tree, after: Tree) -> bool {
    after == pass(before)
}

/// Whether no expression of the tree is a target.
pub open spec fn target_free(tree: Tree) -> bool
    decreases tree,
{
    &&& !is_target(shape(tree))
    &&& forall|i: int| 0 <= i < tree.children.len() ==> target_free(#[trigger] tree.children[i])
}

/// Whether no expression of any tree of the sequence is a target.
pub open spec fn target_free_each(trees: Seq<Tree>) -> bool {
    forall|i: int| 0 <= i < trees.len() ==> target_free(#[trigger] trees[i])
}

/// The children of a tree after the pass are its children, each after
/// the pass.
pub proof fn lemma_pass_children(tree: Tree)
    ensures
        pass_children(tree) == pass_each(tree.children),
{
    assert(pass_children(tree) =~= pass_each(tree.children));
}

/// The replacement is no target, and nothing in it is one.
pub proof fn lemma_replacement_is_no_target(span: Span)
    ensures
        target_free(replacement(span)),
{
    let literal = replacement(span).children[0];
    assert(target_free(literal));
}

/// The rule at the root: a target becomes `void 0` over its own span,
/// any other tree stays as it is, and a second look changes nothing.
pub proof fn lemma_rewrite_root(tree: Tree)
    ensures
        is_target(shape(tree)) ==> rewrite_root(tree) == replacement(shape(tree)->Member_span),
        !is_target(shape(tree)) ==> rewrite_root(tree) == tree,
        !is_target(shape(rewrite_root(tree))),
        rewrite_root(rewrite_root(tree)) == rewrite_root(tree),
{
}

/// A pass does not change what a tree is as the object of a member access:
/// an identifier stays, and nothing becomes one.
pub proof fn lemma_pass_keeps_operand(tree: Tree)
    ensures
        operand(pass(tree)) == operand(tree),
{
}

/// Whether the root is a target does not depend on whether its children
/// have been rewritten before it is looked at: a target becomes `void 0`,
/// and any other root stays over its rewritten children.
pub proof fn lemma_children_first_decides_alike(tree: Tree)
    ensures
        is_target(shape(tree)) ==> pass(tree) == replacement(shape(tree)->Member_span),
        !is_target(shape(tree)) ==> {
            &&& pass(tree).kind == tree.kind
            &&& pass(tree).children.len() == tree.children.len()
            &&& forall|i: int|
                0 <= i < tree.children.len() ==> #[trigger] pass(tree).children[i] == pass(
                    tree.children[i],
                )
        },
{
    if tree.children.len() > 0 {
        lemma_pass_keeps_operand(tree.children[0]);
    }
}

/// After one pass no target is left anywhere in the tree.
pub proof fn lemma_pass_leaves_no_target(tree: Tree)
    ensures
        target_free(pass(tree)),
    decreases tree,
{
    lemma_children_first_decides_alike(tree);
    if is_target(shape(tree)) {
        let literal = pass(tree).children[0];
        assert(target_free(literal));
    } else {
        assert forall|i: int| 0 <= i < pass(tree).children.len() implies target_free(
            #[trigger] pass(tree).children[i],
        ) by {
            lemma_pass_leaves_no_target(tree.children[i]);
        }
        if tree.children.len() > 0 {
            lemma_pass_keeps_operand(tree.children[0]);
        }
        assert(!is_target(shape(pass(tree))));
    }
}

/// A tree without targets comes out of the pass as it went in.
pub proof fn lemma_pass_keeps_target_free(tree: Tree)
    requires
        target_free(tree),
    ensures
        pass(tree) == tree,
    decreases tree,
{
    assert forall|i: int| 0 <= i < tree.children.len() implies pass(tree.children[i])
        == tree.children[i] by {
        lemma_pass_keeps_target_free(tree.children[i]);
    }
    lemma_children_first_decides_alike(tree);
    assert(pass(tree).children =~= tree.children);
}

/// A second pass changes nothing.
pub proof fn lemma_pass_idempotent(tree: Tree)
    ensures
        pass(pass(tree)) == pass(tree),
{
    lemma_pass_leaves_no_target(tree);
    lemma_pass_keeps_target_free(pass(tree));
}

/// After one pass no target is left in any tree of a sequence.
pub proof fn lemma_pass_each_leaves_no_target(trees: Seq<Tree>)
    ensures
        target_free_each(pass_each(trees)),
{
    assert forall|i: int| 0 <= i < pass_each(trees).len() implies target_free(
        #[trigger] pass_each(trees)[i],
    ) by {
        lemma_pass_leaves_no_target(trees[i]);
    }
}

/// Trees without targets come out of the pass as they went in.
pub proof fn lemma_pass_each_keeps_target_free(trees: Seq<Tree>)
    requires
        target_free_each(trees),
    ensures
        pass_each(trees) == trees,
{
    assert forall|i: int| 0 <= i < trees.len() implies pass_each(trees)[i] == trees[i] by {
        lemma_pass_keeps_target_free(trees[i]);
    }
    assert(pass_each(trees) =~= trees);
}

/// A second pass over a sequence of trees changes nothing.
pub proof fn lemma_pass_each_idempotent(trees: Seq<Tree>)
    ensures
        pass_each(pass_each(trees)) == pass_each(trees),
{
    lemma_pass_each_leaves_no_target(trees);
    lemma_pass_each_keeps_target_free(pass_each(trees));
}

} // verus!
