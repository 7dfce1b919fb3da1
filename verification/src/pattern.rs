//! The pattern that the rewrite looks for, stated on plain values.
//!
//! A [`Shape`] holds what the matching rule reads of one expression node.
//! The rule is lexical: it compares names and node kinds and knows nothing
//! of bindings, so a local variable called `console` matches as well.

use vstd::prelude::*;

verus! {

/// A range of byte offsets into registered source text.
#[derive(Clone, Copy, Debug, PartialEq, Eq, Structural)]
pub struct Span {
    pub lo: u32,
    pub hi: u32,
}

/// What stands as the object of a member access.
#[derive(Clone, Debug, PartialEq, Eq)]
pub enum Operand {
    /// A plain identifier, with its name.
    Identifier(String),
    /// Any other expression.
    Other,
}

/// How a member access names the member.
#[derive(Clone, Copy, Debug, PartialEq, Eq, Structural)]
pub enum Property {
    /// `object.name`
    Identifier,
    /// `object.#name`
    Private,
    /// `object[expression]`
    Computed,
}

/// One expression node, as far as the rewrite is concerned.
#[derive(Clone, Debug, PartialEq, Eq)]
pub enum Shape {
    /// `object.property` or `object[property]`.
    Member { object: Operand, property: Property, span: Span },
    /// Every other expression.
    Other,
}

/// The name of the object whose member accesses are erased.
pub const RESERVED_NAME: &'static str = "console";

/// Whether a node is a member access on an identifier called `console`
/// that names the member by a plain identifier.
pub open spec fn is_target(shape: Shape) -> bool {
    shape matches Shape::Member { object: Operand::Identifier(name), property: Property::Identifier, .. }
        && name@ == RESERVED_NAME@
}

/// The span that the replacement of `shape` has to carry: `Some` exactly
/// for a target, and then the span of the member access.
pub fn target_span(shape: &Shape) -> (found: Option<Span>)
    ensures
        found is Some <==> is_target(*shape),
        found matches Some(span) ==> span == shape->Member_span,
{
    match shape {
        Shape::Member { object: Operand::Identifier(name), property: Property::Identifier, span } => {
            let reserved = RESERVED_NAME.to_owned();
            if *name == reserved {
                Some(*span)
            } else {
                None
            }
        },
        _ => None,
    }
}

} // verus!
