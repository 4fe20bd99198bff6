//! What the type checker infers: a type tag with its display name and the
//! token it was inferred at.

use crate::tokens::{Token, TokenView, Types};
use vstd::prelude::*;

verus! {

/// An inferred type.
#[derive(Debug)]
pub struct TTypes {
    pub tag: Types,
    pub value: String,
    pub token: Token,
}

/// The mathematical model of a [`TTypes`].
pub struct TTypesView {
    pub tag: Types,
    pub value: Seq<char>,
    pub token: TokenView,
}

impl View for TTypes {
    type V = TTypesView;

    open spec fn view(&self) -> TTypesView {
        TTypesView { tag: self.tag, value: self.value@, token: self.token@ }
    }
}

impl Clone for TTypes {
    fn clone(&self) -> (r: TTypes)
        ensures
            r@ == self@,
    {
        TTypes { tag: self.tag, value: self.value.clone(), token: self.token.clone() }
    }
}

impl TTypes {
    /// The type of the given tag and display name, inferred at the token.
    pub fn new_type(tag: Types, value: String, token: Token) -> (r: TTypes)
        ensures
            r@ == (TTypesView { tag, value: value@, token: token@ }),
    {
        TTypes { tag, value, token }
    }

    /// The type of the given tag under its own name, inferred at the token.
    pub fn of_tag(tag: Types, token: Token) -> (r: TTypes)
        ensures
            r@ == named(tag, token@),
    {
        TTypes { tag, value: tag.string(), token }
    }

    /// The type tag.
    pub fn get_type(&self) -> (r: Types)
        ensures
            r == self@.tag,
    {
        self.tag
    }

    /// Whether the two types have the same tag, name and token.
    pub fn equals(&self, other: &TTypes) -> (r: bool)
        ensures
            r == (self@ == other@),
    {
        self.tag == other.tag && self.value == other.value && self.token.equals(&other.token)
    }
}

/// The type of the given tag under its own name, inferred at the token.
pub open spec fn named(tag: Types, token: TokenView) -> TTypesView {
    TTypesView { tag, value: tag.name(), token }
}

} // verus!
