//! Suggestions that users make on an ingredient: a change to it, a vote to
//! delete it, or both.

use crate::error::ApiError;
use vstd::prelude::*;

verus! {

/// One suggestion on an ingredient. `U` is the change that it proposes.
#[derive(Debug, PartialEq, Eq)]
pub struct IngredientSuggestion<U> {
    is_delete_vote: Option<bool>,
    update_ingredient: Option<U>,
}

/// What is done with a suggestion that is applied.
#[derive(Clone, Copy, Debug, PartialEq, Eq, Structural)]
pub enum Resolution {
    /// The ingredient is deleted.
    DeleteIngredient,
    /// The ingredient takes the suggested values, and the suggestion goes.
    UpdateIngredient,
}

impl<U> IngredientSuggestion<U> {
    /// The vote on deleting the ingredient, if the suggestion has one.
    pub closed spec fn delete_vote(&self) -> Option<bool> {
        self.is_delete_vote
    }

    /// The change to the ingredient, if the suggestion has one.
    pub closed spec fn update(&self) -> Option<U> {
        self.update_ingredient
    }

    /// A suggestion with the given vote and change.
    pub fn new(is_delete_vote: Option<bool>, update_ingredient: Option<U>) -> (suggestion:
        IngredientSuggestion<U>)
        ensures
            suggestion.delete_vote() == is_delete_vote,
            suggestion.update() == update_ingredient,
    {
        IngredientSuggestion { is_delete_vote, update_ingredient }
    }

    /// Whether the suggestion says nothing: neither a vote nor a change.
    pub fn is_irrelevant(&self) -> (irrelevant: bool)
        ensures
            irrelevant == (self.delete_vote() is None && self.update() is None),
    {
        self.is_delete_vote.is_none() && self.update_ingredient.is_none()
    }

    /// Takes the suggestion apart for storing, or refuses one that says
    /// nothing as a bad request.
    pub fn into_parts(self) -> (parts: Result<(Option<bool>, Option<U>), ApiError>)
        ensures
            parts == (if self.delete_vote() is None && self.update() is None {
                Err::<(Option<bool>, Option<U>), ApiError>(ApiError::BadRequest)
            } else {
                Ok::<(Option<bool>, Option<U>), ApiError>((self.delete_vote(), self.update()))
            }),
    {
        if self.is_irrelevant() {
            Err(ApiError::BadRequest)
        } else {
            Ok((self.is_delete_vote, self.update_ingredient))
        }
    }
}

/// What applying a stored suggestion does: a suggestion that votes for
/// deletion deletes the ingredient, any other updates it.
pub fn resolution(is_delete_vote: Option<bool>) -> (resolution: Resolution)
    ensures
        resolution == (if is_delete_vote == Some(true) {
            Resolution::DeleteIngredient
        } else {
            Resolution::UpdateIngredient
        }),
{
    match is_delete_vote {
        Some(true) => Resolution::DeleteIngredient,
        _ => Resolution::UpdateIngredient,
    }
}

} // verus!
