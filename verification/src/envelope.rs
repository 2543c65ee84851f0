//! Resolution of a GraphQL response envelope: deciding, from the
//! `data` / `errors` pair the server sent back, what the caller gets.

use vstd::prelude::*;
use crate::error::{ByoError, ByoResult, GraphqlError};

verus! {

/// What a response with the given `data` and `errors` parts resolves
/// to: server-reported errors, when there are any, take precedence
/// over data; a response with neither errors nor data is `NoData`.
pub open spec fn resolved<D>(data: Option<D>, errors: Option<Vec<GraphqlError>>) -> ByoResult<D> {
    if errors is Some && errors.unwrap()@.len() > 0 {
        Err(ByoError::Graphql(errors.unwrap()))
    } else if data is Some {
        Ok(data.unwrap())
    } else {
        Err(ByoError::NoData)
    }
}

/// Resolves the `data` / `errors` pair of a parsed response into the
/// typed payload or the error that the response stands for.
pub fn extract_data<D>(data: Option<D>, errors: Option<Vec<GraphqlError>>) -> (r: ByoResult<D>)
    ensures
        r == resolved(data, errors),
{
    match errors {
        Some(errs) => {
            if errs.len() > 0 {
                Err(ByoError::Graphql(errs))
            } else {
                match data {
                    Some(d) => Ok(d),
                    None => Err(ByoError::NoData),
                }
            }
        },
        None => {
            match data {
                Some(d) => Ok(d),
                None => Err(ByoError::NoData),
            }
        },
    }
}

/// Server-reported errors take precedence: a response whose `errors`
/// array is non-empty resolves to `ByoError::Graphql`, never to the
/// data, even when `data` is also present.
pub proof fn lemma_errors_take_precedence<D>(data: Option<D>, errors: Option<Vec<GraphqlError>>)
    requires
        errors is Some,
        errors.unwrap()@.len() > 0,
    ensures
        resolved(data, errors) == Err::<D, ByoError>(ByoError::Graphql(errors.unwrap())),
{
}

/// What the "first item" of a response mapping is: the value of the
/// mapping's first entry, or `NoData` when the mapping is empty or
/// that value is absent. Which entry comes first is the caller's
/// affair: a GraphQL `data` object is usually read from an unordered
/// mapping, so a query should select exactly one top-level field.
pub open spec fn first_of<D>(entries: Seq<(String, Option<D>)>) -> ByoResult<D> {
    if entries.len() == 0 {
        Err(ByoError::NoData)
    } else {
        match entries[0].1 {
            Some(v) => Ok(v),
            None => Err(ByoError::NoData),
        }
    }
}

/// Takes the single (or first) entry of a response mapping, given as a
/// sequence of key/value pairs, and unwraps its value; fails with
/// `NoData` when the mapping is empty or the value is absent.
pub fn extract_first_item<D>(entries: Vec<(String, Option<D>)>) -> (r: ByoResult<D>)
    ensures
        r == first_of(entries@),
{
    let mut entries = entries;
    if entries.len() == 0 {
        Err(ByoError::NoData)
    } else {
        let pair = entries.remove(0);
        match pair.1 {
            Some(v) => Ok(v),
            None => Err(ByoError::NoData),
        }
    }
}

/// On a mapping with exactly one entry: an absent value fails with
/// `NoData`, a present value is returned unwrapped.
pub proof fn lemma_first_item_single<D>(entry: (String, Option<D>))
    ensures
        entry.1 is None ==> first_of(seq![entry]) == Err::<D, ByoError>(ByoError::NoData),
        entry.1 is Some ==> first_of(seq![entry]) == Ok::<D, ByoError>(entry.1.unwrap()),
{
}

} // verus!
