//! Query parameters of the expense listings.

use crate::utils::numbers::{parse_u32, u32_reading};
use vstd::prelude::*;

verus! {

/// Paging of a listing.
#[derive(Debug, Clone, PartialEq, Eq)]
pub struct Params {
    pub limit: Option<u32>,
    pub offset: Option<u32>,
}

/// What a query parameter that holds a number stands for: nothing where it
/// is absent or empty, else the number it spells, or the objection to its
/// spelling.
pub open spec fn optional_number(text: Option<Seq<char>>) -> Result<Option<u32>, Seq<char>> {
    match text {
        None => Ok(None),
        Some(t) => if t.len() == 0 {
            Ok(None)
        } else {
            match u32_reading(t) {
                Ok(n) => Ok(Some(n)),
                Err(e) => Err(e.words()),
            }
        },
    }
}

/// Reads a query parameter that holds a number; an empty one counts as
/// absent.
pub fn empty_string_as_none(text: Option<&str>) -> (r: Result<Option<u32>, String>)
    ensures
        match r {
            Ok(number) => optional_number(text_view(text)) == Ok::<Option<u32>, Seq<char>>(number),
            Err(reason) => optional_number(text_view(text)) == Err::<Option<u32>, Seq<char>>(
                reason@,
            ),
        },
{
    match text {
        None => Ok(None),
        Some(t) => {
            if t.as_bytes().len() == 0 {
                Ok(None)
            } else {
                match parse_u32(t) {
                    Ok(n) => Ok(Some(n)),
                    Err(e) => Err(e.message().to_owned()),
                }
            }
        },
    }
}

/// What an optional query parameter that has to spell a number stands for.
pub open spec fn plain_number(text: Option<Seq<char>>) -> Result<Option<u32>, Seq<char>> {
    match text {
        None => Ok(None),
        Some(t) => match u32_reading(t) {
            Ok(n) => Ok(Some(n)),
            Err(e) => Err(e.words()),
        },
    }
}

/// The paging that two query parameters stand for: an empty `limit` counts
/// as absent, an `offset` has to spell a number where it is present; the
/// objection to `limit` comes first.
pub open spec fn paging(limit: Option<Seq<char>>, offset: Option<Seq<char>>) -> Result<
    (Option<u32>, Option<u32>),
    Seq<char>,
> {
    match optional_number(limit) {
        Err(reason) => Err(reason),
        Ok(first) => match plain_number(offset) {
            Err(reason) => Err(reason),
            Ok(second) => Ok((first, second)),
        },
    }
}

/// The value of an optional text.
pub open spec fn text_view(text: Option<&str>) -> Option<Seq<char>> {
    match text {
        Some(t) => Some(t@),
        None => None,
    }
}

/// Reads the paging of a listing from its two query parameters.
pub fn read_params(limit: Option<&str>, offset: Option<&str>) -> (r: Result<Params, String>)
    ensures
        match r {
            Ok(params) => paging(text_view(limit), text_view(offset)) == Ok::<
                (Option<u32>, Option<u32>),
                Seq<char>,
            >((params.limit, params.offset)),
            Err(reason) => paging(text_view(limit), text_view(offset)) == Err::<
                (Option<u32>, Option<u32>),
                Seq<char>,
            >(reason@),
        },
{
    let limit = empty_string_as_none(limit)?;
    let offset = match offset {
        None => None,
        Some(t) => match parse_u32(t) {
            Ok(n) => Some(n),
            Err(e) => {
                return Err(e.message().to_owned());
            },
        },
    };
    Ok(Params { limit, offset })
}

} // verus!
