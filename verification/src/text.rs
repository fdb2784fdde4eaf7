//! The texts that strings hold, for use in contracts.

use vstd::prelude::*;

verus! {

/// The texts of a list of strings.
pub open spec fn texts(lines: Seq<String>) -> Seq<Seq<char>> {
    Seq::new(lines.len(), |i: int| lines[i]@)
}

/// The text of an optional string.
pub open spec fn option_text(line: Option<String>) -> Option<Seq<char>> {
    match line {
        Some(s) => Some(s@),
        None => None,
    }
}

/// The text of a rendered fact, with its error as it is.
pub open spec fn fact_text<E>(fact: Result<String, E>) -> Result<Seq<char>, E> {
    match fact {
        Ok(s) => Ok(s@),
        Err(e) => Err(e),
    }
}

/// The texts of a result whose two sides are strings.
pub open spec fn result_text(result: Result<String, String>) -> Result<Seq<char>, Seq<char>> {
    match result {
        Ok(s) => Ok(s@),
        Err(e) => Err(e@),
    }
}

} // verus!
