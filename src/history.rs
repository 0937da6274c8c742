//! The search history: a list of past responses that each run extends by one.
use vstd::prelude::*;

verus! {

/// The history after `entry` is appended to what was stored, where nothing
/// readable stored counts as an empty history.
pub open spec fn appended<T>(stored: Option<Seq<T>>, entry: T) -> Seq<T> {
    match stored {
        Some(s) => s.push(entry),
        None => seq![entry],
    }
}

/// Appends a response to the stored history; a history that could not be read
/// counts as empty.
pub fn append_history<T>(stored: Option<Vec<T>>, entry: T) -> (r: Vec<T>)
    ensures
        r@ == appended(
            match stored {
                Some(v) => Some(v@),
                None => None,
            },
            entry,
        ),
{
    let mut history = match stored {
        Some(v) => v,
        None => Vec::new(),
    };
    history.push(entry);
    proof {
        assert(history@ =~= appended(
            match stored {
                Some(v) => Some(v@),
                None => None,
            },
            entry,
        ));
    }
    history
}

/// Appending to a history that does not exist yet gives the new response
/// alone; appending again gives two responses, the first one unchanged.
pub proof fn lemma_append_from_nothing<T>(first: T, second: T)
    ensures
        appended(None, first) == seq![first],
        appended(Some(appended(None, first)), second) == seq![first, second],
        appended(Some(appended(None, first)), second)[0] == first,
{
    assert(appended(Some(appended(None, first)), second) =~= seq![first, second]);
}

} // verus!
