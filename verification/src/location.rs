//! Places in the file system, as steps below a base directory that the library never looks
//! into.
use vstd::prelude::*;
use vstd::string::*;

use crate::text::views;

verus! {

/// A place in the file system. The base directory `B` is a path of the host program.
pub enum Location<'a, B> {
    /// A path that is used as it stands.
    Explicit(String),
    /// The base directory, extended by each step in order.
    Below { base: &'a B, steps: Vec<String> },
}

/// A place, its texts as sequences of characters.
pub enum LocationView<B> {
    Explicit(Seq<char>),
    Below { base: B, steps: Seq<Seq<char>> },
}

impl<'a, B> View for Location<'a, B> {
    type V = LocationView<B>;

    open spec fn view(&self) -> LocationView<B> {
        match self {
            Location::Explicit(path) => LocationView::Explicit(path@),
            Location::Below { base, steps } => LocationView::Below {
                base: **base,
                steps: views(steps@),
            },
        }
    }
}

/// The place one step below a directory.
pub fn below<'a, B>(base: &'a B, step: &str) -> (place: Location<'a, B>)
    ensures
        place@ == (LocationView::Below { base: *base, steps: seq![step@] }),
{
    let mut steps: Vec<String> = Vec::new();
    steps.push(step.to_owned());
    assert(views(steps@) =~= seq![step@]);
    Location::Below { base, steps }
}

/// The place two steps below a directory.
pub fn two_below<'a, B>(base: &'a B, first: &str, second: &str) -> (place: Location<'a, B>)
    ensures
        place@ == (LocationView::Below { base: *base, steps: seq![first@, second@] }),
{
    let mut steps: Vec<String> = Vec::new();
    steps.push(first.to_owned());
    steps.push(second.to_owned());
    assert(views(steps@) =~= seq![first@, second@]);
    Location::Below { base, steps }
}

} // verus!
