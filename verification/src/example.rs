//! A trait to show the generated items on: a source of items, one at a time.

use vstd::prelude::*;

verus! {

/// Example trait
pub trait Next {
    type Item;

    fn next(&self) -> Option<Self::Item>;
}

} // verus!
