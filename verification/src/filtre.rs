//! The kinds of analog filters that the filtering experiments model.

use vstd::prelude::*;

verus! {

/// Kind of a filter: first- or second-order high-pass and low-pass,
/// band-pass, and band-stop (notch).
#[derive(Debug, Clone, Copy, PartialEq, Eq, Structural)]
pub enum FiltreType {
    PasseHaut2nd,
    PasseBas2nd,
    PasseHaut1er,
    PasseBas1er,
    PasseBande,
    CoupeBande,
}

} // verus!
