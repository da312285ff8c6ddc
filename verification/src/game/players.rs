use vstd::prelude::*;

verus! {

/// Who is at the controls.
#[derive(Debug)]
pub enum Player {
    Human,
    Computer,
}

} // verus!
