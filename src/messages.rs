use vstd::prelude::*;

verus! {

/// What the inference process sends to the UI.
#[derive(Debug, Clone)]
pub enum DoubleStarMessage {
    Generated(String),
    Break,
}

/// What the UI sends to the inference process.
#[derive(Debug, Clone)]
pub enum OrbitusMessage {
    Submit(String),
    Exited,
}

} // verus!
