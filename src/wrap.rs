use vstd::prelude::*;

verus! {

/// Carries a value whose `serde` implementation is to be used for the SCALE
/// codec. The wrapper adds nothing to the encoding: no tag, no length, no
/// framing.
#[derive(Clone, Copy, Debug, Default, PartialEq, Eq, PartialOrd, Ord, Hash)]
pub struct Wrap<T>(pub T);

} // verus!
