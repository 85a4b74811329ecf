//! The message system of the broadcast tree.

use vstd::prelude::*;

verus! {

/// The broadcast-tree system whose messages carry payloads of type `M`:
/// node ids are `NodeId`, message ids are `MessageId`.
#[derive(Debug)]
pub struct PlumtreeSystem<M>(pub std::marker::PhantomData<M>);

} // verus!
