use vstd::prelude::*;
use itertools::Itertools;
use crate::model::PeerId;

verus! {

/// `choice` is the node that builds are dispatched to: the first node that is
/// the local peer, or else the last node; nothing for an empty list.
pub open spec fn is_dispatch_choice(nodes: Seq<PeerId>, local: Seq<u8>, choice: Option<usize>) -> bool {
    match choice {
        None => nodes.len() == 0,
        Some(i) => {
            &&& i < nodes.len()
            &&& forall|j: int| 0 <= j < i ==> nodes[j]@ != local
            &&& (nodes[i as int]@ == local || i == nodes.len() - 1)
        },
    }
}

/// Relies on itertools::Itertools::find_or_last: the first item that meets the
/// predicate, else the last item, else none. The predicate is `same_as`.
#[verifier::external_body]
fn find_local_or_last(nodes: &Vec<PeerId>, local: &PeerId) -> (r: Option<usize>)
    ensures
        is_dispatch_choice(nodes@, local@, r),
{
    nodes.iter().enumerate().find_or_last(|item| item.1.same_as(local)).map(|item| item.0)
}

/// Picks the authorized node that runs a build: the local peer when it is
/// authorized, otherwise the last authorized node.
pub fn select_authorized_node(nodes: &Vec<PeerId>, local: &PeerId) -> (r: Option<usize>)
    ensures
        is_dispatch_choice(nodes@, local@, r),
{
    find_local_or_last(nodes, local)
}

} // verus!
