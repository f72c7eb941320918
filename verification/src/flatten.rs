use vstd::prelude::*;
use crate::bundle::{Body, SendBundleParams};
use crate::hashing::{keccak256, keccak_of};
use crate::types::TxHash;

verus! {

/// The transaction hashes one body element depends on, in depth-first
/// pre-order: a `Tx` reference contributes its stored hash, a `Signed`
/// transaction the Keccak-256 digest of its raw bytes, and a nested
/// bundle the hashes of its own body, in order.
pub open spec fn body_hashes(b: Body) -> Seq<TxHash>
    decreases b,
{
    match b {
        Body::Tx { hash } => seq![hash],
        Body::Signed { tx, can_revert: _ } => seq![keccak_of(tx@)],
        Body::Bundle(params) => bodies_hashes(params.body@),
    }
}

/// The transaction hashes a whole body sequence depends on, left to right.
pub open spec fn bodies_hashes(bodies: Seq<Body>) -> Seq<TxHash>
    decreases bodies,
{
    if bodies.len() == 0 {
        Seq::empty()
    } else {
        bodies_hashes(bodies.drop_last()) + body_hashes(bodies.last())
    }
}

/// The number of leaf elements (`Tx` or `Signed`) in one body element;
/// a nested bundle contributes only its leaves.
pub open spec fn body_leaf_count(b: Body) -> nat
    decreases b,
{
    match b {
        Body::Tx { .. } => 1,
        Body::Signed { .. } => 1,
        Body::Bundle(params) => bodies_leaf_count(params.body@),
    }
}

/// The number of leaf elements in a body sequence.
pub open spec fn bodies_leaf_count(bodies: Seq<Body>) -> nat
    decreases bodies,
{
    if bodies.len() == 0 {
        0
    } else {
        bodies_leaf_count(bodies.drop_last()) + body_leaf_count(bodies.last())
    }
}

/// The number of nodes (leaves and nested bundles) in one body element;
/// used as a termination measure for the traversal.
pub open spec fn body_node_count(b: Body) -> nat
    decreases b,
{
    match b {
        Body::Tx { .. } => 1,
        Body::Signed { .. } => 1,
        Body::Bundle(params) => 1 + bodies_node_count(params.body@),
    }
}

/// The number of nodes in a body sequence.
pub open spec fn bodies_node_count(bodies: Seq<Body>) -> nat
    decreases bodies,
{
    if bodies.len() == 0 {
        0
    } else {
        bodies_node_count(bodies.drop_last()) + body_node_count(bodies.last())
    }
}

/// The hashes still to be produced by a traversal work stack, top of the
/// stack (the end of the sequence) first.
pub open spec fn stack_hashes(stack: Seq<Body>) -> Seq<TxHash>
    decreases stack,
{
    if stack.len() == 0 {
        Seq::empty()
    } else {
        body_hashes(stack.last()) + stack_hashes(stack.drop_last())
    }
}

/// The number of nodes on a traversal work stack.
pub open spec fn stack_node_count(stack: Seq<Body>) -> nat
    decreases stack,
{
    if stack.len() == 0 {
        0
    } else {
        body_node_count(stack.last()) + stack_node_count(stack.drop_last())
    }
}

/// Every flattened hash sequence has exactly one hash per leaf.
///
/// For all bundle bodies, the length of the flattened hash sequence equals
/// the number of `Tx` and `Signed` leaves across all nesting levels; nested
/// bundles themselves contribute nothing.
pub proof fn lemma_flatten_len_is_leaf_count(bodies: Seq<Body>)
    ensures
        bodies_hashes(bodies).len() == bodies_leaf_count(bodies),
    decreases bodies,
{
    if bodies.len() > 0 {
        lemma_flatten_len_is_leaf_count(bodies.drop_last());
        lemma_body_flatten_len_is_leaf_count(bodies.last());
    }
}

/// The single-element form of [`lemma_flatten_len_is_leaf_count`].
pub proof fn lemma_body_flatten_len_is_leaf_count(b: Body)
    ensures
        body_hashes(b).len() == body_leaf_count(b),
    decreases b,
{
    match b {
        Body::Bundle(params) => lemma_flatten_len_is_leaf_count(params.body@),
        _ => {}
    }
}

/// Moves the elements of `bodies` onto `stack` in reverse order, so that
/// the first element of `bodies` ends on top of the stack.
#[verifier::loop_isolation(false)]
fn push_reversed(stack: &mut Vec<Body>, bodies: Vec<Body>)
    ensures
        stack_hashes(final(stack)@) == bodies_hashes(bodies@) + stack_hashes(old(stack)@),
        stack_node_count(final(stack)@) == bodies_node_count(bodies@) + stack_node_count(
            old(stack)@,
        ),
{
    let mut bodies = bodies;
    let ghost orig_total: Seq<TxHash> = bodies_hashes(bodies@) + stack_hashes(stack@);
    let ghost orig_count: nat = bodies_node_count(bodies@) + stack_node_count(stack@);
    loop
        invariant
            bodies_hashes(bodies@) + stack_hashes(stack@) == orig_total,
            bodies_node_count(bodies@) + stack_node_count(stack@) == orig_count,
        decreases bodies@.len(),
    {
        let ghost prev_bodies = bodies@;
        let ghost prev_stack = stack@;
        match bodies.pop() {
            None => {
                assert(bodies_hashes(bodies@) == Seq::<TxHash>::empty());
                assert(bodies_hashes(bodies@) + stack_hashes(stack@) =~= stack_hashes(stack@));
                return;
            },
            Some(b) => {
                proof {
                    assert(prev_bodies.last() == b);
                    assert(prev_bodies.drop_last() == bodies@);
                }
                stack.push(b);
                proof {
                    assert(stack@.last() == b);
                    assert(stack@.drop_last() =~= prev_stack);
                    assert(bodies_hashes(prev_bodies) == bodies_hashes(bodies@) + body_hashes(b));
                    assert(stack_hashes(stack@) == body_hashes(b) + stack_hashes(prev_stack));
                    assert(bodies_hashes(bodies@) + stack_hashes(stack@) =~= (bodies_hashes(
                        bodies@,
                    ) + body_hashes(b)) + stack_hashes(prev_stack));
                }
            },
        }
    }
}

/// A lazy depth-first pre-order traversal over the transaction hashes of a
/// bundle body. The traversal keeps an explicit work stack of pending
/// elements instead of recursing, so arbitrarily deep nesting uses bounded
/// call-stack space.
#[derive(Debug)]
pub struct BodyHashIterator {
    stack: Vec<Body>,
}

impl BodyHashIterator {
    /// The hashes this iterator has yet to produce, in order.
    pub closed spec fn remaining(self) -> Seq<TxHash> {
        stack_hashes(self.stack@)
    }

    /// Starts a traversal over `bodies`; the iterator will produce exactly
    /// the flattened hash sequence of `bodies`.
    pub fn new(bodies: Vec<Body>) -> (it: Self)
        ensures
            it.remaining() == bodies_hashes(bodies@),
    {
        let mut stack: Vec<Body> = Vec::new();
        assert(stack_hashes(stack@) == Seq::<TxHash>::empty());
        push_reversed(&mut stack, bodies);
        let it = BodyHashIterator { stack };
        assert(it.remaining() =~= bodies_hashes(bodies@));
        it
    }

    /// Produces the next hash of the traversal, or `None` once every hash
    /// has been produced.
    #[verifier::loop_isolation(false)]
    pub fn next(&mut self) -> (r: Option<TxHash>)
        ensures
            match r {
                Some(h) => old(self).remaining().len() > 0 && h == old(self).remaining()[0]
                    && final(self).remaining() == old(self).remaining().drop_first(),
                None => old(self).remaining().len() == 0 && final(self).remaining()
                    == old(self).remaining(),
            },
    {
        loop
            invariant
                stack_hashes(self.stack@) == old(self).remaining(),
            decreases stack_node_count(self.stack@),
        {
            let ghost prev_stack = self.stack@;
            match self.stack.pop() {
                None => {
                    return None;
                },
                Some(b) => {
                    proof {
                        assert(prev_stack.last() == b);
                        assert(prev_stack.drop_last() == self.stack@);
                        assert(stack_hashes(prev_stack) == body_hashes(b) + stack_hashes(
                            self.stack@,
                        ));
                    }
                    match b {
                        Body::Tx { hash } => {
                            proof {
                                assert(body_hashes(Body::Tx { hash }) == seq![hash]);
                                assert(old(self).remaining()[0] == hash);
                                assert(self.remaining() =~= old(self).remaining().drop_first());
                            }
                            return Some(hash);
                        },
                        Body::Signed { tx, can_revert } => {
                            let h = keccak256(tx.as_slice());
                            proof {
                                assert(body_hashes(Body::Signed { tx, can_revert }) == seq![
                                    keccak_of(tx@),
                                ]);
                                assert(old(self).remaining()[0] == keccak_of(tx@));
                                assert(self.remaining() =~= old(self).remaining().drop_first());
                            }
                            return Some(h);
                        },
                        Body::Bundle(params) => {
                            let inner: SendBundleParams = *params;
                            push_reversed(&mut self.stack, inner.body);
                            proof {
                                assert(stack_hashes(self.stack@) =~= stack_hashes(prev_stack));
                                assert(stack_node_count(self.stack@) < stack_node_count(
                                    prev_stack,
                                ));
                            }
                        },
                    }
                },
            }
        }
    }
}

/// The flattened hash sequence of a bundle body as a vector: exactly the
/// hashes the bundle depends on, in depth-first pre-order.
#[verifier::loop_isolation(false)]
pub fn hashes(bodies: Vec<Body>) -> (r: Vec<TxHash>)
    ensures
        r@ == bodies_hashes(bodies@),
{
    let ghost total = bodies_hashes(bodies@);
    let mut it = BodyHashIterator::new(bodies);
    let mut out: Vec<TxHash> = Vec::new();
    loop
        invariant
            out@ + it.remaining() == total,
        decreases it.remaining().len(),
    {
        let ghost prev_out = out@;
        let ghost prev_remaining = it.remaining();
        match it.next() {
            None => {
                assert(out@ + it.remaining() =~= out@);
                return out;
            },
            Some(h) => {
                out.push(h);
                proof {
                    assert(out@ + it.remaining() =~= (prev_out + prev_remaining));
                }
            },
        }
    }
}

/// Traversal of the transaction hashes a bundle body depends on.
pub trait HashesIter {
    /// The hash traversal of this body, in depth-first pre-order.
    fn hashes(self) -> BodyHashIterator;
}

impl HashesIter for Vec<Body> {
    fn hashes(self) -> (it: BodyHashIterator)
        ensures
            it.remaining() == bodies_hashes(self@),
    {
        BodyHashIterator::new(self)
    }
}

} // verus!
