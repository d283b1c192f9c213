//! The call-frame tree of a traced transaction.

use vstd::prelude::*;
use crate::primitives::{Address, U256};

verus! {

/// One contract invocation of a traced transaction, with the calls it made.
#[derive(Debug)]
pub struct CallFrame {
    /// The account that made the call.
    pub from: Address,
    /// The account that was called, where one was established.
    pub to: Option<Address>,
    /// The value transferred; absent means zero.
    pub value: Option<U256>,
    /// The tag of the opcode that produced the call.
    pub typ: String,
    /// The nested calls, in execution order.
    pub calls: Vec<CallFrame>,
}

impl CallFrame {
    /// The frame followed by all its descendants: every frame before its
    /// children, and the children in execution order.
    pub open spec fn preorder(self) -> Seq<CallFrame>
        decreases self,
    {
        seq![self] + preorder_all(self.calls@)
    }

    /// The value transferred, zero where the frame names none.
    pub open spec fn value_or_zero(self) -> nat {
        match self.value {
            Some(value) => value@,
            None => 0,
        }
    }
}

/// The pre-order traversals of the given trees, one after the other.
pub open spec fn preorder_all(frames: Seq<CallFrame>) -> Seq<CallFrame>
    decreases frames,
{
    if frames.len() == 0 {
        Seq::empty()
    } else {
        preorder_all(frames.drop_last()) + frames.last().preorder()
    }
}

/// The traversal of a frame starts with the frame itself.
pub proof fn lemma_preorder_starts_with_frame(frame: CallFrame)
    ensures
        frame.preorder().len() >= 1,
        frame.preorder()[0] == frame,
{
}

/// The traversal of several trees holds whatever the traversal of one of
/// them holds.
pub proof fn lemma_preorder_all_holds_each(frames: Seq<CallFrame>, tree: int, below: CallFrame)
    requires
        0 <= tree < frames.len(),
        frames[tree].preorder().contains(below),
    ensures
        preorder_all(frames).contains(below),
    decreases frames.len(),
{
    let front = preorder_all(frames.drop_last());
    let back = frames.last().preorder();
    if tree == frames.len() - 1 {
        let at = choose|at: int| 0 <= at < back.len() && back[at] == below;
        assert((front + back)[front.len() + at] == below);
    } else {
        lemma_preorder_all_holds_each(frames.drop_last(), tree, below);
        let at = choose|at: int| 0 <= at < front.len() && front[at] == below;
        assert((front + back)[at] == below);
    }
}

/// No frame is left out, however deep it lies: the traversal of a frame
/// holds whatever the traversal of one of its calls holds.
pub proof fn lemma_preorder_holds_calls(frame: CallFrame, call: int, below: CallFrame)
    requires
        0 <= call < frame.calls@.len(),
        frame.calls@[call].preorder().contains(below),
    ensures
        frame.preorder().contains(below),
{
    lemma_preorder_all_holds_each(frame.calls@, call, below);
    let rest = preorder_all(frame.calls@);
    let at = choose|at: int| 0 <= at < rest.len() && rest[at] == below;
    assert(frame.preorder()[at + 1] == below);
}

} // verus!
