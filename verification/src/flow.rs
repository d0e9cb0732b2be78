//! The flow controller: which addresses have been visited, which branch
//! targets wait to be explored, and where the calls under way return to.

use crate::address::{address_of_index, index_of_address, Address};
use crate::instruction::{AddressMode, DestReg, Instruction, Offset, OneOpcode, Word, PC};
use crate::pseudo::PsuedoOpcode;
use crate::scope::{CurrentBinaryScope, ScopeModel};
use std::collections::HashSet;
use vstd::prelude::*;

verus! {

broadcast use vstd::std_specs::hash::group_hash_axioms;

/// The state of one traversal.
pub struct FlowController {
    /// The addresses of the instructions already visited.
    pub blacklist: HashSet<u64>,
    /// The branch targets found and not yet explored; the last one found
    /// is taken first.
    pub branch_queue: Vec<Address>,
    /// The return addresses of the calls under way, the innermost last.
    pub call_stack: Vec<Address>,
}

/// What a flow controller stands for.
pub struct FlowModel {
    pub visited: Set<u64>,
    pub pending: Seq<Address>,
    pub calls: Seq<Address>,
}

/// What the flow controller did with an instruction.
#[derive(Clone, Copy, Debug, PartialEq, Eq, Structural)]
pub enum FlowStep {
    /// Nothing but the visited mark: decoding goes on with the next word.
    Linear,
    /// A branch target was added to the queue; decoding goes on with the
    /// next word.
    Queued,
    /// The cursor was moved to the start of another instruction.
    Moved,
    /// A return found nowhere to resume: this path has ended.
    Exhausted,
    /// The target lies outside the stream; the cursor was left where it was.
    OutOfStream,
}

/// The whole effect of one step of the flow controller: its new state,
/// what it reports, and the index that the cursor is moved to, if any.
pub struct FlowEffect {
    pub flow: FlowModel,
    pub step: FlowStep,
    pub jump: Option<int>,
}

/// The index of the candidate that a return resumes at: the last entry of
/// `pending` that is not in `visited`.
pub open spec fn last_unvisited(pending: Seq<Address>, visited: Set<u64>) -> Option<int>
    decreases pending.len(),
{
    if pending.len() == 0 {
        None
    } else if !visited.contains(pending.last().0) {
        Some(pending.len() - 1)
    } else {
        last_unvisited(pending.drop_last(), visited)
    }
}

/// The effect of resuming at `target` in a stream of `len` words, with the
/// flow state `flow`: the cursor moves where the stream has such a word.
pub open spec fn resume_at(flow: FlowModel, target: Address, len: int) -> FlowEffect {
    FlowEffect {
        flow,
        step: if in_stream(target, len) {
            FlowStep::Moved
        } else {
            FlowStep::OutOfStream
        },
        jump: if in_stream(target, len) {
            Some(index_of_address(target.0 as int))
        } else {
            None
        },
    }
}

/// The destination of a call where it is an immediate: the operand is the
/// program counter, indirect with autoincrement, and the extension word is
/// the destination. A destination that is computed from a register is not
/// known here.
pub open spec fn immediate_destination(
    dam: AddressMode,
    dest: DestReg,
    dest_index: Option<Word>,
) -> Option<Word> {
    if dam == AddressMode::IndirectIncrement && dest.0 == PC {
        dest_index
    } else {
        None
    }
}

/// Whether a stream of `len` words has a word at the address `target`.
pub open spec fn in_stream(target: Address, len: int) -> bool {
    index_of_address(target.0 as int) < len
}

impl FlowModel {
    /// This state with `address` marked as visited.
    pub open spec fn marked(self, address: Address) -> FlowModel {
        FlowModel { visited: self.visited.insert(address.0), ..self }
    }

    /// The effect of a jump whose target is the address `target`: it is
    /// queued where it is an address at all, and the cursor stays.
    pub open spec fn branch(self, target: int) -> FlowEffect {
        if 0 <= target <= u64::MAX {
            FlowEffect {
                flow: FlowModel { pending: self.pending.push(Address(target as u64)), ..self },
                step: FlowStep::Queued,
                jump: None,
            }
        } else {
            FlowEffect { flow: self, step: FlowStep::OutOfStream, jump: None }
        }
    }

    /// The effect of a call, seen with the cursor on the last word of the
    /// call at `index` in a stream of `len` words. With a destination in
    /// the stream, the address of the word after the call is pushed and the
    /// cursor moves to the destination. With one outside the stream, or
    /// with none, nothing changes.
    pub open spec fn call(self, destination: Option<Word>, index: int, len: int) -> FlowEffect {
        match destination {
            Some(word) => {
                let target = index_of_address(word.0 as int);
                if target < len {
                    FlowEffect {
                        flow: FlowModel {
                            calls: self.calls.push(
                                Address(address_of_index(index + 1) as u64),
                            ),
                            ..self
                        },
                        step: FlowStep::Moved,
                        jump: Some(target),
                    }
                } else {
                    FlowEffect { flow: self, step: FlowStep::OutOfStream, jump: None }
                }
            },
            None => FlowEffect { flow: self, step: FlowStep::Linear, jump: None },
        }
    }

    /// The effect of a return in a stream of `len` words. With branch
    /// targets pending, they are dropped from the last one down to the
    /// first that has not been visited, which is where decoding resumes; if
    /// all have been visited the queue ends up empty and the path has
    /// ended. With none pending, decoding resumes at the innermost return
    /// address; if there is none either, the path has ended.
    pub open spec fn ret(self, len: int) -> FlowEffect {
        if self.pending.len() > 0 {
            match last_unvisited(self.pending, self.visited) {
                Some(k) => resume_at(
                    FlowModel { pending: self.pending.subrange(0, k), ..self },
                    self.pending[k],
                    len,
                ),
                None => FlowEffect {
                    flow: FlowModel { pending: Seq::empty(), ..self },
                    step: FlowStep::Exhausted,
                    jump: None,
                },
            }
        } else if self.calls.len() > 0 {
            resume_at(FlowModel { calls: self.calls.drop_last(), ..self }, self.calls.last(), len)
        } else {
            FlowEffect { flow: self, step: FlowStep::Exhausted, jump: None }
        }
    }

    /// The effect of `instruction`, decoded at the address `start` with the
    /// cursor now at `index` in a stream of `len` words. The start is
    /// marked as visited first. A jump queues its target, a call with an
    /// immediate destination is followed, a return resumes elsewhere; every
    /// other instruction leaves the rest alone.
    pub open spec fn step(
        self,
        instruction: Instruction,
        start: Address,
        index: int,
        len: int,
    ) -> FlowEffect {
        let marked = self.marked(start);
        match instruction {
            Instruction::JMP { offset, .. } => marked.branch(address_of_index(index) + offset.0),
            Instruction::PSEUDO { opcode: PsuedoOpcode::RET, .. } => marked.ret(len),
            Instruction::ONE { opcode: OneOpcode::CALL, dam, dest, dest_index, .. } => marked.call(
                immediate_destination(dam, dest, dest_index),
                index,
                len,
            ),
            _ => FlowEffect { flow: marked, step: FlowStep::Linear, jump: None },
        }
    }
}

impl View for FlowController {
    type V = FlowModel;

    open spec fn view(&self) -> FlowModel {
        FlowModel {
            visited: self.blacklist@,
            pending: self.branch_queue@,
            calls: self.call_stack@,
        }
    }
}

/// Whether the cursor `after` is what `effect` makes of the cursor
/// `before`: on the first word of the instruction at the index jumped to,
/// or untouched.
pub open spec fn cursor_follows(
    before: &CurrentBinaryScope,
    after: &CurrentBinaryScope,
    effect: FlowEffect,
) -> bool {
    &&& after.wf()
    &&& after.vec == before.vec
    &&& match effect.jump {
        Some(index) => after.positioned() && after@ == ScopeModel::at(before@.words, index),
        None => *after == *before,
    }
}

/// Moves the cursor to `target` if the stream has such a word.
fn resume(scope: &mut CurrentBinaryScope, target: Address) -> (r: FlowStep)
    requires
        old(scope).wf(),
    ensures
        final(scope).wf(),
        final(scope).vec == old(scope).vec,
        in_stream(target, old(scope)@.words.len() as int) ==> {
            &&& r == FlowStep::Moved
            &&& final(scope).positioned()
            &&& final(scope)@ == ScopeModel::at(
                old(scope)@.words,
                index_of_address(target.0 as int),
            )
        },
        !in_stream(target, old(scope)@.words.len() as int) ==> {
            &&& r == FlowStep::OutOfStream
            &&& *final(scope) == *old(scope)
        },
{
    if scope.jump_to_absolute(target) {
        FlowStep::Moved
    } else {
        FlowStep::OutOfStream
    }
}

impl FlowController {
    /// A controller that has visited nothing, with no branch pending and
    /// no call under way.
    pub fn new() -> (r: FlowController)
        ensures
            r@.visited == Set::<u64>::empty(),
            r@.pending == Seq::<Address>::empty(),
            r@.calls == Seq::<Address>::empty(),
    {
        FlowController {
            blacklist: HashSet::new(),
            branch_queue: Vec::new(),
            call_stack: Vec::new(),
        }
    }

    /// Queues the target of a jump by `offset` from the cursor.
    pub fn flow_add_to_queue_offset(&mut self, scope: &CurrentBinaryScope, offset: Offset) -> (r:
        FlowStep)
        requires
            scope.wf(),
            scope.positioned(),
        ensures
            final(self)@ == old(self)@.branch(scope.offset_target(offset)).flow,
            r == old(self)@.branch(scope.offset_target(offset)).step,
    {
        match Address::from_index(scope.index).offset_by(offset.0) {
            Some(target) => {
                self.branch_queue.push(target);
                FlowStep::Queued
            },
            None => FlowStep::OutOfStream,
        }
    }

    /// Follows a call to the destination `dest_immediate`, if it has one.
    pub fn flow_call(&mut self, scope: &mut CurrentBinaryScope, dest_immediate: Option<Word>) -> (r:
        FlowStep)
        requires
            old(scope).wf(),
            old(scope).positioned(),
        ensures
            ({
                let effect = old(self)@.call(
                    dest_immediate,
                    old(scope).index as int,
                    old(scope)@.words.len() as int,
                );
                &&& final(self)@ == effect.flow
                &&& r == effect.step
                &&& cursor_follows(old(scope), final(scope), effect)
            }),
    {
        match dest_immediate {
            Some(word) => {
                let after = Address(Address::from_index(scope.index).0 + 2);
                if scope.jump_to_absolute(Address(word.0 as u64)) {
                    self.call_stack.push(after);
                    FlowStep::Moved
                } else {
                    FlowStep::OutOfStream
                }
            },
            None => FlowStep::Linear,
        }
    }

    /// Resumes after a return: at the last pending branch target that has
    /// not been visited, or, with no branch pending, at the innermost
    /// return address.
    pub fn flow_return(&mut self, scope: &mut CurrentBinaryScope) -> (r: FlowStep)
        requires
            old(scope).wf(),
        ensures
            ({
                let effect = old(self)@.ret(old(scope)@.words.len() as int);
                &&& final(self)@ == effect.flow
                &&& r == effect.step
                &&& cursor_follows(old(scope), final(scope), effect)
            }),
    {
        let ghost before = self@;
        if !self.branch_queue.is_empty() {
            while self.branch_queue.len() > 0
                invariant
                    before == old(self)@,
                    before.pending.len() > 0,
                    self@.visited == before.visited,
                    self@.calls == before.calls,
                    self@.pending.len() <= before.pending.len(),
                    self@.pending == before.pending.subrange(0, self@.pending.len() as int),
                    last_unvisited(self@.pending, before.visited) == last_unvisited(
                        before.pending,
                        before.visited,
                    ),
                    *scope == *old(scope),
                    scope.wf(),
                decreases self.branch_queue.len(),
            {
                let ghost here = self@.pending;
                let candidate = self.branch_queue.pop().unwrap();
                proof {
                    assert(self@.pending =~= here.drop_last());
                    assert(self@.pending =~= before.pending.subrange(
                        0,
                        self@.pending.len() as int,
                    ));
                }
                if !self.blacklist.contains(&candidate.0) {
                    proof {
                        assert(last_unvisited(here, before.visited) == Some(here.len() - 1));
                    }
                    return resume(scope, candidate);
                }
            }
            proof {
                assert(self@.pending =~= Seq::<Address>::empty());
            }
            FlowStep::Exhausted
        } else {
            match self.call_stack.pop() {
                Some(target) => {
                    proof {
                        assert(self@.calls =~= before.calls.drop_last());
                    }
                    resume(scope, target)
                },
                None => FlowStep::Exhausted,
            }
        }
    }

    /// Marks `address` as visited.
    pub fn add_to_blacklist(&mut self, address: Address)
        ensures
            final(self)@ == old(self)@.marked(address),
    {
        self.blacklist.insert(address.0);
    }
}

/// Lets the flow controller see `instruction`, which was decoded at the
/// address that the cursor starts at.
pub fn check_for_flow(
    flowcontroller: &mut FlowController,
    scope: &mut CurrentBinaryScope,
    instruction: Instruction,
) -> (r: FlowStep)
    requires
        old(scope).wf(),
        old(scope).positioned(),
    ensures
        ({
            let effect = old(flowcontroller)@.step(
                instruction,
                old(scope).address,
                old(scope).index as int,
                old(scope)@.words.len() as int,
            );
            &&& final(flowcontroller)@ == effect.flow
            &&& r == effect.step
            &&& cursor_follows(old(scope), final(scope), effect)
        }),
{
    flowcontroller.add_to_blacklist(scope.address);
    match instruction {
        Instruction::JMP { condition: _, offset } => flowcontroller.flow_add_to_queue_offset(
            scope,
            offset,
        ),
        Instruction::PSEUDO { opcode: PsuedoOpcode::RET, .. } => flowcontroller.flow_return(scope),
        Instruction::ONE { opcode: OneOpcode::CALL, dam, dest, dest_index, .. } => {
            if dam == AddressMode::IndirectIncrement && dest.0 == PC {
                flowcontroller.flow_call(scope, dest_index)
            } else {
                FlowStep::Linear
            }
        },
        _ => FlowStep::Linear,
    }
}

/// The candidate that a return picks has not been visited, and every
/// candidate queued after it has; where it picks none, all have been
/// visited.
pub proof fn lemma_last_unvisited(pending: Seq<Address>, visited: Set<u64>)
    ensures
        match last_unvisited(pending, visited) {
            Some(k) => {
                &&& 0 <= k < pending.len()
                &&& !visited.contains(pending[k].0)
                &&& forall|j: int|
                    k < j < pending.len() ==> visited.contains((#[trigger] pending[j]).0)
            },
            None => forall|j: int|
                0 <= j < pending.len() ==> visited.contains((#[trigger] pending[j]).0),
        },
    decreases pending.len(),
{
    if pending.len() > 0 && visited.contains(pending.last().0) {
        let shorter = pending.drop_last();
        lemma_last_unvisited(shorter, visited);
        assert forall|j: int| 0 <= j < shorter.len() implies shorter[j] == pending[j] by {}
    }
}

/// A return that follows a call, with no branch pending, resumes at the
/// word after the call and leaves the call stack as it was before the call.
pub proof fn lemma_call_then_return(
    flow: FlowModel,
    destination: Word,
    index: int,
    len: int,
    len_after: int,
)
    requires
        flow.pending.len() == 0,
        1 <= index,
        address_of_index(index + 1) <= u64::MAX,
        in_stream(Address(destination.0 as u64), len),
    ensures
        flow.call(Some(destination), index, len).step == FlowStep::Moved,
        flow.call(Some(destination), index, len).flow.ret(len_after) == resume_at(
            flow,
            Address(address_of_index(index + 1) as u64),
            len_after,
        ),
        index + 1 < len_after ==> flow.call(Some(destination), index, len).flow.ret(
            len_after,
        ).jump == Some(index + 1),
{
    let called = flow.call(Some(destination), index, len).flow;
    assert(called.calls.drop_last() =~= flow.calls);
}

} // verus!
