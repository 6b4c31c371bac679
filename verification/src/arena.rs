//! The host's allocator.
//!
//! Memory is handed out from one ever-growing offset into the guest's linear
//! memory. Entering a scope marks the offset; leaving it falls back to the mark,
//! which frees everything allocated inside at once.

use crate::host::Fault;
use crate::word;
use vstd::prelude::*;

verus! {

/// Where the guest's heap begins: the boundary between the data sections laid
/// out at compile time and the memory handed out at run time.
pub const HEAP_START: usize = 1_048_576;

/// What an [`Arena`] amounts to: the next free offset and the open marks,
/// innermost last.
#[verifier::ext_equal]
pub struct ArenaView {
    pub next: int,
    pub marks: Seq<int>,
}

impl ArenaView {
    /// The arena before anything was allocated.
    pub open spec fn fresh() -> ArenaView {
        ArenaView { next: HEAP_START as int, marks: Seq::empty() }
    }

    /// The arena with its next free offset moved.
    pub open spec fn moved(self, next: int) -> ArenaView {
        ArenaView { next, marks: self.marks }
    }

    /// The bytes that a request for `size` takes up.
    pub open spec fn granted(size: i32) -> int {
        word::align8(word::address_of(size))
    }

    /// Whether a request for `size` stays inside the address range.
    pub open spec fn can_grant(self, size: i32) -> bool {
        &&& word::address_of(size) + 7 <= usize::MAX
        &&& self.next + Self::granted(size) <= usize::MAX
    }

    /// The arena after a scope was entered.
    pub open spec fn pushed(self) -> ArenaView {
        ArenaView { next: self.next, marks: self.marks.push(self.next) }
    }

    /// The arena after a scope was left; nothing happens without an open scope.
    pub open spec fn popped(self) -> ArenaView {
        if self.marks.len() == 0 {
            self
        } else {
            ArenaView { next: self.marks.last(), marks: self.marks.drop_last() }
        }
    }
}

/// A request for `size`, from the arena before to the arena after: served from
/// the next free offset, or refused and nothing changed where it would leave the
/// address range.
pub open spec fn allocated(
    before: ArenaView,
    after: ArenaView,
    size: i32,
    r: Result<i32, Fault>,
) -> bool {
    if before.can_grant(size) {
        &&& r == Ok::<i32, Fault>(word::pointer_of(before.next) as i32)
        &&& after == before.moved(before.next + ArenaView::granted(size))
    } else {
        &&& r == Err::<i32, Fault>(Fault::AddressOverflow)
        &&& after == before
    }
}

/// The allocator's state.
pub struct Arena {
    next: usize,
    marks: Vec<usize>,
}

impl View for Arena {
    type V = ArenaView;

    closed spec fn view(&self) -> ArenaView {
        ArenaView { next: self.next as int, marks: self.marks@.map_values(|m: usize| m as int) }
    }
}

impl Arena {
    /// An arena that has handed out nothing.
    pub fn new() -> (r: Arena)
        ensures
            r@ == ArenaView::fresh(),
    {
        Arena { next: HEAP_START, marks: Vec::new() }
    }

    /// The next free offset.
    pub fn next_offset(&self) -> (r: usize)
        ensures
            r == self@.next,
    {
        self.next
    }

    /// Moves the next free offset.
    pub fn move_to(&mut self, next: usize)
        ensures
            final(self)@ == old(self)@.moved(next as int),
    {
        self.next = next;
    }

    /// Hands out `size` bytes, rounded up to a multiple of eight, and returns the
    /// pointer to them. A request that would leave the address range is a fault.
    /// The kind of value to be stored plays no part.
    pub fn mem_alloc(&mut self, _type_id: i32, size: i32) -> (r: Result<i32, Fault>)
        ensures
            allocated(old(self)@, final(self)@, size, r),
    {
        let wanted: usize = word::to_address(size);
        if wanted > usize::MAX - 7 {
            return Err(Fault::AddressOverflow);
        }
        let rounded: usize = word::align_up(wanted);
        let offset: usize = self.next;
        if offset > usize::MAX - rounded {
            return Err(Fault::AddressOverflow);
        }
        self.next = offset + rounded;
        Ok(word::to_pointer(offset))
    }

    /// Enters a scope.
    pub fn mem_scope_push(&mut self)
        ensures
            final(self)@ == old(self)@.pushed(),
    {
        self.marks.push(self.next);
        assert(self@.marks == old(self)@.marks.push(old(self)@.next));
    }

    /// Leaves the innermost scope, if one is open.
    pub fn mem_scope_pop(&mut self)
        ensures
            final(self)@ == old(self)@.popped(),
    {
        match self.marks.pop() {
            Some(mark) => {
                self.next = mark;
                assert(self@.marks == old(self)@.marks.drop_last());
            },
            None => {
                assert(self@.marks == old(self)@.marks);
            },
        }
    }
}

/// The next free offset is an address.
pub proof fn law_offset_is_address(arena: Arena)
    ensures
        0 <= arena@.next <= usize::MAX,
{
}

/// Whatever is allocated inside a scope, leaving the scope brings the arena back
/// to where it stood on entry.
pub proof fn law_scope_restores(before: ArenaView, inside: ArenaView)
    requires
        inside.marks == before.pushed().marks,
    ensures
        inside.popped() == before,
{
    assert(before.pushed().marks.drop_last() == before.marks);
}

/// A request that is served gets enough bytes, in a multiple of eight, from the
/// next free offset, what is served later starts past them, and no scope is
/// touched.
pub proof fn law_allocations_disjoint(
    before: ArenaView,
    after: ArenaView,
    size: i32,
    r: Result<i32, Fault>,
)
    requires
        0 <= size,
        allocated(before, after, size, r),
        r is Ok,
    ensures
        (after.next - before.next) % 8 == 0,
        after.next >= before.next + size,
        after.marks == before.marks,
{
    word::law_align8(size as int);
}

/// A step that the arena can take between two scopes.
pub ghost enum Step {
    /// The next free offset moves, by an allocation or otherwise.
    Move(int),
    /// A scope is entered.
    Enter,
    /// A scope is left.
    Leave,
}

/// The arena after one step.
pub open spec fn stepped(arena: ArenaView, step: Step) -> ArenaView {
    match step {
        Step::Move(next) => arena.moved(next),
        Step::Enter => arena.pushed(),
        Step::Leave => arena.popped(),
    }
}

/// The arena after several steps.
pub open spec fn after_steps(arena: ArenaView, steps: Seq<Step>) -> ArenaView
    decreases steps.len(),
{
    if steps.len() == 0 {
        arena
    } else {
        stepped(after_steps(arena, steps.drop_last()), steps.last())
    }
}

/// How many more scopes the steps enter than they leave.
pub open spec fn depth(steps: Seq<Step>) -> int
    decreases steps.len(),
{
    if steps.len() == 0 {
        0
    } else {
        depth(steps.drop_last()) + match steps.last() {
            Step::Move(_) => 0int,
            Step::Enter => 1,
            Step::Leave => -1,
        }
    }
}

/// Whether the steps never leave a scope that they have not entered.
pub open spec fn stays_inside(steps: Seq<Step>) -> bool {
    forall|i: int| 0 <= i <= steps.len() ==> depth(#[trigger] steps.take(i)) >= 0
}

/// Steps that leave no scope but their own keep the marks that were there.
proof fn lemma_outer_marks_stay(arena: ArenaView, steps: Seq<Step>)
    requires
        stays_inside(steps),
    ensures
        after_steps(arena, steps).marks.len() == arena.marks.len() + depth(steps),
        after_steps(arena, steps).marks.take(arena.marks.len() as int) == arena.marks,
    decreases steps.len(),
{
    assert(steps.take(steps.len() as int) == steps);
    if steps.len() > 0 {
        let earlier = steps.drop_last();
        assert forall|i: int| 0 <= i <= earlier.len() implies depth(#[trigger] earlier.take(i))
            >= 0 by {
            assert(earlier.take(i) == steps.take(i));
        }
        lemma_outer_marks_stay(arena, earlier);
        let before = after_steps(arena, earlier);
        let n = arena.marks.len() as int;
        assert(stepped(before, steps.last()).marks.take(n) == before.marks.take(n));
    }
}

/// Whatever happens inside a scope, inner scopes that are entered and left again
/// among it, leaving the scope brings the arena back to where it stood on entry.
pub proof fn law_nested_scopes_restore(arena: ArenaView, steps: Seq<Step>)
    requires
        stays_inside(steps),
        depth(steps) == 0,
    ensures
        after_steps(arena.pushed(), steps).popped() == arena,
{
    let inside = after_steps(arena.pushed(), steps);
    lemma_outer_marks_stay(arena.pushed(), steps);
    assert(inside.marks == inside.marks.take(inside.marks.len() as int));
    law_scope_restores(arena, inside);
}

} // verus!
