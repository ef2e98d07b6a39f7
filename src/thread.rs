//! Cooperative threads: thread control blocks, a bounded FIFO run queue, and
//! the bookkeeping behind fork, yield and exit.
//!
//! The register moves of a context switch are machine code outside this
//! module. What they need from the scheduler is decided here: which thread is
//! dispatched next and at which resumption address, where a yielding thread's
//! callee-saved registers go on its own stack, and what becomes of a thread's
//! control block when it yields or exits.
use vstd::prelude::*;

use crate::round_robin::{
    after_dispatch, distinct_ids, lemma_first_round_in_queue_order, lemma_round_robin_fifo,
    lemma_single_occurrence, lemma_work_after_dispatch, lemma_yields_then_dispatches, occurrences,
    round_robin, work,
};

verus! {

/// Words in each thread's stack.
pub const THREAD_MAX_STACK: usize = 2048;

/// Threads the run queue holds.
pub const THREAD_COUNT: usize = 10;

/// Registers a yielding thread saves on its own stack: r4 to r11, then lr.
pub const CALLEE_SAVED_WORDS: usize = 9;

/// Relies on heapless::Deque, the bounded FIFO that holds the run queue;
/// its contents are `queued_threads`.
#[verifier::external_type_specification]
#[verifier::external_body]
#[verifier::reject_recursive_types(T)]
pub struct ExDeque<T, const N: usize>(heapless::Deque<T, N>);

/// A thread control block.
pub struct Thread {
    id: u32,
    stack: Vec<u32>,
    /// Index in `stack` of the lowest word the thread has saved.
    stack_pointer: usize,
    /// Address at which the thread resumes when it is next dispatched.
    program_counter: u32,
}

/// What a thread control block holds.
pub struct ThreadView {
    pub id: u32,
    pub stack: Seq<u32>,
    pub stack_pointer: usize,
    pub program_counter: u32,
}

impl View for Thread {
    type V = ThreadView;

    closed spec fn view(&self) -> ThreadView {
        ThreadView {
            id: self.id,
            stack: self.stack@,
            stack_pointer: self.stack_pointer,
            program_counter: self.program_counter,
        }
    }
}

impl ThreadView {
    /// The stack has its fixed size and the saved stack pointer lies within it.
    pub open spec fn wf(self) -> bool {
        &&& self.stack.len() == THREAD_MAX_STACK
        &&& self.stack_pointer <= THREAD_MAX_STACK
    }
}

/// The stack of a new thread: zeroes, with the entry point in the top word and
/// its argument in the word below.
pub open spec fn initial_stack(code: u32, arg: u32) -> Seq<u32> {
    Seq::new(THREAD_MAX_STACK as nat, |i: int| 0u32).update(
        THREAD_MAX_STACK - 1,
        code,
    ).update(THREAD_MAX_STACK - 2, arg)
}

/// The control block that `fork` makes.
pub open spec fn forked(id: u32, code: u32, arg: u32, trampoline_pc: u32) -> ThreadView {
    ThreadView {
        id,
        stack: initial_stack(code, arg),
        stack_pointer: (THREAD_MAX_STACK - 2) as usize,
        program_counter: trampoline_pc,
    }
}

/// The stack after `regs` were pushed onto it just below word `sp`.
pub open spec fn pushed_frame(stack: Seq<u32>, sp: int, regs: Seq<u32>) -> Seq<u32> {
    Seq::new(
        stack.len(),
        |i: int|
            if sp - CALLEE_SAVED_WORDS <= i < sp {
                regs[i - (sp - CALLEE_SAVED_WORDS)]
            } else {
                stack[i]
            },
    )
}

/// The control block of a thread that yielded with stack pointer `sp`,
/// callee-saved registers `regs`, to resume at `pc`.
pub open spec fn yielded(t: ThreadView, sp: usize, regs: Seq<u32>, pc: u32) -> ThreadView {
    ThreadView {
        id: t.id,
        stack: pushed_frame(t.stack, sp as int, regs),
        stack_pointer: (sp - CALLEE_SAVED_WORDS) as usize,
        program_counter: pc,
    }
}

/// The callee-saved registers a thread finds on its stack when it resumes.
pub open spec fn saved_registers(t: ThreadView) -> Seq<u32> {
    t.stack.subrange(t.stack_pointer as int, t.stack_pointer + CALLEE_SAVED_WORDS)
}

/// The threads that a run queue holds, front first.
pub uninterp spec fn queued_threads(q: heapless::Deque<Thread, THREAD_COUNT>) -> Seq<Thread>;

/// Relies on heapless::Deque::new: a new deque is empty.
#[verifier::external_body]
fn queue_new() -> (q: heapless::Deque<Thread, THREAD_COUNT>)
    ensures
        queued_threads(q) == Seq::<Thread>::empty(),
{
    heapless::Deque::new()
}

/// Relies on heapless::Deque::len: the number of items held.
#[verifier::external_body]
fn queue_len(q: &heapless::Deque<Thread, THREAD_COUNT>) -> (r: usize)
    ensures
        r == queued_threads(*q).len(),
{
    q.len()
}

/// Relies on heapless::Deque::push_back: the item goes to the back unless the
/// deque holds its capacity already, and then it is handed back.
#[verifier::external_body]
fn queue_push_back(q: &mut heapless::Deque<Thread, THREAD_COUNT>, t: Thread) -> (r: Result<(), Thread>)
    ensures
        queued_threads(*old(q)).len() < THREAD_COUNT ==> r is Ok && queued_threads(*final(q))
            == queued_threads(*old(q)).push(t),
        queued_threads(*old(q)).len() >= THREAD_COUNT ==> r is Err && r->Err_0 == t
            && queued_threads(*final(q)) == queued_threads(*old(q)),
{
    q.push_back(t)
}

/// Relies on heapless::Deque::pop_front: removes and returns the front item,
/// or `None` when the deque is empty.
#[verifier::external_body]
fn queue_pop_front(q: &mut heapless::Deque<Thread, THREAD_COUNT>) -> (r: Option<Thread>)
    ensures
        queued_threads(*old(q)).len() == 0 ==> r is None && queued_threads(*final(q))
            == queued_threads(*old(q)),
        queued_threads(*old(q)).len() > 0 ==> r == Some(queued_threads(*old(q))[0])
            && queued_threads(*final(q)) == queued_threads(*old(q)).drop_first(),
{
    q.pop_front()
}

impl Thread {
    pub fn id(&self) -> (r: u32)
        ensures
            r == self@.id,
    {
        self.id
    }

    pub fn stack(&self) -> (r: &Vec<u32>)
        ensures
            r@ == self@.stack,
    {
        &self.stack
    }

    pub fn stack_pointer(&self) -> (r: usize)
        ensures
            r == self@.stack_pointer,
    {
        self.stack_pointer
    }

    pub fn program_counter(&self) -> (r: u32)
        ensures
            r == self@.program_counter,
    {
        self.program_counter
    }
}

/// The scheduler: the run queue, the running thread, the next thread id, and
/// the address at which the scheduler resumes when a thread yields or exits.
pub struct ThreadState {
    queue: heapless::Deque<Thread, THREAD_COUNT>,
    current_thread: Option<Thread>,
    counter: u32,
    return_pc: Option<u32>,
    trampoline_pc: u32,
}

/// No two control blocks in `q` have the same id.
pub open spec fn ids_distinct(q: Seq<ThreadView>) -> bool {
    forall|i: int, j: int| 0 <= i < j < q.len() ==> (#[trigger] q[i]).id != (#[trigger] q[j]).id
}

/// The run queue as the dispatch order sees it: each thread's id with the
/// number of yields `yields` gives it left.
pub open spec fn scripted(q: Seq<ThreadView>, yields: Seq<u32>) -> Seq<(u32, nat)> {
    q.map_values(|t: ThreadView| (t.id, yields[t.id as int] as nat))
}

/// The views of a sequence of control blocks.
pub open spec fn views(s: Seq<Thread>) -> Seq<ThreadView> {
    s.map_values(|t: Thread| t@)
}

impl ThreadState {
    /// The run queue, front first.
    pub closed spec fn queue(&self) -> Seq<ThreadView> {
        views(queued_threads(self.queue))
    }

    /// The running thread, if any.
    pub closed spec fn current(&self) -> Option<ThreadView> {
        match self.current_thread {
            Some(t) => Some(t@),
            None => None,
        }
    }

    /// The id the next forked thread gets.
    pub closed spec fn next_id(&self) -> u32 {
        self.counter
    }

    /// Where the scheduler resumes once a thread yields or exits.
    pub closed spec fn resume_pc(&self) -> Option<u32> {
        self.return_pc
    }

    /// Where every forked thread starts.
    pub closed spec fn entry_pc(&self) -> u32 {
        self.trampoline_pc
    }

    /// Every alive thread: the queued ones, then the running one.
    pub open spec fn live(&self) -> Seq<ThreadView> {
        match self.current() {
            Some(t) => self.queue().push(t),
            None => self.queue(),
        }
    }

    pub open spec fn wf(&self) -> bool {
        &&& self.queue().len() <= THREAD_COUNT
        &&& forall|i: int|
            0 <= i < self.queue().len() ==> (#[trigger] self.queue()[i]).wf()
                && self.queue()[i].id < self.next_id()
        &&& ids_distinct(self.queue())
        &&& self.current() is Some ==> {
            let t = self.current().unwrap();
            &&& t.wf()
            &&& t.id < self.next_id()
            &&& forall|i: int| 0 <= i < self.queue().len() ==> (#[trigger] self.queue()[i]).id != t.id
        }
    }

    /// A scheduler with no threads; forked threads start at `trampoline_pc`.
    pub fn new(trampoline_pc: u32) -> (r: Self)
        ensures
            r.wf(),
            r.queue() == Seq::<ThreadView>::empty(),
            r.current() is None,
            r.next_id() == 0,
            r.resume_pc() is None,
            r.entry_pc() == trampoline_pc,
    {
        let r = ThreadState {
            queue: queue_new(),
            current_thread: None,
            counter: 0,
            return_pc: None,
            trampoline_pc,
        };
        assert(r.queue() =~= Seq::<ThreadView>::empty());
        r
    }

    /// The id the next forked thread gets.
    pub fn next_thread_id(&self) -> (r: u32)
        ensures
            r == self.next_id(),
    {
        self.counter
    }

    /// Whether the run queue is full.
    pub fn queue_is_full(&self) -> (r: bool)
        ensures
            r == (self.queue().len() >= THREAD_COUNT),
    {
        queue_len(&self.queue) >= THREAD_COUNT
    }

    /// The number of threads in the run queue.
    pub fn queue_len(&self) -> (r: usize)
        ensures
            r == self.queue().len(),
    {
        queue_len(&self.queue)
    }

    /// The number of alive threads: queued, or running.
    pub fn live_count(&self) -> (r: usize)
        requires
            self.wf(),
        ensures
            r == self.live().len(),
    {
        let n = queue_len(&self.queue);
        match &self.current_thread {
            Some(_) => n + 1,
            None => n,
        }
    }
}


impl ThreadState {
    /// Makes a thread that calls `code` with `arg`, queues it at the back,
    /// and returns its id. The run queue must have room: forking into a full
    /// queue is fatal to the caller.
    pub fn fork(&mut self, code: u32, arg: u32) -> (id: u32)
        requires
            old(self).wf(),
            old(self).queue().len() < THREAD_COUNT,
            old(self).next_id() < u32::MAX,
        ensures
            final(self).wf(),
            id == old(self).next_id(),
            final(self).queue() == old(self).queue().push(
                forked(old(self).next_id(), code, arg, old(self).entry_pc()),
            ),
            final(self).next_id() == old(self).next_id() + 1,
            final(self).current() == old(self).current(),
            final(self).resume_pc() == old(self).resume_pc(),
            final(self).entry_pc() == old(self).entry_pc(),
    {
        let mut stack: Vec<u32> = Vec::new();
        while stack.len() < THREAD_MAX_STACK
            invariant
                stack.len() <= THREAD_MAX_STACK,
                forall|i: int| 0 <= i < stack.len() ==> stack@[i] == 0,
            decreases THREAD_MAX_STACK - stack.len(),
        {
            stack.push(0);
        }
        stack.set(THREAD_MAX_STACK - 1, code);
        stack.set(THREAD_MAX_STACK - 2, arg);
        let id = self.counter;
        self.counter = self.counter + 1;
        let thread = Thread {
            id,
            stack,
            stack_pointer: THREAD_MAX_STACK - 2,
            program_counter: self.trampoline_pc,
        };
        assert(thread@ == forked(id, code, arg, self.trampoline_pc)) by {
            assert(thread@.stack =~= initial_stack(code, arg));
        }
        let ghost q0 = queued_threads(self.queue);
        let _ = queue_push_back(&mut self.queue, thread);
        assert(views(q0.push(thread)) =~= views(q0).push(thread@));
        id
    }

    /// Takes the thread at the front of the run queue and makes it the running
    /// one; returns the address to branch to, or `None` once the queue is
    /// empty.
    pub fn schedule_next(&mut self) -> (r: Option<u32>)
        requires
            old(self).wf(),
            old(self).current() is None,
        ensures
            final(self).wf(),
            old(self).queue().len() == 0 ==> r is None && final(self).current() is None
                && final(self).queue() == old(self).queue(),
            old(self).queue().len() > 0 ==> r == Some(old(self).queue()[0].program_counter)
                && final(self).current() == Some(old(self).queue()[0]) && final(self).queue()
                == old(self).queue().drop_first(),
            final(self).next_id() == old(self).next_id(),
            final(self).resume_pc() == old(self).resume_pc(),
            final(self).entry_pc() == old(self).entry_pc(),
    {
        let ghost q0 = queued_threads(self.queue);
        match queue_pop_front(&mut self.queue) {
            Some(next) => {
                let pc = next.program_counter;
                self.current_thread = Some(next);
                assert(views(q0.drop_first()) =~= views(q0).drop_first());
                let ghost q = views(q0);
                assert forall|i: int| 0 <= i < q.len() - 1 implies #[trigger] self.queue()[i] == q[i
                    + 1] && q[i + 1].id != q[0].id by {
                    assert(q[0].id != q[i + 1].id);
                }
                assert(ids_distinct(self.queue())) by {
                    assert forall|i: int, j: int|
                        0 <= i < j < self.queue().len() implies (#[trigger] self.queue()[i]).id
                        != (#[trigger] self.queue()[j]).id by {
                        assert(q[i + 1].id != q[j + 1].id);
                    }
                }
                assert(self.current() == Some(q[0]));
                Some(pc)
            },
            None => None,
        }
    }

    /// The saved stack pointer of the running thread.
    pub fn get_current_stack_pointer(&self) -> (r: usize)
        requires
            self.current() is Some,
        ensures
            r == self.current().unwrap().stack_pointer,
    {
        match &self.current_thread {
            Some(t) => t.stack_pointer,
            None => 0,
        }
    }

    /// The running thread, if any.
    pub fn read_current_thread(&self) -> (r: Option<&Thread>)
        ensures
            r is Some <==> self.current() is Some,
            r is Some ==> r.unwrap()@ == self.current().unwrap(),
    {
        match &self.current_thread {
            Some(t) => Some(t),
            None => None,
        }
    }

    /// Records where the scheduler resumes once a thread yields or exits.
    pub fn set_return_program_counter(&mut self, pc: u32)
        requires
            old(self).wf(),
        ensures
            final(self).wf(),
            final(self).resume_pc() == Some(pc),
            final(self).queue() == old(self).queue(),
            final(self).current() == old(self).current(),
            final(self).next_id() == old(self).next_id(),
            final(self).entry_pc() == old(self).entry_pc(),
    {
        self.return_pc = Some(pc);
    }

    /// Where the scheduler resumes once a thread yields or exits, if a
    /// dispatch has recorded it.
    pub fn get_return_pc(&self) -> (r: Option<u32>)
        ensures
            r == self.resume_pc(),
    {
        self.return_pc
    }

    /// The running thread gives up the processor: it has already saved its
    /// callee-saved registers on its own stack, down to `new_sp`, and resumes
    /// at `new_pc`. Its control block goes to the back of the run queue, which
    /// must have room for it.
    pub fn thread_yield_save_sp_move_to_queue(&mut self, new_sp: usize, new_pc: u32)
        requires
            old(self).wf(),
            old(self).current() is Some,
            old(self).queue().len() < THREAD_COUNT,
            new_sp <= THREAD_MAX_STACK,
        ensures
            final(self).wf(),
            final(self).current() is None,
            final(self).queue() == old(self).queue().push(
                (ThreadView {
                    stack_pointer: new_sp,
                    program_counter: new_pc,
                    ..old(self).current().unwrap()
                }),
            ),
            final(self).next_id() == old(self).next_id(),
            final(self).resume_pc() == old(self).resume_pc(),
            final(self).entry_pc() == old(self).entry_pc(),
    {
        let ghost q0 = queued_threads(self.queue);
        let mut t = self.current_thread.take().unwrap();
        t.stack_pointer = new_sp;
        t.program_counter = new_pc;
        let _ = queue_push_back(&mut self.queue, t);
        assert(views(q0.push(t)) =~= views(q0).push(t@));
    }

    /// The running thread yields: `regs`, its callee-saved registers, go onto
    /// its own stack just below `sp`; it resumes at `resume_pc`, and its control
    /// block goes to the back of the run queue, which must have room for it.
    pub fn thread_yield(&mut self, sp: usize, regs: &[u32; CALLEE_SAVED_WORDS], resume_pc: u32)
        requires
            old(self).wf(),
            old(self).current() is Some,
            old(self).queue().len() < THREAD_COUNT,
            CALLEE_SAVED_WORDS <= sp <= THREAD_MAX_STACK,
        ensures
            final(self).wf(),
            final(self).current() is None,
            final(self).queue() == old(self).queue().push(
                yielded(old(self).current().unwrap(), sp, regs@, resume_pc),
            ),
            final(self).next_id() == old(self).next_id(),
            final(self).resume_pc() == old(self).resume_pc(),
            final(self).entry_pc() == old(self).entry_pc(),
    {
        let ghost q0 = queued_threads(self.queue);
        let ghost t0 = self.current().unwrap();
        let mut t = self.current_thread.take().unwrap();
        let base = sp - CALLEE_SAVED_WORDS;
        let mut k: usize = 0;
        while k < CALLEE_SAVED_WORDS
            invariant
                k <= CALLEE_SAVED_WORDS,
                base == sp - CALLEE_SAVED_WORDS,
                sp <= THREAD_MAX_STACK,
                t.stack@.len() == THREAD_MAX_STACK,
                t@.id == t0.id,
                forall|i: int|
                    0 <= i < THREAD_MAX_STACK ==> t.stack@[i] == if base <= i < base + k {
                        regs@[i - base]
                    } else {
                        t0.stack[i]
                    },
            decreases CALLEE_SAVED_WORDS - k,
        {
            t.stack.set(base + k, regs[k]);
            k = k + 1;
        }
        t.stack_pointer = base;
        t.program_counter = resume_pc;
        assert(t@ == yielded(t0, sp, regs@, resume_pc)) by {
            assert(t.stack@ =~= pushed_frame(t0.stack, sp as int, regs@));
        }
        let _ = queue_push_back(&mut self.queue, t);
        assert(views(q0.push(t)) =~= views(q0).push(t@));
    }

    /// The callee-saved registers the running thread saved when it last
    /// yielded, read back from its stack.
    pub fn restore_callee_saved(&self) -> (r: Vec<u32>)
        requires
            self.current() is Some,
            self.current().unwrap().stack_pointer + CALLEE_SAVED_WORDS
                <= self.current().unwrap().stack.len(),
        ensures
            r@ == saved_registers(self.current().unwrap()),
    {
        let mut r: Vec<u32> = Vec::new();
        match &self.current_thread {
            Some(t) => {
                let sp = t.stack_pointer;
                let mut k: usize = 0;
                while k < CALLEE_SAVED_WORDS
                    invariant
                        k <= CALLEE_SAVED_WORDS,
                        sp + CALLEE_SAVED_WORDS <= t.stack.len(),
                        r@ =~= t.stack@.subrange(sp as int, sp + k),
                    decreases CALLEE_SAVED_WORDS - k,
                {
                    r.push(t.stack[sp + k]);
                    k = k + 1;
                }
            },
            None => {},
        }
        r
    }

    /// The running thread exits: its control block leaves the scheduler and
    /// is not queued again. It is handed back, since the thread is still
    /// running on its stack until control is back in the scheduler.
    pub fn thread_exit(&mut self) -> (t: Thread)
        requires
            old(self).wf(),
            old(self).current() is Some,
        ensures
            final(self).wf(),
            t@ == old(self).current().unwrap(),
            final(self).current() is None,
            final(self).queue() == old(self).queue(),
            final(self).next_id() == old(self).next_id(),
            final(self).resume_pc() == old(self).resume_pc(),
            final(self).entry_pc() == old(self).entry_pc(),
    {
        self.current_thread.take().unwrap()
    }
}

impl ThreadState {
    /// Runs the scheduler until the run queue is empty, where the thread with
    /// id `i` yields `yields[i]` times and then exits. Returns the ids of the
    /// threads in the order they were dispatched.
    pub fn run_round_robin(&mut self, yields: &Vec<u32>) -> (log: Vec<u32>)
        requires
            old(self).wf(),
            old(self).current() is None,
            forall|i: int| 0 <= i < old(self).queue().len() ==> (#[trigger] old(self).queue()[i]).id < yields.len(),
        ensures
            final(self).wf(),
            log@ == round_robin(scripted(old(self).queue(), yields@)),
            final(self).queue().len() == 0,
            final(self).current() is None,
            final(self).next_id() == old(self).next_id(),
    {
        let mut remaining = yields.clone();
        let mut log: Vec<u32> = Vec::new();
        let ghost goal = round_robin(scripted(self.queue(), yields@));
        loop
            invariant
                self.wf(),
                self.current() is None,
                self.next_id() == old(self).next_id(),
                remaining.len() == yields.len(),
                forall|i: int| 0 <= i < self.queue().len() ==> (#[trigger] self.queue()[i]).id < remaining.len(),
                log@ + round_robin(scripted(self.queue(), remaining@)) == goal,
            ensures
                self.wf(),
                self.current() is None,
                self.next_id() == old(self).next_id(),
                self.queue().len() == 0,
                log@ == goal,
            decreases work(scripted(self.queue(), remaining@)),
        {
            let ghost q = self.queue();
            let ghost sq = scripted(q, remaining@);
            let ghost log0 = log@;
            proof {
                if q.len() > 0 {
                    lemma_work_after_dispatch(sq);
                }
            }
            match self.schedule_next() {
                None => {
                    assert(round_robin(sq) =~= Seq::<u32>::empty());
                    assert(log@ + Seq::<u32>::empty() =~= log@);
                    break;
                },
                Some(pc) => {
                    let id = match self.read_current_thread() {
                        Some(t) => t.id(),
                        None => 0,
                    };
                    assert(id == q[0].id);
                    assert(sq[0] == (id, remaining@[id as int] as nat));
                    log.push(id);
                    if remaining[id as usize] > 0 {
                        let k = remaining[id as usize];
                        remaining.set(id as usize, k - 1);
                        let sp = self.get_current_stack_pointer();
                        self.thread_yield_save_sp_move_to_queue(sp, pc);
                        assert(scripted(self.queue(), remaining@) =~= after_dispatch(sq)) by {
                            assert forall|i: int| 1 <= i < q.len() implies (#[trigger] q[i]).id != id by {
                                assert(q[0].id != q[i].id);
                            }
                        }
                    } else {
                        self.thread_exit();
                        assert(scripted(self.queue(), remaining@) =~= after_dispatch(sq));
                    }
                    assert(round_robin(sq) == seq![id] + round_robin(after_dispatch(sq)));
                    assert(log@ + round_robin(after_dispatch(sq)) =~= log0 + round_robin(sq));
                },
            }
        }
        log
    }
}

/// Threads that never yield run once each, in the order they were forked:
/// the dispatch order of `run_round_robin` is the run queue's order.
pub proof fn lemma_run_is_fifo(q: Seq<ThreadView>, yields: Seq<u32>)
    requires
        forall|i: int| 0 <= i < q.len() ==> yields[(#[trigger] q[i]).id as int] == 0,
    ensures
        round_robin(scripted(q, yields)) == q.map_values(|t: ThreadView| t.id),
{
    let sq = scripted(q, yields);
    assert forall|i: int| 0 <= i < sq.len() implies (#[trigger] sq[i]).1 == 0 by {
        assert(yields[q[i].id as int] == 0);
    }
    lemma_round_robin_fifo(sq);
    assert(sq.map_values(|p: (u32, nat)| p.0) =~= q.map_values(|t: ThreadView| t.id));
}

/// Threads are first dispatched in the order they were forked, whether or
/// not they yield: the thread at position `i` of the run queue is first
/// dispatched `i`-th. A thread that never yields is dispatched only then, so it
/// has run to completion before any thread behind it is first dispatched.
pub proof fn lemma_run_first_dispatch_order(q: Seq<ThreadView>, yields: Seq<u32>, i: int)
    requires
        ids_distinct(q),
        0 <= i < q.len(),
    ensures
        round_robin(scripted(q, yields)).len() >= q.len(),
        round_robin(scripted(q, yields))[i] == q[i].id,
        forall|m: int| 0 <= m < i ==> round_robin(scripted(q, yields))[m] != q[i].id,
        yields[q[i].id as int] == 0 ==> forall|m: int|
            0 <= m < round_robin(scripted(q, yields)).len() && round_robin(scripted(q, yields))[m]
                == q[i].id ==> m == i,
{
    let sq = scripted(q, yields);
    let rr = round_robin(sq);
    lemma_first_round_in_queue_order(sq, sq.len() as int);
    assert(rr.take(sq.len() as int)[i] == rr[i]);
    assert forall|m: int| 0 <= m < i implies rr[m] != q[i].id by {
        assert(rr.take(sq.len() as int)[m] == rr[m]);
        assert(q[m].id != q[i].id);
    }
    if yields[q[i].id as int] == 0 {
        lemma_run_dispatch_count(q, yields, i);
        lemma_single_occurrence(rr, q[i].id, i);
    }
}

/// A thread that yields `k` times is dispatched `k + 1` times by
/// `run_round_robin`.
pub proof fn lemma_run_dispatch_count(q: Seq<ThreadView>, yields: Seq<u32>, i: int)
    requires
        ids_distinct(q),
        0 <= i < q.len(),
    ensures
        occurrences(round_robin(scripted(q, yields)), q[i].id) == yields[q[i].id as int] + 1,
{
    let sq = scripted(q, yields);
    assert(distinct_ids(sq)) by {
        assert forall|a: int, b: int| 0 <= a < b < sq.len() implies (#[trigger] sq[a]).0
            != (#[trigger] sq[b]).0 by {
            assert(q[a].id != q[b].id);
        }
    }
    lemma_yields_then_dispatches(sq, i);
}

/// Yielding and being dispatched again is lossless: the thread resumes at the
/// address it gave, reads back exactly the callee-saved registers it saved,
/// its stack pointer comes back to where it was, and the stack above it, the
/// frames of its callers, is untouched.
pub proof fn lemma_yield_resume_round_trip(t: ThreadView, sp: usize, regs: Seq<u32>, pc: u32)
    requires
        t.wf(),
        CALLEE_SAVED_WORDS <= sp <= THREAD_MAX_STACK,
        regs.len() == CALLEE_SAVED_WORDS,
    ensures
        ({
            let y = yielded(t, sp, regs, pc);
            &&& y.wf()
            &&& y.id == t.id
            &&& y.program_counter == pc
            &&& saved_registers(y) == regs
            &&& y.stack_pointer + CALLEE_SAVED_WORDS == sp
            &&& forall|i: int| sp <= i < THREAD_MAX_STACK ==> y.stack[i] == t.stack[i]
        }),
{
    let y = yielded(t, sp, regs, pc);
    assert(saved_registers(y) =~= regs);
}

} // verus!
