use pi0_kernel::thread::{ThreadState, CALLEE_SAVED_WORDS, THREAD_COUNT, THREAD_MAX_STACK};

const TRAMPOLINE: u32 = 0x8100;

#[test]
fn fork_builds_the_entry_frame() {
    let mut s = ThreadState::new(TRAMPOLINE);
    assert_eq!(s.fork(0x9000, 0x1234), 0);
    assert_eq!(s.queue_len(), 1);
    assert_eq!(s.schedule_next(), Some(TRAMPOLINE));
    let t = s.read_current_thread().unwrap();
    assert_eq!(t.id(), 0);
    assert_eq!(t.stack_pointer(), THREAD_MAX_STACK - 2);
    assert_eq!(t.stack()[THREAD_MAX_STACK - 1], 0x9000);
    assert_eq!(t.stack()[THREAD_MAX_STACK - 2], 0x1234);
    assert_eq!(t.stack()[0], 0);
    assert_eq!(s.get_current_stack_pointer(), THREAD_MAX_STACK - 2);
    assert_eq!(s.thread_exit().id(), 0);
    assert!(s.read_current_thread().is_none());
    assert_eq!(s.schedule_next(), None);
}

#[test]
fn threads_that_never_yield_run_once_in_fork_order() {
    let mut s = ThreadState::new(TRAMPOLINE);
    for i in 0..5u32 {
        assert_eq!(s.fork(0x9000 + i, i), i);
    }
    let log = s.run_round_robin(&vec![0; 5]);
    assert_eq!(log, vec![0, 1, 2, 3, 4]);
    assert_eq!(s.queue_len(), 0);
}

#[test]
fn two_threads_yielding_twice_interleave() {
    let mut s = ThreadState::new(TRAMPOLINE);
    assert_eq!(s.fork(0xa000, 0), 0);
    assert_eq!(s.fork(0xb000, 0), 1);
    let log = s.run_round_robin(&vec![2, 2]);
    assert_eq!(log, vec![0, 1, 0, 1, 0, 1]);
    assert_eq!(s.queue_len(), 0);
    assert!(s.read_current_thread().is_none());
    assert_eq!(s.live_count(), 0);
}

#[test]
fn a_thread_yielding_k_times_runs_k_plus_one_times() {
    let mut s = ThreadState::new(TRAMPOLINE);
    for i in 0..3u32 {
        assert_eq!(s.fork(0x9000, i), i);
    }
    let log = s.run_round_robin(&vec![3, 0, 1]);
    assert_eq!(log, vec![0, 1, 2, 0, 2, 0, 0]);
    assert_eq!(log.iter().filter(|&&x| x == 0).count(), 4);
    assert_eq!(log.iter().filter(|&&x| x == 2).count(), 2);
}

#[test]
fn forking_beyond_capacity_is_reported() {
    let mut s = ThreadState::new(TRAMPOLINE);
    for i in 0..THREAD_COUNT as u32 {
        assert_eq!(s.fork(0x9000, i), i);
    }
    assert!(s.queue_is_full());
    assert_eq!(s.queue_len(), THREAD_COUNT);
    assert_eq!(s.live_count(), THREAD_COUNT);
}

#[test]
fn running_thread_does_not_count_against_capacity() {
    let mut s = ThreadState::new(TRAMPOLINE);
    for i in 0..THREAD_COUNT as u32 {
        assert_eq!(s.fork(0x9000, i), i);
    }
    assert_eq!(s.schedule_next(), Some(TRAMPOLINE));
    assert_eq!(s.queue_len(), THREAD_COUNT - 1);
    assert!(!s.queue_is_full());
    assert_eq!(s.fork(0x9000, 99), THREAD_COUNT as u32);
    assert_eq!(s.queue_len(), THREAD_COUNT);
    assert_eq!(s.live_count(), THREAD_COUNT + 1);
    assert!(s.queue_is_full());
    assert_eq!(s.thread_exit().id(), 0);
    assert_eq!(s.schedule_next(), Some(TRAMPOLINE));
    assert_eq!(s.read_current_thread().unwrap().id(), 1);
}

#[test]
fn first_dispatches_follow_fork_order_with_yields() {
    let mut s = ThreadState::new(TRAMPOLINE);
    for i in 0..4u32 {
        assert_eq!(s.fork(0x9000, i), i);
    }
    let log = s.run_round_robin(&vec![2, 0, 1, 0]);
    assert_eq!(&log[..4], &[0, 1, 2, 3]);
    assert_eq!(log, vec![0, 1, 2, 3, 0, 2, 0]);
}

#[test]
fn yield_saves_and_restores_callee_saved_registers() {
    let mut s = ThreadState::new(TRAMPOLINE);
    assert_eq!(s.get_return_pc(), None);
    s.set_return_program_counter(0x8800);
    assert_eq!(s.get_return_pc(), Some(0x8800));
    assert_eq!(s.fork(0x9000, 7), 0);
    assert_eq!(s.fork(0x9100, 8), 1);
    assert_eq!(s.schedule_next(), Some(TRAMPOLINE));
    let regs: [u32; CALLEE_SAVED_WORDS] = [4, 5, 6, 7, 8, 9, 10, 11, 0x9044];
    let sp = THREAD_MAX_STACK - 16;
    s.thread_yield(sp, &regs, 0x9040);
    assert_eq!(s.queue_len(), 2);
    assert_eq!(s.schedule_next(), Some(TRAMPOLINE));
    s.thread_exit();
    assert_eq!(s.schedule_next(), Some(0x9040));
    assert_eq!(s.get_current_stack_pointer(), sp - CALLEE_SAVED_WORDS);
    assert_eq!(s.restore_callee_saved(), regs.to_vec());
    let t = s.read_current_thread().unwrap();
    assert_eq!(t.id(), 0);
    assert_eq!(t.stack()[THREAD_MAX_STACK - 2], 7);
    assert_eq!(t.program_counter(), 0x9040);
}

#[test]
fn save_sp_moves_running_thread_to_back() {
    let mut s = ThreadState::new(TRAMPOLINE);
    assert_eq!(s.fork(0x9000, 0), 0);
    assert_eq!(s.fork(0x9000, 0), 1);
    assert_eq!(s.schedule_next(), Some(TRAMPOLINE));
    s.thread_yield_save_sp_move_to_queue(100, 0x9abc);
    assert!(s.read_current_thread().is_none());
    assert_eq!(s.schedule_next(), Some(TRAMPOLINE));
    assert_eq!(s.read_current_thread().unwrap().id(), 1);
    s.thread_exit();
    assert_eq!(s.schedule_next(), Some(0x9abc));
    assert_eq!(s.get_current_stack_pointer(), 100);
}
