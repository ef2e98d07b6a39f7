use pi0_kernel::handlers::HandlerRegistry;

fn claim_all(_pc: u32) -> bool {
    true
}

fn pass(_pc: u32) -> bool {
    false
}

#[test]
fn register_remove_register_reuses_the_slot() {
    let mut r: HandlerRegistry<fn(u32) -> bool> = HandlerRegistry::new();
    let a = r.register_interrupt_handler(pass);
    let b = r.register_interrupt_handler(claim_all);
    assert_eq!((a, b), (0, 1));
    r.remove_interrupt_handler(a);
    assert!(r.handler(a).is_none());
    assert_eq!(r.dispatch_order(), vec![1]);
    let c = r.register_interrupt_handler(pass);
    assert_eq!(c, a);
    assert_eq!(r.dispatch_order(), vec![0, 1]);
}

#[test]
fn removed_handler_is_not_invoked() {
    let mut r: HandlerRegistry<fn(u32) -> bool> = HandlerRegistry::new();
    let a = r.register_interrupt_handler(claim_all);
    let b = r.register_interrupt_handler(pass);
    let c = r.register_interrupt_handler(pass);
    r.remove_interrupt_handler(b);
    let order = r.dispatch_order();
    assert_eq!(order, vec![a, c]);
    let claimed: Vec<bool> = order.iter().map(|&i| (r.handler(i).unwrap())(0x8000)).collect();
    assert_eq!(claimed, vec![true, false]);
}

#[test]
fn most_recently_freed_slot_is_taken_first() {
    let mut r: HandlerRegistry<u32> = HandlerRegistry::new();
    for v in 0..4u32 {
        assert_eq!(r.register_interrupt_handler(v), v as usize);
    }
    r.remove_interrupt_handler(1);
    r.remove_interrupt_handler(3);
    assert_eq!(r.register_interrupt_handler(30), 3);
    assert_eq!(r.register_interrupt_handler(10), 1);
    assert_eq!(r.register_interrupt_handler(40), 4);
    assert_eq!(r.handler(3), Some(&30));
    assert_eq!(r.handler(9), None);
}

fn claim_low(pc: u32) -> bool {
    pc < 0x1000
}

#[test]
fn run_handlers_stops_at_first_claim() {
    let mut r: HandlerRegistry<fn(u32) -> bool> = HandlerRegistry::new();
    assert!(!r.run_handlers(0x10));
    let a = r.register_interrupt_handler(pass);
    r.register_interrupt_handler(claim_low);
    assert!(r.run_handlers(0x10));
    assert!(!r.run_handlers(0x8000));
    r.register_interrupt_handler(claim_all);
    assert!(r.run_handlers(0x8000));
    r.remove_interrupt_handler(a);
    assert!(r.run_handlers(0x8000));
}
