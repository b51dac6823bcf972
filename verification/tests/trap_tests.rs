use trap_layer::kernel::Event;
use trap_layer::kernel::Kernel;
use trap_layer::kernel::SubEntry;
use trap_layer::kernel::TrapRecord;
use trap_layer::regs::RegFile;
use trap_layer::runtime::start;
use trap_layer::syscalls::command;
use trap_layer::syscalls::encode_command;
use trap_layer::syscalls::encode_subscribe;
use trap_layer::syscalls::subscribe;
use trap_layer::syscalls::trap_command;
use trap_layer::syscalls::yieldk;
use trap_layer::syscalls::YieldOutcome;
use trap_layer::syscalls::ENODEVICE;
use trap_layer::syscalls::SUCCESS;
use trap_layer::syscalls::YIELD_ID_WAIT;

fn timer_event(arg0: usize) -> Event {
    Event { driver: 0, slot: 0, arg0, arg1: 0, arg2: 0 }
}

#[test]
fn command_on_known_driver_returns_success() {
    let mut k = Kernel::new();
    let mut regs = RegFile::new();
    k.add_driver(1);
    let r = command(&mut k, &mut regs, 1, 2, 3, 4);
    assert_eq!(r, SUCCESS);
    assert_eq!(k.log.len(), 1);
    assert_eq!(k.log[0], TrapRecord::Command { driver: 1, operation: 2, arg1: 3, arg2: 4 });
}

#[test]
fn command_on_invalid_driver_returns_no_such_driver() {
    let mut k = Kernel::new();
    let mut regs = RegFile::new();
    k.add_driver(1);
    let r = command(&mut k, &mut regs, 0xFFFF, 0, 0, 0);
    assert_eq!(r, ENODEVICE);
    assert_eq!(r, usize::MAX - 10);
    // no side effects beyond the returned word and the boundary log
    assert!(k.subs.is_empty());
    assert!(k.pending.is_empty());
    assert_eq!(k.drivers, vec![1]);
    assert_eq!(
        k.log,
        vec![TrapRecord::Command { driver: 0xFFFF, operation: 0, arg1: 0, arg2: 0 }]
    );
}

#[test]
fn encoder_places_exactly_the_four_arguments() {
    let mut regs = RegFile::new();
    encode_command(&mut regs, 11, 22, 33, 44);
    assert_eq!(regs.r0, 11);
    assert_eq!(regs.r1, 22);
    assert_eq!(regs.r2, 33);
    assert_eq!(regs.r3, 44);
    assert!(regs.r0_valid && regs.r1_valid && regs.r2_valid && regs.r3_valid);

    let mut regs2 = RegFile::new();
    encode_subscribe(&mut regs2, 5, 6, 7, 8);
    assert_eq!((regs2.r0, regs2.r1, regs2.r2, regs2.r3), (5, 6, 7, 8));
}

#[test]
fn kernel_reads_the_designated_argument_registers_at_the_boundary() {
    let mut k = Kernel::new();
    let mut regs = RegFile::new();
    k.add_driver(11);
    encode_command(&mut regs, 11, 22, 33, 44);
    trap_command(&mut k, &mut regs);
    // the kernel saw exactly what stood in r0-r3
    assert_eq!(k.log, vec![TrapRecord::Command { driver: 11, operation: 22, arg1: 33, arg2: 44 }]);
    // the answer stands in the designated return register, and only there
    assert_eq!(regs.r0, SUCCESS);
    assert!(regs.r0_valid);
    assert!(!regs.r1_valid && !regs.r2_valid && !regs.r3_valid);
}

#[test]
fn command_clobbers_every_scratch_register() {
    let mut k = Kernel::new();
    let mut regs = RegFile::new();
    k.add_driver(1);
    // sentinels in every caller-saved and callee-saved register
    regs.r1 = 0xAAAA;
    regs.r2 = 0xBBBB;
    regs.r3 = 0xCCCC;
    regs.r12 = 0xDDDD;
    regs.lr = 0xEEEE;
    regs.r4 = 0x4444;
    regs.r5 = 0x5555;
    regs.r6 = 0x6666;
    regs.r7 = 0x7777;
    regs.r8 = 0x8888;
    regs.r10 = 0x1010;
    regs.r11 = 0x1111;
    command(&mut k, &mut regs, 1, 0, 0, 0);
    // no caller-saved register besides r0 may be relied on afterwards
    assert!(!regs.r1_valid && !regs.r2_valid && !regs.r3_valid);
    assert!(!regs.r12_valid && !regs.lr_valid);
    assert_ne!(regs.r12, 0xDDDD);
    assert_ne!(regs.lr, 0xEEEE);
    // callee-saved registers survive untouched
    assert_eq!(
        (regs.r4, regs.r5, regs.r6, regs.r7, regs.r8, regs.r10, regs.r11),
        (0x4444, 0x5555, 0x6666, 0x7777, 0x8888, 0x1010, 0x1111)
    );
}

#[test]
fn subscribe_installs_the_handler() {
    let mut k = Kernel::new();
    let mut regs = RegFile::new();
    k.add_driver(3);
    let r = subscribe(&mut k, &mut regs, 3, 0, 0x700, 0x900);
    assert_eq!(r, SUCCESS);
    assert_eq!(k.subs, vec![SubEntry { driver: 3, slot: 0, callback: 0x700, data: 0x900 }]);
    assert_eq!(k.log, vec![TrapRecord::Subscribe { driver: 3, slot: 0, callback: 0x700, data: 0x900 }]);
}

#[test]
fn subscribe_on_unknown_driver_changes_nothing() {
    let mut k = Kernel::new();
    let mut regs = RegFile::new();
    let r = subscribe(&mut k, &mut regs, 9, 0, 0x700, 0x900);
    assert_eq!(r, ENODEVICE);
    assert!(k.subs.is_empty());
}

#[test]
fn second_registration_supersedes_the_first() {
    let mut k = Kernel::new();
    let mut regs = RegFile::new();
    k.add_driver(3);
    // (driver=3, slot=0, callback=F, data=P)
    subscribe(&mut k, &mut regs, 3, 0, 0xF0, 0xF1);
    // then (driver=3, slot=0, callback=G, data=Q)
    subscribe(&mut k, &mut regs, 3, 0, 0x60, 0x61);
    // one entry for the pair, and it is G/Q
    assert_eq!(k.subs, vec![SubEntry { driver: 3, slot: 0, callback: 0x60, data: 0x61 }]);
    // F/P never fires: a delivery for the pair carries G/Q
    k.raise(Event { driver: 3, slot: 0, arg0: 1, arg1: 2, arg2: 3 });
    match yieldk(&mut k, &mut regs) {
        YieldOutcome::Delivered(d) => {
            assert_eq!(d.callback, 0x60);
            assert_eq!(d.data, 0x61);
        }
        YieldOutcome::Blocked => panic!("a registered callback was pending"),
    }
}

#[test]
fn supersede_leaves_other_slots_alone() {
    let mut k = Kernel::new();
    let mut regs = RegFile::new();
    k.add_driver(3);
    subscribe(&mut k, &mut regs, 3, 1, 0xA0, 0xA1);
    subscribe(&mut k, &mut regs, 3, 0, 0xF0, 0xF1);
    subscribe(&mut k, &mut regs, 3, 0, 0x60, 0x61);
    assert_eq!(k.subs.len(), 2);
    assert!(k.subs.contains(&SubEntry { driver: 3, slot: 1, callback: 0xA0, data: 0xA1 }));
    assert!(k.subs.contains(&SubEntry { driver: 3, slot: 0, callback: 0x60, data: 0x61 }));
}

#[test]
fn yield_with_zero_registered_callbacks_never_returns_delivered() {
    let mut k = Kernel::new();
    let mut regs = RegFile::new();
    k.add_driver(3);
    k.raise(Event { driver: 3, slot: 0, arg0: 0, arg1: 0, arg2: 0 });
    // bounded simulated steps: however often the process suspends, it is
    // never woken — the hardware process would hang here forever
    for _ in 0..5 {
        match yieldk(&mut k, &mut regs) {
            YieldOutcome::Delivered(_) => panic!("no callback is registered"),
            YieldOutcome::Blocked => {}
        }
    }
}

#[test]
fn yield_delivers_the_registered_callback_with_its_payload() {
    let mut k = Kernel::new();
    let mut regs = RegFile::new();
    k.add_driver(3);
    subscribe(&mut k, &mut regs, 3, 2, 0x700, 0x900);
    k.raise(Event { driver: 3, slot: 2, arg0: 21, arg1: 22, arg2: 23 });
    match yieldk(&mut k, &mut regs) {
        YieldOutcome::Delivered(d) => {
            assert_eq!(d.driver, 3);
            assert_eq!(d.slot, 2);
            assert_eq!(d.callback, 0x700);
            assert_eq!(d.data, 0x900);
            assert_eq!((d.arg0, d.arg1, d.arg2), (21, 22, 23));
        }
        YieldOutcome::Blocked => panic!("a registered callback was pending"),
    }
    assert!(k.pending.is_empty());
    assert_eq!(*k.log.last().unwrap(), TrapRecord::Yield { mode: YIELD_ID_WAIT });
}

#[test]
fn yield_clobbers_the_full_caller_saved_set() {
    let mut k = Kernel::new();
    let mut regs = RegFile::new();
    k.add_driver(3);
    subscribe(&mut k, &mut regs, 3, 0, 0x700, 0x900);
    k.raise(Event { driver: 3, slot: 0, arg0: 0, arg1: 0, arg2: 0 });
    regs.r4 = 0x4444;
    regs.lr = 0xEEEE;
    yieldk(&mut k, &mut regs);
    // the callback injection rewrote the return path: nothing caller-saved
    // survives, the link register least of all
    assert!(!regs.r0_valid && !regs.r1_valid && !regs.r2_valid && !regs.r3_valid);
    assert!(!regs.r12_valid && !regs.lr_valid);
    assert_ne!(regs.lr, 0xEEEE);
    assert_eq!(regs.r4, 0x4444);
}

#[test]
fn yield_discards_events_nobody_subscribed_to() {
    let mut k = Kernel::new();
    let mut regs = RegFile::new();
    k.add_driver(3);
    k.add_driver(4);
    subscribe(&mut k, &mut regs, 4, 0, 0x700, 0x900);
    k.raise(Event { driver: 3, slot: 0, arg0: 1, arg1: 0, arg2: 0 });
    k.raise(Event { driver: 4, slot: 0, arg0: 2, arg1: 0, arg2: 0 });
    match yieldk(&mut k, &mut regs) {
        YieldOutcome::Delivered(d) => {
            assert_eq!(d.driver, 4);
            assert_eq!(d.arg0, 2);
        }
        YieldOutcome::Blocked => panic!("the second event was deliverable"),
    }
    assert!(k.pending.is_empty());
}

#[test]
fn yield_wakes_on_the_oldest_deliverable_event() {
    let mut k = Kernel::new();
    let mut regs = RegFile::new();
    k.add_driver(3);
    subscribe(&mut k, &mut regs, 3, 0, 0x700, 0x900);
    k.raise(Event { driver: 3, slot: 0, arg0: 1, arg1: 0, arg2: 0 });
    k.raise(Event { driver: 3, slot: 0, arg0: 2, arg1: 0, arg2: 0 });
    match yieldk(&mut k, &mut regs) {
        YieldOutcome::Delivered(d) => assert_eq!(d.arg0, 1),
        YieldOutcome::Blocked => panic!("two events were deliverable"),
    }
    // the younger event still waits
    assert_eq!(k.pending, vec![Event { driver: 3, slot: 0, arg0: 2, arg1: 0, arg2: 0 }]);
}

#[test]
fn periodic_timer_callback_counts_three_suspensions() {
    let counter_cell: usize = 0xC0DE;
    let mut counter: usize = 0;
    let mut k = Kernel::new();
    let mut regs = RegFile::new();
    k.add_driver(0);
    subscribe(&mut k, &mut regs, 0, 0, 0x7117, counter_cell);
    regs.r4 = 0x4444;
    for tick in 0..3usize {
        k.raise(timer_event(tick));
        match yieldk(&mut k, &mut regs) {
            YieldOutcome::Delivered(d) => {
                assert_eq!(d.callback, 0x7117);
                assert_eq!(d.data, counter_cell);
                // the process-side dispatch of the injected callback
                counter += 1;
            }
            YieldOutcome::Blocked => panic!("the timer event was pending"),
        }
    }
    assert!(counter >= 3);
    assert_eq!(counter, 3);
    // no other state was corrupted
    assert_eq!(regs.r4, 0x4444);
    assert_eq!(k.drivers, vec![0]);
    assert_eq!(k.subs, vec![SubEntry { driver: 0, slot: 0, callback: 0x7117, data: counter_cell }]);
    assert!(k.pending.is_empty());
}

#[test]
fn log_records_every_trap_in_order() {
    let mut k = Kernel::new();
    let mut regs = RegFile::new();
    k.add_driver(1);
    command(&mut k, &mut regs, 1, 2, 3, 4);
    subscribe(&mut k, &mut regs, 1, 0, 5, 6);
    yieldk(&mut k, &mut regs);
    assert_eq!(
        k.log,
        vec![
            TrapRecord::Command { driver: 1, operation: 2, arg1: 3, arg2: 4 },
            TrapRecord::Subscribe { driver: 1, slot: 0, callback: 5, data: 6 },
            TrapRecord::Yield { mode: YIELD_ID_WAIT },
        ]
    );
}

#[test]
fn start_runs_the_body_and_returns_zero() {
    let mut ran = false;
    let r = start(|| {
        ran = true;
    });
    assert!(ran);
    assert_eq!(r, 0);
}
