use libtcc::Context;
use libtcc::Error;
use libtcc::Guard;
use std::sync::atomic::AtomicBool;
use std::sync::atomic::Ordering;

#[test]
fn guard_multiple_creat() {
    let flag = AtomicBool::new(true);
    {
        let g1 = Guard::new(&flag);
        assert!(g1.is_ok());
        let g2 = Guard::new(&flag);
        assert!(g2.is_err());
    }
    let g3 = Guard::new(&flag);
    assert!(g3.is_ok());
}

#[test]
fn guard_second_attempt_is_a_conflict() {
    let flag = AtomicBool::new(true);
    let g1 = Guard::new(&flag);
    assert!(g1.is_ok());
    match Guard::new(&flag) {
        Ok(_) => panic!("two guards at once"),
        Err(e) => assert_eq!(e, Error::GuardConflict),
    }
    assert!(!flag.load(Ordering::SeqCst));
}

#[test]
fn guard_first_holder_keeps_working_after_a_refused_attempt() {
    let flag = AtomicBool::new(true);
    let mut g1 = Guard::new(&flag).unwrap();
    assert!(Guard::new(&flag).is_err());
    let ctx: Result<Context<fn(&[u8])>, Error> = Context::new(&mut g1, 0x1000);
    assert!(ctx.is_ok());
    drop(ctx);
    assert!(Guard::new(&flag).is_err());
    drop(g1);
    assert!(Guard::new(&flag).is_ok());
}

#[test]
fn guard_drop_sets_the_flag_again() {
    let flag = AtomicBool::new(true);
    let g = Guard::new(&flag).unwrap();
    assert!(!flag.load(Ordering::SeqCst));
    drop(g);
    assert!(flag.load(Ordering::SeqCst));
}

#[test]
fn guard_many_rounds_one_at_a_time() {
    let flag = AtomicBool::new(true);
    let mut granted: u32 = 0;
    let mut refused: u32 = 0;
    for _ in 0..10 {
        let held = Guard::new(&flag);
        assert!(held.is_ok());
        granted += 1;
        for _ in 0..3 {
            assert!(Guard::new(&flag).is_err());
            refused += 1;
        }
        drop(held);
    }
    assert_eq!(granted, 10);
    assert_eq!(refused, 30);
    assert!(flag.load(Ordering::SeqCst));
}

#[test]
fn guard_granted_follows_what_the_swap_found() {
    let flag = AtomicBool::new(false);
    assert!(Guard::granted(&flag, true).is_ok());
    let taken = AtomicBool::new(false);
    let refused = Guard::granted(&taken, false);
    match refused {
        Ok(_) => panic!("granted on a taken flag"),
        Err(e) => assert_eq!(e, Error::GuardConflict),
    }
}

#[test]
fn guard_taken_flag_refuses_from_the_start() {
    let flag = AtomicBool::new(false);
    assert!(Guard::new(&flag).is_err());
    assert!(!flag.load(Ordering::SeqCst));
}

#[test]
fn guards_of_two_flags_do_not_meet() {
    let one = AtomicBool::new(true);
    let two = AtomicBool::new(true);
    let g1 = Guard::new(&one);
    let g2 = Guard::new(&two);
    assert!(g1.is_ok());
    assert!(g2.is_ok());
}
