#![allow(dead_code, unused_imports)]
use rust_coreaudio::exchange::{Fault, Reply, Request, Step};
use rust_coreaudio::utils::string_helper::Error;

#[test]
fn a_step_is_settled_unless_it_asks() {
    let ask: Step<u32, Error> = Step::Ask(Request::StringLength { string: 1 });
    let done: Step<u32, Error> = Step::Done(7, 2);
    let failed: Step<u32, Error> = Step::Failed(Error::LengthIsZero, 2);
    let fault: Step<u32, Error> = Step::Fault(Fault::UnexpectedReply);
    assert!(!ask.is_settled());
    assert!(done.is_settled());
    assert!(failed.is_settled());
    assert!(fault.is_settled());
}

#[test]
fn a_shift_counts_the_replies_that_came_before() {
    let ask: Step<u32, Error> = Step::Ask(Request::StringLength { string: 1 });
    let done: Step<u32, Error> = Step::Done(7, 2);
    let failed: Step<u32, Error> = Step::Failed(Error::LengthIsZero, 2);
    let fault: Step<u32, Error> = Step::Fault(Fault::NullString);
    assert_eq!(ask.clone().shift(3), ask);
    assert_eq!(done.shift(3), Step::Done(7, 5));
    assert_eq!(failed.shift(0), Step::Failed(Error::LengthIsZero, 2));
    assert_eq!(fault.clone().shift(usize::MAX), fault);
    assert_eq!(Reply::Status(0), Reply::Status(0));
}
