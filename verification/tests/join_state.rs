use std::sync::{Arc, Mutex};

use nblock::error::JoinError;
use nblock::hook::OnTaskComplete;
use nblock::thread::{JoinHandleContext, JoinHandleState};

struct Collect(Arc<Mutex<Vec<String>>>);

impl OnTaskComplete<String> for Collect {
    fn takes(&self, _output: String) -> bool {
        true
    }

    fn on_task_complete(&mut self, output: String) {
        self.0.lock().unwrap().push(output);
    }
}

#[test]
fn try_take_is_empty_while_active() {
    let mut ctx: JoinHandleContext<String> = JoinHandleContext::new();
    assert_eq!(JoinHandleState::Active, ctx.state());
    assert_eq!(Ok(None), ctx.try_take());
    assert_eq!(JoinHandleState::Active, ctx.state());
}

#[test]
fn output_is_taken_exactly_once() {
    let mut ctx = JoinHandleContext::new();
    ctx.complete("success".to_owned());
    assert_eq!(JoinHandleState::Complete, ctx.state());
    assert_eq!(Ok(Some("success".to_owned())), ctx.try_take());
    assert_eq!(Err(JoinError::AlreadyTaken), ctx.try_take());
    assert_eq!(Err(JoinError::AlreadyTaken), ctx.join_result());
}

#[test]
fn join_result_returns_the_output() {
    let mut ctx = JoinHandleContext::new();
    ctx.complete("success".to_owned());
    assert_eq!(Ok("success".to_owned()), ctx.join_result());
    assert_eq!(Err(JoinError::AlreadyTaken), ctx.join_result());
}

#[test]
fn cancelled_task_never_yields() {
    let mut ctx: JoinHandleContext<u32> = JoinHandleContext::new();
    ctx.cancel();
    assert_eq!(JoinHandleState::Cancelled, ctx.state());
    ctx.complete(7);
    assert_eq!(JoinHandleState::Cancelled, ctx.state());
    assert_eq!(Err(JoinError::Cancelled), ctx.try_take());
    assert_eq!(Err(JoinError::Cancelled), ctx.join_result());
}

#[test]
fn first_settled_state_is_final() {
    let mut ctx: JoinHandleContext<u32> = JoinHandleContext::new();
    ctx.complete(1);
    ctx.cancel();
    ctx.orphan();
    assert_eq!(JoinHandleState::Complete, ctx.state());

    let mut orphaned: JoinHandleContext<u32> = JoinHandleContext::new();
    orphaned.orphan();
    orphaned.cancel();
    assert_eq!(JoinHandleState::Orphaned, orphaned.state());
    assert_eq!(Err(JoinError::Cancelled), orphaned.try_take());
}

#[test]
fn hook_set_before_completion_receives_output() {
    let seen = Arc::new(Mutex::new(Vec::new()));
    let mut ctx = JoinHandleContext::new();
    ctx.set_complete_hook(Collect(Arc::clone(&seen)));
    assert!(seen.lock().unwrap().is_empty());
    ctx.complete("success".to_owned());
    assert_eq!(vec!["success".to_owned()], *seen.lock().unwrap());
    assert_eq!(JoinHandleState::Complete, ctx.state());
    assert_eq!(Err(JoinError::AlreadyTaken), ctx.try_take());
}

#[test]
fn hook_set_after_completion_is_called_at_once() {
    let seen = Arc::new(Mutex::new(Vec::new()));
    let mut ctx = JoinHandleContext::new();
    ctx.complete("success".to_owned());
    ctx.set_complete_hook(Collect(Arc::clone(&seen)));
    assert_eq!(vec!["success".to_owned()], *seen.lock().unwrap());
    assert_eq!(None, ctx.take_output());
}

#[test]
fn join_error_messages() {
    assert_eq!("AlreadyTaken", JoinError::AlreadyTaken.message());
    assert_eq!("Cancelled", JoinError::Cancelled.message());
}
