use graphics::error::DrawError;
use graphics::frame::{FrameAction, FrameEvent, FramePhase, FrameScheduler, StepOutcome};
use graphics::MAX_FRAMES_IN_FLIGHT;

/// Drives one fully successful frame, presenting the given image.
fn run_successful_frame(s: &mut FrameScheduler, image: u32) {
    let slot = s.current_slot();
    assert_eq!(s.next_action(), FrameAction::WaitFence { slot });
    assert_eq!(s.handle_event(FrameEvent::FenceSignaled), StepOutcome::InProgress);
    assert_eq!(s.next_action(), FrameAction::AcquireImage { slot });
    assert_eq!(
        s.handle_event(FrameEvent::ImageAcquired { image }),
        StepOutcome::InProgress
    );
    assert_eq!(s.next_action(), FrameAction::RecordAndSubmit { slot, image });
    assert_eq!(s.handle_event(FrameEvent::SubmitCompleted), StepOutcome::InProgress);
    assert_eq!(s.next_action(), FrameAction::PresentImage { slot, image });
    assert_eq!(s.handle_event(FrameEvent::PresentOk), StepOutcome::Completed);
}

#[test]
fn initial_state_waits_on_slot_zero() {
    let s = FrameScheduler::new();
    assert_eq!(s.frame_counter(), 0);
    assert_eq!(s.recreations(), 0);
    assert_eq!(s.phase(), FramePhase::Ready);
    assert_eq!(s.next_action(), FrameAction::WaitFence { slot: 0 });
}

#[test]
fn successful_frame_advances_counter() {
    let mut s = FrameScheduler::new();
    run_successful_frame(&mut s, 0);
    assert_eq!(s.frame_counter(), 1);
    assert_eq!(s.recreations(), 0);
    assert_eq!(s.phase(), FramePhase::Ready);
}

#[test]
fn slots_are_visited_round_robin_without_skips() {
    let mut s = FrameScheduler::new();
    let mut visited = Vec::new();
    for n in 0..(2 * MAX_FRAMES_IN_FLIGHT) {
        visited.push(s.current_slot());
        run_successful_frame(&mut s, (n % 2) as u32);
    }
    assert_eq!(visited, vec![0, 1, 2, 0, 1, 2]);
    assert_eq!(s.frame_counter(), 6);
}

#[test]
fn acquire_stale_recreates_once_without_advancing_counter() {
    let mut s = FrameScheduler::new();
    run_successful_frame(&mut s, 0);
    assert_eq!(s.handle_event(FrameEvent::FenceSignaled), StepOutcome::InProgress);
    assert_eq!(s.handle_event(FrameEvent::AcquireStale), StepOutcome::InProgress);
    assert_eq!(s.next_action(), FrameAction::RecreateSwapchain);
    assert_eq!(
        s.handle_event(FrameEvent::SwapchainRecreated),
        StepOutcome::Completed
    );
    assert_eq!(s.frame_counter(), 1);
    assert_eq!(s.recreations(), 1);
    // the aborted iteration is retried on the same slot
    assert_eq!(s.next_action(), FrameAction::WaitFence { slot: 1 });
}

#[test]
fn present_stale_recreates_once_and_advances_counter() {
    let mut s = FrameScheduler::new();
    assert_eq!(s.handle_event(FrameEvent::FenceSignaled), StepOutcome::InProgress);
    assert_eq!(
        s.handle_event(FrameEvent::ImageAcquired { image: 2 }),
        StepOutcome::InProgress
    );
    assert_eq!(s.handle_event(FrameEvent::SubmitCompleted), StepOutcome::InProgress);
    assert_eq!(s.handle_event(FrameEvent::PresentStale), StepOutcome::InProgress);
    assert_eq!(s.next_action(), FrameAction::RecreateSwapchain);
    assert_eq!(
        s.handle_event(FrameEvent::SwapchainRecreated),
        StepOutcome::Completed
    );
    assert_eq!(s.frame_counter(), 1);
    assert_eq!(s.recreations(), 1);
    assert_eq!(s.next_action(), FrameAction::WaitFence { slot: 1 });
}

#[test]
fn submit_failure_faults_frame_without_advancing_counter() {
    let mut s = FrameScheduler::new();
    assert_eq!(s.handle_event(FrameEvent::FenceSignaled), StepOutcome::InProgress);
    assert_eq!(
        s.handle_event(FrameEvent::ImageAcquired { image: 0 }),
        StepOutcome::InProgress
    );
    assert_eq!(
        s.handle_event(FrameEvent::SubmitFailed),
        StepOutcome::Faulted(DrawError::Submit)
    );
    assert_eq!(s.frame_counter(), 0);
    assert_eq!(s.next_action(), FrameAction::WaitFence { slot: 0 });
}

#[test]
fn present_failure_faults_frame_but_advances_counter() {
    let mut s = FrameScheduler::new();
    assert_eq!(s.handle_event(FrameEvent::FenceSignaled), StepOutcome::InProgress);
    assert_eq!(
        s.handle_event(FrameEvent::ImageAcquired { image: 0 }),
        StepOutcome::InProgress
    );
    assert_eq!(s.handle_event(FrameEvent::SubmitCompleted), StepOutcome::InProgress);
    assert_eq!(
        s.handle_event(FrameEvent::PresentFailed),
        StepOutcome::Faulted(DrawError::Present)
    );
    assert_eq!(s.frame_counter(), 1);
    assert_eq!(s.next_action(), FrameAction::WaitFence { slot: 1 });
}

#[test]
fn device_lost_halts_the_scheduler() {
    let mut s = FrameScheduler::new();
    assert_eq!(s.handle_event(FrameEvent::FenceSignaled), StepOutcome::InProgress);
    assert_eq!(
        s.handle_event(FrameEvent::DeviceLost),
        StepOutcome::Faulted(DrawError::DeviceLost)
    );
    assert_eq!(s.phase(), FramePhase::Lost);
    assert_eq!(s.next_action(), FrameAction::Halt);
    assert_eq!(s.frame_counter(), 0);
}
