use policy_tracker::config::Duration;
use policy_tracker::scheduler::{Scheduler, SchedulerAction, SchedulerEvent};

#[test]
fn passes_run_at_start_and_after_each_wait() {
    let scheduler = Scheduler::new(Duration::from_secs(3600));
    assert_eq!(scheduler.cadence().as_secs(), 3600);
    assert_eq!(scheduler.next_action(SchedulerEvent::Started), SchedulerAction::RunPass);
    assert_eq!(
        scheduler.next_action(SchedulerEvent::PassEnded { succeeded: true }),
        SchedulerAction::Wait(Duration::from_secs(3600))
    );
    assert_eq!(scheduler.next_action(SchedulerEvent::WaitElapsed), SchedulerAction::RunPass);
}

#[test]
fn a_failed_pass_or_a_shutdown_stops_the_worker() {
    let scheduler = Scheduler::new(Duration::from_secs(60));
    assert_eq!(
        scheduler.next_action(SchedulerEvent::PassEnded { succeeded: false }),
        SchedulerAction::Stop { clean: false }
    );
    assert_eq!(
        scheduler.next_action(SchedulerEvent::ShutdownRequested { received: true }),
        SchedulerAction::Stop { clean: true }
    );
    assert_eq!(
        scheduler.next_action(SchedulerEvent::ShutdownRequested { received: false }),
        SchedulerAction::Stop { clean: false }
    );
}
