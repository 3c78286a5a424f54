//! The sender of a migration.
use vmm_core::migration::error::Failure;
use vmm_core::migration::error::MigratableError;
use vmm_core::migration::error::Reason;
use vmm_core::migration::memory::MemoryRange;
use vmm_core::migration::precopy::MigrationStateInternal;
use vmm_core::migration::precopy::check_limits;
use vmm_core::migration::precopy::downtime_reached;
use vmm_core::migration::precopy::timed_out;
use vmm_core::migration::progress::MigrationStateOngoingPhase;
use vmm_core::migration::send::MigrationSender;
use vmm_core::migration::send::SendEvent;
use vmm_core::migration::send::SendParams;
use vmm_core::migration::send::SendPhase;
use vmm_core::vmm::state::PostMigrationLifecycleEvent;

type Event = SendEvent<&'static str>;

fn remote() -> SendParams {
    SendParams {
        local: false,
        unix: false,
        downtime: 300,
        migration_timeout: 3600,
        checks_cpuid: true,
        tdx: false,
        kvm: true,
    }
}

fn local() -> SendParams {
    SendParams {
        local: true,
        unix: true,
        ..remote()
    }
}

fn range(gpa: u64, length: u64) -> MemoryRange {
    MemoryRange { gpa, length }
}

/// Makes a step, and checks in which phase the sender was and is.
fn go(sender: &mut MigrationSender, from: SendPhase, event: Event, to: SendPhase) {
    assert_eq!(sender.phase(), from);
    assert!(sender.is_acceptable(&event));
    assert!(sender.step(event, false).is_none());
    assert_eq!(sender.phase(), to);
}

/// A sender that has agreed with its receiver on the configuration.
fn configured(params: SendParams) -> MigrationSender {
    let mut s = MigrationSender::new(params);
    go(&mut s, SendPhase::Connect, Event::Done, SendPhase::SendStart);
    go(&mut s, SendPhase::SendStart, Event::Done, SendPhase::ReadStartResponse);
    go(&mut s, SendPhase::ReadStartResponse, Event::Response(true), SendPhase::GenerateCpuid);
    if params.local {
        go(&mut s, SendPhase::GenerateCpuid, Event::Done, SendPhase::SendMemoryFds);
        go(&mut s, SendPhase::SendMemoryFds, Event::Done, SendPhase::SendConfigRequest);
    } else {
        go(&mut s, SendPhase::GenerateCpuid, Event::Done, SendPhase::SendConfigRequest);
    }
    go(&mut s, SendPhase::SendConfigRequest, Event::Done, SendPhase::SendConfigData);
    go(&mut s, SendPhase::SendConfigData, Event::Done, SendPhase::ReadConfigResponse);
    go(&mut s, SendPhase::ReadConfigResponse, Event::Response(true), SendPhase::StartMigration);
    s
}

/// A sender that is about to send the memory of a running VM.
fn measuring(params: SendParams) -> MigrationSender {
    let mut s = configured(params);
    go(&mut s, SendPhase::StartMigration, Event::Done, SendPhase::OpenConnections);
    go(&mut s, SendPhase::OpenConnections, Event::Done, SendPhase::StartDirtyLog);
    go(&mut s, SendPhase::StartDirtyLog, Event::Done, SendPhase::MeasureMemory);
    s
}

fn running(params: SendParams) -> MigrationSender {
    let mut s = measuring(params);
    let all = vec![range(0, 1 << 20), range(1 << 32, 4096)];
    go(&mut s, SendPhase::MeasureMemory, Event::Ranges(all), SendPhase::ReadClock);
    s
}

/// Sends everything from the disk locks on.
fn complete(s: &mut MigrationSender, dirty_log: bool) -> Option<Result<(), MigratableError<&'static str>>> {
    go(s, SendPhase::ReleaseDiskLocks, Event::Done, SendPhase::MarkShutdown);
    go(s, SendPhase::MarkShutdown, Event::Done, SendPhase::ReadWish);
    go(s, SendPhase::ReadWish, Event::Wish(None), SendPhase::TakeSnapshot);
    go(s, SendPhase::TakeSnapshot, Event::Done, SendPhase::SendStateRequest);
    go(s, SendPhase::SendStateRequest, Event::Done, SendPhase::SendStateData);
    go(s, SendPhase::SendStateData, Event::Done, SendPhase::ReadStateResponse);
    go(s, SendPhase::ReadStateResponse, Event::Response(true), SendPhase::SendCompleteRequest);
    go(s, SendPhase::SendCompleteRequest, Event::Done, SendPhase::ReadCompleteResponse);
    if dirty_log {
        go(s, SendPhase::ReadCompleteResponse, Event::Response(true), SendPhase::StopDirtyLogAgain);
        go(s, SendPhase::StopDirtyLogAgain, Event::Done, SendPhase::CompleteMigration);
    } else {
        go(s, SendPhase::ReadCompleteResponse, Event::Response(true), SendPhase::CompleteMigration);
    }
    s.step(Event::Done, true)
}

#[test]
fn metrics_count_what_was_sent() {
    let mut s = running(remote());
    // Two tables while the VM runs, and a last one on top of a third.
    for (n, bytes) in [(0, 8192), (1, 5000)] {
        go(&mut s, SendPhase::ReadClock, Event::Clock(1, 0), SendPhase::CollectRanges);
        let table = vec![range(0, bytes)];
        if n == 0 {
            go(&mut s, SendPhase::CollectRanges, Event::Ranges(table), SendPhase::SendRanges);
        } else {
            go(&mut s, SendPhase::CollectRanges, Event::Ranges(table), SendPhase::EstimateDowntime);
            let slow = Event::Estimate(1, u128::MAX);
            go(&mut s, SendPhase::EstimateDowntime, slow, SendPhase::SendRanges);
        }
        go(&mut s, SendPhase::SendRanges, Event::Sent(false, 7), SendPhase::ReadClock);
    }
    assert_eq!(s.state().iteration, 2);
    assert_eq!(s.state().total_transferred_bytes, 8192 + 5000);
    assert_eq!(s.state().total_transferred_pages, 2 + 2);

    assert!(s.step(Event::Clock(1, 99), false).is_none());
    let table = vec![range(0, 100)];
    go(&mut s, SendPhase::CollectRanges, Event::Ranges(table), SendPhase::EstimateDowntime);
    go(&mut s, SendPhase::EstimateDowntime, Event::Estimate(1, 0), SendPhase::StopThrottling);
    go(&mut s, SendPhase::StopThrottling, Event::Done, SendPhase::PauseVm);
    go(&mut s, SendPhase::PauseVm, Event::Done, SendPhase::CollectLastRanges);
    let table = vec![range(4096, 4096)];
    go(&mut s, SendPhase::CollectLastRanges, Event::Ranges(table), SendPhase::SendLastRanges);
    go(&mut s, SendPhase::SendLastRanges, Event::Sent(false, 7), SendPhase::StopDirtyLog);
    assert_eq!(s.state().iteration, 2);
    assert_eq!(s.state().total_transferred_bytes, 8192 + 5000 + 4196);
    assert_eq!(s.state().total_transferred_pages, 2 + 2 + 2);
}

#[test]
fn a_local_migration_sends_descriptors() {
    let mut s = configured(local());
    go(&mut s, SendPhase::StartMigration, Event::Done, SendPhase::PauseLocalVm);
    go(&mut s, SendPhase::PauseLocalVm, Event::Done, SendPhase::ReleaseDiskLocks);
    assert!(matches!(complete(&mut s, false), Some(Ok(()))));
    assert_eq!(s.phase(), SendPhase::Ended);
    assert!(!s.is_acceptable(&Event::Done));
}

#[test]
fn a_remote_migration_sends_memory_until_it_converges() {
    let mut s = running(remote());
    assert!(s.is_first_iteration());
    assert_eq!(s.state().memory_bytes_total, (1 << 20) + 4096);
    go(&mut s, SendPhase::ReadClock, Event::Clock(1, 0), SendPhase::CollectRanges);
    let all = vec![range(0, 1 << 20), range(1 << 32, 4096)];
    // In the first iteration there is nothing to estimate.
    go(&mut s, SendPhase::CollectRanges, Event::Ranges(all.clone()), SendPhase::SendRanges);
    assert_eq!(s.ranges(), all.as_slice());
    assert_eq!(s.state().bytes_to_transmit, (1 << 20) + 4096);
    assert_eq!(s.state().pages_to_transmit, 257);
    go(&mut s, SendPhase::SendRanges, Event::Sent(false, 1000), SendPhase::ReadClock);
    assert_eq!(s.state().iteration, 1);
    assert_eq!(s.state().total_transferred_bytes, (1 << 20) + 4096);
    assert_eq!(s.state().total_transferred_pages, 257);
    assert_eq!(s.state().bytes_per_sec, 1000);

    // What has changed takes too long.
    go(&mut s, SendPhase::ReadClock, Event::Clock(2, 0), SendPhase::CollectRanges);
    go(&mut s, SendPhase::CollectRanges, Event::Ranges(vec![range(0, 5000)]), SendPhase::EstimateDowntime);
    go(&mut s, SendPhase::EstimateDowntime, Event::Estimate(7, 300_000_001), SendPhase::SendRanges);
    assert_eq!(s.state().dirty_rate_pps, 7);
    assert_eq!(s.state().calculated_downtime_ns, Some(300_000_001));
    go(&mut s, SendPhase::SendRanges, Event::Sent(false, 2000), SendPhase::ReadClock);

    // From the third iteration on the VM is slowed down.
    go(&mut s, SendPhase::ReadClock, Event::Clock(3, 0), SendPhase::SetThrottle);
    assert_eq!(s.state().throttle_percent, 10);
    go(&mut s, SendPhase::SetThrottle, Event::Done, SendPhase::CollectRanges);
    let changed = vec![range(4096, 4096)];
    go(&mut s, SendPhase::CollectRanges, Event::Ranges(changed.clone()), SendPhase::EstimateDowntime);
    go(&mut s, SendPhase::EstimateDowntime, Event::Estimate(1, 300_000_000), SendPhase::StopThrottling);

    // What was collected and not sent comes behind the last changes.
    go(&mut s, SendPhase::StopThrottling, Event::Done, SendPhase::PauseVm);
    go(&mut s, SendPhase::PauseVm, Event::Done, SendPhase::CollectLastRanges);
    go(&mut s, SendPhase::CollectLastRanges, Event::Ranges(vec![range(0, 1)]), SendPhase::SendLastRanges);
    assert_eq!(s.ranges(), &[range(0, 1), range(4096, 4096)][..]);
    go(&mut s, SendPhase::SendLastRanges, Event::Sent(false, 5), SendPhase::StopDirtyLog);
    assert_eq!(s.state().bytes_to_transmit, 4097);
    assert_eq!(s.state().pages_to_transmit, 2);
    assert_eq!(
        s.state().total_transferred_bytes,
        (1 << 20) + 4096 + 5000 + 4097
    );
    assert_eq!(s.state().bytes_per_sec, 2000);
    go(&mut s, SendPhase::StopDirtyLog, Event::Done, SendPhase::ReleaseDiskLocks);
    assert!(matches!(complete(&mut s, true), Some(Ok(()))));
}

#[test]
fn a_wish_of_the_guest_ends_the_iterations() {
    let mut s = running(remote());
    go(&mut s, SendPhase::ReadClock, Event::Clock(1, 0), SendPhase::CollectRanges);
    go(&mut s, SendPhase::CollectRanges, Event::Ranges(vec![range(0, 4096)]), SendPhase::SendRanges);
    go(&mut s, SendPhase::SendRanges, Event::Sent(true, 1), SendPhase::StopThrottling);
    assert!(s.ranges().is_empty());
    assert_eq!(s.state().iteration, 1);
}

#[test]
fn progress_is_reported() {
    let mut s = MigrationSender::new(local());
    assert_eq!(s.progress(), None);
    s = configured(local());
    assert_eq!(s.progress(), None);
    go(&mut s, SendPhase::StartMigration, Event::Done, SendPhase::PauseLocalVm);
    go(&mut s, SendPhase::PauseLocalVm, Event::Done, SendPhase::ReleaseDiskLocks);
    let report = s.progress().unwrap();
    assert_eq!(report.phase, MigrationStateOngoingPhase::Completing);
    assert_eq!(report.memory, None);

    let mut s = running(remote());
    go(&mut s, SendPhase::ReadClock, Event::Clock(1, 20), SendPhase::CollectRanges);
    go(&mut s, SendPhase::CollectRanges, Event::Ranges(vec![range(0, 8191)]), SendPhase::SendRanges);
    let report = s.progress().unwrap();
    assert_eq!(report.phase, MigrationStateOngoingPhase::MemoryPrecopy);
    assert_eq!(report.throttle_percent, Some(20));
    assert_eq!(report.calculated_downtime_ns, None);
    let memory = report.memory.unwrap();
    assert_eq!(memory.memory_iteration, 0);
    assert_eq!(memory.memory_bytes_total, (1 << 20) + 4096);
    assert_eq!(memory.memory_bytes_transmitted, 0);
    assert_eq!(memory.memory_bytes_remaining_iteration, 8191);
    assert_eq!(memory.memory_pages_4k_remaining_iteration, 2);
    assert_eq!(memory.memory_pages_constant_count, 0);
    go(&mut s, SendPhase::SendRanges, Event::Sent(false, 77), SendPhase::ReadClock);
    go(&mut s, SendPhase::ReadClock, Event::Clock(1, 20), SendPhase::CollectRanges);
    go(&mut s, SendPhase::CollectRanges, Event::Ranges(vec![]), SendPhase::EstimateDowntime);
    let memory = s.progress().unwrap().memory.unwrap();
    assert_eq!(memory.memory_iteration, 1);
    assert_eq!(memory.memory_transmission_bps, 77);
    assert_eq!(memory.memory_bytes_transmitted, 8191);
    assert_eq!(memory.memory_pages_4k_transmitted, 2);
}

#[test]
fn a_cancelled_migration_is_abandoned() {
    for (mut s, event) in [
        (
            {
                let mut s = MigrationSender::new(remote());
                go(&mut s, SendPhase::Connect, Event::Done, SendPhase::SendStart);
                go(&mut s, SendPhase::SendStart, Event::Done, SendPhase::ReadStartResponse);
                s
            },
            Event::Response(true),
        ),
        (
            {
                let mut s = configured(local());
                go(&mut s, SendPhase::StartMigration, Event::Done, SendPhase::PauseLocalVm);
                s
            },
            Event::Done,
        ),
        (measuring(remote()), Event::Ranges(vec![])),
        (
            {
                let mut s = running(remote());
                go(&mut s, SendPhase::ReadClock, Event::Clock(1, 0), SendPhase::CollectRanges);
                go(&mut s, SendPhase::CollectRanges, Event::Ranges(vec![]), SendPhase::SendRanges);
                s
            },
            Event::Sent(false, 0),
        ),
    ] {
        assert!(s.step(event, true).is_none());
        assert_eq!(s.phase(), SendPhase::SendAbandon);
        assert!(matches!(
            s.step(Event::Done, true),
            Some(Err(MigratableError::Cancelled))
        ));
    }
}

#[test]
fn it_is_too_late_to_cancel_once_disks_are_unlocked() {
    let mut s = configured(local());
    go(&mut s, SendPhase::StartMigration, Event::Done, SendPhase::PauseLocalVm);
    go(&mut s, SendPhase::PauseLocalVm, Event::Done, SendPhase::ReleaseDiskLocks);
    assert!(s.step(Event::Done, true).is_none());
    assert_eq!(s.phase(), SendPhase::MarkShutdown);
    assert!(s.step(Event::Done, true).is_none());
    assert_eq!(s.phase(), SendPhase::ReadWish);
    assert!(s.step(Event::Wish(None), true).is_none());
    assert_eq!(s.phase(), SendPhase::TakeSnapshot);
}

#[test]
fn the_snapshot_carries_what_the_guest_wishes() {
    for wish in [
        None,
        Some(PostMigrationLifecycleEvent::VmReboot),
        Some(PostMigrationLifecycleEvent::VmShutdown),
    ] {
        let mut s = configured(local());
        assert_eq!(s.snapshot_event(), None);
        for _ in 0..4 {
            assert!(s.step(Event::Done, false).is_none());
        }
        assert_eq!(s.phase(), SendPhase::ReadWish);
        assert!(!s.is_acceptable(&Event::Done));
        go(&mut s, SendPhase::ReadWish, Event::Wish(wish), SendPhase::TakeSnapshot);
        assert_eq!(s.snapshot_event(), wish);
        go(&mut s, SendPhase::TakeSnapshot, Event::Done, SendPhase::SendStateRequest);
        assert_eq!(s.snapshot_event(), wish);
    }
}

fn ended(s: &mut MigrationSender, event: Event) -> MigratableError<&'static str> {
    match s.step(event, false) {
        Some(Err(e)) => {
            assert_eq!(s.phase(), SendPhase::Ended);
            e
        }
        _ => panic!("the migration should fail"),
    }
}

fn reason(e: MigratableError<&'static str>) -> Reason {
    match e {
        MigratableError::MigrateSend(Failure::Reason(reason)) => reason,
        _ => panic!("the sender should have failed for a reason"),
    }
}

#[test]
fn a_bad_response_ends_the_migration() {
    let mut s = MigrationSender::new(remote());
    go(&mut s, SendPhase::Connect, Event::Done, SendPhase::SendStart);
    go(&mut s, SendPhase::SendStart, Event::Done, SendPhase::ReadStartResponse);
    assert_eq!(reason(ended(&mut s, Event::Response(false))), Reason::BadStartResponse);

    let mut s = MigrationSender::new(remote());
    go(&mut s, SendPhase::Connect, Event::Done, SendPhase::SendStart);
    go(&mut s, SendPhase::SendStart, Event::Done, SendPhase::ReadStartResponse);
    go(&mut s, SendPhase::ReadStartResponse, Event::Response(true), SendPhase::GenerateCpuid);
    go(&mut s, SendPhase::GenerateCpuid, Event::Done, SendPhase::SendConfigRequest);
    go(&mut s, SendPhase::SendConfigRequest, Event::Done, SendPhase::SendConfigData);
    go(&mut s, SendPhase::SendConfigData, Event::Done, SendPhase::ReadConfigResponse);
    assert_eq!(reason(ended(&mut s, Event::Response(false))), Reason::BadConfigResponse);

    for (fail_state, expected) in [
        (true, Reason::BadStateResponse),
        (false, Reason::BadCompleteResponse),
    ] {
        let mut s = configured(local());
        for _ in 0..4 {
            assert!(s.step(Event::Done, false).is_none());
        }
        assert!(s.step(Event::Wish(None), false).is_none());
        for _ in 0..3 {
            assert!(s.step(Event::Done, false).is_none());
        }
        assert_eq!(s.phase(), SendPhase::ReadStateResponse);
        if !fail_state {
            assert!(s.step(Event::Response(true), false).is_none());
            assert!(s.step(Event::Done, false).is_none());
        }
        assert_eq!(reason(ended(&mut s, Event::Response(false))), expected);
    }
}

#[test]
fn what_fails_outside_ends_the_migration() {
    let mut s = MigrationSender::new(remote());
    assert!(matches!(
        ended(&mut s, Event::Failed("e")),
        MigratableError::MigrateSend(Failure::Outside("e"))
    ));
    let mut s = configured(remote());
    go(&mut s, SendPhase::StartMigration, Event::Done, SendPhase::OpenConnections);
    assert!(matches!(
        ended(&mut s, Event::Failed("e")),
        MigratableError::MigrateSend(Failure::Outside("e"))
    ));
    let mut s = MigrationSender::new(remote());
    assert!(matches!(
        ended(&mut s, Event::Aborted(MigratableError::Cancelled)),
        MigratableError::Cancelled
    ));
    let mut s = MigrationSender::new(remote());
    go(&mut s, SendPhase::Connect, Event::Done, SendPhase::SendStart);
    go(&mut s, SendPhase::SendStart, Event::Done, SendPhase::ReadStartResponse);
    go(&mut s, SendPhase::ReadStartResponse, Event::Response(true), SendPhase::GenerateCpuid);
    assert!(matches!(
        ended(&mut s, Event::Failed("e")),
        MigratableError::MigrateSend(Failure::Outside("e"))
    ));
    let mut s = configured(local());
    go(&mut s, SendPhase::StartMigration, Event::Done, SendPhase::PauseLocalVm);
    go(&mut s, SendPhase::PauseLocalVm, Event::Done, SendPhase::ReleaseDiskLocks);
    assert!(matches!(
        ended(&mut s, Event::Failed("e")),
        MigratableError::UnlockError("e")
    ));
    let mut s = configured(local());
    for _ in 0..4 {
        assert!(s.step(Event::Done, false).is_none());
    }
    assert!(s.step(Event::Wish(None), false).is_none());
    for _ in 0..2 {
        assert!(s.step(Event::Done, false).is_none());
    }
    assert_eq!(s.phase(), SendPhase::SendStateData);
    assert!(matches!(
        ended(&mut s, Event::Failed("e")),
        MigratableError::MigrateSocket("e")
    ));
}

#[test]
fn some_migrations_are_not_supported() {
    let mut s = MigrationSender::new(SendParams {
        tdx: true,
        ..remote()
    });
    go(&mut s, SendPhase::Connect, Event::Done, SendPhase::SendStart);
    go(&mut s, SendPhase::SendStart, Event::Done, SendPhase::ReadStartResponse);
    assert_eq!(reason(ended(&mut s, Event::Response(true))), Reason::TdxEnabled);

    let mut s = MigrationSender::new(SendParams {
        unix: false,
        checks_cpuid: false,
        ..local()
    });
    go(&mut s, SendPhase::Connect, Event::Done, SendPhase::SendStart);
    go(&mut s, SendPhase::SendStart, Event::Done, SendPhase::ReadStartResponse);
    assert_eq!(
        reason(ended(&mut s, Event::Response(true))),
        Reason::LocalNeedsUnixSocket
    );

    let mut s = configured(SendParams {
        downtime: 0,
        ..remote()
    });
    go(&mut s, SendPhase::StartMigration, Event::Done, SendPhase::OpenConnections);
    assert_eq!(reason(ended(&mut s, Event::Done)), Reason::DowntimeOutOfRange);
}

#[test]
fn a_timeout_is_told_to_the_receiver() {
    let mut s = running(remote());
    go(
        &mut s,
        SendPhase::ReadClock,
        Event::Clock(3_600_000_000_001, 0),
        SendPhase::SendTimeoutAbandon,
    );
    go(&mut s, SendPhase::SendTimeoutAbandon, Event::Done, SendPhase::ReadTimeoutResponse);
    assert_eq!(reason(ended(&mut s, Event::Response(false))), Reason::TimedOut);
}

#[test]
fn events_must_suit_the_phase() {
    let s = MigrationSender::new(remote());
    assert!(!s.is_acceptable(&Event::Response(true)));
    assert!(!s.is_acceptable(&Event::Clock(0, 0)));
    assert!(!s.is_acceptable(&Event::Ranges(vec![])));
    assert!(!s.is_acceptable(&Event::Estimate(0, 0)));
    assert!(!s.is_acceptable(&Event::Sent(false, 0)));
    assert!(!s.is_acceptable(&Event::Wish(None)));
    assert!(s.is_acceptable(&Event::Failed("e")));
    let s = measuring(remote());
    assert!(s.is_acceptable(&Event::Ranges(vec![range(0, u64::MAX)])));
    assert!(!s.is_acceptable(&Event::Ranges(vec![range(0, u64::MAX), range(0, 1)])));
}

#[test]
fn limits_must_make_sense() {
    assert_eq!(check_limits(0, 0), Some(Reason::DowntimeOutOfRange));
    assert_eq!(check_limits(1, 0), None);
    assert_eq!(check_limits(2_000_000, 0), None);
    assert_eq!(check_limits(2_000_001, 0), Some(Reason::DowntimeOutOfRange));
    assert_eq!(check_limits(1000, 1), Some(Reason::DowntimeNotBelowTimeout));
    assert_eq!(check_limits(999, 1), None);
    assert_eq!(check_limits(300, u64::MAX), None);
}

#[test]
fn a_timeout_of_zero_is_none() {
    assert!(!timed_out(u128::MAX, 0));
    assert!(!timed_out(1_000_000_000, 1));
    assert!(timed_out(1_000_000_001, 1));
    assert!(!timed_out(1, u64::MAX));
    assert!(downtime_reached(300_000_000, 300));
    assert!(!downtime_reached(300_000_001, 300));
}

#[test]
fn throttling_grows_every_second_iteration() {
    let mut state = MigrationStateInternal::new();
    let mut throttle = 0;
    let mut seen = vec![];
    for iteration in 0..24 {
        state.iteration = iteration;
        throttle = state.next_throttle(throttle);
        seen.push(throttle);
    }
    assert_eq!(
        seen,
        vec![
            0, 0, 10, 10, 20, 20, 30, 30, 40, 40, 50, 50, 60, 60, 70, 70, 80, 80, 90, 90, 99, 99,
            99, 99
        ]
    );
    state.iteration = 2;
    assert_eq!(state.next_throttle(120), 120);
    assert!(state.can_increase_autoconverge_step());
    state.iteration = 3;
    assert!(!state.can_increase_autoconverge_step());
}

#[test]
fn totals_must_not_run_over() {
    let mut state = MigrationStateInternal::new();
    state.plan(u64::MAX);
    assert!(state.can_transmit());
    state.note_transmitted();
    assert!(!state.can_transmit());
    state.plan(0);
    assert!(state.can_transmit());
    state.iteration = u64::MAX;
    assert!(!state.can_transmit());
}
