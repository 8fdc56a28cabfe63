use mcp_utc_time_server::error::{ClockError, ProbeError, ShmError};
use mcp_utc_time_server::ntp::sync::{
    has_pps, has_selected_peer, NtpShmInterface, NtpShmTime, ProbeCommand, ProbeEnvironment,
    ProbeOutcome, StatusStep, StatusVariables, SyncStep, WaitStep, NTP_SHM_SIZE,
};
use mcp_utc_time_server::ntp::{NtpStatusReport, NtpSyncedClock};

#[test]
fn test_get_time() {
    let result = NtpSyncedClock::now();
    assert!(result.is_ok());

    let (secs, nanos) = result.unwrap();
    assert!(secs > 0);
    assert!(nanos < 1_000_000_000);
}

fn outside() -> ProbeEnvironment {
    ProbeEnvironment {
        container_marker: false,
        orchestrator_host: false,
        container_app: false,
        skip_requested: false,
    }
}

fn record(valid: i32, sec: i64, nsec: u32) -> NtpShmTime {
    let mut r = NtpShmTime::initial();
    r.valid = valid;
    r.count = 9;
    r.clock_time_sec = sec;
    r.clock_time_stamp_nsec = nsec;
    r
}

fn clock_with(valid: i32) -> NtpSyncedClock {
    NtpSyncedClock::new(NtpShmInterface::new(0, 1, Some(record(valid, 1_700_000_000, 42))))
}

#[test]
fn a_reading_of_the_realtime_clock() {
    assert_eq!(NtpSyncedClock::reading(0, 5, 6), Ok((5, 6)));
    assert_eq!(NtpSyncedClock::reading(0, -5, 999_999_999), Ok((-5, 999_999_999)));
    assert_eq!(NtpSyncedClock::reading(-1, 5, 6), Err(ClockError::ClockUnavailable));
    assert_eq!(NtpSyncedClock::reading(0, 5, -1), Err(ClockError::ClockUnavailable));
    assert_eq!(
        NtpSyncedClock::reading(0, 5, 1_000_000_000),
        Err(ClockError::ClockUnavailable)
    );
}

#[test]
fn a_running_clock_as_seconds_and_nanoseconds() {
    assert_eq!(NtpSyncedClock::elapsed(Some((7, 8))), Ok((7, 8)));
    assert_eq!(NtpSyncedClock::elapsed(None), Err(ClockError::BeforeEpoch));
    assert_eq!(
        NtpSyncedClock::elapsed(Some((u64::MAX, 0))),
        Err(ClockError::ClockUnavailable)
    );
    assert_eq!(
        NtpSyncedClock::elapsed(Some((i64::MAX as u64, 1))),
        Ok((i64::MAX, 1))
    );
}

#[test]
fn the_segment_of_a_unit() {
    assert_eq!(NTP_SHM_SIZE, 96);
    for unit in 0u8..=3 {
        let request = NtpShmInterface::request(unit).unwrap();
        assert_eq!(request.key, 0x4e545030 + unit as i32);
        assert_eq!(request.size, 96);
    }
    assert_eq!(NtpShmInterface::request(0).unwrap().key, 0x4e545030);
    assert_eq!(NtpShmInterface::request(4).unwrap_err(), ShmError::InvalidUnit);
    assert_eq!(NtpShmInterface::request(255).unwrap_err(), ShmError::InvalidUnit);
}

#[test]
fn attaching_a_segment() {
    let fresh = NtpShmTime { mode: 0, ..NtpShmTime::initial() };
    assert!(fresh.needs_init());
    let channel = NtpShmInterface::new(2, 17, Some(fresh)).unwrap();
    assert_eq!(channel.unit(), 2);
    assert_eq!(channel.shm_id(), 17);
    let segment = channel.segment();
    assert_eq!(segment.mode, 1);
    assert_eq!(segment.precision, -20);
    assert_eq!(segment.valid, 0);
    assert_eq!(segment.count, 0);
    assert_eq!(segment.dummy, [0; 8]);
    assert!(!segment.needs_init());
    assert!(!channel.is_valid());
    assert_eq!(channel.read_time(), None);

    let written = record(1, 100, 200);
    let channel = NtpShmInterface::new(3, 0, Some(written)).unwrap();
    assert_eq!(channel.segment().count, 9);
    assert_eq!(channel.read_time(), Some((100, 200, true)));

    assert_eq!(
        NtpShmInterface::new(4, 17, Some(fresh)).unwrap_err(),
        ShmError::InvalidUnit
    );
    assert_eq!(NtpShmInterface::new(4, -1, None).unwrap_err(), ShmError::InvalidUnit);
    assert_eq!(
        NtpShmInterface::new(0, -1, Some(fresh)).unwrap_err(),
        ShmError::SegmentCreateFailed
    );
    assert_eq!(
        NtpShmInterface::new(0, 5, None).unwrap_err(),
        ShmError::SegmentAttachFailed
    );
}

#[test]
fn reading_the_segment() {
    assert_eq!(record(0, 5, 6).read_time(), None);
    assert_eq!(record(1, 5, 6).read_time(), Some((5, 6, true)));
    assert_eq!(record(2, 5, 6).read_time(), Some((5, 6, false)));
    assert_eq!(record(-1, 5, 6).read_time(), Some((5, 6, false)));
    assert!(record(1, 5, 6).is_valid());
    assert!(!record(2, 5, 6).is_valid());

    let mut channel = NtpShmInterface::new(0, 1, Some(record(0, 5, 6))).unwrap();
    assert_eq!(channel.read_time(), None);
    channel.observe(record(1, 7, 8));
    assert_eq!(channel.read_time(), Some((7, 8, true)));
    assert!(channel.is_valid());
    assert_eq!(channel.unit(), 0);
    assert_eq!(channel.shm_id(), 1);
}

#[test]
fn the_clock_prefers_the_published_time() {
    assert_eq!(clock_with(1).now_synced(), Ok((1_700_000_000, 42)));
    assert_eq!(clock_with(1).published_stamp(), Some((1_700_000_000, 42)));

    // a record whose flag is not exactly 1 is no source of time
    for flag in [0, 2, -1, i32::MAX] {
        let clock = clock_with(flag);
        assert_eq!(clock.published_stamp(), None);
        assert_eq!(clock.now_synced_with(Ok((7, 8))), Ok((7, 8)));
        assert_eq!(
            clock.now_synced_with(Err(ClockError::ClockUnavailable)),
            Err(ClockError::ClockUnavailable)
        );
        let (secs, _) = clock.now_synced().unwrap();
        assert!(secs > 1_700_000_042);
    }
    assert_eq!(clock_with(1).now_synced_with(Ok((7, 8))), Ok((1_700_000_000, 42)));
    assert_eq!(
        clock_with(1).now_synced_with(Err(ClockError::BeforeEpoch)),
        Ok((1_700_000_000, 42))
    );
    let early = NtpSyncedClock::new(NtpShmInterface::new(0, 1, Some(record(2, -5, 0))));
    assert_eq!(early.now_synced_with(Ok((9, 9))), Ok((9, 9)));
    let without = NtpSyncedClock::new(Err(ShmError::InvalidUnit));
    assert_eq!(without.now_synced_with(Ok((3, 4))), Ok((3, 4)));

    let (secs, nanos) = clock_with(0).now_synced().unwrap();
    assert!(secs > 1_700_000_000);
    assert!(nanos < 1_000_000_000);

    let without = NtpSyncedClock::new(Err(ShmError::SegmentAttachFailed));
    assert!(without.shm.is_none());
    let (secs, _) = without.now_synced().unwrap();
    assert!(secs > 1_700_000_000);
    assert!(!without.shm_valid());
    assert!(clock_with(1).shm_valid());
    assert!(!clock_with(2).shm_valid());
}

#[test]
fn a_look_at_the_segment_while_the_writer_is_at_work() {
    let mut channel = NtpShmInterface::new(0, 1, Some(record(1, 5, 6))).unwrap();
    channel.observe_checked(3, record(1, 7, 8), 3);
    assert_eq!(channel.read_time(), Some((7, 8, true)));
    assert!(channel.is_valid());

    channel.observe_checked(3, record(1, 9, 10), 4);
    assert_eq!(channel.read_time(), None);
    assert!(!channel.is_valid());
    assert_eq!(channel.segment().valid, 0);
    assert_eq!(channel.segment().clock_time_sec, 9);
    assert_eq!(channel.unit(), 0);
    assert_eq!(channel.shm_id(), 1);

    let clock = NtpSyncedClock::new(Ok(channel));
    assert_eq!(clock.now_synced_with(Ok((1, 2))), Ok((1, 2)));
    assert!(!clock.shm_valid());
}

#[test]
fn a_clock_over_a_unit() {
    let clock = NtpSyncedClock::with_shm_unit(1, 3, Some(record(1, 9, 9))).unwrap();
    assert_eq!(clock.shm.as_ref().unwrap().unit(), 1);
    assert_eq!(clock.now_synced(), Ok((9, 9)));
    assert_eq!(
        NtpSyncedClock::with_shm_unit(9, 3, Some(record(1, 9, 9))).unwrap_err(),
        ShmError::InvalidUnit
    );
    assert_eq!(
        NtpSyncedClock::with_shm_unit(1, -3, None).unwrap_err(),
        ShmError::SegmentCreateFailed
    );
    assert_eq!(
        NtpSyncedClock::with_shm_unit(1, 3, None).unwrap_err(),
        ShmError::SegmentAttachFailed
    );
}

#[test]
fn any_signal_marks_a_container() {
    assert!(!NtpSyncedClock::is_container_environment(&outside()));
    assert!(NtpSyncedClock::is_container_environment(&ProbeEnvironment {
        container_marker: true,
        ..outside()
    }));
    assert!(NtpSyncedClock::is_container_environment(&ProbeEnvironment {
        orchestrator_host: true,
        ..outside()
    }));
    assert!(NtpSyncedClock::is_container_environment(&ProbeEnvironment {
        container_app: true,
        ..outside()
    }));
    assert!(NtpSyncedClock::is_container_environment(&ProbeEnvironment {
        skip_requested: true,
        ..outside()
    }));
}

#[test]
fn the_commands_of_the_probe() {
    assert_eq!(ProbeCommand::PeerList.program(), "ntpq");
    assert_eq!(ProbeCommand::PeerList.arguments(), ("-p", "-n"));
    assert_eq!(ProbeCommand::SystemVariables.program(), "ntpq");
    assert_eq!(ProbeCommand::SystemVariables.arguments(), ("-c", "rv"));
    assert_eq!(mcp_utc_time_server::ntp::sync::PROBE_TIMEOUT_SECS, 2);
}

#[test]
fn in_a_container_the_daemon_is_not_asked() {
    let inside = ProbeEnvironment { container_marker: true, ..outside() };
    match clock_with(1).get_status_begin(&inside) {
        StatusStep::Finished(Ok(status)) => {
            assert!(status.synced);
            assert_eq!(status.stratum, 3);
            assert_eq!(status.precision, -20);
            assert_eq!(status.offset_ms, "");
            assert_eq!(status.root_delay, "");
            assert_eq!(status.root_dispersion, "");
            assert!(!status.shm_valid);
            assert!(!status.pps_enabled);
        }
        other => panic!("unexpected step: {:?}", other),
    }
    match NtpSyncedClock::is_synced_begin(&inside) {
        SyncStep::Finished(Ok(synced)) => assert!(!synced),
        other => panic!("unexpected step: {:?}", other),
    }
}

#[test]
fn outside_a_container_the_daemon_is_asked() {
    assert!(matches!(
        clock_with(1).get_status_begin(&outside()),
        StatusStep::Probe(ProbeCommand::SystemVariables)
    ));
    assert!(matches!(
        NtpSyncedClock::is_synced_begin(&outside()),
        SyncStep::Probe(ProbeCommand::PeerList)
    ));
    assert!(matches!(
        clock_with(1).get_status_after_variables(&ProbeOutcome::Completed("x".to_string())),
        StatusStep::Probe(ProbeCommand::PeerList)
    ));
}

fn degraded(step: StatusStep) -> NtpStatusReport {
    match step {
        StatusStep::Finished(Ok(status)) => status,
        other => panic!("unexpected step: {:?}", other),
    }
}

#[test]
fn a_missing_command_degrades_the_status() {
    let status = degraded(clock_with(1).get_status_after_variables(&ProbeOutcome::NotFound));
    assert!(!status.synced);
    assert_eq!(status.stratum, 16);
    assert_eq!(status.precision, 0);
    assert_eq!(status.offset_ms, "");
    assert!(status.shm_valid);
    assert!(!status.pps_enabled);

    let status = degraded(clock_with(0).get_status_after_variables(&ProbeOutcome::NotFound));
    assert!(!status.synced);
    assert_eq!(status.stratum, 16);
    assert!(!status.shm_valid);
}

#[test]
fn a_slow_command_degrades_the_status() {
    let status = degraded(clock_with(1).get_status_after_variables(&ProbeOutcome::TimedOut));
    assert!(!status.synced);
    assert_eq!(status.stratum, 16);
    assert_eq!(status.precision, 0);
    assert!(status.shm_valid);
    assert!(!status.pps_enabled);
}

#[test]
fn a_command_that_cannot_be_run_is_an_error() {
    let failed = ProbeOutcome::Failed("Permission denied (os error 13)".to_string());
    match clock_with(1).get_status_after_variables(&failed) {
        StatusStep::Finished(Err(ProbeError::ProbeExecutionFailed(why))) => {
            assert_eq!(why, "Failed to get NTP status: Permission denied (os error 13)")
        }
        other => panic!("unexpected step: {:?}", other),
    }
    match NtpSyncedClock::is_synced_finish(&failed) {
        Err(ProbeError::ProbeExecutionFailed(why)) => {
            assert_eq!(why, "Failed to check NTP status: Permission denied (os error 13)")
        }
        other => panic!("unexpected result: {:?}", other),
    }
}

#[test]
fn the_table_of_peers_tells_the_synchronisation() {
    let table = "     remote           refid      st t when poll reach   delay   offset   jitter\n\
                 =======================================================================\n\
                 +162.159.200.1   10.4.0.1         3 u   33   64  377   11.1   0.5   0.7\n\
                 *216.239.35.0    .GOOG.           1 u   29   64  377   12.2  -0.1   0.3\n";
    assert!(has_selected_peer(table));
    assert!(has_selected_peer("*first"));
    assert!(has_selected_peer("a\r\n*b"));
    assert!(has_selected_peer("a\n\n*"));
    assert!(!has_selected_peer(""));
    assert!(!has_selected_peer(" *indented"));
    assert!(!has_selected_peer("a*b\n+c\n"));
    assert!(!has_selected_peer("a\r*b"));
    assert!(!has_selected_peer("\n"));
    for text in ["", "*", "\n*", "x\n", "x\n *", "+a\n-b\n*c", "a\rb", "\u{a0}*"] {
        assert_eq!(
            has_selected_peer(text),
            text.lines().any(|line| line.starts_with('*')),
            "{:?}",
            text
        );
    }

    assert_eq!(
        NtpSyncedClock::is_synced_finish(&ProbeOutcome::Completed(table.to_string())).unwrap(),
        true
    );
    assert_eq!(
        NtpSyncedClock::is_synced_finish(&ProbeOutcome::Completed("none".to_string())).unwrap(),
        false
    );
    assert_eq!(NtpSyncedClock::is_synced_finish(&ProbeOutcome::NotFound).unwrap(), false);
    assert_eq!(NtpSyncedClock::is_synced_finish(&ProbeOutcome::TimedOut).unwrap(), false);
}

#[test]
fn the_list_of_variables_is_read() {
    let output = "associd=0 status=0615 leap_none, sync_ntp, 1 event, clock_sync,\n\
                  version=\"ntpd ntpsec-1.2.2\", processor=\"x86_64\", leap=00, stratum=2,\n\
                  precision=-23, rootdelay=12.345, rootdisp=23.456, refid=10.0.0.1,\n\
                  offset=-0.512, frequency=3.1\n";
    let v = StatusVariables::parse(output);
    assert_eq!(v.stratum, 2);
    assert_eq!(v.precision, -23);
    assert_eq!(v.offset, "-0.512");
    assert_eq!(v.root_delay, "12.345");
    assert_eq!(v.root_dispersion, "23.456");

    let status = clock_with(1).get_status_finish(
        output,
        &ProbeOutcome::Completed("*1.2.3.4".to_string()),
    );
    assert!(status.synced);
    assert_eq!(status.stratum, 2);
    assert_eq!(status.precision, -23);
    assert_eq!(status.offset_ms, "-0.512");
    assert_eq!(status.offset_ms.parse::<f64>().unwrap(), -0.512);
    assert_eq!(status.root_delay.parse::<f64>().unwrap(), 12.345);
    assert_eq!(status.root_dispersion.parse::<f64>().unwrap(), 23.456);
    assert!(status.shm_valid);
    assert!(!status.pps_enabled);
}

#[test]
fn a_variable_that_is_no_number_falls_back() {
    let v = StatusVariables::parse("stratum=2, stratum=many, precision=-5,precision=");
    assert_eq!(v.stratum, 16);
    assert_eq!(v.precision, 0);

    let v = StatusVariables::parse("");
    assert_eq!((v.stratum, v.precision), (16, 0));
    assert_eq!(v.offset, "");

    let v = StatusVariables::parse("stratum=256,precision=-129");
    assert_eq!((v.stratum, v.precision), (16, 0));
    let v = StatusVariables::parse("stratum=255,precision=-128");
    assert_eq!((v.stratum, v.precision), (255, -128));
    let v = StatusVariables::parse("stratum=+7,precision=+127");
    assert_eq!((v.stratum, v.precision), (7, 127));
    let v = StatusVariables::parse("stratum= 7,precision=128");
    assert_eq!((v.stratum, v.precision), (16, 0));
    let v = StatusVariables::parse("Stratum=7, xstratum=8,stratum =9");
    assert_eq!(v.stratum, 16);
}

#[test]
fn a_later_entry_overrides_an_earlier_one() {
    let v = StatusVariables::parse(
        "offset=1.0,  offset=2.5\t,rootdelay=a,rootdisp=,\u{a0}rootdisp=x y\u{2003},,offset",
    );
    assert_eq!(v.offset, "2.5");
    assert_eq!(v.root_delay, "a");
    assert_eq!(v.root_dispersion, "x y");
}

fn by_the_library_of_the_language(output: &str) -> (String, u8, i8, String, String) {
    let mut offset = String::new();
    let mut stratum = 16u8;
    let mut precision = 0i8;
    let mut delay = String::new();
    let mut dispersion = String::new();
    for part in output.split(',') {
        let part = part.trim();
        if let Some(val) = part.strip_prefix("offset=") {
            offset = val.to_string();
        } else if let Some(val) = part.strip_prefix("stratum=") {
            stratum = val.parse().unwrap_or(16);
        } else if let Some(val) = part.strip_prefix("precision=") {
            precision = val.parse().unwrap_or(0);
        } else if let Some(val) = part.strip_prefix("rootdelay=") {
            delay = val.to_string();
        } else if let Some(val) = part.strip_prefix("rootdisp=") {
            dispersion = val.to_string();
        }
    }
    (offset, stratum, precision, delay, dispersion)
}

#[test]
fn the_variables_are_read_as_the_language_splits_and_parses() {
    let samples = [
        "",
        ",",
        ",,",
        "stratum=3",
        " stratum=3 ",
        "stratum=3,",
        ",stratum=3",
        "stratum=03,precision=-0",
        "stratum=-0",
        "stratum=+",
        "stratum=-",
        "precision=--1",
        "precision=+-1",
        "precision=-+1",
        "precision=1e1",
        "stratum=१",
        "offset==,rootdelay= 1 ,rootdisp=\n2\n",
        "offset=1,offset=,stratum=1,stratum=",
        "a=b,c=d",
        "stratum=00000000000000000000000000000000000000016",
        "stratum=99999999999999999999999999999999999999999",
        "precision=-00000000000000000000000000000000000128",
        "precision=\u{2212}5",
        "rootdisp=5\u{3000}",
        "\u{85}offset=7\u{1680}",
    ];
    for sample in samples {
        let v = StatusVariables::parse(sample);
        assert_eq!(
            (v.offset, v.stratum, v.precision, v.root_delay, v.root_dispersion),
            by_the_library_of_the_language(sample),
            "{:?}",
            sample
        );
    }
}

#[test]
fn a_pulse_source_is_looked_for() {
    assert!(has_pps("refid=PPS"));
    assert!(has_pps("xx pps yy"));
    assert!(!has_pps("Pps pPs ppS"));
    assert!(!has_pps(""));
    assert!(!has_pps("pp"));
    assert!(has_pps("pps"));
    let status = clock_with(0).get_status_finish("refid=.PPS., stratum=1", &ProbeOutcome::NotFound);
    assert!(status.pps_enabled);
    assert!(!status.synced);
    assert!(!status.shm_valid);
    assert_eq!(status.stratum, 1);
}

#[test]
fn a_failed_look_at_the_peers_counts_as_not_synchronised() {
    let clock = clock_with(1);
    let failed = ProbeOutcome::Failed("broken pipe".to_string());
    assert!(!clock.get_status_finish("stratum=1", &failed).synced);
    assert!(!clock.get_status_finish("stratum=1", &ProbeOutcome::TimedOut).synced);
    assert!(!clock
        .get_status_finish("stratum=1", &ProbeOutcome::Completed("+peer".to_string()))
        .synced);
    assert!(clock
        .get_status_finish("stratum=1", &ProbeOutcome::Completed("x\n*peer".to_string()))
        .synced);
}

#[test]
fn waiting_for_the_synchronisation() {
    assert!(matches!(
        NtpSyncedClock::wait_for_sync_step(Ok(true), 10_000, 5),
        WaitStep::Synced
    ));
    assert!(matches!(
        NtpSyncedClock::wait_for_sync_step(Ok(false), 5, 5),
        WaitStep::Retry
    ));
    assert!(matches!(
        NtpSyncedClock::wait_for_sync_step(Ok(false), 6, 5),
        WaitStep::GaveUp(ProbeError::SyncTimeout)
    ));
    match NtpSyncedClock::wait_for_sync_step(
        Err(ProbeError::ProbeExecutionFailed("why".to_string())),
        0,
        5,
    ) {
        WaitStep::GaveUp(ProbeError::ProbeExecutionFailed(why)) => assert_eq!(why, "why"),
        other => panic!("unexpected step: {:?}", other),
    }
    assert_eq!(mcp_utc_time_server::ntp::sync::SYNC_POLL_SECS, 1);
}
