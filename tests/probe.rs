use media_remote::probe::{
    ProbeError, ProbeStep, PropertyQuery, PropertyReply, SystemAudio, REPLY_SIZE,
};

fn ok(value: u32) -> PropertyReply {
    PropertyReply { status: 0, data_size: REPLY_SIZE, value }
}

#[test]
fn probe_starts_with_default_device() {
    assert!(matches!(SystemAudio::start(), ProbeStep::Read(PropertyQuery::DefaultOutputDevice)));
}

#[test]
fn probe_reads_running_state_of_default_device() {
    let step = SystemAudio::advance(PropertyQuery::DefaultOutputDevice, ok(73));
    assert!(matches!(
        step,
        ProbeStep::Read(PropertyQuery::DeviceIsRunningSomewhere { device: 73 })
    ));
}

#[test]
fn probe_reports_running_state() {
    let q = PropertyQuery::DeviceIsRunningSomewhere { device: 73 };
    assert!(matches!(SystemAudio::advance(q, ok(1)), ProbeStep::Done(Ok(true))));
    assert!(matches!(SystemAudio::advance(q, ok(7)), ProbeStep::Done(Ok(true))));
    assert!(matches!(SystemAudio::advance(q, ok(0)), ProbeStep::Done(Ok(false))));
}

#[test]
fn probe_failed_first_read_is_an_error() {
    let reply = PropertyReply { status: -50, data_size: REPLY_SIZE, value: 0 };
    match SystemAudio::advance(PropertyQuery::DefaultOutputDevice, reply) {
        ProbeStep::Done(Err(e)) => {
            assert_eq!(e, ProbeError::DefaultDeviceUnavailable { status: -50 })
        }
        other => panic!("unexpected step {:?}", other),
    }
}

#[test]
fn probe_failed_second_read_is_an_error() {
    let q = PropertyQuery::DeviceIsRunningSomewhere { device: 5 };
    let reply = PropertyReply { status: 2003332927, data_size: REPLY_SIZE, value: 1 };
    match SystemAudio::advance(q, reply) {
        ProbeStep::Done(Err(e)) => {
            assert_eq!(e, ProbeError::RunningStateUnavailable { status: 2003332927 })
        }
        other => panic!("unexpected step {:?}", other),
    }
}

#[test]
fn probe_rejects_short_reply() {
    let reply = PropertyReply { status: 0, data_size: 2, value: 1 };
    match SystemAudio::advance(PropertyQuery::DefaultOutputDevice, reply) {
        ProbeStep::Done(Err(e)) => assert_eq!(
            e,
            ProbeError::UnexpectedReplySize { query: PropertyQuery::DefaultOutputDevice, size: 2 }
        ),
        other => panic!("unexpected step {:?}", other),
    }
}

#[test]
fn probe_runs_two_reads_to_completion() {
    let replies = [ok(41), ok(1)];
    let mut step = SystemAudio::start();
    let mut reads = 0;
    let outcome = loop {
        match step {
            ProbeStep::Read(q) => {
                step = SystemAudio::advance(q, replies[reads]);
                reads += 1;
            }
            ProbeStep::Done(r) => break r,
        }
    };
    assert_eq!(reads, 2);
    assert_eq!(outcome, Ok(true));
}
