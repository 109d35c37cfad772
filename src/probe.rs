//! The audio hardware probe as a step function: it names the property read
//! to make next, and decides from each reply whether to read on, fail, or
//! report whether the default output device is running. The reads themselves
//! are native calls made by the caller.

use vstd::prelude::*;

verus! {

/// The size in bytes of every reply the probe reads: one 32-bit integer.
pub const REPLY_SIZE: u32 = 4;

/// A property read of the audio hardware layer.
#[derive(Clone, Copy, Debug, PartialEq, Eq, Structural)]
pub enum PropertyQuery {
    /// The system object's default output device.
    DefaultOutputDevice,
    /// Whether `device` is running in any process.
    DeviceIsRunningSomewhere { device: u32 },
}

/// What one property read gave back: its status code, the number of bytes it
/// wrote into the buffer, and the buffer as a 32-bit integer.
#[derive(Clone, Copy, Debug, PartialEq, Eq, Structural)]
pub struct PropertyReply {
    pub status: i32,
    pub data_size: u32,
    pub value: u32,
}

/// Why the probe could not tell whether audio is playing.
#[derive(Clone, Copy, Debug, PartialEq, Eq, Structural)]
pub enum ProbeError {
    /// Reading the default output device returned a non-zero status.
    DefaultDeviceUnavailable { status: i32 },
    /// Reading the device's running state returned a non-zero status.
    RunningStateUnavailable { status: i32 },
    /// A read succeeded but wrote a number of bytes other than `REPLY_SIZE`.
    UnexpectedReplySize { query: PropertyQuery, size: u32 },
}

/// The probe's next move.
#[derive(Clone, Copy, Debug)]
pub enum ProbeStep {
    /// Make this read and hand its reply back.
    Read(PropertyQuery),
    /// The probe is over, with this outcome.
    Done(Result<bool, ProbeError>),
}

/// The error for a read of `query` that returned the non-zero `status`.
pub open spec fn read_failure(query: PropertyQuery, status: i32) -> ProbeError {
    match query {
        PropertyQuery::DefaultOutputDevice => ProbeError::DefaultDeviceUnavailable { status },
        PropertyQuery::DeviceIsRunningSomewhere { .. } => ProbeError::RunningStateUnavailable {
            status,
        },
    }
}

/// The move after `reply` came back for `query`: a failed or short read ends
/// the probe with an error; the default device leads to reading its running
/// state; the running state ends the probe, playing iff it is non-zero.
pub open spec fn next_step(query: PropertyQuery, reply: PropertyReply) -> ProbeStep {
    if reply.status != 0 {
        ProbeStep::Done(Err(read_failure(query, reply.status)))
    } else if reply.data_size != REPLY_SIZE {
        ProbeStep::Done(Err(ProbeError::UnexpectedReplySize { query, size: reply.data_size }))
    } else {
        match query {
            PropertyQuery::DefaultOutputDevice => ProbeStep::Read(
                PropertyQuery::DeviceIsRunningSomewhere { device: reply.value },
            ),
            PropertyQuery::DeviceIsRunningSomewhere { .. } => ProbeStep::Done(Ok(reply.value != 0)),
        }
    }
}

/// The outcome of a whole probe whose default-device read gives `first` and
/// whose running-state read, if it is made, gives `second`.
pub open spec fn probe_outcome(first: PropertyReply, second: PropertyReply) -> Result<bool, ProbeError> {
    if first.status != 0 {
        Err(ProbeError::DefaultDeviceUnavailable { status: first.status })
    } else if first.data_size != REPLY_SIZE {
        Err(
            ProbeError::UnexpectedReplySize {
                query: PropertyQuery::DefaultOutputDevice,
                size: first.data_size,
            },
        )
    } else if second.status != 0 {
        Err(ProbeError::RunningStateUnavailable { status: second.status })
    } else if second.data_size != REPLY_SIZE {
        Err(
            ProbeError::UnexpectedReplySize {
                query: PropertyQuery::DeviceIsRunningSomewhere { device: first.value },
                size: second.data_size,
            },
        )
    } else {
        Ok(second.value != 0)
    }
}

/// The system audio probe: whether the default output device is running.
pub struct SystemAudio;

impl SystemAudio {
    /// The first move: read the default output device.
    pub fn start() -> (r: ProbeStep)
        ensures
            r == ProbeStep::Read(PropertyQuery::DefaultOutputDevice),
    {
        ProbeStep::Read(PropertyQuery::DefaultOutputDevice)
    }

    /// The move after `reply` came back for `query`.
    pub fn advance(query: PropertyQuery, reply: PropertyReply) -> (r: ProbeStep)
        ensures
            r == next_step(query, reply),
            query is DeviceIsRunningSomewhere ==> r is Done,
    {
        if reply.status != 0 {
            let e = match query {
                PropertyQuery::DefaultOutputDevice => ProbeError::DefaultDeviceUnavailable {
                    status: reply.status,
                },
                PropertyQuery::DeviceIsRunningSomewhere { .. } =>
                    ProbeError::RunningStateUnavailable { status: reply.status },
            };
            ProbeStep::Done(Err(e))
        } else if reply.data_size != REPLY_SIZE {
            ProbeStep::Done(Err(ProbeError::UnexpectedReplySize { query, size: reply.data_size }))
        } else {
            match query {
                PropertyQuery::DefaultOutputDevice => ProbeStep::Read(
                    PropertyQuery::DeviceIsRunningSomewhere { device: reply.value },
                ),
                PropertyQuery::DeviceIsRunningSomewhere { .. } => ProbeStep::Done(
                    Ok(reply.value != 0),
                ),
            }
        }
    }
}

/// Stepping from the start, with `first` as the reply to the first read and
/// `second` as the reply to the second, ends in `probe_outcome(first, second)`
/// after at most two reads; the second read is of the device that the first
/// one named.
pub proof fn steps_give_outcome(first: PropertyReply, second: PropertyReply)
    ensures
        match next_step(PropertyQuery::DefaultOutputDevice, first) {
            ProbeStep::Done(r) => r == probe_outcome(first, second),
            ProbeStep::Read(q) => q == (PropertyQuery::DeviceIsRunningSomewhere {
                device: first.value,
            }) && next_step(q, second) == ProbeStep::Done(probe_outcome(first, second)),
        },
{
}

/// When the default-device read fails, the probe ends at once with that
/// read's status as an error: no second read is asked for, and the outcome is
/// the same whatever a second read would have given.
pub proof fn failed_device_read_ends_probe(first: PropertyReply, second: PropertyReply)
    requires
        first.status != 0,
    ensures
        next_step(PropertyQuery::DefaultOutputDevice, first) == ProbeStep::Done(
            Err(ProbeError::DefaultDeviceUnavailable { status: first.status }),
        ),
        probe_outcome(first, second) == Err::<bool, ProbeError>(
            ProbeError::DefaultDeviceUnavailable { status: first.status },
        ),
{
}

/// The probe reports a result, and no error, exactly when both reads succeed
/// with full replies; the result is whether the running state is non-zero.
pub proof fn probe_reports_running_state(first: PropertyReply, second: PropertyReply)
    ensures
        probe_outcome(first, second) is Ok <==> (first.status == 0 && first.data_size
            == REPLY_SIZE && second.status == 0 && second.data_size == REPLY_SIZE),
        probe_outcome(first, second) matches Ok(b) ==> b == (second.value != 0),
{
}

} // verus!
