//! Clock reads under simulation.
//!
//! A clock query is answered from one of three places: the simulator's elapsed
//! time, the runtime's monotonic instant, or the epoch. Which one depends on
//! whether simulated mode is on, whether a runtime is bound to the calling
//! thread, and which clock was asked for.
//!
//! The library decides where the answer comes from and turns what the source
//! reports into a timestamp. Reading the simulator and the runtime's clock is
//! left to the caller, who is told which of the two to read.

use crate::decimal::{int_text, int_text_is_one_line, push_int};
use vstd::prelude::*;
use vstd::std_specs::convert::FromSpecImpl;
use vstd::string::StringExecFns;

verus! {

/// Nanoseconds in one second.
pub const NANOS_PER_SEC: i64 = 1_000_000_000;

/// A time value as the platform reports it: whole seconds and the nanoseconds
/// beyond them.
#[derive(Clone, Copy, Debug, PartialEq, Eq, Structural)]
pub struct Timespec {
    pub tv_sec: i64,
    pub tv_nsec: i64,
}

impl Timespec {
    /// The nanoseconds stay below one second.
    pub open spec fn wf(&self) -> bool {
        0 <= self.tv_nsec < NANOS_PER_SEC
    }

    /// The value in nanoseconds.
    pub open spec fn total_nanos(&self) -> int {
        self.tv_sec * NANOS_PER_SEC + self.tv_nsec
    }

    /// Second zero, nanosecond zero.
    pub open spec fn epoch_spec() -> Timespec {
        Timespec { tv_sec: 0, tv_nsec: 0 }
    }

    /// Second zero, nanosecond zero.
    pub fn epoch() -> (ts: Timespec)
        ensures
            ts == Timespec::epoch_spec(),
    {
        Timespec { tv_sec: 0, tv_nsec: 0 }
    }

    /// The timestamp for an elapsed time given as whole seconds and
    /// sub-second nanoseconds; no elapsed time counts as none elapsed.
    pub open spec fn elapsed_spec(elapsed: Option<(u64, u32)>) -> Timespec {
        match elapsed {
            Some((secs, subsec_nanos)) => Timespec {
                tv_sec: wrapped_seconds(secs) as i64,
                tv_nsec: subsec_nanos as i64,
            },
            None => Timespec::epoch_spec(),
        }
    }

    /// The timestamp for an instant of the runtime: the same seconds, read as
    /// a signed count, and the same nanoseconds.
    pub open spec fn instant_spec(instant: StdTimespec) -> Timespec {
        Timespec {
            tv_sec: wrapped_seconds(instant.tv_sec) as i64,
            tv_nsec: instant.tv_nsec as i64,
        }
    }

    /// Converts an elapsed time, given as whole seconds and sub-second
    /// nanoseconds, to a timestamp. `None` stands for a simulator that reports
    /// nothing and is taken as zero.
    pub fn from_elapsed(elapsed: Option<(u64, u32)>) -> (ts: Timespec)
        ensures
            ts == Timespec::elapsed_spec(elapsed),
    {
        match elapsed {
            Some((secs, subsec_nanos)) => Timespec {
                tv_sec: wrap_seconds(secs),
                tv_nsec: subsec_nanos as i64,
            },
            None => Timespec::epoch(),
        }
    }
}

/// An unsigned count of seconds read as a signed one of the same width:
/// counts above `i64::MAX` come out negative.
pub open spec fn wrapped_seconds(secs: u64) -> int {
    if secs <= i64::MAX {
        secs as int
    } else {
        secs - 0x1_0000_0000_0000_0000
    }
}

/// Reads an unsigned count of seconds as a signed one.
pub fn wrap_seconds(secs: u64) -> (r: i64)
    ensures
        r == wrapped_seconds(secs),
{
    assert(secs > 0x7fff_ffff_ffff_ffffu64 ==> (secs as i64) == ((secs
        - 0x8000_0000_0000_0000u64) as i64) + (-0x7fff_ffff_ffff_ffffi64 - 1)) by (bit_vector);
    #[verifier::truncate]
    (secs as i64)
}

/// The runtime's monotonic instant as seconds and nanoseconds.
#[derive(Clone, Copy, Debug)]
pub struct StdTimespec {
    pub tv_sec: u64,
    pub tv_nsec: u32,
}

impl StdTimespec {
    /// The nanoseconds stay below one second.
    pub open spec fn wf(&self) -> bool {
        self.tv_nsec < NANOS_PER_SEC
    }

    /// The value in nanoseconds.
    pub open spec fn total_nanos(&self) -> int {
        self.tv_sec * NANOS_PER_SEC + self.tv_nsec
    }
}

impl From<StdTimespec> for Timespec {
    /// Converts an instant of the runtime to a timestamp.
    fn from(value: StdTimespec) -> (ts: Timespec) {
        Timespec { tv_sec: wrap_seconds(value.tv_sec), tv_nsec: value.tv_nsec as i64 }
    }
}

impl FromSpecImpl<StdTimespec> for Timespec {
    open spec fn obeys_from_spec() -> bool {
        true
    }

    open spec fn from_spec(value: StdTimespec) -> Timespec {
        Timespec::instant_spec(value)
    }
}

/// The numbers under which a platform knows its clocks. A platform that lacks
/// a clock has `None` for it.
#[derive(Clone, Copy, Debug)]
pub struct ClockIds {
    pub realtime: i32,
    pub realtime_coarse: Option<i32>,
    pub monotonic: i32,
    pub monotonic_raw: i32,
    pub monotonic_coarse: Option<i32>,
    pub boottime: Option<i32>,
    pub uptime_raw: Option<i32>,
}

/// The clock that a query asks for.
#[derive(Clone, Copy, Debug, PartialEq, Eq, Structural)]
pub enum ClockKind {
    Realtime,
    RealtimeCoarse,
    Monotonic,
    MonotonicRaw,
    MonotonicCoarse,
    Boottime,
    UptimeRaw,
    /// A clock that has no simulated counterpart.
    Other,
}

/// Where the time of a simulated clock comes from.
#[derive(Clone, Copy, Debug, PartialEq, Eq, Structural)]
pub enum ClockSource {
    /// The time that the simulator says has elapsed since the simulation began.
    SimElapsed,
    /// The runtime's monotonic instant.
    RuntimeInstant,
    /// Nowhere: the clock is not simulated.
    Unsupported,
}

/// Whether an optional clock number is there and equals `clockid`.
pub open spec fn names(id: Option<i32>, clockid: i32) -> bool {
    id == Some(clockid)
}

fn names_clock(id: Option<i32>, clockid: i32) -> (b: bool)
    ensures
        b == names(id, clockid),
{
    match id {
        Some(id) => id == clockid,
        None => false,
    }
}

impl ClockIds {
    /// The clock that `clockid` names: the first in the order of the fields
    /// whose number it is, `Other` if it is none of them.
    pub open spec fn kind_spec(&self, clockid: i32) -> ClockKind {
        if clockid == self.realtime {
            ClockKind::Realtime
        } else if names(self.realtime_coarse, clockid) {
            ClockKind::RealtimeCoarse
        } else if clockid == self.monotonic {
            ClockKind::Monotonic
        } else if clockid == self.monotonic_raw {
            ClockKind::MonotonicRaw
        } else if names(self.monotonic_coarse, clockid) {
            ClockKind::MonotonicCoarse
        } else if names(self.boottime, clockid) {
            ClockKind::Boottime
        } else if names(self.uptime_raw, clockid) {
            ClockKind::UptimeRaw
        } else {
            ClockKind::Other
        }
    }

    /// Tells which clock a number names on this platform.
    pub fn kind(&self, clockid: i32) -> (kind: ClockKind)
        ensures
            kind == self.kind_spec(clockid),
    {
        if clockid == self.realtime {
            ClockKind::Realtime
        } else if names_clock(self.realtime_coarse, clockid) {
            ClockKind::RealtimeCoarse
        } else if clockid == self.monotonic {
            ClockKind::Monotonic
        } else if clockid == self.monotonic_raw {
            ClockKind::MonotonicRaw
        } else if names_clock(self.monotonic_coarse, clockid) {
            ClockKind::MonotonicCoarse
        } else if names_clock(self.boottime, clockid) {
            ClockKind::Boottime
        } else if names_clock(self.uptime_raw, clockid) {
            ClockKind::UptimeRaw
        } else {
            ClockKind::Other
        }
    }
}

impl ClockKind {
    /// Wall clocks follow the simulator, monotonic clocks follow the runtime,
    /// and no other clock is simulated.
    pub open spec fn source_spec(&self) -> ClockSource {
        match self {
            ClockKind::Realtime | ClockKind::RealtimeCoarse => ClockSource::SimElapsed,
            ClockKind::Monotonic
            | ClockKind::MonotonicRaw
            | ClockKind::MonotonicCoarse
            | ClockKind::Boottime
            | ClockKind::UptimeRaw => ClockSource::RuntimeInstant,
            ClockKind::Other => ClockSource::Unsupported,
        }
    }

    /// The source that stands in for this clock during a simulation.
    pub fn source(&self) -> (source: ClockSource)
        ensures
            source == self.source_spec(),
    {
        match self {
            ClockKind::Realtime | ClockKind::RealtimeCoarse => ClockSource::SimElapsed,
            ClockKind::Monotonic
            | ClockKind::MonotonicRaw
            | ClockKind::MonotonicCoarse
            | ClockKind::Boottime
            | ClockKind::UptimeRaw => ClockSource::RuntimeInstant,
            ClockKind::Other => ClockSource::Unsupported,
        }
    }
}

/// The source that answers a query, or `None` where the query is not
/// simulated at all: simulated mode is off, or no runtime is bound to the
/// calling thread.
pub open spec fn simulated_source_spec(active: bool, runtime: bool, kind: ClockKind) -> Option<
    ClockSource,
> {
    if active && runtime {
        Some(kind.source_spec())
    } else {
        None
    }
}

/// Decides where the answer to a clock query comes from.
pub fn simulated_source(active: bool, runtime: bool, kind: ClockKind) -> (source: Option<
    ClockSource,
>)
    ensures
        source == simulated_source_spec(active, runtime, kind),
{
    if active && runtime {
        Some(kind.source())
    } else {
        None
    }
}

/// The switch for simulated clocks. It is a plain flag, not a count: turning
/// it on twice and off once leaves it off.
#[derive(Debug)]
pub struct SimClockMode {
    enabled: bool,
}

impl SimClockMode {
    /// Whether simulated mode is on.
    pub closed spec fn active(&self) -> bool {
        self.enabled
    }

    /// A switch that is off.
    pub fn new() -> (mode: SimClockMode)
        ensures
            !mode.active(),
    {
        SimClockMode { enabled: false }
    }

    /// The switch as a flag has it: on where the flag is set.
    pub fn from_flag(enabled: bool) -> (mode: SimClockMode)
        ensures
            mode.active() == enabled,
    {
        SimClockMode { enabled }
    }

    /// Whether simulated mode is on.
    pub fn is_active(&self) -> (b: bool)
        ensures
            b == self.active(),
    {
        self.enabled
    }
}

/// Held while simulated clocks are wanted. Making one turns simulated mode
/// on; releasing one turns it off.
#[derive(Debug)]
pub struct SimClocksGuard(());

impl SimClocksGuard {
    /// Turns simulated mode on, whatever it was before.
    pub fn init(mode: &mut SimClockMode) -> (guard: SimClocksGuard)
        ensures
            final(mode).active(),
    {
        mode.enabled = true;
        SimClocksGuard(())
    }

    /// Turns simulated mode off, whatever it was before and however many
    /// guards are still held.
    pub fn release(self, mode: &mut SimClockMode)
        ensures
            !final(mode).active(),
    {
        mode.enabled = false;
    }
}

/// `tokio::runtime::Handle::try_current`, asked only whether it succeeds:
/// whether a runtime is bound to the calling thread. The call does not panic,
/// and nothing is claimed of the answer.
#[verifier::external_body]
fn runtime_present() -> bool {
    tokio::runtime::Handle::try_current().is_ok()
}

/// The line that reports a query for a clock that is not simulated.
pub open spec fn unsupported_clock_text(clockid: i32) -> Seq<char> {
    "Unsupported clock, real implementation will be used -- clock_gettime("@ + int_text(
        clockid as int,
    ) + ")"@
}

/// Writes the line that reports a query for a clock that is not simulated. It
/// names the clock by its number.
pub fn unsupported_clock_line(clockid: i32) -> (line: String)
    ensures
        line@ == unsupported_clock_text(clockid),
{
    let mut line = String::from_str(
        "Unsupported clock, real implementation will be used -- clock_gettime(",
    );
    push_int(&mut line, clockid);
    line.append(")");
    line
}

/// The report is one line: it holds no line break.
pub proof fn unsupported_clock_text_is_one_line(clockid: i32)
    ensures
        forall|i: int|
            0 <= i < unsupported_clock_text(clockid).len() ==> unsupported_clock_text(
                clockid,
            )[i] != '\n',
{
    reveal_strlit("Unsupported clock, real implementation will be used -- clock_gettime(");
    reveal_strlit(")");
    int_text_is_one_line(clockid as int);
}

/// What a clock query came to.
#[derive(Debug, PartialEq, Eq)]
pub enum Reading {
    /// The timestamp is stored and the query returns this code.
    Stored(i32),
    /// The clock is not simulated: the epoch is stored, the query returns this
    /// code, and the line is owed to the diagnostic stream.
    Unsupported(i32, String),
    /// The answer is the simulator's elapsed time, which is still to be read:
    /// nothing is stored until `store_elapsed` is given what the simulator
    /// reports.
    Simulator,
    /// The answer is the runtime's instant, which is still to be read:
    /// nothing is stored until `store_instant` is given its seconds and
    /// nanoseconds.
    Runtime,
}

/// How a query is answered from a given source: what is stored over `before`
/// and what is handed back. A source of `None` is a query that is not
/// simulated, which gets the epoch.
pub open spec fn answered(
    source: Option<ClockSource>,
    clockid: i32,
    before: Timespec,
    reading: Reading,
    after: Timespec,
) -> bool {
    match source {
        None => reading == Reading::Stored(0) && after == Timespec::epoch_spec(),
        Some(ClockSource::SimElapsed) => reading == Reading::Simulator && after == before,
        Some(ClockSource::RuntimeInstant) => reading == Reading::Runtime && after == before,
        Some(ClockSource::Unsupported) => {
            &&& reading matches Reading::Unsupported(code, line)
            &&& code == 0
            &&& line@ == unsupported_clock_text(clockid)
            &&& after == Timespec::epoch_spec()
        },
    }
}

/// Answers a clock query from the source that was chosen for it.
pub fn read_clock(source: Option<ClockSource>, clockid: i32, tp: &mut Timespec) -> (reading:
    Reading)
    ensures
        answered(source, clockid, *old(tp), reading, *final(tp)),
{
    match source {
        Some(ClockSource::SimElapsed) => Reading::Simulator,
        Some(ClockSource::RuntimeInstant) => Reading::Runtime,
        Some(ClockSource::Unsupported) => {
            *tp = Timespec::epoch();
            Reading::Unsupported(0, unsupported_clock_line(clockid))
        },
        None => {
            *tp = Timespec::epoch();
            Reading::Stored(0)
        },
    }
}

/// Reads the clock that `clockid` names.
///
/// With simulated mode off the answer is the epoch, and the runtime is not
/// asked for. With simulated mode on, the runtime is asked whether it is bound
/// to the calling thread; if it is not, the answer is the epoch again, and if
/// it is, the answer comes from the source of the clock's kind. The query
/// never fails.
pub fn clock_gettime(
    mode: &SimClockMode,
    ids: &ClockIds,
    clockid: i32,
    tp: &mut Timespec,
) -> (reading: Reading)
    ensures
        !mode.active() ==> reading == Reading::Stored(0) && *final(tp) == Timespec::epoch_spec(),
        exists|runtime: bool|
            answered(
                simulated_source_spec(mode.active(), runtime, ids.kind_spec(clockid)),
                clockid,
                *old(tp),
                reading,
                *final(tp),
            ),
{
    let active = mode.is_active();
    let runtime = active && runtime_present();
    let source = simulated_source(active, runtime, ids.kind(clockid));
    let reading = read_clock(source, clockid, tp);
    assert(answered(
        simulated_source_spec(mode.active(), runtime, ids.kind_spec(clockid)),
        clockid,
        *old(tp),
        reading,
        *tp,
    ));
    reading
}

/// Completes a query that was answered with `Reading::Simulator`: stores the
/// elapsed time that the simulator reports, given as whole seconds and
/// sub-second nanoseconds, and returns the query's code. A simulator that
/// reports nothing is taken to report zero.
pub fn store_elapsed(elapsed: Option<(u64, u32)>, tp: &mut Timespec) -> (code: i32)
    ensures
        code == 0,
        *final(tp) == Timespec::elapsed_spec(elapsed),
{
    *tp = Timespec::from_elapsed(elapsed);
    0
}

/// Completes a query that was answered with `Reading::Runtime`: stores the
/// instant's seconds and nanoseconds and returns the query's code.
pub fn store_instant(instant: StdTimespec, tp: &mut Timespec) -> (code: i32)
    ensures
        code == 0,
        *final(tp) == Timespec::instant_spec(instant),
{
    *tp = Timespec::from(instant);
    0
}

/// An elapsed time, given as whole seconds and sub-second nanoseconds, in
/// nanoseconds.
pub open spec fn elapsed_nanos(elapsed: (u64, u32)) -> int {
    elapsed.0 * NANOS_PER_SEC + elapsed.1
}

/// Wall clocks keep step with the simulator: the timestamp for an elapsed
/// time is that time, so of two elapsed times the later one gives the later
/// timestamp, later by as much as the simulator moved. This holds while the
/// seconds fit a signed count.
pub proof fn wall_clock_keeps_step(earlier: (u64, u32), later: (u64, u32))
    requires
        earlier.0 <= i64::MAX,
        later.0 <= i64::MAX,
        earlier.1 < NANOS_PER_SEC,
        later.1 < NANOS_PER_SEC,
        elapsed_nanos(earlier) < elapsed_nanos(later),
    ensures
        Timespec::elapsed_spec(Some(earlier)).wf(),
        Timespec::elapsed_spec(Some(later)).wf(),
        Timespec::elapsed_spec(Some(earlier)).total_nanos() == elapsed_nanos(earlier),
        Timespec::elapsed_spec(Some(later)).total_nanos() == elapsed_nanos(later),
        Timespec::elapsed_spec(Some(earlier)).total_nanos() < Timespec::elapsed_spec(
            Some(later),
        ).total_nanos(),
{
}

/// Monotonic clocks keep step with the runtime: the timestamp for an instant
/// is that instant, so of two instants the later one gives the later
/// timestamp, later by as much as the runtime moved. This holds while the
/// seconds fit a signed count.
pub proof fn monotonic_clock_keeps_step(earlier: StdTimespec, later: StdTimespec)
    requires
        earlier.tv_sec <= i64::MAX,
        later.tv_sec <= i64::MAX,
        earlier.wf(),
        later.wf(),
        earlier.total_nanos() < later.total_nanos(),
    ensures
        Timespec::instant_spec(earlier).wf(),
        Timespec::instant_spec(later).wf(),
        Timespec::instant_spec(earlier).total_nanos() == earlier.total_nanos(),
        Timespec::instant_spec(later).total_nanos() == later.total_nanos(),
        Timespec::instant_spec(earlier).total_nanos() < Timespec::instant_spec(
            later,
        ).total_nanos(),
{
}

/// With simulated mode off no query is simulated: whatever the clock and
/// whether or not a runtime is there, the answer is the epoch, the code is 0
/// and no line is owed.
pub proof fn mode_off_reads_epoch(
    runtime: bool,
    kind: ClockKind,
    clockid: i32,
    before: Timespec,
    reading: Reading,
    after: Timespec,
)
    requires
        answered(simulated_source_spec(false, runtime, kind), clockid, before, reading, after),
    ensures
        reading == Reading::Stored(0),
        after == Timespec::epoch_spec(),
{
}

/// A query never fails: whatever the source, the code it returns at once is
/// 0, and so is the code that `store_elapsed` or `store_instant` returns for
/// it later.
pub proof fn query_succeeds(
    source: Option<ClockSource>,
    clockid: i32,
    before: Timespec,
    reading: Reading,
    after: Timespec,
)
    requires
        answered(source, clockid, before, reading, after),
    ensures
        reading matches Reading::Stored(code) ==> code == 0,
        reading matches Reading::Unsupported(code, _) ==> code == 0,
{
}

} // verus!
