use vstd::prelude::*;
use chrono::{DateTime, Local, TimeDelta};
use rustix::time::ClockId;

verus! {

/// How timestamps are computed.
#[derive(Clone, Copy, Debug, PartialEq, Eq, Structural)]
pub enum TimeSource {
    /// Wall-clock time.
    Wall,
    /// Time since the first timestamp.
    Elapsed,
    /// Time since the previous timestamp.
    Delta,
}

/// A header or timestamp could not be formatted.
#[derive(Clone, Copy, Debug, PartialEq, Eq, Structural)]
pub struct FormatError;

/// A reading of the monotonic clock.
#[derive(Clone, Copy, Debug, PartialEq, Eq, Structural)]
pub struct ClockReading {
    pub secs: i64,
    pub nanos: i64,
}

/// The host's identity, as `uname` reports it.
pub struct HostInfo {
    pub node: String,
    pub system: String,
    pub machine: String,
}

/// The largest clock value, in nanoseconds, that a timestamp can show.
pub const MAX_NANOS: u64 = 0x7fff_ffff_ffff_ffff;

/// `s` with its letters in lower case.
pub uninterp spec fn lower_of(s: Seq<char>) -> Seq<char>;

/// The text that the pattern `fmt` gives for the instant `nanos`
/// nanoseconds after the Unix epoch, in UTC.
pub uninterp spec fn offset_time_text(fmt: Seq<char>, nanos: int) -> Seq<char>;

/// Relies on `str::to_lowercase`: the result depends on the characters alone.
#[verifier::external_body]
fn lowercase(s: &str) -> (r: String)
    ensures
        r@ == lower_of(s@),
{
    s.to_lowercase()
}

/// Relies on `rustix::system::uname`: the host, system and machine names.
#[verifier::external_body]
fn host_info() -> HostInfo {
    let info = rustix::system::uname();
    HostInfo {
        node: info.nodename().to_string_lossy().into_owned(),
        system: info.sysname().to_string_lossy().into_owned(),
        machine: info.machine().to_string_lossy().into_owned(),
    }
}

/// Relies on `rustix::time::clock_gettime` on the monotonic clock.
#[verifier::external_body]
fn monotonic_now() -> ClockReading {
    let ts = rustix::time::clock_gettime(ClockId::Monotonic);
    ClockReading { secs: ts.tv_sec as i64, nanos: ts.tv_nsec as i64 }
}

/// Whether chrono reads the pattern `fmt` without an invalid item. For a
/// full date, time and offset, formatting fails only on such an item.
pub uninterp spec fn pattern_ok(fmt: Seq<char>) -> bool;

/// The text that the pattern `fmt` gives for the instant `nanos`
/// nanoseconds after the Unix epoch, shown at the offset of `offset_secs`
/// seconds from UTC.
pub uninterp spec fn local_time_text(fmt: Seq<char>, nanos: int, offset_secs: int) -> Seq<char>;

/// Relies on `Local::now` and `DelayedFormat::write_to` of chrono: appends
/// the local time now as the pattern `fmt` gives it; `false` when the
/// pattern has an invalid item, after appending what came before it. The
/// header's pattern `%F %T %z` is valid.
#[verifier::external_body]
fn write_local_time(fmt: &str, out: &mut String) -> (ok: bool)
    ensures
        old(out)@.is_prefix_of(final(out)@),
        ok == pattern_ok(fmt@),
        fmt@ == "%F %T %z"@ ==> ok,
        ok ==> exists|nanos: int, offset_secs: int|
            final(out)@ == old(out)@ + #[trigger] local_time_text(fmt@, nanos, offset_secs),
{
    Local::now().format(fmt).write_to(out).is_ok()
}

/// Relies on `DateTime::UNIX_EPOCH`, `TimeDelta::nanoseconds` and
/// `DelayedFormat::write_to` of chrono: appends the instant `nanos` after
/// the epoch, in UTC, as the pattern `fmt` gives it; `false` when the
/// pattern has an invalid item, after appending what came before it.
#[verifier::external_body]
fn write_offset_time(fmt: &str, nanos: u64, out: &mut String) -> (ok: bool)
    requires
        nanos <= MAX_NANOS,
    ensures
        old(out)@.is_prefix_of(final(out)@),
        ok == pattern_ok(fmt@),
        ok ==> final(out)@ == old(out)@ + offset_time_text(fmt@, nanos as int),
{
    let t = DateTime::UNIX_EPOCH + TimeDelta::nanoseconds(nanos as i64);
    t.format(fmt).write_to(out).is_ok()
}

/// The words of a command line joined by single spaces.
pub open spec fn joined(words: Seq<Seq<char>>) -> Seq<char>
    decreases words.len(),
{
    if words.len() == 0 {
        Seq::empty()
    } else if words.len() == 1 {
        words[0]
    } else {
        joined(words.drop_last()) + seq![' '] + words.last()
    }
}

/// The views of a list of strings.
pub open spec fn views(words: Seq<String>) -> Seq<Seq<char>> {
    words.map_values(|w: String| w@)
}

/// The header line.
pub open spec fn header_text(
    node: Seq<char>,
    system: Seq<char>,
    machine: Seq<char>,
    time: Seq<char>,
    command: Seq<char>,
) -> Seq<char> {
    "# HOST=["@ + node + "] OS=["@ + system + "_"@ + machine + "] TIME=["@ + time + "] CMD=["@
        + command + "]\n"@
}

/// A clock reading in nanoseconds, capped at `MAX_NANOS`; a reading
/// before the clock's origin counts as zero.
pub open spec fn reading_nanos(r: ClockReading) -> int {
    if r.secs < 0 || r.nanos < 0 {
        0
    } else if r.secs * 1_000_000_000 + r.nanos > MAX_NANOS {
        MAX_NANOS as int
    } else {
        r.secs * 1_000_000_000 + r.nanos
    }
}

/// Convert a clock reading to nanoseconds.
pub fn to_nanos(r: ClockReading) -> (n: u64)
    ensures
        n == reading_nanos(r),
        n <= MAX_NANOS,
{
    if r.secs < 0 || r.nanos < 0 {
        return 0;
    }
    let secs = r.secs as u64;
    let nanos = r.nanos as u64;
    if secs > MAX_NANOS / 1_000_000_000 {
        assert(r.secs * 1_000_000_000 + r.nanos > MAX_NANOS) by (nonlinear_arith)
            requires
                secs > MAX_NANOS / 1_000_000_000,
                secs == r.secs,
                nanos == r.nanos,
                nanos >= 0,
        ;
        return MAX_NANOS;
    }
    assert(secs * 1_000_000_000 <= MAX_NANOS) by (nonlinear_arith)
        requires
            secs <= MAX_NANOS / 1_000_000_000,
    ;
    let whole = secs * 1_000_000_000;
    if nanos > MAX_NANOS - whole {
        MAX_NANOS
    } else {
        whole + nanos
    }
}

/// Append `s` to `out`.
fn append_str(out: &mut String, s: &str)
    ensures
        final(out)@ == old(out)@ + s@,
{
    out.append(s);
}

/// The header line for the given host, time and command.
pub fn header_line(node: &str, system: &str, machine: &str, time: &str, command: &str) -> (r:
    String)
    ensures
        r@ == header_text(node@, system@, machine@, time@, command@),
{
    let mut r = String::new();
    append_str(&mut r, "# HOST=[");
    append_str(&mut r, node);
    append_str(&mut r, "] OS=[");
    append_str(&mut r, system);
    append_str(&mut r, "_");
    append_str(&mut r, machine);
    append_str(&mut r, "] TIME=[");
    append_str(&mut r, time);
    append_str(&mut r, "] CMD=[");
    append_str(&mut r, command);
    append_str(&mut r, "]\n");
    assert(r@ =~= header_text(node@, system@, machine@, time@, command@));
    r
}

/// Join the words of a command line with single spaces.
pub fn join_words(words: &[String]) -> (r: String)
    ensures
        r@ == joined(views(words@)),
{
    let mut r = String::new();
    let mut i: usize = 0;
    while i < words.len()
        invariant
            i <= words@.len(),
            r@ == joined(views(words@.take(i as int))),
        decreases words@.len() - i,
    {
        let ghost prev = words@.take(i as int);
        let ghost next = words@.take(i as int + 1);
        assert(views(next).drop_last() =~= views(prev));
        if i > 0 {
            append_str(&mut r, " ");
            proof {
                reveal_strlit(" ");
            }
        }
        append_str(&mut r, words[i].as_str());
        proof {
            assert(views(next).last() == words@[i as int]@);
            assert(r@ =~= joined(views(next)));
        }
        i = i + 1;
    }
    assert(words@.take(words@.len() as int) =~= words@);
    r
}

/// Formats the extras of the output: a header line and timestamps.
pub struct Formatter {
    enable_header: bool,
    enable_time: bool,
    time_format: String,
    time_source: TimeSource,
    command: String,
    base_ts: Option<u64>,
}

/// The offset that a timestamp shows at clock value `now`, and the base
/// that the formatter keeps afterwards: elapsed time counts from the first
/// timestamp, delta time from the previous one.
pub open spec fn clock_step(src: TimeSource, base: Option<u64>, now: u64) -> (u64, Option<u64>) {
    let b = match base {
        Some(b) => b,
        None => now,
    };
    let offset = if now >= b {
        (now - b) as u64
    } else {
        0
    };
    (offset, if src == TimeSource::Delta {
        Some(now)
    } else {
        Some(b)
    })
}

/// `after` is `before` followed by the header line for `command`, with the
/// local time now in the pattern `%F %T %z`.
pub open spec fn header_appended(command: Seq<char>, before: Seq<char>, after: Seq<char>) -> bool {
    exists|
        node: Seq<char>,
        system: Seq<char>,
        machine: Seq<char>,
        nanos: int,
        offset_secs: int,
    |
        after == before + #[trigger] header_text(
            node,
            lower_of(system),
            machine,
            local_time_text("%F %T %z"@, nanos, offset_secs),
            command,
        )
}

/// What writing a timestamp does, from formatter `f0` and text `t0` to
/// formatter `f1` and text `t1`, with `ok` telling success: it succeeds
/// exactly when the pattern is valid; it only appends; a wall-clock stamp
/// shows the local time now; an elapsed or delta stamp shows the offset that
/// `clock_step` gives for some reading of the monotonic clock, which becomes
/// the new base.
pub open spec fn timestamp_appended(
    f0: Formatter,
    f1: Formatter,
    t0: Seq<char>,
    t1: Seq<char>,
    ok: bool,
) -> bool {
    &&& ok == pattern_ok(f0.format_spec())
    &&& t0.is_prefix_of(t1)
    &&& (f0.source() == TimeSource::Wall ==> {
        &&& f1.base() == f0.base()
        &&& (ok ==> exists|nanos: int, offset_secs: int|
            t1 == t0 + #[trigger] local_time_text(f0.format_spec(), nanos, offset_secs))
    })
    &&& (f0.source() != TimeSource::Wall ==> exists|now: u64|
        {
            let (offset, base) = #[trigger] clock_step(f0.source(), f0.base(), now);
            &&& now <= MAX_NANOS
            &&& f1.base() == base
            &&& (ok ==> t1 == t0 + offset_time_text(f0.format_spec(), offset as int))
        })
}

impl Formatter {
    /// Whether the header is still to be written.
    pub closed spec fn header_pending(&self) -> bool {
        self.enable_header
    }

    /// Whether lines get timestamps.
    pub closed spec fn timestamps(&self) -> bool {
        self.enable_time
    }

    pub closed spec fn format_spec(&self) -> Seq<char> {
        self.time_format@
    }

    pub closed spec fn source(&self) -> TimeSource {
        self.time_source
    }

    /// The command line, as it appears in the header.
    pub closed spec fn command_spec(&self) -> Seq<char> {
        self.command@
    }

    /// The clock value that timestamps count from, once there is one.
    pub closed spec fn base(&self) -> Option<u64> {
        self.base_ts
    }

    pub closed spec fn wf(&self) -> bool {
        self.base_ts matches Some(b) ==> b <= MAX_NANOS
    }

    /// Construct a formatter.
    pub fn new(
        enable_header: bool,
        enable_time: bool,
        time_format: &str,
        time_source: TimeSource,
        command: &[String],
    ) -> (r: Self)
        ensures
            r.wf(),
            r.header_pending() == enable_header,
            r.timestamps() == enable_time,
            r.format_spec() == time_format@,
            r.source() == time_source,
            r.command_spec() == joined(views(command@)),
            r.base() is None,
    {
        Formatter {
            enable_header,
            enable_time,
            time_format: String::from_str(time_format),
            time_source,
            command: join_words(command),
            base_ts: None,
        }
    }

    /// True if the header should be formatted.
    pub fn need_header(&self) -> (r: bool)
        ensures
            r == self.header_pending(),
    {
        self.enable_header
    }

    /// True if lines get timestamps.
    pub fn need_timestamp(&self) -> (r: bool)
        ensures
            r == self.timestamps(),
    {
        self.enable_time
    }

    /// Advance the timestamp clock to `now` and give the offset to show.
    pub fn clock_offset(&mut self, now: u64) -> (offset: u64)
        requires
            old(self).wf(),
            now <= MAX_NANOS,
        ensures
            final(self).wf(),
            (offset, final(self).base()) == clock_step(old(self).source(), old(self).base(), now),
            offset <= MAX_NANOS,
            final(self).header_pending() == old(self).header_pending(),
            final(self).timestamps() == old(self).timestamps(),
            final(self).format_spec() == old(self).format_spec(),
            final(self).source() == old(self).source(),
            final(self).command_spec() == old(self).command_spec(),
    {
        let base = match self.base_ts {
            Some(b) => b,
            None => now,
        };
        self.base_ts = Some(base);
        let offset = if now >= base {
            now - base
        } else {
            0
        };
        if self.time_source == TimeSource::Delta {
            self.base_ts = Some(now);
        }
        offset
    }

    /// Append the header line to `result` and latch it as written.
    pub fn format_header(&mut self, result: &mut String) -> (r: Result<(), FormatError>)
        requires
            old(self).wf(),
        ensures
            final(self).wf(),
            !final(self).header_pending(),
            final(self).timestamps() == old(self).timestamps(),
            final(self).format_spec() == old(self).format_spec(),
            final(self).source() == old(self).source(),
            final(self).command_spec() == old(self).command_spec(),
            final(self).base() == old(self).base(),
            r is Ok,
            header_appended(old(self).command_spec(), old(result)@, final(result)@),
    {
        let mut date = String::new();
        let ok = write_local_time("%F %T %z", &mut date);
        self.enable_header = false;
        if !ok {
            return Err(FormatError);
        }
        let info = host_info();
        let system = lowercase(info.system.as_str());
        let line = header_line(
            info.node.as_str(),
            system.as_str(),
            info.machine.as_str(),
            date.as_str(),
            self.command.as_str(),
        );
        append_str(result, line.as_str());
        let ghost (nanos, offset_secs) = choose|nanos: int, offset_secs: int|
            date@ == Seq::<char>::empty() + #[trigger] local_time_text("%F %T %z"@, nanos, offset_secs);
        assert(date@ == local_time_text("%F %T %z"@, nanos, offset_secs));
        assert(result@ == old(result)@ + header_text(
            info.node@,
            lower_of(info.system@),
            info.machine@,
            local_time_text("%F %T %z"@, nanos, offset_secs),
            old(self).command_spec(),
        ));
        Ok(())
    }

    /// Append the timestamp of a line to `result`.
    pub fn format_timestamp(&mut self, result: &mut String) -> (r: Result<(), FormatError>)
        requires
            old(self).wf(),
        ensures
            final(self).wf(),
            final(self).header_pending() == old(self).header_pending(),
            final(self).timestamps() == old(self).timestamps(),
            final(self).format_spec() == old(self).format_spec(),
            final(self).source() == old(self).source(),
            final(self).command_spec() == old(self).command_spec(),
            timestamp_appended(*old(self), *final(self), old(result)@, final(result)@, r is Ok),
    {
        match self.time_source {
            TimeSource::Wall => {
                if write_local_time(self.time_format.as_str(), result) {
                    Ok(())
                } else {
                    Err(FormatError)
                }
            },
            TimeSource::Elapsed | TimeSource::Delta => {
                let now = to_nanos(monotonic_now());
                let offset = self.clock_offset(now);
                if write_offset_time(self.time_format.as_str(), offset, result) {
                    Ok(())
                } else {
                    Err(FormatError)
                }
            },
        }
    }

    /// Start a buffer of output: the header when it is pending (the buffer
    /// then holds the header alone, and `Ok(true)` says so), else the
    /// timestamp when lines get timestamps, else nothing.
    pub fn format_prefix(&mut self, result: &mut String) -> (r: Result<bool, FormatError>)
        requires
            old(self).wf(),
        ensures
            final(self).wf(),
            !final(self).header_pending(),
            final(self).timestamps() == old(self).timestamps(),
            final(self).format_spec() == old(self).format_spec(),
            final(self).source() == old(self).source(),
            final(self).command_spec() == old(self).command_spec(),
            old(self).header_pending() ==> (r matches Ok(true)) && final(self).base() == old(
                self,
            ).base() && header_appended(old(self).command_spec(), old(result)@, final(result)@),
            !old(self).header_pending() && !old(self).timestamps() ==> (r matches Ok(false))
                && final(result)@ == old(result)@ && final(self).base() == old(self).base(),
            !old(self).header_pending() && old(self).timestamps() ==> !(r matches Ok(true))
                && timestamp_appended(*old(self), *final(self), old(result)@, final(result)@, r is Ok),
    {
        if self.need_header() {
            match self.format_header(result) {
                Ok(()) => Ok(true),
                Err(e) => Err(e),
            }
        } else {
            if self.need_timestamp() {
                match self.format_timestamp(result) {
                    Ok(()) => Ok(false),
                    Err(e) => Err(e),
                }
            } else {
                Ok(false)
            }
        }
    }
}

/// Elapsed timestamps never go back: with a clock that does not go back,
/// each offset is at least the previous one.
pub proof fn lemma_elapsed_monotone(base: Option<u64>, now1: u64, now2: u64)
    requires
        base matches Some(b) ==> b <= now1,
        now1 <= now2,
    ensures
        ({
            let (o1, b1) = clock_step(TimeSource::Elapsed, base, now1);
            let (o2, b2) = clock_step(TimeSource::Elapsed, b1, now2);
            o1 <= o2 && b2 == b1
        }),
{
}

/// Delta timestamps show the time since the previous one: with a clock
/// that does not go back, the offset is the exact, nonnegative difference
/// between two successive clock values.
pub proof fn lemma_delta_nonnegative(base: Option<u64>, now1: u64, now2: u64)
    requires
        now1 <= now2,
    ensures
        ({
            let (o1, b1) = clock_step(TimeSource::Delta, base, now1);
            let (o2, b2) = clock_step(TimeSource::Delta, b1, now2);
            o2 == now2 - now1 && o2 >= 0 && b2 == Some(now2)
        }),
{
}

} // verus!
