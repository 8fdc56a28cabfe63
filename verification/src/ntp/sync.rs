//! The shared-memory channel of the time daemon, the clock that reads it, and
//! the probe of the daemon's synchronisation status.
//!
//! Nothing here touches the operating system. The caller attaches the
//! segment, runs the status command and waits; this module says what to ask
//! for and what each answer means.

use crate::error::ClockError;
use crate::error::ProbeError;
use crate::error::ShmError;
use crate::text::contains;
use crate::text::contains_text;
use crate::text::first_comma;
use crate::text::join_text;
use crate::text::lemma_first_comma;
use crate::text::range_starts_with;
use crate::text::read_i8;
use crate::text::read_u8;
use crate::text::signed_numeral;
use crate::text::slice_text;
use crate::text::starts_with_text;
use crate::text::to_chars;
use crate::text::trim_bounds;
use crate::text::trim_text;
use crate::text::unsigned_numeral;
use crate::time::unix::read_clock;
use crate::time::unix::NANOS_PER_SECOND;
use vstd::prelude::*;

verus! {

/// The size of the segment, in bytes.
pub const NTP_SHM_SIZE: usize = 96;

/// The key of the segment of unit 0; the unit number is added to it.
pub const NTP_SHM_BASE_KEY: i32 = 0x4e54_5030;

/// The greatest unit number.
pub const NTP_SHM_MAX_UNIT: u8 = 3;

/// The seconds after which a status command is given up.
pub const PROBE_TIMEOUT_SECS: u64 = 2;

/// The seconds between two looks at the synchronisation while waiting for it.
pub const SYNC_POLL_SECS: u64 = 1;

/// The record that the time daemon keeps in the shared segment.
#[derive(Debug, Clone, Copy)]
pub struct NtpShmTime {
    /// 0: both sides read and write; 1: the daemon writes, this side reads.
    pub mode: i32,
    /// Raised by the writer with every update.
    pub count: i32,
    /// The clock's time stamp: seconds.
    pub clock_time_sec: i64,
    /// The clock's time stamp: microseconds.
    pub clock_time_usec: i32,
    /// When the time stamp was received: seconds.
    pub receive_time_sec: i64,
    /// When the time stamp was received: microseconds.
    pub receive_time_usec: i32,
    /// The leap-second indicator.
    pub leap: i32,
    /// The precision of the clock, as a power of two of a second.
    pub precision: i32,
    /// The number of samples.
    pub nsamples: i32,
    /// 0: the record is not to be used; 1: it is.
    pub valid: i32,
    /// The clock's time stamp: nanoseconds.
    pub clock_time_stamp_nsec: u32,
    /// When the time stamp was received: nanoseconds.
    pub receive_time_stamp_nsec: u32,
    /// Kept free.
    pub dummy: [i32; 8],
}

impl NtpShmTime {
    /// The record as a segment holds it that nobody has written to.
    pub open spec fn is_fresh(&self) -> bool {
        self.mode == 0 && self.count == 0
    }

    /// What a reader takes from the record: nothing while the validity flag is
    /// 0, else the seconds and nanoseconds of the clock's time stamp and
    /// whether the flag is exactly 1.
    pub open spec fn reading(&self) -> Option<(i64, u32, bool)> {
        if self.valid == 0 {
            None
        } else {
            Some((self.clock_time_sec, self.clock_time_stamp_nsec, self.valid == 1))
        }
    }

    /// The record is the one that this side writes into a fresh segment: the
    /// daemon writes, this side reads; microsecond precision; nothing valid
    /// yet; all else zero.
    pub open spec fn is_initial(&self) -> bool {
        &&& self.mode == 1
        &&& self.count == 0
        &&& self.clock_time_sec == 0
        &&& self.clock_time_usec == 0
        &&& self.receive_time_sec == 0
        &&& self.receive_time_usec == 0
        &&& self.leap == 0
        &&& self.precision == -20
        &&& self.nsamples == 0
        &&& self.valid == 0
        &&& self.clock_time_stamp_nsec == 0
        &&& self.receive_time_stamp_nsec == 0
        &&& forall|i: int| 0 <= i < 8 ==> self.dummy[i] == 0
    }

    /// The record that this side writes into a fresh segment.
    pub fn initial() -> (r: NtpShmTime)
        ensures
            r.is_initial(),
    {
        NtpShmTime {
            mode: 1,
            count: 0,
            clock_time_sec: 0,
            clock_time_usec: 0,
            receive_time_sec: 0,
            receive_time_usec: 0,
            leap: 0,
            precision: -20,
            nsamples: 0,
            valid: 0,
            clock_time_stamp_nsec: 0,
            receive_time_stamp_nsec: 0,
            dummy: [0;8],
        }
    }

    /// Whether the record is that of a segment that nobody has written to.
    pub fn needs_init(&self) -> (r: bool)
        ensures
            r == self.is_fresh(),
    {
        self.mode == 0 && self.count == 0
    }

    /// The time stamp that the record publishes, if it publishes one.
    pub fn read_time(&self) -> (r: Option<(i64, u32, bool)>)
        ensures
            r == self.reading(),
    {
        if self.valid == 0 {
            None
        } else {
            Some((self.clock_time_sec, self.clock_time_stamp_nsec, self.valid == 1))
        }
    }

    /// The time stamp that the record publishes, taken only where the writer
    /// was at rest while the record was read: `count_before` is the counter
    /// of the segment as it was read before the record, `count_after` as it
    /// was read after it. Where the two differ the writer has been at work,
    /// and nothing is taken.
    pub fn read_time_checked(&self, count_before: i32, count_after: i32) -> (r: Option<
        (i64, u32, bool),
    >)
        ensures
            r == if count_before == count_after {
                self.reading()
            } else {
                None
            },
    {
        if count_before == count_after {
            self.read_time()
        } else {
            None
        }
    }

    /// Whether the validity flag is 1.
    pub fn is_valid(&self) -> (r: bool)
        ensures
            r == (self.valid == 1),
    {
        self.valid == 1
    }
}

/// What to ask the operating system for, to reach the segment of a unit.
#[derive(Debug, Clone, Copy)]
pub struct SegmentRequest {
    pub key: i32,
    pub size: usize,
}

/// The channel to the segment of one unit: which segment it is, and the
/// record that was last seen in it.
#[derive(Debug)]
pub struct NtpShmInterface {
    shm_id: i32,
    unit: u8,
    segment: NtpShmTime,
}

impl NtpShmInterface {
    /// The identifier of the attached segment.
    pub closed spec fn id_of(&self) -> i32 {
        self.shm_id
    }

    /// The unit of the channel.
    pub closed spec fn unit_of(&self) -> u8 {
        self.unit
    }

    /// The record that was last seen in the segment.
    pub closed spec fn segment_of(&self) -> NtpShmTime {
        self.segment
    }

    /// The channel is one that an attachment gives: of a unit from 0 to 3,
    /// with an identifier that is not negative.
    pub open spec fn wf(&self) -> bool {
        self.unit_of() <= NTP_SHM_MAX_UNIT && self.id_of() >= 0
    }

    /// What to ask the operating system for, to reach the segment of `unit`.
    ///
    /// Fails with `InvalidUnit` where the unit is greater than 3, and on no
    /// other occasion.
    pub fn request(unit: u8) -> (r: Result<SegmentRequest, ShmError>)
        ensures
            match r {
                Ok(request) => unit <= NTP_SHM_MAX_UNIT && request.key == NTP_SHM_BASE_KEY + unit
                    && request.size == NTP_SHM_SIZE,
                Err(e) => unit > NTP_SHM_MAX_UNIT && e == ShmError::InvalidUnit,
            },
    {
        if unit > NTP_SHM_MAX_UNIT {
            return Err(ShmError::InvalidUnit);
        }
        Ok(SegmentRequest { key: NTP_SHM_BASE_KEY + unit as i32, size: NTP_SHM_SIZE })
    }

    /// The channel to the segment of `unit`, from what the operating system
    /// answered: `shm_id` is the identifier it gave for the segment, negative
    /// where it gave none; `mapped` is the record that was found in the
    /// segment once attached, `None` where it could not be attached.
    ///
    /// A record that nobody has written to is replaced by the initial one,
    /// which the caller then writes into the segment.
    ///
    /// Fails with `InvalidUnit` where the unit is greater than 3; else with
    /// `SegmentCreateFailed` where the identifier is negative; else with
    /// `SegmentAttachFailed` where there is no record.
    pub fn new(unit: u8, shm_id: i32, mapped: Option<NtpShmTime>) -> (r: Result<
        NtpShmInterface,
        ShmError,
    >)
        ensures
            match r {
                Ok(channel) => {
                    &&& unit <= NTP_SHM_MAX_UNIT && shm_id >= 0
                    &&& mapped matches Some(found) && if found.is_fresh() {
                        channel.segment_of().is_initial()
                    } else {
                        channel.segment_of() == found
                    }
                    &&& channel.unit_of() == unit
                    &&& channel.id_of() == shm_id
                    &&& channel.wf()
                },
                Err(ShmError::InvalidUnit) => unit > NTP_SHM_MAX_UNIT,
                Err(ShmError::SegmentCreateFailed) => unit <= NTP_SHM_MAX_UNIT && shm_id < 0,
                Err(ShmError::SegmentAttachFailed) => unit <= NTP_SHM_MAX_UNIT && shm_id >= 0
                    && mapped is None,
            },
    {
        if unit > NTP_SHM_MAX_UNIT {
            return Err(ShmError::InvalidUnit);
        }
        if shm_id < 0 {
            return Err(ShmError::SegmentCreateFailed);
        }
        match mapped {
            None => Err(ShmError::SegmentAttachFailed),
            Some(found) => {
                let segment = if found.needs_init() {
                    NtpShmTime::initial()
                } else {
                    found
                };
                Ok(NtpShmInterface { shm_id, unit, segment })
            },
        }
    }

    /// Takes note of the record that the segment holds now.
    pub fn observe(&mut self, segment: NtpShmTime)
        ensures
            final(self).segment_of() == segment,
            final(self).unit_of() == old(self).unit_of(),
            final(self).id_of() == old(self).id_of(),
    {
        self.segment = segment;
    }

    /// Takes note of a look at the segment: `count_before` is the counter of
    /// the writer as it was read before the record `segment`, `count_after`
    /// as it was read after it. Where the two agree the record is taken as
    /// it is. Where they differ the writer was at work while the record was
    /// read, and the record is taken as one that is not to be used: with the
    /// validity flag 0.
    pub fn observe_checked(&mut self, count_before: i32, segment: NtpShmTime, count_after: i32)
        ensures
            final(self).segment_of() == if count_before == count_after {
                segment
            } else {
                NtpShmTime { valid: 0, ..segment }
            },
            final(self).unit_of() == old(self).unit_of(),
            final(self).id_of() == old(self).id_of(),
    {
        if count_before == count_after {
            self.segment = segment;
        } else {
            self.segment = NtpShmTime { valid: 0, ..segment };
        }
    }

    /// The time stamp that the daemon last published: `None` while the
    /// validity flag is 0.
    pub fn read_time(&self) -> (r: Option<(i64, u32, bool)>)
        ensures
            r == self.segment_of().reading(),
    {
        self.segment.read_time()
    }

    /// The unit of the channel.
    pub fn unit(&self) -> (r: u8)
        ensures
            r == self.unit_of(),
    {
        self.unit
    }

    /// The identifier of the attached segment, which the caller detaches.
    pub fn shm_id(&self) -> (r: i32)
        ensures
            r == self.id_of(),
    {
        self.shm_id
    }

    /// The record that was last seen in the segment.
    pub fn segment(&self) -> (r: NtpShmTime)
        ensures
            r == self.segment_of(),
    {
        self.segment
    }

    /// Whether the record that was last seen is valid.
    pub fn is_valid(&self) -> (r: bool)
        ensures
            r == (self.segment_of().valid == 1),
    {
        self.segment.is_valid()
    }
}

/// The signals by which a container is recognised, as the caller found them.
#[derive(Debug, Clone, Copy)]
pub struct ProbeEnvironment {
    /// The marker file of a container exists.
    pub container_marker: bool,
    /// The orchestrator has announced its service host.
    pub orchestrator_host: bool,
    /// The platform has named the container application.
    pub container_app: bool,
    /// The operator has asked for the probe to be skipped.
    pub skip_requested: bool,
}

/// The two questions that are put to the time daemon.
#[derive(Debug, Clone, Copy, PartialEq, Eq)]
pub enum ProbeCommand {
    /// The table of peers, with numeric addresses.
    PeerList,
    /// The system variables.
    SystemVariables,
}

/// How a run of a status command ended.
#[derive(Debug, Clone)]
pub enum ProbeOutcome {
    /// The command ran; this is what it printed.
    Completed(String),
    /// There is no such command on this machine.
    NotFound,
    /// The command did not end in time.
    TimedOut,
    /// The command could not be run; this is why.
    Failed(String),
}

/// The synchronisation status of the time daemon.
///
/// The offset, the root delay and the root dispersion are carried as the
/// decimal texts that the daemon printed, empty where it printed none: the
/// caller reads them as numbers, and takes zero for a text that is none.
#[derive(Debug, Clone)]
pub struct NtpStatusReport {
    pub synced: bool,
    pub offset_ms: String,
    pub stratum: u8,
    pub precision: i8,
    pub root_delay: String,
    pub root_dispersion: String,
    pub shm_valid: bool,
    pub pps_enabled: bool,
}

/// The variables that are read from the daemon's list of system variables.
#[derive(Debug, Clone)]
pub struct StatusVariables {
    pub offset: String,
    pub stratum: u8,
    pub precision: i8,
    pub root_delay: String,
    pub root_dispersion: String,
}

/// The values of the status variables.
pub struct VariableValues {
    pub offset: Seq<char>,
    pub stratum: u8,
    pub precision: i8,
    pub root_delay: Seq<char>,
    pub root_dispersion: Seq<char>,
}

/// What is done next in a probe.
#[derive(Debug)]
pub enum StatusStep {
    /// The probe has ended, with this result.
    Finished(Result<NtpStatusReport, ProbeError>),
    /// This command is to be run, for at most `PROBE_TIMEOUT_SECS` seconds.
    Probe(ProbeCommand),
}

/// What is done next in a check of the synchronisation.
#[derive(Debug)]
pub enum SyncStep {
    /// The check has ended, with this result.
    Finished(Result<bool, ProbeError>),
    /// This command is to be run, for at most `PROBE_TIMEOUT_SECS` seconds.
    Probe(ProbeCommand),
}

/// What is done next while waiting for the synchronisation.
#[derive(Debug, Clone)]
pub enum WaitStep {
    /// The daemon is synchronised.
    Synced,
    /// The wait has ended without synchronisation, for this reason.
    GaveUp(ProbeError),
    /// The check is to be made again after `SYNC_POLL_SECS` seconds.
    Retry,
}

/// The values that the variables have where the daemon names none: stratum
/// 16, which stands for a clock that is not synchronised, and nothing else.
pub open spec fn default_values() -> VariableValues {
    VariableValues {
        offset: Seq::empty(),
        stratum: 16,
        precision: 0,
        root_delay: Seq::empty(),
        root_dispersion: Seq::empty(),
    }
}

/// The values after `part`, an entry of the list without the white space
/// round it, has been read: an entry that begins with the name of a variable
/// and `=` sets that variable to what follows; a stratum or a precision that
/// is no number of its type falls back to 16 or to 0; any other entry changes
/// nothing.
pub open spec fn apply_variable(values: VariableValues, part: Seq<char>) -> VariableValues {
    if starts_with_text(part, "offset="@) {
        VariableValues { offset: part.skip("offset="@.len() as int), ..values }
    } else if starts_with_text(part, "stratum="@) {
        VariableValues {
            stratum: match unsigned_numeral(part.skip("stratum="@.len() as int), u8::MAX as int) {
                Some(n) => n as u8,
                None => 16,
            },
            ..values
        }
    } else if starts_with_text(part, "precision="@) {
        VariableValues {
            precision: match signed_numeral(
                part.skip("precision="@.len() as int),
                i8::MAX as int,
            ) {
                Some(n) => n as i8,
                None => 0,
            },
            ..values
        }
    } else if starts_with_text(part, "rootdelay="@) {
        VariableValues { root_delay: part.skip("rootdelay="@.len() as int), ..values }
    } else if starts_with_text(part, "rootdisp="@) {
        VariableValues { root_dispersion: part.skip("rootdisp="@.len() as int), ..values }
    } else {
        values
    }
}

/// The values after the list `s`, whose entries are parted by commas, has
/// been read from left to right, starting from `values`: a later entry
/// overrides an earlier one for the same variable.
pub open spec fn read_variables(s: Seq<char>, values: VariableValues) -> VariableValues
    decreases s.len(),
{
    let k = first_comma(s) as int;
    let next = apply_variable(values, trim_text(s.take(k)));
    if k >= s.len() {
        next
    } else {
        read_variables(s.skip(k + 1), next)
    }
}

/// Whether a line of `table` begins at `at`, and begins with `*`. A line
/// begins at the start of the table and after every line feed.
pub open spec fn star_begins_line(table: Seq<char>, at: int) -> bool {
    &&& 0 <= at < table.len()
    &&& table[at] == '*'
    &&& at == 0 || table[at - 1] == '\n'
}

/// Whether a table of peers marks one peer as the one the daemon follows: a
/// line of the table begins with `*`.
pub open spec fn peer_selected(table: Seq<char>) -> bool {
    exists|at: int| star_begins_line(table, at)
}

/// Whether the output speaks of a pulse-per-second source.
pub open spec fn mentions_pps(output: Seq<char>) -> bool {
    contains_text(output, "pps"@) || contains_text(output, "PPS"@)
}

impl StatusVariables {
    /// The values of the variables.
    pub open spec fn values(&self) -> VariableValues {
        VariableValues {
            offset: self.offset@,
            stratum: self.stratum,
            precision: self.precision,
            root_delay: self.root_delay@,
            root_dispersion: self.root_dispersion@,
        }
    }

    /// The variables where the daemon names none.
    pub fn defaults() -> (r: StatusVariables)
        ensures
            r.values() == default_values(),
    {
        StatusVariables {
            offset: String::new(),
            stratum: 16,
            precision: 0,
            root_delay: String::new(),
            root_dispersion: String::new(),
        }
    }

    /// Reads one entry of the list: the characters of `output` from `start`
    /// up to `end`, which are those of `chars`.
    fn apply(&mut self, output: &str, chars: &Vec<char>, start: usize, end: usize)
        requires
            start <= end <= chars.len(),
            output@ == chars@,
        ensures
            final(self).values() == apply_variable(
                old(self).values(),
                chars@.subrange(start as int, end as int),
            ),
    {
        let ghost part = chars@.subrange(start as int, end as int);
        let offset_name = to_chars("offset=");
        let stratum_name = to_chars("stratum=");
        let precision_name = to_chars("precision=");
        let delay_name = to_chars("rootdelay=");
        let dispersion_name = to_chars("rootdisp=");
        if range_starts_with(chars, start, end, &offset_name) {
            let from = start + offset_name.len();
            assert(part.skip(offset_name@.len() as int) =~= chars@.subrange(
                from as int,
                end as int,
            ));
            self.offset = slice_text(output, from, end);
        } else if range_starts_with(chars, start, end, &stratum_name) {
            let from = start + stratum_name.len();
            assert(part.skip(stratum_name@.len() as int) =~= chars@.subrange(
                from as int,
                end as int,
            ));
            self.stratum = match read_u8(chars, from, end) {
                Some(n) => n,
                None => 16,
            };
        } else if range_starts_with(chars, start, end, &precision_name) {
            let from = start + precision_name.len();
            assert(part.skip(precision_name@.len() as int) =~= chars@.subrange(
                from as int,
                end as int,
            ));
            self.precision = match read_i8(chars, from, end) {
                Some(n) => n,
                None => 0,
            };
        } else if range_starts_with(chars, start, end, &delay_name) {
            let from = start + delay_name.len();
            assert(part.skip(delay_name@.len() as int) =~= chars@.subrange(
                from as int,
                end as int,
            ));
            self.root_delay = slice_text(output, from, end);
        } else if range_starts_with(chars, start, end, &dispersion_name) {
            let from = start + dispersion_name.len();
            assert(part.skip(dispersion_name@.len() as int) =~= chars@.subrange(
                from as int,
                end as int,
            ));
            self.root_dispersion = slice_text(output, from, end);
        }
    }

    /// Reads the variables out of the daemon's list of system variables: the
    /// entries are parted by commas and read from left to right.
    pub fn parse(output: &str) -> (r: StatusVariables)
        ensures
            r.values() == read_variables(output@, default_values()),
    {
        let chars = to_chars(output);
        let mut current = StatusVariables::defaults();
        let mut start: usize = 0;
        assert(chars@.skip(0) =~= chars@);
        loop
            invariant
                chars@ == output@,
                start <= chars.len(),
                read_variables(output@, default_values()) == read_variables(
                    chars@.skip(start as int),
                    current.values(),
                ),
            decreases chars.len() - start,
        {
            let ghost rest = chars@.skip(start as int);
            let mut end: usize = start;
            while end < chars.len() && chars[end] != ','
                invariant
                    start <= end <= chars.len(),
                    forall|i: int| start <= i < end ==> chars@[i] != ',',
                decreases chars.len() - end,
            {
                end += 1;
            }
            proof {
                lemma_first_comma(rest, end - start);
                assert(rest.take(end - start) =~= chars@.subrange(start as int, end as int));
            }
            let (from, to) = trim_bounds(&chars, start, end);
            current.apply(output, &chars, from, to);
            if end >= chars.len() {
                return current;
            }
            proof {
                assert(rest.skip(end - start + 1) =~= chars@.skip(end + 1));
            }
            start = end + 1;
        }
    }
}

/// Looks in a table of peers for a line that begins with `*`.
pub fn has_selected_peer(table: &str) -> (r: bool)
    ensures
        r == peer_selected(table@),
{
    let chars = to_chars(table);
    let mut at: usize = 0;
    let mut line_begins = true;
    while at < chars.len()
        invariant
            chars@ == table@,
            at <= chars.len(),
            line_begins == (at == 0 || chars@[at - 1] == '\n'),
            forall|j: int| 0 <= j < at ==> !star_begins_line(chars@, j),
        decreases chars.len() - at,
    {
        if line_begins && chars[at] == '*' {
            assert(star_begins_line(chars@, at as int));
            return true;
        }
        line_begins = chars[at] == '\n';
        at += 1;
    }
    false
}

/// Looks in the daemon's output for a mention of a pulse-per-second source.
pub fn has_pps(output: &str) -> (r: bool)
    ensures
        r == mentions_pps(output@),
{
    let chars = to_chars(output);
    contains(&chars, &to_chars("pps")) || contains(&chars, &to_chars("PPS"))
}

impl ProbeEnvironment {
    /// Whether any of the signals is present.
    pub open spec fn in_container(&self) -> bool {
        self.container_marker || self.orchestrator_host || self.container_app
            || self.skip_requested
    }
}

impl ProbeCommand {
    /// The program that answers the question.
    pub fn program(&self) -> (r: &'static str)
        ensures
            r@ == "ntpq"@,
    {
        "ntpq"
    }

    /// The two arguments that put the question.
    pub fn arguments(&self) -> (r: (&'static str, &'static str))
        ensures
            *self == ProbeCommand::PeerList ==> r.0@ == "-p"@ && r.1@ == "-n"@,
            *self == ProbeCommand::SystemVariables ==> r.0@ == "-c"@ && r.1@ == "rv"@,
    {
        match self {
            ProbeCommand::PeerList => ("-p", "-n"),
            ProbeCommand::SystemVariables => ("-c", "rv"),
        }
    }
}

impl NtpStatusReport {
    /// The status that is reported from inside a container, where the daemon
    /// is not asked: the host is taken to keep good time, at stratum 3.
    pub open spec fn is_container_status(&self) -> bool {
        &&& self.synced
        &&& self.offset_ms@.len() == 0
        &&& self.stratum == 3
        &&& self.precision == -20
        &&& self.root_delay@.len() == 0
        &&& self.root_dispersion@.len() == 0
        &&& !self.shm_valid
        &&& !self.pps_enabled
    }

    /// The status that is reported where the daemon gave no answer: not
    /// synchronised, at stratum 16, with the validity of the shared segment
    /// as the only thing known.
    pub open spec fn is_degraded_status(&self, shm_valid: bool) -> bool {
        &&& !self.synced
        &&& self.offset_ms@.len() == 0
        &&& self.stratum == 16
        &&& self.precision == 0
        &&& self.root_delay@.len() == 0
        &&& self.root_dispersion@.len() == 0
        &&& self.shm_valid == shm_valid
        &&& !self.pps_enabled
    }

    /// The status that is reported from the daemon's list of system
    /// variables `output`, with `synced` as what its table of peers showed.
    pub open spec fn is_status_of(&self, output: Seq<char>, synced: bool, shm_valid: bool) -> bool {
        let values = read_variables(output, default_values());
        &&& self.synced == synced
        &&& self.offset_ms@ == values.offset
        &&& self.stratum == values.stratum
        &&& self.precision == values.precision
        &&& self.root_delay@ == values.root_delay
        &&& self.root_dispersion@ == values.root_dispersion
        &&& self.shm_valid == shm_valid
        &&& self.pps_enabled == mentions_pps(output)
    }

    /// The status that is reported from inside a container.
    pub fn container() -> (r: NtpStatusReport)
        ensures
            r.is_container_status(),
    {
        NtpStatusReport {
            synced: true,
            offset_ms: String::new(),
            stratum: 3,
            precision: -20,
            root_delay: String::new(),
            root_dispersion: String::new(),
            shm_valid: false,
            pps_enabled: false,
        }
    }

    /// The status that is reported where the daemon gave no answer.
    pub fn degraded(shm_valid: bool) -> (r: NtpStatusReport)
        ensures
            r.is_degraded_status(shm_valid),
    {
        NtpStatusReport {
            synced: false,
            offset_ms: String::new(),
            stratum: 16,
            precision: 0,
            root_delay: String::new(),
            root_dispersion: String::new(),
            shm_valid,
            pps_enabled: false,
        }
    }

    /// The status that is reported from the daemon's list of system
    /// variables.
    pub fn from_output(output: &str, synced: bool, shm_valid: bool) -> (r: NtpStatusReport)
        ensures
            r.is_status_of(output@, synced, shm_valid),
    {
        let variables = StatusVariables::parse(output);
        NtpStatusReport {
            synced,
            offset_ms: variables.offset,
            stratum: variables.stratum,
            precision: variables.precision,
            root_delay: variables.root_delay,
            root_dispersion: variables.root_dispersion,
            shm_valid,
            pps_enabled: has_pps(output),
        }
    }
}

/// What a run of the peer-list command says of the synchronisation: a table
/// with a selected peer says that the daemon is synchronised; a table
/// without one, a missing command and a command that ran out of time say
/// that it is not; a command that could not be run says nothing, and is an
/// error.
pub open spec fn sync_verdict(outcome: ProbeOutcome) -> Option<bool> {
    match outcome {
        ProbeOutcome::Completed(table) => Some(peer_selected(table@)),
        ProbeOutcome::NotFound => Some(false),
        ProbeOutcome::TimedOut => Some(false),
        ProbeOutcome::Failed(_) => None,
    }
}

/// A clock that prefers the time that the daemon publishes in its shared
/// segment, and falls back to the system clock.
#[derive(Debug)]
pub struct NtpSyncedClock {
    pub shm: Option<NtpShmInterface>,
}

impl NtpSyncedClock {
    /// The time stamp that the channel is a source of: the seconds and the
    /// nanoseconds of the record, where there is a channel whose record is
    /// valid, that is whose validity flag is exactly 1.
    pub open spec fn published(&self) -> Option<(i64, u32)> {
        match self.shm {
            Some(channel) => if channel.segment_of().valid == 1 {
                Some(
                    (
                        channel.segment_of().clock_time_sec,
                        channel.segment_of().clock_time_stamp_nsec,
                    ),
                )
            } else {
                None
            },
            None => None,
        }
    }

    /// Whether there is a channel whose record is valid.
    pub open spec fn shm_is_valid(&self) -> bool {
        match self.shm {
            Some(channel) => channel.segment_of().valid == 1,
            None => false,
        }
    }

    /// Whether the process runs in a container, or the probe is to be skipped
    /// at the operator's wish: any one of the signals says so.
    pub fn is_container_environment(environment: &ProbeEnvironment) -> (r: bool)
        ensures
            r == environment.in_container(),
    {
        environment.container_marker || environment.orchestrator_host
            || environment.container_app || environment.skip_requested
    }

    /// The clock over the channel that an attempt to attach unit 0 gave: with
    /// the channel where the attempt succeeded, without one where it failed.
    pub fn new(attached: Result<NtpShmInterface, ShmError>) -> (r: NtpSyncedClock)
        ensures
            match attached {
                Ok(channel) => r.shm == Some(channel),
                Err(_) => r.shm is None,
            },
    {
        match attached {
            Ok(channel) => NtpSyncedClock { shm: Some(channel) },
            Err(_) => NtpSyncedClock { shm: None },
        }
    }

    /// The clock over the channel of `unit`, from what the operating system
    /// answered to the request for its segment: see `NtpShmInterface::new`,
    /// of which this has the failures.
    pub fn with_shm_unit(unit: u8, shm_id: i32, mapped: Option<NtpShmTime>) -> (r: Result<
        NtpSyncedClock,
        ShmError,
    >)
        ensures
            match r {
                Ok(clock) => {
                    &&& unit <= NTP_SHM_MAX_UNIT && shm_id >= 0
                    &&& clock.shm matches Some(channel) && mapped matches Some(found)
                        && channel.unit_of() == unit && channel.id_of() == shm_id && channel.wf()
                        && if found.is_fresh() {
                        channel.segment_of().is_initial()
                    } else {
                        channel.segment_of() == found
                    }
                },
                Err(ShmError::InvalidUnit) => unit > NTP_SHM_MAX_UNIT,
                Err(ShmError::SegmentCreateFailed) => unit <= NTP_SHM_MAX_UNIT && shm_id < 0,
                Err(ShmError::SegmentAttachFailed) => unit <= NTP_SHM_MAX_UNIT && shm_id >= 0
                    && mapped is None,
            },
    {
        match NtpShmInterface::new(unit, shm_id, mapped) {
            Ok(channel) => Ok(NtpSyncedClock { shm: Some(channel) }),
            Err(e) => Err(e),
        }
    }

    /// Whether there is a channel whose record is valid.
    pub fn shm_valid(&self) -> (r: bool)
        ensures
            r == self.shm_is_valid(),
    {
        match &self.shm {
            Some(channel) => channel.is_valid(),
            None => false,
        }
    }

    /// What a reading of the realtime clock means: `status` is what the
    /// system call returned, `tv_sec` and `tv_nsec` what it stored.
    ///
    /// Fails with `ClockUnavailable` where the status is not 0 or the
    /// nanoseconds are not those of a time of day, and on no other occasion.
    pub fn reading(status: i32, tv_sec: i64, tv_nsec: i64) -> (r: Result<(i64, u32), ClockError>)
        ensures
            match r {
                Ok(t) => status == 0 && 0 <= tv_nsec < NANOS_PER_SECOND && t.0 == tv_sec && t.1
                    == tv_nsec,
                Err(e) => e == ClockError::ClockUnavailable && !(status == 0 && 0 <= tv_nsec
                    < NANOS_PER_SECOND),
            },
    {
        if status == 0 && 0 <= tv_nsec && tv_nsec < NANOS_PER_SECOND as i64 {
            Ok((tv_sec, tv_nsec as u32))
        } else {
            Err(ClockError::ClockUnavailable)
        }
    }

    /// What the system clock has run since the epoch, as seconds and
    /// nanoseconds.
    ///
    /// Fails with `BeforeEpoch` where the clock shows a time before the epoch,
    /// and with `ClockUnavailable` where its seconds are beyond what is
    /// counted here.
    pub fn elapsed(clock: Option<(u64, u32)>) -> (r: Result<(i64, u32), ClockError>)
        ensures
            match r {
                Ok(t) => clock matches Some(c) && c.0 <= i64::MAX && t.0 == c.0 && t.1 == c.1,
                Err(ClockError::BeforeEpoch) => clock is None,
                Err(ClockError::ClockUnavailable) => clock matches Some(c) && c.0 > i64::MAX,
            },
    {
        match clock {
            None => Err(ClockError::BeforeEpoch),
            Some((secs, nanos)) => {
                if secs <= i64::MAX as u64 {
                    Ok((secs as i64, nanos))
                } else {
                    Err(ClockError::ClockUnavailable)
                }
            },
        }
    }

    /// The time that the system clock shows, as seconds since the epoch and
    /// nanoseconds within the second.
    pub fn now() -> (r: Result<(i64, u32), ClockError>)
        ensures
            r matches Ok(t) ==> t.0 >= 0 && t.1 < NANOS_PER_SECOND,
    {
        Self::elapsed(read_clock())
    }

    /// The time that the daemon published, where the channel holds a valid
    /// record, else `clock`, which is what a reading of the system clock
    /// gave. A record whose validity flag is not exactly 1 is no source of
    /// time.
    pub fn now_synced_with(&self, clock: Result<(i64, u32), ClockError>) -> (r: Result<
        (i64, u32),
        ClockError,
    >)
        ensures
            r == match self.published() {
                Some(stamp) => Ok::<(i64, u32), ClockError>(stamp),
                None => clock,
            },
            self.shm_is_valid() == self.published() is Some,
    {
        match &self.shm {
            Some(channel) => {
                match channel.read_time() {
                    Some((secs, nanos, valid)) => {
                        if valid {
                            return Ok((secs, nanos));
                        }
                    },
                    None => {},
                }
            },
            None => {},
        }
        clock
    }

    /// The time that the daemon published, where the channel holds a valid
    /// record, else the time that the system clock shows: see
    /// `now_synced_with`, which takes the reading of the clock.
    pub fn now_synced(&self) -> (r: Result<(i64, u32), ClockError>)
        ensures
            self.published() matches Some(stamp) ==> r == Ok::<(i64, u32), ClockError>(stamp),
            self.published() is None ==> (r matches Ok(t) ==> t.0 >= 0 && t.1 < NANOS_PER_SECOND),
            self.shm_is_valid() == self.published() is Some,
    {
        match self.published_stamp() {
            Some(stamp) => Ok(stamp),
            None => Self::now(),
        }
    }

    /// The time stamp that the channel is a source of, if it is one.
    pub fn published_stamp(&self) -> (r: Option<(i64, u32)>)
        ensures
            r == self.published(),
    {
        match &self.shm {
            Some(channel) => {
                match channel.read_time() {
                    Some((secs, nanos, valid)) => {
                        if valid {
                            Some((secs, nanos))
                        } else {
                            None
                        }
                    },
                    None => None,
                }
            },
            None => None,
        }
    }

    /// How a check of the synchronisation begins: inside a container the
    /// daemon is not asked and the answer is no; elsewhere the table of peers
    /// is asked for.
    pub fn is_synced_begin(environment: &ProbeEnvironment) -> (r: SyncStep)
        ensures
            environment.in_container() ==> (r matches SyncStep::Finished(Ok(synced)) && !synced),
            !environment.in_container() ==> (r matches SyncStep::Probe(command) && command
                == ProbeCommand::PeerList),
    {
        if Self::is_container_environment(environment) {
            SyncStep::Finished(Ok(false))
        } else {
            SyncStep::Probe(ProbeCommand::PeerList)
        }
    }

    /// How a check of the synchronisation ends, once the peer-list command has
    /// run: see `sync_verdict`.
    ///
    /// Fails with `ProbeExecutionFailed` where the command could not be run
    /// for a reason other than its absence or its slowness, and on no other
    /// occasion; the error carries the reason.
    pub fn is_synced_finish(outcome: &ProbeOutcome) -> (r: Result<bool, ProbeError>)
        ensures
            match r {
                Ok(synced) => sync_verdict(*outcome) == Some(synced),
                Err(ProbeError::ProbeExecutionFailed(why)) => outcome matches ProbeOutcome::Failed(
                    reason,
                ) && why@ == "Failed to check NTP status: "@ + reason@,
                Err(_) => false,
            },
    {
        match outcome {
            ProbeOutcome::Completed(table) => Ok(has_selected_peer(table.as_str())),
            ProbeOutcome::NotFound => Ok(false),
            ProbeOutcome::TimedOut => Ok(false),
            ProbeOutcome::Failed(reason) => Err(
                ProbeError::ProbeExecutionFailed(
                    join_text("Failed to check NTP status: ", reason.as_str()),
                ),
            ),
        }
    }

    /// How a probe of the status begins: inside a container the daemon is not
    /// asked, and the status is that of a host that keeps good time;
    /// elsewhere the system variables are asked for.
    pub fn get_status_begin(&self, environment: &ProbeEnvironment) -> (r: StatusStep)
        ensures
            environment.in_container() ==> (r matches StatusStep::Finished(Ok(status))
                && status.is_container_status()),
            !environment.in_container() ==> (r matches StatusStep::Probe(command) && command
                == ProbeCommand::SystemVariables),
    {
        if Self::is_container_environment(environment) {
            StatusStep::Finished(Ok(NtpStatusReport::container()))
        } else {
            StatusStep::Probe(ProbeCommand::SystemVariables)
        }
    }

    /// How a probe goes on, once the command for the system variables has
    /// run. Where it printed its list, the table of peers is asked for next.
    /// Where the command is missing or ran out of time, the probe ends with
    /// the degraded status. Where it could not be run for another reason, the
    /// probe ends with `ProbeExecutionFailed`, which carries the reason.
    pub fn get_status_after_variables(&self, outcome: &ProbeOutcome) -> (r: StatusStep)
        ensures
            match *outcome {
                ProbeOutcome::Completed(_) => r matches StatusStep::Probe(command) && command
                    == ProbeCommand::PeerList,
                ProbeOutcome::NotFound => r matches StatusStep::Finished(Ok(status))
                    && status.is_degraded_status(self.shm_is_valid()),
                ProbeOutcome::TimedOut => r matches StatusStep::Finished(Ok(status))
                    && status.is_degraded_status(self.shm_is_valid()),
                ProbeOutcome::Failed(reason) => r matches StatusStep::Finished(
                    Err(ProbeError::ProbeExecutionFailed(why)),
                ) && why@ == "Failed to get NTP status: "@ + reason@,
            },
    {
        match outcome {
            ProbeOutcome::Completed(_) => StatusStep::Probe(ProbeCommand::PeerList),
            ProbeOutcome::NotFound => StatusStep::Finished(
                Ok(NtpStatusReport::degraded(self.shm_valid())),
            ),
            ProbeOutcome::TimedOut => StatusStep::Finished(
                Ok(NtpStatusReport::degraded(self.shm_valid())),
            ),
            ProbeOutcome::Failed(reason) => StatusStep::Finished(
                Err(
                    ProbeError::ProbeExecutionFailed(
                        join_text("Failed to get NTP status: ", reason.as_str()),
                    ),
                ),
            ),
        }
    }

    /// How a probe ends, once the peer-list command has run: `variables` is
    /// the list of system variables that the first command printed. The
    /// daemon counts as synchronised where `sync_verdict` says so, and as not
    /// synchronised where it says nothing.
    pub fn get_status_finish(&self, variables: &str, peers: &ProbeOutcome) -> (r: NtpStatusReport)
        ensures
            r.is_status_of(
                variables@,
                sync_verdict(*peers) == Some(true),
                self.shm_is_valid(),
            ),
    {
        let synced = match Self::is_synced_finish(peers) {
            Ok(synced) => synced,
            Err(_) => false,
        };
        NtpStatusReport::from_output(variables, synced, self.shm_valid())
    }

    /// What is done next while waiting for the synchronisation, once a check
    /// has ended with `synced`, `elapsed_millis` milliseconds into a wait of
    /// at most `timeout_millis`: a failed check ends the wait with its
    /// error; a synchronised daemon ends it well; else the wait ends with
    /// `SyncTimeout` once more time has passed than was allowed, and goes on
    /// until then.
    pub fn wait_for_sync_step(
        synced: Result<bool, ProbeError>,
        elapsed_millis: u64,
        timeout_millis: u64,
    ) -> (r: WaitStep)
        ensures
            match synced {
                Err(e) => r == WaitStep::GaveUp(e),
                Ok(true) => r is Synced,
                Ok(false) => if elapsed_millis > timeout_millis {
                    r matches WaitStep::GaveUp(e) && e is SyncTimeout
                } else {
                    r is Retry
                },
            },
    {
        match synced {
            Err(e) => WaitStep::GaveUp(e),
            Ok(true) => WaitStep::Synced,
            Ok(false) => {
                if elapsed_millis > timeout_millis {
                    WaitStep::GaveUp(ProbeError::SyncTimeout)
                } else {
                    WaitStep::Retry
                }
            },
        }
    }
}

} // verus!
