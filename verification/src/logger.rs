//! State and formatting logic of the console logger.
//!
//! The logger adapts a leveled, structured logging facility onto one blocking
//! character-output device. Its state is write-once: a device is bound at
//! most once, a second binding attempt fails and leaves the first device in
//! place, and binding also raises the severity threshold to the most
//! permissive level so that every message is accepted. Each accepted message
//! becomes one line, `[target] <LEVEL> message` and a newline, formatted here
//! as exact bytes; transmitting those bytes is the surrounding system's job.

use vstd::prelude::*;

verus! {

/// Severity of one log message, from most to least urgent.
#[derive(Clone, Copy, Debug, PartialEq, Eq, Structural)]
pub enum Level {
    /// A failure.
    Error,
    /// A hazard.
    Warn,
    /// Ordinary progress.
    Info,
    /// Diagnostic detail.
    Debug,
    /// The finest detail.
    Trace,
}

/// A severity ceiling: `Off` accepts nothing, `Trace` accepts everything.
#[derive(Clone, Copy, Debug, PartialEq, Eq, Structural)]
pub enum LevelFilter {
    /// Accept no message.
    Off,
    /// Accept only errors.
    Error,
    /// Accept warnings and errors.
    Warn,
    /// Accept ordinary progress and above.
    Info,
    /// Accept diagnostic detail and above.
    Debug,
    /// Accept every message.
    Trace,
}

/// The error of a second binding attempt: a device is already bound, and the
/// logger refuses to replace it.
#[derive(Clone, Copy, Debug, PartialEq, Eq, Structural)]
pub struct AlreadyInitialized;

/// Rank of a severity; larger is less urgent.
pub open spec fn severity(level: Level) -> int {
    match level {
        Level::Error => 1,
        Level::Warn => 2,
        Level::Info => 3,
        Level::Debug => 4,
        Level::Trace => 5,
    }
}

/// Rank of the ceiling a filter admits; a filter accepts every severity whose
/// rank does not exceed it.
pub open spec fn filter_ceiling(filter: LevelFilter) -> int {
    match filter {
        LevelFilter::Off => 0,
        LevelFilter::Error => 1,
        LevelFilter::Warn => 2,
        LevelFilter::Info => 3,
        LevelFilter::Debug => 4,
        LevelFilter::Trace => 5,
    }
}

/// Whether a message of the given severity passes the filter.
pub open spec fn passes(filter: LevelFilter, level: Level) -> bool {
    severity(level) <= filter_ceiling(filter)
}

/// The most permissive filter accepts every severity.
pub proof fn lemma_trace_accepts_all(level: Level)
    ensures
        passes(LevelFilter::Trace, level),
{
}

/// Rank of a severity as a machine integer.
pub fn severity_of(level: Level) -> (rank: u8)
    ensures
        rank == severity(level),
{
    match level {
        Level::Error => 1,
        Level::Warn => 2,
        Level::Info => 3,
        Level::Debug => 4,
        Level::Trace => 5,
    }
}

/// Rank of a filter's ceiling as a machine integer.
pub fn ceiling_of(filter: LevelFilter) -> (rank: u8)
    ensures
        rank == filter_ceiling(filter),
{
    match filter {
        LevelFilter::Off => 0,
        LevelFilter::Error => 1,
        LevelFilter::Warn => 2,
        LevelFilter::Info => 3,
        LevelFilter::Debug => 4,
        LevelFilter::Trace => 5,
    }
}

/// Decides whether a message of the given severity passes the filter.
pub fn level_within(filter: LevelFilter, level: Level) -> (within: bool)
    ensures
        within == passes(filter, level),
{
    severity_of(level) <= ceiling_of(filter)
}

/// The write-once logger state: at most one bound output device, and the
/// severity threshold in force. `D` is whatever handle the surrounding
/// system uses to reach its output device.
pub struct LoggerCore<D> {
    /// The bound output device, if one has been bound.
    pub device: Option<D>,
    /// The severity ceiling in force.
    pub threshold: LevelFilter,
}

impl<D> LoggerCore<D> {
    /// Whether a device has been bound.
    pub open spec fn is_bound(&self) -> bool {
        self.device is Some
    }

    /// The state and result `init` produces from a starting state: an unbound
    /// logger binds the device and opens the threshold fully; a bound logger
    /// is left exactly as it was and the attempt is refused.
    pub open spec fn init_outcome(self, device: D) -> (LoggerCore<D>, Result<
        (),
        AlreadyInitialized,
    >) {
        if self.is_bound() {
            (self, Err(AlreadyInitialized))
        } else {
            (LoggerCore { device: Some(device), threshold: LevelFilter::Trace }, Ok(()))
        }
    }

    /// A fresh, unbound logger that accepts nothing.
    pub fn new() -> (logger: Self)
        ensures
            !logger.is_bound(),
            logger.threshold == LevelFilter::Off,
    {
        LoggerCore { device: None, threshold: LevelFilter::Off }
    }

    /// Binds `device` as the one output device and opens the severity
    /// threshold to the most permissive level. At most one binding ever
    /// succeeds: on a logger that already holds a device, the call fails
    /// with [`AlreadyInitialized`] and changes nothing, so the first device
    /// remains bound.
    pub fn init(&mut self, device: D) -> (r: Result<(), AlreadyInitialized>)
        ensures
            (*final (self), r) == old(self).init_outcome(device),
            r is Ok <==> !old(self).is_bound(),
            !old(self).is_bound() ==> final (self).device == Some(device) && final (self).threshold
                == LevelFilter::Trace,
            old(self).is_bound() ==> *final (self) == *old(self) && r == Err::<
                (),
                _,
            >(AlreadyInitialized),
    {
        if self.device.is_some() {
            return Err(AlreadyInitialized);
        }
        self.device = Some(device);
        self.threshold = LevelFilter::Trace;
        Ok(())
    }

    /// Whether the logger is ready: true exactly once a device is bound,
    /// false before, whatever severity might be asked about.
    pub fn enabled(&self) -> (ready: bool)
        ensures
            ready == self.is_bound(),
    {
        self.device.is_some()
    }

    /// Whether a message of the given severity would be written: a device
    /// must be bound and the severity must pass the threshold.
    pub fn accepts(&self, level: Level) -> (accepted: bool)
        ensures
            accepted == (self.is_bound() && passes(self.threshold, level)),
    {
        self.enabled() && level_within(self.threshold, level)
    }

    /// A borrow of the bound device, for the code that transmits lines.
    pub fn bound_device(&self) -> (device: &Option<D>)
        ensures
            *device == self.device,
    {
        &self.device
    }

    /// Does nothing: the device is unbuffered and every line is written
    /// synchronously, so there is never anything left to push out.
    pub fn flush(&self) {
    }
}

/// Singleton law: from an unbound state, the first binding succeeds and binds
/// its device with the threshold fully open; a second binding then fails with
/// [`AlreadyInitialized`] and the first device remains bound.
pub proof fn lemma_singleton_binding<D>(start: LoggerCore<D>, first: D, second: D)
    requires
        !start.is_bound(),
    ensures
        ({
            let (s1, r1) = start.init_outcome(first);
            let (s2, r2) = s1.init_outcome(second);
            &&& r1 is Ok
            &&& s1.device == Some(first)
            &&& s1.threshold == LevelFilter::Trace
            &&& r2 == Err::<(), _>(AlreadyInitialized)
            &&& s2 == s1
        }),
{
}

/// The exact bytes of a severity's label.
pub open spec fn level_label_spec(level: Level) -> Seq<u8> {
    match level {
        Level::Error => seq![0x45, 0x52, 0x52, 0x4f, 0x52],
        Level::Warn => seq![0x57, 0x41, 0x52, 0x4e],
        Level::Info => seq![0x49, 0x4e, 0x46, 0x4f],
        Level::Debug => seq![0x44, 0x45, 0x42, 0x55, 0x47],
        Level::Trace => seq![0x54, 0x52, 0x41, 0x43, 0x45],
    }
}

/// The exact bytes of one log line: the target in square brackets, the
/// severity label in angle brackets, the message, and a newline.
pub open spec fn line_format(target: Seq<u8>, level: Level, message: Seq<u8>) -> Seq<u8> {
    seq![0x5b] + target + seq![0x5d, 0x20, 0x3c] + level_label_spec(level) + seq![0x3e, 0x20]
        + message + seq![0x0a]
}

/// Builds the label bytes of a severity.
pub fn level_label(level: Level) -> (label: Vec<u8>)
    ensures
        label@ == level_label_spec(level),
{
    let mut label: Vec<u8> = Vec::new();
    match level {
        Level::Error => {
            label.push(0x45);
            label.push(0x52);
            label.push(0x52);
            label.push(0x4f);
            label.push(0x52);
            proof {
                assert(label@ =~= level_label_spec(level));
            }
        },
        Level::Warn => {
            label.push(0x57);
            label.push(0x41);
            label.push(0x52);
            label.push(0x4e);
            proof {
                assert(label@ =~= level_label_spec(level));
            }
        },
        Level::Info => {
            label.push(0x49);
            label.push(0x4e);
            label.push(0x46);
            label.push(0x4f);
            proof {
                assert(label@ =~= level_label_spec(level));
            }
        },
        Level::Debug => {
            label.push(0x44);
            label.push(0x45);
            label.push(0x42);
            label.push(0x55);
            label.push(0x47);
            proof {
                assert(label@ =~= level_label_spec(level));
            }
        },
        Level::Trace => {
            label.push(0x54);
            label.push(0x52);
            label.push(0x41);
            label.push(0x43);
            label.push(0x45);
            proof {
                assert(label@ =~= level_label_spec(level));
            }
        },
    }
    label
}

/// Appends every byte of `src` to `dst`, in order.
fn append_bytes(dst: &mut Vec<u8>, src: &Vec<u8>)
    ensures
        final(dst)@ == old(dst)@ + src@,
{
    let mut i: usize = 0;
    proof {
        assert(dst@ =~= old(dst)@ + src@.subrange(0, 0));
    }
    while i < src.len()
        invariant
            i <= src.len(),
            dst@ == old(dst)@ + src@.subrange(0, i as int),
        decreases src.len() - i,
    {
        dst.push(src[i]);
        proof {
            assert(src@.subrange(0, i + 1) =~= src@.subrange(0, i as int) + seq![src@[i as int]]);
            assert(dst@ =~= old(dst)@ + src@.subrange(0, i + 1));
        }
        i = i + 1;
    }
    proof {
        assert(dst@ =~= old(dst)@ + src@);
    }
}

/// Formats one log line: exactly the bytes `[target] <LEVEL> message` and a
/// trailing newline, ready to hand to the bound device in one piece.
pub fn format_line(target: &Vec<u8>, level: Level, message: &Vec<u8>) -> (line: Vec<u8>)
    ensures
        line@ == line_format(target@, level, message@),
{
    let mut line: Vec<u8> = Vec::new();
    line.push(0x5b);
    append_bytes(&mut line, target);
    line.push(0x5d);
    line.push(0x20);
    line.push(0x3c);
    let label = level_label(level);
    append_bytes(&mut line, &label);
    line.push(0x3e);
    line.push(0x20);
    append_bytes(&mut line, message);
    line.push(0x0a);
    proof {
        assert(line@ =~= line_format(target@, level, message@));
    }
    line
}

} // verus!
