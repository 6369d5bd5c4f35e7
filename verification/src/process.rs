//! Terminating the kernel's processes, and keeping their output.

use vstd::prelude::*;

use crate::readiness;
use crate::text;

verus! {

/// How long a process group gets to end by itself.
pub const KILL_GRACE_SECS: u64 = 3;

#[derive(Clone, Copy, PartialEq, Eq, Structural, Debug)]
pub enum Signal {
    /// The request to terminate.
    Terminate,
    /// The kill that cannot be refused.
    Kill,
}

#[derive(Clone, Copy, PartialEq, Eq, Structural, Debug)]
pub enum KillStep {
    /// Send `signal` to `target`; a negative target is a process group.
    Send { target: i32, signal: Signal },
    /// Wait for this many seconds.
    Wait { secs: u64 },
}

/// `pid` as the signed number that signals are addressed with.
pub open spec fn signed_pid(pid: u32) -> int {
    if pid <= i32::MAX {
        pid as int
    } else {
        pid - 0x1_0000_0000
    }
}

/// How the process group of `pid` is ended on Unix.
pub open spec fn kill_steps(pid: u32) -> Seq<KillStep> {
    let target = (-signed_pid(pid)) as i32;
    seq![
        KillStep::Send { target, signal: Signal::Terminate },
        KillStep::Wait { secs: KILL_GRACE_SECS },
        KillStep::Send { target, signal: Signal::Kill },
    ]
}

/// How the process group of `pid` is ended on Unix: it is asked to terminate,
/// given some time, and killed. The one number whose group has no address is
/// left out.
pub fn kill_plan(pid: u32) -> (r: Vec<KillStep>)
    requires
        pid != 0x8000_0000,
    ensures
        ({
            let target = (-signed_pid(pid)) as i32;
            &&& target == -signed_pid(pid)
            &&& r@ == seq![
                KillStep::Send { target, signal: Signal::Terminate },
                KillStep::Wait { secs: KILL_GRACE_SECS },
                KillStep::Send { target, signal: Signal::Kill },
            ]
        }),
        r@ == kill_steps(pid),
{
    let target: i32 = if pid <= 0x7fff_ffff {
        -(pid as i32)
    } else {
        (0x1_0000_0000u64 - pid as u64) as i32
    };
    vec![
        KillStep::Send { target, signal: Signal::Terminate },
        KillStep::Wait { secs: KILL_GRACE_SECS },
        KillStep::Send { target, signal: Signal::Kill },
    ]
}

/// What `taskkill` is called with on Windows: end the whole tree of `pid`, by
/// force.
pub fn taskkill_args(pid: u32) -> (r: Vec<String>)
    ensures
        r@.len() == 4,
        r@[0]@ == "/pid"@,
        r@[1]@ == text::decimal(pid as nat),
        r@[2]@ == "/T"@,
        r@[3]@ == "/F"@,
{
    vec!["/pid".to_string(), text::decimal_text(pid as u64), "/T".to_string(), "/F".to_string()]
}

/// The name of the log of a run that began `seconds` after the epoch.
pub open spec fn log_of(seconds: u64) -> Seq<char> {
    "dsh-"@ + text::decimal(seconds as nat) + ".log"@
}

/// The name of the log of a run that began `seconds` after the epoch.
pub fn log_name(seconds: u64) -> (r: String)
    ensures
        r@ == "dsh-"@ + text::decimal(seconds as nat) + ".log"@,
        r@ == log_of(seconds),
{
    text::join3("dsh-", text::decimal_text(seconds).as_str(), ".log")
}

/// What a line of output adds to the log.
pub fn log_record(line: &[u8]) -> (r: Vec<u8>)
    ensures
        r@ == line@.push(10u8),
{
    let mut r: Vec<u8> = vstd::slice::slice_to_vec(line);
    r.push(10u8);
    r
}

/// `std::str::from_utf8`: the text that the bytes encode, if they are valid UTF-8.
#[verifier::external_body]
fn utf8_text<'a>(bytes: &'a [u8]) -> (r: Option<&'a str>)
    ensures
        r is Some <==> vstd::utf8::valid_utf8(bytes@),
        r matches Some(t) ==> vstd::utf8::encode_utf8(t@) == bytes@,
{
    std::str::from_utf8(bytes).ok()
}

/// A line as it was read, without the line break at its end, which is a line feed
/// or a carriage return and a line feed.
pub open spec fn line_body(raw: Seq<u8>) -> Seq<u8> {
    if raw.len() == 0 || raw.last() != 10u8 {
        raw
    } else if raw.len() == 1 || raw[raw.len() - 2] != 13u8 {
        raw.drop_last()
    } else {
        raw.drop_last().drop_last()
    }
}

/// What a line of output leads to.
#[derive(PartialEq, Eq, Debug)]
pub struct LineEffect {
    /// The bytes to add to the log.
    pub record: Vec<u8>,
    /// The port to report.
    pub port: Option<u16>,
}

/// The mathematical content of a [`LineEffect`].
pub struct LineModel {
    pub record: Seq<u8>,
    pub port: Option<u16>,
}

impl View for LineEffect {
    type V = LineModel;

    open spec fn view(&self) -> LineModel {
        LineModel { record: self.record@, port: self.port }
    }
}

/// The mathematical state of an [`OutputPipe`].
pub struct PipeState {
    /// Whether the stream is watched for the readiness line.
    pub watched: bool,
    /// Whether a port has been reported.
    pub reported: bool,
    /// Whether the stream is still read.
    pub open: bool,
}

/// A stream of which nothing has been read.
pub open spec fn fresh_pipe(watched: bool) -> PipeState {
    PipeState { watched, reported: false, open: true }
}

/// What the line `raw` leads to. Every line is logged; on a watched stream the
/// first port that is announced is reported. A line that is not UTF-8 ends the
/// stream.
pub open spec fn pipe(s: PipeState, raw: Seq<u8>) -> (PipeState, Option<LineModel>) {
    let body = line_body(raw);
    if s.open && vstd::utf8::valid_utf8(body) {
        let announced = readiness::announced_port(vstd::utf8::decode_utf8(body));
        let port = if s.watched && !s.reported {
            announced
        } else {
            None
        };
        (
            PipeState { reported: s.reported || port is Some, ..s },
            Some(LineModel { record: body.push(10u8), port }),
        )
    } else {
        (PipeState { open: false, ..s }, None)
    }
}

/// One stream of the kernel's output.
pub struct OutputPipe {
    watched: bool,
    reported: bool,
    open: bool,
}

impl View for OutputPipe {
    type V = PipeState;

    closed spec fn view(&self) -> PipeState {
        PipeState { watched: self.watched, reported: self.reported, open: self.open }
    }
}

impl OutputPipe {
    pub fn new(watched: bool) -> (r: Self)
        ensures
            r@ == fresh_pipe(watched),
    {
        OutputPipe { watched, reported: false, open: true }
    }

    /// Takes in a line as it was read, with its line break. Nothing comes back
    /// once the stream has ended.
    pub fn take_line(&mut self, raw: &[u8]) -> (r: Option<LineEffect>)
        ensures
            (
                final(self)@,
                match r {
                    Some(effect) => Some(effect@),
                    None => None,
                },
            ) == pipe(old(self)@, raw@),
    {
        let mut body: Vec<u8> = vstd::slice::slice_to_vec(raw);
        let n: usize = raw.len();
        if n > 0 && raw[n - 1] == 10u8 {
            let _ = body.pop();
            if n > 1 && raw[n - 2] == 13u8 {
                let _ = body.pop();
            }
        }
        assert(body@ =~= line_body(raw@));
        if !self.open {
            return None;
        }
        match utf8_text(body.as_slice()) {
            None => {
                self.open = false;
                None
            },
            Some(line) => {
                proof {
                    vstd::utf8::encode_utf8_decode_utf8(line@);
                }
                let port: Option<u16> = if self.watched && !self.reported {
                    readiness::extract_port(line)
                } else {
                    None
                };
                if port.is_some() {
                    self.reported = true;
                }
                Some(LineEffect { record: log_record(body.as_slice()), port })
            },
        }
    }
}

/// All that is added to the log while the lines `raws` are read.
pub open spec fn logged(s: PipeState, raws: Seq<Seq<u8>>) -> Seq<u8>
    decreases raws.len(),
{
    if raws.len() == 0 {
        Seq::empty()
    } else {
        let (next, effect) = pipe(s, raws.first());
        (match effect {
            Some(line) => line.record,
            None => Seq::empty(),
        }) + logged(next, raws.drop_first())
    }
}

/// The ports that are reported while the lines `raws` are read.
pub open spec fn ports(s: PipeState, raws: Seq<Seq<u8>>) -> Seq<u16>
    decreases raws.len(),
{
    if raws.len() == 0 {
        Seq::empty()
    } else {
        let (next, effect) = pipe(s, raws.first());
        (match effect {
            Some(LineModel { port: Some(port), .. }) => seq![port],
            _ => Seq::empty(),
        }) + ports(next, raws.drop_first())
    }
}

/// The lines of `raws`, without their line breaks, before the first one that is
/// not UTF-8.
pub open spec fn readable(raws: Seq<Seq<u8>>) -> Seq<Seq<u8>>
    decreases raws.len(),
{
    if raws.len() == 0 || !vstd::utf8::valid_utf8(line_body(raws.first())) {
        Seq::empty()
    } else {
        seq![line_body(raws.first())] + readable(raws.drop_first())
    }
}

/// The lines, each with a line feed behind it, one after the other.
pub open spec fn as_log(lines: Seq<Seq<u8>>) -> Seq<u8>
    decreases lines.len(),
{
    if lines.len() == 0 {
        Seq::empty()
    } else {
        lines.first().push(10u8) + as_log(lines.drop_first())
    }
}

/// The port that the first line announces that announces one.
pub open spec fn first_announced(lines: Seq<Seq<u8>>) -> Option<u16>
    decreases lines.len(),
{
    if lines.len() == 0 {
        None
    } else {
        match readiness::announced_port(vstd::utf8::decode_utf8(lines.first())) {
            Some(port) => Some(port),
            None => first_announced(lines.drop_first()),
        }
    }
}

proof fn lemma_closed_pipe(s: PipeState, raws: Seq<Seq<u8>>)
    requires
        !s.open,
    ensures
        logged(s, raws) == Seq::<u8>::empty(),
        ports(s, raws) == Seq::<u16>::empty(),
    decreases raws.len(),
{
    if raws.len() > 0 {
        lemma_closed_pipe(pipe(s, raws.first()).0, raws.drop_first());
    }
}

proof fn lemma_pipe(s: PipeState, raws: Seq<Seq<u8>>)
    requires
        s.open,
    ensures
        logged(s, raws) == as_log(readable(raws)),
        ports(s, raws) == (if s.watched && !s.reported {
            match first_announced(readable(raws)) {
                Some(port) => seq![port],
                None => Seq::empty(),
            }
        } else {
            Seq::empty()
        }),
    decreases raws.len(),
{
    if raws.len() > 0 {
        let (next, effect) = pipe(s, raws.first());
        let rest = raws.drop_first();
        if next.open {
            lemma_pipe(next, rest);
            let lines = readable(raws);
            assert(lines.first() == line_body(raws.first()));
            assert(lines.drop_first() =~= readable(rest));
        } else {
            lemma_closed_pipe(next, rest);
        }
        assert(logged(s, raws) =~= as_log(readable(raws)));
    }
}

/// The log holds, in order, every line before the first one that is not UTF-8,
/// and nothing after it, whether or not the stream is watched.
pub proof fn every_line_is_logged(watched: bool, raws: Seq<Seq<u8>>)
    ensures
        logged(fresh_pipe(watched), raws) == as_log(readable(raws)),
{
    lemma_pipe(fresh_pipe(watched), raws);
}

/// Only the first announced port counts: a watched stream reports it and no
/// other, and a stream that is not watched reports none.
pub proof fn only_the_first_port_is_reported(raws: Seq<Seq<u8>>)
    ensures
        ports(fresh_pipe(true), raws) == (match first_announced(readable(raws)) {
            Some(port) => seq![port],
            None => Seq::empty(),
        }),
        ports(fresh_pipe(false), raws) == Seq::<u16>::empty(),
{
    lemma_pipe(fresh_pipe(true), raws);
    lemma_pipe(fresh_pipe(false), raws);
}

/// A line loses its line break, and nothing else: a carriage return stays unless
/// a line feed follows it, and white space stays.
pub proof fn a_line_loses_only_its_break(body: Seq<u8>)
    ensures
        line_body(body + seq![13u8, 10u8]) == body,
        body.len() == 0 || body.last() != 13u8 ==> line_body(body + seq![10u8]) == body,
        body.len() == 0 || body.last() != 10u8 ==> line_body(body) == body,
{
    assert((body + seq![13u8, 10u8]).drop_last().drop_last() =~= body);
    assert((body + seq![10u8]).drop_last() =~= body);
}

/// A line of text that is read from an open stream is logged, whatever it says
/// and whatever is watched, with one line feed behind it. It reports the port that
/// it announces if the stream is watched and has not reported one before. The
/// stream stays open, and remembers that it has reported.
pub proof fn a_line_of_text_is_logged(s: PipeState, raw: Seq<u8>)
    requires
        s.open,
        vstd::utf8::valid_utf8(line_body(raw)),
    ensures
        ({
            let (next, effect) = pipe(s, raw);
            let announced = readiness::announced_port(vstd::utf8::decode_utf8(line_body(raw)));
            &&& effect is Some
            &&& effect->0.record == line_body(raw) + seq![10u8]
            &&& s.watched && !s.reported ==> effect->0.port == announced
            &&& !s.watched || s.reported ==> effect->0.port is None
            &&& next.open
            &&& next.watched == s.watched
            &&& next.reported == (s.reported || (s.watched && announced is Some))
        }),
{
    assert(line_body(raw).push(10u8) =~= line_body(raw) + seq![10u8]);
}

/// What is not text ends the stream for good: neither it nor anything after it is
/// logged or reported.
pub proof fn what_is_no_text_ends_the_stream(s: PipeState, raw: Seq<u8>)
    requires
        !s.open || !vstd::utf8::valid_utf8(line_body(raw)),
    ensures
        pipe(s, raw).1 is None,
        !pipe(s, raw).0.open,
{
}

/// A stream begins open and without a report.
pub proof fn a_stream_begins_open(watched: bool)
    ensures
        fresh_pipe(watched).open,
        !fresh_pipe(watched).reported,
        fresh_pipe(watched).watched == watched,
{
}

/// Process numbers are addressed as signed numbers of 32 bits: the same number, or
/// the one that is a whole turn below it.
pub proof fn a_process_number_is_addressed_within_range(pid: u32)
    ensures
        -0x8000_0000 <= signed_pid(pid) <= 0x7fff_ffff,
        signed_pid(pid) == pid || signed_pid(pid) == pid - 0x1_0000_0000,
{
}

/// A process group is asked first and killed three seconds later, and nothing else
/// is signalled: both signals go to the group of `pid`, which is addressed by the
/// negated number, up to whole turns of 32 bits.
pub proof fn a_group_is_asked_before_it_is_killed(pid: u32)
    requires
        pid != 0x8000_0000,
    ensures
        kill_steps(pid).len() == 3,
        ({
            let first = kill_steps(pid)[0];
            let last = kill_steps(pid)[2];
            &&& first is Send && first->signal == Signal::Terminate
            &&& kill_steps(pid)[1] == KillStep::Wait { secs: 3 }
            &&& last is Send && last->signal == Signal::Kill
            &&& first->target == last->target
            &&& pid <= 0x7fff_ffff ==> first->target == -pid
            &&& pid > 0x7fff_ffff ==> first->target == 0x1_0000_0000 - pid
        }),
{
}

/// A log bears the time at which its run began, so that runs that began at
/// different times have different logs.
pub proof fn each_run_has_its_own_log(one: u64, other: u64)
    ensures
        log_of(one) == "dsh-"@ + text::decimal(one as nat) + ".log"@,
        log_of(one) == log_of(other) ==> one == other,
{
    if log_of(one) == log_of(other) {
        let a = text::decimal(one as nat);
        let b = text::decimal(other as nat);
        reveal_strlit("dsh-");
        reveal_strlit(".log");
        assert(a =~= log_of(one).subrange(4, log_of(one).len() - 4));
        assert(b =~= log_of(other).subrange(4, log_of(other).len() - 4));
        text::decimal_reads_back(one as nat);
        text::decimal_reads_back(other as nat);
    }
}

} // verus!
