//! The decisions of a probe run: which probe comes next, what a response means
//! for the run, the lines to print, and the closing statistics.

use vstd::prelude::*;
use vstd::string::StringSliceAdditionalSpecFns;
use crate::query::QueryError;
use crate::render::{listing, render_response};
use crate::resolve::AddressError;
use crate::response::{answer_total, decode_response, header_of, parse_fault_text, parse_outcome, DecodeError, Response};
use crate::text::{decimal, millis, push_bytes, push_decimal, push_millis, push_str};

verus! {

/// Why a run stopped before its last probe.
#[derive(Debug, PartialEq, Eq)]
pub enum RunError {
    /// No endpoint could be chosen for the server.
    Address(AddressError),
    /// The query could not be encoded.
    Query(QueryError),
    /// Binding, sending or receiving failed, or the receive timed out; with
    /// the transport's account of it.
    Transport(Vec<u8>),
    /// The response could not be decoded; with the decoder's account of it.
    Decode(Vec<u8>),
    /// The server answered with a response code other than success or no such name.
    Protocol(u8),
}

/// The human-readable tag and cause of a run error.
pub open spec fn error_text(e: RunError) -> Seq<u8> {
    match e {
        RunError::Address(AddressError::Unresolvable) => "Address: the server has no address".spec_bytes(),
        RunError::Address(AddressError::Lookup) => "Address: the lookup failed".spec_bytes(),
        RunError::Query(QueryError::LabelTooLong) => "Query: a label of the name is too long".spec_bytes(),
        RunError::Transport(c) => "IO: ".spec_bytes() + c@,
        RunError::Decode(c) => "DNSParser: ".spec_bytes() + c@,
        RunError::Protocol(c) => "Other: response code ".spec_bytes() + decimal(c as nat),
    }
}

impl RunError {
    /// The human-readable tag and cause of the error.
    pub fn message(&self) -> (r: Vec<u8>)
        ensures
            r@ == error_text(*self),
    {
        let mut out: Vec<u8> = Vec::new();
        match self {
            RunError::Address(AddressError::Unresolvable) => push_str(&mut out, "Address: the server has no address"),
            RunError::Address(AddressError::Lookup) => push_str(&mut out, "Address: the lookup failed"),
            RunError::Query(QueryError::LabelTooLong) => push_str(&mut out, "Query: a label of the name is too long"),
            RunError::Transport(c) => {
                push_str(&mut out, "IO: ");
                push_bytes(&mut out, c.as_slice());
            },
            RunError::Decode(c) => {
                push_str(&mut out, "DNSParser: ");
                push_bytes(&mut out, c.as_slice());
            },
            RunError::Protocol(c) => {
                push_str(&mut out, "Other: response code ");
                push_decimal(&mut out, *c as u64);
            },
        }
        assert(out@ =~= error_text(*self));
        out
    }
}

/// Response codes that leave the run going: no error, and no such name.
pub open spec fn code_accepted(code: u8) -> bool {
    code == 0 || code == 3
}

/// What a decoded (or undecodable) response means for the run: the lines to
/// print after the timing line, or the error that ends the run.
pub open spec fn verdict(d: Result<Response, DecodeError>, verbose: bool) -> Result<Seq<Seq<u8>>, RunError> {
    match d {
        Err(DecodeError::UnsupportedType) => Ok(Seq::empty()),
        Err(DecodeError::Malformed(c)) => Err(RunError::Decode(c)),
        Ok(m) => if !code_accepted(m.header.response_code) {
            Err(RunError::Protocol(m.header.response_code))
        } else if verbose {
            Ok(listing(m))
        } else {
            Ok(Seq::empty())
        },
    }
}

/// The views of a sequence of lines.
pub open spec fn lines_of(v: Seq<Vec<u8>>) -> Seq<Seq<u8>> {
    v.map_values(|l: Vec<u8>| l@)
}

/// Decides what a response means for the run.
pub fn assess(d: Result<Response, DecodeError>, verbose: bool) -> (r: Result<Vec<Vec<u8>>, RunError>)
    ensures
        match (r, verdict(d, verbose)) {
            (Ok(l), Ok(s)) => lines_of(l@) == s,
            (Err(e), Err(f)) => e == f,
            _ => false,
        },
{
    match d {
        Err(DecodeError::UnsupportedType) => {
            let l: Vec<Vec<u8>> = Vec::new();
            assert(lines_of(l@) =~= Seq::<Seq<u8>>::empty());
            Ok(l)
        },
        Err(DecodeError::Malformed(c)) => Err(RunError::Decode(c)),
        Ok(m) => {
            let code = m.header.response_code;
            if !(code == 0 || code == 3) {
                Err(RunError::Protocol(code))
            } else if verbose {
                Ok(render_response(&m))
            } else {
                let l: Vec<Vec<u8>> = Vec::new();
                assert(lines_of(l@) =~= Seq::<Seq<u8>>::empty());
                Ok(l)
            }
        },
    }
}

/// The line for one timed probe.
pub open spec fn progress_text(len: nat, server: Seq<u8>, seq: nat, us: nat) -> Seq<u8> {
    decimal(len) + " bytes from ".spec_bytes() + server + ": seq=".spec_bytes() + decimal(seq)
        + " time=".spec_bytes() + millis(us) + " ms".spec_bytes()
}

/// Renders the line for one timed probe.
pub fn progress_line(len: usize, server: &str, seq: u32, us: u32) -> (r: Vec<u8>)
    ensures
        r@ == progress_text(len as nat, server.spec_bytes(), seq as nat, us as nat),
{
    let mut out: Vec<u8> = Vec::new();
    push_decimal(&mut out, len as u64);
    push_str(&mut out, " bytes from ");
    push_str(&mut out, server);
    push_str(&mut out, ": seq=");
    push_decimal(&mut out, seq as u64);
    push_str(&mut out, " time=");
    push_millis(&mut out, us as u64);
    push_str(&mut out, " ms");
    assert(out@ =~= progress_text(len as nat, server.spec_bytes(), seq as nat, us as nat));
    out
}

/// The smallest value of a non-empty sequence.
pub open spec fn seq_min(s: Seq<u32>) -> u32
    decreases s.len(),
{
    if s.len() <= 1 {
        s[0]
    } else if s.last() < seq_min(s.drop_last()) {
        s.last()
    } else {
        seq_min(s.drop_last())
    }
}

/// The largest value of a non-empty sequence.
pub open spec fn seq_max(s: Seq<u32>) -> u32
    decreases s.len(),
{
    if s.len() <= 1 {
        s[0]
    } else if s.last() > seq_max(s.drop_last()) {
        s.last()
    } else {
        seq_max(s.drop_last())
    }
}

/// The sum of a sequence.
pub open spec fn seq_sum(s: Seq<u32>) -> nat
    decreases s.len(),
{
    if s.len() == 0 {
        0
    } else {
        seq_sum(s.drop_last()) + s.last() as nat
    }
}

/// Latency statistics in microseconds; the mean is rounded down.
#[derive(Clone, Copy, Debug, PartialEq, Eq, Structural)]
pub struct Stats {
    pub min: u32,
    pub max: u32,
    pub mean: u32,
}

/// The statistics of a run's times, none for a run without times.
pub open spec fn stats_spec(times: Seq<u32>) -> Option<Stats> {
    if times.len() == 0 {
        None
    } else {
        Some(
            Stats {
                min: seq_min(times),
                max: seq_max(times),
                mean: (seq_sum(times) / times.len()) as u32,
            },
        )
    }
}

/// The sum of a non-empty sequence lies between its length times its minimum
/// and its length times its maximum.
proof fn lemma_sum_bounds(s: Seq<u32>)
    requires
        s.len() > 0,
    ensures
        seq_min(s) * s.len() <= seq_sum(s) <= seq_max(s) * s.len(),
        forall|i: int| 0 <= i < s.len() ==> seq_min(s) <= #[trigger] s[i] <= seq_max(s),
    decreases s.len(),
{
    if s.len() == 1 {
        assert(s.drop_last().len() == 0);
        assert(seq_sum(s) == seq_sum(s.drop_last()) + s.last());
    } else {
        let t = s.drop_last();
        lemma_sum_bounds(t);
        let n = t.len();
        let lo = seq_min(s);
        let hi = seq_max(s);
        assert(lo <= seq_min(t) && lo <= s.last());
        assert(hi >= seq_max(t) && hi >= s.last());
        assert(lo * n <= seq_min(t) * n) by (nonlinear_arith)
            requires
                lo <= seq_min(t),
                n >= 0,
        ;
        assert(seq_max(t) * n <= hi * n) by (nonlinear_arith)
            requires
                hi >= seq_max(t),
                n >= 0,
        ;
        assert(lo * s.len() == lo * n + lo) by (nonlinear_arith)
            requires
                s.len() == n + 1,
        ;
        assert(hi * s.len() == hi * n + hi) by (nonlinear_arith)
            requires
                s.len() == n + 1,
        ;
        assert forall|i: int| 0 <= i < s.len() implies lo <= #[trigger] s[i] <= hi by {
            if i < n {
                assert(s[i] == t[i]);
            }
        }
    }
}

/// Of any non-empty run, the minimum is at most the mean and the mean at most
/// the maximum.
pub proof fn lemma_mean_between(times: Seq<u32>)
    requires
        times.len() > 0,
    ensures
        stats_spec(times) matches Some(s) && s.min <= s.mean <= s.max,
        seq_min(times) <= seq_sum(times) / times.len() <= seq_max(times),
{
    lemma_sum_bounds(times);
    let n = times.len();
    let total = seq_sum(times);
    let lo = seq_min(times) as nat;
    let hi = seq_max(times) as nat;
    assert(lo <= total / n) by (nonlinear_arith)
        requires
            lo * n <= total,
            n > 0,
    ;
    assert(total / n <= hi) by (nonlinear_arith)
        requires
            total <= hi * n,
            n > 0,
    ;
}

/// The statistics of a sequence of times.
pub fn stats_of(times: &Vec<u32>) -> (r: Option<Stats>)
    ensures
        r == stats_spec(times@),
{
    if times.len() == 0 {
        return None;
    }
    let mut lo: u32 = times[0];
    let mut hi: u32 = times[0];
    let mut total: u128 = times[0] as u128;
    let mut i: usize = 1;
    assert(times@.subrange(0, 1).drop_last() =~= Seq::<u32>::empty());
    assert(seq_sum(times@.subrange(0, 1).drop_last()) == 0);
    while i < times.len()
        invariant
            1 <= i <= times@.len(),
            lo == seq_min(times@.subrange(0, i as int)),
            hi == seq_max(times@.subrange(0, i as int)),
            total == seq_sum(times@.subrange(0, i as int)),
            total <= i * 0xFFFF_FFFFu128,
        decreases times@.len() - i,
    {
        let x = times[i];
        proof {
            assert(times@.subrange(0, i + 1).drop_last() =~= times@.subrange(0, i as int));
        }
        if x < lo {
            lo = x;
        }
        if x > hi {
            hi = x;
        }
        total = total + x as u128;
        i = i + 1;
    }
    assert(times@.subrange(0, i as int) =~= times@);
    proof {
        lemma_mean_between(times@);
    }
    let mean = (total / times.len() as u128) as u32;
    Some(Stats { min: lo, max: hi, mean })
}

/// The closing line of a run.
pub open spec fn summary_text(s: Stats) -> Seq<u8> {
    "min=".spec_bytes() + millis(s.min as nat) + " ms, max=".spec_bytes() + millis(s.max as nat)
        + " ms, avg=".spec_bytes() + millis(s.mean as nat) + " ms".spec_bytes()
}

/// Renders the closing line of a run.
pub fn summary_line(s: Stats) -> (r: Vec<u8>)
    ensures
        r@ == summary_text(s),
{
    let mut out: Vec<u8> = Vec::new();
    push_str(&mut out, "min=");
    push_millis(&mut out, s.min as u64);
    push_str(&mut out, " ms, max=");
    push_millis(&mut out, s.max as u64);
    push_str(&mut out, " ms, avg=");
    push_millis(&mut out, s.mean as u64);
    push_str(&mut out, " ms");
    assert(out@ =~= summary_text(s));
    out
}

/// What a run does next.
#[derive(Clone, Copy, Debug, PartialEq, Eq, Structural)]
pub enum Action {
    /// Send probe `seq`, after the configured pause where `pause_first` holds.
    Probe { seq: u32, pause_first: bool },
    /// Every probe is done: print the statistics, if there are any, and end well.
    Finish(Option<Stats>),
    /// The run was aborted.
    Stopped,
}

/// A run of probes: how many were asked for, the times of those done, and
/// whether the run was aborted.
pub struct ProbeRun {
    count: u32,
    times: Vec<u32>,
    failed: bool,
}

/// The abstract state of a run.
pub ghost struct RunView {
    pub count: nat,
    pub times: Seq<u32>,
    pub failed: bool,
}

impl View for ProbeRun {
    type V = RunView;

    closed spec fn view(&self) -> RunView {
        RunView { count: self.count as nat, times: self.times@, failed: self.failed }
    }
}

/// The action that follows a state.
pub open spec fn next_of(v: RunView) -> Action {
    if v.failed {
        Action::Stopped
    } else if v.times.len() < v.count {
        Action::Probe { seq: v.times.len() as u32, pause_first: v.times.len() > 0 }
    } else {
        Action::Finish(stats_spec(v.times))
    }
}

/// A state in which a probe is under way.
pub open spec fn probing(v: RunView) -> bool {
    !v.failed && v.times.len() < v.count
}

impl ProbeRun {
    /// The well-formedness of a run: never more times than probes asked for.
    pub closed spec fn wf(&self) -> bool {
        self.times@.len() <= self.count
    }

    /// A run of `count` probes, none done yet.
    pub fn new(count: u32) -> (r: ProbeRun)
        ensures
            r.wf(),
            r@ == (RunView { count: count as nat, times: Seq::empty(), failed: false }),
    {
        ProbeRun { count, times: Vec::new(), failed: false }
    }

    /// The times of the probes done so far, in order.
    pub fn times(&self) -> (r: &Vec<u32>)
        ensures
            r@ == self@.times,
    {
        &self.times
    }

    /// What the run does next.
    pub fn next_action(&self) -> (r: Action)
        requires
            self.wf(),
        ensures
            r == next_of(self@),
    {
        if self.failed {
            Action::Stopped
        } else if self.times.len() < self.count as usize {
            let n = self.times.len() as u32;
            Action::Probe { seq: n, pause_first: n > 0 }
        } else {
            Action::Finish(stats_of(&self.times))
        }
    }

    /// Takes the outcome of decoding the reply to the current probe, of `len`
    /// bytes and `us` microseconds. A usable reply is timed and gives its
    /// progress line and, where verbose, its listing; any other aborts the run.
    pub fn record_response(
        &mut self,
        d: Result<Response, DecodeError>,
        len: usize,
        us: u32,
        server: &str,
        verbose: bool,
    ) -> (r: Result<Vec<Vec<u8>>, RunError>)
        requires
            old(self).wf(),
            probing(old(self)@),
        ensures
            final(self).wf(),
            final(self)@.count == old(self)@.count,
            match verdict(d, verbose) {
                Ok(s) => r matches Ok(l) && lines_of(l@) == seq![
                    progress_text(len as nat, server.spec_bytes(), old(self)@.times.len(), us as nat),
                ] + s && final(self)@.times == old(self)@.times.push(us) && !final(self)@.failed,
                Err(e) => r == Err::<Vec<Vec<u8>>, RunError>(e) && final(self)@.times == old(
                    self,
                )@.times && final(self)@.failed,
            },
    {
        match assess(d, verbose) {
            Ok(rest) => {
                let seq = self.times.len() as u32;
                let mut lines: Vec<Vec<u8>> = Vec::new();
                lines.push(progress_line(len, server, seq, us));
                let mut i: usize = 0;
                while i < rest.len()
                    invariant
                        i <= rest@.len(),
                        lines_of(lines@) == seq![
                            progress_text(len as nat, server.spec_bytes(), seq as nat, us as nat),
                        ] + lines_of(rest@.subrange(0, i as int)),
                    decreases rest@.len() - i,
                {
                    let ghost prev = lines@;
                    lines.push(rest[i].clone());
                    proof {
                        assert(lines_of(lines@) =~= lines_of(prev).push(rest@[i as int]@));
                        assert(lines_of(rest@.subrange(0, i + 1)) =~= lines_of(
                            rest@.subrange(0, i as int),
                        ).push(rest@[i as int]@));
                    }
                    i = i + 1;
                }
                assert(rest@.subrange(0, rest@.len() as int) =~= rest@);
                self.times.push(us);
                Ok(lines)
            },
            Err(e) => {
                self.failed = true;
                Err(e)
            },
        }
    }

    /// Takes the raw reply to the current probe: decodes it and records it.
    /// Whatever the decoder makes of it, the run either times this probe and
    /// leads with its progress line, or is aborted; a reply without a valid
    /// header always aborts it. A reply that the parser reads whole goes on
    /// exactly when its response code is accepted; one with an unknown record
    /// type code is timed with its progress line alone; any other parser fault
    /// aborts the run with the parser's account of it.
    pub fn on_reply(&mut self, reply: &[u8], us: u32, server: &str, verbose: bool) -> (r: Result<
        Vec<Vec<u8>>,
        RunError,
    >)
        requires
            old(self).wf(),
            probing(old(self)@),
        ensures
            final(self).wf(),
            final(self)@.count == old(self)@.count,
            r matches Ok(l) ==> l@.len() >= 1 && l@[0]@ == progress_text(
                reply@.len(),
                server.spec_bytes(),
                old(self)@.times.len(),
                us as nat,
            ) && final(self)@.times == old(self)@.times.push(us) && !final(self)@.failed,
            r is Err ==> final(self)@.times == old(self)@.times && final(self)@.failed,
            header_of(reply@) is None ==> r matches Err(RunError::Decode(_)),
            parse_outcome(reply@) == 1 ==> (r matches Ok(l) && l@.len() == 1),
            header_of(reply@) is Some && parse_outcome(reply@) == 0 ==> if code_accepted(
                header_of(reply@)->Some_0.response_code,
            ) {
                r matches Ok(l) && l@.len() == if verbose {
                    answer_total(reply@) + 3
                } else {
                    1
                }
            } else {
                r == Err::<Vec<Vec<u8>>, RunError>(
                    RunError::Protocol(header_of(reply@)->Some_0.response_code),
                )
            },
            parse_outcome(reply@) != 0 && parse_outcome(reply@) != 1 ==> (r matches Err(
                RunError::Decode(c),
            ) && c@ == parse_fault_text(reply@)),
    {
        let d = decode_response(reply);
        let ghost dv = d;
        let r = self.record_response(d, reply.len(), us, server, verbose);
        proof {
            if r is Ok {
                let l = r->Ok_0;
                let s = verdict(dv, verbose)->Ok_0;
                assert(lines_of(l@) == seq![
                    progress_text(reply@.len(), server.spec_bytes(), old(self)@.times.len(), us as nat),
                ] + s);
                assert(lines_of(l@).len() == l@.len());
                assert(lines_of(l@)[0] == l@[0]@);
            }
            if dv is Ok {
                let m = dv->Ok_0;
                assert(listing(m).len() == m.answers@.len() + 2);
            }
        }
        r
    }

    /// Aborts the run with `e`, as on a failed exchange; the times stay.
    pub fn abort(&mut self, e: RunError) -> (r: RunError)
        requires
            old(self).wf(),
        ensures
            final(self).wf(),
            r == e,
            final(self)@ == (RunView { failed: true, ..old(self)@ }),
    {
        self.failed = true;
        e
    }
}

/// A run of no probes finishes at once, without statistics and without error.
pub proof fn lemma_empty_run(count: u32)
    requires
        count == 0,
    ensures
        next_of(RunView { count: count as nat, times: Seq::empty(), failed: false })
            == Action::Finish(None),
{
}

/// An aborted run sends no more probes and prints no statistics.
pub proof fn lemma_aborted_run_stops(v: RunView)
    requires
        v.failed,
    ensures
        next_of(v) == Action::Stopped,
{
}

/// A reply whose record type the decoder does not know still counts as a timed
/// probe, and nothing is listed for it, verbose or not.
pub proof fn lemma_unsupported_type_timed(verbose: bool)
    ensures
        verdict(Err(DecodeError::UnsupportedType), verbose) == Ok::<Seq<Seq<u8>>, RunError>(
            Seq::empty(),
        ),
{
}

/// The probes of a run that is not aborted are numbered from zero without a
/// gap, a pause coming before each but the first, until all are done.
pub proof fn lemma_probe_sequence(v: RunView)
    requires
        !v.failed,
        v.times.len() <= v.count,
        v.count <= u32::MAX,
    ensures
        v.times.len() < v.count ==> next_of(v) == (Action::Probe {
            seq: v.times.len() as u32,
            pause_first: v.times.len() > 0,
        }),
        v.times.len() == v.count ==> next_of(v) == Action::Finish(stats_spec(v.times)),
{
}

} // verus!
