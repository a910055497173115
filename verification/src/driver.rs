//! The sizing-retry drivers, one per conversion direction.
//!
//! The native conversion primitive reports required buffer sizes through a
//! dual-call protocol: a call with a zero-length destination answers with
//! the required unit count, a call with room writes the units and answers
//! with the count written, and an undersized destination fails with
//! "insufficient buffer".  Each driver here owns every decision of that
//! protocol: the empty-input normalization, the over-allocated fast path,
//! the exact two-pass fallback, the strict-versus-lossy substitution
//! policy, and the final truncation to the reported count.  The native
//! call itself is outside work: the caller performs the call a driver asks
//! for ([`WideToMb::next_call`]) and reports what came back
//! ([`WideToMb::step`]); the driver's contracts pin down the follow-up for
//! every possible outcome.

use vstd::prelude::*;
use vstd::slice::slice_to_vec;

use crate::codes::ERROR_INSUFFICIENT_BUFFER;
use crate::codes::ERROR_INVALID_PARAMETER;
use crate::codes::ERROR_NO_UNICODE_TRANSLATION;
use crate::codes::NATIVE_LEN_MAX;
use crate::codes::OsResult;

verus! {

/// What the next native conversion call should be handed: the destination
/// capacity to allocate, and whether the call should be given a
/// used-default-character slot to fill.
#[derive(Clone, Copy, Debug, PartialEq, Eq)]
pub struct CallSpec {
    pub dest_capacity: usize,
    pub want_used_default: bool,
}

/// The interpreted outcome of one native conversion call: the unit count
/// from a non-zero return, or the last-error code read after a zero
/// return, together with the used-default-character slot (`false` whenever
/// the slot was not requested or was left clear).
#[derive(Clone, Copy, Debug, PartialEq, Eq)]
pub struct CallOutcome {
    pub count: OsResult<usize>,
    pub used_default: bool,
}

/// A driver's decision after a native call.
#[derive(Clone, Copy, Debug, PartialEq, Eq)]
pub enum Step {
    /// Make the call described by `next_call` and report its outcome.
    Continue,
    /// The conversion succeeded: keep exactly `count` units of the buffer
    /// the last call filled (see [`take_reported`]) and return them.
    Done { count: usize },
    /// The conversion failed with this platform error code; no buffer is
    /// returned.
    Fail { code: u32 },
    /// The two passes of the exact protocol reported different counts: the
    /// native facility behaved inconsistently between calls.  This is an
    /// invariant violation, not a recoverable error; callers assert on it.
    Mismatch,
}

/// Where a driver stands in the sizing-retry protocol.
#[derive(Clone, Copy, Debug, PartialEq, Eq)]
pub enum Phase {
    /// About to try the single over-allocated fast-path fill call.
    Fast,
    /// The fast path ran out of room: about to probe with a zero-length
    /// destination for the exact required count.
    Probe,
    /// The probe reported `required` units: about to make the exact fill
    /// call.
    Exact { required: usize },
    /// A decision has been returned; no further call is expected.
    Settled,
}

/// An empty wide source is replaced by a single NUL unit, so the native
/// calls never see a zero source length, which they treat as an error.
pub open spec fn normalized_wide(x: Seq<u16>) -> Seq<u16> {
    if x.len() == 0 {
        seq![0u16]
    } else {
        x
    }
}

/// An empty byte source is replaced by a single NUL byte, for the same
/// reason as [`normalized_wide`].
pub open spec fn normalized_bytes(x: Seq<u8>) -> Seq<u8> {
    if x.len() == 0 {
        seq![0u8]
    } else {
        x
    }
}

fn normalize_wide(x: &[u16]) -> (r: Vec<u16>)
    ensures
        r@ == normalized_wide(x@),
{
    if x.len() == 0 {
        let mut v: Vec<u16> = Vec::new();
        v.push(0u16);
        proof {
            assert(v@ =~= seq![0u16]);
        }
        v
    } else {
        slice_to_vec(x)
    }
}

fn normalize_bytes(x: &[u8]) -> (r: Vec<u8>)
    ensures
        r@ == normalized_bytes(x@),
{
    if x.len() == 0 {
        let mut v: Vec<u8> = Vec::new();
        v.push(0u8);
        proof {
            assert(v@ =~= seq![0u8]);
        }
        v
    } else {
        slice_to_vec(x)
    }
}

/// Keep exactly the unit count reported by the final fill call: the
/// returned buffer's length equals the reported count, never the
/// provisional allocation size.  A count at or beyond the buffer's length
/// leaves the buffer unchanged.
pub fn take_reported<T>(buf: Vec<T>, count: usize) -> (r: Vec<T>)
    ensures
        count <= buf@.len() ==> r@ == buf@.subrange(0, count as int) && r@.len() == count,
        count > buf@.len() ==> r@ == buf@,
{
    let mut b = buf;
    b.truncate(count);
    b
}

/// The wide-to-multibyte sizing-retry driver, in strict or lossy mode.
///
/// Strict mode requests the used-default-character slot on every fill call
/// and fails with "no unicode translation" as soon as the slot is set;
/// lossy mode never requests the slot and accepts substitutions silently.
#[derive(Debug)]
pub struct WideToMb {
    /// Target code page identifier.
    pub code_page: u32,
    /// Conversion flags handed to every native call.
    pub flags: u32,
    /// Whether a set used-default-character slot fails the conversion.
    pub strict: bool,
    /// The normalized source: never empty.
    pub source: Vec<u16>,
    /// Where the driver stands in the protocol.
    pub phase: Phase,
}

impl WideToMb {
    /// The driver's invariant: the normalized source is never empty, its
    /// length fits the native size parameter, and so does every
    /// destination capacity the driver will ask for.
    pub open spec fn wf(self) -> bool {
        &&& 1 <= self.source@.len()
        &&& self.source@.len() <= NATIVE_LEN_MAX
        &&& (self.phase is Fast ==> self.source@.len() * 4 <= NATIVE_LEN_MAX)
        &&& (self.phase matches Phase::Exact { required } ==> required <= NATIVE_LEN_MAX)
    }

    /// True until the driver has returned `Done`, `Fail` or `Mismatch`.
    pub open spec fn in_progress(self) -> bool {
        !(self.phase is Settled)
    }

    /// Exec query for [`Self::in_progress`].
    pub fn is_in_progress(&self) -> (b: bool)
        ensures
            b == self.in_progress(),
    {
        match self.phase {
            Phase::Settled => false,
            _ => true,
        }
    }

    /// Begin a conversion on the fast path: the first call's destination
    /// is four bytes per source unit, an upper bound for every supported
    /// code page.  The source and that destination length are validated
    /// against the native size parameter before any call is made; an
    /// overflow fails with "invalid parameter".
    pub fn begin(code_page: u32, wc_flags: u32, x: &[u16], strict: bool) -> (r: OsResult<WideToMb>)
        ensures
            normalized_wide(x@).len() * 4 <= NATIVE_LEN_MAX ==> (r matches Ok(s) && {
                &&& s.code_page == code_page
                &&& s.flags == wc_flags
                &&& s.strict == strict
                &&& s.source@ == normalized_wide(x@)
                &&& s.phase is Fast
                &&& s.wf()
            }),
            normalized_wide(x@).len() * 4 > NATIVE_LEN_MAX ==> r == Err::<WideToMb, u32>(
                ERROR_INVALID_PARAMETER,
            ),
    {
        let source = normalize_wide(x);
        if source.len() > NATIVE_LEN_MAX / 4 {
            Err(ERROR_INVALID_PARAMETER)
        } else {
            Ok(WideToMb { code_page, flags: wc_flags, strict, source, phase: Phase::Fast })
        }
    }

    /// Begin a conversion with the exact two-pass protocol directly,
    /// skipping the fast path: first a zero-length-destination probe, then
    /// the exact fill call.  The fast path's fallback goes through exactly
    /// this state (see [`lemma_fallback_is_two_pass`]).
    pub fn begin_exact(code_page: u32, wc_flags: u32, x: &[u16], strict: bool) -> (r: OsResult<
        WideToMb,
    >)
        ensures
            normalized_wide(x@).len() <= NATIVE_LEN_MAX ==> (r matches Ok(s) && {
                &&& s.code_page == code_page
                &&& s.flags == wc_flags
                &&& s.strict == strict
                &&& s.source@ == normalized_wide(x@)
                &&& s.phase is Probe
                &&& s.wf()
            }),
            normalized_wide(x@).len() > NATIVE_LEN_MAX ==> r == Err::<WideToMb, u32>(
                ERROR_INVALID_PARAMETER,
            ),
    {
        let source = normalize_wide(x);
        if source.len() > NATIVE_LEN_MAX {
            Err(ERROR_INVALID_PARAMETER)
        } else {
            Ok(WideToMb { code_page, flags: wc_flags, strict, source, phase: Phase::Probe })
        }
    }

    /// The native call the driver is waiting for: the conversion of
    /// `source` under `code_page` and `flags` into a destination of
    /// `dest_capacity` bytes, with a used-default-character slot if and
    /// only if `want_used_default`.
    pub fn next_call(&self) -> (r: CallSpec)
        requires
            self.wf(),
            self.in_progress(),
        ensures
            self.phase is Fast ==> r.dest_capacity == self.source@.len() * 4
                && r.want_used_default == self.strict,
            self.phase is Probe ==> r.dest_capacity == 0 && !r.want_used_default,
            self.phase matches Phase::Exact { required } ==> r.dest_capacity == required
                && r.want_used_default == self.strict,
    {
        match self.phase {
            Phase::Fast => CallSpec {
                dest_capacity: self.source.len() * 4,
                want_used_default: self.strict,
            },
            Phase::Probe => CallSpec { dest_capacity: 0, want_used_default: false },
            Phase::Exact { required } => CallSpec {
                dest_capacity: required,
                want_used_default: self.strict,
            },
            Phase::Settled => vstd::pervasive::unreached(),
        }
    }

    pub open spec fn settled(self) -> WideToMb {
        WideToMb { phase: Phase::Settled, ..self }
    }

    /// The driver's decision for one native-call outcome: the follow-up
    /// state, and what the caller should do next.
    ///
    /// On the fast path a success is checked against the substitution
    /// slot first: in strict mode a set slot fails the whole conversion
    /// with "no unicode translation" even though the native call itself
    /// succeeded.  "Insufficient buffer" switches to the exact protocol;
    /// any other failure propagates unchanged.  A probe's answer becomes
    /// the exact call's destination capacity after the same length
    /// validation the wrappers apply everywhere.  The exact fill call is
    /// checked against the substitution slot, then against the probe's
    /// count: a disagreement is the protocol inconsistency `Mismatch`.
    pub open spec fn step_spec(self, outcome: CallOutcome) -> (WideToMb, Step) {
        match self.phase {
            Phase::Fast => match outcome.count {
                Ok(written) => if self.strict && outcome.used_default {
                    (self.settled(), Step::Fail { code: ERROR_NO_UNICODE_TRANSLATION })
                } else {
                    (self.settled(), Step::Done { count: written })
                },
                Err(e) => if e == ERROR_INSUFFICIENT_BUFFER {
                    (WideToMb { phase: Phase::Probe, ..self }, Step::Continue)
                } else {
                    (self.settled(), Step::Fail { code: e })
                },
            },
            Phase::Probe => match outcome.count {
                Ok(required) => if required <= NATIVE_LEN_MAX {
                    (WideToMb { phase: Phase::Exact { required }, ..self }, Step::Continue)
                } else {
                    (self.settled(), Step::Fail { code: ERROR_INVALID_PARAMETER })
                },
                Err(e) => (self.settled(), Step::Fail { code: e }),
            },
            Phase::Exact { required } => match outcome.count {
                Ok(written) => if self.strict && outcome.used_default {
                    (self.settled(), Step::Fail { code: ERROR_NO_UNICODE_TRANSLATION })
                } else if written != required {
                    (self.settled(), Step::Mismatch)
                } else {
                    (self.settled(), Step::Done { count: written })
                },
                Err(e) => (self.settled(), Step::Fail { code: e }),
            },
            Phase::Settled => (self, Step::Mismatch),
        }
    }

    /// Feed one native-call outcome to the driver.  The new state and the
    /// decision are exactly [`Self::step_spec`] of the old state.
    pub fn step(&mut self, outcome: CallOutcome) -> (r: Step)
        requires
            old(self).wf(),
            old(self).in_progress(),
        ensures
            final(self).wf(),
            *final(self) == old(self).step_spec(outcome).0,
            r == old(self).step_spec(outcome).1,
    {
        let ph = self.phase;
        match ph {
            Phase::Fast => match outcome.count {
                Ok(written) => {
                    self.phase = Phase::Settled;
                    if self.strict && outcome.used_default {
                        Step::Fail { code: ERROR_NO_UNICODE_TRANSLATION }
                    } else {
                        Step::Done { count: written }
                    }
                },
                Err(e) => {
                    if e == ERROR_INSUFFICIENT_BUFFER {
                        self.phase = Phase::Probe;
                        Step::Continue
                    } else {
                        self.phase = Phase::Settled;
                        Step::Fail { code: e }
                    }
                },
            },
            Phase::Probe => match outcome.count {
                Ok(required) => {
                    if required <= NATIVE_LEN_MAX {
                        self.phase = Phase::Exact { required };
                        Step::Continue
                    } else {
                        self.phase = Phase::Settled;
                        Step::Fail { code: ERROR_INVALID_PARAMETER }
                    }
                },
                Err(e) => {
                    self.phase = Phase::Settled;
                    Step::Fail { code: e }
                },
            },
            Phase::Exact { required } => match outcome.count {
                Ok(written) => {
                    self.phase = Phase::Settled;
                    if self.strict && outcome.used_default {
                        Step::Fail { code: ERROR_NO_UNICODE_TRANSLATION }
                    } else if written != required {
                        Step::Mismatch
                    } else {
                        Step::Done { count: written }
                    }
                },
                Err(e) => {
                    self.phase = Phase::Settled;
                    Step::Fail { code: e }
                },
            },
            Phase::Settled => vstd::pervasive::unreached(),
        }
    }
}

/// A strict driver fails with "no unicode translation" on exactly the
/// successful fill outcomes where a lossy driver accepts the buffer, with
/// its substituted default characters, as a success.
pub proof fn lemma_strict_rejects_lossy_accepts(strict_s: WideToMb, lossy_s: WideToMb, outcome: CallOutcome)
    requires
        strict_s.phase is Fast,
        lossy_s.phase is Fast,
        strict_s.strict,
        !lossy_s.strict,
        outcome.count is Ok,
        outcome.used_default,
    ensures
        strict_s.step_spec(outcome).1 == (Step::Fail { code: ERROR_NO_UNICODE_TRANSLATION }),
        lossy_s.step_spec(outcome).1 == (Step::Done { count: outcome.count->Ok_0 }),
{
}

/// After the fast path fails with "insufficient buffer", the driver stands
/// in exactly the state a direct two-pass driver starts from (compare
/// [`WideToMb::begin_exact`]): since every later decision is a function of
/// the state and the outcomes alone, the fallback's output is identical to
/// a two-pass-only conversion's.
pub proof fn lemma_fallback_is_two_pass(s: WideToMb, two_pass: WideToMb, outcome: CallOutcome)
    requires
        s.phase is Fast,
        two_pass.phase is Probe,
        s.code_page == two_pass.code_page,
        s.flags == two_pass.flags,
        s.strict == two_pass.strict,
        s.source == two_pass.source,
        outcome.count == Err::<usize, u32>(ERROR_INSUFFICIENT_BUFFER),
    ensures
        s.step_spec(outcome).0 == two_pass,
        s.step_spec(outcome).1 == Step::Continue,
{
}

/// The multibyte-to-wide sizing-retry driver.
///
/// This direction has no substitution policy: the native call either
/// converts or fails.  Its fast path sizes the destination at one wide
/// unit per source byte, an upper bound for code pages without combining
/// sequences.
#[derive(Debug)]
pub struct MbToWide {
    /// Source code page identifier.
    pub code_page: u32,
    /// Conversion flags handed to every native call.
    pub flags: u32,
    /// The normalized source: never empty.
    pub source: Vec<u8>,
    /// Where the driver stands in the protocol.
    pub phase: Phase,
}

impl MbToWide {
    /// The driver's invariant: the normalized source is never empty and
    /// every buffer length the driver will ask for fits the native size
    /// parameter.
    pub open spec fn wf(self) -> bool {
        &&& 1 <= self.source@.len()
        &&& self.source@.len() <= NATIVE_LEN_MAX
        &&& (self.phase matches Phase::Exact { required } ==> required <= NATIVE_LEN_MAX)
    }

    /// True until the driver has returned `Done`, `Fail` or `Mismatch`.
    pub open spec fn in_progress(self) -> bool {
        !(self.phase is Settled)
    }

    /// Exec query for [`Self::in_progress`].
    pub fn is_in_progress(&self) -> (b: bool)
        ensures
            b == self.in_progress(),
    {
        match self.phase {
            Phase::Settled => false,
            _ => true,
        }
    }

    /// Begin a conversion on the fast path: the first call's destination
    /// capacity equals the source byte count.  Both lengths are validated
    /// against the native size parameter before any call is made.
    pub fn begin(code_page: u32, mb_flags: u32, x: &[u8]) -> (r: OsResult<MbToWide>)
        ensures
            normalized_bytes(x@).len() <= NATIVE_LEN_MAX ==> (r matches Ok(s) && {
                &&& s.code_page == code_page
                &&& s.flags == mb_flags
                &&& s.source@ == normalized_bytes(x@)
                &&& s.phase is Fast
                &&& s.wf()
            }),
            normalized_bytes(x@).len() > NATIVE_LEN_MAX ==> r == Err::<MbToWide, u32>(
                ERROR_INVALID_PARAMETER,
            ),
    {
        let source = normalize_bytes(x);
        if source.len() > NATIVE_LEN_MAX {
            Err(ERROR_INVALID_PARAMETER)
        } else {
            Ok(MbToWide { code_page, flags: mb_flags, source, phase: Phase::Fast })
        }
    }

    /// Begin a conversion with the exact two-pass protocol directly,
    /// skipping the fast path.
    pub fn begin_exact(code_page: u32, mb_flags: u32, x: &[u8]) -> (r: OsResult<MbToWide>)
        ensures
            normalized_bytes(x@).len() <= NATIVE_LEN_MAX ==> (r matches Ok(s) && {
                &&& s.code_page == code_page
                &&& s.flags == mb_flags
                &&& s.source@ == normalized_bytes(x@)
                &&& s.phase is Probe
                &&& s.wf()
            }),
            normalized_bytes(x@).len() > NATIVE_LEN_MAX ==> r == Err::<MbToWide, u32>(
                ERROR_INVALID_PARAMETER,
            ),
    {
        let source = normalize_bytes(x);
        if source.len() > NATIVE_LEN_MAX {
            Err(ERROR_INVALID_PARAMETER)
        } else {
            Ok(MbToWide { code_page, flags: mb_flags, source, phase: Phase::Probe })
        }
    }

    /// The native call the driver is waiting for: the conversion of
    /// `source` under `code_page` and `flags` into a destination of
    /// `next_capacity` wide units.  No call of this direction takes a
    /// used-default-character slot.
    pub fn next_capacity(&self) -> (r: usize)
        requires
            self.wf(),
            self.in_progress(),
        ensures
            self.phase is Fast ==> r == self.source@.len(),
            self.phase is Probe ==> r == 0,
            self.phase matches Phase::Exact { required } ==> r == required,
    {
        match self.phase {
            Phase::Fast => self.source.len(),
            Phase::Probe => 0,
            Phase::Exact { required } => required,
            Phase::Settled => vstd::pervasive::unreached(),
        }
    }

    pub open spec fn settled(self) -> MbToWide {
        MbToWide { phase: Phase::Settled, ..self }
    }

    /// The driver's decision for one native-call outcome: a fast-path or
    /// exact-fill success is complete; "insufficient buffer" on the fast
    /// path switches to the exact protocol; a probe's answer becomes the
    /// exact call's capacity after length validation; the exact fill must
    /// agree with the probe's count or the driver reports `Mismatch`; any
    /// other failure propagates unchanged.
    pub open spec fn step_spec(self, outcome: OsResult<usize>) -> (MbToWide, Step) {
        match self.phase {
            Phase::Fast => match outcome {
                Ok(written) => (self.settled(), Step::Done { count: written }),
                Err(e) => if e == ERROR_INSUFFICIENT_BUFFER {
                    (MbToWide { phase: Phase::Probe, ..self }, Step::Continue)
                } else {
                    (self.settled(), Step::Fail { code: e })
                },
            },
            Phase::Probe => match outcome {
                Ok(required) => if required <= NATIVE_LEN_MAX {
                    (MbToWide { phase: Phase::Exact { required }, ..self }, Step::Continue)
                } else {
                    (self.settled(), Step::Fail { code: ERROR_INVALID_PARAMETER })
                },
                Err(e) => (self.settled(), Step::Fail { code: e }),
            },
            Phase::Exact { required } => match outcome {
                Ok(written) => if written != required {
                    (self.settled(), Step::Mismatch)
                } else {
                    (self.settled(), Step::Done { count: written })
                },
                Err(e) => (self.settled(), Step::Fail { code: e }),
            },
            Phase::Settled => (self, Step::Mismatch),
        }
    }

    /// Feed one native-call outcome to the driver.  The new state and the
    /// decision are exactly [`Self::step_spec`] of the old state.
    pub fn step(&mut self, outcome: OsResult<usize>) -> (r: Step)
        requires
            old(self).wf(),
            old(self).in_progress(),
        ensures
            final(self).wf(),
            *final(self) == old(self).step_spec(outcome).0,
            r == old(self).step_spec(outcome).1,
    {
        let ph = self.phase;
        match ph {
            Phase::Fast => match outcome {
                Ok(written) => {
                    self.phase = Phase::Settled;
                    Step::Done { count: written }
                },
                Err(e) => {
                    if e == ERROR_INSUFFICIENT_BUFFER {
                        self.phase = Phase::Probe;
                        Step::Continue
                    } else {
                        self.phase = Phase::Settled;
                        Step::Fail { code: e }
                    }
                },
            },
            Phase::Probe => match outcome {
                Ok(required) => {
                    if required <= NATIVE_LEN_MAX {
                        self.phase = Phase::Exact { required };
                        Step::Continue
                    } else {
                        self.phase = Phase::Settled;
                        Step::Fail { code: ERROR_INVALID_PARAMETER }
                    }
                },
                Err(e) => {
                    self.phase = Phase::Settled;
                    Step::Fail { code: e }
                },
            },
            Phase::Exact { required } => match outcome {
                Ok(written) => {
                    self.phase = Phase::Settled;
                    if written != required {
                        Step::Mismatch
                    } else {
                        Step::Done { count: written }
                    }
                },
                Err(e) => {
                    self.phase = Phase::Settled;
                    Step::Fail { code: e }
                },
            },
            Phase::Settled => vstd::pervasive::unreached(),
        }
    }
}

} // verus!
