//! Framing of payloads on a byte stream, and the decisions inside the socket
//! helpers: retrying a bind, the interruptible sleep, and telling a genuine
//! accepted connection from the timer's probe.
use vstd::prelude::*;

use crate::bytes::{be_u64, be_u64_value, lemma_be_u64_value_of_bytes, u64_from_be, u64_to_be};

verus! {

/// Bytes of the length prefix in front of every frame.
pub const LENGTH_PREFIX_LEN: usize = 8;

/// The OS error number for an address that is already in use.
pub const ADDRESS_IN_USE: i32 = 0x62;

/// How long to wait before binding a port in use again.
pub const BIND_RETRY_INTERVAL_MS: u64 = 100;

/// The bytes sent for one payload: its length, big-endian in eight bytes, then it.
pub open spec fn framed(p: Seq<u8>) -> Seq<u8> {
    be_u64(p.len() as u64) + p
}

/// Why a buffer is not one frame.
#[derive(Debug, PartialEq, Eq, Structural)]
pub enum FrameError {
    /// Fewer bytes than the length prefix takes.
    MissingLength,
    /// The prefix declares another length than the bytes that follow it.
    LengthMismatch { declared: u64, available: u64 },
}

/// What a buffer that should hold exactly one frame holds.
pub open spec fn unframed(b: Seq<u8>) -> Result<Seq<u8>, FrameError> {
    if b.len() < LENGTH_PREFIX_LEN {
        Err(FrameError::MissingLength)
    } else if be_u64_value(b) != (b.len() - LENGTH_PREFIX_LEN) as u64 {
        Err(
            FrameError::LengthMismatch {
                declared: be_u64_value(b),
                available: (b.len() - LENGTH_PREFIX_LEN) as u64,
            },
        )
    } else {
        Ok(b.subrange(LENGTH_PREFIX_LEN as int, b.len() as int))
    }
}

/// Unframing a framed payload gives the payload back.
pub proof fn lemma_unframe_frame(p: Seq<u8>)
    requires
        p.len() + LENGTH_PREFIX_LEN <= u64::MAX,
    ensures
        unframed(framed(p)) == Ok::<Seq<u8>, FrameError>(p),
{
    let b = framed(p);
    lemma_be_u64_value_of_bytes(p.len() as u64);
    assert(b.subrange(0, 8) =~= be_u64(p.len() as u64));
    assert(be_u64_value(b) == be_u64_value(b.subrange(0, 8)));
    assert(b.subrange(8, b.len() as int) =~= p);
}

/// The length prefix followed by the payload, ready for one write.
pub fn frame(payload: &[u8]) -> (r: Vec<u8>)
    requires
        payload@.len() + LENGTH_PREFIX_LEN <= usize::MAX,
    ensures
        r@ == framed(payload@),
{
    let mut r = u64_to_be(payload.len() as u64);
    let mut i: usize = 0;
    while i < payload.len()
        invariant
            i <= payload@.len(),
            r@ == be_u64(payload@.len() as u64) + payload@.subrange(0, i as int),
        decreases payload@.len() - i,
    {
        r.push(payload[i]);
        i += 1;
        assert(payload@.subrange(0, i as int) =~= payload@.subrange(0, i - 1) + seq![
            payload@[i - 1],
        ]);
    }
    assert(payload@.subrange(0, payload@.len() as int) =~= payload@);
    r
}

/// The payload length that an eight-byte prefix announces.
pub fn frame_length(header: [u8; 8]) -> (r: u64)
    ensures
        r == be_u64_value(header@),
{
    let h: &[u8] = &header;
    assert(h@.subrange(0, 8) =~= header@);
    u64_from_be(h, 0)
}

/// The payload of a buffer that holds exactly one frame.
pub fn unframe(b: &[u8]) -> (r: Result<Vec<u8>, FrameError>)
    ensures
        match r {
            Ok(p) => unframed(b@) == Ok::<Seq<u8>, FrameError>(p@),
            Err(e) => unframed(b@) == Err::<Seq<u8>, FrameError>(e),
        },
{
    if b.len() < LENGTH_PREFIX_LEN {
        return Err(FrameError::MissingLength);
    }
    let declared = u64_from_be(b, 0);
    assert(be_u64_value(b@.subrange(0, 8)) == be_u64_value(b@));
    let available = (b.len() - LENGTH_PREFIX_LEN) as u64;
    if declared != available {
        return Err(FrameError::LengthMismatch { declared, available });
    }
    let mut p: Vec<u8> = Vec::new();
    let mut i: usize = LENGTH_PREFIX_LEN;
    while i < b.len()
        invariant
            LENGTH_PREFIX_LEN <= i <= b@.len(),
            p@ == b@.subrange(LENGTH_PREFIX_LEN as int, i as int),
        decreases b@.len() - i,
    {
        p.push(b[i]);
        i += 1;
        assert(p@ =~= b@.subrange(LENGTH_PREFIX_LEN as int, i as int));
    }
    Ok(p)
}

/// Whether a failed bind is worth retrying: only while the address is in use.
pub fn bind_should_retry(os_error: Option<i32>) -> (r: bool)
    ensures
        r == (os_error == Some(ADDRESS_IN_USE)),
{
    match os_error {
        Some(code) => code == ADDRESS_IN_USE,
        None => false,
    }
}

/// The predicate shared by a sleeper and its interrupter.
#[derive(Debug, PartialEq, Eq, Structural)]
pub struct SleepState {
    pub interrupted: bool,
}

impl SleepState {
    /// Nobody has interrupted yet.
    pub fn new() -> (r: SleepState)
        ensures
            !r.interrupted,
    {
        SleepState { interrupted: false }
    }

    /// What the sleeper does on waking, `timed_out` telling whether its wait ran
    /// out: `None` to wait again, `Some(true)` when the sleep ran its course,
    /// `Some(false)` when it was interrupted. Once the sleep has ended the
    /// predicate is set, so that a later interrupt reports that it came late.
    pub fn wake(&mut self, timed_out: bool) -> (r: Option<bool>)
        ensures
            r == (if timed_out {
                Some(!old(self).interrupted)
            } else if old(self).interrupted {
                Some(false)
            } else {
                None::<bool>
            }),
            final(self).interrupted == (old(self).interrupted || timed_out),
    {
        if timed_out {
            let finished = !self.interrupted;
            self.interrupted = true;
            Some(finished)
        } else if self.interrupted {
            Some(false)
        } else {
            None
        }
    }

    /// Interrupts the sleep: true if this call set the predicate, false if it was
    /// set already.
    pub fn interrupt(&mut self) -> (r: bool)
        ensures
            r == !old(self).interrupted,
            final(self).interrupted,
    {
        if self.interrupted {
            false
        } else {
            self.interrupted = true;
            true
        }
    }
}

/// A socket address as plain values.
#[derive(Debug, Clone, Copy, PartialEq, Eq, Structural)]
pub enum Endpoint {
    V4 { ip: u32, port: u16 },
    V6 { ip: u128, port: u16, flowinfo: u32, scope_id: u32 },
}

/// What the timer task of a cancelable accept reports.
#[derive(Debug, Clone, Copy, PartialEq, Eq, Structural)]
pub enum ProbeReport {
    /// It was interrupted, or its probe connection could not be made.
    NoProbe,
    /// Its probe connection left from this local address.
    Probed(Endpoint),
    /// The task ended without a report.
    Lost,
}

/// Whether the connection accepted from `accepted` is a genuine client rather
/// than the timer's probe: true unless the probe is what arrived, or the timer
/// task was lost.
pub fn accepted_is_genuine(probe: ProbeReport, accepted: Endpoint) -> (r: bool)
    ensures
        r == match probe {
            ProbeReport::NoProbe => true,
            ProbeReport::Probed(local) => local != accepted,
            ProbeReport::Lost => false,
        },
{
    match probe {
        ProbeReport::NoProbe => true,
        ProbeReport::Probed(local) => local != accepted,
        ProbeReport::Lost => false,
    }
}

} // verus!
