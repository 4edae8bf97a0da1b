//! Bookkeeping of the one capture session: format negotiation, the running
//! flag, per-block conversion and metering, and idempotent stop.
//!
//! The device stream and the container writer live with the caller; this
//! engine decides what is written and when the writer is finalised.
use crate::meter::AmplitudeMeter;
use crate::pcm::{block_len, block_level, canonical_of, level_of, to_canonical, SampleBlock};
use vstd::prelude::*;

verus! {

/// Bits per canonical sample.
pub const CANONICAL_BITS: u16 = 16;

/// Native sample formats a device may offer.
#[derive(Clone, Copy, Debug, PartialEq, Eq, Structural)]
pub enum SampleKind {
    I16,
    U16,
    F32,
    Unsupported,
}

/// What the default input device offers.
#[derive(Clone, Copy, Debug, PartialEq, Eq, Structural)]
pub struct DeviceConfig {
    pub channels: u16,
    pub sample_rate: u32,
    pub format: SampleKind,
}

/// The canonical container format: device channels and rate, 16-bit signed.
#[derive(Clone, Copy, Debug, PartialEq, Eq, Structural)]
pub struct CanonicalSpec {
    pub channels: u16,
    pub sample_rate: u32,
    pub bits_per_sample: u16,
}

#[derive(Clone, Copy, Debug, PartialEq, Eq, Structural)]
pub enum CaptureError {
    DeviceUnavailable,
    ConfigNegotiationFailed,
    FileCreateFailed,
    AlreadyRecording,
    NotRecording,
    FinalizeFailed,
}

/// One open capture: its destination, format, running flag and the number
/// of canonical samples handed to the writer so far.
#[derive(Clone, Debug)]
pub struct CaptureSession {
    pub path: String,
    pub spec: CanonicalSpec,
    pub format: SampleKind,
    pub running: bool,
    pub samples_written: u64,
}

/// A closed session whose writer is to be finalised exactly once.
#[derive(Clone, Debug)]
pub struct StoppedCapture {
    pub path: String,
    pub samples_written: u64,
}

/// Whether a device configuration can be captured in canonical form.
pub open spec fn usable(d: DeviceConfig) -> bool {
    d.channels > 0 && d.sample_rate > 0 && d.format != SampleKind::Unsupported
}

pub open spec fn negotiated(device: Option<DeviceConfig>) -> Result<CanonicalSpec, CaptureError> {
    match device {
        None => Err(CaptureError::DeviceUnavailable),
        Some(d) => if usable(d) {
            Ok(CanonicalSpec { channels: d.channels, sample_rate: d.sample_rate, bits_per_sample: 16 })
        } else {
            Err(CaptureError::ConfigNegotiationFailed)
        },
    }
}

/// Picks the canonical spec for the device's configuration.
pub fn negotiate(device: Option<DeviceConfig>) -> (r: Result<CanonicalSpec, CaptureError>)
    ensures
        r == negotiated(device),
{
    match device {
        None => Err(CaptureError::DeviceUnavailable),
        Some(d) => {
            if d.channels > 0 && d.sample_rate > 0 && d.format != SampleKind::Unsupported {
                Ok(CanonicalSpec {
                    channels: d.channels,
                    sample_rate: d.sample_rate,
                    bits_per_sample: CANONICAL_BITS,
                })
            } else {
                Err(CaptureError::ConfigNegotiationFailed)
            }
        },
    }
}

/// The state after `stop` and what it returns.
pub open spec fn stop_spec(v: Option<CaptureSession>) -> (Option<CaptureSession>, Result<
    StoppedCapture,
    CaptureError,
>) {
    (
        None,
        match v {
            None => Err(CaptureError::NotRecording),
            Some(s) => Ok(StoppedCapture { path: s.path, samples_written: s.samples_written }),
        },
    )
}

/// Stopping twice in a row: on an open session the first stop succeeds and
/// hands out the writer for finalisation; the second reports `NotRecording`.
pub proof fn stop_twice(v: Option<CaptureSession>)
    requires
        v is Some,
    ensures
        stop_spec(v).1 is Ok,
        stop_spec(stop_spec(v).0).1 == Err::<StoppedCapture, CaptureError>(CaptureError::NotRecording),
{
}

/// Whether a session is open and running.
pub open spec fn running(v: Option<CaptureSession>) -> bool {
    v matches Some(s) && s.running
}

/// A sample count advanced by `n`, saturating at the top of `u64`.
pub open spec fn saturating_count(c: u64, n: nat) -> u64 {
    if c + n > u64::MAX { u64::MAX } else { (c + n) as u64 }
}

/// Owner of the single capture session and publisher of the amplitude meter.
pub struct CaptureEngine {
    session: Option<CaptureSession>,
    meter: AmplitudeMeter,
    /// The level this engine last stored in the meter.
    published: Ghost<u32>,
}

impl View for CaptureEngine {
    type V = Option<CaptureSession>;

    closed spec fn view(&self) -> Option<CaptureSession> {
        self.session
    }
}

impl CaptureEngine {
    /// The level last stored in the shared meter by this engine: the level of
    /// the latest accepted non-empty block, or 0 after a stop.
    pub closed spec fn published(&self) -> u32 {
        self.published@
    }

    pub fn new() -> (r: CaptureEngine)
        ensures
            r@ is None,
            r.published() == 0,
    {
        CaptureEngine { session: None, meter: AmplitudeMeter::new(), published: Ghost(0) }
    }

    /// A handle on the shared meter, for readers on other threads.
    pub fn meter(&self) -> AmplitudeMeter {
        self.meter.clone()
    }

    pub fn is_open(&self) -> (r: bool)
        ensures
            r == self@ is Some,
    {
        self.session.is_some()
    }

    /// True while a session is open and accepting input.
    pub fn is_recording(&self) -> (r: bool)
        ensures
            r == running(self@),
    {
        match &self.session {
            Some(s) => s.running,
            None => false,
        }
    }

    /// Opens a session at `path`. `writer_created` reports whether the
    /// caller could create the container writer with `negotiate(device)`'s
    /// spec. A session already open is never replaced.
    pub fn start(&mut self, path: String, device: Option<DeviceConfig>, writer_created: bool) -> (r:
        Result<(), CaptureError>)
        ensures
            old(self)@ is Some ==> r == Err::<(), CaptureError>(CaptureError::AlreadyRecording),
            old(self)@ is None && negotiated(device) is Err ==> r == Err::<(), CaptureError>(
                negotiated(device)->Err_0,
            ),
            old(self)@ is None && negotiated(device) is Ok && !writer_created ==> r == Err::<
                (),
                CaptureError,
            >(CaptureError::FileCreateFailed),
            r is Ok <==> (old(self)@ is None && negotiated(device) is Ok && writer_created),
            r is Ok ==> final(self)@ == Some(
                CaptureSession {
                    path,
                    spec: negotiated(device)->Ok_0,
                    format: device->Some_0.format,
                    running: true,
                    samples_written: 0,
                },
            ),
            r is Err ==> final(self)@ == old(self)@,
            final(self).published() == old(self).published(),
    {
        if self.session.is_some() {
            return Err(CaptureError::AlreadyRecording);
        }
        let spec = match negotiate(device) {
            Ok(s) => s,
            Err(e) => return Err(e),
        };
        if !writer_created {
            return Err(CaptureError::FileCreateFailed);
        }
        let format = match device {
            Some(d) => d.format,
            None => SampleKind::Unsupported,
        };
        self.session = Some(CaptureSession { path, spec, format, running: true, samples_written: 0 });
        Ok(())
    }

    /// Handles one callback block: while the session runs, returns the
    /// canonical samples to append, counts them, and publishes the block's
    /// level. Otherwise the block is discarded and nothing changes.
    pub fn accept_block(&mut self, block: &SampleBlock) -> (r: Vec<i16>)
        ensures
            old(self)@ matches Some(s) ==> s.running ==> {
                &&& r@ == canonical_of(*block)
                &&& final(self)@ == Some(
                    CaptureSession {
                        samples_written: saturating_count(s.samples_written, r@.len()),
                        ..s
                    },
                )
            },
            !running(old(self)@) ==> r@.len() == 0 && final(self)@ == old(
                self,
            )@,
            running(old(self)@) && block_len(*block) > 0 ==> final(self).published() as int
                == level_of(canonical_of(*block)),
            !(running(old(self)@) && block_len(*block) > 0) ==> final(self).published() == old(
                self,
            ).published(),
    {
        let running = match &self.session {
            Some(s) => s.running,
            None => false,
        };
        if !running {
            return Vec::new();
        }
        let samples = to_canonical(block);
        proof {
            crate::pcm::canonical_is_exact(*block);
        }
        if let Some(level) = block_level(&samples) {
            self.meter.publish(level);
            self.published = Ghost(level);
        }
        let n = samples.len() as u64;
        match self.session.take() {
            Some(mut s) => {
                s.samples_written = s.samples_written.saturating_add(n);
                self.session = Some(s);
            },
            None => {},
        }
        samples
    }

    /// Soft stop: clears the running flag so later blocks are discarded, and
    /// zeroes the meter. The session stays open until `stop`.
    pub fn soft_stop(&mut self)
        ensures
            old(self)@ matches Some(s) ==> final(self)@ == Some(CaptureSession { running: false, ..s }),
            old(self)@ is None ==> final(self)@ is None,
            final(self).published() == 0,
    {
        self.meter.reset();
        self.published = Ghost(0);
        match self.session.take() {
            Some(mut s) => {
                s.running = false;
                self.session = Some(s);
            },
            None => {},
        }
    }

    /// Closes the session and hands out its writer's destination for
    /// finalisation. A second call finds no session and reports `NotRecording`,
    /// so a writer is never finalised twice.
    pub fn stop(&mut self) -> (r: Result<StoppedCapture, CaptureError>)
        ensures
            (final(self)@, r) == stop_spec(old(self)@),
            final(self).published() == 0,
    {
        self.meter.reset();
        self.published = Ghost(0);
        match self.session.take() {
            Some(s) => Ok(StoppedCapture { path: s.path, samples_written: s.samples_written }),
            None => Err(CaptureError::NotRecording),
        }
    }
}

} // verus!
