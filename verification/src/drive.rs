//! The device handle: discovery, the Closed/Open lifecycle, table-of-contents
//! queries, verbosity, and diagnostic draining.
//!
//! A handle is created Closed by a discovery operation and transitions to
//! Open exactly once, when [`CdromDrive::open`] succeeds after validating
//! the probed table of contents.  Releasing is idempotent: the first release
//! closes the device, any further release is a no-op.

use vstd::prelude::*;

use crate::diag::spec_drain;
use crate::diag::CddaString;
use crate::diag::DiagBuffer;
use crate::error::code_magnitude;
use crate::error::spec_description;
use crate::error::Error;
use crate::error::ErrorCode;
use crate::toc::disc_first;
use crate::toc::disc_last;
use crate::toc::has_audio_track;
use crate::toc::toc_sectors_wf;
use crate::toc::toc_wf;
use crate::toc::DiscToc;
use crate::toc::TrackModel;
use crate::toc::MAX_TRACKS;

verus! {

/// Where the engine's error or message reporting goes.
#[derive(Clone, Copy, Debug, PartialEq, Eq, Structural)]
pub enum Verbosity {
    /// Discard the report.
    ForgetIt,
    /// Print the report as it happens.
    PrintIt,
    /// Accumulate the report in the pending diagnostic buffer.
    LogIt,
}

/// The lifecycle state of a device handle.
#[derive(Clone, Copy, Debug, PartialEq, Eq, Structural)]
pub enum DriveState {
    /// Initial state, and the state after release.
    Closed,
    /// After a successful open; queries are valid only here.
    Open,
}

/// The engine-side state of one device, as this model keeps it.
#[derive(Debug)]
pub struct DriveRaw {
    /// The device path the handle was identified by; empty for auto-detect.
    pub device: String,
    /// The separate ioctl path, for drives probed over a split transport.
    pub ioctl_device: String,
    /// The table of contents the probe reported.
    pub toc: DiscToc,
    /// The lifecycle state.
    pub state: DriveState,
    /// Where error reporting goes.
    pub error_verbosity: Verbosity,
    /// Where message reporting goes.
    pub message_verbosity: Verbosity,
    /// The last read speed set, 0 until one is set.
    pub speed: i32,
    /// Pending informational diagnostics.
    pub messages: DiagBuffer,
    /// Pending error diagnostics.
    pub errors: DiagBuffer,
}

/// The mathematical model of a device handle.
#[verifier::ext_equal]
pub ghost struct DriveModel {
    /// The device path the handle was identified by.
    pub device: Seq<char>,
    /// The separate ioctl path, empty unless probed over a split transport.
    pub ioctl_device: Seq<char>,
    /// The probed table of contents.
    pub toc: Seq<TrackModel>,
    /// The lifecycle state.
    pub state: DriveState,
    /// Where error reporting goes.
    pub error_verbosity: Verbosity,
    /// Where message reporting goes.
    pub message_verbosity: Verbosity,
    /// The last read speed set.
    pub speed: int,
    /// Pending informational diagnostics, in emission order.
    pub messages: Seq<Seq<char>>,
    /// Pending error diagnostics, in emission order.
    pub errors: Seq<Seq<char>>,
}

impl View for DriveRaw {
    type V = DriveModel;

    open spec fn view(&self) -> DriveModel {
        DriveModel {
            device: self.device@,
            ioctl_device: self.ioctl_device@,
            toc: self.toc@,
            state: self.state,
            error_verbosity: self.error_verbosity,
            message_verbosity: self.message_verbosity,
            speed: self.speed as int,
            messages: self.messages@,
            errors: self.errors@,
        }
    }
}

/// The handle's validity: an Open handle always carries the well-formed,
/// audio-bearing table of contents that its open validated.
pub open spec fn drive_inv(m: DriveModel) -> bool {
    m.state == DriveState::Open ==> toc_wf(m.toc) && has_audio_track(m.toc)
}

/// The model of a handle a discovery operation just produced: Closed, with
/// the probed table, both verbosities at the probe's level, and nothing
/// pending.
pub open spec fn spec_probed(
    device: Seq<char>,
    ioctl_device: Seq<char>,
    toc: Seq<TrackModel>,
    verbosity: Verbosity,
) -> DriveModel {
    DriveModel {
        device,
        ioctl_device,
        toc,
        state: DriveState::Closed,
        error_verbosity: verbosity,
        message_verbosity: verbosity,
        speed: 0,
        messages: Seq::<Seq<char>>::empty(),
        errors: Seq::<Seq<char>>::empty(),
    }
}

/// What open finds wrong with a probed table of contents, if anything:
/// an illegal track count, a broken sector layout, or no audio at all.
pub open spec fn open_verdict(toc: Seq<TrackModel>) -> Option<ErrorCode> {
    if !(1 <= toc.len() <= MAX_TRACKS as int) {
        Some(ErrorCode::IllegalTrackCount)
    } else if !toc_sectors_wf(toc) {
        Some(ErrorCode::IllegalToc)
    } else if !has_audio_track(toc) {
        Some(ErrorCode::NoAudioTracks)
    } else {
        None
    }
}

/// A buffer after a report at the given verbosity: the line is appended
/// only when the verbosity says to log, as the engine's buffers behave.
pub open spec fn log_line(
    buffered: Seq<Seq<char>>,
    verbosity: Verbosity,
    line: Seq<char>,
) -> Seq<Seq<char>> {
    if verbosity == Verbosity::LogIt {
        buffered.push(line)
    } else {
        buffered
    }
}

/// The message line a successful open emits.
pub open spec fn opened_line() -> Seq<char> {
    "drive opened"@
}

/// The model of a handle after a release: the device is closed, everything
/// else is untouched.
pub open spec fn spec_release(m: DriveModel) -> DriveModel {
    DriveModel { state: DriveState::Closed, ..m }
}

/// Law: release is idempotent.  Releasing an already-released handle
/// changes nothing, so the device is closed exactly once however many
/// times release runs.
pub proof fn lemma_release_idempotent(m: DriveModel)
    ensures
        spec_release(spec_release(m)) == spec_release(m),
{
}

/// Law: releasing a handle that is already Closed is a no-op.
pub proof fn lemma_release_closed_noop(m: DriveModel)
    requires
        m.state == DriveState::Closed,
    ensures
        spec_release(m) == m,
{
    assert(spec_release(m) =~= m);
}

/// One opened (or openable) optical-media device.  The handle owns the
/// engine-side state exclusively; moving it into an extraction session is
/// the only way to share it, and release is idempotent.
#[derive(Debug)]
pub struct CdromDrive {
    raw: DriveRaw,
}

impl View for CdromDrive {
    type V = DriveModel;

    closed spec fn view(&self) -> DriveModel {
        self.raw@
    }
}

impl CdromDrive {
    /// Wraps raw engine-side state back into a handle, after
    /// [`CdromDrive::into_raw`] took it apart.
    pub fn from_raw(raw: DriveRaw) -> (r: CdromDrive)
        ensures
            r@ == raw@,
    {
        CdromDrive { raw }
    }

    /// Borrows the raw engine-side state.
    pub fn as_raw(&self) -> (r: &DriveRaw)
        ensures
            r@ == self@,
    {
        &self.raw
    }

    /// Takes the raw engine-side state out of the handle without releasing
    /// the device.
    pub fn into_raw(self) -> (r: DriveRaw)
        ensures
            r@ == self@,
    {
        self.raw
    }

    /// Auto-detects the first compatible device.  `probe` is what the
    /// platform probe found; no compatible device is silent absence, not an
    /// error, since the probe supplies no structured reason.
    pub fn find_a_cdrom(verbosity: Verbosity, probe: Option<DiscToc>) -> (r: Option<CdromDrive>)
        ensures
            r is Some <==> probe is Some,
            probe matches Some(toc) ==> (r matches Some(d) && d@ == spec_probed(
                ""@,
                ""@,
                toc@,
                verbosity,
            )),
    {
        match probe {
            None => None,
            Some(toc) => Some(CdromDrive {
                raw: DriveRaw {
                    device: "".to_owned(),
                    ioctl_device: "".to_owned(),
                    toc,
                    state: DriveState::Closed,
                    error_verbosity: verbosity,
                    message_verbosity: verbosity,
                    speed: 0,
                    messages: DiagBuffer::new(),
                    errors: DiagBuffer::new(),
                },
            }),
        }
    }

    /// Identifies the device at an explicit path.  Absence of a compatible
    /// device at that path is silent, not an error.
    pub fn identify(device: &str, verbosity: Verbosity, probe: Option<DiscToc>) -> (r: Option<
        CdromDrive,
    >)
        ensures
            r is Some <==> probe is Some,
            probe matches Some(toc) ==> (r matches Some(d) && d@ == spec_probed(
                device@,
                ""@,
                toc@,
                verbosity,
            )),
    {
        match probe {
            None => None,
            Some(toc) => Some(CdromDrive {
                raw: DriveRaw {
                    device: device.to_owned(),
                    ioctl_device: "".to_owned(),
                    toc,
                    state: DriveState::Closed,
                    error_verbosity: verbosity,
                    message_verbosity: verbosity,
                    speed: 0,
                    messages: DiagBuffer::new(),
                    errors: DiagBuffer::new(),
                },
            }),
        }
    }

    /// Identifies a drive over a split transport: a generic-SCSI path and a
    /// separate ioctl path.
    pub fn identify_scsi(
        generic_device: &str,
        ioctl_device: &str,
        verbosity: Verbosity,
        probe: Option<DiscToc>,
    ) -> (r: Option<CdromDrive>)
        ensures
            r is Some <==> probe is Some,
            probe matches Some(toc) ==> (r matches Some(d) && d@ == spec_probed(
                generic_device@,
                ioctl_device@,
                toc@,
                verbosity,
            )),
    {
        match probe {
            None => None,
            Some(toc) => Some(CdromDrive {
                raw: DriveRaw {
                    device: generic_device.to_owned(),
                    ioctl_device: ioctl_device.to_owned(),
                    toc,
                    state: DriveState::Closed,
                    error_verbosity: verbosity,
                    message_verbosity: verbosity,
                    speed: 0,
                    messages: DiagBuffer::new(),
                    errors: DiagBuffer::new(),
                },
            }),
        }
    }

    /// Identifies a drive through the ioctl-only ("cooked") interface, for
    /// drives lacking low-level generic SCSI access.
    pub fn identify_cooked(device: &str, verbosity: Verbosity, probe: Option<DiscToc>) -> (r:
        Option<CdromDrive>)
        ensures
            r is Some <==> probe is Some,
            probe matches Some(toc) ==> (r matches Some(d) && d@ == spec_probed(
                device@,
                ""@,
                toc@,
                verbosity,
            )),
    {
        match probe {
            None => None,
            Some(toc) => Some(CdromDrive {
                raw: DriveRaw {
                    device: device.to_owned(),
                    ioctl_device: "".to_owned(),
                    toc,
                    state: DriveState::Closed,
                    error_verbosity: verbosity,
                    message_verbosity: verbosity,
                    speed: 0,
                    messages: DiagBuffer::new(),
                    errors: DiagBuffer::new(),
                },
            }),
        }
    }

    /// Sets the error and message verbosity.  Always succeeds, in any
    /// state.
    pub fn set_verbosity(&mut self, error_verbosity: Verbosity, message_verbosity: Verbosity)
        ensures
            final(self)@ == (DriveModel { error_verbosity, message_verbosity, ..old(self)@ }),
    {
        self.raw.error_verbosity = error_verbosity;
        self.raw.message_verbosity = message_verbosity;
        proof {
            assert(self@ =~= (DriveModel { error_verbosity, message_verbosity, ..old(self)@ }));
        }
    }

    /// Reports a classified failure: the error buffer takes the condition's
    /// line when the error verbosity logs, and the matching negative raw
    /// status is returned.
    fn log_failure(&mut self, code: ErrorCode) -> (r: Error)
        ensures
            r.raw as int == -code_magnitude(code),
            final(self)@ == (DriveModel {
                errors: log_line(
                    old(self)@.errors,
                    old(self)@.error_verbosity,
                    spec_description(code),
                ),
                ..old(self)@
            }),
    {
        if matches!(self.raw.error_verbosity, Verbosity::LogIt) {
            let line = code.description();
            self.raw.errors.post(line);
        }
        let mag = code.magnitude();
        proof {
            assert(self@ =~= (DriveModel {
                errors: log_line(
                    old(self)@.errors,
                    old(self)@.error_verbosity,
                    spec_description(code),
                ),
                ..old(self)@
            }));
        }
        Error { raw: -mag }
    }

    /// Opens the device: validates the probed table of contents and
    /// transitions Closed to Open exactly once.  On failure the state stays
    /// Closed and the classified condition is returned unchanged; opening
    /// an already-open handle changes nothing.
    pub fn open(&mut self) -> (r: Result<(), Error>)
        requires
            drive_inv(old(self)@),
        ensures
            drive_inv(final(self)@),
            old(self)@.state == DriveState::Open ==> (r is Ok && final(self)@ == old(self)@),
            old(self)@.state == DriveState::Closed && open_verdict(old(self)@.toc) is None ==> (
            r is Ok && final(self)@ == (DriveModel {
                state: DriveState::Open,
                messages: log_line(
                    old(self)@.messages,
                    old(self)@.message_verbosity,
                    opened_line(),
                ),
                ..old(self)@
            })),
            old(self)@.state == DriveState::Closed ==> (open_verdict(old(self)@.toc) matches Some(
                c,
            ) ==> (r matches Err(e) && e.raw as int == -code_magnitude(c) && final(self)@ == (
            DriveModel {
                errors: log_line(
                    old(self)@.errors,
                    old(self)@.error_verbosity,
                    spec_description(c),
                ),
                ..old(self)@
            }))),
    {
        match self.raw.state {
            DriveState::Open => {
                return Ok(());
            },
            DriveState::Closed => {},
        }
        let n = self.raw.toc.len();
        if n < 1 || n > MAX_TRACKS {
            return Err(self.log_failure(ErrorCode::IllegalTrackCount));
        }
        if !self.raw.toc.sectors_wf() {
            return Err(self.log_failure(ErrorCode::IllegalToc));
        }
        if !self.raw.toc.has_audio() {
            return Err(self.log_failure(ErrorCode::NoAudioTracks));
        }
        self.raw.state = DriveState::Open;
        if matches!(self.raw.message_verbosity, Verbosity::LogIt) {
            self.raw.messages.post("drive opened".to_owned());
        }
        proof {
            assert(self@ =~= (DriveModel {
                state: DriveState::Open,
                messages: log_line(
                    old(self)@.messages,
                    old(self)@.message_verbosity,
                    opened_line(),
                ),
                ..old(self)@
            }));
        }
        Ok(())
    }

    /// Releases the device.  The first release closes it; any further
    /// release is a no-op, so the underlying resource is closed exactly
    /// once.
    pub fn release(&mut self)
        ensures
            final(self)@ == spec_release(old(self)@),
    {
        self.raw.state = DriveState::Closed;
        proof {
            assert(self@ =~= spec_release(old(self)@));
        }
    }

    /// Sets the read speed.  Fails with the device-not-open condition on a
    /// Closed handle; the speed is stored otherwise.
    pub fn set_speed(&mut self, speed: i32) -> (r: Result<(), Error>)
        ensures
            old(self)@.state == DriveState::Open ==> (r is Ok && final(self)@ == (DriveModel {
                speed: speed as int,
                ..old(self)@
            })),
            old(self)@.state == DriveState::Closed ==> (r matches Err(e) && e.raw as int
                == -code_magnitude(ErrorCode::DeviceNotOpen) && final(self)@ == (DriveModel {
                errors: log_line(
                    old(self)@.errors,
                    old(self)@.error_verbosity,
                    spec_description(ErrorCode::DeviceNotOpen),
                ),
                ..old(self)@
            })),
    {
        match self.raw.state {
            DriveState::Closed => Err(self.log_failure(ErrorCode::DeviceNotOpen)),
            DriveState::Open => {
                self.raw.speed = speed;
                proof {
                    assert(self@ =~= (DriveModel { speed: speed as int, ..old(self)@ }));
                }
                Ok(())
            },
        }
    }

    /// Drains the pending informational diagnostics: the full accumulation
    /// in emission order, or nothing when nothing is pending; an immediate
    /// second drain yields nothing.
    pub fn messages(&mut self) -> (r: Option<CddaString>)
        ensures
            r matches Some(s) ==> Some(s@) == spec_drain(old(self)@.messages).0,
            r is None ==> spec_drain(old(self)@.messages).0 is None,
            final(self)@ == (DriveModel { messages: spec_drain(old(self)@.messages).1, ..old(self)@ }),
    {
        let r = self.raw.messages.drain();
        proof {
            assert(self@ =~= (DriveModel {
                messages: spec_drain(old(self)@.messages).1,
                ..old(self)@
            }));
        }
        r
    }

    /// Drains the pending error diagnostics, with the same once-only
    /// contract as [`CdromDrive::messages`].
    pub fn errors(&mut self) -> (r: Option<CddaString>)
        ensures
            r matches Some(s) ==> Some(s@) == spec_drain(old(self)@.errors).0,
            r is None ==> spec_drain(old(self)@.errors).0 is None,
            final(self)@ == (DriveModel { errors: spec_drain(old(self)@.errors).1, ..old(self)@ }),
    {
        let r = self.raw.errors.drain();
        proof {
            assert(self@ =~= (DriveModel { errors: spec_drain(old(self)@.errors).1, ..old(self)@ }));
        }
        r
    }

    /// How many tracks the disc reports.  Valid only while Open.
    pub fn tracks(&self) -> (r: Result<u32, Error>)
        requires
            drive_inv(self@),
        ensures
            self@.state == DriveState::Closed ==> (r matches Err(e) && e.raw as int
                == -code_magnitude(ErrorCode::DeviceNotOpen)),
            self@.state == DriveState::Open ==> (r matches Ok(n) && n as int == self@.toc.len()),
    {
        match self.raw.state {
            DriveState::Closed => Err(Error { raw: -400 }),
            DriveState::Open => Ok(self.raw.toc.len() as u32),
        }
    }

    /// First absolute sector of the disc.  Valid only while Open.
    pub fn disc_first_sector(&self) -> (r: Result<u64, Error>)
        requires
            drive_inv(self@),
        ensures
            self@.state == DriveState::Closed ==> (r matches Err(e) && e.raw as int
                == -code_magnitude(ErrorCode::DeviceNotOpen)),
            self@.state == DriveState::Open ==> (r matches Ok(s) && s as int == disc_first(
                self@.toc,
            )),
    {
        match self.raw.state {
            DriveState::Closed => Err(Error { raw: -400 }),
            DriveState::Open => {
                let t = self.raw.toc.tracks[0];
                proof {
                    assert(self@.toc[0] == self.raw.toc.tracks@[0]@);
                }
                Ok(t.first_sector)
            },
        }
    }

    /// First absolute sector of track `track` (1-based).  Fails with the
    /// invalid-track condition for an out-of-range track.
    pub fn track_first_sector(&self, track: u32) -> (r: Result<u64, Error>)
        requires
            drive_inv(self@),
        ensures
            self@.state == DriveState::Closed ==> (r matches Err(e) && e.raw as int
                == -code_magnitude(ErrorCode::DeviceNotOpen)),
            self@.state == DriveState::Open && !(1 <= track as int <= self@.toc.len()) ==> (
            r matches Err(e) && e.raw as int == -code_magnitude(ErrorCode::InvalidTrackNumber)),
            self@.state == DriveState::Open && 1 <= track as int <= self@.toc.len() ==> (
            r matches Ok(s) && s as int == self@.toc[track as int - 1].first),
    {
        match self.raw.state {
            DriveState::Closed => Err(Error { raw: -400 }),
            DriveState::Open => {
                let n = self.raw.toc.len();
                if track == 0 || track as usize > n {
                    return Err(Error { raw: -401 });
                }
                let t = self.raw.toc.tracks[(track - 1) as usize];
                proof {
                    assert(self@.toc[track as int - 1] == self.raw.toc.tracks@[track as int - 1]@);
                }
                Ok(t.first_sector)
            },
        }
    }

    /// Last absolute sector of track `track` (1-based).
    pub fn track_last_sector(&self, track: u32) -> (r: Result<u64, Error>)
        requires
            drive_inv(self@),
        ensures
            self@.state == DriveState::Closed ==> (r matches Err(e) && e.raw as int
                == -code_magnitude(ErrorCode::DeviceNotOpen)),
            self@.state == DriveState::Open && !(1 <= track as int <= self@.toc.len()) ==> (
            r matches Err(e) && e.raw as int == -code_magnitude(ErrorCode::InvalidTrackNumber)),
            self@.state == DriveState::Open && 1 <= track as int <= self@.toc.len() ==> (
            r matches Ok(s) && s as int == self@.toc[track as int - 1].last),
    {
        match self.raw.state {
            DriveState::Closed => Err(Error { raw: -400 }),
            DriveState::Open => {
                let n = self.raw.toc.len();
                if track == 0 || track as usize > n {
                    return Err(Error { raw: -401 });
                }
                let t = self.raw.toc.tracks[(track - 1) as usize];
                proof {
                    assert(self@.toc[track as int - 1] == self.raw.toc.tracks@[track as int - 1]@);
                }
                Ok(t.last_sector)
            },
        }
    }

    /// Channel count of track `track` (1-based).
    pub fn track_channels(&self, track: u32) -> (r: Result<u32, Error>)
        requires
            drive_inv(self@),
        ensures
            self@.state == DriveState::Closed ==> (r matches Err(e) && e.raw as int
                == -code_magnitude(ErrorCode::DeviceNotOpen)),
            self@.state == DriveState::Open && !(1 <= track as int <= self@.toc.len()) ==> (
            r matches Err(e) && e.raw as int == -code_magnitude(ErrorCode::InvalidTrackNumber)),
            self@.state == DriveState::Open && 1 <= track as int <= self@.toc.len() ==> (
            r matches Ok(c) && c as int == self@.toc[track as int - 1].channels),
    {
        match self.raw.state {
            DriveState::Closed => Err(Error { raw: -400 }),
            DriveState::Open => {
                let n = self.raw.toc.len();
                if track == 0 || track as usize > n {
                    return Err(Error { raw: -401 });
                }
                let t = self.raw.toc.tracks[(track - 1) as usize];
                proof {
                    assert(self@.toc[track as int - 1] == self.raw.toc.tracks@[track as int - 1]@);
                }
                Ok(t.channels)
            },
        }
    }

    /// Whether track `track` holds audio.
    pub fn track_audiop(&self, track: u32) -> (r: Result<bool, Error>)
        requires
            drive_inv(self@),
        ensures
            self@.state == DriveState::Closed ==> (r matches Err(e) && e.raw as int
                == -code_magnitude(ErrorCode::DeviceNotOpen)),
            self@.state == DriveState::Open && !(1 <= track as int <= self@.toc.len()) ==> (
            r matches Err(e) && e.raw as int == -code_magnitude(ErrorCode::InvalidTrackNumber)),
            self@.state == DriveState::Open && 1 <= track as int <= self@.toc.len() ==> (
            r matches Ok(b) && b == self@.toc[track as int - 1].audio),
    {
        match self.raw.state {
            DriveState::Closed => Err(Error { raw: -400 }),
            DriveState::Open => {
                let n = self.raw.toc.len();
                if track == 0 || track as usize > n {
                    return Err(Error { raw: -401 });
                }
                let t = self.raw.toc.tracks[(track - 1) as usize];
                proof {
                    assert(self@.toc[track as int - 1] == self.raw.toc.tracks@[track as int - 1]@);
                }
                Ok(t.audio)
            },
        }
    }

    /// Whether digital copy of track `track` is permitted.
    pub fn track_copyp(&self, track: u32) -> (r: Result<bool, Error>)
        requires
            drive_inv(self@),
        ensures
            self@.state == DriveState::Closed ==> (r matches Err(e) && e.raw as int
                == -code_magnitude(ErrorCode::DeviceNotOpen)),
            self@.state == DriveState::Open && !(1 <= track as int <= self@.toc.len()) ==> (
            r matches Err(e) && e.raw as int == -code_magnitude(ErrorCode::InvalidTrackNumber)),
            self@.state == DriveState::Open && 1 <= track as int <= self@.toc.len() ==> (
            r matches Ok(b) && b == self@.toc[track as int - 1].copy_permitted),
    {
        match self.raw.state {
            DriveState::Closed => Err(Error { raw: -400 }),
            DriveState::Open => {
                let n = self.raw.toc.len();
                if track == 0 || track as usize > n {
                    return Err(Error { raw: -401 });
                }
                let t = self.raw.toc.tracks[(track - 1) as usize];
                proof {
                    assert(self@.toc[track as int - 1] == self.raw.toc.tracks@[track as int - 1]@);
                }
                Ok(t.copy_permitted)
            },
        }
    }

    /// Whether track `track` was mastered with pre-emphasis.
    pub fn track_preemp(&self, track: u32) -> (r: Result<bool, Error>)
        requires
            drive_inv(self@),
        ensures
            self@.state == DriveState::Closed ==> (r matches Err(e) && e.raw as int
                == -code_magnitude(ErrorCode::DeviceNotOpen)),
            self@.state == DriveState::Open && !(1 <= track as int <= self@.toc.len()) ==> (
            r matches Err(e) && e.raw as int == -code_magnitude(ErrorCode::InvalidTrackNumber)),
            self@.state == DriveState::Open && 1 <= track as int <= self@.toc.len() ==> (
            r matches Ok(b) && b == self@.toc[track as int - 1].preemphasis),
    {
        match self.raw.state {
            DriveState::Closed => Err(Error { raw: -400 }),
            DriveState::Open => {
                let n = self.raw.toc.len();
                if track == 0 || track as usize > n {
                    return Err(Error { raw: -401 });
                }
                let t = self.raw.toc.tracks[(track - 1) as usize];
                proof {
                    assert(self@.toc[track as int - 1] == self.raw.toc.tracks@[track as int - 1]@);
                }
                Ok(t.preemphasis)
            },
        }
    }

    /// Which track (1-based) the absolute sector lies in.  Succeeds exactly
    /// for the sectors within the disc span; off-disc sectors fail with the
    /// invalid-track condition.
    pub fn sector_get_track(&self, sector: u64) -> (r: Result<u32, Error>)
        requires
            drive_inv(self@),
        ensures
            self@.state == DriveState::Closed ==> (r matches Err(e) && e.raw as int
                == -code_magnitude(ErrorCode::DeviceNotOpen)),
            self@.state == DriveState::Open ==> (r is Ok <==> disc_first(self@.toc) <= sector as int
                <= disc_last(self@.toc)),
            self@.state == DriveState::Open ==> (r matches Ok(t) ==> 1 <= t as int
                <= self@.toc.len() && self@.toc[t as int - 1].first <= sector as int <= self@.toc[t
                as int - 1].last),
            self@.state == DriveState::Open ==> (r matches Err(e) ==> e.raw as int
                == -code_magnitude(ErrorCode::InvalidTrackNumber)),
    {
        match self.raw.state {
            DriveState::Closed => Err(Error { raw: -400 }),
            DriveState::Open => {
                let n = self.raw.toc.len();
                proof {
                    assert(self@.toc[0] == self.raw.toc.tracks@[0]@);
                    assert(self@.toc[n as int - 1] == self.raw.toc.tracks@[n as int - 1]@);
                }
                if sector < self.raw.toc.tracks[0].first_sector || sector
                    > self.raw.toc.tracks[n - 1].last_sector {
                    return Err(Error { raw: -401 });
                }
                let i = self.raw.toc.sector_search(sector);
                Ok((i + 1) as u32)
            },
        }
    }
}

} // verus!
