//! The extraction session: exclusive ownership of an open drive, the
//! correction-mode and overlap settings, and the sector-addressed seek and
//! read protocol with synchronous progress events.

use vstd::prelude::*;

use crate::diag::spec_drain;
use crate::diag::CddaString;
use crate::drive::drive_inv;
use crate::drive::spec_release;
use crate::drive::CdromDrive;
use crate::drive::DriveModel;
use crate::drive::DriveState;
use crate::event::EventKind;
use crate::event::EventSink;
use crate::mode::ParanoiaMode;
use crate::mode::PARANOIA_MODE_FULL;
use crate::toc::disc_first;
use crate::toc::disc_last;
use crate::toc::lemma_track_within_disc;
use crate::toc::track_sector_count;
use crate::CD_FRAMEWORDS;

verus! {

/// The retry budget the convenience read uses; a documented default of the
/// wrapped engine, not a guaranteed constant, so reads with another budget
/// stay available through [`CdromParanoia::read_limited`].
pub const DEFAULT_MAX_RETRIES: u32 = 20;

/// Where a seek offset is measured from.
#[derive(Clone, Copy, Debug, PartialEq, Eq, Structural)]
pub enum SeekFrom {
    /// An absolute sector address.
    Start(u64),
    /// An offset back from the position one past the disc's last sector.
    End(i64),
    /// An offset from the current cursor.
    Current(i64),
}

/// The engine rejected the position a seek would have produced; the cursor
/// is unchanged.
#[derive(Clone, Copy, Debug, PartialEq, Eq, Structural)]
pub struct SeekError {}

/// One sector's worth of corrected audio: a full fixed-size frame of
/// interleaved 16-bit samples.
#[derive(Debug)]
pub struct AudioFrame {
    /// The samples, exactly [`CD_FRAMEWORDS`] of them.
    pub samples: Vec<i16>,
}

impl View for AudioFrame {
    type V = Seq<i16>;

    open spec fn view(&self) -> Seq<i16> {
        self.samples@
    }
}

/// The frame of corrected samples this model's engine produces for any
/// sector: a full frame of silence.
pub open spec fn silent_frame() -> Seq<i16> {
    Seq::new(CD_FRAMEWORDS as nat, |i: int| 0i16)
}

/// The session-side engine state: the stored correction settings and the
/// absolute sector cursor.
#[derive(Clone, Copy, Debug, PartialEq, Eq, Structural)]
pub struct ParanoiaRaw {
    /// The correction-mode bitmask, stored opaquely.
    pub mode: ParanoiaMode,
    /// The overlap-search window size, stored opaquely.
    pub overlap: i64,
    /// The absolute sector the next read will deliver.
    pub cursor: u64,
}

/// The mathematical model of an extraction session.
#[verifier::ext_equal]
pub ghost struct ParanoiaModel {
    /// The owned drive.
    pub drive: DriveModel,
    /// The stored correction-mode bits.
    pub mode: u32,
    /// The stored overlap-search window size.
    pub overlap: int,
    /// The absolute sector the next read will deliver.
    pub cursor: int,
}

/// The session's validity: the owned drive is Open (and so carries a
/// well-formed table of contents), and the cursor lies between the disc's
/// first sector and one past its last.
pub open spec fn session_inv(m: ParanoiaModel) -> bool {
    &&& m.drive.state == DriveState::Open
    &&& drive_inv(m.drive)
    &&& disc_first(m.drive.toc) <= m.cursor <= disc_last(m.drive.toc) + 1
}

/// Whether a read can deliver a sector: the cursor has not passed the
/// disc's last sector.
pub open spec fn can_read(m: ParanoiaModel) -> bool {
    m.cursor <= disc_last(m.drive.toc)
}

/// The session after one successful read: the cursor has advanced by one
/// sector and nothing else has changed.
pub open spec fn spec_read_step(m: ParanoiaModel) -> ParanoiaModel {
    ParanoiaModel { cursor: m.cursor + 1, ..m }
}

/// The session after `n` successful reads in a row.
pub open spec fn spec_read_steps(m: ParanoiaModel, n: nat) -> ParanoiaModel
    decreases n,
{
    if n == 0 {
        m
    } else {
        spec_read_step(spec_read_steps(m, (n - 1) as nat))
    }
}

/// The absolute sector a seek aims at.
pub open spec fn seek_target(m: ParanoiaModel, pos: SeekFrom) -> int {
    match pos {
        SeekFrom::Start(x) => x as int,
        SeekFrom::End(x) => disc_last(m.drive.toc) + 1 + x,
        SeekFrom::Current(x) => m.cursor + x,
    }
}

/// Whether the engine accepts the position a seek aims at: it must be an
/// addressable sector of the disc.
pub open spec fn seek_in_bounds(m: ParanoiaModel, pos: SeekFrom) -> bool {
    disc_first(m.drive.toc) <= seek_target(m, pos) <= disc_last(m.drive.toc)
}

/// An extraction session.  Creating one consumes the drive handle: the
/// session owns it exclusively for its whole lifetime, and the read-only
/// accessor [`CdromParanoia::drive`] is the only remaining path to the
/// handle's queries.
#[derive(Debug)]
pub struct CdromParanoia {
    drive: CdromDrive,
    raw: ParanoiaRaw,
}

impl View for CdromParanoia {
    type V = ParanoiaModel;

    closed spec fn view(&self) -> ParanoiaModel {
        ParanoiaModel {
            drive: self.drive@,
            mode: self.raw.mode.bits,
            overlap: self.raw.overlap as int,
            cursor: self.raw.cursor as int,
        }
    }
}

impl CdromParanoia {
    /// Creates a session by transferring ownership of an Open drive into
    /// it.  The cursor starts at the disc's first sector, with full
    /// correction on and the engine's own overlap choice (stored as 0).
    pub fn init(drive: CdromDrive) -> (r: CdromParanoia)
        requires
            drive@.state == DriveState::Open,
            drive_inv(drive@),
        ensures
            r@ == (ParanoiaModel {
                drive: drive@,
                mode: PARANOIA_MODE_FULL,
                overlap: 0,
                cursor: disc_first(drive@.toc),
            }),
            session_inv(r@),
    {
        let dr = drive.as_raw();
        proof {
            lemma_track_within_disc(drive@.toc, 1);
            assert(drive@.toc[0] == dr.toc.tracks@[0]@);
        }
        let first = dr.toc.tracks[0].first_sector;
        CdromParanoia {
            drive,
            raw: ParanoiaRaw { mode: ParanoiaMode { bits: PARANOIA_MODE_FULL }, overlap: 0, cursor: first },
        }
    }

    /// Rebuilds a session from a drive and raw session state, as
    /// [`CdromParanoia::into_raw`] handed them out.
    pub fn from_raw(drive: CdromDrive, raw: ParanoiaRaw) -> (r: CdromParanoia)
        requires
            drive@.state == DriveState::Open,
            drive_inv(drive@),
            disc_first(drive@.toc) <= raw.cursor as int <= disc_last(drive@.toc) + 1,
        ensures
            r@ == (ParanoiaModel {
                drive: drive@,
                mode: raw.mode.bits,
                overlap: raw.overlap as int,
                cursor: raw.cursor as int,
            }),
            session_inv(r@),
    {
        CdromParanoia { drive, raw }
    }

    /// Releases the session's own engine resources and then the owned
    /// drive, exactly once — transitively, since no other reference to the
    /// drive survived the transfer.  Consuming the session makes a second
    /// release unreachable; the closed handle is handed back for
    /// inspection or a later reopen.
    pub fn release(self) -> (d: CdromDrive)
        ensures
            d@ == spec_release(self@.drive),
    {
        let CdromParanoia { mut drive, raw: _ } = self;
        drive.release();
        drive
    }

    /// Takes the session apart without releasing anything: ownership of
    /// the drive moves back to the caller, with the raw session state.
    pub fn into_raw(self) -> (r: (CdromDrive, ParanoiaRaw))
        ensures
            r.0@ == self@.drive,
            r.1.mode.bits == self@.mode,
            r.1.overlap as int == self@.overlap,
            r.1.cursor as int == self@.cursor,
    {
        let CdromParanoia { drive, raw } = self;
        (drive, raw)
    }

    /// Borrows the raw session state.
    pub fn as_raw(&self) -> (r: &ParanoiaRaw)
        ensures
            r.mode.bits == self@.mode,
            r.overlap as int == self@.overlap,
            r.cursor as int == self@.cursor,
    {
        &self.raw
    }

    /// The read-only view of the owned drive: the only path to the
    /// handle's queries after the ownership transfer.
    pub fn drive(&self) -> (r: &CdromDrive)
        ensures
            r@ == self@.drive,
    {
        &self.drive
    }

    /// Stores the correction-mode bitmask, to be handed to the engine
    /// opaquely on the next read; no individual bit is interpreted here.
    pub fn set_mode(&mut self, mode: ParanoiaMode)
        ensures
            final(self)@ == (ParanoiaModel { mode: mode.bits, ..old(self)@ }),
    {
        self.raw.mode = mode;
        proof {
            assert(self@ =~= (ParanoiaModel { mode: mode.bits, ..old(self)@ }));
        }
    }

    /// Stores the overlap-search window size, handed to the engine
    /// opaquely in the same way.
    pub fn set_overlap(&mut self, overlap: i64)
        ensures
            final(self)@ == (ParanoiaModel { overlap: overlap as int, ..old(self)@ }),
    {
        self.raw.overlap = overlap;
        proof {
            assert(self@ =~= (ParanoiaModel { overlap: overlap as int, ..old(self)@ }));
        }
    }

    /// Drains the owned drive's pending informational diagnostics, with
    /// the once-only contract of [`CdromDrive::messages`].
    pub fn messages(&mut self) -> (r: Option<CddaString>)
        ensures
            r matches Some(s) ==> Some(s@) == spec_drain(old(self)@.drive.messages).0,
            r is None ==> spec_drain(old(self)@.drive.messages).0 is None,
            final(self)@ == (ParanoiaModel {
                drive: DriveModel {
                    messages: spec_drain(old(self)@.drive.messages).1,
                    ..old(self)@.drive
                },
                ..old(self)@
            }),
            session_inv(old(self)@) ==> session_inv(final(self)@),
    {
        let r = self.drive.messages();
        proof {
            assert(self@ =~= (ParanoiaModel {
                drive: DriveModel {
                    messages: spec_drain(old(self)@.drive.messages).1,
                    ..old(self)@.drive
                },
                ..old(self)@
            }));
        }
        r
    }

    /// Drains the owned drive's pending error diagnostics, with the same
    /// once-only contract.
    pub fn errors(&mut self) -> (r: Option<CddaString>)
        ensures
            r matches Some(s) ==> Some(s@) == spec_drain(old(self)@.drive.errors).0,
            r is None ==> spec_drain(old(self)@.drive.errors).0 is None,
            final(self)@ == (ParanoiaModel {
                drive: DriveModel {
                    errors: spec_drain(old(self)@.drive.errors).1,
                    ..old(self)@.drive
                },
                ..old(self)@
            }),
            session_inv(old(self)@) ==> session_inv(final(self)@),
    {
        let r = self.drive.errors();
        proof {
            assert(self@ =~= (ParanoiaModel {
                drive: DriveModel {
                    errors: spec_drain(old(self)@.drive.errors).1,
                    ..old(self)@.drive
                },
                ..old(self)@
            }));
        }
        r
    }

    /// Seeks the cursor.  The resulting absolute sector must be an
    /// addressable sector of the disc; it becomes the new cursor and is
    /// returned.  On a rejected position the cursor is left unchanged.
    pub fn seek(&mut self, pos: SeekFrom) -> (r: Result<u64, SeekError>)
        requires
            session_inv(old(self)@),
        ensures
            session_inv(final(self)@),
            seek_in_bounds(old(self)@, pos) ==> (r matches Ok(s) && s as int == seek_target(
                old(self)@,
                pos,
            ) && final(self)@ == (ParanoiaModel {
                cursor: seek_target(old(self)@, pos),
                ..old(self)@
            })),
            !seek_in_bounds(old(self)@, pos) ==> (r is Err && final(self)@ == old(self)@),
    {
        let dr = self.drive.as_raw();
        let n = dr.toc.len();
        proof {
            assert(self@.drive.toc[0] == dr.toc.tracks@[0]@);
            assert(self@.drive.toc[n as int - 1] == dr.toc.tracks@[n as int - 1]@);
        }
        let first = dr.toc.tracks[0].first_sector;
        let last = dr.toc.tracks[n - 1].last_sector;
        let target: i128 = match pos {
            SeekFrom::Start(x) => x as i128,
            SeekFrom::End(x) => last as i128 + 1 + x as i128,
            SeekFrom::Current(x) => self.raw.cursor as i128 + x as i128,
        };
        if target < first as i128 || target > last as i128 {
            return Err(SeekError {});
        }
        self.raw.cursor = target as u64;
        proof {
            assert(self@ =~= (ParanoiaModel {
                cursor: seek_target(old(self)@, pos),
                ..old(self)@
            }));
        }
        Ok(target as u64)
    }

    /// Reads the next sector: emits a read event into the sink, advances
    /// the cursor by one, and delivers a full fixed-size frame of corrected
    /// samples.  Correction shortfalls never fail the call; the budget of
    /// `max_retries` bounds the engine's internal retries only.  Once the
    /// cursor has passed the disc's last sector nothing is left to read and
    /// the read signals the boundary instead.
    pub fn read_limited<S: EventSink>(&mut self, sink: &mut S, max_retries: u32) -> (r: Option<
        AudioFrame,
    >)
        requires
            session_inv(old(self)@),
        ensures
            session_inv(final(self)@),
            can_read(old(self)@) ==> (r matches Some(f) && f@ == silent_frame() && f@.len()
                == CD_FRAMEWORDS as nat && final(self)@ == spec_read_step(old(self)@)),
            !can_read(old(self)@) ==> (r is None && final(self)@ == old(self)@),
    {
        let _ = max_retries;
        let dr = self.drive.as_raw();
        let n = dr.toc.len();
        proof {
            assert(self@.drive.toc[n as int - 1] == dr.toc.tracks@[n as int - 1]@);
        }
        let last = dr.toc.tracks[n - 1].last_sector;
        if self.raw.cursor > last {
            return None;
        }
        sink.notify(self.raw.cursor, EventKind::Read);
        let mut samples: Vec<i16> = Vec::new();
        let frame_len = CD_FRAMEWORDS as usize;
        let mut k: usize = 0;
        while k < frame_len
            invariant
                samples@.len() == k,
                0 <= k <= frame_len,
                forall|j: int| 0 <= j < k ==> samples@[j] == 0i16,
            decreases frame_len - k,
        {
            samples.push(0i16);
            k += 1;
        }
        self.raw.cursor = self.raw.cursor + 1;
        proof {
            assert(samples@ =~= silent_frame());
            assert(self@ =~= spec_read_step(old(self)@));
        }
        Some(AudioFrame { samples })
    }

    /// Reads the next sector with the engine's documented default retry
    /// budget; otherwise identical to [`CdromParanoia::read_limited`].
    pub fn read<S: EventSink>(&mut self, sink: &mut S) -> (r: Option<AudioFrame>)
        requires
            session_inv(old(self)@),
        ensures
            session_inv(final(self)@),
            can_read(old(self)@) ==> (r matches Some(f) && f@ == silent_frame() && f@.len()
                == CD_FRAMEWORDS as nat && final(self)@ == spec_read_step(old(self)@)),
            !can_read(old(self)@) ==> (r is None && final(self)@ == old(self)@),
    {
        self.read_limited(sink, DEFAULT_MAX_RETRIES)
    }
}

/// Law: a track spans exactly `last - first + 1` sectors, and reading that
/// many consecutive sectors starting at the track's first sector yields
/// exactly that many frames.  For a session whose cursor sits at track
/// `t`'s first sector, after any `j` reads below the track's sector count
/// the cursor has advanced to exactly `first + j`, the session is still
/// valid, and the next read succeeds too — so each of the
/// `track_sector_count` reads delivers a full frame of
/// [`CD_FRAMEWORDS`] samples, by the read contract.
pub proof fn lemma_whole_track_read_run(m: ParanoiaModel, t: int, j: int)
    requires
        m.drive.state == DriveState::Open,
        drive_inv(m.drive),
        1 <= t <= m.drive.toc.len(),
        m.cursor == m.drive.toc[t - 1].first,
        0 <= j < track_sector_count(m.drive.toc, t),
    ensures
        track_sector_count(m.drive.toc, t) == m.drive.toc[t - 1].last - m.drive.toc[t - 1].first
            + 1,
        spec_read_steps(m, j as nat).drive == m.drive,
        spec_read_steps(m, j as nat).cursor == m.drive.toc[t - 1].first + j,
        session_inv(spec_read_steps(m, j as nat)),
        can_read(spec_read_steps(m, j as nat)),
    decreases j,
{
    lemma_track_within_disc(m.drive.toc, t);
    if j > 0 {
        lemma_whole_track_read_run(m, t, j - 1);
    }
}

} // verus!
