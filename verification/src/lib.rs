//! A safety-oriented resource-management layer over a stateful audio
//! extraction engine for optical media.
//!
//! The crate models the three pieces that make such a wrapper hard to get
//! right: the lifecycle and exclusive-ownership protocol of a device handle
//! ([`CdromDrive`]) and of the extraction session built on top of it
//! ([`CdromParanoia`]), the error taxonomy that turns raw signed engine
//! statuses into named conditions ([`ErrorCode`], [`classify`]), and the
//! sector-addressed seek/read protocol with synchronous progress events.
//! The jitter-correction algorithm itself and the device transport are
//! outside the model: a probe result ([`DiscToc`]) stands at that boundary.

use vstd::prelude::*;

pub mod diag;
pub mod drive;
pub mod error;
pub mod event;
pub mod mode;
pub mod paranoia;
pub mod toc;

pub use diag::CddaString;
pub use diag::DiagBuffer;
pub use drive::CdromDrive;
pub use drive::DriveRaw;
pub use drive::DriveState;
pub use drive::Verbosity;
pub use error::classify;
pub use error::Condition;
pub use error::Error;
pub use error::ErrorCode;
pub use event::EventKind;
pub use event::EventSink;
pub use mode::ParanoiaMode;
pub use mode::PARANOIA_MODE_DISABLE;
pub use mode::PARANOIA_MODE_FRAGMENT;
pub use mode::PARANOIA_MODE_FULL;
pub use mode::PARANOIA_MODE_NEVERSKIP;
pub use mode::PARANOIA_MODE_OVERLAP;
pub use mode::PARANOIA_MODE_REPAIR;
pub use mode::PARANOIA_MODE_SCRATCH;
pub use mode::PARANOIA_MODE_VERIFY;
pub use paranoia::AudioFrame;
pub use paranoia::DEFAULT_MAX_RETRIES;
pub use paranoia::CdromParanoia;
pub use paranoia::ParanoiaRaw;
pub use paranoia::SeekError;
pub use paranoia::SeekFrom;
pub use toc::DiscToc;
pub use toc::TrackEntry;

verus! {

/// Bytes of user data in one mode-1 data sector.
pub const CD_FRAMESIZE: u32 = 2048;

/// Bytes of audio in one sector: 588 stereo pairs of 16-bit samples.
pub const CD_FRAMESIZE_RAW: u32 = 2352;

/// 16-bit samples in one sector of audio (interleaved stereo).
pub const CD_FRAMEWORDS: u32 = 1176;

/// Stereo sample pairs in one sector of audio.
pub const CD_FRAMESAMPLES: u32 = 588;

} // verus!
