use cdparanoia::CdromDrive;
use cdparanoia::CdromParanoia;
use cdparanoia::DiscToc;
use cdparanoia::DriveState;
use cdparanoia::EventKind;
use cdparanoia::EventSink;
use cdparanoia::ParanoiaMode;
use cdparanoia::SeekFrom;
use cdparanoia::TrackEntry;
use cdparanoia::Verbosity;
use cdparanoia::CD_FRAMEWORDS;
use cdparanoia::PARANOIA_MODE_FULL;
use cdparanoia::PARANOIA_MODE_NEVERSKIP;
use cdparanoia::PARANOIA_MODE_VERIFY;

struct RecordingSink {
    events: Vec<(u64, EventKind)>,
}

impl EventSink for RecordingSink {
    fn notify(&mut self, position: u64, kind: EventKind) {
        self.events.push((position, kind));
    }
}

fn track(first: u64, last: u64) -> TrackEntry {
    TrackEntry {
        first_sector: first,
        last_sector: last,
        channels: 2,
        audio: true,
        copy_permitted: false,
        preemphasis: false,
    }
}

fn open_drive(toc: DiscToc) -> CdromDrive {
    let mut drive = CdromDrive::find_a_cdrom(Verbosity::ForgetIt, Some(toc)).unwrap();
    assert!(drive.open().is_ok());
    drive
}

fn ten_sector_disc() -> CdromDrive {
    let mut toc = DiscToc::new();
    toc.push_track(track(0, 9));
    open_drive(toc)
}

#[test]
fn init_takes_ownership_and_starts_at_disc_first_sector() {
    let mut toc = DiscToc::new();
    toc.push_track(track(150, 449));
    let session = CdromParanoia::init(open_drive(toc));
    assert_eq!(session.as_raw().cursor, 150);
    assert_eq!(session.as_raw().mode.bits(), PARANOIA_MODE_FULL);
    assert_eq!(session.as_raw().overlap, 0);
    // The borrowed accessor is the remaining path to handle queries.
    assert_eq!(session.drive().tracks().unwrap(), 1);
    assert_eq!(session.drive().track_first_sector(1).unwrap(), 150);
    assert_eq!(session.drive().as_raw().state, DriveState::Open);
}

#[test]
fn mode_and_overlap_are_stored_opaquely() {
    let mut session = CdromParanoia::init(ten_sector_disc());
    let mode = ParanoiaMode::from_bits(PARANOIA_MODE_VERIFY | PARANOIA_MODE_NEVERSKIP);
    session.set_mode(mode);
    assert_eq!(session.as_raw().mode.bits(), 33);
    assert!(session.as_raw().mode.contains(ParanoiaMode::from_bits(PARANOIA_MODE_VERIFY)));
    session.set_overlap(16);
    assert_eq!(session.as_raw().overlap, 16);
    session.set_mode(ParanoiaMode::empty());
    assert_eq!(session.as_raw().mode.bits(), 0);
}

#[test]
fn seek_moves_the_cursor_and_returns_the_absolute_sector() {
    let mut toc = DiscToc::new();
    toc.push_track(track(100, 199));
    toc.push_track(track(200, 299));
    let mut session = CdromParanoia::init(open_drive(toc));
    assert_eq!(session.seek(SeekFrom::Start(250)).unwrap(), 250);
    assert_eq!(session.as_raw().cursor, 250);
    assert_eq!(session.seek(SeekFrom::Current(-30)).unwrap(), 220);
    assert_eq!(session.seek(SeekFrom::Current(10)).unwrap(), 230);
    assert_eq!(session.seek(SeekFrom::End(-1)).unwrap(), 299);
    assert_eq!(session.seek(SeekFrom::End(-200)).unwrap(), 100);
}

#[test]
fn rejected_seek_leaves_the_cursor_unchanged() {
    let mut toc = DiscToc::new();
    toc.push_track(track(100, 199));
    let mut session = CdromParanoia::init(open_drive(toc));
    assert_eq!(session.as_raw().cursor, 100);
    assert!(session.seek(SeekFrom::Start(99)).is_err());
    assert!(session.seek(SeekFrom::Start(200)).is_err());
    assert!(session.seek(SeekFrom::Current(-1)).is_err());
    assert!(session.seek(SeekFrom::End(0)).is_err());
    assert!(session.seek(SeekFrom::End(-101)).is_err());
    assert_eq!(session.as_raw().cursor, 100);
}

#[test]
fn read_delivers_a_full_frame_and_advances_the_cursor() {
    let mut session = CdromParanoia::init(ten_sector_disc());
    let mut sink = RecordingSink { events: Vec::new() };
    let frame = session.read(&mut sink).unwrap();
    assert_eq!(frame.samples.len(), CD_FRAMEWORDS as usize);
    assert!(frame.samples.iter().all(|&s| s == 0));
    assert_eq!(session.as_raw().cursor, 1);
    assert_eq!(sink.events, vec![(0, EventKind::Read)]);
}

#[test]
fn whole_track_reads_sector_by_sector_then_signals_the_boundary() {
    // One track: sectors 0 through 9.
    let mut session = CdromParanoia::init(ten_sector_disc());
    assert_eq!(session.drive().tracks().unwrap(), 1);
    let first = session.drive().track_first_sector(1).unwrap();
    let last = session.drive().track_last_sector(1).unwrap();
    assert_eq!(first, 0);
    assert_eq!(last, 9);
    let sectors = last - first + 1;
    assert_eq!(sectors, 10);

    assert_eq!(session.seek(SeekFrom::Start(first)).unwrap(), 0);
    let mut sink = RecordingSink { events: Vec::new() };
    let mut frames: u64 = 0;
    let mut previous_cursor = session.as_raw().cursor;
    for _ in 0..sectors {
        let frame = session.read(&mut sink).unwrap();
        assert_eq!(frame.samples.len(), 1176);
        frames += 1;
        // The cursor advances monotonically, one sector per read.
        let cursor = session.as_raw().cursor;
        assert_eq!(cursor, previous_cursor + 1);
        previous_cursor = cursor;
    }
    assert_eq!(frames, sectors);
    // Every read reported itself at the sector it delivered.
    let positions: Vec<u64> = sink.events.iter().map(|&(p, _)| p).collect();
    assert_eq!(positions, (0..10).collect::<Vec<u64>>());
    assert!(sink.events.iter().all(|&(_, k)| k == EventKind::Read));
    // An eleventh read lies beyond the track's last sector.
    assert!(session.read(&mut sink).is_none());
    assert_eq!(session.as_raw().cursor, 10);
}

#[test]
fn reads_cross_a_track_boundary_seamlessly() {
    let mut toc = DiscToc::new();
    toc.push_track(track(0, 4));
    toc.push_track(track(5, 9));
    let mut session = CdromParanoia::init(open_drive(toc));
    assert_eq!(session.seek(SeekFrom::Start(4)).unwrap(), 4);
    let mut sink = RecordingSink { events: Vec::new() };
    // Last sector of track 1, then first sector of track 2.
    assert!(session.read(&mut sink).is_some());
    assert_eq!(session.as_raw().cursor, 5);
    assert_eq!(session.drive().sector_get_track(5).unwrap(), 2);
    assert!(session.read(&mut sink).is_some());
    assert_eq!(session.as_raw().cursor, 6);
}

#[test]
fn read_limited_honours_the_same_contract_for_any_budget() {
    let mut session = CdromParanoia::init(ten_sector_disc());
    let mut sink = RecordingSink { events: Vec::new() };
    let frame = session.read_limited(&mut sink, 0).unwrap();
    assert_eq!(frame.samples.len(), 1176);
    let frame = session.read_limited(&mut sink, 100).unwrap();
    assert_eq!(frame.samples.len(), 1176);
    assert_eq!(session.as_raw().cursor, 2);
}

#[test]
fn session_drains_the_owned_drives_diagnostics() {
    let mut toc = DiscToc::new();
    toc.push_track(track(0, 9));
    let mut drive = CdromDrive::find_a_cdrom(Verbosity::LogIt, Some(toc)).unwrap();
    assert!(drive.open().is_ok());
    let mut session = CdromParanoia::init(drive);
    let messages = session.messages().unwrap();
    assert_eq!(messages.as_lines(), &vec!["drive opened".to_owned()]);
    assert!(session.messages().is_none());
    assert!(session.errors().is_none());
}

#[test]
fn releasing_the_session_releases_the_owned_drive_transitively() {
    let mut session = CdromParanoia::init(ten_sector_disc());
    let mut sink = RecordingSink { events: Vec::new() };
    assert!(session.read(&mut sink).is_some());
    let drive = session.release();
    assert_eq!(drive.as_raw().state, DriveState::Closed);
    // The handle itself stays idempotently releasable.
    let mut drive = drive;
    drive.release();
    assert_eq!(drive.as_raw().state, DriveState::Closed);
}

#[test]
fn into_raw_hands_the_drive_back_without_release() {
    let mut session = CdromParanoia::init(ten_sector_disc());
    let mut sink = RecordingSink { events: Vec::new() };
    assert!(session.read(&mut sink).is_some());
    let (drive, raw) = session.into_raw();
    assert_eq!(raw.cursor, 1);
    assert_eq!(raw.mode.bits(), PARANOIA_MODE_FULL);
    assert_eq!(drive.as_raw().state, DriveState::Open);
    // The rebuilt session continues where the first one stopped.
    let session = CdromParanoia::from_raw(drive, raw);
    assert_eq!(session.as_raw().cursor, 1);
    let (mut drive, _) = session.into_raw();
    drive.release();
    assert_eq!(drive.as_raw().state, DriveState::Closed);
}
