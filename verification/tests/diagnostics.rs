use cdparanoia::CddaString;
use cdparanoia::CdromDrive;
use cdparanoia::DiagBuffer;
use cdparanoia::DiscToc;
use cdparanoia::TrackEntry;
use cdparanoia::Verbosity;

fn audio_toc() -> DiscToc {
    let mut toc = DiscToc::new();
    toc.push_track(TrackEntry {
        first_sector: 0,
        last_sector: 9,
        channels: 2,
        audio: true,
        copy_permitted: false,
        preemphasis: false,
    });
    toc
}

#[test]
fn drain_of_empty_buffer_yields_none() {
    let mut buffer = DiagBuffer::new();
    assert!(buffer.drain().is_none());
    assert!(buffer.drain().is_none());
}

#[test]
fn drain_hands_lines_over_in_emission_order_then_yields_none() {
    let mut buffer = DiagBuffer::new();
    buffer.post("first line".to_owned());
    buffer.post("second line".to_owned());
    buffer.post("third line".to_owned());
    let drained = buffer.drain().unwrap();
    assert_eq!(
        drained.as_lines(),
        &vec![
            "first line".to_owned(),
            "second line".to_owned(),
            "third line".to_owned()
        ]
    );
    // Nothing new between the calls: the second drain yields none.
    assert!(buffer.drain().is_none());
}

#[test]
fn cdda_string_from_raw_treats_empty_as_absent() {
    assert!(CddaString::from_raw(Vec::new()).is_none());
    let s = CddaString::from_raw(vec!["one line".to_owned()]).unwrap();
    assert_eq!(s.as_lines(), &vec!["one line".to_owned()]);
}

#[test]
fn logged_failures_accumulate_in_emission_order() {
    // A probe that reported no tracks at all: speed setting and open both
    // fail, and with a logging error verbosity each failure adds its line.
    let mut drive = CdromDrive::find_a_cdrom(Verbosity::LogIt, Some(DiscToc::new())).unwrap();
    assert!(drive.set_speed(2).is_err()); // 400: device not open
    assert!(drive.open().is_err()); // 003: illegal number of tracks
    let drained = drive.errors().unwrap();
    assert_eq!(
        drained.as_lines(),
        &vec![
            "400: Device not open".to_owned(),
            "003: CDROM reporting illegal number of tracks".to_owned()
        ]
    );
    // A second immediate drain finds nothing pending.
    assert!(drive.errors().is_none());
}

#[test]
fn silent_verbosity_buffers_nothing() {
    let mut drive = CdromDrive::find_a_cdrom(Verbosity::ForgetIt, Some(audio_toc())).unwrap();
    assert!(drive.set_speed(2).is_err());
    assert!(drive.errors().is_none());
    assert!(drive.open().is_ok());
    assert!(drive.messages().is_none());
}

#[test]
fn successful_open_logs_a_message_line() {
    let mut drive = CdromDrive::find_a_cdrom(Verbosity::LogIt, Some(audio_toc())).unwrap();
    assert!(drive.open().is_ok());
    let drained = drive.messages().unwrap();
    assert_eq!(drained.as_lines(), &vec!["drive opened".to_owned()]);
    assert!(drive.messages().is_none());
}

#[test]
fn message_and_error_buffers_are_independent() {
    let mut drive = CdromDrive::find_a_cdrom(Verbosity::LogIt, Some(audio_toc())).unwrap();
    assert!(drive.set_speed(2).is_err());
    assert!(drive.open().is_ok());
    let messages = drive.messages().unwrap();
    assert_eq!(messages.as_lines(), &vec!["drive opened".to_owned()]);
    let errors = drive.errors().unwrap();
    assert_eq!(errors.as_lines(), &vec!["400: Device not open".to_owned()]);
}
