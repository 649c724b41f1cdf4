use retag::dispatch::CallbackOutcome;
use retag::dispatch::apply_outcome;
use retag::dispatch::dispatch_outcomes;
use retag::errors::MarshalError;
use retag::errors::ScriptError;
use retag::marshal::ScriptRecord;
use retag::trackdata::AlbumData;
use retag::trackdata::TrackData;

fn base_record(title: &str) -> TrackData {
    TrackData {
        title: title.to_owned(),
        artist: "Artist".to_owned(),
        album: AlbumData {
            title: "Album".to_owned(),
            artist: "Band".to_owned(),
            cover: None,
        },
        year: 2020,
        genre: String::new(),
        comment: String::new(),
        composer: String::new(),
        album_artist: String::new(),
        disc_number: 1,
        track_number: 2,
        duration: 90_000,
    }
}

fn titled_script_record(title: &str) -> ScriptRecord {
    ScriptRecord {
        title: Some(title.to_owned()),
        artist: None,
        album: None,
        year: None,
        genre: None,
        comment: None,
        composer: None,
        album_artist: None,
        disc_number: None,
        track_number: None,
        duration: None,
    }
}

#[test]
fn no_outcomes_is_no_change() {
    let out = dispatch_outcomes(&base_record("A"), &Vec::new()).unwrap();
    assert!(out.is_none());
}

#[test]
fn only_silent_outcomes_is_no_change() {
    let outs = vec![CallbackOutcome::NoOutput, CallbackOutcome::NoOutput];
    let out = dispatch_outcomes(&base_record("A"), &outs).unwrap();
    assert!(out.is_none());
}

#[test]
fn last_replacement_wins() {
    let outs = vec![
        CallbackOutcome::Replacement(titled_script_record("first")),
        CallbackOutcome::NoOutput,
        CallbackOutcome::Replacement(titled_script_record("second")),
    ];
    let out = dispatch_outcomes(&base_record("A"), &outs).unwrap();
    let rec = out.expect("a replacement");
    assert_eq!(rec.title, "second");
    // The replacement was partial, so untouched fields default.
    assert_eq!(rec.artist, "");
    assert_eq!(rec.year, 0);
}

#[test]
fn raise_carries_its_position_and_stops_the_run() {
    let outs = vec![
        CallbackOutcome::NoOutput,
        CallbackOutcome::Raised("boom".to_owned()),
        CallbackOutcome::Replacement(titled_script_record("never")),
    ];
    let err = dispatch_outcomes(&base_record("A"), &outs).unwrap_err();
    match err {
        ScriptError::CallbackFailed { index, message } => {
            assert_eq!(index, 1);
            assert_eq!(message, "boom");
        }
        _ => panic!("expected a callback failure"),
    }
}

#[test]
fn invalid_outcome_is_a_marshal_error() {
    let outs = vec![CallbackOutcome::Invalid(MarshalError::NotARecord)];
    let err = dispatch_outcomes(&base_record("A"), &outs).unwrap_err();
    assert!(matches!(err, ScriptError::Marshal(MarshalError::NotARecord)));
}

#[test]
fn replacement_with_bad_mime_fails_the_run() {
    let mut sr = titled_script_record("x");
    sr.year = Some(5_000_000_000);
    let outs = vec![CallbackOutcome::Replacement(sr)];
    let err = dispatch_outcomes(&base_record("A"), &outs).unwrap_err();
    assert!(matches!(err, ScriptError::Marshal(MarshalError::OutOfRange)));
}

#[test]
fn apply_outcome_keeps_record_on_no_output() {
    let (rec, replaced) = apply_outcome(base_record("A"), 0, CallbackOutcome::NoOutput).unwrap();
    assert!(!replaced);
    assert_eq!(rec.title, "A");
    assert_eq!(rec.artist, "Artist");
}

#[test]
fn apply_outcome_takes_replacement() {
    let (rec, replaced) =
        apply_outcome(base_record("A"), 0, CallbackOutcome::Replacement(titled_script_record("B")))
            .unwrap();
    assert!(replaced);
    assert_eq!(rec.title, "B");
}
