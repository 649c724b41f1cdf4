use retag::engine::LuaEngine;
use retag::errors::MarshalError;
use retag::errors::ScriptError;
use retag::trackdata::AlbumData;
use retag::trackdata::MimeType;
use retag::trackdata::Picture;
use retag::trackdata::TrackData;

fn record_with_title(title: &str) -> TrackData {
    TrackData {
        title: title.to_owned(),
        artist: "Artist".to_owned(),
        album: AlbumData {
            title: "Album".to_owned(),
            artist: "Album Artist".to_owned(),
            cover: None,
        },
        year: 1999,
        genre: "Genre".to_owned(),
        comment: "Comment".to_owned(),
        composer: "Composer".to_owned(),
        album_artist: "Album Artist".to_owned(),
        disc_number: 1,
        track_number: 7,
        duration: 215_000,
    }
}

#[test]
fn no_callbacks_is_no_change() {
    let engine = LuaEngine::new().unwrap();
    assert_eq!(engine.callback_count(), 0);
    let out = engine.run_callbacks(&record_with_title("A")).unwrap();
    assert!(out.is_none());
}

#[test]
fn callback_without_output_is_no_change() {
    let mut engine = LuaEngine::new().unwrap();
    engine
        .load_script("retag.register(function(r) end)")
        .unwrap();
    assert_eq!(engine.callback_count(), 1);
    let out = engine.run_callbacks(&record_with_title("A")).unwrap();
    assert!(out.is_none());
}

#[test]
fn callback_returning_false_is_no_change() {
    let mut engine = LuaEngine::new().unwrap();
    engine
        .load_script("retag.register(function(r) return false end)")
        .unwrap();
    let out = engine.run_callbacks(&record_with_title("A")).unwrap();
    assert!(out.is_none());
}

#[test]
fn partial_replacement_defaults_untouched_fields() {
    let mut engine = LuaEngine::new().unwrap();
    engine
        .load_script("retag.register(function(r) return { title = \"B\" } end)")
        .unwrap();
    let out = engine.run_callbacks(&record_with_title("A")).unwrap();
    let rec = out.expect("a replacement record");
    assert_eq!(rec.title, "B");
    // The callback returned a partial shape: every field it did not set
    // comes back as the type's empty value, not the original's.
    assert_eq!(rec.artist, "");
    assert_eq!(rec.genre, "");
    assert_eq!(rec.comment, "");
    assert_eq!(rec.composer, "");
    assert_eq!(rec.album_artist, "");
    assert_eq!(rec.year, 0);
    assert_eq!(rec.disc_number, 0);
    assert_eq!(rec.track_number, 0);
    assert_eq!(rec.duration, 0);
    assert_eq!(rec.album.title, "");
    assert_eq!(rec.album.artist, "");
    assert!(rec.album.cover.is_none());
}

#[test]
fn full_replacement_keeps_every_field_it_sets() {
    let mut engine = LuaEngine::new().unwrap();
    engine
        .load_script(
            "retag.register(function(r)\n\
             r.title = \"B\"\n\
             return r\n\
             end)",
        )
        .unwrap();
    let out = engine.run_callbacks(&record_with_title("A")).unwrap();
    let rec = out.expect("a replacement record");
    assert_eq!(rec.title, "B");
    assert_eq!(rec.artist, "Artist");
    assert_eq!(rec.year, 1999);
    assert_eq!(rec.disc_number, 1);
    assert_eq!(rec.track_number, 7);
    assert_eq!(rec.duration, 215_000);
    assert_eq!(rec.album.title, "Album");
    assert_eq!(rec.album.artist, "Album Artist");
}

#[test]
fn second_callback_sees_first_callbacks_output() {
    let mut engine = LuaEngine::new().unwrap();
    engine
        .load_script(
            "retag.register(function(r)\n\
             r.title = r.title .. \"-a\"\n\
             return r\n\
             end)\n\
             retag.register(function(r)\n\
             r.title = r.title .. \"-b\"\n\
             return r\n\
             end)",
        )
        .unwrap();
    assert_eq!(engine.callback_count(), 2);
    let out = engine.run_callbacks(&record_with_title("A")).unwrap();
    let rec = out.expect("a replacement record");
    assert_eq!(rec.title, "A-a-b");
}

#[test]
fn opposite_registration_order_gives_opposite_composition() {
    let mut engine = LuaEngine::new().unwrap();
    engine
        .load_script(
            "retag.register(function(r)\n\
             r.title = r.title .. \"-b\"\n\
             return r\n\
             end)\n\
             retag.register(function(r)\n\
             r.title = r.title .. \"-a\"\n\
             return r\n\
             end)",
        )
        .unwrap();
    let out = engine.run_callbacks(&record_with_title("A")).unwrap();
    let rec = out.expect("a replacement record");
    assert_eq!(rec.title, "A-b-a");
}

#[test]
fn raising_callback_fails_with_its_position() {
    let mut engine = LuaEngine::new().unwrap();
    engine
        .load_script(
            "retag.register(function(r) end)\n\
             retag.register(function(r) error(\"boom\") end)\n\
             retag.register(function(r) return { title = \"never\" } end)",
        )
        .unwrap();
    let err = engine.run_callbacks(&record_with_title("A")).unwrap_err();
    match err {
        ScriptError::CallbackFailed { index, message } => {
            assert_eq!(index, 1);
            assert!(message.contains("boom"));
        }
        _ => panic!("expected a callback failure"),
    }
}

#[test]
fn identity_callback_round_trips_cover_bytes() {
    let mut engine = LuaEngine::new().unwrap();
    engine
        .load_script("retag.register(function(r) return r end)")
        .unwrap();
    let mut rec = record_with_title("A");
    let blob: Vec<u8> = vec![0, 1, 2, 255, 254, 128, 0, 10, 13, 7];
    rec.album.cover = Some(Picture {
        data: blob.clone(),
        mime: MimeType::Jpeg,
    });
    let out = engine.run_callbacks(&rec).unwrap();
    let back = out.expect("a replacement record");
    assert_eq!(back.title, rec.title);
    assert_eq!(back.artist, rec.artist);
    assert_eq!(back.album.title, rec.album.title);
    assert_eq!(back.album.artist, rec.album.artist);
    assert_eq!(back.year, rec.year);
    assert_eq!(back.disc_number, rec.disc_number);
    assert_eq!(back.track_number, rec.track_number);
    assert_eq!(back.duration, rec.duration);
    let cover = back.album.cover.expect("the cover survives");
    assert_eq!(cover.data, blob);
    assert_eq!(cover.mime, MimeType::Jpeg);
}

#[test]
fn unknown_mime_from_script_is_a_marshal_error() {
    let mut engine = LuaEngine::new().unwrap();
    engine
        .load_script(
            "retag.register(function(r)\n\
             r.album.cover = { data = \"xx\", mime = \"Webp\" }\n\
             return r\n\
             end)",
        )
        .unwrap();
    let err = engine.run_callbacks(&record_with_title("A")).unwrap_err();
    assert!(matches!(err, ScriptError::Marshal(MarshalError::UnknownMime)));
}

#[test]
fn cover_without_mime_is_a_marshal_error() {
    let mut engine = LuaEngine::new().unwrap();
    engine
        .load_script(
            "retag.register(function(r)\n\
             r.album.cover = { data = \"xx\" }\n\
             return r\n\
             end)",
        )
        .unwrap();
    let err = engine.run_callbacks(&record_with_title("A")).unwrap_err();
    assert!(matches!(err, ScriptError::Marshal(MarshalError::MissingMime)));
}

#[test]
fn year_out_of_range_is_a_marshal_error() {
    let mut engine = LuaEngine::new().unwrap();
    engine
        .load_script(
            "retag.register(function(r)\n\
             r.year = 3000000000\n\
             return r\n\
             end)",
        )
        .unwrap();
    let err = engine.run_callbacks(&record_with_title("A")).unwrap_err();
    assert!(matches!(err, ScriptError::Marshal(MarshalError::OutOfRange)));
}

#[test]
fn unconvertible_field_is_a_marshal_error() {
    let mut engine = LuaEngine::new().unwrap();
    engine
        .load_script(
            "retag.register(function(r)\n\
             r.year = \"not a number\"\n\
             return r\n\
             end)",
        )
        .unwrap();
    let err = engine.run_callbacks(&record_with_title("A")).unwrap_err();
    assert!(matches!(err, ScriptError::Marshal(MarshalError::BadField)));
}

#[test]
fn truthy_non_table_return_is_a_marshal_error() {
    let mut engine = LuaEngine::new().unwrap();
    engine
        .load_script("retag.register(function(r) return 42 end)")
        .unwrap();
    let err = engine.run_callbacks(&record_with_title("A")).unwrap_err();
    assert!(matches!(err, ScriptError::Marshal(MarshalError::NotARecord)));
}

#[test]
fn scripts_share_one_global_namespace() {
    let mut engine = LuaEngine::new().unwrap();
    engine
        .load_script(
            "function shared_suffix(r)\n\
             r.title = r.title .. \"-shared\"\n\
             return r\n\
             end",
        )
        .unwrap();
    engine
        .load_script("retag.register(function(r) return shared_suffix(r) end)")
        .unwrap();
    let out = engine.run_callbacks(&record_with_title("A")).unwrap();
    let rec = out.expect("a replacement record");
    assert_eq!(rec.title, "A-shared");
}

#[test]
fn registering_the_same_function_twice_runs_it_twice() {
    let mut engine = LuaEngine::new().unwrap();
    engine
        .load_script(
            "local f = function(r)\n\
             r.title = r.title .. \"x\"\n\
             return r\n\
             end\n\
             retag.register(f)\n\
             retag.register(f)",
        )
        .unwrap();
    assert_eq!(engine.callback_count(), 2);
    let out = engine.run_callbacks(&record_with_title("A")).unwrap();
    let rec = out.expect("a replacement record");
    assert_eq!(rec.title, "Axx");
}

#[test]
fn syntax_error_fails_the_load() {
    let mut engine = LuaEngine::new().unwrap();
    let err = engine.load_script("this is not lua").unwrap_err();
    assert!(matches!(err, ScriptError::SyntaxOrRuntimeError(_)));
}

#[test]
fn registering_a_non_function_is_an_invalid_callback() {
    let mut engine = LuaEngine::new().unwrap();
    let err = engine.load_script("retag.register(5)").unwrap_err();
    assert!(matches!(err, ScriptError::InvalidCallback));
    assert_eq!(engine.callback_count(), 0);
}

#[test]
fn registrations_before_a_raise_remain() {
    let mut engine = LuaEngine::new().unwrap();
    let err = engine.load_script(
        "retag.register(function(r) end)\n\
         error(\"top level\")",
    );
    assert!(err.is_err());
    assert_eq!(engine.callback_count(), 1);
}
