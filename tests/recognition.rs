use audio_capture::recognition::{album_of, track_of, MetadataEntry, SectionMetadata, TrackFields};
use audio_capture::{handle_error, RustError};

fn entry(title: Option<&str>, text: Option<&str>) -> MetadataEntry {
    MetadataEntry { title: title.map(|s| s.to_string()), text: text.map(|s| s.to_string()) }
}

#[test]
fn album_from_first_section_with_metadata() {
    let sections = vec![
        SectionMetadata::Missing,
        SectionMetadata::Entries(vec![
            entry(Some("Label"), Some("L")),
            entry(Some("Album"), Some("First")),
            entry(Some("Album"), Some("Second")),
        ]),
        SectionMetadata::Entries(vec![entry(Some("Album"), Some("Later"))]),
    ];
    assert_eq!(album_of(&sections).as_deref(), Some("First"));
}

#[test]
fn album_absent_when_first_metadata_is_not_a_list() {
    let sections = vec![
        SectionMetadata::NotList,
        SectionMetadata::Entries(vec![entry(Some("Album"), Some("X"))]),
    ];
    assert_eq!(album_of(&sections), None);
}

#[test]
fn album_absent_when_first_album_line_has_no_text() {
    let sections = vec![SectionMetadata::Entries(vec![
        entry(None, Some("untitled")),
        entry(Some("Album"), None),
        entry(Some("Album"), Some("Y")),
    ])];
    assert_eq!(album_of(&sections), None);
    assert_eq!(album_of(&Vec::new()), None);
}

#[test]
fn track_fields_map_to_track() {
    let fields = TrackFields {
        title: Some("Song".to_string()),
        subtitle: Some("Artist".to_string()),
        background: Some("bg".to_string()),
        coverart: None,
        coverarthq: Some("hq".to_string()),
        sections: Some(vec![SectionMetadata::Entries(vec![entry(Some("Album"), Some("Record"))])]),
    };
    let t = track_of(fields);
    assert_eq!(t.track.as_deref(), Some("Song"));
    assert_eq!(t.artist.as_deref(), Some("Artist"));
    assert_eq!(t.album.as_deref(), Some("Record"));
    assert_eq!(t.art.background.as_deref(), Some("bg"));
    assert_eq!(t.art.coverart, None);
    assert_eq!(t.art.coverarthq.as_deref(), Some("hq"));
}

#[test]
fn missing_fields_give_none() {
    let fields = TrackFields {
        title: None,
        subtitle: None,
        background: None,
        coverart: None,
        coverarthq: None,
        sections: None,
    };
    let t = track_of(fields);
    assert!(t.track.is_none() && t.artist.is_none() && t.album.is_none());
}

#[test]
fn handle_error_carries_debug_text() {
    match handle_error(std::fmt::Error) {
        RustError::Error { msg } => assert_eq!(msg, "Error"),
        other => panic!("unexpected {:?}", other),
    }
}
