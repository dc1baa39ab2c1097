use unyo::bluetooth::{
    apply_playback_poll, decode_player, find_property, find_transport_volume, limit_string_size,
    playback_from_tree, Interface, ManagedObject, PlaybackData, PlaybackState, Property, Variant,
};

fn prop(name: &str, value: Variant) -> Property {
    Property { name: name.to_string(), value }
}

fn text(s: &str) -> Variant {
    Variant::Str(s.to_string())
}

fn player(track: Vec<Property>, rest: Vec<Property>) -> Interface {
    let mut properties = vec![prop("Track", Variant::Dict(track))];
    properties.extend(rest);
    Interface { name: "org.bluez.MediaPlayer1".to_string(), properties }
}

fn transport(volume: Variant) -> Interface {
    Interface {
        name: "org.bluez.MediaTransport1".to_string(),
        properties: vec![prop("Volume", volume)],
    }
}

fn object(path: &str, interfaces: Vec<Interface>) -> ManagedObject {
    ManagedObject { path: path.to_string(), interfaces }
}

fn song_player() -> Interface {
    player(
        vec![prop("Title", text("Song")), prop("Artist", text("Band")), prop("Duration", Variant::U32(200000))],
        vec![
            prop("Position", Variant::U32(50000)),
            prop("Status", text("playing")),
            prop("Shuffle", text("off")),
        ],
    )
}

#[test]
fn end_to_end_song_snapshot() {
    let tree = vec![object("/p", vec![song_player()]), object("/t", vec![transport(Variant::U16(30))])];
    let d = playback_from_tree(&tree).expect("a player");
    assert_eq!(d.title, "Song");
    assert_eq!(d.artist, "Band");
    assert_eq!(d.playback_state, PlaybackState::Playing);
    assert_eq!(d.position, 50000);
    assert_eq!(d.duration, 200000);
    assert!(!d.shuffle);
    assert_eq!(d.volume, 30);
}

#[test]
fn missing_title_and_artist_read_unknown() {
    let tree = vec![object(
        "/p",
        vec![player(vec![], vec![prop("Position", Variant::U32(1)), prop("Status", text("paused"))])],
    )];
    let d = playback_from_tree(&tree).expect("a player");
    assert_eq!(d.title, "Unknown");
    assert_eq!(d.artist, "Unknown");
    assert_eq!(d.duration, 0);
    assert_eq!(d.volume, 0);
    assert_eq!(d.playback_state, PlaybackState::Paused);
}

#[test]
fn long_title_and_artist_are_cut() {
    let title = "a".repeat(50);
    let artist = "b".repeat(21);
    let tree = vec![object(
        "/p",
        vec![player(
            vec![prop("Title", text(&title)), prop("Artist", text(&artist))],
            vec![prop("Position", Variant::U32(0)), prop("Status", text("stopped"))],
        )],
    )];
    let d = playback_from_tree(&tree).expect("a player");
    assert_eq!(d.title, format!("{}...", "a".repeat(38)));
    assert_eq!(d.artist, format!("{}...", "b".repeat(17)));
    assert_eq!(d.title.chars().count(), 41);
    assert_eq!(d.artist.chars().count(), 20);
}

#[test]
fn limit_counts_characters_not_bytes() {
    let s = "ä".repeat(41);
    assert_eq!(limit_string_size(&s, 41), s);
    let t = "ä".repeat(42);
    assert_eq!(limit_string_size(&t, 41), format!("{}...", "ä".repeat(38)));
    assert_eq!(limit_string_size(&"x".repeat(20), 20), "x".repeat(20));
    assert_eq!(limit_string_size(&String::new(), 20), "");
}

#[test]
fn wrong_typed_title_passes_to_next_player() {
    let bad = player(
        vec![prop("Title", Variant::U32(5))],
        vec![prop("Position", Variant::U32(1)), prop("Status", text("playing"))],
    );
    let tree = vec![object("/a", vec![bad]), object("/b", vec![song_player()])];
    let d = playback_from_tree(&tree).expect("the second player");
    assert_eq!(d.title, "Song");
    let only_bad = vec![object(
        "/a",
        vec![player(
            vec![prop("Artist", Variant::Other)],
            vec![prop("Position", Variant::U32(1)), prop("Status", text("playing"))],
        )],
    )];
    assert!(playback_from_tree(&only_bad).is_none());
}

#[test]
fn missing_position_or_status_means_no_player() {
    let no_pos = player(vec![], vec![prop("Status", text("playing"))]);
    assert!(playback_from_tree(&vec![object("/a", vec![no_pos])]).is_none());
    let no_status = player(vec![], vec![prop("Position", Variant::U32(3))]);
    assert!(playback_from_tree(&vec![object("/a", vec![no_status])]).is_none());
    let no_track = Interface {
        name: "org.bluez.MediaPlayer1".to_string(),
        properties: vec![prop("Position", Variant::U32(3)), prop("Status", text("playing"))],
    };
    assert!(playback_from_tree(&vec![object("/a", vec![no_track])]).is_none());
    assert!(playback_from_tree(&vec![]).is_none());
}

#[test]
fn shuffle_and_status_strings() {
    let p = player(
        vec![],
        vec![prop("Position", Variant::U32(1)), prop("Status", text("forward-seek")), prop("Shuffle", text("alltracks"))],
    );
    let rec = decode_player(&p.properties, 7).expect("decodes");
    assert!(rec.5);
    assert_eq!(rec.2, PlaybackState::Stopped);
    assert_eq!(rec.6, 7);
    let q = player(vec![], vec![prop("Position", Variant::U32(1)), prop("Status", text("playing")), prop("Shuffle", Variant::U16(1))]);
    assert!(decode_player(&q.properties, 0).is_none());
    assert_eq!(PlaybackState::from("paused".to_string()), PlaybackState::Paused);
    assert_eq!(PlaybackState::from("Playing".to_string()), PlaybackState::Stopped);
}

#[test]
fn transport_volume_last_wins_and_wrong_type_fails() {
    let tree = vec![object("/t1", vec![transport(Variant::U16(10))]), object("/t2", vec![transport(Variant::U16(90))])];
    assert_eq!(find_transport_volume(&tree), Ok(Some(90)));
    assert_eq!(find_transport_volume(&vec![object("/p", vec![song_player()])]), Ok(None));
    let bad = vec![object("/p", vec![song_player()]), object("/t", vec![transport(Variant::U32(30))])];
    assert!(find_transport_volume(&bad).is_err());
    assert!(playback_from_tree(&bad).is_none());
}

#[test]
fn property_lookup_takes_first_match() {
    let props = vec![prop("A", Variant::U32(1)), prop("A", Variant::U32(2))];
    assert!(matches!(find_property(&props, &"A".to_string()), Some(Variant::U32(1))));
    assert!(find_property(&props, &"B".to_string()).is_none());
}

#[test]
fn progress_line_length() {
    let d = PlaybackData::new("t".to_string(), "a".to_string(), PlaybackState::Playing, 50000, 200000, false, 0);
    assert_eq!(d.line_length(400), 100);
    assert_eq!(d.line_length(-400), -100);
    assert_eq!(d.line_length(0), 0);
    let e = PlaybackData::new("t".to_string(), "a".to_string(), PlaybackState::Playing, 10, 0, false, 0);
    assert_eq!(e.line_length(400), 0);
    let f = PlaybackData::new("t".to_string(), "a".to_string(), PlaybackState::Playing, 1, 3, false, 0);
    assert_eq!(f.line_length(100), 33);
    let g = PlaybackData::new("t".to_string(), "a".to_string(), PlaybackState::Playing, u32::MAX, 1, false, 0);
    assert_eq!(g.line_length(i32::MAX), i32::MAX);
}

#[test]
fn failed_query_keeps_previous_playback() {
    let prev = playback_from_tree(&vec![object("/p", vec![song_player()])]);
    let kept = apply_playback_poll(prev, None).expect("kept");
    assert_eq!(kept.title, "Song");
    let cleared = apply_playback_poll(Some(kept), Some(playback_from_tree(&vec![])));
    assert!(cleared.is_none());
}
