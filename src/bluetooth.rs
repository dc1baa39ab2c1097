//! The media-player source: a model of the bus's managed-object tree, the
//! decoder that finds the active player and its transport volume, the display
//! snapshot, and the playback slot's rule.

use vstd::prelude::*;

verus! {

/// A dynamically-typed value as the media bus hands it over, after one level
/// of variant wrapping has been removed. Only the shapes that the decoder
/// reads are told apart; everything else is `Other`.
#[derive(Debug)]
pub enum Variant {
    Str(String),
    U16(u16),
    U32(u32),
    Dict(Vec<Property>),
    Other,
}

/// A named value: a property of an interface, or an entry of a dictionary.
#[derive(Debug)]
pub struct Property {
    pub name: String,
    pub value: Variant,
}

/// One interface of a managed object, with its properties.
#[derive(Debug)]
pub struct Interface {
    pub name: String,
    pub properties: Vec<Property>,
}

/// One managed object of the bus: its path and the interfaces it exposes.
/// A tree is a `Vec<ManagedObject>`, in the order in which the bus reply was walked.
#[derive(Debug)]
pub struct ManagedObject {
    pub path: String,
    pub interfaces: Vec<Interface>,
}

/// A property or dictionary entry of a decoded value was present with the wrong type.
#[derive(Debug, Clone, Copy, PartialEq, Eq, Structural)]
pub enum DecodeError {
    WrongType,
}

/// Playback status of the media player.
#[derive(Debug, Clone, Copy, PartialEq, Eq, Structural)]
pub enum PlaybackState {
    Playing,
    Paused,
    Stopped,
}

pub open spec fn player_iface() -> Seq<char> {
    "org.bluez.MediaPlayer1"@
}

pub open spec fn transport_iface() -> Seq<char> {
    "org.bluez.MediaTransport1"@
}

pub open spec fn unknown_text() -> Seq<char> {
    "Unknown"@
}

pub open spec fn ellipsis() -> Seq<char> {
    seq!['.', '.', '.']
}

/// The status string of the player mapped to its state; unknown strings mean stopped.
pub open spec fn status_of(s: Seq<char>) -> PlaybackState {
    if s == "playing"@ {
        PlaybackState::Playing
    } else if s == "paused"@ {
        PlaybackState::Paused
    } else {
        PlaybackState::Stopped
    }
}

/// The value of the first property named `name` at or after index `i`.
pub open spec fn prop_lookup_from(props: Seq<Property>, name: Seq<char>, i: int) -> Option<Variant>
    decreases props.len() - i,
{
    if i < 0 || i >= props.len() {
        None
    } else if props[i].name@ == name {
        Some(props[i].value)
    } else {
        prop_lookup_from(props, name, i + 1)
    }
}

/// The value of the first property named `name`.
pub open spec fn prop_lookup(props: Seq<Property>, name: Seq<char>) -> Option<Variant> {
    prop_lookup_from(props, name, 0)
}

/// The properties of the first interface named `name` at or after index `i`.
pub open spec fn iface_lookup_from(ifaces: Seq<Interface>, name: Seq<char>, i: int) -> Option<Seq<Property>>
    decreases ifaces.len() - i,
{
    if i < 0 || i >= ifaces.len() {
        None
    } else if ifaces[i].name@ == name {
        Some(ifaces[i].properties@)
    } else {
        iface_lookup_from(ifaces, name, i + 1)
    }
}

/// The properties of the first interface named `name`.
pub open spec fn iface_lookup(ifaces: Seq<Interface>, name: Seq<char>) -> Option<Seq<Property>> {
    iface_lookup_from(ifaces, name, 0)
}

/// A text field: absent reads as "Unknown", a string as itself, anything else fails.
pub open spec fn text_field(v: Option<Variant>) -> Option<Seq<char>> {
    match v {
        None => Some(unknown_text()),
        Some(Variant::Str(s)) => Some(s@),
        Some(_) => None,
    }
}

/// A numeric field: absent reads as 0, a `u32` as itself, anything else fails.
pub open spec fn count_field(v: Option<Variant>) -> Option<u32> {
    match v {
        None => Some(0u32),
        Some(Variant::U32(n)) => Some(n),
        Some(_) => None,
    }
}

/// The shuffle flag: absent is off, a string is on unless it is "off", anything else fails.
pub open spec fn shuffle_field(v: Option<Variant>) -> Option<bool> {
    match v {
        None => Some(false),
        Some(Variant::Str(s)) => Some(s@ != "off"@),
        Some(_) => None,
    }
}

/// The decoded fields of one player: title, artist, state, position, duration,
/// shuffle and volume.
pub type RecordView = (Seq<char>, Seq<char>, PlaybackState, u32, u32, bool, u32);

/// The record that the properties of one player interface decode to, if any.
/// Track, Position and Status must be present, as a dictionary, a `u32` and a
/// string; the other fields follow their own default rules.
pub open spec fn player_record(props: Seq<Property>, volume: u16) -> Option<RecordView> {
    match (
        shuffle_field(prop_lookup(props, "Shuffle"@)),
        prop_lookup(props, "Track"@),
        prop_lookup(props, "Position"@),
        prop_lookup(props, "Status"@),
    ) {
        (Some(shuffle), Some(Variant::Dict(track)), Some(Variant::U32(pos)), Some(Variant::Str(status))) => {
            let title = text_field(prop_lookup(track@, "Title"@));
            let artist = text_field(prop_lookup(track@, "Artist"@));
            let duration = count_field(prop_lookup(track@, "Duration"@));
            if title is Some && artist is Some && duration is Some {
                Some((title->0, artist->0, status_of(status@), pos, duration->0, shuffle, volume as u32))
            } else {
                None
            }
        },
        _ => None,
    }
}

/// The first player record that decodes, scanning the objects from index `i`.
pub open spec fn player_from(objs: Seq<ManagedObject>, volume: u16, i: int) -> Option<RecordView>
    decreases objs.len() - i,
{
    if i < 0 || i >= objs.len() {
        None
    } else {
        match iface_lookup(objs[i].interfaces@, player_iface()) {
            Some(props) => match player_record(props, volume) {
                Some(r) => Some(r),
                None => player_from(objs, volume, i + 1),
            },
            None => player_from(objs, volume, i + 1),
        }
    }
}

/// The volume that one object's transport interface reports: `Some(None)` when
/// there is none, `None` when it has the wrong type.
pub open spec fn object_volume(obj: ManagedObject) -> Option<Option<u16>> {
    match iface_lookup(obj.interfaces@, transport_iface()) {
        None => Some(None),
        Some(props) => match prop_lookup(props, "Volume"@) {
            None => Some(None),
            Some(Variant::U16(v)) => Some(Some(v)),
            Some(_) => None,
        },
    }
}

/// The transport volume over the first `n` objects: the last one reported wins;
/// `None` once any of them has the wrong type.
pub open spec fn volume_scan(objs: Seq<ManagedObject>, n: int) -> Option<Option<u16>>
    decreases n,
{
    if n <= 0 {
        Some(None)
    } else {
        match volume_scan(objs, n - 1) {
            None => None,
            Some(prev) => match object_volume(objs[n - 1]) {
                None => None,
                Some(None) => Some(prev),
                Some(Some(v)) => Some(Some(v)),
            },
        }
    }
}

/// What a whole tree decodes to: the first decodable player, with the transport
/// volume (0 when none is reported); nothing when a volume has the wrong type.
pub open spec fn tree_record(objs: Seq<ManagedObject>) -> Option<RecordView> {
    match volume_scan(objs, objs.len() as int) {
        None => None,
        Some(v) => player_from(objs, match v { Some(x) => x, None => 0u16 }, 0),
    }
}

/// The decoded record of one player, as the scan hands it over before truncation:
/// title, artist, state, position (ms), duration (ms), shuffle, volume.
pub type PlayerRecord = (String, String, PlaybackState, u32, u32, bool, u32);

pub open spec fn record_view(r: PlayerRecord) -> RecordView {
    (r.0@, r.1@, r.2, r.3, r.4, r.5, r.6)
}

pub open spec fn deref_opt(v: Option<&Variant>) -> Option<Variant> {
    match v {
        Some(x) => Some(*x),
        None => None,
    }
}

/// The value of the first property named `name`.
pub fn find_property<'a>(props: &'a Vec<Property>, name: &String) -> (r: Option<&'a Variant>)
    ensures
        deref_opt(r) == prop_lookup(props@, name@),
{
    let mut i: usize = 0;
    while i < props.len()
        invariant
            i <= props.len(),
            prop_lookup_from(props@, name@, 0) == prop_lookup_from(props@, name@, i as int),
        decreases props.len() - i,
    {
        if props[i].name == *name {
            return Some(&props[i].value);
        }
        i = i + 1;
    }
    None
}

/// The properties of the first interface named `name`.
pub fn find_interface<'a>(ifaces: &'a Vec<Interface>, name: &String) -> (r: Option<&'a Vec<Property>>)
    ensures
        match r {
            Some(p) => iface_lookup(ifaces@, name@) == Some(p@),
            None => iface_lookup(ifaces@, name@) is None,
        },
{
    let mut i: usize = 0;
    while i < ifaces.len()
        invariant
            i <= ifaces.len(),
            iface_lookup_from(ifaces@, name@, 0) == iface_lookup_from(ifaces@, name@, i as int),
        decreases ifaces.len() - i,
    {
        if ifaces[i].name == *name {
            return Some(&ifaces[i].properties);
        }
        i = i + 1;
    }
    None
}

/// Decodes a text field: "Unknown" when absent, the string when it is one.
pub fn decode_text(v: Option<&Variant>) -> (r: Result<String, DecodeError>)
    ensures
        match r {
            Ok(s) => text_field(deref_opt(v)) == Some(s@),
            Err(_) => text_field(deref_opt(v)) is None,
        },
{
    match v {
        None => Ok(String::from_str("Unknown")),
        Some(Variant::Str(s)) => Ok(s.clone()),
        Some(_) => Err(DecodeError::WrongType),
    }
}

/// Decodes a numeric field: 0 when absent, the number when it is a `u32`.
pub fn decode_count(v: Option<&Variant>) -> (r: Result<u32, DecodeError>)
    ensures
        match r {
            Ok(n) => count_field(deref_opt(v)) == Some(n),
            Err(_) => count_field(deref_opt(v)) is None,
        },
{
    match v {
        None => Ok(0),
        Some(Variant::U32(n)) => Ok(*n),
        Some(_) => Err(DecodeError::WrongType),
    }
}

/// Decodes the shuffle flag: off when absent, on for every string but "off".
pub fn decode_shuffle(v: Option<&Variant>) -> (r: Result<bool, DecodeError>)
    ensures
        match r {
            Ok(b) => shuffle_field(deref_opt(v)) == Some(b),
            Err(_) => shuffle_field(deref_opt(v)) is None,
        },
{
    match v {
        None => Ok(false),
        Some(Variant::Str(s)) => {
            let off = String::from_str("off");
            Ok(!s.eq(&off))
        },
        Some(_) => Err(DecodeError::WrongType),
    }
}

impl From<String> for PlaybackState {
    fn from(value: String) -> (r: PlaybackState) {
        let playing = String::from_str("playing");
        let paused = String::from_str("paused");
        if value.eq(&playing) {
            PlaybackState::Playing
        } else if value.eq(&paused) {
            PlaybackState::Paused
        } else {
            PlaybackState::Stopped
        }
    }
}

impl vstd::std_specs::convert::FromSpecImpl<String> for PlaybackState {
    open spec fn obeys_from_spec() -> bool {
        true
    }

    open spec fn from_spec(v: String) -> PlaybackState {
        status_of(v@)
    }
}

/// Decodes the properties of one player interface, or nothing when a required
/// property is missing or any read property has the wrong type.
pub fn decode_player(props: &Vec<Property>, volume: u16) -> (r: Option<PlayerRecord>)
    ensures
        match r {
            Some(rec) => player_record(props@, volume) == Some(record_view(rec)),
            None => player_record(props@, volume) is None,
        },
{
    let shuffle = match decode_shuffle(find_property(props, &String::from_str("Shuffle"))) {
        Ok(b) => b,
        Err(_) => return None,
    };
    let track = match find_property(props, &String::from_str("Track")) {
        Some(Variant::Dict(t)) => t,
        _ => return None,
    };
    let position = match find_property(props, &String::from_str("Position")) {
        Some(Variant::U32(p)) => *p,
        _ => return None,
    };
    let status = match find_property(props, &String::from_str("Status")) {
        Some(Variant::Str(s)) => s,
        _ => return None,
    };
    let title = match decode_text(find_property(track, &String::from_str("Title"))) {
        Ok(t) => t,
        Err(_) => return None,
    };
    let artist = match decode_text(find_property(track, &String::from_str("Artist"))) {
        Ok(a) => a,
        Err(_) => return None,
    };
    let duration = match decode_count(find_property(track, &String::from_str("Duration"))) {
        Ok(d) => d,
        Err(_) => return None,
    };
    let state = PlaybackState::from(status.clone());
    Some((title, artist, state, position, duration, shuffle, volume as u32))
}

/// The first player in the tree whose interface decodes, with the given volume.
/// Objects whose player interface fails to decode are passed over.
pub fn find_player(tree: &Vec<ManagedObject>, volume: u16) -> (r: Option<PlayerRecord>)
    ensures
        match r {
            Some(rec) => player_from(tree@, volume, 0) == Some(record_view(rec)),
            None => player_from(tree@, volume, 0) is None,
        },
{
    let name = String::from_str("org.bluez.MediaPlayer1");
    let mut i: usize = 0;
    while i < tree.len()
        invariant
            i <= tree.len(),
            name@ == player_iface(),
            player_from(tree@, volume, 0) == player_from(tree@, volume, i as int),
        decreases tree.len() - i,
    {
        match find_interface(&tree[i].interfaces, &name) {
            Some(props) => match decode_player(props, volume) {
                Some(rec) => return Some(rec),
                None => {},
            },
            None => {},
        }
        i = i + 1;
    }
    None
}

proof fn lemma_volume_scan_stays_failed(objs: Seq<ManagedObject>, n: int, m: int)
    requires
        0 <= n <= m,
        volume_scan(objs, n) is None,
    ensures
        volume_scan(objs, m) is None,
    decreases m - n,
{
    if n < m {
        assert(volume_scan(objs, n + 1) is None);
        lemma_volume_scan_stays_failed(objs, n + 1, m);
    }
}

/// The volume reported by the last transport interface of the tree, if any;
/// an error when any transport reports a volume that is not a `u16`.
pub fn find_transport_volume(tree: &Vec<ManagedObject>) -> (r: Result<Option<u16>, DecodeError>)
    ensures
        match r {
            Ok(v) => volume_scan(tree@, tree@.len() as int) == Some(v),
            Err(_) => volume_scan(tree@, tree@.len() as int) is None,
        },
{
    let iface = String::from_str("org.bluez.MediaTransport1");
    let key = String::from_str("Volume");
    let mut volume: Option<u16> = None;
    let mut i: usize = 0;
    while i < tree.len()
        invariant
            i <= tree.len(),
            iface@ == transport_iface(),
            key@ == "Volume"@,
            volume_scan(tree@, i as int) == Some(volume),
        decreases tree.len() - i,
    {
        match find_interface(&tree[i].interfaces, &iface) {
            Some(props) => match find_property(props, &key) {
                Some(Variant::U16(v)) => {
                    volume = Some(*v);
                },
                Some(_) => {
                    proof {
                        lemma_volume_scan_stays_failed(tree@, i + 1, tree@.len() as int);
                    }
                    return Err(DecodeError::WrongType);
                },
                None => {},
            },
            None => {},
        }
        i = i + 1;
    }
    Ok(volume)
}

/// The snapshot that a decoded record is published as: title and artist cut to
/// their display limits, the other fields unchanged.
pub open spec fn snapshot_of(r: RecordView) -> RecordView {
    (limited(r.0, 41), limited(r.1, 20), r.2, r.3, r.4, r.5, r.6)
}

/// A string cut to `max` characters: when longer, its first `max - 3` characters
/// followed by "...".
pub open spec fn limited(s: Seq<char>, max: nat) -> Seq<char> {
    if s.len() > max {
        s.take(max - 3) + ellipsis()
    } else {
        s
    }
}

/// Cuts a string to at most `max_length` characters, marking a cut with "...".
pub fn limit_string_size(input: &String, max_length: usize) -> (r: String)
    requires
        input@.len() <= max_length || 3 <= max_length,
    ensures
        r@ == limited(input@, max_length as nat),
{
    let n = input.as_str().unicode_len();
    if n > max_length {
        let head = input.as_str().substring_char(0, max_length - 3);
        let mut r = String::from_str(head);
        r.append("...");
        proof {
            reveal_strlit("...");
            assert(r@ =~= limited(input@, max_length as nat));
        }
        r
    } else {
        input.clone()
    }
}

/// The latest playback state of the media player, ready for display.
#[derive(Debug)]
pub struct PlaybackData {
    pub title: String,
    pub artist: String,
    pub playback_state: PlaybackState,
    pub position: u32,
    pub duration: u32,
    pub shuffle: bool,
    pub volume: u32,
}

impl View for PlaybackData {
    type V = RecordView;

    open spec fn view(&self) -> RecordView {
        (
            self.title@,
            self.artist@,
            self.playback_state,
            self.position,
            self.duration,
            self.shuffle,
            self.volume,
        )
    }
}

/// The length of a progress bar `full` units long at `position` of `duration`:
/// the exact ratio truncated toward zero and kept within `i32`; 0 for an empty duration.
pub open spec fn progress_length(position: u32, duration: u32, full: i32) -> int {
    if duration == 0 {
        0
    } else {
        let num = position * full;
        let q = if num >= 0 { num / (duration as int) } else { -((-num) / (duration as int)) };
        if q > i32::MAX {
            i32::MAX as int
        } else if q < i32::MIN {
            i32::MIN as int
        } else {
            q
        }
    }
}

impl PlaybackData {
    pub fn new(
        title: String,
        artist: String,
        playback_state: PlaybackState,
        position: u32,
        duration: u32,
        shuffle: bool,
        volume: u32,
    ) -> (r: Self)
        ensures
            r@ == (title@, artist@, playback_state, position, duration, shuffle, volume),
    {
        Self { title, artist, playback_state, position, duration, shuffle, volume }
    }

    /// The snapshot of a decoded record, with title and artist cut for display.
    pub fn from_record(record: PlayerRecord) -> (r: Self)
        ensures
            r@ == snapshot_of(record_view(record)),
    {
        let title = limit_string_size(&record.0, 41);
        let artist = limit_string_size(&record.1, 20);
        Self::new(title, artist, record.2, record.3, record.4, record.5, record.6)
    }

    /// How much of a bar `full` units long the elapsed position fills.
    pub fn line_length(&self, full: i32) -> (r: i32)
        ensures
            r as int == progress_length(self.position, self.duration, full),
    {
        if self.duration == 0 {
            return 0;
        }
        let p: i64 = self.position as i64;
        let f: i64 = full as i64;
        assert(-0x8000_0000_0000_0000 < p * f < 0x8000_0000_0000_0000) by (nonlinear_arith)
            requires
                0 <= p < 0x1_0000_0000,
                -0x8000_0000 <= f < 0x8000_0000,
        ;
        let num: i64 = p * f;
        let d: i64 = self.duration as i64;
        let q: i64 = if num >= 0 { num / d } else { -((-num) / d) };
        if q > i32::MAX as i64 {
            i32::MAX
        } else if q < i32::MIN as i64 {
            i32::MIN
        } else {
            q as i32
        }
    }
}

/// Decodes a whole managed-object tree into the snapshot to publish: the first
/// player that decodes, with the transport volume (0 when none is reported).
/// Nothing when no player decodes or a transport volume has the wrong type.
pub fn playback_from_tree(tree: &Vec<ManagedObject>) -> (r: Option<PlaybackData>)
    ensures
        match r {
            Some(d) => tree_record(tree@) matches Some(rec) && d@ == snapshot_of(rec),
            None => tree_record(tree@) is None,
        },
{
    let volume = match find_transport_volume(tree) {
        Ok(Some(v)) => v,
        Ok(None) => 0,
        Err(_) => return None,
    };
    match find_player(tree, volume) {
        Some(rec) => Some(PlaybackData::from_record(rec)),
        None => None,
    }
}

/// Cutting to `max` characters never leaves more than `max`; a string within
/// the limit stays as it is, and a longer one keeps its first `max - 3`
/// characters followed by "...".
pub proof fn lemma_limited(s: Seq<char>, max: nat)
    requires
        3 <= max,
    ensures
        limited(s, max).len() <= max,
        s.len() <= max ==> limited(s, max) == s,
        s.len() > max ==> limited(s, max) == s.take(max - 3) + ellipsis(),
{
}

/// Whatever tree a snapshot is decoded from, its title holds at most 41
/// characters and its artist at most 20; a field within its limit is published
/// unchanged, and a longer one is cut and ends in "...".
pub proof fn lemma_snapshot_text_bounds(tree: Seq<ManagedObject>)
    requires
        tree_record(tree) is Some,
    ensures
        ({
            let rec = tree_record(tree)->0;
            let snap = snapshot_of(rec);
            &&& snap.0.len() <= 41
            &&& snap.1.len() <= 20
            &&& rec.0.len() <= 41 ==> snap.0 == rec.0
            &&& rec.0.len() > 41 ==> snap.0 == rec.0.take(38) + ellipsis()
            &&& rec.1.len() <= 20 ==> snap.1 == rec.1
            &&& rec.1.len() > 20 ==> snap.1 == rec.1.take(17) + ellipsis()
        }),
{
    let rec = tree_record(tree)->0;
    lemma_limited(rec.0, 41);
    lemma_limited(rec.1, 20);
}

/// An object whose player interface, if it has one, carries a track without a title.
pub open spec fn lacks_title(obj: ManagedObject) -> bool {
    match iface_lookup(obj.interfaces@, player_iface()) {
        Some(props) => match prop_lookup(props, "Track"@) {
            Some(Variant::Dict(track)) => prop_lookup(track@, "Title"@) is None,
            _ => true,
        },
        None => true,
    }
}

proof fn lemma_player_from_untitled(objs: Seq<ManagedObject>, volume: u16, i: int)
    requires
        forall|j: int| 0 <= j < objs.len() ==> lacks_title(#[trigger] objs[j]),
        player_from(objs, volume, i) is Some,
    ensures
        (player_from(objs, volume, i)->0).0 == unknown_text(),
    decreases objs.len() - i,
{
    if 0 <= i < objs.len() {
        assert(lacks_title(objs[i]));
        match iface_lookup(objs[i].interfaces@, player_iface()) {
            Some(props) => match player_record(props, volume) {
                Some(r) => {},
                None => lemma_player_from_untitled(objs, volume, i + 1),
            },
            None => lemma_player_from_untitled(objs, volume, i + 1),
        }
    }
}

/// In a tree whose player tracks carry no title, the decoded title, and the
/// published one, is "Unknown".
pub proof fn lemma_missing_title_is_unknown(tree: Seq<ManagedObject>)
    requires
        tree_record(tree) is Some,
        forall|j: int| 0 <= j < tree.len() ==> lacks_title(#[trigger] tree[j]),
    ensures
        (tree_record(tree)->0).0 == unknown_text(),
        snapshot_of(tree_record(tree)->0).0 == unknown_text(),
{
    let v = volume_scan(tree, tree.len() as int)->0;
    lemma_player_from_untitled(tree, match v { Some(x) => x, None => 0u16 }, 0);
    reveal_strlit("Unknown");
}

/// The snapshot that the playback slot holds after a poll. `polled` is what
/// the bus reply decoded to (see `playback_from_tree`), or nothing when the
/// query itself failed: then the previous snapshot stays. A reply replaces the
/// snapshot wholesale, with no snapshot when it held no decodable player.
pub open spec fn playback_after(prev: Option<PlaybackData>, polled: Option<Option<PlaybackData>>) -> Option<PlaybackData> {
    match polled {
        Some(d) => d,
        None => prev,
    }
}

/// Applies the outcome of a poll to the playback slot.
pub fn apply_playback_poll(prev: Option<PlaybackData>, polled: Option<Option<PlaybackData>>) -> (r: Option<PlaybackData>)
    ensures
        r == playback_after(prev, polled),
{
    match polled {
        Some(d) => d,
        None => prev,
    }
}

/// A failed query leaves the published snapshot as it was; an answered one
/// replaces it with what the answer decoded to, absence included.
pub proof fn lemma_failed_query_keeps_playback(prev: Option<PlaybackData>, polled: Option<Option<PlaybackData>>)
    ensures
        polled is None ==> playback_after(prev, polled) == prev,
        polled matches Some(d) ==> playback_after(prev, polled) == d,
{
}

} // verus!
