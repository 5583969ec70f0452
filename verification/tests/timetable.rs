use bakatui::json::{Json, JsonNumber};
use bakatui::timetable::{
    construct_caption_map, construct_id_map, CellColor, Change, ChangeType, DayType, Hour, Timetable,
};

fn s(x: &str) -> Json {
    Json::Str(x.to_string())
}

fn n(x: u64) -> Json {
    Json::Number(JsonNumber::PosInt(x))
}

fn obj(members: Vec<(&str, Json)>) -> Json {
    Json::Object(members.into_iter().map(|(k, v)| (k.to_string(), v)).collect())
}

fn id_entry(id: &str, abbrev: &str, name: &str) -> Json {
    obj(vec![("Abbrev", s(abbrev)), ("Id", s(id)), ("Name", s(name))])
}

fn hour_entry(id: u64, caption: &str) -> Json {
    obj(vec![("Caption", s(caption)), ("Id", n(id))])
}

fn atom(hour: u64, subject: Json, teacher: Json, room: Json, change: Json) -> Json {
    obj(vec![
        ("Change", change),
        ("HourId", n(hour)),
        ("RoomId", room),
        ("SubjectId", subject),
        ("TeacherId", teacher),
    ])
}

fn document(days: Vec<Json>) -> Json {
    obj(vec![
        ("Days", Json::Array(days)),
        ("Hours", Json::Array(vec![hour_entry(1, "1"), hour_entry(2, "2"), hour_entry(3, "3")])),
        ("Rooms", Json::Array(vec![id_entry("R1", "101", "Učebna 101")])),
        (
            "Subjects",
            Json::Array(vec![id_entry("S1", "M", "Matematika"), id_entry("S2", "Čj", "Český jazyk")]),
        ),
        ("Teachers", Json::Array(vec![id_entry("T1", "No", "Novák")])),
    ])
}

fn added_change() -> Json {
    obj(vec![
        ("ChangeType", s("Added")),
        ("Description", s("Přidaná hodina")),
        ("TypeAbbrev", s("Sup")),
        ("TypeName", s("Suplování")),
    ])
}

fn sample() -> Json {
    document(vec![
        obj(vec![
            (
                "Atoms",
                Json::Array(vec![
                    atom(1, s("S1"), s("T1"), s("R1"), Json::Null),
                    atom(2, Json::Null, Json::Null, Json::Null, added_change()),
                ]),
            ),
            ("DayType", s("WorkDay")),
        ]),
        obj(vec![("Atoms", Json::Array(vec![])), ("DayType", s("Holiday"))]),
    ])
}

#[test]
fn from_json_reads_captions_and_days() {
    let tb = Timetable::from_json(&sample());
    assert_eq!(tb.hour_captions, vec!["1", "2", "3"]);
    assert_eq!(tb.days.len(), 2);
    assert_eq!(tb.days[0].day_type, DayType::WorkDay);
    assert_eq!(tb.days[1].day_type, DayType::Holiday);
    assert_eq!(tb.days[0].hours.len(), 2);
    assert_eq!(tb.days[1].hours.len(), 0);
}

#[test]
fn from_json_looks_up_names_by_id() {
    let tb = Timetable::from_json(&sample());
    let h = tb.days[0].hours.get(&"1".to_string()).unwrap();
    assert_eq!(h.subject_short, "M");
    assert_eq!(h.subject_long, "Matematika");
    assert_eq!(h.teacher_short, "No");
    assert_eq!(h.teacher_long, "Novák");
    assert_eq!(h.room_short, "101");
    assert_eq!(h.room_long, "Učebna 101");
    assert!(h.change.is_none());
    assert!(tb.days[0].hours.get(&"3".to_string()).is_none());
}

#[test]
fn unknown_subject_takes_the_change_names() {
    let tb = Timetable::from_json(&sample());
    let h = tb.days[0].hours.get(&"2".to_string()).unwrap();
    assert_eq!(h.subject_short, "Sup");
    assert_eq!(h.subject_long, "Suplování");
    assert_eq!(h.teacher_short, "?");
    assert_eq!(h.teacher_long, "?");
    assert_eq!(h.room_short, "?");
    let c = h.change.as_ref().unwrap();
    assert_eq!(c.change_type, ChangeType::Added);
    assert_eq!(c.description, "Přidaná hodina");
}

#[test]
fn unknown_subject_without_change_is_question_mark() {
    let doc = document(vec![obj(vec![
        ("Atoms", Json::Array(vec![atom(3, s("S9"), s("T1"), Json::Null, Json::Null)])),
        ("DayType", s("Weekend")),
    ])]);
    let tb = Timetable::from_json(&doc);
    let h = tb.days[0].hours.get(&"3".to_string()).unwrap();
    assert_eq!(h.subject_short, "?");
    assert_eq!(h.subject_long, "?");
    assert_eq!(h.teacher_long, "Novák");
    assert_eq!(tb.days[0].day_type, DayType::Weekend);
}

#[test]
fn later_atom_of_the_same_hour_wins() {
    let doc = document(vec![obj(vec![
        (
            "Atoms",
            Json::Array(vec![
                atom(1, s("S1"), s("T1"), s("R1"), Json::Null),
                atom(1, s("S2"), s("T1"), s("R1"), Json::Null),
            ]),
        ),
        ("DayType", s("WorkDay")),
    ])]);
    let tb = Timetable::from_json(&doc);
    assert_eq!(tb.days[0].hours.len(), 1);
    assert_eq!(tb.days[0].hours.get(&"1".to_string()).unwrap().subject_short, "Čj");
}

#[test]
fn unknown_day_type_is_undefined() {
    let doc = document(vec![obj(vec![("Atoms", Json::Array(vec![])), ("DayType", s("Strike"))])]);
    let tb = Timetable::from_json(&doc);
    assert_eq!(tb.days[0].day_type, DayType::Undefined);
    assert_eq!(DayType::from_str_name("Celebration"), DayType::Celebration);
    assert_eq!(DayType::from_str_name("DirectorDay"), DayType::DirectorDay);
    assert_eq!(DayType::from("Holiday"), DayType::Holiday);
    assert_eq!(DayType::from("Weekend".to_string()), DayType::Weekend);
    assert_eq!(DayType::from(""), DayType::Undefined);
}

#[test]
fn malformed_documents_are_refused() {
    // no hour list
    let doc = obj(vec![
        ("Days", Json::Array(vec![])),
        ("Rooms", Json::Array(vec![])),
        ("Subjects", Json::Array(vec![])),
        ("Teachers", Json::Array(vec![])),
    ]);
    assert!(Timetable::try_from_json(&doc).is_none());
    // an atom of an hour that is not listed
    let doc = document(vec![obj(vec![
        ("Atoms", Json::Array(vec![atom(9, s("S1"), s("T1"), s("R1"), Json::Null)])),
        ("DayType", s("WorkDay")),
    ])]);
    assert!(Timetable::try_from_json(&doc).is_none());
    // a change of an unknown type
    let bad = obj(vec![("ChangeType", s("Exploded")), ("Description", s("x"))]);
    let doc = document(vec![obj(vec![
        ("Atoms", Json::Array(vec![atom(1, s("S1"), s("T1"), s("R1"), bad)])),
        ("DayType", s("WorkDay")),
    ])]);
    assert!(Timetable::try_from_json(&doc).is_none());
    // a day without a type
    let doc = document(vec![obj(vec![("Atoms", Json::Array(vec![]))])]);
    assert!(Timetable::try_from_json(&doc).is_none());
    // not an object at all
    assert!(Timetable::try_from_json(&Json::Null).is_none());
    assert!(Timetable::try_from_json(&sample()).is_some());
}

#[test]
fn change_forms() {
    let c = Change::from_json(&added_change()).unwrap();
    assert_eq!(c.type_abbrev.as_deref(), Some("Sup"));
    assert_eq!(c.type_full_name.as_deref(), Some("Suplování"));
    // optional members may be missing or null
    let c = Change::from_json(&obj(vec![("ChangeType", s("Canceled")), ("Description", s("Odpadá")), ("TypeName", Json::Null)])).unwrap();
    assert_eq!(c.change_type, ChangeType::Canceled);
    assert!(c.type_abbrev.is_none());
    assert!(c.type_full_name.is_none());
    // the array form
    let c = Change::from_json(&Json::Array(vec![s("RoomChanged"), s("Jinde"), Json::Null, s("Změna")])).unwrap();
    assert_eq!(c.change_type, ChangeType::RoomChanged);
    assert_eq!(c.type_full_name.as_deref(), Some("Změna"));
    // forms that are no change
    assert!(Change::from_json(&Json::Null).is_none());
    assert!(Change::from_json(&obj(vec![("ChangeType", s("Added"))])).is_none());
    assert!(Change::from_json(&obj(vec![("ChangeType", s("Added")), ("Description", n(1))])).is_none());
    assert!(Change::from_json(&Json::Array(vec![s("Added"), s("x"), Json::Null])).is_none());
    assert!(!Change::panics_on(&Json::Array(vec![])));
    assert!(Change::panics_on(&Json::Array(vec![s("Nope")])));
    assert!(!Change::panics_on(&obj(vec![("ChangeType", n(3))])));
}

#[test]
fn id_and_caption_maps() {
    let doc = sample();
    let ids = construct_id_map(&doc).unwrap();
    assert_eq!(ids.len(), 4);
    assert_eq!(ids.get(&"S2".to_string()).unwrap().long_name, "Český jazyk");
    let captions = construct_caption_map(&doc).unwrap();
    assert_eq!(captions.get(&2).map(|c| c.as_str()), Some("2"));
    assert!(construct_caption_map(&Json::Null).is_none());
    assert!(construct_id_map(&Json::Null).is_none());
}

#[test]
fn later_list_overrides_an_id() {
    let doc = obj(vec![
        ("Rooms", Json::Array(vec![id_entry("X", "r", "Room")])),
        ("Subjects", Json::Array(vec![id_entry("X", "s", "Subject")])),
        ("Teachers", Json::Array(vec![id_entry("X", "t", "Teacher")])),
    ]);
    let ids = construct_id_map(&doc).unwrap();
    assert_eq!(ids.len(), 1);
    assert_eq!(ids.get(&"X".to_string()).unwrap().short_name, "r");
}

#[test]
fn every_lesson_is_under_a_caption() {
    let tb = Timetable::from_json(&sample());
    for day in &tb.days {
        for i in 0..day.hours.len() {
            let (k, _) = day.hours.entry(i);
            assert!(tb.hour_captions.contains(k));
        }
    }
}

#[test]
fn hour_display_text() {
    let tb = Timetable::from_json(&sample());
    let plain: &Hour = tb.days[0].hours.get(&"1".to_string()).unwrap();
    assert_eq!(plain.to_display_string(), "Předmět:  Matematika\nUčitel:   Novák\nMístnost: 101");
    let changed = tb.days[0].hours.get(&"2".to_string()).unwrap();
    assert_eq!(
        changed.to_display_string(),
        "Předmět:  Suplování\nUčitel:   ?\nMístnost: ?\n\nZměna:    Added\nPopis:    Přidaná hodina"
    );
}

#[test]
fn colours() {
    assert_eq!(ChangeType::Canceled.color(), CellColor::Green);
    assert_eq!(ChangeType::Added.color(), CellColor::Red);
    assert_eq!(ChangeType::Removed.color(), CellColor::Green);
    assert_eq!(ChangeType::RoomChanged.color(), CellColor::Red);
    assert_eq!(ChangeType::Substitution.color(), CellColor::Red);
    assert_eq!(DayType::WorkDay.color(), CellColor::Reset);
    assert_eq!(DayType::Weekend.color(), CellColor::Green);
    assert_eq!(DayType::Celebration.color(), CellColor::Cyan);
    assert_eq!(DayType::Holiday.color(), CellColor::Cyan);
    assert_eq!(DayType::DirectorDay.color(), CellColor::Green);
    assert_eq!(DayType::Undefined.color(), CellColor::DarkRed);
    assert_eq!(ChangeType::Substitution.name(), "Substitution");
    assert_eq!(ChangeType::from_str_name("Removed"), Some(ChangeType::Removed));
    assert_eq!(ChangeType::from_str_name("removed"), None);
}
