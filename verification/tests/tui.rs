use bakatui::json::{Json, JsonNumber};
use bakatui::timetable::{CellColor, Timetable};
use bakatui::tui::{
    get_longest_abbrev, refresh_timetable, BackendCommand, FrontendCommand, FrontendEffect, KeyAction, KeyInput,
    Meta,
};

fn s(x: &str) -> Json {
    Json::Str(x.to_string())
}

fn n(x: u64) -> Json {
    Json::Number(JsonNumber::PosInt(x))
}

fn obj(members: Vec<(&str, Json)>) -> Json {
    Json::Object(members.into_iter().map(|(k, v)| (k.to_string(), v)).collect())
}

fn atom(hour: u64, subject: &str, change: Json) -> Json {
    obj(vec![("Change", change), ("HourId", n(hour)), ("SubjectId", s(subject))])
}

/// Two days of three hours: Monday has M, Čj; Tuesday (a holiday) has Fyz.
fn sample() -> Timetable {
    let hours = (1..=3u64).map(|i| obj(vec![("Caption", s(&i.to_string())), ("Id", n(i))])).collect();
    let subject = |id: &str, abbrev: &str| obj(vec![("Abbrev", s(abbrev)), ("Id", s(id)), ("Name", s("x"))]);
    let canceled = obj(vec![("ChangeType", s("Canceled")), ("Description", s("Odpadá"))]);
    let doc = obj(vec![
        (
            "Days",
            Json::Array(vec![
                obj(vec![
                    ("Atoms", Json::Array(vec![atom(1, "S1", Json::Null), atom(2, "S2", canceled)])),
                    ("DayType", s("WorkDay")),
                ]),
                obj(vec![("Atoms", Json::Array(vec![atom(3, "S3", Json::Null)])), ("DayType", s("Holiday"))]),
            ]),
        ),
        ("Hours", Json::Array(hours)),
        ("Rooms", Json::Array(vec![])),
        ("Subjects", Json::Array(vec![subject("S1", "M"), subject("S2", "Čj"), subject("S3", "Fyz")])),
        ("Teachers", Json::Array(vec![])),
    ]);
    Timetable::from_json(&doc)
}

fn meta() -> Meta {
    let mut m = Meta::default();
    m.stored_tb = sample();
    m
}

fn key(c: char) -> KeyInput {
    KeyInput::Char { c, control: false }
}

#[test]
fn longest_abbrev_counts_characters() {
    assert_eq!(get_longest_abbrev(&sample()), 3);
    assert_eq!(get_longest_abbrev(&Timetable::default()), 0);
}

#[test]
fn default_state() {
    let m = Meta::default();
    assert_eq!(m.virtual_cursor, (0, 0));
    assert_eq!(m.week_modifier, 0);
    assert!(!m.extra_info);
    assert!(m.selected_hour.is_none());
    assert!(m.stored_tb.days.is_empty());
}

#[test]
fn cursor_moves_are_held_to_the_grid() {
    let mut m = meta();
    m.virtual_cursor_up();
    m.virtual_cursor_left();
    assert_eq!(m.virtual_cursor, (0, 0));
    for _ in 0..5 {
        m.virtual_cursor_down();
        m.virtual_cursor_right();
    }
    assert_eq!(m.virtual_cursor, (2, 1));
    m.virtual_cursor_up();
    m.virtual_cursor_left();
    assert_eq!(m.virtual_cursor, (1, 0));
}

#[test]
fn cursor_moves_undo() {
    let mut m = meta();
    m.virtual_cursor_down();
    m.virtual_cursor_up();
    assert_eq!(m.virtual_cursor, (0, 0));
    m.virtual_cursor_right();
    m.virtual_cursor_left();
    assert_eq!(m.virtual_cursor, (0, 0));
}

#[test]
fn keys() {
    let mut m = meta();
    assert_eq!(m.handle_key(KeyInput::Down), KeyAction::Continue);
    assert_eq!(m.handle_key(KeyInput::Right), KeyAction::Continue);
    assert_eq!(m.virtual_cursor, (1, 1));
    assert_eq!(m.handle_key(KeyInput::Up), KeyAction::Continue);
    assert_eq!(m.handle_key(KeyInput::Left), KeyAction::Continue);
    assert_eq!(m.virtual_cursor, (0, 0));
    assert_eq!(m.handle_key(KeyInput::Enter), KeyAction::Continue);
    assert!(m.extra_info);
    assert_eq!(m.handle_key(KeyInput::Enter), KeyAction::Continue);
    assert!(!m.extra_info);
    assert_eq!(m.handle_key(key('r')), KeyAction::Send(BackendCommand::RefreshTimetable(0)));
    assert_eq!(m.handle_key(key('x')), KeyAction::Continue);
    assert_eq!(m.handle_key(key('c')), KeyAction::Continue);
    assert_eq!(m.handle_key(KeyInput::Other), KeyAction::Continue);
    assert_eq!(m.handle_key(KeyInput::Char { c: 'c', control: true }), KeyAction::Quit);
    assert_eq!(m.handle_key(key('q')), KeyAction::Quit);
    assert_eq!(m.handle_key(KeyInput::Char { c: 'q', control: true }), KeyAction::Quit);
}

#[test]
fn keys_that_would_overflow_are_refused() {
    let mut m = Meta::default();
    assert!(!m.can_take_key(&KeyInput::Down));
    assert!(!m.can_take_key(&KeyInput::Right));
    assert!(m.can_take_key(&KeyInput::Up));
    m.week_modifier = i64::MAX;
    assert!(!m.can_take_key(&key('+')));
    assert!(m.can_take_key(&key('-')));
    m.week_modifier = i64::MIN;
    assert!(!m.can_take_key(&key('-')));
    assert!(meta().can_take_key(&KeyInput::Down));
}

#[test]
fn week_forth_and_back() {
    let mut m = meta();
    assert_eq!(m.handle_key(key('+')), KeyAction::Send(BackendCommand::RefreshTimetable(1)));
    assert_eq!(m.week_modifier, 1);
    assert_eq!(m.handle_key(key('-')), KeyAction::Send(BackendCommand::RefreshTimetable(0)));
    assert_eq!(m.handle_key(key('-')), KeyAction::Send(BackendCommand::RefreshTimetable(-1)));
    assert_eq!(m.week_modifier, -1);
    assert_eq!(refresh_timetable(&m), BackendCommand::RefreshTimetable(-1));
}

#[test]
fn header_names_weeks() {
    let mut m = Meta::default();
    let cases = [(-3, "Týden: -3"), (-2, "Týden: -2"), (-1, "Týden: minulý"), (0, "Týden: tento"), (1, "Týden: příští"), (2, "Týden: +2"), (15, "Týden: +15")];
    for (w, text) in cases {
        m.week_modifier = w;
        assert_eq!(m.header(), text);
    }
}

#[test]
fn render_lays_out_cells() {
    let mut m = meta();
    m.virtual_cursor = (1, 0);
    let rows = m.render_timetable();
    assert_eq!(m.longest_abbrev, 3);
    assert_eq!(rows.len(), 2);
    assert!(rows.iter().all(|r| r.len() == 3));
    assert_eq!(rows[0][0].text, "M   ");
    assert_eq!(rows[0][0].background, None);
    assert!(!rows[0][0].negative);
    assert_eq!(rows[0][1].text, "Čj  ");
    assert_eq!(rows[0][1].background, Some(CellColor::Green));
    assert!(rows[0][1].negative);
    assert_eq!(rows[0][2].text, "    ");
    assert_eq!(rows[1][2].text, "Fyz ");
    assert_eq!(rows[1][0].background, Some(CellColor::Cyan));
    assert_eq!(rows[1][2].background, Some(CellColor::Cyan));
    for row in &rows {
        for cell in row {
            assert_eq!(cell.text.chars().count(), 4);
        }
    }
    let negatives: usize = rows.iter().map(|r| r.iter().filter(|c| c.negative).count()).sum();
    assert_eq!(negatives, 1);
    assert_eq!(m.selected_hour.as_ref().unwrap().subject_short, "Čj");
}

#[test]
fn render_selects_the_lesson_under_the_cursor() {
    let mut m = meta();
    m.virtual_cursor = (2, 0);
    m.render_timetable();
    assert!(m.selected_hour.is_none());
    m.virtual_cursor = (2, 1);
    m.render_timetable();
    assert_eq!(m.selected_hour.as_ref().unwrap().subject_short, "Fyz");
    // off the grid the selection stays
    m.virtual_cursor = (7, 7);
    m.render_timetable();
    assert_eq!(m.selected_hour.as_ref().unwrap().subject_short, "Fyz");
}

#[test]
fn info_box() {
    let mut m = meta();
    assert!(m.info_box().is_none());
    m.extra_info = true;
    let b = m.info_box().unwrap();
    assert_eq!(b.lines, vec!["| Prázdná hodina "]);
    assert_eq!(b.width, 17);
    assert_eq!(b.top_border, format!("|{}", "‾".repeat(17)));
    assert_eq!(b.bottom_border, format!("|{}", "_".repeat(17)));
    m.virtual_cursor = (1, 0);
    m.render_timetable();
    let b = m.info_box().unwrap();
    assert_eq!(
        b.lines,
        vec!["| Předmět:  x ", "| Učitel:   ? ", "| Místnost: ? ", "|  ", "| Změna:    Canceled ", "| Popis:    Odpadá "]
    );
    assert_eq!(b.width, 21);
}

#[test]
fn frontend_commands() {
    let mut m = Meta::default();
    assert_eq!(m.apply_frontend_command(FrontendCommand::TimetableData(sample())), FrontendEffect::Continue);
    assert_eq!(m.stored_tb.days.len(), 2);
    assert_eq!(
        m.apply_frontend_command(FrontendCommand::Log("hi".to_string())),
        FrontendEffect::Log("hi".to_string())
    );
    assert_eq!(m.apply_frontend_command(FrontendCommand::Quit), FrontendEffect::Quit);
    assert_eq!(m.stored_tb.days.len(), 2);
}
