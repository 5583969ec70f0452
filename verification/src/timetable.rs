//! The timetable model and its construction from the server's JSON document.

use vstd::prelude::*;
use std::collections::HashMap;

use crate::json::{Json, JsonNumber, field, as_str, as_u64, as_array};
use crate::str_map::StrMap;
use crate::text::{str_eq, string_views};

verus! {

/// What kind of day a timetable row is.
#[derive(Clone, Copy, Debug, PartialEq, Eq)]
pub enum DayType {
    WorkDay,
    Weekend,
    Celebration,
    Holiday,
    DirectorDay,
    Undefined,
}

/// What happened to a lesson.
#[derive(Clone, Copy, Debug, PartialEq, Eq)]
pub enum ChangeType {
    Canceled,
    Added,
    Removed,
    RoomChanged,
    Substitution,
}

impl DayType {
    /// The day type a name stands for; an unknown name is `Undefined`.
    pub open spec fn from_name(s: Seq<char>) -> DayType {
        if s == "WorkDay"@ {
            DayType::WorkDay
        } else if s == "Weekend"@ {
            DayType::Weekend
        } else if s == "Celebration"@ {
            DayType::Celebration
        } else if s == "Holiday"@ {
            DayType::Holiday
        } else if s == "DirectorDay"@ {
            DayType::DirectorDay
        } else {
            DayType::Undefined
        }
    }

    /// The name of the day type in the server's documents (`Undefined`
    /// stands for every other name).
    pub open spec fn spec_name(self) -> Seq<char> {
        match self {
            DayType::WorkDay => "WorkDay"@,
            DayType::Weekend => "Weekend"@,
            DayType::Celebration => "Celebration"@,
            DayType::Holiday => "Holiday"@,
            DayType::DirectorDay => "DirectorDay"@,
            DayType::Undefined => "Undefined"@,
        }
    }

    /// The day type named `s`.
    pub fn from_str_name(s: &str) -> (d: DayType)
        ensures
            d == Self::from_name(s@),
    {
        if str_eq(s, "WorkDay") {
            DayType::WorkDay
        } else if str_eq(s, "Weekend") {
            DayType::Weekend
        } else if str_eq(s, "Celebration") {
            DayType::Celebration
        } else if str_eq(s, "Holiday") {
            DayType::Holiday
        } else if str_eq(s, "DirectorDay") {
            DayType::DirectorDay
        } else {
            DayType::Undefined
        }
    }
}

impl<'a> From<&'a str> for DayType {
    fn from(s: &'a str) -> (d: DayType) {
        DayType::from_str_name(s)
    }
}

impl<'a> vstd::std_specs::convert::FromSpecImpl<&'a str> for DayType {
    open spec fn obeys_from_spec() -> bool {
        true
    }

    open spec fn from_spec(s: &'a str) -> DayType {
        DayType::from_name(s@)
    }
}

impl From<String> for DayType {
    fn from(s: String) -> (d: DayType) {
        DayType::from_str_name(s.as_str())
    }
}

impl vstd::std_specs::convert::FromSpecImpl<String> for DayType {
    open spec fn obeys_from_spec() -> bool {
        true
    }

    open spec fn from_spec(s: String) -> DayType {
        DayType::from_name(s@)
    }
}

impl ChangeType {
    /// The change type a name stands for, if it names one.
    pub open spec fn from_name(s: Seq<char>) -> Option<ChangeType> {
        if s == "Canceled"@ {
            Some(ChangeType::Canceled)
        } else if s == "Added"@ {
            Some(ChangeType::Added)
        } else if s == "Removed"@ {
            Some(ChangeType::Removed)
        } else if s == "RoomChanged"@ {
            Some(ChangeType::RoomChanged)
        } else if s == "Substitution"@ {
            Some(ChangeType::Substitution)
        } else {
            None
        }
    }

    /// The change type named `s`; `None` for a name that is none of them.
    pub fn from_str_name(s: &str) -> (c: Option<ChangeType>)
        ensures
            c == Self::from_name(s@),
    {
        if str_eq(s, "Canceled") {
            Some(ChangeType::Canceled)
        } else if str_eq(s, "Added") {
            Some(ChangeType::Added)
        } else if str_eq(s, "Removed") {
            Some(ChangeType::Removed)
        } else if str_eq(s, "RoomChanged") {
            Some(ChangeType::RoomChanged)
        } else if str_eq(s, "Substitution") {
            Some(ChangeType::Substitution)
        } else {
            None
        }
    }
}

/// The view of an optional string.
pub open spec fn opt_view(o: Option<String>) -> Option<Seq<char>> {
    match o {
        Some(s) => Some(s@),
        None => None,
    }
}

fn clone_opt_string(o: &Option<String>) -> (r: Option<String>)
    ensures
        opt_view(r) == opt_view(*o),
{
    match o {
        Some(s) => Some(s.clone()),
        None => None,
    }
}

/// A change to a lesson.
#[derive(Debug)]
pub struct Change {
    pub change_type: ChangeType,
    pub description: String,
    pub type_abbrev: Option<String>,
    pub type_full_name: Option<String>,
}

/// The contents of a [`Change`].
pub struct ChangeView {
    pub change_type: ChangeType,
    pub description: Seq<char>,
    pub type_abbrev: Option<Seq<char>>,
    pub type_full_name: Option<Seq<char>>,
}

impl View for Change {
    type V = ChangeView;

    open spec fn view(&self) -> ChangeView {
        ChangeView {
            change_type: self.change_type,
            description: self.description@,
            type_abbrev: opt_view(self.type_abbrev),
            type_full_name: opt_view(self.type_full_name),
        }
    }
}

impl Clone for Change {
    fn clone(&self) -> (r: Self)
        ensures
            r@ == self@,
    {
        Change {
            change_type: self.change_type,
            description: self.description.clone(),
            type_abbrev: clone_opt_string(&self.type_abbrev),
            type_full_name: clone_opt_string(&self.type_full_name),
        }
    }
}

/// The view of an optional change.
pub open spec fn opt_change_view(o: Option<Change>) -> Option<ChangeView> {
    match o {
        Some(c) => Some(c@),
        None => None,
    }
}

/// One lesson of the timetable.
#[derive(Debug)]
pub struct Hour {
    pub subject_short: String,
    pub subject_long: String,
    pub teacher_short: String,
    pub teacher_long: String,
    pub room_short: String,
    pub room_long: String,
    pub change: Option<Change>,
}

/// The contents of an [`Hour`].
pub struct HourView {
    pub subject_short: Seq<char>,
    pub subject_long: Seq<char>,
    pub teacher_short: Seq<char>,
    pub teacher_long: Seq<char>,
    pub room_short: Seq<char>,
    pub room_long: Seq<char>,
    pub change: Option<ChangeView>,
}

impl View for Hour {
    type V = HourView;

    open spec fn view(&self) -> HourView {
        HourView {
            subject_short: self.subject_short@,
            subject_long: self.subject_long@,
            teacher_short: self.teacher_short@,
            teacher_long: self.teacher_long@,
            room_short: self.room_short@,
            room_long: self.room_long@,
            change: opt_change_view(self.change),
        }
    }
}

impl Clone for Hour {
    fn clone(&self) -> (r: Self)
        ensures
            r@ == self@,
    {
        let change = match &self.change {
            Some(c) => Some(c.clone()),
            None => None,
        };
        Hour {
            subject_short: self.subject_short.clone(),
            subject_long: self.subject_long.clone(),
            teacher_short: self.teacher_short.clone(),
            teacher_long: self.teacher_long.clone(),
            room_short: self.room_short.clone(),
            room_long: self.room_long.clone(),
            change,
        }
    }
}

/// One row of the timetable: the lessons of a day under their hour captions.
#[derive(Debug)]
pub struct Day {
    pub day_type: DayType,
    pub hours: StrMap<Hour>,
}

/// The contents of a [`Day`].
pub struct DayView {
    pub day_type: DayType,
    pub hours: Map<Seq<char>, HourView>,
}

impl View for Day {
    type V = DayView;

    open spec fn view(&self) -> DayView {
        DayView { day_type: self.day_type, hours: self.hours@ }
    }
}

/// A week's timetable: the hour captions (columns) and the days (rows).
#[derive(Debug)]
pub struct Timetable {
    pub hour_captions: Vec<String>,
    pub days: Vec<Day>,
}

/// The contents of a [`Timetable`].
pub struct TimetableView {
    pub hour_captions: Seq<Seq<char>>,
    pub days: Seq<DayView>,
}

/// The views of a sequence of days.
pub open spec fn day_views(days: Seq<Day>) -> Seq<DayView> {
    days.map_values(|d: Day| d@)
}

impl View for Timetable {
    type V = TimetableView;

    open spec fn view(&self) -> TimetableView {
        TimetableView {
            hour_captions: string_views(self.hour_captions@),
            days: day_views(self.days@),
        }
    }
}

impl Default for Timetable {
    fn default() -> (t: Self)
        ensures
            t@.hour_captions.len() == 0,
            t@.days.len() == 0,
    {
        Timetable { hour_captions: Vec::new(), days: Vec::new() }
    }
}


/// The characters of a string value (empty for any other value).
pub open spec fn str_of(v: Json) -> Seq<char> {
    match v {
        Json::Str(s) => s@,
        _ => Seq::empty(),
    }
}

/// The value of a non-negative integer (zero for any other value).
pub open spec fn u64_of(v: Json) -> u64 {
    match v {
        Json::Number(JsonNumber::PosInt(n)) => n,
        _ => 0,
    }
}

/// The elements of the array under `key` (empty when there is none).
pub open spec fn list(json: Json, key: Seq<char>) -> Seq<Json> {
    match as_array(field(json, key)) {
        Some(items) => items,
        None => Seq::empty(),
    }
}

/// An `Option<String>` as serde reads it from a value: `null` gives `None`,
/// a string gives `Some`, anything else is an error (outer `None`).
pub open spec fn opt_string_of(v: Json) -> Option<Option<Seq<char>>> {
    match v {
        Json::Null => Some(None),
        Json::Str(s) => Some(Some(s@)),
        _ => None,
    }
}

/// Whether reading a change from `v` panics: its change type is a string
/// that names no change type.
pub open spec fn change_panics(v: Json) -> bool {
    match v {
        Json::Object(_) => match field(v, "ChangeType"@) {
            Json::Str(s) => ChangeType::from_name(s@) is None,
            _ => false,
        },
        Json::Array(items) => items@.len() > 0 && match items@[0] {
            Json::Str(s) => ChangeType::from_name(s@) is None,
            _ => false,
        },
        _ => false,
    }
}

/// A change from its four parts, when each has the right form.
pub open spec fn change_from_parts(ct: Json, desc: Json, abbrev: Json, name: Json) -> Option<ChangeView> {
    match (ct, desc, opt_string_of(abbrev), opt_string_of(name)) {
        (Json::Str(c), Json::Str(d), Some(a), Some(n)) => match ChangeType::from_name(c@) {
            Some(t) => Some(ChangeView { change_type: t, description: d@, type_abbrev: a, type_full_name: n }),
            None => None,
        },
        _ => None,
    }
}

/// A change as serde's derived reader takes it from `v`: an object with the
/// members `ChangeType`, `Description`, `TypeAbbrev` and `TypeName` (the
/// last two optional), or an array of exactly these four values. `None`
/// when `v` has neither form.
pub open spec fn change_of(v: Json) -> Option<ChangeView> {
    match v {
        Json::Object(_) => change_from_parts(
            field(v, "ChangeType"@),
            field(v, "Description"@),
            field(v, "TypeAbbrev"@),
            field(v, "TypeName"@),
        ),
        Json::Array(items) => if items@.len() == 4 {
            change_from_parts(items@[0], items@[1], items@[2], items@[3])
        } else {
            None
        },
        _ => None,
    }
}

fn opt_string_from_json(v: &Json) -> (r: Option<Option<String>>)
    ensures
        match r {
            Some(o) => opt_string_of(*v) == Some(opt_view(o)),
            None => opt_string_of(*v) is None,
        },
{
    match v {
        Json::Null => Some(None),
        Json::Str(s) => Some(Some(s.clone())),
        _ => None,
    }
}

fn change_from_parts_exec(ct: &Json, desc: &Json, abbrev: &Json, name: &Json) -> (r: Option<Change>)
    ensures
        opt_change_view(r) == change_from_parts(*ct, *desc, *abbrev, *name),
{
    let a = opt_string_from_json(abbrev);
    let n = opt_string_from_json(name);
    match (ct, desc, a, n) {
        (Json::Str(c), Json::Str(d), Some(a), Some(n)) => match ChangeType::from_str_name(c.as_str()) {
            Some(t) => Some(Change { change_type: t, description: d.clone(), type_abbrev: a, type_full_name: n }),
            None => None,
        },
        _ => None,
    }
}

fn str_names_no_change_type(v: &Json) -> (b: bool)
    ensures
        b == match *v {
            Json::Str(s) => ChangeType::from_name(s@) is None,
            _ => false,
        },
{
    match v {
        Json::Str(s) => ChangeType::from_str_name(s.as_str()).is_none(),
        _ => false,
    }
}

impl Change {
    /// Whether reading a change from `v` fails with a panic (an unknown change type).
    pub fn panics_on(v: &Json) -> (b: bool)
        ensures
            b == change_panics(*v),
    {
        match v {
            Json::Object(_) => match v.member("ChangeType") {
                Some(c) => str_names_no_change_type(c),
                None => false,
            },
            Json::Array(items) => items.len() > 0 && str_names_no_change_type(&items[0]),
            _ => false,
        }
    }

    /// Reads a change from a JSON value the way serde's derived reader
    /// does; `None` when the value has no change's form.
    pub fn from_json(v: &Json) -> (r: Option<Change>)
        ensures
            opt_change_view(r) == change_of(*v),
    {
        match v {
            Json::Object(_) => {
                let null = Json::Null;
                let ct = match v.member("ChangeType") { Some(x) => x, None => &null };
                let desc = match v.member("Description") { Some(x) => x, None => &null };
                let abbrev = match v.member("TypeAbbrev") { Some(x) => x, None => &null };
                let name = match v.member("TypeName") { Some(x) => x, None => &null };
                change_from_parts_exec(ct, desc, abbrev, name)
            },
            Json::Array(items) => {
                if items.len() == 4 {
                    change_from_parts_exec(&items[0], &items[1], &items[2], &items[3])
                } else {
                    None
                }
            },
            _ => None,
        }
    }
}


/// The short and long name of a subject, teacher or room.
#[derive(Debug)]
pub struct IdData {
    pub short_name: String,
    pub long_name: String,
}

impl View for IdData {
    type V = (Seq<char>, Seq<char>);

    open spec fn view(&self) -> (Seq<char>, Seq<char>) {
        (self.short_name@, self.long_name@)
    }
}

impl Clone for IdData {
    fn clone(&self) -> (r: Self)
        ensures
            r@ == self@,
    {
        IdData { short_name: self.short_name.clone(), long_name: self.long_name.clone() }
    }
}

impl IdData {
    /// The names of an unknown id: `"?"` for both.
    pub open spec fn spec_default() -> (Seq<char>, Seq<char>) {
        ("?"@, "?"@)
    }
}

impl Default for IdData {
    /// The names of an unknown id.
    fn default() -> (r: IdData)
        ensures
            r@ == IdData::spec_default(),
    {
        IdData { short_name: String::from_str("?"), long_name: String::from_str("?") }
    }
}

/// An entry of the subjects, teachers or rooms list has a string id, short and long name.
pub open spec fn id_entry_ok(v: Json) -> bool {
    &&& as_str(field(v, "Id"@)) is Some
    &&& as_str(field(v, "Abbrev"@)) is Some
    &&& as_str(field(v, "Name"@)) is Some
}

/// The member `key` is an array of well-formed id entries.
pub open spec fn id_list_ok(json: Json, key: Seq<char>) -> bool {
    match as_array(field(json, key)) {
        Some(items) => forall|i: int| 0 <= i < items.len() ==> #[trigger] id_entry_ok(items[i]),
        None => false,
    }
}

/// `m` with the first `n` id entries of `items` inserted in order; a later
/// entry with the same id replaces an earlier one.
pub open spec fn insert_ids(m: Map<Seq<char>, (Seq<char>, Seq<char>)>, items: Seq<Json>, n: int) -> Map<
    Seq<char>,
    (Seq<char>, Seq<char>),
>
    decreases n,
{
    if n <= 0 {
        m
    } else {
        let e = items[n - 1];
        insert_ids(m, items, n - 1).insert(
            str_of(field(e, "Id"@)),
            (str_of(field(e, "Abbrev"@)), str_of(field(e, "Name"@))),
        )
    }
}

/// The three id lists of the document are well formed.
pub open spec fn ids_ok(json: Json) -> bool {
    &&& id_list_ok(json, "Subjects"@)
    &&& id_list_ok(json, "Teachers"@)
    &&& id_list_ok(json, "Rooms"@)
}

/// The names of every id: the subjects, then the teachers, then the rooms,
/// a later entry replacing an earlier one with the same id.
pub open spec fn id_map_of(json: Json) -> Map<Seq<char>, (Seq<char>, Seq<char>)> {
    let s = list(json, "Subjects"@);
    let t = list(json, "Teachers"@);
    let r = list(json, "Rooms"@);
    insert_ids(insert_ids(insert_ids(Map::empty(), s, s.len() as int), t, t.len() as int), r, r.len() as int)
}

/// Adds the entries of the list under `key` to `map`; `false` when the list is missing or malformed.
fn add_id_list(map: &mut StrMap<IdData>, json: &Json, key: &str) -> (ok: bool)
    ensures
        ok == id_list_ok(*json, key@),
        ok ==> final(map)@ == insert_ids(old(map)@, list(*json, key@), list(*json, key@).len() as int),
{
    let items = match json.member_array(key) {
        Some(a) => a,
        None => return false,
    };
    let ghost start = map@;
    let n = items.len();
    let mut i: usize = 0;
    while i < n
        invariant
            i <= n == items@.len(),
            items@ == list(*json, key@),
            as_array(field(*json, key@)) == Some(items@),
            map@ == insert_ids(start, items@, i as int),
            forall|j: int| 0 <= j < i ==> #[trigger] id_entry_ok(items@[j]),
        decreases n - i,
    {
        let e = &items[i];
        let id = match e.member_str("Id") {
            Some(x) => x,
            None => {
                assert(!id_entry_ok(items@[i as int]));
                return false;
            },
        };
        let short = match e.member_str("Abbrev") {
            Some(x) => x,
            None => {
                assert(!id_entry_ok(items@[i as int]));
                return false;
            },
        };
        let long = match e.member_str("Name") {
            Some(x) => x,
            None => {
                assert(!id_entry_ok(items@[i as int]));
                return false;
            },
        };
        map.insert(id.clone(), IdData { short_name: short.clone(), long_name: long.clone() });
        i = i + 1;
    }
    true
}

/// The names of every id in the document; `None` when one of its id lists
/// is missing or malformed.
pub fn construct_id_map(json: &Json) -> (r: Option<StrMap<IdData>>)
    ensures
        r is Some <==> ids_ok(*json),
        r matches Some(m) ==> m@ == id_map_of(*json),
{
    let mut map: StrMap<IdData> = StrMap::new();
    if !add_id_list(&mut map, json, "Subjects") {
        return None;
    }
    if !add_id_list(&mut map, json, "Teachers") {
        return None;
    }
    if !add_id_list(&mut map, json, "Rooms") {
        return None;
    }
    Some(map)
}

/// An hour entry has an integer id and a string caption.
pub open spec fn hour_entry_ok(v: Json) -> bool {
    &&& as_u64(field(v, "Id"@)) is Some
    &&& as_str(field(v, "Caption"@)) is Some
}

/// The member `Hours` is an array of well-formed hour entries.
pub open spec fn hours_ok(json: Json) -> bool {
    match as_array(field(json, "Hours"@)) {
        Some(items) => forall|i: int| 0 <= i < items.len() ==> #[trigger] hour_entry_ok(items[i]),
        None => false,
    }
}

/// `m` with the captions of the first `n` hour entries inserted under their ids.
pub open spec fn insert_captions(m: Map<u64, Seq<char>>, items: Seq<Json>, n: int) -> Map<u64, Seq<char>>
    decreases n,
{
    if n <= 0 {
        m
    } else {
        let e = items[n - 1];
        insert_captions(m, items, n - 1).insert(u64_of(field(e, "Id"@)), str_of(field(e, "Caption"@)))
    }
}

/// The caption of every hour id.
pub open spec fn caption_map_of(json: Json) -> Map<u64, Seq<char>> {
    let h = list(json, "Hours"@);
    insert_captions(Map::empty(), h, h.len() as int)
}

/// The views of a map's string values.
pub open spec fn caption_views(m: Map<u64, String>) -> Map<u64, Seq<char>> {
    m.map_values(|s: String| s@)
}

/// The caption of every hour id in the document; `None` when the hour list
/// is missing or malformed.
pub fn construct_caption_map(json: &Json) -> (r: Option<HashMap<u64, String>>)
    ensures
        r is Some <==> hours_ok(*json),
        r matches Some(m) ==> caption_views(m@) == caption_map_of(*json),
{
    broadcast use vstd::std_specs::hash::group_hash_axioms;
    let items = match json.member_array("Hours") {
        Some(a) => a,
        None => return None,
    };
    let mut map: HashMap<u64, String> = HashMap::new();
    let n = items.len();
    let mut i: usize = 0;
    assert(caption_views(map@) =~= Map::<u64, Seq<char>>::empty());
    while i < n
        invariant
            i <= n == items@.len(),
            items@ == list(*json, "Hours"@),
            as_array(field(*json, "Hours"@)) == Some(items@),
            caption_views(map@) == insert_captions(Map::empty(), items@, i as int),
            forall|j: int| 0 <= j < i ==> #[trigger] hour_entry_ok(items@[j]),
        decreases n - i,
    {
        let e = &items[i];
        let id = match e.member_u64("Id") {
            Some(x) => x,
            None => {
                assert(!hour_entry_ok(items@[i as int]));
                return None;
            },
        };
        let caption = match e.member_str("Caption") {
            Some(x) => x,
            None => {
                assert(!hour_entry_ok(items@[i as int]));
                return None;
            },
        };
        let ghost before = map@;
        let c = caption.clone();
        map.insert(id, c);
        assert(caption_views(map@) =~= caption_views(before).insert(id, c@));
        i = i + 1;
    }
    Some(map)
}


/// A string, or `"?"` when there is none.
pub open spec fn or_unknown(o: Option<Seq<char>>) -> Seq<char> {
    match o {
        Some(s) => s,
        None => "?"@,
    }
}

/// The names stored under `key`, or `dflt` when there are none.
pub open spec fn names_or(
    ids: Map<Seq<char>, (Seq<char>, Seq<char>)>,
    key: Seq<char>,
    dflt: (Seq<char>, Seq<char>),
) -> (Seq<char>, Seq<char>) {
    if ids.contains_key(key) {
        ids[key]
    } else {
        dflt
    }
}

/// The lesson an atom of the document describes. Its subject, teacher and
/// room are looked up by id (`"?"` when the atom has none); a subject that
/// is not found takes its names from the change's type, and otherwise `"?"`.
pub open spec fn hour_of(atom: Json, ids: Map<Seq<char>, (Seq<char>, Seq<char>)>) -> HourView {
    let change = change_of(field(atom, "Change"@));
    let subject_default = match change {
        Some(c) => (or_unknown(c.type_abbrev), or_unknown(c.type_full_name)),
        None => IdData::spec_default(),
    };
    let subject = names_or(ids, or_unknown(as_str(field(atom, "SubjectId"@))), subject_default);
    let teacher = names_or(ids, or_unknown(as_str(field(atom, "TeacherId"@))), IdData::spec_default());
    let room = names_or(ids, or_unknown(as_str(field(atom, "RoomId"@))), IdData::spec_default());
    HourView {
        subject_short: subject.0,
        subject_long: subject.1,
        teacher_short: teacher.0,
        teacher_long: teacher.1,
        room_short: room.0,
        room_long: room.1,
        change,
    }
}

/// An atom has an hour id with a known caption and a change that can be read without a panic.
pub open spec fn atom_ok(atom: Json, captions: Map<u64, Seq<char>>) -> bool {
    &&& as_u64(field(atom, "HourId"@)) is Some
    &&& captions.contains_key(u64_of(field(atom, "HourId"@)))
    &&& !change_panics(field(atom, "Change"@))
}

/// `m` with the lessons of the first `n` atoms inserted under their hour's
/// caption; a later atom of the same caption replaces an earlier one.
pub open spec fn insert_hours(
    m: Map<Seq<char>, HourView>,
    atoms: Seq<Json>,
    n: int,
    ids: Map<Seq<char>, (Seq<char>, Seq<char>)>,
    captions: Map<u64, Seq<char>>,
) -> Map<Seq<char>, HourView>
    decreases n,
{
    if n <= 0 {
        m
    } else {
        let a = atoms[n - 1];
        insert_hours(m, atoms, n - 1, ids, captions).insert(
            captions[u64_of(field(a, "HourId"@))],
            hour_of(a, ids),
        )
    }
}

/// A day entry has a string day type and an array of well-formed atoms.
pub open spec fn day_ok(d: Json, captions: Map<u64, Seq<char>>) -> bool {
    &&& as_str(field(d, "DayType"@)) is Some
    &&& match as_array(field(d, "Atoms"@)) {
        Some(atoms) => forall|i: int| 0 <= i < atoms.len() ==> #[trigger] atom_ok(atoms[i], captions),
        None => false,
    }
}

/// The day a day entry of the document describes.
pub open spec fn day_of(
    d: Json,
    ids: Map<Seq<char>, (Seq<char>, Seq<char>)>,
    captions: Map<u64, Seq<char>>,
) -> DayView {
    let atoms = list(d, "Atoms"@);
    DayView {
        day_type: DayType::from_name(str_of(field(d, "DayType"@))),
        hours: insert_hours(Map::empty(), atoms, atoms.len() as int, ids, captions),
    }
}

/// The document can be read as a timetable without a panic: its id lists,
/// hour list and day list are present and well formed, and every atom
/// names a listed hour and a readable change.
pub open spec fn timetable_json_ok(json: Json) -> bool {
    &&& ids_ok(json)
    &&& hours_ok(json)
    &&& match as_array(field(json, "Days"@)) {
        Some(days) => forall|i: int|
            0 <= i < days.len() ==> #[trigger] day_ok(days[i], caption_map_of(json)),
        None => false,
    }
}

/// The timetable a document describes: the hour captions in the order of
/// the hour list, and one day per day entry, in order.
pub open spec fn timetable_of(json: Json) -> TimetableView {
    let ids = id_map_of(json);
    let captions = caption_map_of(json);
    TimetableView {
        hour_captions: list(json, "Hours"@).map_values(|h: Json| str_of(field(h, "Caption"@))),
        days: list(json, "Days"@).map_values(|d: Json| day_of(d, ids, captions)),
    }
}

fn names_or_exec(ids: &StrMap<IdData>, key: &String, dflt: IdData) -> (r: IdData)
    ensures
        r@ == names_or(ids@, key@, dflt@),
{
    match ids.get(key) {
        Some(d) => d.clone(),
        None => dflt,
    }
}

fn member_or_unknown(v: &Json, key: &str) -> (r: String)
    ensures
        r@ == or_unknown(as_str(field(*v, key@))),
{
    match v.member_str(key) {
        Some(s) => s.clone(),
        None => String::from_str("?"),
    }
}

fn opt_or_unknown(o: &Option<String>) -> (r: String)
    ensures
        r@ == or_unknown(opt_view(*o)),
{
    match o {
        Some(s) => s.clone(),
        None => String::from_str("?"),
    }
}

/// The lesson an atom describes.
fn hour_from_atom(atom: &Json, ids: &StrMap<IdData>) -> (r: Hour)
    requires
        !change_panics(field(*atom, "Change"@)),
    ensures
        r@ == hour_of(*atom, ids@),
{
    let null = Json::Null;
    let change_json = match atom.member("Change") {
        Some(c) => c,
        None => &null,
    };
    let change = Change::from_json(change_json);
    let subject_default = match &change {
        Some(c) => IdData {
            short_name: opt_or_unknown(&c.type_abbrev),
            long_name: opt_or_unknown(&c.type_full_name),
        },
        None => IdData::default(),
    };
    let subject = names_or_exec(ids, &member_or_unknown(atom, "SubjectId"), subject_default);
    let teacher = names_or_exec(ids, &member_or_unknown(atom, "TeacherId"), IdData::default());
    let room = names_or_exec(ids, &member_or_unknown(atom, "RoomId"), IdData::default());
    Hour {
        subject_short: subject.short_name,
        subject_long: subject.long_name,
        teacher_short: teacher.short_name,
        teacher_long: teacher.long_name,
        room_short: room.short_name,
        room_long: room.long_name,
        change,
    }
}

/// The day a day entry describes; `None` when the entry is malformed.
fn day_from_json(d: &Json, ids: &StrMap<IdData>, captions: &HashMap<u64, String>) -> (r: Option<Day>)
    ensures
        r is Some <==> day_ok(*d, caption_views(captions@)),
        r matches Some(day) ==> day@ == day_of(*d, ids@, caption_views(captions@)),
{
    broadcast use vstd::std_specs::hash::group_hash_axioms;
    let day_type_name = match d.member_str("DayType") {
        Some(s) => s,
        None => return None,
    };
    let day_type = DayType::from_str_name(day_type_name.as_str());
    let atoms = match d.member_array("Atoms") {
        Some(a) => a,
        None => return None,
    };
    let ghost cv = caption_views(captions@);
    let mut hours: StrMap<Hour> = StrMap::new();
    let n = atoms.len();
    let mut i: usize = 0;
    while i < n
        invariant
            i <= n == atoms@.len(),
            atoms@ == list(*d, "Atoms"@),
            as_array(field(*d, "Atoms"@)) == Some(atoms@),
            cv == caption_views(captions@),
            hours@ == insert_hours(Map::empty(), atoms@, i as int, ids@, cv),
            forall|j: int| 0 <= j < i ==> #[trigger] atom_ok(atoms@[j], cv),
        decreases n - i,
    {
        let a = &atoms[i];
        let hour_id = match a.member_u64("HourId") {
            Some(x) => x,
            None => {
                assert(!atom_ok(atoms@[i as int], cv));
                return None;
            },
        };
        let caption = match captions.get(&hour_id) {
            Some(c) => c,
            None => {
                assert(!cv.contains_key(hour_id));
                assert(!atom_ok(atoms@[i as int], cv));
                return None;
            },
        };
        let null = Json::Null;
        let change_json = match a.member("Change") {
            Some(c) => c,
            None => &null,
        };
        if Change::panics_on(change_json) {
            assert(!atom_ok(atoms@[i as int], cv));
            return None;
        }
        let hour = hour_from_atom(a, ids);
        assert(cv[hour_id] == caption@);
        hours.insert(caption.clone(), hour);
        i = i + 1;
    }
    Some(Day { day_type, hours })
}

impl Timetable {
    /// Reads the timetable from the server's document; `None` exactly when
    /// reading it would panic (see [`timetable_json_ok`]).
    pub fn try_from_json(json: &Json) -> (r: Option<Timetable>)
        ensures
            r is Some <==> timetable_json_ok(*json),
            r matches Some(t) ==> t@ == timetable_of(*json),
    {
        let id_map = match construct_id_map(json) {
            Some(m) => m,
            None => return None,
        };
        let caption_map = match construct_caption_map(json) {
            Some(m) => m,
            None => return None,
        };
        let hour_list = match json.member_array("Hours") {
            Some(a) => a,
            None => return None,
        };
        let ghost captions = caption_map_of(*json);
        let mut hour_captions: Vec<String> = Vec::new();
        let nh = hour_list.len();
        let mut i: usize = 0;
        while i < nh
            invariant
                i <= nh == hour_list@.len(),
                hours_ok(*json),
                as_array(field(*json, "Hours"@)) == Some(hour_list@),
                hour_list@ == list(*json, "Hours"@),
                string_views(hour_captions@) == hour_list@.take(i as int).map_values(
                    |h: Json| str_of(field(h, "Caption"@)),
                ),
            decreases nh - i,
        {
            assert(hour_entry_ok(hour_list@[i as int]));
            let caption = match hour_list[i].member_str("Caption") {
                Some(c) => c.clone(),
                None => return None,
            };
            let ghost before = hour_captions@;
            hour_captions.push(caption);
            assert(string_views(hour_captions@) =~= string_views(before).push(caption@));
            assert(hour_list@.take(i + 1) =~= hour_list@.take(i as int).push(hour_list@[i as int]));
            i = i + 1;
        }
        assert(hour_list@.take(nh as int) =~= hour_list@);
        let day_list = match json.member_array("Days") {
            Some(a) => a,
            None => return None,
        };
        let mut days: Vec<Day> = Vec::new();
        let nd = day_list.len();
        let mut k: usize = 0;
        while k < nd
            invariant
                k <= nd == day_list@.len(),
                as_array(field(*json, "Days"@)) == Some(day_list@),
                day_list@ == list(*json, "Days"@),
                caption_views(caption_map@) == captions,
                captions == caption_map_of(*json),
                id_map@ == id_map_of(*json),
                forall|j: int| 0 <= j < k ==> #[trigger] day_ok(day_list@[j], captions),
                day_views(days@) == day_list@.take(k as int).map_values(
                    |d: Json| day_of(d, id_map@, captions),
                ),
            decreases nd - k,
        {
            let day = match day_from_json(&day_list[k], &id_map, &caption_map) {
                Some(day) => day,
                None => return None,
            };
            let ghost before = days@;
            days.push(day);
            assert(day_views(days@) =~= day_views(before).push(day@));
            assert(day_list@.take(k + 1) =~= day_list@.take(k as int).push(day_list@[k as int]));
            k = k + 1;
        }
        assert(day_list@.take(nd as int) =~= day_list@);
        Some(Timetable { hour_captions, days })
    }

    /// The timetable the server's document describes.
    pub fn from_json(json: &Json) -> (t: Timetable)
        requires
            timetable_json_ok(*json),
        ensures
            t@ == timetable_of(*json),
    {
        match Self::try_from_json(json) {
            Some(t) => t,
            None => {
                assert(false);
                Timetable::default()
            },
        }
    }
}


/// The timetable has one row per day entry and one column per hour entry.
pub proof fn lemma_timetable_dimensions(json: Json)
    ensures
        timetable_of(json).days.len() == list(json, "Days"@).len(),
        timetable_of(json).hour_captions.len() == list(json, "Hours"@).len(),
{
}

proof fn lemma_captions_listed(items: Seq<Json>, n: int, id: u64)
    requires
        0 <= n <= items.len(),
        insert_captions(Map::empty(), items, n).contains_key(id),
    ensures
        exists|j: int| 0 <= j < n && insert_captions(Map::empty(), items, n)[id] == #[trigger] str_of(
            field(items[j], "Caption"@),
        ),
    decreases n,
{
    if n > 0 {
        let e = items[n - 1];
        if u64_of(field(e, "Id"@)) == id {
            assert(insert_captions(Map::empty(), items, n)[id] == str_of(field(items[n - 1], "Caption"@)));
        } else {
            lemma_captions_listed(items, n - 1, id);
            let j = choose|j: int| 0 <= j < n - 1 && insert_captions(Map::empty(), items, n - 1)[id]
                == #[trigger] str_of(field(items[j], "Caption"@));
            assert(insert_captions(Map::empty(), items, n)[id] == str_of(field(items[j], "Caption"@)));
        }
    }
}

proof fn lemma_hours_under_captions(
    atoms: Seq<Json>,
    n: int,
    ids: Map<Seq<char>, (Seq<char>, Seq<char>)>,
    captions: Map<u64, Seq<char>>,
    k: Seq<char>,
)
    requires
        0 <= n <= atoms.len(),
        forall|i: int| 0 <= i < atoms.len() ==> #[trigger] atom_ok(atoms[i], captions),
        insert_hours(Map::empty(), atoms, n, ids, captions).contains_key(k),
    ensures
        exists|id: u64| captions.contains_key(id) && #[trigger] captions[id] == k,
    decreases n,
{
    if n > 0 {
        let a = atoms[n - 1];
        let id = u64_of(field(a, "HourId"@));
        assert(atom_ok(atoms[n - 1], captions));
        if captions[id] != k {
            lemma_hours_under_captions(atoms, n - 1, ids, captions, k);
        }
    }
}

/// Every lesson of a day stands under one of the timetable's hour captions,
/// so drawing the caption columns shows every lesson.
pub proof fn lemma_lessons_under_captions(json: Json, d: int, k: Seq<char>)
    requires
        timetable_json_ok(json),
        0 <= d < timetable_of(json).days.len(),
        timetable_of(json).days[d].hours.contains_key(k),
    ensures
        timetable_of(json).hour_captions.contains(k),
{
    let days = list(json, "Days"@);
    let day = days[d];
    let captions = caption_map_of(json);
    let atoms = list(day, "Atoms"@);
    assert(day_ok(days[d], captions));
    lemma_hours_under_captions(atoms, atoms.len() as int, id_map_of(json), captions, k);
    let id = choose|id: u64| captions.contains_key(id) && #[trigger] captions[id] == k;
    let hours = list(json, "Hours"@);
    lemma_captions_listed(hours, hours.len() as int, id);
    let j = choose|j: int| 0 <= j < hours.len() && captions[id] == #[trigger] str_of(field(hours[j], "Caption"@));
    assert(timetable_of(json).hour_captions[j] == k);
}

/// A background colour of the terminal view.
#[derive(Clone, Copy, Debug, PartialEq, Eq)]
pub enum CellColor {
    Reset,
    Green,
    Red,
    Cyan,
    DarkRed,
}

impl ChangeType {
    /// The colour a changed lesson is drawn on.
    pub open spec fn spec_color(self) -> CellColor {
        match self {
            ChangeType::Canceled => CellColor::Green,
            ChangeType::Added => CellColor::Red,
            ChangeType::Removed => CellColor::Green,
            ChangeType::RoomChanged => CellColor::Red,
            ChangeType::Substitution => CellColor::Red,
        }
    }

    /// The colour a changed lesson is drawn on.
    pub fn color(&self) -> (c: CellColor)
        ensures
            c == self.spec_color(),
    {
        match self {
            ChangeType::Canceled => CellColor::Green,
            ChangeType::Added => CellColor::Red,
            ChangeType::Removed => CellColor::Green,
            ChangeType::RoomChanged => CellColor::Red,
            ChangeType::Substitution => CellColor::Red,
        }
    }

    /// The name of the change type, as `Debug` writes it.
    pub open spec fn spec_name(self) -> Seq<char> {
        match self {
            ChangeType::Canceled => "Canceled"@,
            ChangeType::Added => "Added"@,
            ChangeType::Removed => "Removed"@,
            ChangeType::RoomChanged => "RoomChanged"@,
            ChangeType::Substitution => "Substitution"@,
        }
    }

    /// The name of the change type.
    pub fn name(&self) -> (s: String)
        ensures
            s@ == self.spec_name(),
    {
        match self {
            ChangeType::Canceled => String::from_str("Canceled"),
            ChangeType::Added => String::from_str("Added"),
            ChangeType::Removed => String::from_str("Removed"),
            ChangeType::RoomChanged => String::from_str("RoomChanged"),
            ChangeType::Substitution => String::from_str("Substitution"),
        }
    }
}

impl DayType {
    /// The colour a day of this type is drawn on.
    pub open spec fn spec_color(self) -> CellColor {
        match self {
            DayType::WorkDay => CellColor::Reset,
            DayType::Weekend => CellColor::Green,
            DayType::Celebration => CellColor::Cyan,
            DayType::Holiday => CellColor::Cyan,
            DayType::DirectorDay => CellColor::Green,
            DayType::Undefined => CellColor::DarkRed,
        }
    }

    /// The colour a day of this type is drawn on.
    pub fn color(&self) -> (c: CellColor)
        ensures
            c == self.spec_color(),
    {
        match self {
            DayType::WorkDay => CellColor::Reset,
            DayType::Weekend => CellColor::Green,
            DayType::Celebration => CellColor::Cyan,
            DayType::Holiday => CellColor::Cyan,
            DayType::DirectorDay => CellColor::Green,
            DayType::Undefined => CellColor::DarkRed,
        }
    }
}

/// The text the detail box shows for a lesson: subject, teacher and room,
/// and for a changed lesson the change's type and description.
pub open spec fn hour_text(h: HourView) -> Seq<char> {
    let base = "Předmět:  "@ + h.subject_long + "\nUčitel:   "@ + h.teacher_long + "\nMístnost: "@
        + h.room_short;
    match h.change {
        Some(c) => base + "\n\nZměna:    "@ + c.change_type.spec_name() + "\nPopis:    "@
            + c.description,
        None => base,
    }
}

impl Hour {
    /// The text the detail box shows for this lesson.
    pub fn to_display_string(&self) -> (s: String)
        ensures
            s@ == hour_text(self@),
    {
        let mut s = String::from_str("Předmět:  ");
        s.append(self.subject_long.as_str());
        s.append("\nUčitel:   ");
        s.append(self.teacher_long.as_str());
        s.append("\nMístnost: ");
        s.append(self.room_short.as_str());
        match &self.change {
            Some(c) => {
                s.append("\n\nZměna:    ");
                let name = c.change_type.name();
                s.append(name.as_str());
                s.append("\nPopis:    ");
                s.append(c.description.as_str());
            },
            None => {},
        }
        s
    }
}


/// Change type names round-trip: a recognised name reads as the change type
/// whose name it is, and every change type is read back from its name (so
/// distinct change types have distinct names).
pub proof fn lemma_change_type_names(s: Seq<char>, t: ChangeType)
    ensures
        ChangeType::from_name(s) matches Some(u) ==> u.spec_name() == s,
        ChangeType::from_name(t.spec_name()) == Some(t),
{
    reveal_strlit("Canceled");
    reveal_strlit("Added");
    reveal_strlit("Removed");
    reveal_strlit("RoomChanged");
    reveal_strlit("Substitution");
    // The five names differ in length, hence are pairwise distinct.
    assert("Canceled"@.len() == 8);
    assert("Added"@.len() == 5);
    assert("Removed"@.len() == 7);
    assert("RoomChanged"@.len() == 11);
    assert("Substitution"@.len() == 12);
}

/// Day type names round-trip: a name read as a known day type is that day
/// type's name, and every known day type is read back from its name.
pub proof fn lemma_day_type_names(s: Seq<char>, t: DayType)
    ensures
        DayType::from_name(s) != DayType::Undefined ==> DayType::from_name(s).spec_name() == s,
        t != DayType::Undefined ==> DayType::from_name(t.spec_name()) == t,
{
    reveal_strlit("WorkDay");
    reveal_strlit("Weekend");
    reveal_strlit("Celebration");
    reveal_strlit("Holiday");
    reveal_strlit("DirectorDay");
    assert("WorkDay"@.len() == 7);
    assert("Weekend"@.len() == 7);
    assert("WorkDay"@[0] == 'W' && "WorkDay"@[1] == 'o');
    assert("Weekend"@[0] == 'W' && "Weekend"@[1] == 'e');
    assert("Celebration"@.len() == 11);
    assert("Holiday"@.len() == 7);
    assert("Holiday"@[0] == 'H');
    assert("DirectorDay"@.len() == 11);
    assert("DirectorDay"@[0] == 'D');
    assert("Celebration"@[0] == 'C');
}

/// The member a change's type is read from: `ChangeType` of an object, the
/// first element of an array.
pub open spec fn change_type_member(v: Json) -> Json {
    match v {
        Json::Array(items) => if items@.len() > 0 { items@[0] } else { Json::Null },
        _ => field(v, "ChangeType"@),
    }
}

/// The member a change's description is read from.
pub open spec fn description_member(v: Json) -> Json {
    match v {
        Json::Array(items) => if items@.len() > 1 { items@[1] } else { Json::Null },
        _ => field(v, "Description"@),
    }
}

/// A change that is read keeps what the document says: its type is the one
/// whose name the document's change type string is, and its description is
/// the document's description. A change is read whenever its parts are
/// well formed and its type string is a recognised name.
pub proof fn lemma_change_reads_document(v: Json)
    ensures
        change_of(v) matches Some(c) ==> {
            &&& change_type_member(v) matches Json::Str(name)
            &&& c.change_type.spec_name() == name@
            &&& ChangeType::from_name(name@) == Some(c.change_type)
            &&& c.description == str_of(description_member(v))
        },
{
    if let Some(c) = change_of(v) {
        let name = str_of(change_type_member(v));
        lemma_change_type_names(name, c.change_type);
    }
}

/// The names a lesson carries: the subject, teacher and room listed under
/// the atom's ids (`"?"` for a missing id). Only a subject whose id is not
/// listed takes the change type's abbreviation and name (or `"?"`); a
/// teacher or room that is not listed is `"?"`. The lesson's change is the
/// change read from the atom.
pub proof fn lemma_hour_names(atom: Json, ids: Map<Seq<char>, (Seq<char>, Seq<char>)>)
    ensures
        ({
            let h = hour_of(atom, ids);
            let sid = or_unknown(as_str(field(atom, "SubjectId"@)));
            let tid = or_unknown(as_str(field(atom, "TeacherId"@)));
            let rid = or_unknown(as_str(field(atom, "RoomId"@)));
            &&& ids.contains_key(sid) ==> h.subject_short == ids[sid].0 && h.subject_long == ids[sid].1
            &&& !ids.contains_key(sid) ==> match change_of(field(atom, "Change"@)) {
                Some(c) => h.subject_short == or_unknown(c.type_abbrev) && h.subject_long == or_unknown(
                    c.type_full_name,
                ),
                None => h.subject_short == "?"@ && h.subject_long == "?"@,
            }
            &&& ids.contains_key(tid) ==> h.teacher_short == ids[tid].0 && h.teacher_long == ids[tid].1
            &&& !ids.contains_key(tid) ==> h.teacher_short == "?"@ && h.teacher_long == "?"@
            &&& ids.contains_key(rid) ==> h.room_short == ids[rid].0 && h.room_long == ids[rid].1
            &&& !ids.contains_key(rid) ==> h.room_short == "?"@ && h.room_long == "?"@
            &&& h.change == change_of(field(atom, "Change"@))
        }),
{
}

/// Lessons that do not take place (cancelled or removed) are drawn green;
/// added, moved and substituted lessons are drawn red.
pub proof fn lemma_change_colors(t: ChangeType)
    ensures
        (t.spec_color() == CellColor::Green) <==> (t == ChangeType::Canceled || t == ChangeType::Removed),
        (t.spec_color() == CellColor::Red) <==> !(t == ChangeType::Canceled || t == ChangeType::Removed),
{
}

} // verus!
