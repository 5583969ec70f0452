//! The state of the terminal view and its reactions to keys and to messages
//! from the backend. The application draws what these functions compute.

use vstd::prelude::*;

use crate::text::{decimal, i64_to_decimal, pad_string, padded, spaces, split_lines, lines, string_views};
use crate::timetable::{
    CellColor, DayType, Hour, HourView, Timetable, TimetableView, hour_text,
};

verus! {

/// A command from the view to the backend.
#[derive(PartialEq, Eq, Debug)]
pub enum BackendCommand {
    /// Fetch the timetable of the week this many weeks from the current one.
    RefreshTimetable(i64),
    Quit,
}

/// A message from the backend to the view.
pub enum FrontendCommand {
    TimetableData(Timetable),
    Log(String),
    Quit,
}

/// A key the user pressed, as far as the view tells keys apart.
pub enum KeyInput {
    /// A character key; `control` tells whether Control was held.
    Char { c: char, control: bool },
    Up,
    Down,
    Left,
    Right,
    Enter,
    /// Any other key.
    Other,
}

/// What the application does after a key.
#[derive(PartialEq, Eq, Debug)]
pub enum KeyAction {
    /// Nothing beyond the state change.
    Continue,
    /// Send this command to the backend.
    Send(BackendCommand),
    /// Leave the view.
    Quit,
}

/// What the application does with a message from the backend.
#[derive(PartialEq, Eq, Debug)]
pub enum FrontendEffect {
    /// Nothing beyond the state change.
    Continue,
    /// Show this line at the bottom of the screen.
    Log(String),
    /// Leave the view.
    Quit,
}

/// The state of the view.
pub struct Meta {
    pub term_height: u16,
    pub term_width: u16,
    /// The selected cell: (column, row).
    pub virtual_cursor: (usize, usize),
    /// The length of the longest subject abbreviation in the stored timetable.
    pub longest_abbrev: usize,
    pub stored_tb: Timetable,
    /// The lesson under the cursor when the timetable was last drawn.
    pub selected_hour: Option<Hour>,
    /// Whether the detail box of the selected lesson is shown.
    pub extra_info: bool,
    /// The shown week, as an offset from the current one.
    pub week_modifier: i64,
}

impl Default for Meta {
    fn default() -> (m: Self)
        ensures
            m.term_height == 0,
            m.term_width == 0,
            m.virtual_cursor == (0usize, 0usize),
            m.longest_abbrev == 0,
            m.stored_tb@.hour_captions.len() == 0,
            m.stored_tb@.days.len() == 0,
            m.selected_hour is None,
            !m.extra_info,
            m.week_modifier == 0,
    {
        Meta {
            term_height: 0,
            term_width: 0,
            virtual_cursor: (0, 0),
            longest_abbrev: 0,
            stored_tb: Timetable::default(),
            selected_hour: None,
            extra_info: false,
            week_modifier: 0,
        }
    }
}

/// `n` is the length of the longest subject abbreviation of the timetable:
/// no lesson's is longer, and some lesson's is that long unless `n` is zero.
pub open spec fn is_longest_abbrev(tv: TimetableView, n: nat) -> bool {
    &&& forall|d: int, k: Seq<char>|
        0 <= d < tv.days.len() && #[trigger] tv.days[d].hours.contains_key(k)
            ==> tv.days[d].hours[k].subject_short.len() <= n
    &&& (n == 0 || exists|d: int, k: Seq<char>|
        0 <= d < tv.days.len() && #[trigger] tv.days[d].hours.contains_key(k)
            && tv.days[d].hours[k].subject_short.len() == n)
}

/// Every subject abbreviation of the timetable is shorter than `bound`.
pub open spec fn abbrevs_below(tv: TimetableView, bound: nat) -> bool {
    forall|d: int, k: Seq<char>|
        0 <= d < tv.days.len() && #[trigger] tv.days[d].hours.contains_key(k)
            ==> tv.days[d].hours[k].subject_short.len() < bound
}

/// The length of the longest subject abbreviation in the timetable (zero
/// when it has no lessons).
pub fn get_longest_abbrev(timetable: &Timetable) -> (n: usize)
    ensures
        is_longest_abbrev(timetable@, n as nat),
{
    let mut max: usize = 0;
    let nd = timetable.days.len();
    let mut d: usize = 0;
    while d < nd
        invariant
            d <= nd == timetable.days@.len(),
            forall|dd: int, k: Seq<char>|
                0 <= dd < d && #[trigger] timetable.days@[dd].hours@.contains_key(k)
                    ==> timetable.days@[dd].hours@[k].subject_short.len() <= max,
            max == 0 || exists|dd: int, k: Seq<char>|
                0 <= dd < nd && #[trigger] timetable.days@[dd].hours@.contains_key(k)
                    && timetable.days@[dd].hours@[k].subject_short.len() == max,
        decreases nd - d,
    {
        let hours = &timetable.days[d].hours;
        let nh = hours.len();
        let mut i: usize = 0;
        while i < nh
            invariant
                d < nd == timetable.days@.len(),
                i <= nh == hours.spec_len(),
                *hours == timetable.days@[d as int].hours,
                forall|j: int| 0 <= j < hours.spec_len() ==> #[trigger] hours@.contains_key(hours.key_at(j))
                    && hours@[hours.key_at(j)] == hours.value_at(j),
                forall|dd: int, k: Seq<char>|
                    0 <= dd < d && #[trigger] timetable.days@[dd].hours@.contains_key(k)
                        ==> timetable.days@[dd].hours@[k].subject_short.len() <= max,
                forall|j: int| 0 <= j < i ==> #[trigger] hours.value_at(j).subject_short.len() <= max,
                max == 0 || exists|dd: int, k: Seq<char>|
                    0 <= dd < nd && #[trigger] timetable.days@[dd].hours@.contains_key(k)
                        && timetable.days@[dd].hours@[k].subject_short.len() == max,
            decreases nh - i,
        {
            let (_, hour) = hours.entry(i);
            let len = hour.subject_short.as_str().unicode_len();
            if len > max {
                max = len;
                assert(hours@.contains_key(hours.key_at(i as int)));
                assert(timetable.days@[d as int].hours@[hours.key_at(i as int)].subject_short.len() == max);
            }
            i = i + 1;
        }
        assert forall|dd: int, k: Seq<char>|
            0 <= dd < d + 1 && #[trigger] timetable.days@[dd].hours@.contains_key(k)
                implies timetable.days@[dd].hours@[k].subject_short.len() <= max by {
            if dd == d {
                let j = choose|j: int| 0 <= j < hours.spec_len() && hours.key_at(j) == k;
                assert(hours.value_at(j).subject_short.len() <= max);
            }
        }
        d = d + 1;
    }
    assert forall|dd: int, k: Seq<char>|
        0 <= dd < timetable@.days.len() && #[trigger] timetable@.days[dd].hours.contains_key(k)
            implies timetable@.days[dd].hours[k].subject_short.len() <= max by {
        assert(timetable@.days[dd] == timetable.days@[dd]@);
    }
    if max != 0 {
        let ghost w = choose|dd: int, k: Seq<char>|
            0 <= dd < nd && #[trigger] timetable.days@[dd].hours@.contains_key(k)
                && timetable.days@[dd].hours@[k].subject_short.len() == max;
        assert(timetable@.days[w.0] == timetable.days@[w.0]@);
        assert(timetable@.days[w.0].hours.contains_key(w.1));
    }
    max
}


/// The cursor one row up; the top row stays.
pub open spec fn cursor_up(c: (usize, usize)) -> (usize, usize) {
    (c.0, if c.1 > 0 { (c.1 - 1) as usize } else { 0usize })
}

/// The cursor one row down, held to the last of `rows` rows.
pub open spec fn cursor_down(c: (usize, usize), rows: nat) -> (usize, usize) {
    let next: int = if c.1 < usize::MAX { c.1 + 1 } else { c.1 as int };
    (c.0, if next <= rows - 1 { next as usize } else { (rows - 1) as usize })
}

/// The cursor one column left; the first column stays.
pub open spec fn cursor_left(c: (usize, usize)) -> (usize, usize) {
    (if c.0 > 0 { (c.0 - 1) as usize } else { 0usize }, c.1)
}

/// The cursor one column right, held to the last of `cols` columns.
pub open spec fn cursor_right(c: (usize, usize), cols: nat) -> (usize, usize) {
    let next: int = if c.0 < usize::MAX { c.0 + 1 } else { c.0 as int };
    (if next <= cols - 1 { next as usize } else { (cols - 1) as usize }, c.1)
}

impl Meta {
    /// This state with the cursor at `c`.
    pub open spec fn with_cursor(self, c: (usize, usize)) -> Meta {
        Meta {
            term_height: self.term_height,
            term_width: self.term_width,
            virtual_cursor: c,
            longest_abbrev: self.longest_abbrev,
            stored_tb: self.stored_tb,
            selected_hour: self.selected_hour,
            extra_info: self.extra_info,
            week_modifier: self.week_modifier,
        }
    }

    /// This state with the week offset `w`.
    pub open spec fn with_week(self, w: i64) -> Meta {
        Meta {
            term_height: self.term_height,
            term_width: self.term_width,
            virtual_cursor: self.virtual_cursor,
            longest_abbrev: self.longest_abbrev,
            stored_tb: self.stored_tb,
            selected_hour: self.selected_hour,
            extra_info: self.extra_info,
            week_modifier: w,
        }
    }

    /// This state with the detail box shown or hidden.
    pub open spec fn with_extra_info(self, b: bool) -> Meta {
        Meta {
            term_height: self.term_height,
            term_width: self.term_width,
            virtual_cursor: self.virtual_cursor,
            longest_abbrev: self.longest_abbrev,
            stored_tb: self.stored_tb,
            selected_hour: self.selected_hour,
            extra_info: b,
            week_modifier: self.week_modifier,
        }
    }

    /// This state with the timetable `tb`.
    pub open spec fn with_timetable(self, tb: Timetable) -> Meta {
        Meta {
            term_height: self.term_height,
            term_width: self.term_width,
            virtual_cursor: self.virtual_cursor,
            longest_abbrev: self.longest_abbrev,
            stored_tb: tb,
            selected_hour: self.selected_hour,
            extra_info: self.extra_info,
            week_modifier: self.week_modifier,
        }
    }

    /// The number of rows (days) of the stored timetable.
    pub open spec fn rows(self) -> nat {
        self.stored_tb@.days.len()
    }

    /// The number of columns (hours) of the stored timetable.
    pub open spec fn cols(self) -> nat {
        self.stored_tb@.hour_captions.len()
    }

    /// Moves the cursor one row up.
    pub fn virtual_cursor_up(&mut self)
        ensures
            *final(self) == old(self).with_cursor(cursor_up(old(self).virtual_cursor)),
    {
        self.virtual_cursor.1 = self.virtual_cursor.1.saturating_sub(1);
    }

    /// Moves the cursor one row down, not past the last day.
    pub fn virtual_cursor_down(&mut self)
        requires
            old(self).rows() > 0,
        ensures
            *final(self) == old(self).with_cursor(cursor_down(old(self).virtual_cursor, old(self).rows())),
    {
        let max_row = self.stored_tb.days.len() - 1;
        let next = self.virtual_cursor.1.saturating_add(1);
        self.virtual_cursor.1 = if max_row < next { max_row } else { next };
    }

    /// Moves the cursor one column left.
    pub fn virtual_cursor_left(&mut self)
        ensures
            *final(self) == old(self).with_cursor(cursor_left(old(self).virtual_cursor)),
    {
        self.virtual_cursor.0 = self.virtual_cursor.0.saturating_sub(1);
    }

    /// Moves the cursor one column right, not past the last hour.
    pub fn virtual_cursor_right(&mut self)
        requires
            old(self).cols() > 0,
        ensures
            *final(self) == old(self).with_cursor(cursor_right(old(self).virtual_cursor, old(self).cols())),
    {
        let max_col = self.stored_tb.hour_captions.len() - 1;
        let next = self.virtual_cursor.0.saturating_add(1);
        self.virtual_cursor.0 = if max_col < next { max_col } else { next };
    }

    /// Recomputes the length of the longest subject abbreviation.
    pub fn refresh_longest_abbrev(&mut self)
        ensures
            is_longest_abbrev(final(self).stored_tb@, final(self).longest_abbrev as nat),
            *final(self) == (Meta { longest_abbrev: final(self).longest_abbrev, ..*old(self) }),
    {
        self.longest_abbrev = get_longest_abbrev(&self.stored_tb);
    }

    /// Whether the view can take `key` without an arithmetic fault: moving
    /// down or right needs a row or column, and changing the week must stay
    /// within `i64`.
    pub open spec fn key_allowed(self, key: KeyInput) -> bool {
        match key {
            KeyInput::Down => self.rows() > 0,
            KeyInput::Right => self.cols() > 0,
            KeyInput::Char { c, control } => {
                &&& (c == '+' ==> self.week_modifier < i64::MAX)
                &&& (c == '-' ==> self.week_modifier > i64::MIN)
            },
            _ => true,
        }
    }

    /// Whether the view can take `key` (see `key_allowed`).
    pub fn can_take_key(&self, key: &KeyInput) -> (b: bool)
        ensures
            b == self.key_allowed(*key),
    {
        match key {
            KeyInput::Down => self.stored_tb.days.len() > 0,
            KeyInput::Right => self.stored_tb.hour_captions.len() > 0,
            KeyInput::Char { c, control } => {
                (*c != '+' || self.week_modifier < i64::MAX) && (*c != '-' || self.week_modifier > i64::MIN)
            },
            _ => true,
        }
    }

    /// The state after `key` and what the application does next: Control-c
    /// and `q` quit; the arrows move the cursor; Enter shows or hides the
    /// detail box; `+` and `-` move to the next or previous week and ask for
    /// its timetable; `r` asks for the shown week again; other keys do nothing.
    pub open spec fn key_effect(self, key: KeyInput) -> (Meta, KeyAction) {
        match key {
            KeyInput::Char { c, control } => if (c == 'c' && control) || c == 'q' {
                (self, KeyAction::Quit)
            } else if c == '+' {
                let w = (self.week_modifier + 1) as i64;
                (self.with_week(w), KeyAction::Send(BackendCommand::RefreshTimetable(w)))
            } else if c == '-' {
                let w = (self.week_modifier - 1) as i64;
                (self.with_week(w), KeyAction::Send(BackendCommand::RefreshTimetable(w)))
            } else if c == 'r' {
                (self, KeyAction::Send(BackendCommand::RefreshTimetable(self.week_modifier)))
            } else {
                (self, KeyAction::Continue)
            },
            KeyInput::Up => (self.with_cursor(cursor_up(self.virtual_cursor)), KeyAction::Continue),
            KeyInput::Down => (
                self.with_cursor(cursor_down(self.virtual_cursor, self.rows())),
                KeyAction::Continue,
            ),
            KeyInput::Left => (self.with_cursor(cursor_left(self.virtual_cursor)), KeyAction::Continue),
            KeyInput::Right => (
                self.with_cursor(cursor_right(self.virtual_cursor, self.cols())),
                KeyAction::Continue,
            ),
            KeyInput::Enter => (self.with_extra_info(!self.extra_info), KeyAction::Continue),
            KeyInput::Other => (self, KeyAction::Continue),
        }
    }

    /// Reacts to a key.
    pub fn handle_key(&mut self, key: KeyInput) -> (a: KeyAction)
        requires
            old(self).key_allowed(key),
        ensures
            (*final(self), a) == old(self).key_effect(key),
            a matches KeyAction::Send(BackendCommand::RefreshTimetable(w)) ==> w == final(self).week_modifier,
    {
        match key {
            KeyInput::Char { c, control } => {
                if (c == 'c' && control) || c == 'q' {
                    KeyAction::Quit
                } else if c == '+' {
                    self.week_modifier = self.week_modifier + 1;
                    KeyAction::Send(refresh_timetable(self))
                } else if c == '-' {
                    self.week_modifier = self.week_modifier - 1;
                    KeyAction::Send(refresh_timetable(self))
                } else if c == 'r' {
                    KeyAction::Send(refresh_timetable(self))
                } else {
                    KeyAction::Continue
                }
            },
            KeyInput::Up => {
                self.virtual_cursor_up();
                KeyAction::Continue
            },
            KeyInput::Down => {
                self.virtual_cursor_down();
                KeyAction::Continue
            },
            KeyInput::Left => {
                self.virtual_cursor_left();
                KeyAction::Continue
            },
            KeyInput::Right => {
                self.virtual_cursor_right();
                KeyAction::Continue
            },
            KeyInput::Enter => {
                self.extra_info = !self.extra_info;
                KeyAction::Continue
            },
            KeyInput::Other => KeyAction::Continue,
        }
    }

    /// Takes a message from the backend: new timetable data replaces the
    /// stored timetable; a log line and a quit request are passed on.
    pub fn apply_frontend_command(&mut self, cmd: FrontendCommand) -> (e: FrontendEffect)
        ensures
            match cmd {
                FrontendCommand::TimetableData(tb) => *final(self) == old(self).with_timetable(tb)
                    && e == FrontendEffect::Continue,
                FrontendCommand::Log(msg) => *final(self) == *old(self) && e == FrontendEffect::Log(msg),
                FrontendCommand::Quit => *final(self) == *old(self) && e == FrontendEffect::Quit,
            },
    {
        match cmd {
            FrontendCommand::TimetableData(tb) => {
                self.stored_tb = tb;
                FrontendEffect::Continue
            },
            FrontendCommand::Log(msg) => FrontendEffect::Log(msg),
            FrontendCommand::Quit => FrontendEffect::Quit,
        }
    }
}

/// The command that asks the backend for the timetable of the shown week.
pub fn refresh_timetable(meta: &Meta) -> (c: BackendCommand)
    ensures
        c == BackendCommand::RefreshTimetable(meta.week_modifier),
{
    BackendCommand::RefreshTimetable(meta.week_modifier)
}


/// How the header names a week offset: `minulý` (last), `tento` (this),
/// `příští` (next), a signed number otherwise.
pub open spec fn week_name(w: int) -> Seq<char> {
    if w <= -2 {
        decimal(w)
    } else if w == -1 {
        "minulý"@
    } else if w == 0 {
        "tento"@
    } else if w == 1 {
        "příští"@
    } else {
        "+"@ + decimal(w)
    }
}

/// The header line of the view.
pub open spec fn week_header(w: int) -> Seq<char> {
    "Týden: "@ + week_name(w)
}

/// A drawn cell of the timetable.
pub struct Cell {
    pub text: String,
    pub background: Option<CellColor>,
    /// Drawn with foreground and background swapped (the cursor).
    pub negative: bool,
}

/// The contents of a [`Cell`].
pub struct CellView {
    pub text: Seq<char>,
    pub background: Option<CellColor>,
    pub negative: bool,
}

impl View for Cell {
    type V = CellView;

    open spec fn view(&self) -> CellView {
        CellView { text: self.text@, background: self.background, negative: self.negative }
    }
}

/// The lesson in column `x` of row `y`, if the day has one under that caption.
pub open spec fn hour_at(tv: TimetableView, x: int, y: int) -> Option<HourView> {
    let day = tv.days[y];
    let caption = tv.hour_captions[x];
    if day.hours.contains_key(caption) {
        Some(day.hours[caption])
    } else {
        None
    }
}

/// The cell in column `x` of row `y`, `width` characters wide: the lesson's
/// subject abbreviation padded with spaces, or spaces for no lesson; drawn
/// on the colour of the day's type unless it is a work day, else on the
/// colour of the lesson's change if it has one; swapped under the cursor.
pub open spec fn cell_of(tv: TimetableView, width: nat, cursor: (usize, usize), x: int, y: int) -> CellView {
    let day = tv.days[y];
    let text = match hour_at(tv, x, y) {
        Some(h) => padded(h.subject_short, width),
        None => crate::text::repeat_char(' ', width),
    };
    let change_color = match hour_at(tv, x, y) {
        Some(h) => match h.change {
            Some(c) => Some(c.change_type.spec_color()),
            None => None,
        },
        None => None,
    };
    CellView {
        text,
        background: if day.day_type == DayType::WorkDay { change_color } else { Some(day.day_type.spec_color()) },
        negative: cursor.0 == x && cursor.1 == y,
    }
}

/// The view of an optional lesson.
pub open spec fn opt_hour_view(o: Option<Hour>) -> Option<HourView> {
    match o {
        Some(h) => Some(h@),
        None => None,
    }
}

/// The text of the detail box: the selected lesson, or `Prázdná hodina`
/// (empty lesson).
pub open spec fn info_text(selected: Option<HourView>) -> Seq<char> {
    match selected {
        Some(h) => hour_text(h),
        None => "Prázdná hodina"@,
    }
}

/// A line of the detail box, with its left border.
pub open spec fn boxed_line(l: Seq<char>) -> Seq<char> {
    "| "@ + l + " "@
}

/// The length of the longest of `ls` (zero for none).
pub open spec fn max_len(ls: Seq<Seq<char>>) -> nat
    decreases ls.len(),
{
    if ls.len() == 0 {
        0
    } else {
        let m = max_len(ls.drop_last());
        if ls.last().len() > m {
            ls.last().len()
        } else {
            m
        }
    }
}

/// The detail box of the selected lesson: its lines with their left
/// border, the width of the widest, and the top and bottom borders.
pub struct InfoBox {
    pub lines: Vec<String>,
    pub width: usize,
    pub top_border: String,
    pub bottom_border: String,
}

impl Meta {
    /// The header line: `Týden: ` and the name of the shown week.
    pub fn header(&self) -> (s: String)
        ensures
            s@ == week_header(self.week_modifier as int),
    {
        let w = self.week_modifier;
        let mut s = String::from_str("Týden: ");
        if w < -1 {
            let d = i64_to_decimal(w);
            s.append(d.as_str());
        } else if w == -1 {
            s.append("minulý");
        } else if w == 0 {
            s.append("tento");
        } else if w == 1 {
            s.append("příští");
        } else {
            s.append("+");
            let d = i64_to_decimal(w);
            s.append(d.as_str());
        }
        s
    }

    /// Lays out the timetable: one row of cells per day and one cell per
    /// hour caption, each `longest_abbrev + 1` characters wide. The longest
    /// abbreviation is recomputed first, and when the cursor is on a cell
    /// the lesson there becomes the selected one.
    pub fn render_timetable(&mut self) -> (rows: Vec<Vec<Cell>>)
        requires
            abbrevs_below(old(self).stored_tb@, usize::MAX as nat),
        ensures
            is_longest_abbrev(old(self).stored_tb@, final(self).longest_abbrev as nat),
            rows@.len() == old(self).rows(),
            forall|y: int| 0 <= y < rows@.len() ==> #[trigger] rows@[y]@.len() == old(self).cols(),
            forall|x: int, y: int|
                0 <= y < rows@.len() && 0 <= x < old(self).cols() ==> #[trigger] rows@[y]@[x]@ == cell_of(
                    old(self).stored_tb@,
                    (final(self).longest_abbrev + 1) as nat,
                    old(self).virtual_cursor,
                    x,
                    y,
                ),
            ({
                let c = old(self).virtual_cursor;
                if c.0 < old(self).cols() && c.1 < old(self).rows() {
                    opt_hour_view(final(self).selected_hour) == hour_at(old(self).stored_tb@, c.0 as int, c.1 as int)
                } else {
                    final(self).selected_hour == old(self).selected_hour
                }
            }),
            *final(self) == (Meta {
                longest_abbrev: final(self).longest_abbrev,
                selected_hour: final(self).selected_hour,
                ..*old(self)
            }),
    {
        self.refresh_longest_abbrev();
        let ghost tv = self.stored_tb@;
        let width = self.longest_abbrev + 1;
        let cursor = self.virtual_cursor;
        let mut picked: Option<Option<Hour>> = None;
        let mut rows: Vec<Vec<Cell>> = Vec::new();
        let nd = self.stored_tb.days.len();
        let nc = self.stored_tb.hour_captions.len();
        let mut y: usize = 0;
        while y < nd
            invariant
                nd == tv.days.len(),
                nc == tv.hour_captions.len(),
                tv == self.stored_tb@,
                y <= nd,
                rows@.len() == y,
                forall|yy: int| 0 <= yy < y ==> #[trigger] rows@[yy]@.len() == nc,
                forall|x: int, yy: int|
                    0 <= yy < y && 0 <= x < nc ==> #[trigger] rows@[yy]@[x]@ == cell_of(tv, width as nat, cursor, x, yy),
                if cursor.0 < nc && cursor.1 < y {
                    picked matches Some(p) && opt_hour_view(p) == hour_at(tv, cursor.0 as int, cursor.1 as int)
                } else {
                    picked is None
                },
            decreases nd - y,
        {
            let day = &self.stored_tb.days[y];
            assert(tv.days[y as int] == day@);
            let mut row: Vec<Cell> = Vec::new();
            let mut x: usize = 0;
            while x < nc
                invariant
                    nd == tv.days.len(),
                    nc == tv.hour_captions.len(),
                    tv == self.stored_tb@,
                    y < nd,
                    tv.days[y as int] == day@,
                    x <= nc,
                    row@.len() == x,
                    forall|xx: int| 0 <= xx < x ==> #[trigger] row@[xx]@ == cell_of(tv, width as nat, cursor, xx, y as int),
                    if (cursor.0 < nc && cursor.1 < y) || (cursor.0 < x && cursor.1 == y) {
                        picked matches Some(p) && opt_hour_view(p) == hour_at(tv, cursor.0 as int, cursor.1 as int)
                    } else {
                        picked is None
                    },
                decreases nc - x,
            {
                let caption = &self.stored_tb.hour_captions[x];
                assert(tv.hour_captions[x as int] == caption@);
                let here = cursor.0 == x && cursor.1 == y;
                let (text, change_color) = match day.hours.get(caption) {
                    Some(hour) => {
                        if here {
                            picked = Some(Some(hour.clone()));
                        }
                        let bg = match &hour.change {
                            Some(c) => Some(c.change_type.color()),
                            None => None,
                        };
                        (pad_string(hour.subject_short.as_str(), width), bg)
                    },
                    None => {
                        if here {
                            picked = Some(None);
                        }
                        (spaces(width), None)
                    },
                };
                let background = match day.day_type {
                    DayType::WorkDay => change_color,
                    _ => Some(day.day_type.color()),
                };
                row.push(Cell { text, background, negative: here });
                x = x + 1;
            }
            rows.push(row);
            y = y + 1;
        }
        match picked {
            Some(p) => {
                self.selected_hour = p;
            },
            None => {},
        }
        rows
    }

    /// The detail box of the selected lesson, when it is shown.
    pub fn info_box(&self) -> (r: Option<InfoBox>)
        ensures
            !self.extra_info ==> r is None,
            self.extra_info ==> (r matches Some(b) && {
                let ls = lines(info_text(opt_hour_view(self.selected_hour))).map_values(
                    |l: Seq<char>| boxed_line(l),
                );
                &&& string_views(b.lines@) == ls
                &&& b.width == max_len(ls)
                &&& b.top_border@ == "|"@ + crate::text::repeat_char('‾', b.width as nat)
                &&& b.bottom_border@ == "|"@ + crate::text::repeat_char('_', b.width as nat)
            }),
    {
        if !self.extra_info {
            return None;
        }
        let text = match &self.selected_hour {
            Some(h) => h.to_display_string(),
            None => String::from_str("Prázdná hodina"),
        };
        let raw = split_lines(text.as_str());
        let ghost ls = lines(text@).map_values(|l: Seq<char>| boxed_line(l));
        let mut out: Vec<String> = Vec::new();
        let mut width: usize = 0;
        let n = raw.len();
        let mut i: usize = 0;
        assert(string_views(raw@).len() == n);
        while i < n
            invariant
                i <= n == raw@.len(),
                string_views(raw@) == lines(text@),
                ls == lines(text@).map_values(|l: Seq<char>| boxed_line(l)),
                string_views(out@) == ls.take(i as int),
                width == max_len(ls.take(i as int)),
            decreases n - i,
        {
            assert(string_views(raw@)[i as int] == raw@[i as int]@);
            let mut line = String::from_str("| ");
            line.append(raw[i].as_str());
            line.append(" ");
            let len = line.as_str().unicode_len();
            if len > width {
                width = len;
            }
            let ghost before = out@;
            out.push(line);
            proof {
                assert(ls.take(i + 1) =~= ls.take(i as int).push(ls[i as int]));
                assert(ls.take(i + 1).drop_last() =~= ls.take(i as int));
                assert(string_views(out@) =~= string_views(before).push(line@));
            }
            i = i + 1;
        }
        assert(ls.take(n as int) =~= ls);
        let mut top = String::from_str("|");
        let bar = crate::text::repeated('‾', width);
        top.append(bar.as_str());
        let mut bottom = String::from_str("|");
        let under = crate::text::repeated('_', width);
        bottom.append(under.as_str());
        Some(InfoBox { lines: out, width, top_border: top, bottom_border: bottom })
    }
}


/// Moving the cursor keeps it on the timetable: a cursor on a cell stays
/// on a cell after any of the four moves.
pub proof fn lemma_cursor_stays_on_grid(c: (usize, usize), cols: nat, rows: nat)
    requires
        c.0 < cols,
        c.1 < rows,
    ensures
        cursor_up(c).0 < cols && cursor_up(c).1 < rows,
        cursor_down(c, rows).0 < cols && cursor_down(c, rows).1 < rows,
        cursor_left(c).0 < cols && cursor_left(c).1 < rows,
        cursor_right(c, cols).0 < cols && cursor_right(c, cols).1 < rows,
{
}

/// A move down followed by a move up returns the cursor, unless the move
/// down was held at the last row; likewise right then left.
pub proof fn lemma_cursor_moves_undo(c: (usize, usize), cols: nat, rows: nat)
    requires
        cols <= usize::MAX,
        rows <= usize::MAX,
    ensures
        c.1 + 1 < rows ==> cursor_up(cursor_down(c, rows)) == c,
        c.0 + 1 < cols ==> cursor_left(cursor_right(c, cols)) == c,
{
}

/// Moving to the next week and back leaves the view as it was, and each
/// move asks the backend for the week it shows.
pub proof fn lemma_week_forth_and_back(m: Meta, plus: bool, minus: bool)
    requires
        m.week_modifier < i64::MAX,
    ensures
        ({
            let (m1, a1) = m.key_effect(KeyInput::Char { c: '+', control: plus });
            let (m2, a2) = m1.key_effect(KeyInput::Char { c: '-', control: minus });
            &&& m1.week_modifier == m.week_modifier + 1
            &&& a1 == KeyAction::Send(BackendCommand::RefreshTimetable(m1.week_modifier))
            &&& m2 == m
            &&& a2 == KeyAction::Send(BackendCommand::RefreshTimetable(m.week_modifier))
        }),
{
}

/// The cells of a drawn timetable are all one width: the longest subject
/// abbreviation plus one.
pub proof fn lemma_cells_equal_width(tv: TimetableView, longest: nat, cursor: (usize, usize), x: int, y: int)
    requires
        is_longest_abbrev(tv, longest),
        0 <= y < tv.days.len(),
        0 <= x < tv.hour_captions.len(),
    ensures
        cell_of(tv, longest + 1, cursor, x, y).text.len() == longest + 1,
{
    let day = tv.days[y];
    let caption = tv.hour_captions[x];
    if day.hours.contains_key(caption) {
        assert(day.hours[caption].subject_short.len() <= longest);
    }
}

/// Exactly the cell under the cursor is drawn swapped.
pub proof fn lemma_only_cursor_cell_negative(tv: TimetableView, width: nat, cursor: (usize, usize), x: int, y: int)
    requires
        0 <= y < tv.days.len(),
        0 <= x < tv.hour_captions.len(),
    ensures
        cell_of(tv, width, cursor, x, y).negative <==> (x == cursor.0 && y == cursor.1),
{
}

/// The detail box is as wide as its widest line: no line is wider, and
/// some line is that wide unless there are none.
pub proof fn lemma_max_len(ls: Seq<Seq<char>>)
    ensures
        forall|i: int| 0 <= i < ls.len() ==> #[trigger] ls[i].len() <= max_len(ls),
        ls.len() == 0 ==> max_len(ls) == 0,
        ls.len() > 0 ==> exists|i: int| 0 <= i < ls.len() && #[trigger] ls[i].len() == max_len(ls),
    decreases ls.len(),
{
    if ls.len() > 0 {
        let init = ls.drop_last();
        lemma_max_len(init);
        assert forall|i: int| 0 <= i < ls.len() implies #[trigger] ls[i].len() <= max_len(ls) by {
            if i < ls.len() - 1 {
                assert(ls[i] == init[i]);
            }
        }
        if ls.last().len() <= max_len(init) && init.len() > 0 {
            let j = choose|j: int| 0 <= j < init.len() && #[trigger] init[j].len() == max_len(init);
            assert(ls[j] == init[j]);
        } else {
            assert(ls[ls.len() - 1].len() == max_len(ls));
        }
    }
}


/// A key that asks the backend for a timetable asks for the week the view
/// then shows; `r` changes nothing and asks for the shown week; no key
/// touches the stored timetable, the selection or the terminal size.
pub proof fn lemma_refresh_asks_for_shown_week(m: Meta, k: KeyInput)
    ensures
        ({
            let (m2, a) = m.key_effect(k);
            &&& a matches KeyAction::Send(BackendCommand::RefreshTimetable(w)) ==> w == m2.week_modifier
            &&& a matches KeyAction::Send(cmd) ==> cmd is RefreshTimetable
            &&& m2.stored_tb == m.stored_tb
            &&& m2.selected_hour == m.selected_hour
            &&& m2.longest_abbrev == m.longest_abbrev
            &&& m2.term_height == m.term_height && m2.term_width == m.term_width
        }),
        forall|control: bool| #[trigger] m.key_effect(KeyInput::Char { c: 'r', control })
            == (m, KeyAction::Send(BackendCommand::RefreshTimetable(m.week_modifier))),
        (m.key_effect(k).1 == KeyAction::Quit) <==> (k matches KeyInput::Char { c, control } && (c == 'q'
            || (c == 'c' && control))),
        m.key_effect(k).1 == KeyAction::Quit ==> m.key_effect(k).0 == m,
        k is Enter ==> m.key_effect(k).0.extra_info == !m.extra_info,
        !(k is Enter) ==> m.key_effect(k).0.extra_info == m.extra_info,
{
}

/// The background of a cell: on a day that is no work day, the day type's
/// colour; on a work day, the colour of the change of the lesson there, and
/// none for an unchanged lesson or an empty cell.
pub proof fn lemma_cell_background(tv: TimetableView, width: nat, cursor: (usize, usize), x: int, y: int)
    requires
        0 <= y < tv.days.len(),
        0 <= x < tv.hour_captions.len(),
    ensures
        ({
            let bg = cell_of(tv, width, cursor, x, y).background;
            let day = tv.days[y];
            &&& day.day_type != DayType::WorkDay ==> bg == Some(day.day_type.spec_color())
            &&& day.day_type == DayType::WorkDay ==> match hour_at(tv, x, y) {
                Some(h) => match h.change {
                    Some(c) => bg == Some(c.change_type.spec_color()),
                    None => bg is None,
                },
                None => bg is None,
            }
            &&& (day.day_type == DayType::WorkDay && (hour_at(tv, x, y) matches Some(h) && h.change is Some))
                ==> bg is Some
        }),
{
}

} // verus!
