//! What the screens show, apart from drawing it: the mode banner, the key hints,
//! where pop-ups go, the dashboard notes and how form fields are laid out.
use vstd::prelude::*;
use vstd::view::View as _;
use crate::app::{App, Focus, Mode, View};
use crate::models::{Client, Milestone, Project, ProjectStatus, Stats};
use crate::app::first_n;
use crate::sort::is_permutation;
use crate::text::{
    byte_len, byte_prefix, char_boundary, chars_of, int_text, owned, prefix_bytes, push_char,
    string_of_range, u64_text, utf8_bytes, copy_string, str_eq, opt_or_empty, opt_or_default,
};
use crate::widgets::{col, column, spaces, tail, tail_chars};

verus! {

/// The theme colours, named by what they mean on screen.
#[derive(Debug, Clone, Copy, PartialEq, Eq, Structural)]
pub enum Tone {
    Brand,
    Amber,
    Red,
    Cyan,
    Green,
    Blue,
    Subtle,
    Text,
    Accent,
}

/// The colour of a status word (project statuses, client health, log levels).
pub open spec fn status_tone(status: Seq<char>) -> Tone {
    if status == "running"@ {
        Tone::Blue
    } else if status == "active"@ {
        Tone::Green
    } else if status == "blocked"@ || status == "warn"@ {
        Tone::Amber
    } else if status == "pending"@ || status == "lead"@ || status == "archived"@ || status == "idle"@ {
        Tone::Subtle
    } else if status == "error"@ {
        Tone::Red
    } else {
        Tone::Text
    }
}

/// The colour of a status word.
pub fn status_color(status: &str) -> (t: Tone)
    ensures
        t == status_tone(status@),
{
    if str_eq(status, "running") {
        Tone::Blue
    } else if str_eq(status, "active") {
        Tone::Green
    } else if str_eq(status, "blocked") || str_eq(status, "warn") {
        Tone::Amber
    } else if str_eq(status, "pending") || str_eq(status, "lead") || str_eq(status, "archived") || str_eq(
        status,
        "idle",
    ) {
        Tone::Subtle
    } else if str_eq(status, "error") {
        Tone::Red
    } else {
        Tone::Text
    }
}

/// The banner of the command bar for mode `m`, and its colour.
pub open spec fn mode_banner(m: Mode) -> (Seq<char>, Tone) {
    match m {
        Mode::Normal => ("── NORMAL ──"@, Tone::Brand),
        Mode::Search(_) => ("── SEARCH ──"@, Tone::Amber),
        Mode::Command(_) => ("── COMMAND ──"@, Tone::Amber),
        Mode::ConfirmDelete { .. } => ("── DELETE ──"@, Tone::Red),
        Mode::NewClient(f) => if f.edit_id is Some {
            ("── EDIT CLIENT ──"@, Tone::Cyan)
        } else {
            ("── NEW CLIENT ──"@, Tone::Green)
        },
        Mode::NewProject(f) => if f.edit_id is Some {
            ("── EDIT PROJECT ──"@, Tone::Cyan)
        } else {
            ("── NEW PROJECT ──"@, Tone::Green)
        },
        Mode::NewContact(f) => if f.edit_id is Some {
            ("── EDIT CONTACT ──"@, Tone::Cyan)
        } else {
            ("── NEW CONTACT ──"@, Tone::Cyan)
        },
        Mode::ViewContacts => ("── CONTACTS ──"@, Tone::Brand),
        Mode::AddHours { .. } => ("── ADD HOURS ──"@, Tone::Green),
        Mode::ViewHours { .. } => ("── HOURS LOG ──"@, Tone::Brand),
        Mode::EditHours { .. } => ("── EDIT HOURS ──"@, Tone::Cyan),
        Mode::RepairProject { .. } => ("── REPAIR ──"@, Tone::Red),
    }
}

/// The banner of the command bar for `mode`, and its colour.
pub fn mode_label(mode: &Mode) -> (r: (&'static str, Tone))
    ensures
        (r.0@, r.1) == mode_banner(*mode),
{
    match mode {
        Mode::Normal => ("── NORMAL ──", Tone::Brand),
        Mode::Search(_) => ("── SEARCH ──", Tone::Amber),
        Mode::Command(_) => ("── COMMAND ──", Tone::Amber),
        Mode::ConfirmDelete { .. } => ("── DELETE ──", Tone::Red),
        Mode::NewClient(f) => if f.edit_id.is_some() {
            ("── EDIT CLIENT ──", Tone::Cyan)
        } else {
            ("── NEW CLIENT ──", Tone::Green)
        },
        Mode::NewProject(f) => if f.edit_id.is_some() {
            ("── EDIT PROJECT ──", Tone::Cyan)
        } else {
            ("── NEW PROJECT ──", Tone::Green)
        },
        Mode::NewContact(f) => if f.edit_id.is_some() {
            ("── EDIT CONTACT ──", Tone::Cyan)
        } else {
            ("── NEW CONTACT ──", Tone::Cyan)
        },
        Mode::ViewContacts => ("── CONTACTS ──", Tone::Brand),
        Mode::AddHours { .. } => ("── ADD HOURS ──", Tone::Green),
        Mode::ViewHours { .. } => ("── HOURS LOG ──", Tone::Brand),
        Mode::EditHours { .. } => ("── EDIT HOURS ──", Tone::Cyan),
        Mode::RepairProject { .. } => ("── REPAIR ──", Tone::Red),
    }
}

/// Key hints as (key, action) texts.
pub open spec fn hints_view(v: Seq<(&str, &str)>) -> Seq<(Seq<char>, Seq<char>)> {
    v.map_values(|h: (&str, &str)| (h.0@, h.1@))
}

/// The key hints of Normal mode for the view and the focused pane.
pub open spec fn normal_hint_list(view: View, focus: Focus) -> Seq<(Seq<char>, Seq<char>)> {
    match (view, focus) {
        (View::Dashboard, _) => seq![
            ("j k"@, "move"@),
            ("1 2 3"@, "nav"@),
            ("g g"@, "top"@),
            ("G"@, "bottom"@),
            ("/"@, "search"@),
            (":"@, "cmd"@),
            ("q"@, "quit"@),
        ],
        (View::Clients, Focus::Left) => seq![
            ("j k"@, "move"@),
            ("n"@, "new"@),
            ("e"@, "edit"@),
            ("c"@, "contact"@),
            ("d"@, "delete"@),
            ("g g"@, "top"@),
            ("G"@, "bottom"@),
            ("q"@, "quit"@),
        ],
        (View::Clients, Focus::Right) => seq![
            ("n"@, "new"@),
            ("e"@, "edit"@),
            ("d"@, "delete"@),
            ("/"@, "search"@),
            ("q"@, "quit"@),
        ],
        (View::Projects, Focus::Left) => seq![
            ("j k"@, "move"@),
            ("n"@, "new"@),
            ("e"@, "edit"@),
            ("l"@, "log"@),
            ("d"@, "delete"@),
            ("g g"@, "top"@),
            ("G"@, "bottom"@),
            ("/"@, "search"@),
            ("q"@, "quit"@),
        ],
        (View::Projects, Focus::Right) => seq![("/"@, "search"@), ("q"@, "quit"@)],
    }
}

/// The key hints of Normal mode for `view` and the focused pane.
pub fn normal_hints(view: View, focus: Focus) -> (r: Vec<(&'static str, &'static str)>)
    ensures
        hints_view(r@) == normal_hint_list(view, focus),
{
    let r = match (view, focus) {
        (View::Dashboard, _) => vec![
            ("j k", "move"),
            ("1 2 3", "nav"),
            ("g g", "top"),
            ("G", "bottom"),
            ("/", "search"),
            (":", "cmd"),
            ("q", "quit"),
        ],
        (View::Clients, Focus::Left) => vec![
            ("j k", "move"),
            ("n", "new"),
            ("e", "edit"),
            ("c", "contact"),
            ("d", "delete"),
            ("g g", "top"),
            ("G", "bottom"),
            ("q", "quit"),
        ],
        (View::Clients, Focus::Right) => vec![
            ("n", "new"),
            ("e", "edit"),
            ("d", "delete"),
            ("/", "search"),
            ("q", "quit"),
        ],
        (View::Projects, Focus::Left) => vec![
            ("j k", "move"),
            ("n", "new"),
            ("e", "edit"),
            ("l", "log"),
            ("d", "delete"),
            ("g g", "top"),
            ("G", "bottom"),
            ("/", "search"),
            ("q", "quit"),
        ],
        (View::Projects, Focus::Right) => vec![("/", "search"), ("q", "quit")],
    };
    assert(hints_view(r@) =~= normal_hint_list(view, focus));
    r
}

/// The key hints of the command bar in mode `m` (Normal mode: those of the view
/// and pane; Command mode shows the typed command instead).
pub open spec fn mode_hint_list(m: Mode, view: View, focus: Focus) -> Seq<(Seq<char>, Seq<char>)> {
    match m {
        Mode::Normal => normal_hint_list(view, focus),
        Mode::Search(_) => seq![("j k"@, "move"@), ("Enter"@, "jump"@), ("Esc"@, "cancel"@)],
        Mode::Command(_) => Seq::empty(),
        Mode::ConfirmDelete { .. } => seq![("y"@, "confirm"@), ("n"@, "cancel"@)],
        Mode::ViewContacts | Mode::ViewHours { .. } => seq![
            ("j k"@, "move"@),
            (if m is ViewHours { "a"@ } else { "n"@ }, if m is ViewHours { "add"@ } else { "new"@ }),
            ("e"@, "edit"@),
            ("d"@, "delete"@),
            ("Esc"@, "back"@),
        ],
        Mode::AddHours { .. } => seq![("Enter"@, "save hours"@), ("Esc"@, "cancel"@)],
        Mode::EditHours { .. } => seq![("Enter"@, "save"@), ("Esc"@, "cancel"@)],
        Mode::RepairProject { .. } => seq![("← →"@, "cycle"@), ("Enter"@, "save"@), ("Esc"@, "cancel"@)],
        Mode::NewClient(_) | Mode::NewProject(_) | Mode::NewContact(_) => seq![
            ("Tab"@, "next field"@),
            ("Ctrl+s"@, "save"@),
            ("Esc"@, "cancel"@),
        ],
    }
}

/// The key hints of the command bar for the state of `app`.
pub fn mode_hints(app: &App) -> (r: Vec<(&'static str, &'static str)>)
    ensures
        hints_view(r@) == mode_hint_list(app.mode, app.active_view, app.focus),
{
    let r: Vec<(&'static str, &'static str)> = match &app.mode {
        Mode::Normal => return normal_hints(app.active_view, app.focus),
        Mode::Search(_) => vec![("j k", "move"), ("Enter", "jump"), ("Esc", "cancel")],
        Mode::Command(_) => Vec::new(),
        Mode::ConfirmDelete { .. } => vec![("y", "confirm"), ("n", "cancel")],
        Mode::ViewContacts => vec![
            ("j k", "move"),
            ("n", "new"),
            ("e", "edit"),
            ("d", "delete"),
            ("Esc", "back"),
        ],
        Mode::ViewHours { .. } => vec![
            ("j k", "move"),
            ("a", "add"),
            ("e", "edit"),
            ("d", "delete"),
            ("Esc", "back"),
        ],
        Mode::AddHours { .. } => vec![("Enter", "save hours"), ("Esc", "cancel")],
        Mode::EditHours { .. } => vec![("Enter", "save"), ("Esc", "cancel")],
        Mode::RepairProject { .. } => vec![("← →", "cycle"), ("Enter", "save"), ("Esc", "cancel")],
        Mode::NewClient(_) | Mode::NewProject(_) | Mode::NewContact(_) => vec![
            ("Tab", "next field"),
            ("Ctrl+s", "save"),
            ("Esc", "cancel"),
        ],
    };
    assert(hints_view(r@) =~= mode_hint_list(app.mode, app.active_view, app.focus));
    r
}

// ── Pop-ups ──────────────────────────────────────────────────────────────────

/// A rectangle of terminal cells.
#[derive(Debug, Clone, Copy, PartialEq, Eq, Structural)]
pub struct Area {
    pub x: u16,
    pub y: u16,
    pub width: u16,
    pub height: u16,
}

/// `a - b`, or 0 when `b` is larger (`saturating_sub`).
pub open spec fn minus(a: int, b: int) -> int {
    if a > b { a - b } else { 0 }
}

/// The smaller of two numbers.
pub open spec fn least(a: int, b: int) -> int {
    if a < b { a } else { b }
}

/// The larger of two numbers.
pub open spec fn most(a: int, b: int) -> int {
    if a > b { a } else { b }
}

/// Where the search pop-up goes in `area` with `n` results: below the top bar,
/// centred, up to 74 wide and tall enough for up to 14 results.
pub open spec fn search_popup_spec(area: Area, n: nat) -> Area {
    let h = least(most(least(n as int, 14) + 6, 8), minus(area.height as int, 4));
    let w = least(74, minus(area.width as int, 4));
    Area {
        x: (area.x + minus(area.width as int, w) / 2) as u16,
        y: least(area.y + 3, minus(area.height as int, h)) as u16,
        width: w as u16,
        height: h as u16,
    }
}

/// Where the search pop-up goes in `area` when there are `n` results.
pub fn search_popup(area: Area, n: usize) -> (r: Area)
    requires
        area.x + area.width <= u16::MAX,
        area.y + 3 <= u16::MAX,
    ensures
        r == search_popup_spec(area, n as nat),
{
    let shown: u16 = if n < 14 { n as u16 } else { 14 };
    let tall: u16 = if shown + 6 > 8 { shown + 6 } else { 8 };
    let room = area.height.saturating_sub(4);
    let h: u16 = if tall < room { tall } else { room };
    let room_w = area.width.saturating_sub(4);
    let w: u16 = if 74 < room_w { 74 } else { room_w };
    let x = area.x + area.width.saturating_sub(w) / 2;
    let top = area.y + 3;
    let low = area.height.saturating_sub(h);
    let y = if top < low { top } else { low };
    Area { x, y, width: w, height: h }
}

/// A pop-up of `w` by `h` cells centred in `area`.
pub open spec fn centred_spec(area: Area, w: int, h: int) -> Area {
    Area {
        x: (area.x + minus(area.width as int, w) / 2) as u16,
        y: (area.y + minus(area.height as int, h) / 2) as u16,
        width: w as u16,
        height: h as u16,
    }
}

/// Where the repair pop-up goes: centred, 9 rows (10 with an error), up to 60 wide.
pub fn repair_popup(area: Area, has_error: bool) -> (r: Area)
    requires
        area.x + area.width <= u16::MAX,
        area.y + area.height <= u16::MAX,
    ensures
        r == centred_spec(
            area,
            least(60, minus(area.width as int, 4)),
            if has_error { 10 } else { 9 },
        ),
{
    let h: u16 = if has_error { 10 } else { 9 };
    let room_w = area.width.saturating_sub(4);
    let w: u16 = if 60 < room_w { 60 } else { room_w };
    Area {
        x: area.x + area.width.saturating_sub(w) / 2,
        y: area.y + area.height.saturating_sub(h) / 2,
        width: w,
        height: h,
    }
}

/// Where an hour pop-up of `w` by `h` cells goes: centred, cut to `area`.
pub fn hours_popup(area: Area, w: u16, h: u16) -> (r: Area)
    requires
        area.x + area.width <= u16::MAX,
        area.y + area.height <= u16::MAX,
    ensures
        r == (Area {
            x: (area.x + minus(area.width as int, w as int) / 2) as u16,
            y: (area.y + minus(area.height as int, h as int) / 2) as u16,
            width: least(w as int, area.width as int) as u16,
            height: least(h as int, area.height as int) as u16,
        }),
{
    Area {
        x: area.x + area.width.saturating_sub(w) / 2,
        y: area.y + area.height.saturating_sub(h) / 2,
        width: if w < area.width { w } else { area.width },
        height: if h < area.height { h } else { area.height },
    }
}

/// `area` inside a border, with `side` columns kept free left and right.
pub fn inner_area(area: Area, side: u16) -> (r: Area)
    requires
        area.x + side <= u16::MAX,
        area.y + 1 <= u16::MAX,
        side <= 2,
    ensures
        r == (Area {
            x: (area.x + side) as u16,
            y: (area.y + 1) as u16,
            width: minus(area.width as int, 2 * side) as u16,
            height: minus(area.height as int, 2) as u16,
        }),
{
    Area {
        x: area.x + side,
        y: area.y + 1,
        width: area.width.saturating_sub(2 * side),
        height: area.height.saturating_sub(2),
    }
}

/// What the empty search list says: a prompt before anything is typed.
pub fn search_placeholder(query: &str) -> (r: &'static str)
    ensures
        r@ == (if query@.len() == 0 {
            "  type to search across clients and projects"@
        } else {
            "  no results"@
        }),
{
    if query.unicode_len() == 0 {
        "  type to search across clients and projects"
    } else {
        "  no results"
    }
}

// ── Dashboard ────────────────────────────────────────────────────────────────

/// The notes under the client, project and attention counters.
pub open spec fn stat_notes_spec(s: Stats) -> (Seq<char>, Seq<char>, Seq<char>) {
    (
        if s.clients_this_quarter > 0 {
            "+"@ + int_text(s.clients_this_quarter as int) + " this quarter"@
        } else {
            Seq::empty()
        },
        if s.total_projects > 0 {
            "of "@ + int_text(s.total_projects as int) + " total"@
        } else {
            Seq::empty()
        },
        if s.attention_count > 0 { "need follow-up"@ } else { Seq::empty() },
    )
}

/// The notes under the client, project and attention counters of the dashboard.
pub fn stat_notes(s: &Stats) -> (r: (String, String, String))
    ensures
        (r.0@, r.1@, r.2@) == stat_notes_spec(*s),
{
    let clients = if s.clients_this_quarter > 0 {
        let mut t = owned("+");
        t.append(u64_text(s.clients_this_quarter as u64).as_str());
        t.append(" this quarter");
        t
    } else {
        String::new()
    };
    let projects = if s.total_projects > 0 {
        let mut t = owned("of ");
        t.append(u64_text(s.total_projects as u64).as_str());
        t.append(" total");
        t
    } else {
        String::new()
    };
    let attention = if s.attention_count > 0 { owned("need follow-up") } else { String::new() };
    (clients, projects, attention)
}

/// `"  N entry"` or `"  N entries"`.
pub fn entries_label(n: usize) -> (r: String)
    ensures
        r@ == "  "@ + int_text(n as int) + " entr"@ + (if n == 1 { "y"@ } else { "ies"@ }),
{
    let mut t = owned("  ");
    t.append(u64_text(n as u64).as_str());
    t.append(" entr");
    if n == 1 {
        t.append("y");
    } else {
        t.append("ies");
    }
    t
}

/// The date of an hour entry: the first ten bytes of its time, or all of a
/// shorter time.
pub fn entry_date(at: &str) -> (r: &str)
    requires
        utf8_bytes(at@).len() >= 10 ==> char_boundary(at@, 10),
    ensures
        r@ == (if utf8_bytes(at@).len() >= 10 { byte_prefix(at@, 10) } else { at@ }),
{
    if byte_len(at) >= 10 {
        prefix_bytes(at, 10)
    } else {
        at
    }
}

// ── Form fields ──────────────────────────────────────────────────────────────

/// `s` padded with spaces to at least `w` characters (`{:<w}`).
pub open spec fn pad_right(s: Seq<char>, w: nat) -> Seq<char> {
    if s.len() < w { s + spaces((w - s.len()) as nat) } else { s }
}

/// Pads `s` with spaces to at least `w` characters.
pub fn padded(s: &str, w: usize) -> (r: String)
    ensures
        r@ == pad_right(s@, w as nat),
{
    let mut out = owned(s);
    let start = s.unicode_len();
    let target = if start < w { w } else { start };
    let mut k = start;
    while k < target
        invariant
            start == s@.len(),
            start <= k <= target,
            out@ == s@ + spaces((k - start) as nat),
        decreases target - k,
    {
        push_char(&mut out, ' ');
        k = k + 1;
        assert(out@ =~= s@ + spaces((k - start) as nat));
    }
    assert(out@ =~= pad_right(s@, w as nat));
    out
}

/// The text of a form field `w` characters wide: the end of the value (with a
/// cursor block when focused), padded.
pub open spec fn field_cell_spec(value: Seq<char>, focused: bool, w: nat) -> Seq<char> {
    pad_right(tail(if focused { value.push('█') } else { value }, w), w)
}

/// Lays out a form field's value in `w` characters.
pub fn field_cell(value: &str, focused: bool, w: usize) -> (r: String)
    ensures
        r@ == field_cell_spec(value@, focused, w as nat),
{
    let mut v = owned(value);
    if focused {
        push_char(&mut v, '█');
    }
    let t = tail_chars(v.as_str(), w);
    padded(t.as_str(), w)
}

/// The client field while it has the focus: the end of what was typed that fits
/// with the cursor, then as much of the completion as fits, then padding to `w`.
pub open spec fn completion_spec(typed: Seq<char>, ghost: Seq<char>, w: nat) -> (Seq<char>, Seq<char>, Seq<char>) {
    let shown = least(minus(w as int, 1), typed.len() as int);
    let budget = minus(w as int, shown + 1);
    let g = if ghost.len() <= budget { ghost } else { ghost.take(budget) };
    (typed.skip(typed.len() - shown), g, spaces(minus(w as int, shown + 1 + g.len()) as nat))
}

/// Splits the focused client field into the visible typed text, the visible
/// completion and the padding.
pub fn completion_view(typed: &str, ghost: &str, w: usize) -> (r: (String, String, String))
    ensures
        (r.0@, r.1@, r.2@) == completion_spec(typed@, ghost@, w as nat),
{
    let tv = chars_of(typed);
    let gv = chars_of(ghost);
    let room = if w > 0 { w - 1 } else { 0 };
    let shown = if room < tv.len() { room } else { tv.len() };
    let budget = if w > shown + 1 { w - (shown + 1) } else { 0 };
    let g_len = if gv.len() <= budget { gv.len() } else { budget };
    let visible_typed = string_of_range(&tv, tv.len() - shown, tv.len());
    let visible_ghost = string_of_range(&gv, 0, g_len);
    let used = shown + 1 + g_len;
    let mut pad = String::new();
    let target = if used < w { w } else { used };
    let mut k = used;
    while k < target
        invariant
            used <= k <= target,
            pad@ == spaces((k - used) as nat),
        decreases target - k,
    {
        push_char(&mut pad, ' ');
        k = k + 1;
        assert(pad@ =~= spaces((k - used) as nat));
    }
    assert(visible_typed@ =~= typed@.skip(typed@.len() - shown));
    assert(visible_ghost@ =~= (if ghost@.len() <= budget { ghost@ } else { ghost@.take(budget as int) }));
    assert(pad@ =~= spaces(minus(w as int, used as int) as nat));
    (visible_typed, visible_ghost, pad)
}

/// A choice field (status): arrows around the value when focused.
pub fn choice_cell(value: &str, focused: bool) -> (r: String)
    ensures
        r@ == (if focused { "◀ "@ + value@ + " ▶"@ } else { "  "@ + value@ + "  "@ }),
{
    let mut t = owned(if focused { "◀ " } else { "  " });
    t.append(value);
    t.append(if focused { " ▶" } else { "  " });
    t
}

// ── Network graph ────────────────────────────────────────────────────────────

/// One row of the dashboard's network graph.
#[derive(Debug)]
pub enum GraphRow {
    /// The `≋ rhizome` heading.
    Title,
    /// A lone `│` between clients.
    Stem,
    /// A client without live projects.
    Client { prefix: &'static str, name: String },
    /// A client with its first live project on the same row.
    ClientProject {
        prefix: &'static str,
        client: String,
        link: &'static str,
        project: String,
        status: ProjectStatus,
    },
    /// A further live project of the client above.
    Branch { lead: String, project: String, status: ProjectStatus },
}

/// What a graph row says, as text.
pub enum GraphLine {
    Title,
    Stem,
    Client { prefix: Seq<char>, name: Seq<char> },
    ClientProject {
        prefix: Seq<char>,
        client: Seq<char>,
        link: Seq<char>,
        project: Seq<char>,
        status: ProjectStatus,
    },
    Branch { lead: Seq<char>, project: Seq<char>, status: ProjectStatus },
}

pub open spec fn graph_line(r: GraphRow) -> GraphLine {
    match r {
        GraphRow::Title => GraphLine::Title,
        GraphRow::Stem => GraphLine::Stem,
        GraphRow::Client { prefix, name } => GraphLine::Client { prefix: prefix@, name: name@ },
        GraphRow::ClientProject { prefix, client, link, project, status } => GraphLine::ClientProject {
            prefix: prefix@,
            client: client@,
            link: link@,
            project: project@,
            status,
        },
        GraphRow::Branch { lead, project, status } => GraphLine::Branch {
            lead: lead@,
            project: project@,
            status,
        },
    }
}

pub open spec fn graph_lines(rs: Seq<GraphRow>) -> Seq<GraphLine> {
    rs.map_values(|r: GraphRow| graph_line(r))
}

/// The projects of client `id` that are not archived, in list order.
pub open spec fn live_of(ps: Seq<Project>, id: Seq<char>) -> Seq<Project> {
    ps.filter(|p: Project| p.client_id@ == id && p.status != ProjectStatus::Archived)
}

/// The rows of one client: the client (with its first live project), one row
/// per further live project, and a stem unless it is the last client.
pub open spec fn client_rows(c: Client, live: Seq<Project>, last: bool) -> Seq<GraphLine> {
    client_body(c, live, last) + (if last { Seq::empty() } else { seq![GraphLine::Stem] })
}

/// The rows of one client without the stem that follows it.
pub open spec fn client_body(c: Client, live: Seq<Project>, last: bool) -> Seq<GraphLine> {
    let prefix = if last { "└── "@ } else { "├── "@ };
    let cont = if last { "    "@ } else { "│   "@ };
    let n = live.len();
    let body = if n == 0 {
        seq![GraphLine::Client { prefix, name: c.name@ }]
    } else {
        seq![
            GraphLine::ClientProject {
                prefix,
                client: column(c.name@, 22),
                link: if n == 1 { "──── "@ } else { "────┬── "@ },
                project: column(live[0].name@, 12),
                status: live[0].status,
            },
        ] + Seq::new(
            (n - 1) as nat,
            |j: int|
                GraphLine::Branch {
                    lead: cont + "            "@ + (if j == n - 2 { "└── "@ } else { "├── "@ }),
                    project: column(live[j + 1].name@, 12),
                    status: live[j + 1].status,
                },
        )
    };
    body
}

/// The rows of the first `k` clients.
pub open spec fn rows_upto(cs: Seq<Client>, ps: Seq<Project>, k: nat) -> Seq<GraphLine>
    decreases k,
{
    if k == 0 || k > cs.len() {
        Seq::empty()
    } else {
        rows_upto(cs, ps, (k - 1) as nat) + client_rows(
            cs[k - 1],
            live_of(ps, cs[k - 1].id@),
            k == cs.len(),
        )
    }
}

/// The network graph: heading, stem, then every client's rows.
pub open spec fn graph_spec(cs: Seq<Client>, ps: Seq<Project>) -> Seq<GraphLine> {
    seq![GraphLine::Title, GraphLine::Stem] + rows_upto(cs, ps, cs.len())
}

fn live_projects_of<'a>(projects: &'a Vec<Project>, id: &str) -> (r: Vec<&'a Project>)
    ensures
        r@.map_values(|p: &Project| *p) == live_of(projects@, id@),
{
    let ghost pred = |p: Project| p.client_id@ == id@ && p.status != ProjectStatus::Archived;
    let mut r: Vec<&Project> = Vec::new();
    let mut i: usize = 0;
    while i < projects.len()
        invariant
            i <= projects@.len(),
            pred == (|p: Project| p.client_id@ == id@ && p.status != ProjectStatus::Archived),
            r@.map_values(|p: &Project| *p) == projects@.take(i as int).filter(pred),
        decreases projects.len() - i,
    {
        proof {
            reveal_with_fuel(Seq::<_>::filter, 1);
            assert(projects@.take(i + 1).drop_last() =~= projects@.take(i as int));
        }
        let p = &projects[i];
        let archived = match p.status {
            ProjectStatus::Archived => true,
            _ => false,
        };
        if str_eq(p.client_id.as_str(), id) && !archived {
            let ghost before = r@;
            r.push(p);
            assert(r@.map_values(|q: &Project| *q) =~= before.map_values(|q: &Project| *q).push(*p));
        }
        i = i + 1;
    }
    assert(projects@.take(i as int) =~= projects@);
    r
}

fn push_client_rows(rows: &mut Vec<GraphRow>, c: &Client, live: &Vec<&Project>, last: bool)
    ensures
        graph_lines(final(rows)@) == graph_lines(old(rows)@) + client_rows(
            *c,
            live@.map_values(|p: &Project| *p),
            last,
        ),
{
    let ghost lv = live@.map_values(|p: &Project| *p);
    let ghost start = graph_lines(rows@);
    let prefix: &'static str = if last { "└── " } else { "├── " };
    let cont: &'static str = if last { "    " } else { "│   " };
    let n = live.len();
    assert(lv.len() == n);
    if n == 0 {
        rows.push(GraphRow::Client { prefix, name: copy_string(&c.name) });
        assert(graph_lines(rows@) =~= start + client_body(*c, lv, last));
    } else {
        let p0 = live[0];
        rows.push(
            GraphRow::ClientProject {
                prefix,
                client: col(c.name.as_str(), 22),
                link: if n == 1 { "──── " } else { "────┬── " },
                project: col(p0.name.as_str(), 12),
                status: p0.status,
            },
        );
        let mut j: usize = 1;
        while j < n
            invariant
                1 <= j <= n,
                n == live@.len(),
                lv == live@.map_values(|p: &Project| *p),
                graph_lines(rows@) == start + seq![
                    GraphLine::ClientProject {
                        prefix: prefix@,
                        client: column(c.name@, 22),
                        link: if n == 1 { "──── "@ } else { "────┬── "@ },
                        project: column(lv[0].name@, 12),
                        status: lv[0].status,
                    },
                ] + Seq::new(
                    (j - 1) as nat,
                    |k: int|
                        GraphLine::Branch {
                            lead: cont@ + "            "@ + (if k == n - 2 { "└── "@ } else { "├── "@ }),
                            project: column(lv[k + 1].name@, 12),
                            status: lv[k + 1].status,
                        },
                ),
            decreases n - j,
        {
            let p = live[j];
            let mut lead = owned(cont);
            lead.append("            ");
            lead.append(if j == n - 1 { "└── " } else { "├── " });
            let ghost before = rows@;
            let row = GraphRow::Branch { lead, project: col(p.name.as_str(), 12), status: p.status };
            rows.push(row);
            assert(graph_lines(rows@) =~= graph_lines(before).push(graph_line(row)));
            j = j + 1;
        }
        assert(graph_lines(rows@) =~= start + client_body(*c, lv, last));
    }
    let ghost mid = graph_lines(rows@);
    if !last {
        rows.push(GraphRow::Stem);
    }
    assert(graph_lines(rows@) =~= mid + (if last { Seq::empty() } else { seq![GraphLine::Stem] }));
    assert(graph_lines(rows@) =~= start + client_rows(*c, lv, last));
}

/// The rows of the dashboard's network graph of `clients` and their live
/// projects.
pub fn graph_rows(clients: &Vec<Client>, projects: &Vec<Project>) -> (r: Vec<GraphRow>)
    ensures
        graph_lines(r@) == graph_spec(clients@, projects@),
{
    let mut rows: Vec<GraphRow> = Vec::new();
    rows.push(GraphRow::Title);
    rows.push(GraphRow::Stem);
    let n = clients.len();
    let mut i: usize = 0;
    assert(graph_lines(rows@) =~= seq![GraphLine::Title, GraphLine::Stem] + rows_upto(clients@, projects@, 0));
    while i < n
        invariant
            i <= n,
            n == clients@.len(),
            graph_lines(rows@) == seq![GraphLine::Title, GraphLine::Stem] + rows_upto(
                clients@,
                projects@,
                i as nat,
            ),
        decreases n - i,
    {
        let c = &clients[i];
        let live = live_projects_of(projects, c.id.as_str());
        push_client_rows(&mut rows, c, &live, i == n - 1);
        i = i + 1;
        assert(graph_lines(rows@) =~= seq![GraphLine::Title, GraphLine::Stem] + rows_upto(
            clients@,
            projects@,
            i as nat,
        ));
    }
    rows
}

// ── Next up ──────────────────────────────────────────────────────────────────

/// The open milestones of a project that is neither archived nor a lead, as
/// (`project · milestone`, due date) texts.
pub open spec fn open_items(p: Project) -> Seq<(Seq<char>, Seq<char>)> {
    if p.status == ProjectStatus::Archived || p.status == ProjectStatus::Lead {
        Seq::empty()
    } else {
        p.milestones@.filter(|m: Milestone| m.done_at is None).map_values(
            |m: Milestone| (p.name@ + " · "@ + m.title@, opt_or_empty(m.due_at)),
        )
    }
}

/// The open milestones of the first `k` projects, in order.
pub open spec fn items_upto(ps: Seq<Project>, k: nat) -> Seq<(Seq<char>, Seq<char>)>
    decreases k,
{
    if k == 0 || k > ps.len() {
        Seq::empty()
    } else {
        items_upto(ps, (k - 1) as nat) + open_items(ps[k - 1])
    }
}

/// The first four open milestones over all projects, for the dashboard.
pub open spec fn next_up_spec(ps: Seq<Project>) -> Seq<(Seq<char>, Seq<char>)> {
    first_n(items_upto(ps, ps.len()), 4)
}

pub open spec fn pairs_view(v: Seq<(String, String)>) -> Seq<(Seq<char>, Seq<char>)> {
    v.map_values(|x: (String, String)| (x.0@, x.1@))
}

/// The (at most four) open milestones the dashboard lists under "next · up".
pub fn next_up(projects: &Vec<Project>) -> (r: Vec<(String, String)>)
    ensures
        pairs_view(r@) == next_up_spec(projects@),
{
    let mut r: Vec<(String, String)> = Vec::new();
    let mut i: usize = 0;
    while i < projects.len()
        invariant
            i <= projects@.len(),
            pairs_view(r@) == first_n(items_upto(projects@, i as nat), 4),
        decreases projects.len() - i,
    {
        let p = &projects[i];
        let ghost before = items_upto(projects@, i as nat);
        let skip = match p.status {
            ProjectStatus::Archived | ProjectStatus::Lead => true,
            _ => false,
        };
        if !skip {
            let ghost pred = |m: Milestone| m.done_at is None;
            let ghost f = |m: Milestone| (p.name@ + " · "@ + m.title@, opt_or_empty(m.due_at));
            let mut j: usize = 0;
            while j < p.milestones.len()
                invariant
                    j <= p.milestones@.len(),
                    pred == (|m: Milestone| m.done_at is None),
                    f == (|m: Milestone| (p.name@ + " · "@ + m.title@, opt_or_empty(m.due_at))),
                    pairs_view(r@) == first_n(
                        before + p.milestones@.take(j as int).filter(pred).map_values(f),
                        4,
                    ),
                decreases p.milestones.len() - j,
            {
                proof {
                    reveal_with_fuel(Seq::<_>::filter, 1);
                    assert(p.milestones@.take(j + 1).drop_last() =~= p.milestones@.take(j as int));
                }
                let ghost s0 = before + p.milestones@.take(j as int).filter(pred).map_values(f);
                let m = &p.milestones[j];
                if !m.is_done() {
                    let ghost s1 = before + p.milestones@.take(j + 1).filter(pred).map_values(f);
                    assert(p.milestones@.take(j + 1).filter(pred) =~= p.milestones@.take(
                        j as int,
                    ).filter(pred).push(*m));
                    assert(s1 =~= s0.push(f(*m)));
                    if r.len() < 4 {
                        let mut label = copy_string(&p.name);
                        label.append(" · ");
                        label.append(m.title.as_str());
                        let item = (label, opt_or_default(&m.due_at));
                        let ghost old_r = r@;
                        r.push(item);
                        assert(pairs_view(r@) =~= pairs_view(old_r).push((item.0@, item.1@)));
                        assert(first_n(s1, 4) =~= first_n(s0, 4).push(f(*m)));
                    } else {
                        assert(first_n(s1, 4) =~= first_n(s0, 4));
                    }
                } else {
                    assert(p.milestones@.take(j + 1).filter(pred) =~= p.milestones@.take(
                        j as int,
                    ).filter(pred));
                }
                j = j + 1;
            }
            assert(p.milestones@.take(j as int) =~= p.milestones@);
            assert(items_upto(projects@, (i + 1) as nat) =~= before + open_items(*p));
        } else {
            assert(items_upto(projects@, (i + 1) as nat) =~= before);
        }
        i = i + 1;
    }
    r
}

// ── Milestones ───────────────────────────────────────────────────────────────

/// The `ord` of each milestone.
pub open spec fn ords(ms: Seq<Milestone>) -> Seq<i64> {
    ms.map_values(|m: Milestone| m.ord)
}

/// `p` lists the milestones by ascending `ord`, equal `ord`s keeping their order.
pub open spec fn is_ord_order(keys: Seq<i64>, p: Seq<usize>) -> bool {
    &&& is_permutation(p, keys.len())
    &&& forall|i: int, j: int| 0 <= i < j < p.len() ==> keys[p[i] as int] <= keys[p[j] as int]
    &&& forall|i: int, j: int|
        0 <= i < j < p.len() && keys[p[i] as int] == keys[p[j] as int] ==> p[i] < p[j]
}

/// The order in which a project's milestones are listed: by `ord`, ties in list
/// order.
pub fn milestone_order(ms: &Vec<Milestone>) -> (p: Vec<usize>)
    ensures
        is_ord_order(ords(ms@), p@),
{
    let ghost ks = ords(ms@);
    let n = ms.len();
    let mut order: Vec<usize> = Vec::new();
    let mut k = n;
    while k > 0
        invariant
            n == ms@.len() == ks.len(),
            ks == ords(ms@),
            k <= n,
            order@.len() == n - k,
            forall|i: int| 0 <= i < order@.len() ==> k <= #[trigger] order@[i] < n,
            forall|i: int, j: int| 0 <= i < j < order@.len() ==> order@[i] != order@[j],
            forall|i: int, j: int|
                0 <= i < j < order@.len() ==> ks[order@[i] as int] <= ks[order@[j] as int],
            forall|i: int, j: int|
                0 <= i < j < order@.len() && ks[order@[i] as int] == ks[order@[j] as int]
                    ==> order@[i] < order@[j],
        decreases k,
    {
        k = k - 1;
        let mut p: usize = 0;
        while p < order.len() && ms[order[p]].ord < ms[k].ord
            invariant
                n == ms@.len() == ks.len(),
                ks == ords(ms@),
                k < n,
                p <= order@.len(),
                forall|i: int| 0 <= i < order@.len() ==> k < #[trigger] order@[i] < n,
                forall|i: int| 0 <= i < p ==> ks[order@[i] as int] < ks[k as int],
            decreases order.len() - p,
        {
            p = p + 1;
        }
        let ghost old_order = order@;
        proof {
            if p < old_order.len() {
                assert(ks[old_order[p as int] as int] >= ks[k as int]);
            }
        }
        order.insert(p, k);
        proof {
            let o = order@;
            assert(o =~= old_order.insert(p as int, k));
            assert forall|i: int, j: int| 0 <= i < j < o.len() implies ks[o[i] as int] <= ks[o[j] as int] by {
                if i == p {
                    assert(o[j] == old_order[j - 1]);
                    assert(ks[old_order[p as int] as int] <= ks[old_order[j - 1] as int] || j - 1 == p);
                } else if j == p {
                    assert(o[i] == old_order[i]);
                } else if i < p && j < p {
                    assert(o[i] == old_order[i] && o[j] == old_order[j]);
                } else if i < p {
                    assert(o[i] == old_order[i] && o[j] == old_order[j - 1]);
                } else {
                    assert(o[i] == old_order[i - 1] && o[j] == old_order[j - 1]);
                }
            }
            assert forall|i: int, j: int|
                0 <= i < j < o.len() && ks[o[i] as int] == ks[o[j] as int] implies o[i] < o[j] by {
                if i == p {
                    assert(o[j] == old_order[j - 1]);
                } else if j == p {
                    assert(o[i] == old_order[i]);
                } else if i < p && j < p {
                    assert(o[i] == old_order[i] && o[j] == old_order[j]);
                } else if i < p {
                    assert(o[i] == old_order[i] && o[j] == old_order[j - 1]);
                } else {
                    assert(o[i] == old_order[i - 1] && o[j] == old_order[j - 1]);
                }
            }
            assert forall|i: int, j: int| 0 <= i < j < o.len() implies o[i] != o[j] by {
                if i == p {
                    assert(o[j] == old_order[j - 1]);
                } else if j == p {
                    assert(o[i] == old_order[i]);
                } else if i < p && j < p {
                    assert(o[i] == old_order[i] && o[j] == old_order[j]);
                } else if i < p {
                    assert(o[i] == old_order[i] && o[j] == old_order[j - 1]);
                } else {
                    assert(o[i] == old_order[i - 1] && o[j] == old_order[j - 1]);
                }
            }
            assert forall|i: int| 0 <= i < o.len() implies k <= #[trigger] o[i] < n by {
                if i < p {
                    assert(o[i] == old_order[i]);
                } else if i > p {
                    assert(o[i] == old_order[i - 1]);
                }
            }
        }
    }
    order
}

/// Milestone `i` is the one being worked on: not done, and no milestone listed
/// before it (smaller `ord`) is done either.
pub open spec fn is_current_milestone(ms: Seq<Milestone>, i: int) -> bool {
    &&& ms[i].done_at is None
    &&& forall|j: int| 0 <= j < ms.len() && ms[j].ord < ms[i].ord ==> (#[trigger] ms[j]).done_at is None
}

/// Whether milestone `i` is the one being worked on.
pub fn milestone_is_current(ms: &Vec<Milestone>, i: usize) -> (b: bool)
    requires
        i < ms@.len(),
    ensures
        b == is_current_milestone(ms@, i as int),
{
    if ms[i].done_at.is_some() {
        return false;
    }
    let mut j: usize = 0;
    while j < ms.len()
        invariant
            i < ms@.len(),
            j <= ms@.len(),
            forall|k: int| 0 <= k < j && ms@[k].ord < ms@[i as int].ord ==> (#[trigger] ms@[k]).done_at is None,
        decreases ms.len() - j,
    {
        if ms[j].ord < ms[i].ord && ms[j].done_at.is_some() {
            return false;
        }
        j = j + 1;
    }
    true
}

} // verus!
