//! The records the CRM keeps: clients, projects, milestones, activity entries and
//! contact moments, with their display helpers.
use vstd::prelude::*;
use crate::screen::{status_color, status_tone, Tone};
use crate::dates::{DayInfo, parse_ymd, today};
use crate::text::{
    byte_len, byte_prefix, chars_of, char_boundary, i64_text, int_text, prefix_bytes, utf8_bytes, opt_or_default, opt_or_empty, owned, push_char, str_eq,
};

verus! {

// ── ProjectStatus ────────────────────────────────────────────────────────────

/// Where a project stands.
#[derive(Debug, Clone, Copy, PartialEq, Eq, Structural)]
pub enum ProjectStatus {
    Lead,
    Pending,
    Active,
    Running,
    Blocked,
    Archived,
}

/// The lower-case name of a status, as it is stored and shown.
pub open spec fn status_name(s: ProjectStatus) -> Seq<char> {
    match s {
        ProjectStatus::Lead => "lead"@,
        ProjectStatus::Pending => "pending"@,
        ProjectStatus::Active => "active"@,
        ProjectStatus::Running => "running"@,
        ProjectStatus::Blocked => "blocked"@,
        ProjectStatus::Archived => "archived"@,
    }
}

/// The status a name stands for; any unknown name reads as `Pending`.
pub open spec fn status_from(s: Seq<char>) -> ProjectStatus {
    if s == "lead"@ {
        ProjectStatus::Lead
    } else if s == "active"@ {
        ProjectStatus::Active
    } else if s == "running"@ {
        ProjectStatus::Running
    } else if s == "blocked"@ {
        ProjectStatus::Blocked
    } else if s == "archived"@ {
        ProjectStatus::Archived
    } else {
        ProjectStatus::Pending
    }
}

/// All statuses in their cycling order.
pub open spec fn status_seq() -> Seq<ProjectStatus> {
    seq![
        ProjectStatus::Lead,
        ProjectStatus::Pending,
        ProjectStatus::Active,
        ProjectStatus::Running,
        ProjectStatus::Blocked,
        ProjectStatus::Archived,
    ]
}

/// The position of a status in `status_seq`.
pub open spec fn status_index(s: ProjectStatus) -> nat {
    match s {
        ProjectStatus::Lead => 0,
        ProjectStatus::Pending => 1,
        ProjectStatus::Active => 2,
        ProjectStatus::Running => 3,
        ProjectStatus::Blocked => 4,
        ProjectStatus::Archived => 5,
    }
}

impl ProjectStatus {
    /// The status's lower-case name.
    pub fn as_str(self) -> (r: &'static str)
        ensures
            r@ == status_name(self),
    {
        match self {
            ProjectStatus::Lead => "lead",
            ProjectStatus::Pending => "pending",
            ProjectStatus::Active => "active",
            ProjectStatus::Running => "running",
            ProjectStatus::Blocked => "blocked",
            ProjectStatus::Archived => "archived",
        }
    }

    /// The colour the status is shown in.
    pub fn color(self) -> (t: Tone)
        ensures
            t == status_tone(status_name(self)),
    {
        status_color(self.as_str())
    }

    /// The status that a name stands for (`Pending` for unknown names).
    pub fn from_name(s: &str) -> (r: ProjectStatus)
        ensures
            r == status_from(s@),
    {
        if str_eq(s, "lead") {
            ProjectStatus::Lead
        } else if str_eq(s, "active") {
            ProjectStatus::Active
        } else if str_eq(s, "running") {
            ProjectStatus::Running
        } else if str_eq(s, "blocked") {
            ProjectStatus::Blocked
        } else if str_eq(s, "archived") {
            ProjectStatus::Archived
        } else {
            ProjectStatus::Pending
        }
    }
}

impl<'a> From<&'a str> for ProjectStatus {
    fn from(s: &'a str) -> (r: ProjectStatus) {
        ProjectStatus::from_name(s)
    }
}

impl<'a> vstd::std_specs::convert::FromSpecImpl<&'a str> for ProjectStatus {
    open spec fn obeys_from_spec() -> bool {
        true
    }

    open spec fn from_spec(v: &'a str) -> ProjectStatus {
        status_from(v@)
    }
}

impl Default for ProjectStatus {
    fn default() -> (r: ProjectStatus)
        ensures
            r == ProjectStatus::Pending,
    {
        ProjectStatus::Pending
    }
}

/// The status at position `i` of the cycling order.
pub fn status_at(i: usize) -> (s: ProjectStatus)
    requires
        i < 6,
    ensures
        s == status_seq()[i as int],
        status_index(s) == i,
{
    if i == 0 {
        ProjectStatus::Lead
    } else if i == 1 {
        ProjectStatus::Pending
    } else if i == 2 {
        ProjectStatus::Active
    } else if i == 3 {
        ProjectStatus::Running
    } else if i == 4 {
        ProjectStatus::Blocked
    } else {
        ProjectStatus::Archived
    }
}

/// The position of a status in the cycling order.
pub fn status_position(s: ProjectStatus) -> (i: usize)
    ensures
        i == status_index(s),
        i < 6,
        status_seq()[i as int] == s,
{
    match s {
        ProjectStatus::Lead => 0,
        ProjectStatus::Pending => 1,
        ProjectStatus::Active => 2,
        ProjectStatus::Running => 3,
        ProjectStatus::Blocked => 4,
        ProjectStatus::Archived => 5,
    }
}

/// All statuses, in their cycling order.
pub fn project_statuses() -> (v: Vec<ProjectStatus>)
    ensures
        v@ == status_seq(),
{
    let v = vec![
        ProjectStatus::Lead,
        ProjectStatus::Pending,
        ProjectStatus::Active,
        ProjectStatus::Running,
        ProjectStatus::Blocked,
        ProjectStatus::Archived,
    ];
    assert(v@ =~= status_seq());
    v
}

/// Reading a status's name back gives the same status.
pub proof fn law_status_name_round_trip(s: ProjectStatus)
    ensures
        status_from(status_name(s)) == s,
{
    reveal_strlit("lead");
    reveal_strlit("pending");
    reveal_strlit("active");
    reveal_strlit("running");
    reveal_strlit("blocked");
    reveal_strlit("archived");
    assert("lead"@.len() == 4 && "active"@.len() == 6 && "running"@.len() == 7);
    assert("blocked"@.len() == 7 && "archived"@.len() == 8 && "pending"@.len() == 7);
    assert("running"@ != "blocked"@) by {
        assert("running"@[0] != "blocked"@[0]);
    }
    assert("pending"@ != "blocked"@) by {
        assert("pending"@[0] != "blocked"@[0]);
    }
    assert("pending"@ != "running"@) by {
        assert("pending"@[0] != "running"@[0]);
    }
}

/// Distinct statuses have distinct names.
pub proof fn law_status_names_distinct(a: ProjectStatus, b: ProjectStatus)
    requires
        a != b,
    ensures
        status_name(a) != status_name(b),
{
    law_status_name_round_trip(a);
    law_status_name_round_trip(b);
}

// ── Path type carried through unchanged ──────────────────────────────────────

#[verifier::external_type_specification]
#[verifier::external_body]
pub struct ExPathBuf(std::path::PathBuf);

/// `<PathBuf as Clone>::clone`; nothing is claimed of the copy, which the library
/// only carries along.
pub assume_specification[ <std::path::PathBuf as Clone>::clone ](p: &std::path::PathBuf) -> std::path::PathBuf;

/// A project file that does not read as a `Project` (for instance with an unknown
/// status), kept so that it can be shown and repaired.
#[derive(Debug, Clone)]
pub struct BrokenProject {
    pub path: std::path::PathBuf,
    pub name: String,
    pub id: String,
    pub client_id: String,
    pub bad_status: String,
    pub raw_toml: String,
}

// ── Client ───────────────────────────────────────────────────────────────────

/// A client record.
#[derive(Debug, Clone)]
pub struct Client {
    pub id: String,
    pub name: String,
    pub domain: Option<String>,
    pub city: Option<String>,
    pub country: Option<String>,
    pub primary_contact: Option<String>,
    pub primary_role: Option<String>,
    pub currency: String,
    pub default_rate_cents: Option<i64>,
    pub status: String,
    pub acct_code: Option<String>,
    pub created_at: String,
    pub updated_at: String,
}

/// The currency a client gets when none is given.
pub fn default_currency() -> (r: String)
    ensures
        r@ == "EUR"@,
{
    owned("EUR")
}

/// The status a client gets when none is given.
pub fn default_active() -> (r: String)
    ensures
        r@ == "active"@,
{
    owned("active")
}

/// Integer division rounding toward zero, as Rust's `/` on integers.
pub open spec fn trunc_div(a: int, b: int) -> int {
    if a >= 0 { a / b } else { -((-a) / b) }
}

/// `"€ <units> / h"` for a rate in cents, or the empty string.
pub open spec fn rate_text(cents: Option<i64>) -> Seq<char> {
    match cents {
        Some(c) => "€ "@ + int_text(trunc_div(c as int, 100)) + " / h"@,
        None => Seq::empty(),
    }
}

/// `"city · country"`, either part alone, or the empty string.
pub open spec fn location_text(city: Option<String>, country: Option<String>) -> Seq<char> {
    match (city, country) {
        (Some(c), Some(co)) => c@ + " · "@ + co@,
        (Some(c), None) => c@,
        (None, Some(co)) => co@,
        (None, None) => Seq::empty(),
    }
}

/// Writes a rate in cents as whole currency units per hour.
pub fn rate_string(cents: Option<i64>) -> (r: String)
    ensures
        r@ == rate_text(cents),
{
    match cents {
        Some(c) => {
            let units = c / 100;
            let mut s = owned("€ ");
            s.append(i64_text(units).as_str());
            s.append(" / h");
            s
        },
        None => String::new(),
    }
}

impl Client {
    /// Where the client is: `"city · country"`, either part alone, or nothing.
    pub fn location_str(&self) -> (r: String)
        ensures
            r@ == location_text(self.city, self.country),
    {
        match (&self.city, &self.country) {
            (Some(c), Some(co)) => {
                let mut s = c.clone();
                s.append(" · ");
                s.append(co.as_str());
                s
            },
            (Some(c), None) => c.clone(),
            (None, Some(co)) => co.clone(),
            (None, None) => String::new(),
        }
    }

    /// The colour of the client's status dot.
    pub fn health_color(&self) -> (t: Tone)
        ensures
            t == status_tone(self.status@),
    {
        status_color(self.status.as_str())
    }

    /// The default hourly rate, `"€ <units> / h"`, or nothing.
    pub fn rate_display(&self) -> (r: String)
        ensures
            r@ == rate_text(self.default_rate_cents),
    {
        rate_string(self.default_rate_cents)
    }
}

// ── Project ──────────────────────────────────────────────────────────────────

/// A project milestone.
#[derive(Debug, Clone)]
pub struct Milestone {
    pub id: String,
    pub title: String,
    pub done_at: Option<String>,
    pub due_at: Option<String>,
    pub ord: i64,
}

impl Milestone {
    /// A milestone is done once it has a completion time.
    pub fn is_done(&self) -> (b: bool)
        ensures
            b == self.done_at is Some,
    {
        self.done_at.is_some()
    }

    /// `"✓"` when done, `"·"` otherwise.
    pub fn symbol(&self) -> (r: &'static str)
        ensures
            r@ == (if self.done_at is Some { "✓"@ } else { "·"@ }),
    {
        if self.is_done() {
            "✓"
        } else {
            "·"
        }
    }

    /// The colour of the milestone's symbol: green when done.
    pub fn symbol_color(&self) -> (t: Tone)
        ensures
            t == (if self.done_at is Some { Tone::Green } else { Tone::Subtle }),
    {
        if self.is_done() {
            Tone::Green
        } else {
            Tone::Subtle
        }
    }

    /// The due date, or the empty string.
    pub fn due_display(&self) -> (r: String)
        ensures
            r@ == opt_or_empty(self.due_at),
    {
        opt_or_default(&self.due_at)
    }
}

/// A project record. Hour counts are `f64` values held by their IEEE-754 bits
/// (`f64::to_bits`): this crate carries them, arithmetic on them is done by callers.
#[derive(Debug, Clone)]
pub struct Project {
    pub id: String,
    pub client_id: String,
    pub name: String,
    pub summary: Option<String>,
    pub status: ProjectStatus,
    pub budget_hours_bits: Option<u64>,
    pub budget_kind: String,
    pub spent_hours_bits: u64,
    pub rate_cents: Option<i64>,
    pub deadline: Option<String>,
    pub owner: Option<String>,
    pub repo_url: Option<String>,
    pub created_at: String,
    pub updated_at: String,
    pub milestones: Vec<Milestone>,
    pub pulse: Vec<u8>,
    /// The owning client's name, filled in when projects are loaded.
    pub client_name: Option<String>,
}

/// The budget kind a project gets when none is given.
pub fn default_budget_kind() -> (r: String)
    ensures
        r@ == "total"@,
{
    owned("total")
}

/// The sparkline glyph for a level `0..=8`.
pub open spec fn spark_char(v: nat) -> char {
    if v == 0 { ' ' } else if v == 1 { '▁' } else if v == 2 { '▂' } else if v == 3 { '▃' }
    else if v == 4 { '▄' } else if v == 5 { '▅' } else if v == 6 { '▆' } else if v == 7 { '▇' }
    else { '█' }
}

/// Eight glyphs, one per pulse value (missing values read as 0, values above 8 as 8).
pub open spec fn sparkline_text(pulse: Seq<u8>) -> Seq<char> {
    Seq::new(8, |i: int| spark_char(if i < pulse.len() { if pulse[i] > 8 { 8 } else { pulse[i] as nat } } else { 0 }))
}

/// `"<deadline> · <n>d"` or `"<deadline> · <n>d ago"` counted from `today`, the
/// deadline alone when it is not a date, or nothing without a deadline.
pub open spec fn deadline_text(deadline: Option<String>, today: int) -> Seq<char> {
    match deadline {
        None => Seq::empty(),
        Some(d) => match spec_parse_ymd_day(d@) {
            Some(due) => {
                let days = due - today;
                if days < 0 {
                    d@ + " · "@ + int_text(-days) + "d ago"@
                } else {
                    d@ + " · "@ + int_text(days) + "d"@
                }
            },
            None => d@,
        },
    }
}

/// The day number of a `YYYY-MM-DD` date, when it parses.
pub open spec fn spec_parse_ymd_day(s: Seq<char>) -> Option<int> {
    match crate::dates::spec_parse_ymd(s) {
        Some(info) => Some(info.day as int),
        None => None,
    }
}

fn spark(v: u8) -> (c: char)
    ensures
        c == spark_char(if v > 8 { 8 } else { v as nat }),
{
    if v == 0 { ' ' } else if v == 1 { '▁' } else if v == 2 { '▂' } else if v == 3 { '▃' }
    else if v == 4 { '▄' } else if v == 5 { '▅' } else if v == 6 { '▆' } else if v == 7 { '▇' }
    else { '█' }
}

impl Project {
    /// The hourly rate, `"€ <units> / h"`, or nothing.
    pub fn rate_display(&self) -> (r: String)
        ensures
            r@ == rate_text(self.rate_cents),
    {
        rate_string(self.rate_cents)
    }

    /// The colour of the project's status.
    pub fn status_color(&self) -> (t: Tone)
        ensures
            t == status_tone(status_name(self.status)),
    {
        self.status.color()
    }

    /// The pulse as eight sparkline glyphs.
    pub fn sparkline_str(&self) -> (r: String)
        ensures
            r@ == sparkline_text(self.pulse@),
    {
        let mut s = String::new();
        let mut i: usize = 0;
        while i < 8
            invariant
                i <= 8,
                s@ == sparkline_text(self.pulse@).take(i as int),
            decreases 8 - i,
        {
            let v: u8 = if i < self.pulse.len() { self.pulse[i] } else { 0 };
            push_char(&mut s, spark(v));
            i = i + 1;
            assert(s@ =~= sparkline_text(self.pulse@).take(i as int));
        }
        assert(sparkline_text(self.pulse@).take(8) =~= sparkline_text(self.pulse@));
        s
    }

    /// The deadline with the days left (or overdue) counted from `today`.
    pub fn deadline_display_on(&self, today: i32) -> (r: String)
        ensures
            r@ == deadline_text(self.deadline, today as int),
    {
        match &self.deadline {
            None => String::new(),
            Some(d) => match parse_ymd(d.as_str()) {
                Some(due) => {
                    let days: i64 = due.day as i64 - today as i64;
                    let mut s = d.clone();
                    s.append(" · ");
                    if days < 0 {
                        s.append(i64_text(-days).as_str());
                        s.append("d ago");
                    } else {
                        s.append(i64_text(days).as_str());
                        s.append("d");
                    }
                    s
                },
                None => d.clone(),
            },
        }
    }

    /// The deadline with the days left (or overdue) counted from today's local date.
    pub fn deadline_display(&self) -> (r: String)
        ensures
            exists|t: i32| r@ == deadline_text(self.deadline, t as int),
    {
        let t: DayInfo = today();
        self.deadline_display_on(t.day)
    }
}

// ── Activity and contacts ────────────────────────────────────────────────────

/// `w` is the first space-separated word of `s`: the characters before the first
/// `' '`, or all of `s` when it holds none.
pub open spec fn is_first_word(w: Seq<char>, s: Seq<char>) -> bool {
    &&& w.len() <= s.len()
    &&& w == s.take(w.len() as int)
    &&& (w.len() == s.len() || s[w.len() as int] == ' ')
    &&& forall|i: int| 0 <= i < w.len() ==> w[i] != ' '
}

/// The hours written at the start of an hour message (`"+<hours> h · …"`): the
/// first word after a leading `+`, or `None` when the message does not start
/// with `+`. Reading the word as a number is left to the caller.
pub fn message_hours_text(msg: &str) -> (r: Option<String>)
    ensures
        match r {
            Some(w) => msg@.len() > 0 && msg@[0] == '+' && is_first_word(w@, msg@.drop_first()),
            None => !(msg@.len() > 0 && msg@[0] == '+'),
        },
{
    let v = chars_of(msg);
    if v.len() == 0 || v[0] != '+' {
        return None;
    }
    let ghost rest = msg@.drop_first();
    let mut w = String::new();
    let mut i: usize = 1;
    while i < v.len() && v[i] != ' '
        invariant
            1 <= i <= v@.len(),
            v@ == msg@,
            rest == msg@.drop_first(),
            w@ == rest.take(i - 1),
            forall|k: int| 0 <= k < i - 1 ==> rest[k] != ' ',
        decreases v.len() - i,
    {
        push_char(&mut w, v[i]);
        assert(rest.take(i as int) =~= rest.take(i - 1).push(v@[i as int]));
        i = i + 1;
    }
    proof {
        assert(w@.len() == i - 1);
        assert forall|k: int| 0 <= k < w@.len() implies w@[k] != ' ' by {
            assert(w@[k] == rest[k]);
        }
    }
    Some(w)
}

/// A logged event; hour entries carry their hours as `f64` bits.
#[derive(Debug, Clone)]
pub struct ActivityEntry {
    pub id: String,
    pub client_id: Option<String>,
    pub project_id: Option<String>,
    pub kind: String,
    pub message: String,
    pub at: String,
    pub hours_bits: Option<u64>,
}

/// The glyph of an activity kind.
pub open spec fn activity_symbol(kind: Seq<char>) -> Seq<char> {
    if kind == "deploy"@ || kind == "invoice"@ {
        "✓"@
    } else if kind == "warn"@ {
        "!"@
    } else if kind == "call"@ {
        "→"@
    } else {
        "·"@
    }
}

/// The colour of an activity kind.
pub open spec fn activity_tone(kind: Seq<char>) -> Tone {
    if kind == "deploy"@ || kind == "invoice"@ {
        Tone::Green
    } else if kind == "warn"@ {
        Tone::Amber
    } else if kind == "call"@ {
        Tone::Blue
    } else {
        Tone::Accent
    }
}

impl ActivityEntry {
    /// The colour of the entry's glyph.
    pub fn symbol_color(&self) -> (t: Tone)
        ensures
            t == activity_tone(self.kind@),
    {
        let k = self.kind.as_str();
        if str_eq(k, "deploy") || str_eq(k, "invoice") {
            Tone::Green
        } else if str_eq(k, "warn") {
            Tone::Amber
        } else if str_eq(k, "call") {
            Tone::Blue
        } else {
            Tone::Accent
        }
    }

    /// The glyph of the entry's kind.
    pub fn symbol(&self) -> (r: &'static str)
        ensures
            r@ == activity_symbol(self.kind@),
    {
        let k = self.kind.as_str();
        if str_eq(k, "deploy") || str_eq(k, "invoice") {
            "✓"
        } else if str_eq(k, "warn") {
            "!"
        } else if str_eq(k, "call") {
            "→"
        } else {
            "·"
        }
    }

    /// The first 16 bytes of the timestamp (`"YYYY-MM-DDTHH:MM"`), or all of it
    /// when shorter.
    pub fn at_short(&self) -> (r: &str)
        requires
            utf8_bytes(self.at@).len() >= 16 ==> char_boundary(self.at@, 16),
        ensures
            r@ == (if utf8_bytes(self.at@).len() >= 16 {
                byte_prefix(self.at@, 16)
            } else {
                self.at@
            }),
    {
        let a = self.at.as_str();
        if byte_len(a) >= 16 {
            prefix_bytes(a, 16)
        } else {
            a
        }
    }
}

/// A recorded contact with a client.
#[derive(Debug, Clone)]
pub struct ContactMoment {
    pub id: String,
    pub client_id: String,
    pub kind: String,
    pub summary: String,
    pub date: String,
    pub created_at: String,
}

/// The glyph of a contact kind.
pub open spec fn contact_symbol(kind: Seq<char>) -> Seq<char> {
    if kind == "phone"@ {
        "☎"@
    } else if kind == "meeting"@ {
        "◈"@
    } else {
        "✉"@
    }
}

/// The colour of a contact kind.
pub open spec fn contact_tone(kind: Seq<char>) -> Tone {
    if kind == "phone"@ {
        Tone::Green
    } else if kind == "meeting"@ {
        Tone::Amber
    } else {
        Tone::Cyan
    }
}

impl ContactMoment {
    /// The colour of the contact's glyph.
    pub fn kind_color(&self) -> (t: Tone)
        ensures
            t == contact_tone(self.kind@),
    {
        let k = self.kind.as_str();
        if str_eq(k, "phone") {
            Tone::Green
        } else if str_eq(k, "meeting") {
            Tone::Amber
        } else {
            Tone::Cyan
        }
    }

    /// The glyph of the contact's kind.
    pub fn kind_symbol(&self) -> (r: &'static str)
        ensures
            r@ == contact_symbol(self.kind@),
    {
        let k = self.kind.as_str();
        if str_eq(k, "phone") {
            "☎"
        } else if str_eq(k, "meeting") {
            "◈"
        } else {
            "✉"
        }
    }
}

/// The contact kinds in their cycling order.
pub open spec fn contact_kinds() -> Seq<Seq<char>> {
    seq!["email"@, "phone"@, "meeting"@]
}

/// The contact kind at position `i` of the cycling order.
pub fn contact_kind_at(i: usize) -> (r: &'static str)
    requires
        i < 3,
    ensures
        r@ == contact_kinds()[i as int],
{
    if i == 0 {
        "email"
    } else if i == 1 {
        "phone"
    } else {
        "meeting"
    }
}

/// Dashboard counters.
#[derive(Debug, Clone, Copy, PartialEq, Eq, Structural)]
pub struct Stats {
    pub total_clients: usize,
    pub active_projects: usize,
    pub total_projects: usize,
    pub attention_count: usize,
    pub clients_this_quarter: usize,
}

impl Default for Stats {
    fn default() -> (r: Stats)
        ensures
            r == (Stats {
                total_clients: 0,
                active_projects: 0,
                total_projects: 0,
                attention_count: 0,
                clients_this_quarter: 0,
            }),
    {
        Stats {
            total_clients: 0,
            active_projects: 0,
            total_projects: 0,
            attention_count: 0,
            clients_this_quarter: 0,
        }
    }
}

} // verus!
