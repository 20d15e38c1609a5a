//! What is done with records once they are read from disk: their display order,
//! the joining of client names onto projects, the dashboard counters, and the
//! rewriting of a broken project file's status.
use vstd::prelude::*;
use crate::dates::{DayInfo, spec_parse_ymd, parse_ymd, today};
use crate::models::{
    status_name, ActivityEntry, BrokenProject, Client, ContactMoment, Project, ProjectStatus, Stats,
};
use crate::sort::{apply_order, is_stable_order, keys_view, permuted, stable_order};
use crate::text::{byte_prefix, char_boundary, chars_of, copy_string, owned, push_char, starts_with, string_of_range, trim_start, is_whitespace_char, opt_view, utf8_bytes, prefix_bytes};

verus! {

// ── Ordering ─────────────────────────────────────────────────────────────────

pub open spec fn client_names(cs: Seq<Client>) -> Seq<Seq<char>> {
    cs.map_values(|c: Client| c.name@)
}

pub open spec fn project_names(ps: Seq<Project>) -> Seq<Seq<char>> {
    ps.map_values(|p: Project| p.name@)
}

pub open spec fn contact_dates(cs: Seq<ContactMoment>) -> Seq<Seq<char>> {
    cs.map_values(|c: ContactMoment| c.date@)
}

pub open spec fn activity_times(es: Seq<ActivityEntry>) -> Seq<Seq<char>> {
    es.map_values(|e: ActivityEntry| e.at@)
}

/// Clients ordered by name, clients of equal name keeping their order.
pub fn order_clients(clients: Vec<Client>) -> (out: Vec<Client>)
    ensures
        exists|p: Seq<usize>|
            is_stable_order(client_names(clients@), p, false) && out@ == permuted(clients@, p),
{
    let mut keys: Vec<Vec<char>> = Vec::new();
    let mut i: usize = 0;
    while i < clients.len()
        invariant
            i <= clients@.len(),
            keys@.len() == i,
            keys_view(keys@) == client_names(clients@).take(i as int),
        decreases clients.len() - i,
    {
        keys.push(chars_of(clients[i].name.as_str()));
        assert(keys@[i as int]@ == client_names(clients@)[i as int]);
        i = i + 1;
        assert(keys_view(keys@) =~= client_names(clients@).take(i as int));
    }
    assert(client_names(clients@).take(i as int) =~= client_names(clients@));
    let p = stable_order(&keys, false);
    apply_order(clients, &p)
}

/// Contact moments newest date first, equal dates keeping their order.
pub fn order_contacts(contacts: Vec<ContactMoment>) -> (out: Vec<ContactMoment>)
    ensures
        exists|p: Seq<usize>|
            is_stable_order(contact_dates(contacts@), p, true) && out@ == permuted(contacts@, p),
{
    let mut keys: Vec<Vec<char>> = Vec::new();
    let mut i: usize = 0;
    while i < contacts.len()
        invariant
            i <= contacts@.len(),
            keys@.len() == i,
            keys_view(keys@) == contact_dates(contacts@).take(i as int),
        decreases contacts.len() - i,
    {
        keys.push(chars_of(contacts[i].date.as_str()));
        assert(keys@[i as int]@ == contact_dates(contacts@)[i as int]);
        i = i + 1;
        assert(keys_view(keys@) =~= contact_dates(contacts@).take(i as int));
    }
    assert(contact_dates(contacts@).take(i as int) =~= contact_dates(contacts@));
    let p = stable_order(&keys, true);
    apply_order(contacts, &p)
}

/// Activity entries newest first, equal times keeping their order.
pub fn order_activity(entries: Vec<ActivityEntry>) -> (out: Vec<ActivityEntry>)
    ensures
        exists|p: Seq<usize>|
            is_stable_order(activity_times(entries@), p, true) && out@ == permuted(entries@, p),
{
    let mut keys: Vec<Vec<char>> = Vec::new();
    let mut i: usize = 0;
    while i < entries.len()
        invariant
            i <= entries@.len(),
            keys@.len() == i,
            keys_view(keys@) == activity_times(entries@).take(i as int),
        decreases entries.len() - i,
    {
        keys.push(chars_of(entries[i].at.as_str()));
        assert(keys@[i as int]@ == activity_times(entries@)[i as int]);
        i = i + 1;
        assert(keys_view(keys@) =~= activity_times(entries@).take(i as int));
    }
    assert(activity_times(entries@).take(i as int) =~= activity_times(entries@));
    let p = stable_order(&keys, true);
    apply_order(entries, &p)
}

// ── Projects with client names ───────────────────────────────────────────────

/// The name of the first client with id `id`.
pub open spec fn first_client_name(clients: Seq<Client>, id: Seq<char>) -> Option<Seq<char>>
    decreases clients.len(),
{
    if clients.len() == 0 {
        None
    } else if clients[0].id@ == id {
        Some(clients[0].name@)
    } else {
        first_client_name(clients.drop_first(), id)
    }
}

/// `a` is `b` with its client name replaced by one whose text is `name`.
pub open spec fn with_client_name(a: Project, b: Project, name: Option<Seq<char>>) -> bool {
    &&& a == (Project { client_name: a.client_name, ..b })
    &&& opt_view(a.client_name) == name
}

/// The name of the first client whose id is `id`.
pub fn find_client_name(clients: &Vec<Client>, id: &str) -> (r: Option<String>)
    ensures
        opt_view(r) == first_client_name(clients@, id@),
{
    let mut i: usize = 0;
    assert(clients@.skip(0) =~= clients@);
    while i < clients.len()
        invariant
            i <= clients@.len(),
            first_client_name(clients@, id@) == first_client_name(clients@.skip(i as int), id@),
        decreases clients.len() - i,
    {
        assert(clients@.skip(i as int).drop_first() =~= clients@.skip(i + 1));
        assert(clients@.skip(i as int)[0] == clients@[i as int]);
        if crate::text::str_eq(clients[i].id.as_str(), id) {
            return Some(copy_string(&clients[i].name));
        }
        i = i + 1;
    }
    None
}

/// Fills in each project's client name from `clients`, then orders the projects
/// by name (projects of equal name keeping their order).
pub fn prepare_projects(projects: Vec<Project>, clients: &Vec<Client>) -> (out: Vec<Project>)
    ensures
        out@.len() == projects@.len(),
        exists|p: Seq<usize>|
            is_stable_order(project_names(projects@), p, false) && forall|i: int|
                0 <= i < out@.len() ==> with_client_name(
                    #[trigger] out@[i],
                    projects@[p[i] as int],
                    first_client_name(clients@, projects@[p[i] as int].client_id@),
                ),
{
    let ghost orig = projects@;
    let n = projects.len();
    let mut joined = projects;
    let mut keys: Vec<Vec<char>> = Vec::new();
    let mut i: usize = 0;
    while i < n
        invariant
            n == orig.len() == joined@.len(),
            i <= n,
            keys@.len() == i,
            keys_view(keys@) == project_names(orig).take(i as int),
            forall|k: int|
                0 <= k < i ==> with_client_name(
                    #[trigger] joined@[k],
                    orig[k],
                    first_client_name(clients@, orig[k].client_id@),
                ),
            forall|k: int| i <= k < n ==> #[trigger] joined@[k] == orig[k],
        decreases n - i,
    {
        let mut pr = joined.remove(i);
        let name = find_client_name(clients, pr.client_id.as_str());
        keys.push(chars_of(pr.name.as_str()));
        assert(keys@[i as int]@ == project_names(orig)[i as int]);
        pr.client_name = name;
        joined.insert(i, pr);
        i = i + 1;
        assert(keys_view(keys@) =~= project_names(orig).take(i as int));
    }
    assert(project_names(orig).take(n as int) =~= project_names(orig));
    let p = stable_order(&keys, false);
    let ghost j = joined@;
    let out = apply_order(joined, &p);
    assert forall|i: int| 0 <= i < out@.len() implies with_client_name(
        #[trigger] out@[i],
        orig[p@[i] as int],
        first_client_name(clients@, orig[p@[i] as int].client_id@),
    ) by {
        assert(out@[i] == j[p@[i] as int]);
    }
    out
}

// ── Stats ────────────────────────────────────────────────────────────────────

/// Running and active projects count as active.
pub open spec fn is_active_status(s: ProjectStatus) -> bool {
    s == ProjectStatus::Running || s == ProjectStatus::Active
}

/// The number of active projects.
pub open spec fn count_active(ps: Seq<Project>) -> nat
    decreases ps.len(),
{
    if ps.len() == 0 {
        0
    } else {
        count_active(ps.drop_last()) + if is_active_status(ps.last().status) { 1nat } else { 0 }
    }
}

/// The number of projects that need attention: blocked, or flagged as having
/// used more than 85% of their hour budget.
pub open spec fn count_attention(ps: Seq<Project>, near_budget: Seq<bool>) -> nat
    decreases ps.len(),
{
    if ps.len() == 0 {
        0
    } else {
        count_attention(ps.drop_last(), near_budget) + if ps.last().status
            == ProjectStatus::Blocked || near_budget[ps.len() - 1] {
            1nat
        } else {
            0
        }
    }
}

proof fn lemma_count_bounds(ps: Seq<Project>, flags: Seq<bool>)
    ensures
        count_active(ps) <= ps.len(),
        count_attention(ps, flags) <= ps.len(),
    decreases ps.len(),
{
    if ps.len() > 0 {
        lemma_count_bounds(ps.drop_last(), flags);
    }
}

/// The dashboard counters. `near_budget[i]` tells whether project `i` has spent
/// more than 85% of its hour budget (hour values are floating point and are
/// compared by the caller).
pub fn compute_stats(clients: &Vec<Client>, projects: &Vec<Project>, near_budget: &Vec<bool>) -> (s: Stats)
    requires
        near_budget@.len() == projects@.len(),
    ensures
        s.total_clients == clients@.len(),
        s.total_projects == projects@.len(),
        s.active_projects == count_active(projects@),
        s.attention_count == count_attention(projects@, near_budget@),
        s.clients_this_quarter == 0,
{
    let mut active: usize = 0;
    let mut attention: usize = 0;
    let mut i: usize = 0;
    while i < projects.len()
        invariant
            i <= projects@.len() == near_budget@.len(),
            active == count_active(projects@.take(i as int)),
            attention == count_attention(projects@.take(i as int), near_budget@),
        decreases projects.len() - i,
    {
        proof {
            let t = projects@.take(i + 1);
            assert(t.drop_last() =~= projects@.take(i as int));
            lemma_count_bounds(projects@.take(i as int), near_budget@);
        }
        let st = projects[i].status;
        if st == ProjectStatus::Running || st == ProjectStatus::Active {
            active = active + 1;
        }
        if st == ProjectStatus::Blocked || near_budget[i] {
            attention = attention + 1;
        }
        i = i + 1;
    }
    assert(projects@.take(i as int) =~= projects@);
    Stats {
        total_clients: clients.len(),
        active_projects: active,
        total_projects: projects.len(),
        attention_count: attention,
        clients_this_quarter: 0,
    }
}

/// An hour entry counts toward this week when it carries hours and its date (the
/// first 10 bytes of `at`) falls in today's ISO week and today's year.
pub open spec fn counts_this_week_spec(e: ActivityEntry, today: DayInfo) -> bool {
    &&& e.hours_bits is Some
    &&& match spec_parse_ymd(byte_prefix(e.at@, 10)) {
        Some(d) => d.iso_year == today.iso_year && d.iso_week == today.iso_week && d.year
            == today.year,
        None => false,
    }
}

/// Whether an entry's hours count toward this week's total.
pub fn counts_this_week(e: &ActivityEntry, today: DayInfo) -> (r: bool)
    requires
        e.hours_bits is Some ==> utf8_bytes(e.at@).len() >= 10 && char_boundary(e.at@, 10),
    ensures
        r == counts_this_week_spec(*e, today),
{
    if e.hours_bits.is_none() {
        return false;
    }
    let day = prefix_bytes(e.at.as_str(), 10);
    match parse_ymd(day) {
        Some(d) => d.iso_year == today.iso_year && d.iso_week == today.iso_week && d.year
            == today.year,
        None => false,
    }
}

/// The positions of the entries whose hours count toward the week of `today`, in
/// order.
pub open spec fn week_positions(entries: Seq<ActivityEntry>, today: DayInfo) -> Seq<usize> {
    Seq::new(entries.len(), |i: int| i as usize).filter(
        |i: usize| counts_this_week_spec(entries[i as int], today),
    )
}

/// The positions of the entries whose hours count toward this week, in order.
pub fn week_entries(entries: &Vec<ActivityEntry>, today: DayInfo) -> (idx: Vec<usize>)
    requires
        forall|i: int|
            0 <= i < entries@.len() ==> (#[trigger] entries@[i]).hours_bits is Some ==> utf8_bytes(
                entries@[i].at@,
            ).len() >= 10 && char_boundary(entries@[i].at@, 10),
    ensures
        idx@ == Seq::new(entries@.len(), |i: int| i as usize).filter(
            |i: usize| counts_this_week_spec(entries@[i as int], today),
        ),
{
    let ghost all = Seq::new(entries@.len(), |i: int| i as usize);
    let ghost pred = |i: usize| counts_this_week_spec(entries@[i as int], today);
    let mut idx: Vec<usize> = Vec::new();
    let mut i: usize = 0;
    while i < entries.len()
        invariant
            i <= entries@.len(),
            all == Seq::new(entries@.len(), |i: int| i as usize),
            pred == (|i: usize| counts_this_week_spec(entries@[i as int], today)),
            forall|k: int|
                0 <= k < entries@.len() ==> (#[trigger] entries@[k]).hours_bits is Some
                    ==> utf8_bytes(entries@[k].at@).len() >= 10 && char_boundary(
                    entries@[k].at@,
                    10,
                ),
            idx@ == all.take(i as int).filter(pred),
        decreases entries.len() - i,
    {
        proof {
            reveal_with_fuel(Seq::<_>::filter, 1);
            assert(all.take(i + 1).drop_last() =~= all.take(i as int));
        }
        if counts_this_week(&entries[i], today) {
            idx.push(i);
        }
        i = i + 1;
    }
    assert(all.take(i as int) =~= all);
    idx
}

/// The positions of the entries whose hours count toward the current week, by
/// today's local date.
pub fn week_entries_today(entries: &Vec<ActivityEntry>) -> (idx: Vec<usize>)
    requires
        forall|i: int|
            0 <= i < entries@.len() ==> (#[trigger] entries@[i]).hours_bits is Some ==> utf8_bytes(
                entries@[i].at@,
            ).len() >= 10 && char_boundary(entries@[i].at@, 10),
    ensures
        exists|today: DayInfo| idx@ == #[trigger] week_positions(entries@, today),
{
    let t = today();
    let idx = week_entries(entries, t);
    assert(idx@ == week_positions(entries@, t));
    idx
}

// ── Broken project files ─────────────────────────────────────────────────────

/// The name a broken project is shown under: its own, or `"unknown"`.
pub fn broken_display_name(name: String) -> (r: String)
    ensures
        r@ == (if name@.len() == 0 { "unknown"@ } else { name@ }),
{
    if crate::text::char_count(&name) == 0 {
        owned("unknown")
    } else {
        name
    }
}

/// What `toml::from_str::<toml::Value>(text)` gives for the top-level key `key`:
/// `None` when `text` is not TOML, `Some(None)` when the key is absent or its
/// value is not a string, `Some(Some(s))` for a string `s`.
pub uninterp spec fn spec_toml_top_str(text: Seq<char>, key: Seq<char>) -> Option<Option<Seq<char>>>;

/// The view of a read that may fail and may find no string.
pub open spec fn opt_opt_view(r: Option<Option<String>>) -> Option<Option<Seq<char>>> {
    match r {
        Some(Some(s)) => Some(Some(s@)),
        Some(None) => Some(None),
        None => None,
    }
}

/// The string read for a key, or the empty string when there is none.
pub open spec fn str_or_empty(r: Option<Option<Seq<char>>>) -> Seq<char> {
    match r {
        Some(Some(s)) => s,
        _ => Seq::empty(),
    }
}

/// Parses `text` with `toml::from_str::<toml::Value>` and reads the top-level key
/// `key` with `Value::get` and `Value::as_str`; the result is named by
/// `spec_toml_top_str`, and which texts are TOML is not stated here.
#[verifier::external_body]
pub(crate) fn toml_top_str(text: &str, key: &str) -> (r: Option<Option<String>>)
    ensures
        opt_opt_view(r) == spec_toml_top_str(text@, key@),
{
    match toml::from_str::<toml::Value>(text) {
        Ok(v) => Some(v.get(key).and_then(|x| x.as_str()).map(|x| x.to_string())),
        Err(_) => None,
    }
}

/// The string read for `key` in `text`, or the empty string.
fn top_str_or_empty(text: &str, key: &str) -> (r: String)
    ensures
        r@ == str_or_empty(spec_toml_top_str(text@, key@)),
{
    match toml_top_str(text, key) {
        Some(Some(v)) => v,
        _ => String::new(),
    }
}

/// What can be shown of the project file at `path` holding `text`, when it does
/// not read as a project: its name (or `"unknown"`), id, client id and the status
/// it carries, read as plain TOML; `None` when `text` is not TOML at all.
pub fn broken_project(path: std::path::PathBuf, text: String) -> (r: Option<BrokenProject>)
    ensures
        r is Some <==> spec_toml_top_str(text@, "name"@) is Some,
        r matches Some(b) ==> {
            let name = str_or_empty(spec_toml_top_str(text@, "name"@));
            &&& b.path == path
            &&& b.raw_toml@ == text@
            &&& b.name@ == (if name.len() == 0 { "unknown"@ } else { name })
            &&& b.id@ == str_or_empty(spec_toml_top_str(text@, "id"@))
            &&& b.client_id@ == str_or_empty(spec_toml_top_str(text@, "client_id"@))
            &&& b.bad_status@ == str_or_empty(spec_toml_top_str(text@, "status"@))
        },
{
    let name = match toml_top_str(text.as_str(), "name") {
        None => return None,
        Some(Some(n)) => n,
        Some(None) => String::new(),
    };
    let id = top_str_or_empty(text.as_str(), "id");
    let client_id = top_str_or_empty(text.as_str(), "client_id");
    let bad_status = top_str_or_empty(text.as_str(), "status");
    Some(BrokenProject {
        path,
        name: broken_display_name(name),
        id,
        client_id,
        bad_status,
        raw_toml: text,
    })
}

/// The lines of `s` as `str::lines` yields them, the current line so far being
/// `acc`: split at `'\n'`, a `'\r'` right before a `'\n'` dropped, and no empty
/// line after a final `'\n'`.
pub open spec fn lines_from(acc: Seq<char>, s: Seq<char>) -> Seq<Seq<char>>
    decreases s.len(),
{
    if s.len() == 0 {
        if acc.len() == 0 { Seq::empty() } else { seq![acc] }
    } else if s[0] == '\n' {
        seq![strip_cr(acc)] + lines_from(Seq::empty(), s.drop_first())
    } else {
        lines_from(acc.push(s[0]), s.drop_first())
    }
}

/// `s` without a final `'\r'`.
pub open spec fn strip_cr(s: Seq<char>) -> Seq<char> {
    if s.len() > 0 && s.last() == '\r' { s.drop_last() } else { s }
}

/// The lines of `s` (`str::lines`).
pub open spec fn lines(s: Seq<char>) -> Seq<Seq<char>> {
    lines_from(Seq::empty(), s)
}

/// The lines joined with `'\n'` between them.
pub open spec fn join_lines(ls: Seq<Seq<char>>) -> Seq<char>
    decreases ls.len(),
{
    if ls.len() == 0 {
        Seq::empty()
    } else if ls.len() == 1 {
        ls[0]
    } else {
        join_lines(ls.drop_last()) + seq!['\n'] + ls.last()
    }
}

/// A line whose text, after leading whitespace, begins with `status`.
pub open spec fn is_status_line(line: Seq<char>) -> bool {
    starts_with(trim_start(line), "status"@)
}

/// The line `status = "<name>"`.
pub open spec fn status_line(s: ProjectStatus) -> Seq<char> {
    "status = \""@ + status_name(s) + "\""@
}

/// The file text with every status line replaced by `status = "<name>"`; the other
/// lines are kept, and the lines are joined with `'\n'`.
pub open spec fn repaired_text(raw: Seq<char>, s: ProjectStatus) -> Seq<char> {
    join_lines(lines(raw).map_values(|l: Seq<char>| if is_status_line(l) { status_line(s) } else { l }))
}

proof fn lemma_trim_start_skip(s: Seq<char>, i: int)
    requires
        0 <= i <= s.len(),
        forall|k: int| 0 <= k < i ==> crate::text::is_white_space(#[trigger] s[k]),
    ensures
        trim_start(s) == trim_start(s.skip(i)),
    decreases i,
{
    if i > 0 {
        lemma_trim_start_skip(s, i - 1);
        assert(s.skip(i - 1).drop_first() =~= s.skip(i));
        assert(s.skip(i - 1)[0] == s[i - 1]);
    } else {
        assert(s.skip(0) =~= s);
    }
}

/// Whether a line, after its leading whitespace, begins with `status`.
fn is_status_line_exec(line: &Vec<char>) -> (r: bool)
    ensures
        r == is_status_line(line@),
{
    let n = line.len();
    let mut i: usize = 0;
    while i < n && is_whitespace_char(line[i])
        invariant
            i <= n == line@.len(),
            forall|k: int| 0 <= k < i ==> crate::text::is_white_space(#[trigger] line@[k]),
        decreases n - i,
    {
        i = i + 1;
    }
    proof {
        lemma_trim_start_skip(line@, i as int);
    }
    assert(trim_start(line@) == line@.skip(i as int)) by {
        if i < n {
            assert(line@.skip(i as int)[0] == line@[i as int]);
        }
    }
    let word = chars_of("status");
    if n - i < word.len() {
        return false;
    }
    let mut k: usize = 0;
    while k < word.len()
        invariant
            i + word@.len() <= n == line@.len(),
            word@ == "status"@,
            trim_start(line@) == line@.skip(i as int),
            k <= word@.len(),
            forall|m: int| 0 <= m < k ==> line@[i + m] == word@[m],
        decreases word.len() - k,
    {
        if line[i + k] != word[k] {
            assert(line@.skip(i as int).take(word@.len() as int)[k as int] != word@[k as int]);
            return false;
        }
        k = k + 1;
    }
    assert(line@.skip(i as int).take(word@.len() as int) =~= word@);
    true
}

/// Rewrites the status of a project file's text: each line that (after leading
/// whitespace) begins with `status` becomes `status = "<name>"`.
pub fn repair_status_text(raw: &str, status: ProjectStatus) -> (r: String)
    ensures
        r@ == repaired_text(raw@, status),
{
    let v = chars_of(raw);
    let n = v.len();
    let ghost f = |l: Seq<char>| if is_status_line(l) { status_line(status) } else { l };
    let mut out = String::new();
    let mut first = true;
    let mut cur: Vec<char> = Vec::new();
    let mut i: usize = 0;
    // `done` holds the lines already written to `out`.
    let ghost mut done: Seq<Seq<char>> = Seq::empty();
    let mut line_text = String::new();
    let mut status_text = owned("status = \"");
    status_text.append(status.as_str());
    status_text.append("\"");
    assert(v@.skip(0) =~= v@);
    while i < n
        invariant
            n == v@.len(),
            v@ == raw@,
            i <= n,
            status_text@ == status_line(status),
            f == (|l: Seq<char>| if is_status_line(l) { status_line(status) } else { l }),
            done + lines_from(cur@, v@.skip(i as int)) == lines(raw@),
            out@ == join_lines(done.map_values(f)),
            first == (done.len() == 0),
        decreases n - i,
    {
        assert(v@.skip(i as int).drop_first() =~= v@.skip(i + 1));
        assert(v@.skip(i as int)[0] == v@[i as int]);
        if v[i] == '\n' {
            let end: usize = if cur.len() > 0 && cur[cur.len() - 1] == '\r' {
                cur.len() - 1
            } else {
                cur.len()
            };
            let ghost line = strip_cr(cur@);
            assert(cur@.subrange(0, end as int) =~= line);
            let is_status = {
                let tmp = vec_prefix(&cur, end);
                is_status_line_exec(&tmp)
            };
            if !first {
                push_char(&mut out, '\n');
            }
            if is_status {
                out.append(status_text.as_str());
            } else {
                line_text = string_of_range(&cur, 0, end);
                out.append(line_text.as_str());
            }
            proof {
                let nd = done.push(line);
                assert(nd.map_values(f).drop_last() =~= done.map_values(f));
                assert(nd.map_values(f).last() == f(line));
                assert(done + (seq![line] + lines_from(Seq::empty(), v@.skip(i + 1))) =~= nd
                    + lines_from(Seq::empty(), v@.skip(i + 1)));
                if done.len() == 0 {
                    assert(out@ =~= join_lines(nd.map_values(f)));
                } else {
                    assert(out@ =~= join_lines(nd.map_values(f)));
                }
                done = nd;
            }
            first = false;
            cur = Vec::new();
            assert(cur@ =~= Seq::<char>::empty());
        } else {
            cur.push(v[i]);
        }
        i = i + 1;
    }
    assert(v@.skip(n as int) =~= Seq::<char>::empty());
    if cur.len() > 0 {
        let is_status = is_status_line_exec(&cur);
        if !first {
            push_char(&mut out, '\n');
        }
        if is_status {
            out.append(status_text.as_str());
        } else {
            line_text = string_of_range(&cur, 0, cur.len());
            out.append(line_text.as_str());
        }
        proof {
            let nd = done.push(cur@);
            assert(cur@.subrange(0, cur@.len() as int) =~= cur@);
            assert(done + seq![cur@] =~= nd);
            assert(nd.map_values(f).drop_last() =~= done.map_values(f));
            assert(nd.map_values(f).last() == f(cur@));
            assert(out@ =~= join_lines(nd.map_values(f)));
        }
    } else {
        assert(done + lines_from(cur@, v@.skip(n as int)) =~= done);
    }
    out
}

/// The first `k` characters of `v`, as a vector.
fn vec_prefix(v: &Vec<char>, k: usize) -> (r: Vec<char>)
    requires
        k <= v@.len(),
    ensures
        r@ == v@.subrange(0, k as int),
{
    let mut r: Vec<char> = Vec::new();
    let mut i: usize = 0;
    while i < k
        invariant
            k <= v@.len(),
            i <= k,
            r@ == v@.subrange(0, i as int),
        decreases k - i,
    {
        r.push(v[i]);
        i = i + 1;
        assert(r@ =~= v@.subrange(0, i as int));
    }
    r
}

/// The dashboard never counts more active or attention-needing projects than
/// there are projects.
pub proof fn law_counts_within_total(ps: Seq<Project>, near_budget: Seq<bool>)
    ensures
        count_active(ps) <= ps.len(),
        count_attention(ps, near_budget) <= ps.len(),
{
    lemma_count_bounds(ps, near_budget);
}

} // verus!
