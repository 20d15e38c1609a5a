//! Global search, follow-up reminders and the hour log of a project.
use vstd::prelude::*;
use vstd::view::View as _;
use crate::app::{
    App, SearchHit, SearchResult, View, deref_opt, first_row, hit_view, selected_item,
};
use crate::dates::{DayInfo, parse_ymd, today};
use crate::models::{
    location_text, spec_parse_ymd_day, status_name, ActivityEntry, Client, ContactMoment, Project,
};
use crate::nav::{step_index, step_result, ListState};
use crate::text::{byte_len, byte_prefix, char_boundary, is_char_boundary, contains, copy_string, lower_contains, lowercase_chars, opt_or_default, opt_or_empty, owned, prefix_bytes, spec_to_lowercase, str_eq, utf8_bytes, chars_of, contains_chars};

verus! {

// ── Global search ────────────────────────────────────────────────────────────

/// `field`, lower-cased, contains the (lower-cased) query.
pub open spec fn field_hit(field: Seq<char>, ql: Seq<char>) -> bool {
    contains(spec_to_lowercase(field), ql)
}

/// A client matches when its name, domain, city, country or contact contains the query.
pub open spec fn client_hit(c: Client, ql: Seq<char>) -> bool {
    ||| field_hit(c.name@, ql)
    ||| field_hit(opt_or_empty(c.domain), ql)
    ||| field_hit(opt_or_empty(c.city), ql)
    ||| field_hit(opt_or_empty(c.country), ql)
    ||| field_hit(opt_or_empty(c.primary_contact), ql)
}

/// A project matches when its name, client, summary, status or owner contains the query.
pub open spec fn project_hit(p: Project, ql: Seq<char>) -> bool {
    ||| field_hit(p.name@, ql)
    ||| field_hit(opt_or_empty(p.client_name), ql)
    ||| field_hit(opt_or_empty(p.summary), ql)
    ||| contains(status_name(p.status), ql)
    ||| field_hit(opt_or_empty(p.owner), ql)
}

/// The hits among `cs`, in order, each with its position.
pub open spec fn client_hits(cs: Seq<Client>, ql: Seq<char>) -> Seq<SearchHit>
    decreases cs.len(),
{
    if cs.len() == 0 {
        Seq::empty()
    } else {
        let prev = client_hits(cs.drop_last(), ql);
        let c = cs.last();
        if client_hit(c, ql) {
            prev.push(
                SearchHit::Client {
                    idx: (cs.len() - 1) as usize,
                    name: c.name@,
                    subtitle: location_text(c.city, c.country),
                },
            )
        } else {
            prev
        }
    }
}

/// The hits among `ps`, in order, each with its position.
pub open spec fn project_hits(ps: Seq<Project>, ql: Seq<char>) -> Seq<SearchHit>
    decreases ps.len(),
{
    if ps.len() == 0 {
        Seq::empty()
    } else {
        let prev = project_hits(ps.drop_last(), ql);
        let p = ps.last();
        if project_hit(p, ql) {
            prev.push(
                SearchHit::Project {
                    idx: (ps.len() - 1) as usize,
                    name: p.name@,
                    client: opt_or_empty(p.client_name),
                    status: status_name(p.status),
                },
            )
        } else {
            prev
        }
    }
}

/// The views of the search results.
pub open spec fn hits_view(rs: Seq<SearchResult>) -> Seq<SearchHit> {
    rs.map_values(|r: SearchResult| hit_view(r))
}

fn field_hit_exec(field: &str, ql: &Vec<char>) -> (b: bool)
    ensures
        b == field_hit(field@, ql@),
{
    lower_contains(field, ql)
}

fn opt_field_hit(field: &Option<String>, ql: &Vec<char>) -> (b: bool)
    ensures
        b == field_hit(opt_or_empty(*field), ql@),
{
    let s = opt_or_default(field);
    lower_contains(s.as_str(), ql)
}

fn client_hit_exec(c: &Client, ql: &Vec<char>) -> (b: bool)
    ensures
        b == client_hit(*c, ql@),
{
    field_hit_exec(c.name.as_str(), ql) || opt_field_hit(&c.domain, ql) || opt_field_hit(&c.city, ql)
        || opt_field_hit(&c.country, ql) || opt_field_hit(&c.primary_contact, ql)
}

fn project_hit_exec(p: &Project, ql: &Vec<char>) -> (b: bool)
    ensures
        b == project_hit(*p, ql@),
{
    field_hit_exec(p.name.as_str(), ql) || opt_field_hit(&p.client_name, ql) || opt_field_hit(
        &p.summary,
        ql,
    ) || contains_chars(&chars_of(p.status.as_str()), ql) || opt_field_hit(&p.owner, ql)
}

/// The state after `commit_global_search`: the highlighted hit (the first when
/// none is highlighted) opens its client or project.
pub open spec fn committed(a: App) -> App {
    let sel = match a.search_list.selected { Some(i) => i, None => 0 };
    if sel < a.search_results@.len() {
        match a.search_results@[sel as int] {
            SearchResult::Client { idx, .. } => {
                let b = if a.active_view != View::Clients {
                    App { active_view: View::Clients, focus: crate::app::Focus::Left, ..a }
                } else {
                    a
                };
                App { client_list: ListState { selected: Some(idx) }, ..b }
            },
            SearchResult::Project { idx, .. } => {
                let b = if a.active_view != View::Projects {
                    App { active_view: View::Projects, focus: crate::app::Focus::Left, ..a }
                } else {
                    a
                };
                App {
                    project_list: ListState { selected: Some(idx) },
                    dashboard_list: ListState { selected: Some(idx) },
                    ..b
                }
            },
        }
    } else {
        a
    }
}

impl App {
    /// Starts a search with no results.
    pub fn init_search(&mut self)
        ensures
            final(self).search_results@.len() == 0,
            *final(self) == (App {
                search_results: final(self).search_results,
                search_list: ListState { selected: None },
                ..*old(self)
            }),
    {
        self.search_results = Vec::new();
        self.search_list.select(None);
    }

    /// Searches clients and projects for `q` (case-insensitively) and highlights
    /// the first hit. Client hits come first, then project hits, each in list order.
    pub fn global_search(&mut self, q: &str)
        ensures
            hits_view(final(self).search_results@) == (if q@.len() == 0 {
                Seq::empty()
            } else {
                client_hits(old(self).clients@, spec_to_lowercase(q@)) + project_hits(
                    old(self).projects@,
                    spec_to_lowercase(q@),
                )
            }),
            final(self).search_list.selected == first_row(final(self).search_results@.len()),
            *final(self) == (App {
                search_results: final(self).search_results,
                search_list: final(self).search_list,
                ..*old(self)
            }),
    {
        if q.unicode_len() == 0 {
            self.search_results = Vec::new();
            self.search_list.select(None);
            assert(hits_view(self.search_results@) =~= Seq::<SearchHit>::empty());
            return;
        }
        let ql = lowercase_chars(q);
        let ghost qs = spec_to_lowercase(q@);
        let mut results: Vec<SearchResult> = Vec::new();
        let mut i: usize = 0;
        while i < self.clients.len()
            invariant
                ql@ == qs,
                i <= self.clients@.len(),
                hits_view(results@) == client_hits(self.clients@.take(i as int), qs),
            decreases self.clients.len() - i,
        {
            let ghost ci = self.clients@.take(i + 1);
            assert(ci.drop_last() =~= self.clients@.take(i as int));
            let c = &self.clients[i];
            if client_hit_exec(c, &ql) {
                let r = SearchResult::Client {
                    idx: i,
                    name: copy_string(&c.name),
                    subtitle: c.location_str(),
                };
                let ghost before = results@;
                results.push(r);
                assert(hits_view(results@) =~= hits_view(before).push(hit_view(r)));
            } else {
                assert(hits_view(results@) =~= client_hits(ci, qs));
            }
            i = i + 1;
        }
        assert(self.clients@.take(i as int) =~= self.clients@);
        let ghost ch = hits_view(results@);
        let mut j: usize = 0;
        while j < self.projects.len()
            invariant
                ql@ == qs,
                j <= self.projects@.len(),
                hits_view(results@) == ch + project_hits(self.projects@.take(j as int), qs),
            decreases self.projects.len() - j,
        {
            let ghost pj = self.projects@.take(j + 1);
            assert(pj.drop_last() =~= self.projects@.take(j as int));
            let p = &self.projects[j];
            if project_hit_exec(p, &ql) {
                let r = SearchResult::Project {
                    idx: j,
                    name: copy_string(&p.name),
                    client: opt_or_default(&p.client_name),
                    status: owned(p.status.as_str()),
                };
                let ghost before = results@;
                results.push(r);
                assert(hits_view(results@) =~= hits_view(before).push(hit_view(r)));
                assert(ch + project_hits(pj, qs) =~= (ch + project_hits(
                    self.projects@.take(j as int),
                    qs,
                )).push(hit_view(r)));
            }
            j = j + 1;
        }
        assert(self.projects@.take(j as int) =~= self.projects@);
        let n = results.len();
        self.search_results = results;
        if n == 0 {
            self.search_list.select(None);
        } else {
            self.search_list.select(Some(0));
        }
    }

    /// Moves the search highlight by `delta` within the results; with no results
    /// nothing is highlighted.
    pub fn nav_search(&mut self, delta: i64)
        ensures
            *final(self) == (App {
                search_list: ListState {
                    selected: if old(self).search_results@.len() == 0 {
                        None
                    } else {
                        step_result(
                            old(self).search_list.selected,
                            old(self).search_results@.len(),
                            delta as int,
                        )
                    },
                },
                ..*old(self)
            }),
    {
        let count = self.search_results.len();
        if count == 0 {
            self.search_list.select(None);
            return;
        }
        let next = step_index(self.search_list.selected, count, delta);
        self.search_list.select(Some(next));
    }

    /// Opens the highlighted search hit: a client hit shows the clients view with
    /// that client highlighted; a project hit shows the projects view with that
    /// project highlighted (on the dashboard too).
    pub fn commit_global_search(&mut self)
        ensures
            *final(self) == committed(*old(self)),
    {
        let sel = match self.search_list.selected {
            Some(i) => i,
            None => 0,
        };
        if sel < self.search_results.len() {
            let target: (bool, usize) = match &self.search_results[sel] {
                SearchResult::Client { idx, .. } => (true, *idx),
                SearchResult::Project { idx, .. } => (false, *idx),
            };
            if target.0 {
                self.switch_view(View::Clients);
                self.client_list.select(Some(target.1));
            } else {
                self.switch_view(View::Projects);
                self.project_list.select(Some(target.1));
                self.dashboard_list.select(Some(target.1));
            }
        }
    }
}

// ── Follow-up ────────────────────────────────────────────────────────────────

/// The larger of two optional values.
pub open spec fn max_opt(a: Option<int>, b: Option<int>) -> Option<int> {
    match (a, b) {
        (Some(x), Some(y)) => Some(if x >= y { x } else { y }),
        (Some(x), None) => Some(x),
        (None, Some(y)) => Some(y),
        (None, None) => None,
    }
}

/// The day number of the latest contact with client `id` whose date parses.
pub open spec fn last_contact_day(cs: Seq<ContactMoment>, id: Seq<char>) -> Option<int>
    decreases cs.len(),
{
    if cs.len() == 0 {
        None
    } else {
        let c = cs.last();
        max_opt(
            last_contact_day(cs.drop_last(), id),
            if c.client_id@ == id { spec_parse_ymd_day(c.date@) } else { None },
        )
    }
}

/// Days from the latest contact with client `id` to `today`, if there is one.
pub open spec fn days_since(cs: Seq<ContactMoment>, id: Seq<char>, today: int) -> Option<int> {
    match last_contact_day(cs, id) {
        Some(d) => Some(today - d),
        None => None,
    }
}

/// How long client `c` has gone without contact, when that is a week or more:
/// counted from the latest contact, or, for a client never contacted, from the
/// creation date (the first 10 bytes of `created_at`).
pub open spec fn staleness(c: Client, cs: Seq<ContactMoment>, today: int) -> Option<int> {
    match days_since(cs, c.id@, today) {
        Some(d) => if d >= 7 { Some(d) } else { None },
        None => match spec_parse_ymd_day(byte_prefix(c.created_at@, 10)) {
            Some(created) => if today - created >= 7 { Some(today - created) } else { None },
            None => None,
        },
    }
}

/// The stale clients among `clients`, in order, with their days without contact.
pub open spec fn stale_list(clients: Seq<Client>, cs: Seq<ContactMoment>, today: int) -> Seq<
    (Client, int),
>
    decreases clients.len(),
{
    if clients.len() == 0 {
        Seq::empty()
    } else {
        let prev = stale_list(clients.drop_last(), cs, today);
        match staleness(clients.last(), cs, today) {
            Some(d) => prev.push((clients.last(), d)),
            None => prev,
        }
    }
}

/// The clients whose creation date can be read (a never-contacted client's
/// `created_at` must have at least 10 bytes, cut at a character boundary).
pub open spec fn created_dates_readable(clients: Seq<Client>, cs: Seq<ContactMoment>) -> bool {
    forall|i: int|
        0 <= i < clients.len() ==> last_contact_day(cs, (#[trigger] clients[i]).id@) is None
            ==> utf8_bytes(clients[i].created_at@).len() >= 10 && char_boundary(
            clients[i].created_at@,
            10,
        )
}

impl App {
    /// The day number of the latest contact with client `client_id` whose date parses.
    fn latest_contact_day(&self, client_id: &str) -> (r: Option<i32>)
        ensures
            match r {
                Some(b) => last_contact_day(self.contacts@, client_id@) == Some(b as int),
                None => last_contact_day(self.contacts@, client_id@) is None,
            },
    {
        let mut best: Option<i32> = None;
        let mut i: usize = 0;
        while i < self.contacts.len()
            invariant
                i <= self.contacts@.len(),
                match best {
                    Some(b) => last_contact_day(self.contacts@.take(i as int), client_id@) == Some(
                        b as int,
                    ),
                    None => last_contact_day(self.contacts@.take(i as int), client_id@) is None,
                },
            decreases self.contacts.len() - i,
        {
            assert(self.contacts@.take(i + 1).drop_last() =~= self.contacts@.take(i as int));
            let c = &self.contacts[i];
            if str_eq(c.client_id.as_str(), client_id) {
                match parse_ymd(c.date.as_str()) {
                    Some(d) => {
                        best = match best {
                            Some(b) => if b >= d.day {
                                Some(b)
                            } else {
                                Some(d.day)
                            },
                            None => Some(d.day),
                        };
                    },
                    None => {},
                }
            }
            i = i + 1;
        }
        assert(self.contacts@.take(i as int) =~= self.contacts@);
        best
    }

    /// Days since the latest contact with client `client_id`, counted to `today`;
    /// `None` when no contact date of that client parses.
    pub fn days_since_contact_on(&self, client_id: &str, today: DayInfo) -> (r: Option<i64>)
        ensures
            match r {
                Some(d) => days_since(self.contacts@, client_id@, today.day as int) == Some(
                    d as int,
                ),
                None => days_since(self.contacts@, client_id@, today.day as int) is None,
            },
    {
        match self.latest_contact_day(client_id) {
            Some(b) => Some(today.day as i64 - b as i64),
            None => None,
        }
    }

    /// Whether every client that was never contacted (no contact date parses) has a
    /// `created_at` whose first 10 bytes can be cut off, as the follow-up list needs.
    pub fn created_dates_ok(&self) -> (b: bool)
        ensures
            b == created_dates_readable(self.clients@, self.contacts@),
    {
        let mut i: usize = 0;
        while i < self.clients.len()
            invariant
                i <= self.clients@.len(),
                forall|k: int|
                    0 <= k < i ==> last_contact_day(self.contacts@, (#[trigger] self.clients@[k]).id@)
                        is None ==> utf8_bytes(self.clients@[k].created_at@).len() >= 10
                        && char_boundary(self.clients@[k].created_at@, 10),
            decreases self.clients.len() - i,
        {
            let c = &self.clients[i];
            if self.latest_contact_day(c.id.as_str()).is_none() {
                let created = c.created_at.as_str();
                if byte_len(created) < 10 || !is_char_boundary(created, 10) {
                    assert(!created_dates_readable(self.clients@, self.contacts@)) by {
                        assert(self.clients@[i as int] == *c);
                    }
                    return false;
                }
            }
            i = i + 1;
        }
        true
    }

    /// Days since the latest contact with client `client_id`, counted to today's
    /// local date; `None` when no contact date of that client parses.
    pub fn days_since_contact(&self, client_id: &str) -> (r: Option<i64>)
        ensures
            exists|t: i32|
                match r {
                    Some(d) => days_since(self.contacts@, client_id@, t as int) == Some(d as int),
                    None => days_since(self.contacts@, client_id@, t as int) is None,
                },
    {
        let t = today();
        self.days_since_contact_on(client_id, t)
    }

    /// The clients without contact for a week or more as of `today`, with the
    /// number of days.
    pub fn stale_clients_on(&self, today: DayInfo) -> (r: Vec<(&Client, i64)>)
        requires
            created_dates_readable(self.clients@, self.contacts@),
        ensures
            r@.map_values(|e: (&Client, i64)| (*e.0, e.1 as int)) == stale_list(
                self.clients@,
                self.contacts@,
                today.day as int,
            ),
    {
        let mut r: Vec<(&Client, i64)> = Vec::new();
        let mut i: usize = 0;
        while i < self.clients.len()
            invariant
                i <= self.clients@.len(),
                created_dates_readable(self.clients@, self.contacts@),
                r@.map_values(|e: (&Client, i64)| (*e.0, e.1 as int)) == stale_list(
                    self.clients@.take(i as int),
                    self.contacts@,
                    today.day as int,
                ),
            decreases self.clients.len() - i,
        {
            assert(self.clients@.take(i + 1).drop_last() =~= self.clients@.take(i as int));
            let c = &self.clients[i];
            let ghost before = r@;
            match self.days_since_contact_on(c.id.as_str(), today) {
                Some(d) => {
                    if d >= 7 {
                        r.push((c, d));
                    }
                },
                None => {
                    let head = prefix_bytes(c.created_at.as_str(), 10);
                    match parse_ymd(head) {
                        Some(created) => {
                            let d: i64 = today.day as i64 - created.day as i64;
                            if d >= 7 {
                                r.push((c, d));
                            }
                        },
                        None => {},
                    }
                },
            }
            assert(r@.map_values(|e: (&Client, i64)| (*e.0, e.1 as int)) =~= stale_list(
                self.clients@.take(i + 1),
                self.contacts@,
                today.day as int,
            )) by {
                assert(before.map_values(|e: (&Client, i64)| (*e.0, e.1 as int)) == stale_list(
                    self.clients@.take(i as int),
                    self.contacts@,
                    today.day as int,
                ));
            }
            i = i + 1;
        }
        assert(self.clients@.take(i as int) =~= self.clients@);
        r
    }

    /// The clients without contact for a week or more as of today's local date, or
    /// `None` when the creation date of a never-contacted client cannot be cut to
    /// its first 10 bytes.
    pub fn stale_clients_checked(&self) -> (r: Option<Vec<(&Client, i64)>>)
        ensures
            r is Some <==> created_dates_readable(self.clients@, self.contacts@),
            r matches Some(v) ==> exists|t: i32|
                v@.map_values(|e: (&Client, i64)| (*e.0, e.1 as int)) == stale_list(
                    self.clients@,
                    self.contacts@,
                    t as int,
                ),
    {
        if self.created_dates_ok() {
            Some(self.stale_clients())
        } else {
            None
        }
    }

    /// The clients without contact for a week or more as of today's local date.
    pub fn stale_clients(&self) -> (r: Vec<(&Client, i64)>)
        requires
            created_dates_readable(self.clients@, self.contacts@),
        ensures
            exists|t: i32|
                r@.map_values(|e: (&Client, i64)| (*e.0, e.1 as int)) == stale_list(
                    self.clients@,
                    self.contacts@,
                    t as int,
                ),
    {
        let t = today();
        self.stale_clients_on(t)
    }
}

// ── Hour log ─────────────────────────────────────────────────────────────────

/// An `hours` entry of project `pid`.
pub open spec fn is_hours_entry(a: ActivityEntry, pid: Seq<char>) -> bool {
    &&& match a.project_id {
        Some(p) => p@ == pid,
        None => false,
    }
    &&& a.kind@ == "hours"@
}

/// How many hour entries project `pid` has.
pub open spec fn hours_count(a: App, pid: Seq<char>) -> nat {
    a.activity@.filter(|e: ActivityEntry| is_hours_entry(e, pid)).len()
}

impl App {
    /// The hour entries of project `project_id`, in list order.
    pub fn project_hours(&self, project_id: &str) -> (r: Vec<&ActivityEntry>)
        ensures
            r@.map_values(|a: &ActivityEntry| *a) == self.activity@.filter(
                |a: ActivityEntry| is_hours_entry(a, project_id@),
            ),
    {
        let ghost pred = |a: ActivityEntry| is_hours_entry(a, project_id@);
        let mut r: Vec<&ActivityEntry> = Vec::new();
        let mut i: usize = 0;
        while i < self.activity.len()
            invariant
                i <= self.activity@.len(),
                pred == (|a: ActivityEntry| is_hours_entry(a, project_id@)),
                r@.map_values(|a: &ActivityEntry| *a) == self.activity@.take(i as int).filter(pred),
            decreases self.activity.len() - i,
        {
            proof {
                reveal_with_fuel(Seq::<_>::filter, 1);
                assert(self.activity@.take(i + 1).drop_last() =~= self.activity@.take(i as int));
            }
            let e = &self.activity[i];
            let hit = match &e.project_id {
                Some(p) => str_eq(p.as_str(), project_id) && str_eq(e.kind.as_str(), "hours"),
                None => false,
            };
            if hit {
                let ghost before = r@;
                r.push(e);
                assert(r@.map_values(|a: &ActivityEntry| *a) =~= before.map_values(
                    |a: &ActivityEntry| *a,
                ).push(self.activity@[i as int]));
            }
            i = i + 1;
        }
        assert(self.activity@.take(i as int) =~= self.activity@);
        r
    }

    /// How many hour entries project `project_id` has.
    pub fn project_hours_count(&self, project_id: &str) -> (n: usize)
        ensures
            n == hours_count(*self, project_id@),
    {
        let v = self.project_hours(project_id);
        assert(v@.map_values(|a: &ActivityEntry| *a).len() == v@.len());
        v.len()
    }

    /// Moves the hour-log highlight by `delta` within `count` entries; with no
    /// entries nothing is highlighted.
    pub fn nav_hours(&mut self, delta: i64, count: usize)
        ensures
            *final(self) == (App {
                hours_list: ListState {
                    selected: if count == 0 {
                        None
                    } else {
                        step_result(old(self).hours_list.selected, count as nat, delta as int)
                    },
                },
                ..*old(self)
            }),
    {
        if count == 0 {
            self.hours_list.select(None);
            return;
        }
        let next = step_index(self.hours_list.selected, count, delta);
        self.hours_list.select(Some(next));
    }

    /// The highlighted hour entry of project `project_id`.
    pub fn selected_hours_entry(&self, project_id: &str) -> (r: Option<&ActivityEntry>)
        ensures
            deref_opt(r) == selected_item(
                self.activity@.filter(|a: ActivityEntry| is_hours_entry(a, project_id@)),
                self.hours_list.selected,
            ),
    {
        let entries = self.project_hours(project_id);
        match self.hours_list.selected {
            Some(i) => if i < entries.len() {
                proof {
                    assert(entries@.map_values(|a: &ActivityEntry| *a)[i as int] == *entries@[i as int]);
                }
                Some(entries[i])
            } else {
                None
            },
            None => None,
        }
    }
}

} // verus!
