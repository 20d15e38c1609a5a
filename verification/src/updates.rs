//! Changes to the records: the records that saving a form writes, what deleting a
//! client archives, and how the state takes in records read back from disk.
use vstd::prelude::*;
use vstd::view::View as _;
use crate::app::{App, selected_contact_count};
use crate::dates::{new_id, now_timestamp, utc_stamp_text, uuid_v4_text};
use crate::forms::{NewClientForm, NewContactForm, NewProjectForm};
use crate::models::{
    status_from, ActivityEntry, Client, ContactMoment, Milestone, Project, ProjectStatus, Stats,
};
use crate::nav::{clamped, clamp_list};
use crate::store::{compute_stats, count_active, count_attention, repaired_text, repair_status_text};
use crate::text::{
    byte_len, byte_suffix, char_boundary, char_count, copy_opt, copy_string, i64_text, int_text,
    is_blank, lowercase_chars, non_empty, opt_view, owned, push_char, spec_to_lowercase,
    spec_to_uppercase, starts_with, starts_with_chars, str_eq, suffix_bytes, to_uppercase, trim,
    trimmed, utf8_bytes,
};

verus! {

/// `Some(trimmed s)`, or `None` when `s` is blank (`non_empty`).
pub open spec fn non_empty_text(s: Seq<char>) -> Option<Seq<char>> {
    if is_blank(s) { None } else { Some(trim(s)) }
}

/// `s` left-padded with zeros to at least three characters (`{:03}`).
pub open spec fn pad3(s: Seq<char>) -> Seq<char> {
    if s.len() >= 3 { s } else if s.len() == 2 { seq!['0'] + s } else if s.len() == 1 { seq!['0', '0'] + s } else { seq!['0', '0', '0'] }
}

/// The first client with id `id`.
pub open spec fn client_with_id(cs: Seq<Client>, id: Seq<char>) -> Option<Client>
    decreases cs.len(),
{
    if cs.len() == 0 {
        None
    } else if cs[0].id@ == id {
        Some(cs[0])
    } else {
        client_with_id(cs.drop_first(), id)
    }
}

/// The position of the first record with id `id`.
pub open spec fn position_of_id(ids: Seq<Seq<char>>, id: Seq<char>) -> Option<usize>
    decreases ids.len(),
{
    if ids.len() == 0 {
        None
    } else {
        match position_of_id(ids.drop_last(), id) {
            Some(i) => Some(i),
            None => if ids.last() == id { Some((ids.len() - 1) as usize) } else { None },
        }
    }
}

pub open spec fn client_ids(cs: Seq<Client>) -> Seq<Seq<char>> {
    cs.map_values(|c: Client| c.id@)
}

pub open spec fn project_ids(ps: Seq<Project>) -> Seq<Seq<char>> {
    ps.map_values(|p: Project| p.id@)
}

pub open spec fn contact_ids(cs: Seq<ContactMoment>) -> Seq<Seq<char>> {
    cs.map_values(|c: ContactMoment| c.id@)
}

pub open spec fn activity_ids(es: Seq<ActivityEntry>) -> Seq<Seq<char>> {
    es.map_values(|e: ActivityEntry| e.id@)
}

/// The position of the first record whose id is `id`.
pub fn position_of(ids: &Vec<&str>, id: &str) -> (r: Option<usize>)
    ensures
        r == position_of_id(ids@.map_values(|s: &str| s@), id@),
{
    let ghost all = ids@.map_values(|s: &str| s@);
    let mut i: usize = 0;
    while i < ids.len()
        invariant
            i <= ids@.len(),
            all == ids@.map_values(|s: &str| s@),
            position_of_id(all.take(i as int), id@) is None,
        decreases ids.len() - i,
    {
        assert(all.take(i + 1).drop_last() =~= all.take(i as int));
        if str_eq(ids[i], id) {
            proof {
                lemma_position_extend(all, i as int, id@);
            }
            return Some(i);
        }
        i = i + 1;
    }
    assert(all.take(i as int) =~= all);
    None
}

proof fn lemma_position_extend(all: Seq<Seq<char>>, i: int, id: Seq<char>)
    requires
        0 <= i < all.len() <= usize::MAX,
        all[i] == id,
        position_of_id(all.take(i), id) is None,
    ensures
        position_of_id(all, id) == Some(i as usize),
    decreases all.len() - i,
{
    if i + 1 == all.len() {
        assert(all.drop_last() =~= all.take(i));
    } else {
        assert(all.drop_last().take(i) =~= all.take(i));
        lemma_position_extend(all.drop_last(), i, id);
    }
}

/// The position of the client with id `id`.
pub fn client_position(clients: &Vec<Client>, id: &str) -> (r: Option<usize>)
    ensures
        r == position_of_id(client_ids(clients@), id@),
{
    let mut ids: Vec<&str> = Vec::new();
    let mut i: usize = 0;
    while i < clients.len()
        invariant
            i <= clients@.len(),
            ids@.len() == i,
            ids@.map_values(|s: &str| s@) == client_ids(clients@).take(i as int),
        decreases clients.len() - i,
    {
        ids.push(clients[i].id.as_str());
        i = i + 1;
        assert(ids@.map_values(|s: &str| s@) =~= client_ids(clients@).take(i as int));
    }
    assert(client_ids(clients@).take(i as int) =~= client_ids(clients@));
    position_of(&ids, id)
}

/// The position of the project with id `id`.
pub fn project_position(projects: &Vec<Project>, id: &str) -> (r: Option<usize>)
    ensures
        r == position_of_id(project_ids(projects@), id@),
{
    let mut ids: Vec<&str> = Vec::new();
    let mut i: usize = 0;
    while i < projects.len()
        invariant
            i <= projects@.len(),
            ids@.len() == i,
            ids@.map_values(|s: &str| s@) == project_ids(projects@).take(i as int),
        decreases projects.len() - i,
    {
        ids.push(projects[i].id.as_str());
        i = i + 1;
        assert(ids@.map_values(|s: &str| s@) =~= project_ids(projects@).take(i as int));
    }
    assert(project_ids(projects@).take(i as int) =~= project_ids(projects@));
    position_of(&ids, id)
}

/// The position of the contact moment with id `id`.
pub fn contact_position(contacts: &Vec<ContactMoment>, id: &str) -> (r: Option<usize>)
    ensures
        r == position_of_id(contact_ids(contacts@), id@),
{
    let mut ids: Vec<&str> = Vec::new();
    let mut i: usize = 0;
    while i < contacts.len()
        invariant
            i <= contacts@.len(),
            ids@.len() == i,
            ids@.map_values(|s: &str| s@) == contact_ids(contacts@).take(i as int),
        decreases contacts.len() - i,
    {
        ids.push(contacts[i].id.as_str());
        i = i + 1;
        assert(ids@.map_values(|s: &str| s@) =~= contact_ids(contacts@).take(i as int));
    }
    assert(contact_ids(contacts@).take(i as int) =~= contact_ids(contacts@));
    position_of(&ids, id)
}

/// The position of the activity entry with id `id`.
pub fn activity_position(entries: &Vec<ActivityEntry>, id: &str) -> (r: Option<usize>)
    ensures
        r == position_of_id(activity_ids(entries@), id@),
{
    let mut ids: Vec<&str> = Vec::new();
    let mut i: usize = 0;
    while i < entries.len()
        invariant
            i <= entries@.len(),
            ids@.len() == i,
            ids@.map_values(|s: &str| s@) == activity_ids(entries@).take(i as int),
        decreases entries.len() - i,
    {
        ids.push(entries[i].id.as_str());
        i = i + 1;
        assert(ids@.map_values(|s: &str| s@) =~= activity_ids(entries@).take(i as int));
    }
    assert(activity_ids(entries@).take(i as int) =~= activity_ids(entries@));
    position_of(&ids, id)
}

proof fn lemma_position_is_first(ids: Seq<Seq<char>>, id: Seq<char>)
    requires
        ids.len() <= usize::MAX,
    ensures
        match position_of_id(ids, id) {
            Some(i) => i < ids.len() && ids[i as int] == id && forall|k: int|
                0 <= k < i ==> ids[k] != id,
            None => forall|k: int| 0 <= k < ids.len() ==> ids[k] != id,
        },
    decreases ids.len(),
{
    if ids.len() > 0 {
        let d = ids.drop_last();
        lemma_position_is_first(d, id);
        assert forall|k: int| 0 <= k < d.len() implies ids[k] == d[k] by {}
    }
}

/// The position of the first record with a given id is the first record with it.
pub proof fn law_position_is_first_match(ids: Seq<Seq<char>>, id: Seq<char>)
    requires
        ids.len() <= usize::MAX,
    ensures
        match position_of_id(ids, id) {
            Some(i) => i < ids.len() && ids[i as int] == id && forall|k: int|
                0 <= k < i ==> ids[k] != id,
            None => forall|k: int| 0 <= k < ids.len() ==> ids[k] != id,
        },
{
    lemma_position_is_first(ids, id);
}

fn pad3_exec(s: String) -> (r: String)
    ensures
        r@ == pad3(s@),
{
    let n = char_count(&s);
    if n >= 3 {
        s
    } else {
        let mut r = String::new();
        let mut k = n;
        while k < 3
            invariant
                n <= k <= 3,
                n == s@.len(),
                r@ == Seq::new((k - n) as nat, |i: int| '0'),
            decreases 3 - k,
        {
            push_char(&mut r, '0');
            k = k + 1;
            assert(r@ =~= Seq::new((k - n) as nat, |i: int| '0'));
        }
        r.append(s.as_str());
        assert(r@ =~= pad3(s@));
        r
    }
}

// ── Clients ──────────────────────────────────────────────────────────────────

/// The record that saving a client form writes. `rate_cents` is the parsed rate
/// field; `now` the current time; `fresh_id` the id a new client gets.
pub open spec fn saved_client_ok(
    r: Client,
    form: NewClientForm,
    clients: Seq<Client>,
    now: Seq<char>,
    fresh_id: Seq<char>,
    rate_cents: Option<i64>,
) -> bool {
    let f = form.fields@;
    &&& r.name@ == trim(f[0].value@)
    &&& opt_view(r.domain) == non_empty_text(f[1].value@)
    &&& opt_view(r.city) == non_empty_text(f[2].value@)
    &&& opt_view(r.country) == non_empty_text(f[3].value@)
    &&& opt_view(r.primary_contact) == non_empty_text(f[4].value@)
    &&& opt_view(r.primary_role) == non_empty_text(f[5].value@)
    &&& r.currency@ == (if is_blank(f[6].value@) {
        "EUR"@
    } else {
        spec_to_uppercase(trim(f[6].value@))
    })
    &&& r.default_rate_cents == rate_cents
    &&& r.updated_at@ == now
    &&& match form.edit_id {
        Some(id) => {
            let ex = client_with_id(clients, id@);
            &&& r.id@ == id@
            &&& r.status@ == (match ex {
                Some(c) => c.status@,
                None => "active"@,
            })
            &&& opt_view(r.acct_code) == (match ex {
                Some(c) => opt_view(c.acct_code),
                None => None,
            })
            &&& r.created_at@ == (match ex {
                Some(c) => c.created_at@,
                None => now,
            })
        },
        None => {
            &&& r.id@ == fresh_id
            &&& r.status@ == "active"@
            &&& opt_view(r.acct_code) == Some("n-"@ + pad3(int_text(clients.len() as int + 1)))
            &&& r.created_at@ == now
        },
    }
}

/// The first client with id `id`.
fn find_client<'a>(clients: &'a Vec<Client>, id: &str) -> (r: Option<&'a Client>)
    ensures
        crate::app::deref_opt(r) == client_with_id(clients@, id@),
{
    let mut i: usize = 0;
    assert(clients@.skip(0) =~= clients@);
    while i < clients.len()
        invariant
            i <= clients@.len(),
            client_with_id(clients@, id@) == client_with_id(clients@.skip(i as int), id@),
        decreases clients.len() - i,
    {
        assert(clients@.skip(i as int).drop_first() =~= clients@.skip(i + 1));
        assert(clients@.skip(i as int)[0] == clients@[i as int]);
        if str_eq(clients[i].id.as_str(), id) {
            return Some(&clients[i]);
        }
        i = i + 1;
    }
    None
}

impl App {
    /// The client record that saving `form` writes: an edit keeps the client's
    /// id, status, account code and creation time; a new client gets `fresh_id`,
    /// status `active` and account code `n-<count+1>`.
    pub fn client_from_form(
        &self,
        form: &NewClientForm,
        now: String,
        fresh_id: String,
        rate_cents: Option<i64>,
    ) -> (r: Client)
        requires
            form.fields@.len() >= 8,
            self.clients@.len() < i64::MAX,
            self.clients@.len() < usize::MAX,
        ensures
            saved_client_ok(r, *form, self.clients@, now@, fresh_id@, rate_cents),
    {
        let name = trimmed(form.fields[0].value.as_str());
        let cur = trimmed(form.fields[6].value.as_str());
        let currency = if char_count(&cur) == 0 {
            owned("EUR")
        } else {
            to_uppercase(cur.as_str())
        };
        let domain = non_empty(form.fields[1].value.as_str());
        let city = non_empty(form.fields[2].value.as_str());
        let country = non_empty(form.fields[3].value.as_str());
        let contact = non_empty(form.fields[4].value.as_str());
        let role = non_empty(form.fields[5].value.as_str());
        match &form.edit_id {
            Some(id) => {
                let existing = find_client(&self.clients, id.as_str());
                let (status, acct_code, created_at) = match existing {
                    Some(c) => (copy_string(&c.status), copy_opt(&c.acct_code), copy_string(&c.created_at)),
                    None => (owned("active"), None, copy_string(&now)),
                };
                Client {
                    id: copy_string(id),
                    name,
                    domain,
                    city,
                    country,
                    primary_contact: contact,
                    primary_role: role,
                    currency,
                    default_rate_cents: rate_cents,
                    status,
                    acct_code,
                    created_at,
                    updated_at: now,
                }
            },
            None => {
                let next = self.clients.len() + 1;
                let mut acct = owned("n-");
                acct.append(pad3_exec(i64_text(next as i64)).as_str());
                Client {
                    id: fresh_id,
                    name,
                    domain,
                    city,
                    country,
                    primary_contact: contact,
                    primary_role: role,
                    currency,
                    default_rate_cents: rate_cents,
                    status: owned("active"),
                    acct_code: Some(acct),
                    created_at: copy_string(&now),
                    updated_at: now,
                }
            },
        }
    }

    /// The client record that saving `form` writes now (a new client gets a fresh
    /// random id).
    pub fn new_client_record(&self, form: &NewClientForm, rate_cents: Option<i64>) -> (r: Client)
        requires
            form.fields@.len() >= 8,
            self.clients@.len() < i64::MAX,
            self.clients@.len() < usize::MAX,
        ensures
            exists|now: Seq<char>, fresh: Seq<char>|
                utc_stamp_text(now) && uuid_v4_text(fresh) && #[trigger] saved_client_ok(
                    r,
                    *form,
                    self.clients@,
                    now,
                    fresh,
                    rate_cents,
                ),
    {
        let now = now_timestamp();
        let fresh = new_id();
        self.client_from_form(form, now, fresh, rate_cents)
    }

    /// Takes in the clients read back after saving client `saved_id`, recounts the
    /// dashboard, and highlights the saved client when it is found.
    pub fn after_client_saved(
        &mut self,
        clients: Vec<Client>,
        near_budget: &Vec<bool>,
        saved_id: &str,
    )
        requires
            near_budget@.len() == old(self).projects@.len(),
        ensures
            final(self).clients == clients,
            stats_of(final(self).stats, clients@.len(), old(self).projects@, near_budget@),
            final(self).client_list.selected == (match position_of_id(client_ids(clients@), saved_id@) {
                Some(i) => Some(i),
                None => old(self).client_list.selected,
            }),
            *final(self) == (App {
                clients: final(self).clients,
                stats: final(self).stats,
                client_list: final(self).client_list,
                ..*old(self)
            }),
    {
        let pos = client_position(&clients, saved_id);
        self.stats = compute_stats(&clients, &self.projects, near_budget);
        self.clients = clients;
        if let Some(i) = pos {
            self.client_list.select(Some(i));
        }
    }

    /// Archives every project of client `id` (before the client is deleted) and
    /// returns the positions of the archived projects, which are to be saved.
    pub fn archive_client_projects(&mut self, id: &str) -> (changed: Vec<usize>)
        ensures
            final(self).projects@.len() == old(self).projects@.len(),
            forall|i: int|
                0 <= i < old(self).projects@.len() ==> #[trigger] final(self).projects@[i] == (if old(
                    self,
                ).projects@[i].client_id@ == id@ {
                    Project { status: ProjectStatus::Archived, ..old(self).projects@[i] }
                } else {
                    old(self).projects@[i]
                }),
            changed@ == Seq::new(old(self).projects@.len(), |i: int| i as usize).filter(
                |i: usize| old(self).projects@[i as int].client_id@ == id@,
            ),
            *final(self) == (App { projects: final(self).projects, ..*old(self) }),
    {
        let ghost orig = self.projects@;
        let ghost all = Seq::new(orig.len(), |i: int| i as usize);
        let ghost pred = |i: usize| orig[i as int].client_id@ == id@;
        let mut changed: Vec<usize> = Vec::new();
        let mut i: usize = 0;
        while i < self.projects.len()
            invariant
                self.projects@.len() == orig.len(),
                i <= orig.len(),
                all == Seq::new(orig.len(), |i: int| i as usize),
                pred == (|i: usize| orig[i as int].client_id@ == id@),
                forall|k: int|
                    0 <= k < orig.len() ==> #[trigger] self.projects@[k] == (if k < i
                        && orig[k].client_id@ == id@ {
                        Project { status: ProjectStatus::Archived, ..orig[k] }
                    } else {
                        orig[k]
                    }),
                changed@ == all.take(i as int).filter(pred),
                *self == (App { projects: self.projects, ..*old(self) }),
            decreases orig.len() - i,
        {
            proof {
                reveal_with_fuel(Seq::<_>::filter, 1);
                assert(all.take(i + 1).drop_last() =~= all.take(i as int));
            }
            if str_eq(self.projects[i].client_id.as_str(), id) {
                let mut p = self.projects.remove(i);
                p.status = ProjectStatus::Archived;
                self.projects.insert(i, p);
                changed.push(i);
            }
            i = i + 1;
        }
        assert(all.take(i as int) =~= all);
        changed
    }

    /// Takes in the clients and projects read back after deleting a client,
    /// recounts the dashboard and keeps every list's highlight within its list.
    pub fn after_client_deleted(
        &mut self,
        clients: Vec<Client>,
        projects: Vec<Project>,
        near_budget: &Vec<bool>,
    )
        requires
            near_budget@.len() == projects@.len(),
        ensures
            final(self).clients == clients,
            final(self).projects == projects,
            stats_of(final(self).stats, clients@.len(), projects@, near_budget@),
            final(self).client_list.selected == clamped(
                old(self).client_list.selected,
                clients@.len(),
            ),
            final(self).project_list.selected == clamped(
                old(self).project_list.selected,
                projects@.len(),
            ),
            final(self).dashboard_list.selected == clamped(
                old(self).dashboard_list.selected,
                projects@.len(),
            ),
            *final(self) == (App {
                clients: final(self).clients,
                projects: final(self).projects,
                stats: final(self).stats,
                client_list: final(self).client_list,
                project_list: final(self).project_list,
                dashboard_list: final(self).dashboard_list,
                ..*old(self)
            }),
    {
        self.stats = compute_stats(&clients, &projects, near_budget);
        let cn = clients.len();
        let pn = projects.len();
        self.clients = clients;
        self.projects = projects;
        clamp_list(&mut self.client_list, cn);
        clamp_list(&mut self.project_list, pn);
        clamp_list(&mut self.dashboard_list, pn);
    }

    // ── Projects ─────────────────────────────────────────────────────────────

    /// Takes in the projects read back after a project was deleted, recounts the
    /// dashboard and keeps the project highlights within the list.
    pub fn after_project_deleted(&mut self, projects: Vec<Project>, near_budget: &Vec<bool>)
        requires
            near_budget@.len() == projects@.len(),
        ensures
            final(self).projects == projects,
            stats_of(final(self).stats, old(self).clients@.len(), projects@, near_budget@),
            final(self).project_list.selected == clamped(
                old(self).project_list.selected,
                projects@.len(),
            ),
            final(self).dashboard_list.selected == clamped(
                old(self).dashboard_list.selected,
                projects@.len(),
            ),
            *final(self) == (App {
                projects: final(self).projects,
                stats: final(self).stats,
                project_list: final(self).project_list,
                dashboard_list: final(self).dashboard_list,
                ..*old(self)
            }),
    {
        self.stats = compute_stats(&self.clients, &projects, near_budget);
        let pn = projects.len();
        self.projects = projects;
        clamp_list(&mut self.project_list, pn);
        clamp_list(&mut self.dashboard_list, pn);
    }

    /// Takes in projects read back from disk and recounts the dashboard.
    pub fn after_projects_changed(&mut self, projects: Vec<Project>, near_budget: &Vec<bool>)
        requires
            near_budget@.len() == projects@.len(),
        ensures
            final(self).projects == projects,
            stats_of(final(self).stats, old(self).clients@.len(), projects@, near_budget@),
            *final(self) == (App {
                projects: final(self).projects,
                stats: final(self).stats,
                ..*old(self)
            }),
    {
        self.stats = compute_stats(&self.clients, &projects, near_budget);
        self.projects = projects;
    }

    /// Takes in the projects read back after saving project `saved_id`, recounts
    /// the dashboard, and highlights the saved project (in both lists) when found.
    pub fn after_project_saved(
        &mut self,
        projects: Vec<Project>,
        near_budget: &Vec<bool>,
        saved_id: &str,
    )
        requires
            near_budget@.len() == projects@.len(),
        ensures
            final(self).projects == projects,
            stats_of(final(self).stats, old(self).clients@.len(), projects@, near_budget@),
            final(self).project_list.selected == (match position_of_id(project_ids(projects@), saved_id@) {
                Some(i) => Some(i),
                None => old(self).project_list.selected,
            }),
            final(self).dashboard_list.selected == (match position_of_id(project_ids(projects@), saved_id@) {
                Some(i) => Some(i),
                None => old(self).dashboard_list.selected,
            }),
            *final(self) == (App {
                projects: final(self).projects,
                stats: final(self).stats,
                project_list: final(self).project_list,
                dashboard_list: final(self).dashboard_list,
                ..*old(self)
            }),
    {
        let pos = project_position(&projects, saved_id);
        self.stats = compute_stats(&self.clients, &projects, near_budget);
        self.projects = projects;
        if let Some(i) = pos {
            self.project_list.select(Some(i));
            self.dashboard_list.select(Some(i));
        }
    }

    /// Takes in activity and projects read back after hours were logged, changed
    /// or removed, and recounts the dashboard.
    pub fn after_hours_changed(
        &mut self,
        activity: Vec<ActivityEntry>,
        projects: Vec<Project>,
        near_budget: &Vec<bool>,
    )
        requires
            near_budget@.len() == projects@.len(),
        ensures
            final(self).activity == activity,
            final(self).projects == projects,
            stats_of(final(self).stats, old(self).clients@.len(), projects@, near_budget@),
            *final(self) == (App {
                activity: final(self).activity,
                projects: final(self).projects,
                stats: final(self).stats,
                ..*old(self)
            }),
    {
        self.stats = compute_stats(&self.clients, &projects, near_budget);
        self.activity = activity;
        self.projects = projects;
    }

    /// The text of broken project file `idx` with its status lines set to `status`.
    pub fn repair_text(&self, idx: usize, status: ProjectStatus) -> (r: String)
        requires
            idx < self.broken_projects@.len(),
        ensures
            r@ == repaired_text(self.broken_projects@[idx as int].raw_toml@, status),
    {
        repair_status_text(self.broken_projects[idx].raw_toml.as_str(), status)
    }

    // ── Contacts ─────────────────────────────────────────────────────────────

    /// The contact record that saving `form` writes: an edit keeps the id and the
    /// creation time of the contact being edited.
    pub fn contact_from_form(&self, form: &NewContactForm, now: String, fresh_id: String) -> (r:
        ContactMoment)
        requires
            form.fields@.len() >= 3,
        ensures
            saved_contact_ok(r, *form, self.contacts@, now@, fresh_id@),
    {
        let (id, created_at) = match &form.edit_id {
            Some(eid) => {
                let _n = self.contacts.len();
                let created = match contact_position(&self.contacts, eid.as_str()) {
                    Some(i) => {
                        proof {
                            assert(contact_ids(self.contacts@).len() == self.contacts@.len());
                            lemma_position_is_first(contact_ids(self.contacts@), eid@);
                        }
                        copy_string(&self.contacts[i].created_at)
                    },
                    None => copy_string(&now),
                };
                (copy_string(eid), created)
            },
            None => (fresh_id, copy_string(&now)),
        };
        ContactMoment {
            id,
            client_id: copy_string(&form.client_id),
            kind: copy_string(&form.fields[1].value),
            summary: trimmed(form.fields[2].value.as_str()),
            date: trimmed(form.fields[0].value.as_str()),
            created_at,
        }
    }

    /// The contact record that saving `form` writes now (a new contact gets a
    /// fresh random id).
    pub fn new_contact_record(&self, form: &NewContactForm) -> (r: ContactMoment)
        requires
            form.fields@.len() >= 3,
        ensures
            exists|now: Seq<char>, fresh: Seq<char>|
                utc_stamp_text(now) && uuid_v4_text(fresh) && #[trigger] saved_contact_ok(
                    r,
                    *form,
                    self.contacts@,
                    now,
                    fresh,
                ),
    {
        let now = now_timestamp();
        let fresh = new_id();
        self.contact_from_form(form, now, fresh)
    }

    /// Takes in the contacts read back after one was deleted and keeps the contact
    /// highlight within the highlighted client's contacts.
    pub fn after_contact_deleted(&mut self, contacts: Vec<ContactMoment>)
        ensures
            final(self).contacts == contacts,
            final(self).contact_list.selected == clamped(
                old(self).contact_list.selected,
                selected_contact_count(App { contacts: contacts, ..*old(self) }),
            ),
            *final(self) == (App {
                contacts: final(self).contacts,
                contact_list: final(self).contact_list,
                ..*old(self)
            }),
    {
        self.contacts = contacts;
        let count = self.selected_client_contact_count();
        clamp_list(&mut self.contact_list, count);
    }
}

/// The dashboard counters of `n_clients` clients and `projects`.
pub open spec fn stats_of(s: Stats, n_clients: nat, projects: Seq<Project>, near_budget: Seq<bool>) -> bool {
    &&& s.total_clients == n_clients
    &&& s.total_projects == projects.len()
    &&& s.active_projects == count_active(projects)
    &&& s.attention_count == count_attention(projects, near_budget)
    &&& s.clients_this_quarter == 0
}

/// The record that saving a contact form writes.
pub open spec fn saved_contact_ok(
    r: ContactMoment,
    form: NewContactForm,
    contacts: Seq<ContactMoment>,
    now: Seq<char>,
    fresh_id: Seq<char>,
) -> bool {
    let f = form.fields@;
    &&& r.client_id@ == form.client_id@
    &&& r.kind@ == f[1].value@
    &&& r.summary@ == trim(f[2].value@)
    &&& r.date@ == trim(f[0].value@)
    &&& match form.edit_id {
        Some(id) => {
            &&& r.id@ == id@
            &&& r.created_at@ == (match position_of_id(contact_ids(contacts), id@) {
                Some(i) => contacts[i as int].created_at@,
                None => now,
            })
        },
        None => r.id@ == fresh_id && r.created_at@ == now,
    }
}


// ── Project records ──────────────────────────────────────────────────────────

/// What a milestone says.
pub open spec fn milestone_view(m: Milestone) -> (Seq<char>, Seq<char>, Option<Seq<char>>, Option<Seq<char>>, i64) {
    (m.id@, m.title@, opt_view(m.done_at), opt_view(m.due_at), m.ord)
}

pub open spec fn milestones_view(ms: Seq<Milestone>) -> Seq<(Seq<char>, Seq<char>, Option<Seq<char>>, Option<Seq<char>>, i64)> {
    ms.map_values(|m: Milestone| milestone_view(m))
}

/// The first client whose lower-cased name begins with `q`.
pub open spec fn client_by_prefix(cs: Seq<Client>, q: Seq<char>) -> Option<Client>
    decreases cs.len(),
{
    if cs.len() == 0 {
        None
    } else if starts_with(spec_to_lowercase(cs[0].name@), q) {
        Some(cs[0])
    } else {
        client_by_prefix(cs.drop_first(), q)
    }
}

/// The message of a project form whose client field matches no client.
pub open spec fn no_client_message(typed: Seq<char>) -> Seq<char> {
    "no client matching '"@ + trim(typed) + "'"@
}

/// The record that saving a project form writes, for client `client_id`.
pub open spec fn saved_project_ok(
    r: Project,
    form: NewProjectForm,
    projects: Seq<Project>,
    client_id: Seq<char>,
    now: Seq<char>,
    fresh_id: Seq<char>,
    budget_hours_bits: Option<u64>,
    rate_cents: Option<i64>,
) -> bool {
    let f = form.fields@;
    let ex = match form.edit_id {
        Some(eid) => match position_of_id(project_ids(projects), eid@) {
            Some(i) => Some(projects[i as int]),
            None => None,
        },
        None => None,
    };
    &&& r.id@ == (match form.edit_id {
        Some(eid) => eid@,
        None => fresh_id,
    })
    &&& r.client_id@ == client_id
    &&& r.name@ == trim(f[0].value@)
    &&& opt_view(r.summary) == non_empty_text(f[2].value@)
    &&& r.status == status_from(trim(f[3].value@))
    &&& r.budget_hours_bits == budget_hours_bits
    &&& r.budget_kind@ == f[4].value@
    &&& r.rate_cents == rate_cents
    &&& opt_view(r.deadline) == non_empty_text(f[7].value@)
    &&& opt_view(r.owner) == non_empty_text(f[8].value@)
    &&& opt_view(r.repo_url) == non_empty_text(f[9].value@)
    &&& r.updated_at@ == now
    &&& r.client_name is None
    &&& match ex {
        Some(e) => {
            &&& r.spent_hours_bits == e.spent_hours_bits
            &&& r.created_at@ == e.created_at@
            &&& milestones_view(r.milestones@) == milestones_view(e.milestones@)
            &&& r.pulse@ == e.pulse@
        },
        None => {
            &&& r.spent_hours_bits == 0
            &&& r.created_at@ == now
            &&& r.milestones@.len() == 0
            &&& r.pulse@.len() == 0
        },
    }
}

fn copy_milestones(ms: &Vec<Milestone>) -> (r: Vec<Milestone>)
    ensures
        milestones_view(r@) == milestones_view(ms@),
{
    let mut r: Vec<Milestone> = Vec::new();
    let mut i: usize = 0;
    while i < ms.len()
        invariant
            i <= ms@.len(),
            r@.len() == i,
            milestones_view(r@) == milestones_view(ms@).take(i as int),
        decreases ms.len() - i,
    {
        let m = &ms[i];
        r.push(
            Milestone {
                id: copy_string(&m.id),
                title: copy_string(&m.title),
                done_at: copy_opt(&m.done_at),
                due_at: copy_opt(&m.due_at),
                ord: m.ord,
            },
        );
        i = i + 1;
        assert(milestones_view(r@) =~= milestones_view(ms@).take(i as int));
    }
    assert(milestones_view(ms@).take(i as int) =~= milestones_view(ms@));
    r
}

fn copy_bytes(v: &Vec<u8>) -> (r: Vec<u8>)
    ensures
        r@ == v@,
{
    let mut r: Vec<u8> = Vec::new();
    let mut i: usize = 0;
    while i < v.len()
        invariant
            i <= v@.len(),
            r@ == v@.take(i as int),
        decreases v.len() - i,
    {
        r.push(v[i]);
        i = i + 1;
        assert(r@ =~= v@.take(i as int));
    }
    assert(v@.take(i as int) =~= v@);
    r
}

/// The first client whose lower-cased name begins with `q`.
pub(crate) fn find_client_by_prefix<'a>(clients: &'a Vec<Client>, q: &Vec<char>) -> (r: Option<&'a Client>)
    ensures
        crate::app::deref_opt(r) == client_by_prefix(clients@, q@),
{
    let mut i: usize = 0;
    assert(clients@.skip(0) =~= clients@);
    while i < clients.len()
        invariant
            i <= clients@.len(),
            client_by_prefix(clients@, q@) == client_by_prefix(clients@.skip(i as int), q@),
        decreases clients.len() - i,
    {
        assert(clients@.skip(i as int).drop_first() =~= clients@.skip(i + 1));
        assert(clients@.skip(i as int)[0] == clients@[i as int]);
        let lower = lowercase_chars(clients[i].name.as_str());
        if starts_with_chars(&lower, q) {
            return Some(&clients[i]);
        }
        i = i + 1;
    }
    None
}

/// Why a record cannot be saved.
#[derive(Debug, Clone, PartialEq, Eq)]
pub enum SaveError {
    /// What was typed matches nothing (reported as `std::io::ErrorKind::NotFound`),
    /// with the message shown.
    NotFound(String),
}

impl App {
    /// The project record that saving `form` writes, or a `NotFound` error with the
    /// message shown when the client field matches no client (case-insensitive prefix of a client name).
    /// `budget_hours_bits` and `rate_cents` are the parsed budget and rate fields.
    pub fn project_from_form(
        &self,
        form: &NewProjectForm,
        now: String,
        fresh_id: String,
        budget_hours_bits: Option<u64>,
        rate_cents: Option<i64>,
    ) -> (r: Result<Project, SaveError>)
        requires
            form.fields@.len() >= 10,
        ensures
            match client_by_prefix(
                self.clients@,
                spec_to_lowercase(trim(form.fields@[1].value@)),
            ) {
                Some(c) => r matches Ok(p) && saved_project_ok(
                    p,
                    *form,
                    self.projects@,
                    c.id@,
                    now@,
                    fresh_id@,
                    budget_hours_bits,
                    rate_cents,
                ),
                None => r matches Err(SaveError::NotFound(msg)) && msg@ == no_client_message(
                    form.fields@[1].value@,
                ),
            },
    {
        let typed = trimmed(form.fields[1].value.as_str());
        let q = lowercase_chars(typed.as_str());
        let client_id = match find_client_by_prefix(&self.clients, &q) {
            Some(c) => copy_string(&c.id),
            None => {
                let mut msg = owned("no client matching '");
                msg.append(typed.as_str());
                msg.append("'");
                return Err(SaveError::NotFound(msg));
            },
        };
        let _n = self.projects.len();
        let existing: Option<&Project> = match &form.edit_id {
            Some(eid) => match project_position(&self.projects, eid.as_str()) {
                Some(i) => {
                    proof {
                        assert(project_ids(self.projects@).len() == self.projects@.len());
                        lemma_position_is_first(project_ids(self.projects@), eid@);
                    }
                    Some(&self.projects[i])
                },
                None => None,
            },
            None => None,
        };
        let (spent, created_at, milestones, pulse) = match existing {
            Some(e) => (e.spent_hours_bits, copy_string(&e.created_at), copy_milestones(&e.milestones), copy_bytes(&e.pulse)),
            None => (0u64, copy_string(&now), Vec::new(), Vec::new()),
        };
        let id = match &form.edit_id {
            Some(eid) => copy_string(eid),
            None => fresh_id,
        };
        let status_text = trimmed(form.fields[3].value.as_str());
        Ok(
            Project {
                id,
                client_id,
                name: trimmed(form.fields[0].value.as_str()),
                summary: non_empty(form.fields[2].value.as_str()),
                status: ProjectStatus::from_name(status_text.as_str()),
                budget_hours_bits,
                budget_kind: copy_string(&form.fields[4].value),
                spent_hours_bits: spent,
                rate_cents,
                deadline: non_empty(form.fields[7].value.as_str()),
                owner: non_empty(form.fields[8].value.as_str()),
                repo_url: non_empty(form.fields[9].value.as_str()),
                created_at,
                updated_at: now,
                milestones,
                pulse,
                client_name: None,
            },
        )
    }

    /// The project record that saving `form` writes now (a new project gets a
    /// fresh random id), or a `NotFound` error for an unknown client.
    pub fn new_project_record(
        &self,
        form: &NewProjectForm,
        budget_hours_bits: Option<u64>,
        rate_cents: Option<i64>,
    ) -> (r: Result<Project, SaveError>)
        requires
            form.fields@.len() >= 10,
        ensures
            match client_by_prefix(
                self.clients@,
                spec_to_lowercase(trim(form.fields@[1].value@)),
            ) {
                Some(c) => r matches Ok(p) && exists|now: Seq<char>, fresh: Seq<char>|
                    utc_stamp_text(now) && uuid_v4_text(fresh) && #[trigger] saved_project_ok(
                        p,
                        *form,
                        self.projects@,
                        c.id@,
                        now,
                        fresh,
                        budget_hours_bits,
                        rate_cents,
                    ),
                None => r matches Err(SaveError::NotFound(msg)) && msg@ == no_client_message(
                    form.fields@[1].value@,
                ),
            },
    {
        let now = now_timestamp();
        let fresh = new_id();
        self.project_from_form(form, now, fresh, budget_hours_bits, rate_cents)
    }
}

/// The time of an edited hour entry: the new date followed by the old time of
/// day (what follows byte 10 of `at`), or the new date at midnight when `at`
/// holds no more than a date.
pub open spec fn edited_time(at: Seq<char>, new_date: Seq<char>) -> Seq<char> {
    if utf8_bytes(at).len() > 10 {
        new_date + byte_suffix(at, 10)
    } else {
        new_date + "T00:00:00Z"@
    }
}

/// Marks `project` as changed now: its `updated_at` becomes the current UTC time.
pub fn stamp_updated(project: &mut Project)
    ensures
        *final(project) == (Project { updated_at: final(project).updated_at, ..*old(project) }),
        utc_stamp_text(final(project).updated_at@),
{
    project.updated_at = now_timestamp();
}

/// The timestamp of an hour entry moved to `new_date`.
pub fn edited_timestamp(at: &str, new_date: &str) -> (r: String)
    requires
        utf8_bytes(at@).len() > 10 ==> char_boundary(at@, 10),
    ensures
        r@ == edited_time(at@, new_date@),
{
    let mut r = owned(new_date);
    if byte_len(at) > 10 {
        r.append(suffix_bytes(at, 10));
    } else {
        r.append("T00:00:00Z");
    }
    r
}

// ── Hour entries ─────────────────────────────────────────────────────────────

/// The message of an hour entry: `"+<hours> h · <project name>"`.
pub open spec fn hours_message(hours_text: Seq<char>, name: Seq<char>) -> Seq<char> {
    "+"@ + hours_text + " h · "@ + name
}

/// The name of the project `pid` names, or nothing.
pub open spec fn project_name_of(ps: Seq<Project>, pid: Option<String>) -> Seq<char> {
    match pid {
        Some(p) => match position_of_id(project_ids(ps), p@) {
            Some(i) => ps[i as int].name@,
            None => Seq::empty(),
        },
        None => Seq::empty(),
    }
}

/// The hour entry logged for project `pid`: `hours_bits` hours (written
/// `hours_text`) at `now`, with id `fresh_id`.
pub open spec fn logged_hours_ok(
    e: ActivityEntry,
    ps: Seq<Project>,
    pid: Seq<char>,
    hours_bits: u64,
    hours_text: Seq<char>,
    now: Seq<char>,
    fresh_id: Seq<char>,
) -> bool {
    match position_of_id(project_ids(ps), pid) {
        Some(i) => {
            &&& e.id@ == fresh_id
            &&& opt_view(e.client_id) == Some(ps[i as int].client_id@)
            &&& opt_view(e.project_id) == Some(pid)
            &&& e.kind@ == "hours"@
            &&& e.message@ == hours_message(hours_text, ps[i as int].name@)
            &&& e.at@ == now
            &&& e.hours_bits == Some(hours_bits)
        },
        None => false,
    }
}

impl App {
    /// The entry that logs `hours_bits` hours (written `hours_text`) on project
    /// `project_id` at `now` under id `fresh_id`; `None` for an unknown project.
    pub fn hours_entry_on(
        &self,
        project_id: &str,
        hours_bits: u64,
        hours_text: &str,
        now: String,
        fresh_id: String,
    ) -> (r: Option<ActivityEntry>)
        ensures
            match r {
                Some(e) => logged_hours_ok(e, self.projects@, project_id@, hours_bits, hours_text@, now@, fresh_id@),
                None => position_of_id(project_ids(self.projects@), project_id@) is None,
            },
    {
        let _n = self.projects.len();
        match project_position(&self.projects, project_id) {
            Some(i) => {
                proof {
                    assert(project_ids(self.projects@).len() == self.projects@.len());
                    lemma_position_is_first(project_ids(self.projects@), project_id@);
                }
                let p = &self.projects[i];
                let mut message = owned("+");
                message.append(hours_text);
                message.append(" h · ");
                message.append(p.name.as_str());
                Some(
                    ActivityEntry {
                        id: fresh_id,
                        client_id: Some(copy_string(&p.client_id)),
                        project_id: Some(owned(project_id)),
                        kind: owned("hours"),
                        message,
                        at: now,
                        hours_bits: Some(hours_bits),
                    },
                )
            },
            None => None,
        }
    }

    /// The entry that logs hours on project `project_id` now, under a fresh id.
    pub fn new_hours_entry(&self, project_id: &str, hours_bits: u64, hours_text: &str) -> (r: Option<
        ActivityEntry,
    >)
        ensures
            match r {
                Some(e) => exists|now: Seq<char>, fresh: Seq<char>|
                    utc_stamp_text(now) && uuid_v4_text(fresh) && #[trigger] logged_hours_ok(
                        e,
                        self.projects@,
                        project_id@,
                        hours_bits,
                        hours_text@,
                        now,
                        fresh,
                    ),
                None => position_of_id(project_ids(self.projects@), project_id@) is None,
            },
    {
        let now = now_timestamp();
        let fresh = new_id();
        self.hours_entry_on(project_id, hours_bits, hours_text, now, fresh)
    }

    /// Hour entry `activity_id` changed to `hours_bits` hours (written
    /// `hours_text`) on `new_date`, keeping its time of day; `None` when there is
    /// no such entry.
    pub fn edited_hours_entry(
        &self,
        activity_id: &str,
        hours_bits: u64,
        hours_text: &str,
        new_date: &str,
    ) -> (r: Option<ActivityEntry>)
        requires
            match position_of_id(activity_ids(self.activity@), activity_id@) {
                Some(i) => utf8_bytes(self.activity@[i as int].at@).len() > 10 ==> char_boundary(
                    self.activity@[i as int].at@,
                    10,
                ),
                None => true,
            },
        ensures
            match position_of_id(activity_ids(self.activity@), activity_id@) {
                Some(i) => {
                    let e = self.activity@[i as int];
                    r matches Some(x) && {
                        &&& x.id@ == e.id@
                        &&& opt_view(x.client_id) == opt_view(e.client_id)
                        &&& opt_view(x.project_id) == opt_view(e.project_id)
                        &&& x.kind@ == "hours"@
                        &&& x.message@ == hours_message(
                            hours_text@,
                            project_name_of(self.projects@, e.project_id),
                        )
                        &&& x.at@ == edited_time(e.at@, new_date@)
                        &&& x.hours_bits == Some(hours_bits)
                    }
                },
                None => r is None,
            },
    {
        let _n = self.activity.len();
        let _m = self.projects.len();
        let i = match activity_position(&self.activity, activity_id) {
            Some(i) => i,
            None => return None,
        };
        proof {
            assert(activity_ids(self.activity@).len() == self.activity@.len());
            lemma_position_is_first(activity_ids(self.activity@), activity_id@);
        }
        let e = &self.activity[i];
        let name = match &e.project_id {
            Some(pid) => match project_position(&self.projects, pid.as_str()) {
                Some(j) => {
                    proof {
                        assert(project_ids(self.projects@).len() == self.projects@.len());
                        lemma_position_is_first(project_ids(self.projects@), pid@);
                    }
                    copy_string(&self.projects[j].name)
                },
                None => String::new(),
            },
            None => String::new(),
        };
        let mut message = owned("+");
        message.append(hours_text);
        message.append(" h · ");
        message.append(name.as_str());
        Some(
            ActivityEntry {
                id: copy_string(&e.id),
                client_id: copy_opt(&e.client_id),
                project_id: copy_opt(&e.project_id),
                kind: owned("hours"),
                message,
                at: edited_timestamp(e.at.as_str(), new_date),
                hours_bits: Some(hours_bits),
            },
        )
    }
}

} // verus!
