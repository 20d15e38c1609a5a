//! The application state: loaded records, the active view and mode, list
//! selections, the boot sequence, and global search.
use vstd::prelude::*;
use vstd::view::View as _;
use crate::config::Config;

use crate::forms::{NewClientForm, NewContactForm, NewProjectForm};
use crate::models::{ActivityEntry, BrokenProject, Client, ContactMoment, Project, ProjectStatus, Stats};
use crate::nav::{step_list, step_result, ListState, step_index};
use crate::sort::{apply_order, is_stable_order, keys_view, permuted, stable_order};
use crate::store::{compute_stats, count_active, count_attention};
use crate::text::{chars_of, i64_text, int_text, owned, str_eq};

verus! {

/// What keys currently do.
#[derive(Debug, Clone, PartialEq)]
pub enum Mode {
    Normal,
    Search(String),
    Command(String),
    ConfirmDelete {
        kind: String,
        id: String,
        name: String,
        warning: Option<String>,
        context: Option<String>,
    },
    NewClient(NewClientForm),
    NewProject(NewProjectForm),
    NewContact(NewContactForm),
    ViewContacts,
    AddHours { project_id: String, input: String, error: Option<String> },
    ViewHours { project_id: String },
    EditHours {
        project_id: String,
        activity_id: String,
        date_input: String,
        hours_input: String,
        focused: usize,
        error: Option<String>,
    },
    RepairProject { idx: usize, chosen: ProjectStatus, error: Option<String> },
}

/// The three top-level views.
#[derive(Debug, Clone, Copy, PartialEq, Eq, Structural)]
pub enum View {
    Dashboard,
    Clients,
    Projects,
}

/// Which pane has the focus.
#[derive(Debug, Clone, Copy, PartialEq, Eq, Structural)]
pub enum Focus {
    Left,
    Right,
}

/// The stages of the start-up animation.
#[derive(Debug, Clone, Copy, PartialEq, Eq, Structural)]
pub enum BootPhase {
    Logo,
    Lines,
    Done,
}

/// One hit of the global search.
#[derive(Debug, Clone)]
pub enum SearchResult {
    Client { idx: usize, name: String, subtitle: String },
    Project { idx: usize, name: String, client: String, status: String },
}

/// What a search hit says, as text.
pub enum SearchHit {
    Client { idx: usize, name: Seq<char>, subtitle: Seq<char> },
    Project { idx: usize, name: Seq<char>, client: Seq<char>, status: Seq<char> },
}

pub open spec fn hit_view(r: SearchResult) -> SearchHit {
    match r {
        SearchResult::Client { idx, name, subtitle } => SearchHit::Client {
            idx,
            name: name@,
            subtitle: subtitle@,
        },
        SearchResult::Project { idx, name, client, status } => SearchHit::Project {
            idx,
            name: name@,
            client: client@,
            status: status@,
        },
    }
}

/// The whole application state.
pub struct App {
    pub should_quit: bool,
    pub active_view: View,
    pub mode: Mode,
    pub focus: Focus,
    pub config: Config,
    pub clients: Vec<Client>,
    pub projects: Vec<Project>,
    pub activity: Vec<ActivityEntry>,
    pub contacts: Vec<ContactMoment>,
    pub stats: Stats,
    pub broken_projects: Vec<BrokenProject>,
    pub client_list: ListState,
    pub project_list: ListState,
    pub dashboard_list: ListState,
    pub contact_list: ListState,
    pub hours_list: ListState,
    pub search_list: ListState,
    pub search_results: Vec<SearchResult>,
    /// Animation ticks (120 ms each), wrapping around.
    pub tick_count: u64,
    pub boot_phase: BootPhase,
    pub boot_lines_shown: usize,
    /// The tick at which the boot sequence last advanced.
    pub boot_tick: u64,
    pub boot_skip: bool,
    /// Boot log lines: a tag (`ok`, `warn`, `boot`) and a message.
    pub boot_lines: Vec<(String, String)>,
    /// The text typed in Search and Command modes.
    pub input: String,
    /// A `g` was typed and waits for its second key.
    pub g_pending: bool,
}

// ── Construction ─────────────────────────────────────────────────────────────

pub open spec fn update_times(ps: Seq<Project>) -> Seq<Seq<char>> {
    ps.map_values(|p: Project| p.updated_at@)
}

/// `"loading <what> · <n> record"` with an `s` unless `n` is 1.
pub open spec fn record_line(what: Seq<char>, n: int) -> Seq<char> {
    "loading "@ + what + " · "@ + int_text(n) + " record"@ + (if n == 1 { Seq::empty() } else { "s"@ })
}

/// The boot log, as (tag, message) texts.
pub open spec fn boot_log(n_clients: int, n_projects: int, n_contacts: int, n_broken: int) -> Seq<
    (Seq<char>, Seq<char>),
> {
    seq![
        ("ok"@, "loading config · ~/.config/rhizome/config.toml"@),
        ("ok"@, record_line("clients"@, n_clients)),
        ("ok"@, record_line("projects"@, n_projects)),
        ("ok"@, record_line("contacts"@, n_contacts)),
        (if n_broken == 0 { "ok"@ } else { "warn"@ }, "checking integrity · "@ + int_text(n_broken)
            + " broken"@),
        ("ok"@, "terminal · truecolor · utf-8"@),
        ("boot"@, "rhizome ready · press any key"@),
    ]
}

pub open spec fn pair_view(p: (String, String)) -> (Seq<char>, Seq<char>) {
    (p.0@, p.1@)
}

/// Some(0) for a non-empty list, otherwise nothing.
pub open spec fn first_row(len: nat) -> Option<usize> {
    if len > 0 { Some(0) } else { None }
}

fn record_line_exec(what: &str, n: usize) -> (r: String)
    requires
        n <= i64::MAX,
    ensures
        r@ == record_line(what@, n as int),
{
    let mut s = owned("loading ");
    s.append(what);
    s.append(" · ");
    s.append(i64_text(n as i64).as_str());
    s.append(" record");
    if n != 1 {
        s.append("s");
    }
    s
}

fn boot_lines_for(n_clients: usize, n_projects: usize, n_contacts: usize, n_broken: usize) -> (v: Vec<
    (String, String),
>)
    requires
        n_clients <= i64::MAX,
        n_projects <= i64::MAX,
        n_contacts <= i64::MAX,
        n_broken <= i64::MAX,
    ensures
        v@.map_values(|p: (String, String)| pair_view(p)) == boot_log(
            n_clients as int,
            n_projects as int,
            n_contacts as int,
            n_broken as int,
        ),
{
    let mut integrity = owned("checking integrity · ");
    integrity.append(i64_text(n_broken as i64).as_str());
    integrity.append(" broken");
    let v = vec![
        (owned("ok"), owned("loading config · ~/.config/rhizome/config.toml")),
        (owned("ok"), record_line_exec("clients", n_clients)),
        (owned("ok"), record_line_exec("projects", n_projects)),
        (owned("ok"), record_line_exec("contacts", n_contacts)),
        (if n_broken == 0 { owned("ok") } else { owned("warn") }, integrity),
        (owned("ok"), owned("terminal · truecolor · utf-8")),
        (owned("boot"), owned("rhizome ready · press any key")),
    ];
    assert(v@.map_values(|p: (String, String)| pair_view(p)) =~= boot_log(
        n_clients as int,
        n_projects as int,
        n_contacts as int,
        n_broken as int,
    ));
    v
}

/// Projects ordered by last update, newest first (equal times keeping their order).
pub fn order_by_recent(projects: Vec<Project>) -> (out: Vec<Project>)
    ensures
        exists|p: Seq<usize>|
            is_stable_order(update_times(projects@), p, true) && out@ == permuted(projects@, p),
{
    let mut keys: Vec<Vec<char>> = Vec::new();
    let mut i: usize = 0;
    while i < projects.len()
        invariant
            i <= projects@.len(),
            keys@.len() == i,
            keys_view(keys@) == update_times(projects@).take(i as int),
        decreases projects.len() - i,
    {
        keys.push(chars_of(projects[i].updated_at.as_str()));
        assert(keys@[i as int]@ == update_times(projects@)[i as int]);
        i = i + 1;
        assert(keys_view(keys@) =~= update_times(projects@).take(i as int));
    }
    assert(update_times(projects@).take(i as int) =~= update_times(projects@));
    let p = stable_order(&keys, true);
    apply_order(projects, &p)
}

impl App {
    /// The state right after start-up, from the records read from disk. Projects
    /// come in by name and are reordered newest update first; `near_budget` flags
    /// (see `compute_stats`) follow the incoming order.
    pub fn from_loaded(
        config: Config,
        clients: Vec<Client>,
        projects: Vec<Project>,
        near_budget: &Vec<bool>,
        activity: Vec<ActivityEntry>,
        contacts: Vec<ContactMoment>,
        broken_projects: Vec<BrokenProject>,
    ) -> (app: App)
        requires
            near_budget@.len() == projects@.len(),
            clients@.len() <= i64::MAX,
            projects@.len() <= i64::MAX,
            contacts@.len() <= i64::MAX,
            broken_projects@.len() <= i64::MAX,
        ensures
            !app.should_quit,
            app.active_view == View::Dashboard,
            app.mode == Mode::Normal,
            app.focus == Focus::Left,
            app.config == config,
            app.clients == clients,
            exists|p: Seq<usize>|
                is_stable_order(update_times(projects@), p, true) && app.projects@ == permuted(
                    projects@,
                    p,
                ),
            app.activity == activity,
            app.contacts == contacts,
            app.stats.total_clients == clients@.len(),
            app.stats.total_projects == projects@.len(),
            app.stats.active_projects == count_active(projects@),
            app.stats.attention_count == count_attention(projects@, near_budget@),
            app.stats.clients_this_quarter == 0,
            app.broken_projects == broken_projects,
            app.client_list.selected == first_row(clients@.len()),
            app.project_list.selected == first_row(projects@.len()),
            app.dashboard_list.selected == first_row(projects@.len()),
            app.contact_list.selected is None,
            app.hours_list.selected is None,
            app.search_list.selected is None,
            app.search_results@.len() == 0,
            app.tick_count == 0,
            app.boot_phase == BootPhase::Logo,
            app.boot_lines_shown == 0,
            app.boot_tick == 0,
            !app.boot_skip,
            app.boot_lines@.map_values(|p: (String, String)| pair_view(p)) == boot_log(
                clients@.len() as int,
                projects@.len() as int,
                contacts@.len() as int,
                broken_projects@.len() as int,
            ),
            app.input@.len() == 0,
            !app.g_pending,
    {
        let stats = compute_stats(&clients, &projects, near_budget);
        let n_projects = projects.len();
        let projects = order_by_recent(projects);
        let boot_lines = boot_lines_for(
            clients.len(),
            n_projects,
            contacts.len(),
            broken_projects.len(),
        );
        let client_list = ListState {
            selected: if clients.len() > 0 { Some(0) } else { None },
        };
        let project_list = ListState {
            selected: if n_projects > 0 { Some(0) } else { None },
        };
        let dashboard_list = ListState {
            selected: if n_projects > 0 { Some(0) } else { None },
        };
        App {
            should_quit: false,
            active_view: View::Dashboard,
            mode: Mode::Normal,
            focus: Focus::Left,
            config,
            clients,
            projects,
            activity,
            contacts,
            stats,
            broken_projects,
            client_list,
            project_list,
            dashboard_list,
            contact_list: ListState::new(),
            hours_list: ListState::new(),
            search_list: ListState::new(),
            search_results: Vec::new(),
            tick_count: 0,
            boot_phase: BootPhase::Logo,
            boot_lines_shown: 0,
            boot_tick: 0,
            boot_skip: false,
            boot_lines,
            input: String::new(),
            g_pending: false,
        }
    }

    // ── Boot sequence ────────────────────────────────────────────────────────

    /// The start-up animation has finished.
    pub fn boot_done(&self) -> (b: bool)
        ensures
            b == (self.boot_phase == BootPhase::Done),
    {
        self.boot_phase == BootPhase::Done
    }

    /// Ends the start-up animation at once.
    pub fn skip_boot(&mut self)
        ensures
            *final(self) == (App { boot_phase: BootPhase::Done, boot_skip: true, ..*old(self) }),
    {
        self.boot_phase = BootPhase::Done;
        self.boot_skip = true;
    }
}

/// The boot state after one more tick: the logo shows for two ticks, then two log
/// lines appear per tick until all are shown.
pub open spec fn tick_boot(
    phase: BootPhase,
    shown: usize,
    boot_tick: u64,
    tick: u64,
    n_lines: nat,
) -> (BootPhase, usize, u64) {
    match phase {
        BootPhase::Logo => if tick >= boot_tick && tick - boot_tick >= 2 {
            (BootPhase::Lines, shown, tick)
        } else {
            (phase, shown, boot_tick)
        },
        BootPhase::Lines => if tick >= boot_tick && tick - boot_tick >= 1 {
            let s = if shown + 2 < n_lines { (shown + 2) as usize } else { n_lines as usize };
            (if s >= n_lines { BootPhase::Done } else { BootPhase::Lines }, s, tick)
        } else {
            (phase, shown, boot_tick)
        },
        BootPhase::Done => (phase, shown, boot_tick),
    }
}

/// The state after moving the active view's highlight by `delta` rows.
pub open spec fn app_nav(a: App, delta: int) -> App {
    match a.active_view {
        View::Dashboard => App {
            dashboard_list: ListState {
                selected: step_result(a.dashboard_list.selected, a.projects@.len(), delta),
            },
            ..a
        },
        View::Clients => App {
            client_list: ListState {
                selected: step_result(a.client_list.selected, a.clients@.len(), delta),
            },
            ..a
        },
        View::Projects => App {
            project_list: ListState {
                selected: step_result(a.project_list.selected, a.projects@.len(), delta),
            },
            ..a
        },
    }
}

/// `b` is `a` one tick later: the clock has moved on by one (wrapping) and the
/// boot sequence with it, and nothing else has changed.
pub open spec fn ticked(a: App, b: App) -> bool {
    &&& b.tick_count == (if a.tick_count == u64::MAX { 0 } else { (a.tick_count + 1) as u64 })
    &&& (b.boot_phase, b.boot_lines_shown, b.boot_tick) == tick_boot(
        a.boot_phase,
        a.boot_lines_shown,
        a.boot_tick,
        b.tick_count,
        a.boot_lines@.len(),
    )
    &&& b == (App {
        tick_count: b.tick_count,
        boot_phase: b.boot_phase,
        boot_lines_shown: b.boot_lines_shown,
        boot_tick: b.boot_tick,
        ..a
    })
}

/// The boot sequence only moves forward: a tick never hides log lines or leaves
/// `Done`; the logo gives way to the lines only after two ticks; on each later
/// tick two more lines show (up to all of them), and the sequence is done exactly
/// when all are shown.
pub proof fn law_tick_boot_progress(a: App, b: App)
    requires
        a.boot_lines_shown <= a.boot_lines@.len(),
        ticked(a, b),
    ensures
        a.boot_lines_shown <= b.boot_lines_shown <= b.boot_lines@.len(),
        a.boot_phase == BootPhase::Done ==> b.boot_phase == BootPhase::Done,
        b.boot_phase == BootPhase::Logo ==> a.boot_phase == BootPhase::Logo,
        a.boot_phase == BootPhase::Logo && b.boot_phase == BootPhase::Lines ==> b.tick_count
            >= a.boot_tick + 2,
        a.boot_phase == BootPhase::Lines && b.tick_count > a.boot_tick ==> {
            &&& b.boot_lines_shown == (if a.boot_lines_shown + 2 < a.boot_lines@.len() {
                a.boot_lines_shown + 2
            } else {
                a.boot_lines@.len() as int
            })
            &&& (b.boot_phase == BootPhase::Done <==> b.boot_lines_shown == b.boot_lines@.len())
        },
{
    assert(a.boot_lines@.len() <= usize::MAX) by {
        assert(a.boot_lines@.len() == a.boot_lines.len());
    }
    assert(b.boot_lines == a.boot_lines);
}

impl App {
    /// Advances the animation clock by one tick and the boot sequence with it.
    pub fn tick(&mut self)
        ensures
            ticked(*old(self), *final(self)),
    {
        self.tick_count = self.tick_count.wrapping_add(1);
        let elapsed = self.tick_count.saturating_sub(self.boot_tick);
        match self.boot_phase {
            BootPhase::Logo => {
                if elapsed >= 2 {
                    self.boot_phase = BootPhase::Lines;
                    self.boot_tick = self.tick_count;
                }
            },
            BootPhase::Lines => {
                if elapsed >= 1 {
                    let n = self.boot_lines.len();
                    let s = if self.boot_lines_shown < n && n - self.boot_lines_shown > 2 {
                        self.boot_lines_shown + 2
                    } else {
                        n
                    };
                    self.boot_lines_shown = s;
                    self.boot_tick = self.tick_count;
                    if s >= n {
                        self.boot_phase = BootPhase::Done;
                    }
                }
            },
            BootPhase::Done => {},
        }
    }

    // ── Navigation ───────────────────────────────────────────────────────────

    /// Shows `view`; changing view puts the focus on the left pane.
    pub fn switch_view(&mut self, view: View)
        ensures
            *final(self) == (if old(self).active_view != view {
                App { active_view: view, focus: Focus::Left, ..*old(self) }
            } else {
                *old(self)
            }),
    {
        if self.active_view != view {
            self.active_view = view;
            self.focus = Focus::Left;
        }
    }

    /// Moves the highlight of the active view's list by `delta` rows.
    fn nav_by(&mut self, delta: i64)
        ensures
            *final(self) == app_nav(*old(self), delta as int),
    {
        match self.active_view {
            View::Dashboard => {
                let n = self.projects.len();
                step_list(&mut self.dashboard_list, n, delta);
            },
            View::Clients => {
                let n = self.clients.len();
                step_list(&mut self.client_list, n, delta);
            },
            View::Projects => {
                let n = self.projects.len();
                step_list(&mut self.project_list, n, delta);
            },
        }
    }
}


impl App {
    /// Moves the highlight of the active view's list one row down.
    pub fn nav_down(&mut self)
        ensures
            *final(self) == app_nav(*old(self), 1),
    {
        self.nav_by(1);
    }

    /// Moves the highlight of the active view's list one row up.
    pub fn nav_up(&mut self)
        ensures
            *final(self) == app_nav(*old(self), -1),
    {
        self.nav_by(-1);
    }

    /// Highlights the first row of the active view's list.
    pub fn nav_first(&mut self)
        ensures
            *final(self) == (match old(self).active_view {
                View::Dashboard => App { dashboard_list: ListState { selected: Some(0) }, ..*old(self) },
                View::Clients => App { client_list: ListState { selected: Some(0) }, ..*old(self) },
                View::Projects => App { project_list: ListState { selected: Some(0) }, ..*old(self) },
            }),
    {
        match self.active_view {
            View::Dashboard => self.dashboard_list.select(Some(0)),
            View::Clients => self.client_list.select(Some(0)),
            View::Projects => self.project_list.select(Some(0)),
        }
    }

    /// Highlights the last row of the active view's list (nothing changes for an
    /// empty list).
    pub fn nav_last(&mut self)
        ensures
            *final(self) == (match old(self).active_view {
                View::Dashboard => if old(self).projects@.len() > 0 {
                    App {
                        dashboard_list: ListState {
                            selected: Some((old(self).projects@.len() - 1) as usize),
                        },
                        ..*old(self)
                    }
                } else {
                    *old(self)
                },
                View::Clients => if old(self).clients@.len() > 0 {
                    App {
                        client_list: ListState {
                            selected: Some((old(self).clients@.len() - 1) as usize),
                        },
                        ..*old(self)
                    }
                } else {
                    *old(self)
                },
                View::Projects => if old(self).projects@.len() > 0 {
                    App {
                        project_list: ListState {
                            selected: Some((old(self).projects@.len() - 1) as usize),
                        },
                        ..*old(self)
                    }
                } else {
                    *old(self)
                },
            }),
    {
        match self.active_view {
            View::Dashboard => {
                let n = self.projects.len();
                if n > 0 {
                    self.dashboard_list.select(Some(n - 1));
                }
            },
            View::Clients => {
                let n = self.clients.len();
                if n > 0 {
                    self.client_list.select(Some(n - 1));
                }
            },
            View::Projects => {
                let n = self.projects.len();
                if n > 0 {
                    self.project_list.select(Some(n - 1));
                }
            },
        }
    }

    /// The highlighted client, if the highlight is on a client.
    pub fn selected_client(&self) -> (r: Option<&Client>)
        ensures
            deref_opt(r) == selected_item(self.clients@, self.client_list.selected),
    {
        match self.client_list.selected {
            Some(i) => if i < self.clients.len() {
                Some(&self.clients[i])
            } else {
                None
            },
            None => None,
        }
    }

    /// The highlighted project of the projects view.
    pub fn selected_project(&self) -> (r: Option<&Project>)
        ensures
            deref_opt(r) == selected_item(self.projects@, self.project_list.selected),
    {
        match self.project_list.selected {
            Some(i) => if i < self.projects.len() {
                Some(&self.projects[i])
            } else {
                None
            },
            None => None,
        }
    }

    /// The highlighted project of the dashboard.
    pub fn selected_dashboard_project(&self) -> (r: Option<&Project>)
        ensures
            deref_opt(r) == selected_item(self.projects@, self.dashboard_list.selected),
    {
        match self.dashboard_list.selected {
            Some(i) => if i < self.projects.len() {
                Some(&self.projects[i])
            } else {
                None
            },
            None => None,
        }
    }

    /// The projects of client `client_id`, in list order.
    pub fn client_projects(&self, client_id: &str) -> (r: Vec<&Project>)
        ensures
            r@.map_values(|p: &Project| *p) == self.projects@.filter(
                |p: Project| p.client_id@ == client_id@,
            ),
    {
        let ghost pred = |p: Project| p.client_id@ == client_id@;
        let mut r: Vec<&Project> = Vec::new();
        let mut i: usize = 0;
        while i < self.projects.len()
            invariant
                i <= self.projects@.len(),
                pred == (|p: Project| p.client_id@ == client_id@),
                r@.map_values(|p: &Project| *p) == self.projects@.take(i as int).filter(pred),
            decreases self.projects.len() - i,
        {
            proof {
                reveal_with_fuel(Seq::<_>::filter, 1);
                assert(self.projects@.take(i + 1).drop_last() =~= self.projects@.take(i as int));
            }
            if str_eq(self.projects[i].client_id.as_str(), client_id) {
                let ghost before = r@;
                r.push(&self.projects[i]);
                assert(r@.map_values(|p: &Project| *p) =~= before.map_values(|p: &Project| *p).push(
                    self.projects@[i as int],
                ));
            }
            i = i + 1;
        }
        assert(self.projects@.take(i as int) =~= self.projects@);
        r
    }

    /// The five most recent activity entries of client `client_id`.
    pub fn client_activity(&self, client_id: &str) -> (r: Vec<&ActivityEntry>)
        ensures
            r@.map_values(|a: &ActivityEntry| *a) == first_n(
                self.activity@.filter(|a: ActivityEntry| is_client_entry(a, client_id@)),
                5,
            ),
    {
        let ghost pred = |a: ActivityEntry| is_client_entry(a, client_id@);
        let mut r: Vec<&ActivityEntry> = Vec::new();
        let mut i: usize = 0;
        while i < self.activity.len()
            invariant
                i <= self.activity@.len(),
                pred == (|a: ActivityEntry| is_client_entry(a, client_id@)),
                r@.map_values(|a: &ActivityEntry| *a) == first_n(
                    self.activity@.take(i as int).filter(pred),
                    5,
                ),
            decreases self.activity.len() - i,
        {
            proof {
                reveal_with_fuel(Seq::<_>::filter, 1);
                assert(self.activity@.take(i + 1).drop_last() =~= self.activity@.take(i as int));
            }
            let ghost f0 = self.activity@.take(i as int).filter(pred);
            let hit = match &self.activity[i].client_id {
                Some(c) => str_eq(c.as_str(), client_id),
                None => false,
            };
            if hit {
                let ghost f1 = f0.push(self.activity@[i as int]);
                if r.len() < 5 {
                    let ghost before = r@;
                    r.push(&self.activity[i]);
                    assert(r@.map_values(|a: &ActivityEntry| *a) =~= before.map_values(
                        |a: &ActivityEntry| *a,
                    ).push(self.activity@[i as int]));
                    assert(first_n(f1, 5) =~= first_n(f0, 5).push(self.activity@[i as int]));
                } else {
                    assert(first_n(f1, 5) =~= first_n(f0, 5));
                }
            }
            i = i + 1;
        }
        assert(self.activity@.take(i as int) =~= self.activity@);
        r
    }

    /// The contact moments with client `client_id`, in list order.
    pub fn client_contacts(&self, client_id: &str) -> (r: Vec<&ContactMoment>)
        ensures
            r@.map_values(|c: &ContactMoment| *c) == self.contacts@.filter(
                |c: ContactMoment| c.client_id@ == client_id@,
            ),
    {
        let ghost pred = |c: ContactMoment| c.client_id@ == client_id@;
        let mut r: Vec<&ContactMoment> = Vec::new();
        let mut i: usize = 0;
        while i < self.contacts.len()
            invariant
                i <= self.contacts@.len(),
                pred == (|c: ContactMoment| c.client_id@ == client_id@),
                r@.map_values(|c: &ContactMoment| *c) == self.contacts@.take(i as int).filter(pred),
            decreases self.contacts.len() - i,
        {
            proof {
                reveal_with_fuel(Seq::<_>::filter, 1);
                assert(self.contacts@.take(i + 1).drop_last() =~= self.contacts@.take(i as int));
            }
            if str_eq(self.contacts[i].client_id.as_str(), client_id) {
                let ghost before = r@;
                r.push(&self.contacts[i]);
                assert(r@.map_values(|c: &ContactMoment| *c) =~= before.map_values(
                    |c: &ContactMoment| *c,
                ).push(self.contacts@[i as int]));
            }
            i = i + 1;
        }
        assert(self.contacts@.take(i as int) =~= self.contacts@);
        r
    }

    /// How many contact moments the highlighted client has (0 when no client is
    /// highlighted).
    pub fn selected_client_contact_count(&self) -> (n: usize)
        ensures
            n == selected_contact_count(*self),
    {
        match self.selected_client() {
            Some(c) => {
                let v = self.client_contacts(c.id.as_str());
                proof {
                    assert(v@.map_values(|c: &ContactMoment| *c).len() == v@.len());
                }
                v.len()
            },
            None => 0,
        }
    }

    /// The highlighted contact moment of the highlighted client.
    pub fn selected_contact(&self) -> (r: Option<&ContactMoment>)
        ensures
            deref_opt(r) == (match selected_item(self.clients@, self.client_list.selected) {
                Some(c) => selected_item(
                    self.contacts@.filter(|m: ContactMoment| m.client_id@ == c.id@),
                    self.contact_list.selected,
                ),
                None => None,
            }),
    {
        let c = match self.selected_client() {
            Some(c) => c,
            None => return None,
        };
        let list = self.client_contacts(c.id.as_str());
        match self.contact_list.selected {
            Some(i) => if i < list.len() {
                proof {
                    assert(list@.map_values(|m: &ContactMoment| *m)[i as int] == *list@[i as int]);
                }
                Some(list[i])
            } else {
                None
            },
            None => None,
        }
    }

    /// Moves the contact highlight by `delta` within the highlighted client's
    /// contacts; nothing happens when there are none.
    pub fn nav_contact(&mut self, delta: i64)
        ensures
            *final(self) == (App {
                contact_list: ListState {
                    selected: step_result(
                        old(self).contact_list.selected,
                        selected_contact_count(*old(self)),
                        delta as int,
                    ),
                },
                ..*old(self)
            }),
    {
        let count = self.selected_client_contact_count();
        if count == 0 {
            return;
        }
        let next = step_index(self.contact_list.selected, count, delta);
        self.contact_list.select(Some(next));
    }

    /// Opens the highlighted client's contact list on its first entry (or on
    /// nothing when the client has none).
    pub fn enter_contact_list(&mut self)
        ensures
            *final(self) == (App {
                contact_list: ListState { selected: first_row(selected_contact_count(*old(self))) },
                ..*old(self)
            }),
    {
        let count = self.selected_client_contact_count();
        if count > 0 {
            self.contact_list.select(Some(0));
        } else {
            self.contact_list.select(None);
        }
    }
}

/// The referenced value, if any.
pub open spec fn deref_opt<T>(o: Option<&T>) -> Option<T> {
    match o {
        Some(x) => Some(*x),
        None => None,
    }
}

/// The row `sel` of `items`, when it is a row of the list.
pub open spec fn selected_item<T>(items: Seq<T>, sel: Option<usize>) -> Option<T> {
    match sel {
        Some(i) => if i < items.len() { Some(items[i as int]) } else { None },
        None => None,
    }
}

/// The first `n` elements of `s` (all of it when shorter).
pub open spec fn first_n<T>(s: Seq<T>, n: nat) -> Seq<T> {
    if s.len() <= n { s } else { s.take(n as int) }
}

/// An activity entry of client `id`.
pub open spec fn is_client_entry(a: ActivityEntry, id: Seq<char>) -> bool {
    match a.client_id {
        Some(c) => c@ == id,
        None => false,
    }
}

/// How many contact moments the highlighted client has.
pub open spec fn selected_contact_count(a: App) -> nat {
    match selected_item(a.clients@, a.client_list.selected) {
        Some(c) => a.contacts@.filter(|m: ContactMoment| m.client_id@ == c.id@).len(),
        None => 0,
    }
}

} // verus!
