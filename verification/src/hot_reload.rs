//! Hot reload coordinator: collects file changes per resource type, debounces
//! them, and decides when a reload event is emitted.
//!
//! Time is a millisecond reading of a monotonic clock passed in by the
//! caller; the actor runtime, the file watcher and the broadcast channel
//! live outside the library.

use vstd::prelude::*;
use crate::circuit::elapsed;
use crate::text::{views, position_of};

verus! {

/// Default debounce duration for file changes, in milliseconds.
pub const DEFAULT_DEBOUNCE_MS: u64 = 100;

/// Type of resource that can be hot-reloaded.
#[derive(Debug, Clone, Copy, PartialEq, Eq, Hash, Structural)]
pub enum ReloadType {
    /// Template files (HTML, Askama)
    Templates,
    /// Configuration files (TOML, YAML, JSON)
    Config,
    /// Cedar policy files
    Policies,
    /// Static assets
    Assets,
}

/// Position of a reload type in the order templates, config, policies, assets.
pub open spec fn slot(t: ReloadType) -> int {
    match t {
        ReloadType::Templates => 0,
        ReloadType::Config => 1,
        ReloadType::Policies => 2,
        ReloadType::Assets => 3,
    }
}

/// The reload type at a position of the canonical order.
pub open spec fn reload_type_at(i: int) -> ReloadType {
    if i == 0 {
        ReloadType::Templates
    } else if i == 1 {
        ReloadType::Config
    } else if i == 2 {
        ReloadType::Policies
    } else {
        ReloadType::Assets
    }
}

impl ReloadType {
    /// All reload types, in the canonical order.
    pub fn all() -> (r: Vec<ReloadType>)
        ensures
            r@ == seq![ReloadType::Templates, ReloadType::Config, ReloadType::Policies, ReloadType::Assets],
    {
        vec![ReloadType::Templates, ReloadType::Config, ReloadType::Policies, ReloadType::Assets]
    }

    /// The position of this type in the canonical order.
    pub fn index(&self) -> (i: usize)
        ensures
            i == slot(*self),
            reload_type_at(i as int) == *self,
    {
        match self {
            ReloadType::Templates => 0,
            ReloadType::Config => 1,
            ReloadType::Policies => 2,
            ReloadType::Assets => 3,
        }
    }

    /// The display name of this type.
    pub fn name(&self) -> (r: &'static str)
        ensures
            r@ == (match *self {
                ReloadType::Templates => "templates"@,
                ReloadType::Config => "config"@,
                ReloadType::Policies => "policies"@,
                ReloadType::Assets => "assets"@,
            }),
    {
        match self {
            ReloadType::Templates => "templates",
            ReloadType::Config => "config",
            ReloadType::Policies => "policies",
            ReloadType::Assets => "assets",
        }
    }
}

/// A reload event that is broadcast to subscribers.
#[derive(Debug, Clone)]
pub struct ReloadEvent {
    /// Type of reload that occurred
    pub reload_type: ReloadType,
    /// Paths that triggered the reload
    pub paths: Vec<String>,
    /// Timestamp of the reload
    pub timestamp: u64,
}

impl ReloadEvent {
    /// Create a new reload event.
    pub fn new(reload_type: ReloadType, paths: Vec<String>, now_ms: u64) -> (e: ReloadEvent)
        ensures
            e.reload_type == reload_type,
            e.paths@ == paths@,
            e.timestamp == now_ms,
    {
        ReloadEvent { reload_type, paths, timestamp: now_ms }
    }
}

/// Configuration for hot reload behaviour. Slots are indexed by reload type.
#[derive(Debug, Clone)]
pub struct HotReloadConfig {
    /// Debounce duration for each reload type, in milliseconds
    pub debounce: [Option<u64>; 4],
    /// Watch paths for each reload type
    pub watch_paths: [Option<Vec<String>>; 4],
    /// Whether hot reload is enabled
    pub enabled: bool,
}

/// The debounce of a reload type: its configured value, or the default.
pub open spec fn spec_debounce_for(c: HotReloadConfig, t: ReloadType) -> u64 {
    match c.debounce@[slot(t)] {
        Some(d) => d,
        None => DEFAULT_DEBOUNCE_MS,
    }
}

impl HotReloadConfig {
    /// The default configuration: 100 ms debounce for every type, no watch paths, enabled.
    pub fn default() -> (c: HotReloadConfig)
        ensures
            forall|i: int| 0 <= i < 4 ==> c.debounce@[i] == Some(DEFAULT_DEBOUNCE_MS),
            forall|i: int| 0 <= i < 4 ==> c.watch_paths@[i].is_none(),
            c.enabled,
    {
        HotReloadConfig {
            debounce: [Some(DEFAULT_DEBOUNCE_MS), Some(DEFAULT_DEBOUNCE_MS), Some(DEFAULT_DEBOUNCE_MS), Some(DEFAULT_DEBOUNCE_MS)],
            watch_paths: [None, None, None, None],
            enabled: true,
        }
    }

    /// Create a new hot reload configuration (the default).
    pub fn new() -> (c: HotReloadConfig)
        ensures
            forall|i: int| 0 <= i < 4 ==> c.debounce@[i] == Some(DEFAULT_DEBOUNCE_MS),
            forall|i: int| 0 <= i < 4 ==> c.watch_paths@[i].is_none(),
            c.enabled,
    {
        HotReloadConfig::default()
    }

    /// Set the debounce duration for a reload type.
    pub fn with_debounce(self, reload_type: ReloadType, duration_ms: u64) -> (c: HotReloadConfig)
        ensures
            c.debounce@ == self.debounce@.update(slot(reload_type), Some(duration_ms)),
            c.watch_paths@ == self.watch_paths@,
            c.enabled == self.enabled,
    {
        let mut c = self;
        let i = reload_type.index();
        c.debounce[i] = Some(duration_ms);
        c
    }

    /// Add watch paths for a reload type (after any it already has).
    pub fn with_watch_paths(self, reload_type: ReloadType, paths: Vec<String>) -> (c: HotReloadConfig)
        ensures
            c.debounce@ == self.debounce@,
            c.enabled == self.enabled,
            forall|i: int| 0 <= i < 4 && i != slot(reload_type) ==> c.watch_paths@[i] == self.watch_paths@[i],
            c.watch_paths@[slot(reload_type)] matches Some(v) && v@ == match self.watch_paths@[slot(reload_type)] {
                Some(old_paths) => old_paths@ + paths@,
                None => paths@,
            },
    {
        let mut c = self;
        let i = reload_type.index();
        let mut list = match c.watch_paths[i].take() {
            Some(v) => v,
            None => Vec::new(),
        };
        let mut more = paths;
        list.append(&mut more);
        c.watch_paths[i] = Some(list);
        c
    }

    /// Enable or disable hot reload.
    pub fn with_enabled(self, enabled: bool) -> (c: HotReloadConfig)
        ensures
            c.debounce@ == self.debounce@,
            c.watch_paths@ == self.watch_paths@,
            c.enabled == enabled,
    {
        let mut c = self;
        c.enabled = enabled;
        c
    }

    /// The debounce duration for a reload type (100 ms unless configured).
    pub fn debounce_for(&self, reload_type: ReloadType) -> (d: u64)
        ensures
            d == spec_debounce_for(*self, reload_type),
    {
        match self.debounce[reload_type.index()] {
            Some(d) => d,
            None => DEFAULT_DEBOUNCE_MS,
        }
    }

    /// Whether watch paths are configured for a reload type.
    pub fn has_watch_paths(&self, reload_type: ReloadType) -> (r: bool)
        ensures
            r == self.watch_paths@[slot(reload_type)].is_some(),
    {
        self.watch_paths[reload_type.index()].is_some()
    }
}


/// Whether a list of strings holds no value twice.
pub open spec fn distinct_views(s: Seq<Seq<char>>) -> bool {
    forall|i: int, j: int| 0 <= i < j < s.len() ==> s[i] != s[j]
}

/// `s` with `x` added unless it is already there.
pub open spec fn set_insert(s: Seq<Seq<char>>, x: Seq<char>) -> Seq<Seq<char>> {
    if s.contains(x) {
        s
    } else {
        s.push(x)
    }
}

/// File changes of one type waiting for their debounce to pass.
#[derive(Debug, Clone)]
pub struct PendingChange {
    /// Paths that have changed (each at most once)
    pub paths: Vec<String>,
    /// When the last change was detected
    pub last_change: u64,
}

impl PendingChange {
    /// A pending change holding one path.
    pub fn new(path: String, now_ms: u64) -> (p: PendingChange)
        ensures
            views(p.paths@) == seq![path@],
            p.last_change == now_ms,
    {
        let mut paths = Vec::new();
        paths.push(path);
        assert(views(paths@) =~= seq![path@]);
        PendingChange { paths, last_change: now_ms }
    }

    /// Record one more changed path at `now`.
    pub fn add_path(&mut self, path: String, now_ms: u64)
        ensures
            views(final(self).paths@) == set_insert(views(old(self).paths@), path@),
            final(self).last_change == now_ms,
    {
        let ghost vs = views(self.paths@);
        match position_of(&self.paths, &path) {
            Some(i) => {
                assert(vs[i as int] == path@);
                assert(vs.contains(path@));
            },
            None => {
                assert(!vs.contains(path@)) by {
                    if vs.contains(path@) {
                        let k = choose|k: int| 0 <= k < vs.len() && vs[k] == path@;
                        assert(self.paths@[k]@ == path@);
                    }
                }
                self.paths.push(path);
                assert(views(self.paths@) =~= vs.push(path@));
            },
        }
        self.last_change = now_ms;
    }

    /// Whether the debounce has passed since the last change.
    pub fn should_trigger(&self, debounce_ms: u64, now_ms: u64) -> (r: bool)
        ensures
            r == (elapsed(self.last_change, now_ms) >= debounce_ms),
    {
        let waited: u64 = if now_ms >= self.last_change { now_ms - self.last_change } else { 0 };
        waited >= debounce_ms
    }
}

/// Report a file change (from an external file watcher).
#[derive(Debug, Clone)]
pub struct FileChanged {
    /// Type of file that changed
    pub reload_type: ReloadType,
    /// Path to the changed file
    pub path: String,
}

impl FileChanged {
    /// Create a new file changed message.
    pub fn new(reload_type: ReloadType, path: String) -> (m: FileChanged)
        ensures
            m.reload_type == reload_type,
            m.path == path,
    {
        FileChanged { reload_type, path }
    }
}

/// Force an immediate reload (bypass debouncing).
#[derive(Debug, Clone, Copy)]
pub struct ForceReload {
    /// Type to reload
    pub reload_type: ReloadType,
}

impl ForceReload {
    /// Create a new force reload message.
    pub fn new(reload_type: ReloadType) -> (m: ForceReload)
        ensures
            m.reload_type == reload_type,
    {
        ForceReload { reload_type }
    }
}

/// Hot reload statistics.
#[derive(Debug, Clone)]
pub struct HotReloadStats {
    /// Total reload events emitted
    pub reload_count: u64,
    /// Number of pending paths per type that has pending changes
    pub pending_counts: Vec<(ReloadType, usize)>,
    /// Whether hot reload is enabled
    pub enabled: bool,
}

/// The paths pending for a slot (empty when nothing is pending).
pub open spec fn pending_paths(p: Option<PendingChange>) -> Seq<Seq<char>> {
    match p {
        Some(c) => views(c.paths@),
        None => Seq::empty(),
    }
}

/// Whether the pending change in slot `i` is due at `now`.
pub open spec fn due(pending: Seq<Option<PendingChange>>, config: HotReloadConfig, now: u64, i: int) -> bool {
    match pending[i] {
        Some(p) => elapsed(p.last_change, now) >= spec_debounce_for(config, reload_type_at(i)),
        None => false,
    }
}

/// The (type, paths) of the events due among the first `k` slots, in slot order.
pub open spec fn due_events(pending: Seq<Option<PendingChange>>, config: HotReloadConfig, now: u64, k: int)
    -> Seq<(ReloadType, Seq<Seq<char>>)>
    decreases k,
{
    if k <= 0 {
        Seq::empty()
    } else if due(pending, config, now, k - 1) {
        due_events(pending, config, now, k - 1).push((reload_type_at(k - 1), pending_paths(pending[k - 1])))
    } else {
        due_events(pending, config, now, k - 1)
    }
}

/// The (type, paths) view of a list of events.
pub open spec fn event_views(e: Seq<ReloadEvent>) -> Seq<(ReloadType, Seq<Seq<char>>)> {
    e.map_values(|x: ReloadEvent| (x.reload_type, views(x.paths@)))
}

/// Hot reload coordinator model.
#[derive(Debug, Clone)]
pub struct HotReloadCoordinatorAgent {
    /// Configuration for hot reload behaviour
    pub config: HotReloadConfig,
    /// Pending changes per reload type (for debouncing), indexed by type
    pub pending_changes: [Option<PendingChange>; 4],
    /// Number of reload events emitted
    pub reload_count: u64,
}

impl HotReloadCoordinatorAgent {
    /// Whether every pending change holds each path at most once.
    pub open spec fn wf(&self) -> bool {
        forall|i: int| 0 <= i < 4 ==> distinct_views(#[trigger] pending_paths(self.pending_changes@[i]))
    }

    /// A coordinator with nothing pending and no reloads emitted.
    pub fn new(config: HotReloadConfig) -> (a: HotReloadCoordinatorAgent)
        ensures
            a.wf(),
            a.config == config,
            a.reload_count == 0,
            forall|i: int| 0 <= i < 4 ==> a.pending_changes@[i].is_none(),
    {
        HotReloadCoordinatorAgent { config, pending_changes: [None, None, None, None], reload_count: 0 }
    }

    /// Handle a file change: when enabled, add the path to the pending change
    /// of its type (creating one) and restart its debounce at `now`.
    pub fn handle_file_changed(&mut self, msg: FileChanged, now_ms: u64)
        requires
            old(self).wf(),
        ensures
            final(self).wf(),
            final(self).config == old(self).config,
            final(self).reload_count == old(self).reload_count,
            !old(self).config.enabled ==> final(self).pending_changes@ == old(self).pending_changes@,
            old(self).config.enabled ==> {
                let i = slot(msg.reload_type);
                &&& forall|j: int| 0 <= j < 4 && j != i ==> final(self).pending_changes@[j] == old(self).pending_changes@[j]
                &&& final(self).pending_changes@[i] matches Some(p) && p.last_change == now_ms
                &&& pending_paths(final(self).pending_changes@[i]) == set_insert(pending_paths(old(self).pending_changes@[i]), msg.path@)
            },
    {
        if self.config.enabled {
            let i = msg.reload_type.index();
            let ghost before = self.pending_changes@;
            let current = self.pending_changes[i].take();
            let next = match current {
                Some(mut p) => {
                    p.add_path(msg.path, now_ms);
                    p
                },
                None => {
                    let p = PendingChange::new(msg.path, now_ms);
                    assert(set_insert(Seq::empty(), msg.path@) =~= seq![msg.path@]);
                    p
                },
            };
            self.pending_changes[i] = Some(next);
            proof {
                assert forall|j: int| 0 <= j < 4 implies distinct_views(#[trigger] pending_paths(self.pending_changes@[j])) by {
                    if j != i {
                        assert(self.pending_changes@[j] == before[j]);
                    } else {
                        let old_paths = pending_paths(before[j]);
                        assert(distinct_views(old_paths));
                        let new_paths = set_insert(old_paths, msg.path@);
                        if !old_paths.contains(msg.path@) {
                            assert forall|a: int, b: int| 0 <= a < b < new_paths.len() implies new_paths[a] != new_paths[b] by {
                                if b == old_paths.len() {
                                    assert(new_paths[a] == old_paths[a]);
                                }
                            }
                        }
                    }
                }
            }
        }
    }

    /// Handle a forced reload at `now`: when enabled, take the pending paths of
    /// that type (if any), count one reload and return its event.
    pub fn handle_force_reload(&mut self, msg: ForceReload, now_ms: u64) -> (event: Option<ReloadEvent>)
        requires
            old(self).wf(),
            old(self).reload_count < u64::MAX,
        ensures
            final(self).wf(),
            final(self).config == old(self).config,
            !old(self).config.enabled ==> event.is_none() && *final(self) == *old(self),
            old(self).config.enabled ==> {
                let i = slot(msg.reload_type);
                &&& final(self).reload_count == old(self).reload_count + 1
                &&& final(self).pending_changes@ == old(self).pending_changes@.update(i, None)
                &&& event matches Some(e) && e.reload_type == msg.reload_type && e.timestamp == now_ms
                    && views(e.paths@) == pending_paths(old(self).pending_changes@[i])
            },
    {
        if self.config.enabled {
            let i = msg.reload_type.index();
            let ghost before = self.pending_changes@;
            let paths = match self.pending_changes[i].take() {
                Some(p) => p.paths,
                None => Vec::new(),
            };
            self.reload_count = self.reload_count + 1;
            proof {
                assert(self.pending_changes@ == before.update(i as int, None));
                assert forall|j: int| 0 <= j < 4 implies distinct_views(#[trigger] pending_paths(self.pending_changes@[j])) by {
                    if j != i {
                        assert(self.pending_changes@[j] == before[j]);
                    } else {
                        assert(pending_paths(self.pending_changes@[j]) =~= Seq::empty());
                    }
                }
                assert(views(paths@) =~= pending_paths(before[i as int]));
            }
            Some(ReloadEvent::new(msg.reload_type, paths, now_ms))
        } else {
            None
        }
    }

    /// Handle the periodic trigger at `now`: when enabled, every pending change
    /// whose debounce has passed is removed and becomes an event (in the order
    /// templates, config, policies, assets), each counted as one reload.
    pub fn handle_trigger_pending(&mut self, now_ms: u64) -> (events: Vec<ReloadEvent>)
        requires
            old(self).wf(),
            old(self).reload_count + 4 <= u64::MAX,
        ensures
            final(self).wf(),
            final(self).config == old(self).config,
            !old(self).config.enabled ==> events@.len() == 0 && *final(self) == *old(self),
            old(self).config.enabled ==> {
                &&& event_views(events@) == due_events(old(self).pending_changes@, old(self).config, now_ms, 4)
                &&& forall|e: int| 0 <= e < events@.len() ==> (#[trigger] events@[e]).timestamp == now_ms
                &&& final(self).reload_count == old(self).reload_count + events@.len()
                &&& forall|i: int| 0 <= i < 4 ==> (#[trigger] final(self).pending_changes@[i]) == if due(
                    old(self).pending_changes@, old(self).config, now_ms, i) {
                    None
                } else {
                    old(self).pending_changes@[i]
                }
            },
    {
        let mut events: Vec<ReloadEvent> = Vec::new();
        if !self.config.enabled {
            return events;
        }
        let ghost before = self.pending_changes@;
        let ghost start_count = self.reload_count;
        let all = ReloadType::all();
        let mut i: usize = 0;
        while i < 4
            invariant
                all@ == seq![ReloadType::Templates, ReloadType::Config, ReloadType::Policies, ReloadType::Assets],
                i <= 4,
                self.config == old(self).config,
                before == old(self).pending_changes@,
                forall|k: int| 0 <= k < 4 ==> distinct_views(#[trigger] pending_paths(before[k])),
                event_views(events@) == due_events(before, self.config, now_ms, i as int),
                forall|e: int| 0 <= e < events@.len() ==> (#[trigger] events@[e]).timestamp == now_ms,
                events@.len() <= i,
                self.reload_count == start_count + events@.len(),
                start_count + 4 <= u64::MAX,
                forall|k: int| 0 <= k < i ==> (#[trigger] self.pending_changes@[k]) == if due(before, self.config, now_ms, k) {
                    None
                } else {
                    before[k]
                },
                forall|k: int| i <= k < 4 ==> (#[trigger] self.pending_changes@[k]) == before[k],
            decreases 4 - i,
        {
            let t = all[i];
            assert(reload_type_at(i as int) == t);
            let debounce = self.config.debounce_for(t);
            let is_due = match &self.pending_changes[i] {
                Some(p) => p.should_trigger(debounce, now_ms),
                None => false,
            };
            let ghost prev_events = events@;
            if is_due {
                let ghost pc = self.pending_changes@;
                match self.pending_changes[i].take() {
                    Some(p) => {
                        self.reload_count = self.reload_count + 1;
                        let ev = ReloadEvent::new(t, p.paths, now_ms);
                        events.push(ev);
                        proof {
                            assert(events@ == prev_events.push(ev));
                            assert(event_views(events@) =~= event_views(prev_events).push((t, views(ev.paths@))));
                        }
                    },
                    None => {},
                }
            }
            assert(due_events(before, self.config, now_ms, i as int + 1) == if due(before, self.config, now_ms, i as int) {
                due_events(before, self.config, now_ms, i as int).push((reload_type_at(i as int), pending_paths(before[i as int])))
            } else {
                due_events(before, self.config, now_ms, i as int)
            });
            i = i + 1;
        }
        proof {
            assert forall|j: int| 0 <= j < 4 implies distinct_views(#[trigger] pending_paths(self.pending_changes@[j])) by {
                if due(before, self.config, now_ms, j) {
                    assert(pending_paths(self.pending_changes@[j]) =~= Seq::empty());
                } else {
                    assert(self.pending_changes@[j] == before[j]);
                }
            }
        }
        events
    }

    /// Current statistics: reloads emitted, pending path counts per type with
    /// pending changes (in canonical order), and whether reloading is enabled.
    pub fn stats(&self) -> (s: HotReloadStats)
        ensures
            s.reload_count == self.reload_count,
            s.enabled == self.config.enabled,
            forall|e: int| 0 <= e < s.pending_counts@.len() ==> {
                let (t, n) = #[trigger] s.pending_counts@[e];
                self.pending_changes@[slot(t)] matches Some(p) && n == p.paths@.len()
            },
            forall|i: int| 0 <= i < 4 && self.pending_changes@[i].is_some() ==> exists|e: int|
                0 <= e < s.pending_counts@.len() && (#[trigger] s.pending_counts@[e]).0 == reload_type_at(i),
            forall|a: int, b: int| 0 <= a < b < s.pending_counts@.len()
                ==> slot(s.pending_counts@[a].0) < slot(s.pending_counts@[b].0),
    {
        let mut counts: Vec<(ReloadType, usize)> = Vec::new();
        let all = ReloadType::all();
        let mut i: usize = 0;
        while i < 4
            invariant
                all@ == seq![ReloadType::Templates, ReloadType::Config, ReloadType::Policies, ReloadType::Assets],
                i <= 4,
                forall|e: int| 0 <= e < counts@.len() ==> {
                    let (t, n) = #[trigger] counts@[e];
                    self.pending_changes@[slot(t)] matches Some(p) && n == p.paths@.len()
                },
                forall|k: int| 0 <= k < i && self.pending_changes@[k].is_some() ==> exists|e: int|
                    0 <= e < counts@.len() && (#[trigger] counts@[e]).0 == reload_type_at(k),
                forall|e: int| 0 <= e < counts@.len() ==> slot(#[trigger] counts@[e].0) < i,
                forall|a: int, b: int| 0 <= a < b < counts@.len() ==> slot(counts@[a].0) < slot(counts@[b].0),
            decreases 4 - i,
        {
            let t = all[i];
            assert(reload_type_at(i as int) == t);
            match &self.pending_changes[i] {
                Some(p) => {
                    let ghost prev = counts@;
                    counts.push((t, p.paths.len()));
                    proof {
                        assert forall|k: int| 0 <= k < i + 1 && self.pending_changes@[k].is_some() implies exists|e: int|
                            0 <= e < counts@.len() && (#[trigger] counts@[e]).0 == reload_type_at(k) by {
                            if k < i {
                                let e = choose|e: int| 0 <= e < prev.len() && (#[trigger] prev[e]).0 == reload_type_at(k);
                                assert(counts@[e] == prev[e]);
                            } else {
                                assert(counts@[prev.len() as int].0 == reload_type_at(k));
                            }
                        }
                    }
                },
                None => {},
            }
            i = i + 1;
        }
        HotReloadStats { reload_count: self.reload_count, pending_counts: counts, enabled: self.config.enabled }
    }

    /// Replace the configuration.
    pub fn update_config(&mut self, config: HotReloadConfig)
        ensures
            final(self).config == config,
            final(self).pending_changes@ == old(self).pending_changes@,
            final(self).reload_count == old(self).reload_count,
    {
        self.config = config;
    }
}

/// Law: a pending change is due exactly when the debounce of its type has
/// passed since its last change; before that, a trigger leaves it pending.
pub proof fn law_debounce(pending: Seq<Option<PendingChange>>, config: HotReloadConfig, now: u64, i: int)
    requires
        0 <= i < 4,
        pending.len() == 4,
    ensures
        due(pending, config, now, i) <==> (pending[i] matches Some(p)
            && elapsed(p.last_change, now) >= spec_debounce_for(config, reload_type_at(i))),
{
}

/// The pending changes left after a trigger at `now`: the due ones are gone.
pub open spec fn after_trigger(pending: Seq<Option<PendingChange>>, config: HotReloadConfig, now: u64) -> Seq<Option<PendingChange>> {
    Seq::new(4, |i: int| if due(pending, config, now, i) { None } else { pending[i] })
}

proof fn lemma_no_due_events(pending: Seq<Option<PendingChange>>, config: HotReloadConfig, now: u64, k: int)
    requires
        0 <= k <= 4,
        forall|i: int| 0 <= i < 4 ==> !due(pending, config, now, i),
    ensures
        due_events(pending, config, now, k).len() == 0,
    decreases k,
{
    if k > 0 {
        lemma_no_due_events(pending, config, now, k - 1);
    }
}

/// Law: a second trigger at the same time emits nothing, since none of the
/// changes a trigger leaves pending is due.
pub proof fn law_trigger_idempotent(pending: Seq<Option<PendingChange>>, config: HotReloadConfig, now: u64)
    requires
        pending.len() == 4,
    ensures
        due_events(after_trigger(pending, config, now), config, now, 4).len() == 0,
{
    let left = after_trigger(pending, config, now);
    assert forall|i: int| 0 <= i < 4 implies !due(left, config, now, i) by {
        if due(pending, config, now, i) {
            assert(left[i].is_none());
        } else {
            assert(left[i] == pending[i]);
        }
    }
    lemma_no_due_events(left, config, now, 4);
}

/// Law: a path reported as changed is among the pending paths of its type
/// (so the next reload of that type carries it), and reporting it again
/// does not list it twice.
pub proof fn law_changed_path_pending(pending: Seq<Seq<char>>, path: Seq<char>)
    ensures
        set_insert(pending, path).contains(path),
        set_insert(set_insert(pending, path), path) == set_insert(pending, path),
        distinct_views(pending) ==> distinct_views(set_insert(pending, path)),
{
    if !pending.contains(path) {
        assert(set_insert(pending, path)[pending.len() as int] == path);
        let n = set_insert(pending, path);
        if distinct_views(pending) {
            assert forall|a: int, b: int| 0 <= a < b < n.len() implies n[a] != n[b] by {
                if b == pending.len() {
                    assert(n[a] == pending[a]);
                }
            }
        }
    }
}

} // verus!
