//! Shader hot reload: which watched shader files changed since the last
//! poll, which programs a change reloads, and the diagnostic each change is
//! reported with. Modification times are read from disk by the caller and
//! handed in as plain values (`None` for a file that cannot be read).
use vstd::prelude::*;

use crate::types::{EngineError, error_message};

verus! {

// ── Reloadable programs ──────────────────────────────────────────────────────

/// A shader program that can be recompiled from the file it was loaded from.
pub trait Reloadable {
    /// The source file the program was loaded from, if any: what
    /// `source_path` returns for this program. An implementation says what
    /// it is by defining it; the default definition, for implementations
    /// written outside verified code, is one fixed unknown value. Code
    /// generic over the trait, as this library's is, sees neither: it knows
    /// only what the methods' contracts say.
    closed spec fn source_file(&self) -> Option<Seq<char>> {
        vstd::pervasive::arbitrary()
    }

    /// `after` is this program after one reload that returned `r`, an
    /// error given by its message. An implementation says what a reload
    /// does by defining it (the default definition holds always). Code
    /// generic over the trait sees no definition, so it learns that a
    /// program stands in this relation to another only from a call of
    /// `reload`.
    closed spec fn reloaded(&self, after: &Self, r: Result<bool, Seq<char>>) -> bool {
        true
    }

    /// The source file the program was loaded from, if any.
    fn source_path(&self) -> (r: Option<String>)
        ensures
            match r {
                Some(p) => self.source_file() == Some(p@),
                None => self.source_file() is None,
            };

    /// Recompile from the source file: `Ok(true)` on success, `Ok(false)`
    /// when there is no file, `Err` on a compile failure (the previous
    /// program stays active). The program keeps its source file.
    fn reload(&mut self) -> (r: Result<bool, EngineError>)
        ensures
            final(self).source_file() == old(self).source_file(),
            old(self).reloaded(&*final(self), reload_view(r));
}

/// A reload's result with its error replaced by the error's message.
pub open spec fn reload_view(r: Result<bool, EngineError>) -> Result<bool, Seq<char>> {
    match r {
        Ok(b) => Ok(b),
        Err(e) => Err(error_message(e)),
    }
}

// ── Diagnostics ──────────────────────────────────────────────────────────────

/// The outcome of one hot-reload attempt for one changed file.
#[derive(Clone, Debug)]
pub struct ShaderReloadDiagnostic {
    /// The file that changed.
    pub path: String,
    /// Whether a program was recompiled and none failed.
    pub success: bool,
    /// The last compile error, if any program failed.
    pub error: Option<String>,
}

/// The one-line summary of a diagnostic.
pub open spec fn summary_text(path: Seq<char>, success: bool, error: Option<Seq<char>>) -> Seq<char> {
    if success {
        "[shader-reload] \u{2713} "@ + path
    } else {
        "[shader-reload] \u{2717} "@ + path + ": "@ + match error {
            Some(e) => e,
            None => "unknown error"@,
        }
    }
}

/// What the reload calls for one changed file returned, in program order,
/// each error given by its message.
pub type ReloadOutcomes = Seq<Result<bool, Seq<char>>>;

/// Whether some program was recompiled.
pub open spec fn any_reloaded(o: ReloadOutcomes) -> bool {
    exists|i: int| 0 <= i < o.len() && o[i] == Ok::<bool, Seq<char>>(true)
}

/// The message of the last failed reload, if any.
pub open spec fn last_error(o: ReloadOutcomes) -> Option<Seq<char>>
    decreases o.len(),
{
    if o.len() == 0 {
        None
    } else {
        match o.last() {
            Err(m) => Some(m),
            Ok(_) => last_error(o.drop_last()),
        }
    }
}

/// The diagnostic of a changed file whose matching programs' reloads
/// returned `o`: successful when some program was recompiled and none
/// failed, carrying the last failure's message.
pub open spec fn diagnostic_matches(d: ShaderReloadDiagnostic, path: Seq<char>, o: ReloadOutcomes) -> bool {
    &&& d.path@ == path
    &&& d.success == (any_reloaded(o) && last_error(o) is None)
    &&& match (d.error, last_error(o)) {
        (Some(e), Some(m)) => e@ == m,
        (None, None) => true,
        _ => false,
    }
}

/// `after` is `before` with every program loaded from `path` reloaded
/// once, in order, the `i`th of these reloads returning `o[i]`, and every
/// other program left as it was.
pub open spec fn reload_run<R: Reloadable>(before: Seq<R>, after: Seq<R>, path: Seq<char>, o: ReloadOutcomes) -> bool
    decreases before.len(),
{
    if before.len() == 0 {
        after.len() == 0 && o.len() == 0
    } else if before.last().source_file() == Some(path) {
        &&& after.len() == before.len()
        &&& o.len() > 0
        &&& before.last().reloaded(&after.last(), o.last())
        &&& reload_run(before.drop_last(), after.drop_last(), path, o.drop_last())
    } else {
        &&& after.len() == before.len()
        &&& after.last() == before.last()
        &&& reload_run(before.drop_last(), after.drop_last(), path, o)
    }
}

/// The reloads of a tick for the changed paths `paths`, in order: the
/// programs go from `before` to `after` through one reload run per path,
/// and the `i`th diagnostic reports what the `i`th run's reloads returned.
pub open spec fn tick_run<R: Reloadable>(before: Seq<R>, after: Seq<R>, paths: Seq<Seq<char>>, ds: Seq<ShaderReloadDiagnostic>) -> bool
    decreases paths.len(),
{
    if paths.len() == 0 {
        after == before && ds.len() == 0
    } else {
        &&& ds.len() == paths.len()
        &&& exists|mid: Seq<R>, o: ReloadOutcomes|
            #[trigger] reload_run(mid, after, paths.last(), o)
            && tick_run(before, mid, paths.drop_last(), ds.drop_last())
            && diagnostic_matches(ds.last(), paths.last(), o)
    }
}

/// Whether a program is loaded from one of the files `paths`.
pub open spec fn reloaded_by<R: Reloadable>(p: R, paths: Seq<Seq<char>>) -> bool {
    exists|i: int| 0 <= i < paths.len() && p.source_file() == Some(#[trigger] paths[i])
}

/// An outcome with its error replaced by the error's message.
pub open spec fn outcome_view(r: Result<bool, String>) -> Result<bool, Seq<char>> {
    match r {
        Ok(b) => Ok(b),
        Err(m) => Err(m@),
    }
}

impl ShaderReloadDiagnostic {
    /// The diagnostic for `path`, given what the reloads of its programs
    /// returned.
    pub fn from_outcomes(path: String, outcomes: &Vec<Result<bool, String>>) -> (r: ShaderReloadDiagnostic)
        ensures
            diagnostic_matches(r, path@, outcomes@.map_values(|x: Result<bool, String>| outcome_view(x))),
    {
        let ghost o = outcomes@.map_values(|x: Result<bool, String>| outcome_view(x));
        let mut reloaded = false;
        let mut last_err: Option<String> = None;
        let mut i: usize = 0;
        while i < outcomes.len()
            invariant
                i <= outcomes.len(),
                o == outcomes@.map_values(|x: Result<bool, String>| outcome_view(x)),
                reloaded == any_reloaded(o.take(i as int)),
                match (last_err, last_error(o.take(i as int))) {
                    (Some(e), Some(m)) => e@ == m,
                    (None, None) => true,
                    _ => false,
                },
            decreases outcomes.len() - i,
        {
            let ghost t0 = o.take(i as int);
            let ghost t1 = o.take(i as int + 1);
            assert(t1.drop_last() == t0);
            assert(t1.last() == o[i as int]);
            match &outcomes[i] {
                Ok(true) => {
                    reloaded = true;
                },
                Ok(false) => {},
                Err(m) => {
                    last_err = Some(m.clone());
                },
            }
            assert(any_reloaded(t1) == (any_reloaded(t0) || o[i as int] == Ok::<bool, Seq<char>>(true))) by {
                if o[i as int] == Ok::<bool, Seq<char>>(true) {
                    assert(t1[i as int] == o[i as int]);
                }
                if any_reloaded(t0) {
                    let k = choose|k: int| 0 <= k < t0.len() && t0[k] == Ok::<bool, Seq<char>>(true);
                    assert(t1[k] == t0[k]);
                }
                if any_reloaded(t1) {
                    let k = choose|k: int| 0 <= k < t1.len() && t1[k] == Ok::<bool, Seq<char>>(true);
                    if k < i {
                        assert(t0[k] == t1[k]);
                    }
                }
            }
            i = i + 1;
        }
        assert(o.take(i as int) == o);
        let success = reloaded && last_err.is_none();
        ShaderReloadDiagnostic { path, success, error: last_err }
    }

    /// A one-line human-readable summary for logging.
    pub fn summary(&self) -> (r: String)
        ensures
            r@ == summary_text(self.path@, self.success, match self.error {
                Some(e) => Some(e@),
                None => None,
            }),
    {
        if self.success {
            let mut s = String::from_str("[shader-reload] \u{2713} ");
            s.append(self.path.as_str());
            s
        } else {
            let mut s = String::from_str("[shader-reload] \u{2717} ");
            s.append(self.path.as_str());
            s.append(": ");
            match &self.error {
                Some(e) => s.append(e.as_str()),
                None => s.append("unknown error"),
            }
            s
        }
    }
}

// ── Watcher ──────────────────────────────────────────────────────────────────

/// A watched file and the modification time last seen for it (`None` when
/// the file could not be read).
#[derive(Clone, Debug)]
pub struct WatchedEntry {
    pub path: String,
    pub last_mtime: Option<u128>,
}

/// The watched paths, in order.
pub open spec fn entry_paths(e: Seq<WatchedEntry>) -> Seq<Seq<char>> {
    e.map_values(|x: WatchedEntry| x.path@)
}

/// The paths among the first `k` entries whose current modification time
/// differs from the one last seen, in order.
pub open spec fn changed_upto(e: Seq<WatchedEntry>, current: Seq<Option<u128>>, k: int) -> Seq<Seq<char>>
    decreases k,
{
    if k <= 0 {
        Seq::empty()
    } else if current[k - 1] != e[k - 1].last_mtime {
        changed_upto(e, current, k - 1).push(e[k - 1].path@)
    } else {
        changed_upto(e, current, k - 1)
    }
}

/// The entries after a poll: same paths, every time now the current one.
pub open spec fn polled(before: Seq<WatchedEntry>, after: Seq<WatchedEntry>, current: Seq<Option<u128>>) -> bool {
    &&& after.len() == before.len()
    &&& forall|i: int| 0 <= i < after.len() ==> #[trigger] after[i].path@ == before[i].path@
        && after[i].last_mtime == current[i]
}

/// The entries of `e` not watching `path`, in order.
pub open spec fn kept_entries(e: Seq<WatchedEntry>, path: Seq<char>) -> Seq<WatchedEntry>
    decreases e.len(),
{
    if e.len() == 0 {
        e
    } else if e.last().path@ == path {
        kept_entries(e.drop_last(), path)
    } else {
        kept_entries(e.drop_last(), path).push(e.last())
    }
}

/// How many of `ps` were loaded from the file `path`.
pub open spec fn matching_count<R: Reloadable>(ps: Seq<R>, path: Seq<char>) -> nat
    decreases ps.len(),
{
    if ps.len() == 0 {
        0
    } else {
        matching_count(ps.drop_last(), path) + if ps.last().source_file() == Some(path) { 1nat } else { 0nat }
    }
}

/// `a` and `b` hold, position by position, programs of the same source files.
pub open spec fn same_sources<R: Reloadable>(a: Seq<R>, b: Seq<R>) -> bool {
    &&& a.len() == b.len()
    &&& forall|k: int| 0 <= k < a.len() ==> #[trigger] a[k].source_file() == b[k].source_file()
}

/// Programs of the same source files count the same programs of each file.
proof fn lemma_matching_count_same_sources<R: Reloadable>(a: Seq<R>, b: Seq<R>, path: Seq<char>)
    requires
        same_sources(a, b),
    ensures
        matching_count(a, path) == matching_count(b, path),
    decreases a.len(),
{
    if a.len() > 0 {
        assert(a.last().source_file() == b.last().source_file()) by {
            assert(a[a.len() - 1].source_file() == b[b.len() - 1].source_file());
        }
        assert(same_sources(a.drop_last(), b.drop_last())) by {
            assert forall|k: int| 0 <= k < a.drop_last().len() implies
                #[trigger] a.drop_last()[k].source_file() == b.drop_last()[k].source_file() by {
                assert(a[k].source_file() == b[k].source_file());
            }
        }
        lemma_matching_count_same_sources(a.drop_last(), b.drop_last(), path);
    }
}

/// Reload, in order, every program whose source file is `path`, and
/// collect what each reload returned, errors by their message: one outcome
/// per such program; the other programs are left as they were.
fn reload_matching<R: Reloadable>(programs: &mut Vec<R>, path: &String) -> (r: Vec<Result<bool, String>>)
    ensures
        final(programs)@.len() == old(programs)@.len(),
        r@.len() == matching_count(old(programs)@, path@),
        reload_run(old(programs)@, final(programs)@, path@, r@.map_values(|x: Result<bool, String>| outcome_view(x))),
        forall|k: int| 0 <= k < old(programs)@.len() && old(programs)@[k].source_file() != Some(path@)
            ==> #[trigger] final(programs)@[k] == old(programs)@[k],
        same_sources(old(programs)@, final(programs)@),
{
    let mut outcomes: Vec<Result<bool, String>> = Vec::new();
    let mut j: usize = 0;
    while j < programs.len()
        invariant
            j <= programs@.len(),
            programs@.len() == old(programs)@.len(),
            outcomes@.len() == matching_count(old(programs)@.take(j as int), path@),
            forall|k: int| j <= k < programs@.len() ==> #[trigger] programs@[k] == old(programs)@[k],
            forall|k: int| 0 <= k < j && old(programs)@[k].source_file() != Some(path@)
                ==> #[trigger] programs@[k] == old(programs)@[k],
            same_sources(old(programs)@, programs@),
            reload_run(old(programs)@.take(j as int), programs@.take(j as int), path@,
                outcomes@.map_values(|x: Result<bool, String>| outcome_view(x))),
        decreases programs@.len() - j,
    {
        assert(old(programs)@.take(j as int + 1).drop_last() =~= old(programs)@.take(j as int));
        let ghost ob = outcomes@.map_values(|x: Result<bool, String>| outcome_view(x));
        let ghost pb = programs@;
        let src = programs[j].source_path();
        let matches = match &src {
            Some(s) => *s == *path,
            None => false,
        };
        if matches {
            let outcome = match programs[j].reload() {
                Ok(b) => Ok(b),
                Err(e) => Err(e.message().to_string()),
            };
            outcomes.push(outcome);
            proof {
                let oa = outcomes@.map_values(|x: Result<bool, String>| outcome_view(x));
                assert(oa.drop_last() =~= ob);
                assert(oa.last() == outcome_view(outcome));
            }
        }
        proof {
            let oa = outcomes@.map_values(|x: Result<bool, String>| outcome_view(x));
            assert(programs@.take(j as int + 1).drop_last() =~= pb.take(j as int));
            assert(programs@.take(j as int + 1).last() == programs@[j as int]);
            assert(old(programs)@.take(j as int + 1).last() == old(programs)@[j as int]);
        }
        j = j + 1;
    }
    assert(old(programs)@.take(j as int) =~= old(programs)@);
    assert(programs@.take(j as int) =~= programs@);
    outcomes
}

/// Polls shader file modification times and drives hot reload.
#[derive(Clone, Debug)]
pub struct ShaderWatcher {
    pub entries: Vec<WatchedEntry>,
}

impl Default for ShaderWatcher {
    fn default() -> (r: ShaderWatcher)
        ensures
            r.entries@.len() == 0,
    {
        ShaderWatcher::new()
    }
}

impl ShaderWatcher {
    /// A watcher with nothing watched.
    pub fn new() -> (r: ShaderWatcher)
        ensures
            r.entries@.len() == 0,
    {
        ShaderWatcher { entries: Vec::new() }
    }

    /// Watch `path`, whose modification time is now `mtime`; that time is
    /// the one later polls compare against, so a newly watched file is not
    /// reported as changed.
    pub fn watch(&mut self, path: &str, mtime: Option<u128>)
        ensures
            final(self).entries@.len() == old(self).entries@.len() + 1,
            final(self).entries@.drop_last() == old(self).entries@,
            final(self).entries@.last().path@ == path@,
            final(self).entries@.last().last_mtime == mtime,
    {
        let ghost before = self.entries@;
        self.entries.push(WatchedEntry { path: path.to_string(), last_mtime: mtime });
        assert(self.entries@.drop_last() == before);
    }

    /// Watch `path` only when it names a file on disk (`exists`): an empty
    /// path or a missing file is not watched. Returns whether it was.
    pub fn watch_if_file(&mut self, path: &str, exists: bool, mtime: Option<u128>) -> (r: bool)
        ensures
            r == (path@.len() > 0 && exists),
            r ==> final(self).entries@ == old(self).entries@.push(WatchedEntry { path: final(self).entries@.last().path, last_mtime: mtime })
                && final(self).entries@.last().path@ == path@,
            !r ==> final(self).entries@ == old(self).entries@,
    {
        if !path.is_empty() && exists {
            self.watch(path, mtime);
            assert(self.entries@ =~= old(self).entries@.push(WatchedEntry { path: self.entries@.last().path, last_mtime: mtime }));
            true
        } else {
            false
        }
    }

    /// Watch a program's source file, when it has one that exists on disk.
    pub fn watch_program(&mut self, source_path: Option<&str>, exists: bool, mtime: Option<u128>)
        ensures
            match source_path {
                Some(p) => if p@.len() > 0 && exists {
                    final(self).entries@.len() == old(self).entries@.len() + 1
                        && final(self).entries@.drop_last() == old(self).entries@
                        && final(self).entries@.last().path@ == p@
                        && final(self).entries@.last().last_mtime == mtime
                } else {
                    final(self).entries@ == old(self).entries@
                },
                None => final(self).entries@ == old(self).entries@,
            },
    {
        if let Some(p) = source_path {
            let _ = self.watch_if_file(p, exists, mtime);
        }
    }

    /// Stop watching `path`: every entry for it is removed, the others keep
    /// their order.
    pub fn unwatch(&mut self, path: &str)
        ensures
            final(self).entries@ == kept_entries(old(self).entries@, path@),
    {
        let ghost start = self.entries@;
        let mut kept: Vec<WatchedEntry> = Vec::new();
        let mut i: usize = 0;
        let n = self.entries.len();
        let wanted = path.to_string();
        while i < n
            invariant
                n == start.len(),
                self.entries@ == start,
                i <= n,
                wanted@ == path@,
                kept@ == kept_entries(start.take(i as int), path@),
            decreases n - i,
        {
            assert(start.take(i as int + 1).drop_last() == start.take(i as int));
            assert(start.take(i as int + 1).last() == start[i as int]);
            if self.entries[i].path != wanted {
                kept.push(self.entries[i].clone_entry());
            }
            i = i + 1;
        }
        assert(start.take(n as int) == start);
        self.entries = kept;
    }

    /// Stop watching everything.
    pub fn clear(&mut self)
        ensures
            final(self).entries@.len() == 0,
    {
        self.entries.clear();
    }

    /// The paths whose modification time changed since the last poll, in
    /// watch order; `current` holds each watched file's time now, in the
    /// same order. Every entry's time becomes the current one, so a second
    /// poll with the same times reports nothing.
    pub fn poll_changed(&mut self, current: &Vec<Option<u128>>) -> (r: Vec<String>)
        requires
            current@.len() == old(self).entries@.len(),
        ensures
            r@.map_values(|s: String| s@) == changed_upto(old(self).entries@, current@, current@.len() as int),
            polled(old(self).entries@, final(self).entries@, current@),
    {
        let ghost start = self.entries@;
        let mut changed: Vec<String> = Vec::new();
        let mut i: usize = 0;
        let n = self.entries.len();
        while i < n
            invariant
                n == start.len(),
                current@.len() == n,
                self.entries@.len() == n,
                i <= n,
                changed@.map_values(|s: String| s@) == changed_upto(start, current@, i as int),
                forall|j: int| 0 <= j < n ==> #[trigger] self.entries@[j].path@ == start[j].path@,
                forall|j: int| 0 <= j < i ==> #[trigger] self.entries@[j].last_mtime == current@[j],
                forall|j: int| i <= j < n ==> #[trigger] self.entries@[j].last_mtime == start[j].last_mtime,
            decreases n - i,
        {
            let now = current[i];
            let ghost before = changed@;
            if now != self.entries[i].last_mtime {
                let p = self.entries[i].path.clone();
                let entry = WatchedEntry { path: self.entries[i].path.clone(), last_mtime: now };
                self.entries.set(i, entry);
                changed.push(p);
                assert(changed@.map_values(|s: String| s@) =~= before.map_values(|s: String| s@).push(start[i as int].path@));
            }
            i = i + 1;
        }
        changed
    }

    /// Poll for changes and reload every program whose source file changed.
    /// Each changed path gets one diagnostic, in order, even when no program
    /// matched; a diagnostic is successful when some program was recompiled
    /// and none failed.
    pub fn tick<R: Reloadable>(&mut self, current: &Vec<Option<u128>>, programs: &mut Vec<R>) -> (r: Vec<ShaderReloadDiagnostic>)
        requires
            current@.len() == old(self).entries@.len(),
        ensures
            polled(old(self).entries@, final(self).entries@, current@),
            r@.len() == changed_upto(old(self).entries@, current@, current@.len() as int).len(),
            tick_run(old(programs)@, final(programs)@, changed_upto(old(self).entries@, current@, current@.len() as int), r@),
            same_sources(old(programs)@, final(programs)@),
            forall|k: int| 0 <= k < old(programs)@.len()
                && !reloaded_by(old(programs)@[k], changed_upto(old(self).entries@, current@, current@.len() as int))
                ==> #[trigger] final(programs)@[k] == old(programs)@[k],
    {
        let changed = self.poll_changed(current);
        let ghost cs = changed@.map_values(|s: String| s@);
        let mut diags: Vec<ShaderReloadDiagnostic> = Vec::new();
        let mut k: usize = 0;
        while k < changed.len()
            invariant
                k <= changed@.len(),
                cs == changed@.map_values(|s: String| s@),
                diags@.len() == k,
                same_sources(old(programs)@, programs@),
                tick_run(old(programs)@, programs@, cs.take(k as int), diags@),
                forall|q: int| 0 <= q < old(programs)@.len() && !reloaded_by(old(programs)@[q], cs.take(k as int))
                    ==> #[trigger] programs@[q] == old(programs)@[q],
            decreases changed@.len() - k,
        {
            let path = changed[k].clone();
            assert(cs[k as int] == changed@[k as int]@);
            let ghost mid = programs@;
            let outcomes = reload_matching(programs, &path);
            proof {
                lemma_matching_count_same_sources(old(programs)@, mid, path@);
                assert(same_sources(old(programs)@, programs@)) by {
                    assert forall|q: int| 0 <= q < old(programs)@.len() implies
                        #[trigger] old(programs)@[q].source_file() == programs@[q].source_file() by {
                        assert(mid[q].source_file() == programs@[q].source_file());
                    }
                }
                assert(cs.take(k as int + 1) =~= cs.take(k as int).push(cs[k as int]));
                assert forall|q: int| 0 <= q < old(programs)@.len() && !reloaded_by(old(programs)@[q], cs.take(k as int + 1))
                    implies #[trigger] programs@[q] == old(programs)@[q] by {
                    assert(!reloaded_by(old(programs)@[q], cs.take(k as int))) by {
                        if reloaded_by(old(programs)@[q], cs.take(k as int)) {
                            let i = choose|i: int| 0 <= i < cs.take(k as int).len()
                                && old(programs)@[q].source_file() == Some(#[trigger] cs.take(k as int)[i]);
                            assert(cs.take(k as int + 1)[i] == cs.take(k as int)[i]);
                        }
                    }
                    assert(old(programs)@[q].source_file() != Some(cs[k as int])) by {
                        assert(cs.take(k as int + 1)[k as int] == cs[k as int]);
                    }
                    assert(mid[q] == old(programs)@[q]);
                    assert(mid[q].source_file() != Some(path@));
                }
            }
            let d = ShaderReloadDiagnostic::from_outcomes(path, &outcomes);
            let ghost before = diags@;
            diags.push(d);
            let ghost o = outcomes@.map_values(|x: Result<bool, String>| outcome_view(x));
            assert(diagnostic_matches(diags@[k as int], cs[k as int], o));
            assert(cs.take(k as int + 1).drop_last() =~= cs.take(k as int));
            assert(cs.take(k as int + 1).last() == cs[k as int]);
            assert(diags@.drop_last() =~= before);
            assert(diags@.last() == diags@[k as int]);
            assert(reload_run(mid, programs@, cs.take(k as int + 1).last(), o));
            k = k + 1;
        }
        assert(cs.take(k as int) =~= cs);
        diags
    }

    /// The watched paths, in watch order.
    pub fn watched_paths(&self) -> (r: Vec<String>)
        ensures
            r@.map_values(|s: String| s@) == entry_paths(self.entries@),
    {
        let mut out: Vec<String> = Vec::new();
        let mut i: usize = 0;
        while i < self.entries.len()
            invariant
                i <= self.entries@.len(),
                out@.len() == i,
                forall|j: int| 0 <= j < i ==> (#[trigger] out@[j])@ == self.entries@[j].path@,
            decreases self.entries@.len() - i,
        {
            out.push(self.entries[i].path.clone());
            i = i + 1;
        }
        assert(out@.map_values(|s: String| s@) =~= entry_paths(self.entries@));
        out
    }
}

impl WatchedEntry {
    /// A field-by-field copy.
    pub fn clone_entry(&self) -> (r: WatchedEntry)
        ensures
            r == *self,
    {
        WatchedEntry { path: self.path.clone(), last_mtime: self.last_mtime }
    }
}

/// After a poll, polling again with the same times reports nothing.
pub proof fn lemma_second_poll_empty(before: Seq<WatchedEntry>, after: Seq<WatchedEntry>, current: Seq<Option<u128>>)
    requires
        current.len() == before.len(),
        polled(before, after, current),
    ensures
        changed_upto(after, current, current.len() as int).len() == 0,
{
    assert forall|i: int| 0 <= i < after.len() implies #[trigger] after[i].last_mtime == current[i] by {
        assert(after[i].path@ == before[i].path@);
    }
    lemma_unchanged_empty(after, current, current.len() as int);
}

proof fn lemma_unchanged_empty(e: Seq<WatchedEntry>, current: Seq<Option<u128>>, k: int)
    requires
        0 <= k <= e.len(),
        k <= current.len(),
        forall|i: int| 0 <= i < e.len() ==> #[trigger] e[i].last_mtime == current[i],
    ensures
        changed_upto(e, current, k).len() == 0,
    decreases k,
{
    if k > 0 {
        assert(e[k - 1].last_mtime == current[k - 1]);
        lemma_unchanged_empty(e, current, k - 1);
    }
}

/// After unwatching a path no entry watches it, and no more entries remain
/// than before.
pub proof fn lemma_unwatch_removes(e: Seq<WatchedEntry>, path: Seq<char>)
    ensures
        forall|i: int| 0 <= i < kept_entries(e, path).len() ==> #[trigger] kept_entries(e, path)[i].path@ != path,
        kept_entries(e, path).len() <= e.len(),
    decreases e.len(),
{
    if e.len() > 0 {
        lemma_unwatch_removes(e.drop_last(), path);
    }
}

/// Watching a file adds nothing to what the next poll reports while the
/// file keeps the time it was watched with: the watched paths are the old
/// ones followed by the new one, and the changed paths are those the
/// earlier entries report. In particular a path watched for the first time
/// is not reported.
pub proof fn lemma_watched_unchanged_not_reported(before: Seq<WatchedEntry>, after: Seq<WatchedEntry>, current: Seq<Option<u128>>)
    requires
        after.len() == before.len() + 1,
        after.drop_last() == before,
        current.len() == after.len(),
        current.last() == after.last().last_mtime,
    ensures
        entry_paths(after) == entry_paths(before).push(after.last().path@),
        changed_upto(after, current, current.len() as int) == changed_upto(before, current.drop_last(), before.len() as int),
        (forall|i: int| 0 <= i < before.len() ==> #[trigger] before[i].path@ != after.last().path@)
            ==> !changed_upto(after, current, current.len() as int).contains(after.last().path@),
{
    assert(entry_paths(after) =~= entry_paths(before).push(after.last().path@)) by {
        assert forall|i: int| 0 <= i < before.len() implies #[trigger] entry_paths(after)[i] == entry_paths(before)[i] by {
            assert(after[i] == after.drop_last()[i]);
        }
    }
    let n = before.len() as int;
    assert(current[n] == after[n].last_mtime);
    lemma_changed_prefix(before, after, current, n);
    lemma_changed_paths(before, current.drop_last(), n);
}

proof fn lemma_changed_prefix(before: Seq<WatchedEntry>, after: Seq<WatchedEntry>, current: Seq<Option<u128>>, k: int)
    requires
        after.drop_last() == before,
        after.len() == before.len() + 1,
        current.len() == after.len(),
        0 <= k <= before.len(),
    ensures
        changed_upto(after, current, k) == changed_upto(before, current.drop_last(), k),
    decreases k,
{
    if k > 0 {
        assert(after[k - 1] == after.drop_last()[k - 1]);
        assert(current[k - 1] == current.drop_last()[k - 1]);
        lemma_changed_prefix(before, after, current, k - 1);
    }
}

proof fn lemma_changed_paths(e: Seq<WatchedEntry>, current: Seq<Option<u128>>, k: int)
    requires
        0 <= k <= e.len(),
    ensures
        forall|x: Seq<char>| changed_upto(e, current, k).contains(x)
            ==> exists|i: int| 0 <= i < k && #[trigger] e[i].path@ == x,
    decreases k,
{
    if k > 0 {
        lemma_changed_paths(e, current, k - 1);
        assert forall|x: Seq<char>| changed_upto(e, current, k).contains(x)
            implies exists|i: int| 0 <= i < k && #[trigger] e[i].path@ == x by {
            let prev = changed_upto(e, current, k - 1);
            if current[k - 1] != e[k - 1].last_mtime {
                let pushed = prev.push(e[k - 1].path@);
                let j = choose|j: int| 0 <= j < pushed.len() && #[trigger] pushed[j] == x;
                if j == prev.len() {
                    assert(e[k - 1].path@ == x);
                } else {
                    assert(prev[j] == x);
                    assert(prev.contains(x));
                }
            } else {
                assert(prev.contains(x));
            }
        }
    }
}

} // verus!
