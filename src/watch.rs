//! Deciding whether file events are real changes, and how to run the build.
use vstd::prelude::*;

verus! {

/// The last modification time seen for each watched path.
#[derive(Debug)]
pub struct MtimeLog {
    pub entries: Vec<(String, u64)>,
}

pub open spec fn log_has_at(entries: Seq<(String, u64)>, k: Seq<char>, i: int) -> bool {
    0 <= i < entries.len() && entries[i].0@ == k
}

impl MtimeLog {
    /// Each path appears once.
    pub open spec fn wf(&self) -> bool {
        forall|i: int, j: int|
            0 <= i < self.entries@.len() && 0 <= j < self.entries@.len() && i != j ==> self.entries@[i].0@
                != self.entries@[j].0@
    }

    pub open spec fn view(&self) -> Map<Seq<char>, u64> {
        Map::new(
            |k: Seq<char>| exists|i: int| log_has_at(self.entries@, k, i),
            |k: Seq<char>| self.entries@[choose|i: int| log_has_at(self.entries@, k, i)].1,
        )
    }

    proof fn lemma_at(&self, i: int)
        requires
            self.wf(),
            0 <= i < self.entries@.len(),
        ensures
            self@.contains_key(self.entries@[i].0@),
            self@[self.entries@[i].0@] == self.entries@[i].1,
    {
        let k = self.entries@[i].0@;
        assert(log_has_at(self.entries@, k, i));
        let j = choose|j: int| log_has_at(self.entries@, k, j);
        assert(j == i);
    }

    /// An empty log.
    pub fn new() -> (r: MtimeLog)
        ensures
            r.wf(),
            r@ == Map::<Seq<char>, u64>::empty(),
    {
        let r = MtimeLog { entries: Vec::new() };
        assert(r@ =~= Map::<Seq<char>, u64>::empty());
        r
    }

    fn find(&self, path: &String) -> (r: Option<usize>)
        requires
            self.wf(),
        ensures
            match r {
                Some(i) => log_has_at(self.entries@, path@, i as int),
                None => !self@.contains_key(path@),
            },
    {
        let mut i: usize = 0;
        while i < self.entries.len()
            invariant
                i <= self.entries@.len(),
                forall|j: int| 0 <= j < i ==> self.entries@[j].0@ != path@,
            decreases self.entries@.len() - i,
        {
            if self.entries[i].0 == *path {
                return Some(i);
            }
            i = i + 1;
        }
        None
    }

    /// The time recorded for `path`.
    pub fn get(&self, path: &String) -> (r: Option<u64>)
        requires
            self.wf(),
        ensures
            r == (if self@.contains_key(path@) { Some(self@[path@]) } else { None::<u64> }),
    {
        match self.find(path) {
            Some(i) => {
                proof {
                    self.lemma_at(i as int);
                }
                Some(self.entries[i].1)
            },
            None => None,
        }
    }

    /// Records `time` for `path`.
    pub fn set(&mut self, path: String, time: u64)
        requires
            old(self).wf(),
        ensures
            final(self).wf(),
            final(self)@ == old(self)@.insert(path@, time),
    {
        let ghost pre = self.entries@;
        let ghost k = path@;
        match self.find(&path) {
            Some(i) => {
                self.entries.set(i, (path, time));
                proof {
                    let post = self.entries@;
                    assert forall|a: int, b: int|
                        0 <= a < post.len() && 0 <= b < post.len() && a != b implies post[a].0@ != post[b].0@ by {
                        assert(pre[a].0@ != pre[b].0@);
                    }
                    assert forall|kk: Seq<char>|
                        #![auto]
                        self@.contains_key(kk) <==> old(self)@.insert(k, time).contains_key(kk) by {
                        if old(self)@.contains_key(kk) {
                            let j = choose|j: int| log_has_at(pre, kk, j);
                            assert(log_has_at(post, kk, j));
                        }
                        if self@.contains_key(kk) {
                            let j = choose|j: int| log_has_at(post, kk, j);
                            if j != i {
                                assert(log_has_at(pre, kk, j));
                            }
                        }
                    }
                    assert forall|kk: Seq<char>| #[trigger] self@.contains_key(kk) implies self@[kk]
                        == old(self)@.insert(k, time)[kk] by {
                        let j = choose|j: int| log_has_at(post, kk, j);
                        self.lemma_at(j);
                        if j != i {
                            old(self).lemma_at(j);
                        }
                    }
                    assert(self@ =~= old(self)@.insert(k, time));
                }
            },
            None => {
                self.entries.push((path, time));
                proof {
                    let post = self.entries@;
                    let n = pre.len() as int;
                    assert forall|j: int| 0 <= j < n implies pre[j].0@ != k by {
                        if pre[j].0@ == k {
                            assert(log_has_at(pre, k, j));
                        }
                    }
                    assert forall|a: int, b: int|
                        0 <= a < post.len() && 0 <= b < post.len() && a != b implies post[a].0@ != post[b].0@ by {
                        if a < n && b < n {
                            assert(pre[a].0@ != pre[b].0@);
                        }
                    }
                    assert forall|kk: Seq<char>|
                        #![auto]
                        self@.contains_key(kk) <==> old(self)@.insert(k, time).contains_key(kk) by {
                        if old(self)@.contains_key(kk) {
                            let j = choose|j: int| log_has_at(pre, kk, j);
                            assert(log_has_at(post, kk, j));
                        }
                        if kk == k {
                            assert(log_has_at(post, kk, n));
                        }
                        if self@.contains_key(kk) {
                            let j = choose|j: int| log_has_at(post, kk, j);
                            if j != n {
                                assert(log_has_at(pre, kk, j));
                            }
                        }
                    }
                    assert forall|kk: Seq<char>| #[trigger] self@.contains_key(kk) implies self@[kk]
                        == old(self)@.insert(k, time)[kk] by {
                        let j = choose|j: int| log_has_at(post, kk, j);
                        self.lemma_at(j);
                        if j != n {
                            old(self).lemma_at(j);
                        }
                    }
                    assert(self@ =~= old(self)@.insert(k, time));
                }
            },
        }
    }
}

/// The log after the observations `obs`, taken in order, and whether one of
/// them changed a time already recorded. A path seen for the first time is
/// recorded without counting as a change.
pub open spec fn observe(m: Map<Seq<char>, u64>, obs: Seq<(Seq<char>, u64)>) -> (Map<Seq<char>, u64>, bool)
    decreases obs.len(),
{
    if obs.len() == 0 {
        (m, false)
    } else {
        let (m0, changed) = observe(m, obs.drop_last());
        let (p, t) = obs.last();
        if !m0.contains_key(p) {
            (m0.insert(p, t), changed)
        } else if m0[p] != t {
            (m0.insert(p, t), true)
        } else {
            (m0, changed)
        }
    }
}

pub open spec fn obs_view(obs: Seq<(String, u64)>) -> Seq<(Seq<char>, u64)> {
    obs.map_values(|o: (String, u64)| (o.0@, o.1))
}

/// Records the modification times `observed` (each path with the time read
/// for it) and says whether any differs from the one recorded before.
pub fn has_actual_changes(observed: &Vec<(String, u64)>, mtimes: &mut MtimeLog) -> (r: bool)
    requires
        old(mtimes).wf(),
    ensures
        final(mtimes).wf(),
        (final(mtimes)@, r) == observe(old(mtimes)@, obs_view(observed@)),
{
    let mut changed = false;
    let mut i: usize = 0;
    while i < observed.len()
        invariant
            i <= observed@.len(),
            mtimes.wf(),
            (mtimes@, changed) == observe(old(mtimes)@, obs_view(observed@.subrange(0, i as int))),
        decreases observed@.len() - i,
    {
        let path = &observed[i].0;
        let t = observed[i].1;
        assert(obs_view(observed@.subrange(0, i + 1)).drop_last() =~= obs_view(observed@.subrange(0, i as int)));
        match mtimes.get(path) {
            Some(prev) => {
                if prev != t {
                    mtimes.set(path.clone(), t);
                    changed = true;
                }
            },
            None => {
                mtimes.set(path.clone(), t);
            },
        }
        i = i + 1;
    }
    assert(observed@.subrange(0, i as int) =~= observed@);
    changed
}

/// The arguments of the build: the library only, and `--locked` where a lock
/// file exists.
pub fn cargo_build_args(has_lockfile: bool) -> (r: Vec<&'static str>)
    ensures
        r@.len() == if has_lockfile { 3nat } else { 2nat },
        r@[0]@ == "build"@,
        r@[1]@ == "--lib"@,
        has_lockfile ==> r@[2]@ == "--locked"@,
{
    let mut args: Vec<&'static str> = Vec::new();
    args.push("build");
    args.push("--lib");
    if has_lockfile {
        args.push("--locked");
    }
    args
}

/// The build command as shown to the user.
pub fn cargo_build_display_cmd(has_lockfile: bool) -> (r: String)
    ensures
        r@ == "cargo build --lib"@ + (if has_lockfile { " --locked"@ } else { Seq::<char>::empty() }),
{
    let mut s = String::from_str("cargo build --lib");
    if has_lockfile {
        s.append(" --locked");
    }
    s
}

} // verus!
