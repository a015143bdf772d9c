//! What the host keeps of a loaded module, apart from the mapping itself: the
//! cells in declaration order, the paths involved, and the disposable copies
//! that reloading leaves behind.
use vstd::prelude::*;
use crate::text::{decimal, decimal_string_u64, lemma_decimal_injective};

verus! {

/// A cell as the module declares it: its name and its declaration-order key.
#[derive(Debug)]
pub struct CellInfo {
    pub name: String,
    pub line: u32,
}

impl CellInfo {
    pub open spec fn view(&self) -> (Seq<char>, u32) {
        (self.name@, self.line)
    }

    /// A copy of this descriptor.
    pub fn duplicate(&self) -> (r: CellInfo)
        ensures
            r@ == self@,
    {
        CellInfo { name: self.name.clone(), line: self.line }
    }
}

/// Cell `a` comes before cell `b`: a smaller key, or the same key and found earlier.
pub open spec fn goes_before(lines: Seq<u32>, a: int, b: int) -> bool {
    lines[a] < lines[b] || (lines[a] == lines[b] && a < b)
}

/// `p` lists the positions `0..lines.len()` once each, by key, and among equal
/// keys in the order they were found.
pub open spec fn is_stable_order(lines: Seq<u32>, p: Seq<usize>) -> bool {
    &&& p.len() == lines.len()
    &&& forall|i: int| 0 <= i < p.len() ==> (#[trigger] p[i]) < lines.len()
    &&& forall|i: int, j: int| 0 <= i < j < p.len() ==> goes_before(lines, p[i] as int, p[j] as int)
}

pub open spec fn line_keys(cells: Seq<CellInfo>) -> Seq<u32> {
    cells.map_values(|c: CellInfo| c.line)
}

/// `r` is `cells` taken in the order `p`, which is a stable order of their keys.
pub open spec fn reordered_by(r: Seq<CellInfo>, cells: Seq<CellInfo>, p: Seq<usize>) -> bool {
    &&& is_stable_order(line_keys(cells), p)
    &&& r.len() == cells.len()
    &&& forall|i: int| 0 <= i < r.len() ==> #[trigger] r[i]@ == cells[p[i] as int]@
}

/// `r` holds `cells` in declaration order: ascending keys, and among equal keys
/// the order in which they were found.
pub open spec fn in_declaration_order(r: Seq<CellInfo>, cells: Seq<CellInfo>) -> bool {
    exists|p: Seq<usize>| #[trigger] reordered_by(r, cells, p)
}

/// Cells in declaration order have non-decreasing keys, and two cells with the
/// same key keep the order in which they were found.
pub proof fn lemma_declaration_order(r: Seq<CellInfo>, cells: Seq<CellInfo>)
    requires
        in_declaration_order(r, cells),
    ensures
        forall|i: int, j: int| 0 <= i < j < r.len() ==> r[i].line <= r[j].line,
        exists|p: Seq<usize>|
            #![trigger reordered_by(r, cells, p)]
            reordered_by(r, cells, p) && forall|i: int, j: int|
                0 <= i < j < r.len() && r[i].line == r[j].line ==> p[i] < p[j],
{
    let p = choose|p: Seq<usize>| #[trigger] reordered_by(r, cells, p);
    let keys = line_keys(cells);
    assert forall|i: int, j: int| 0 <= i < j < r.len() implies r[i].line <= r[j].line && (r[i].line
        == r[j].line ==> p[i] < p[j]) by {
        assert(goes_before(keys, p[i] as int, p[j] as int));
        assert(r[i]@ == cells[p[i] as int]@);
        assert(r[j]@ == cells[p[j] as int]@);
    }
}

/// The positions of `lines` in stable ascending order of their values.
pub fn sorted_order(lines: &Vec<u32>) -> (r: Vec<usize>)
    ensures
        is_stable_order(lines@, r@),
{
    let n = lines.len();
    let mut out: Vec<usize> = Vec::new();
    let mut k: usize = 0;
    while k < n
        invariant
            n == lines@.len(),
            k <= n,
            out@.len() == k,
            forall|i: int| 0 <= i < out@.len() ==> (#[trigger] out@[i]) < k,
            forall|i: int, j: int| 0 <= i < j < out@.len() ==> goes_before(lines@, out@[i] as int, out@[j] as int),
        decreases n - k,
    {
        let key = lines[k];
        let mut p: usize = 0;
        while p < out.len() && lines[out[p]] <= key
            invariant
                n == lines@.len(),
                k < n,
                p <= out@.len(),
                forall|i: int| 0 <= i < out@.len() ==> (#[trigger] out@[i]) < k,
                forall|i: int| 0 <= i < p ==> lines@[#[trigger] out@[i] as int] <= key,
            decreases out@.len() - p,
        {
            p = p + 1;
        }
        let ghost pre = out@;
        proof {
            assert forall|i: int| p <= i < pre.len() implies lines@[#[trigger] pre[i] as int] > key by {
                if lines@[pre[i] as int] <= key {
                    assert(goes_before(lines@, pre[p as int] as int, pre[i] as int));
                }
            }
        }
        out.insert(p, k);
        proof {
            let q = out@;
            assert forall|i: int| 0 <= i < q.len() implies (#[trigger] q[i]) < k + 1 by {
                if i < p {
                    assert(q[i] == pre[i]);
                } else if i > p {
                    assert(q[i] == pre[i - 1]);
                }
            }
            assert forall|i: int, j: int| 0 <= i < j < q.len() implies goes_before(lines@, q[i] as int, q[j] as int) by {
                if j < p {
                    assert(q[i] == pre[i] && q[j] == pre[j]);
                } else if j == p {
                    assert(q[i] == pre[i]);
                    assert(lines@[pre[i] as int] <= key);
                } else if i == p {
                    assert(q[j] == pre[j - 1]);
                    assert(lines@[pre[j - 1] as int] > key);
                } else if i < p {
                    assert(q[i] == pre[i] && q[j] == pre[j - 1]);
                } else {
                    assert(q[i] == pre[i - 1] && q[j] == pre[j - 1]);
                }
            }
        }
        k = k + 1;
    }
    out
}

/// The cells in declaration order: ascending keys, and among equal keys the
/// order in which they were found.
pub fn order_cells(cells: &Vec<CellInfo>) -> (r: Vec<CellInfo>)
    ensures
        r@.len() == cells@.len(),
        in_declaration_order(r@, cells@),
{
    let n = cells.len();
    let mut lines: Vec<u32> = Vec::new();
    let mut i: usize = 0;
    while i < n
        invariant
            n == cells@.len(),
            i <= n,
            lines@ =~= line_keys(cells@.subrange(0, i as int)),
        decreases n - i,
    {
        lines.push(cells[i].line);
        i = i + 1;
    }
    assert(cells@.subrange(0, n as int) =~= cells@);
    assert(lines@ =~= line_keys(cells@));
    let order = sorted_order(&lines);
    let mut out: Vec<CellInfo> = Vec::new();
    let mut j: usize = 0;
    while j < n
        invariant
            n == cells@.len(),
            order@.len() == n,
            is_stable_order(lines@, order@),
            j <= n,
            out@.len() == j,
            forall|t: int| 0 <= t < j ==> #[trigger] out@[t]@ == cells@[order@[t] as int]@,
        decreases n - j,
    {
        let c = cells[order[j]].duplicate();
        out.push(c);
        j = j + 1;
    }
    assert(reordered_by(out@, cells@, order@));
    out
}

/// What separates the source path from the reload number in a copy's path.
pub open spec fn reload_suffix() -> Seq<char> {
    seq!['.', 'r', 'e', 'l', 'o', 'a', 'd', '.']
}

/// The path of the disposable copy made for reload number `counter`.
pub open spec fn reload_path_of(source: Seq<char>, counter: u64) -> Seq<char> {
    source + reload_suffix() + decimal(counter as nat)
}

/// The disposable copies made for two different reloads have different paths.
pub proof fn lemma_reload_paths_distinct(source: Seq<char>, a: u64, b: u64)
    requires
        a != b,
    ensures
        reload_path_of(source, a) != reload_path_of(source, b),
{
    let pa = reload_path_of(source, a);
    let pb = reload_path_of(source, b);
    let m = source.len() + 8;
    if pa == pb {
        assert(pa.subrange(m as int, pa.len() as int) =~= decimal(a as nat));
        assert(pb.subrange(m as int, pb.len() as int) =~= decimal(b as nat));
        lemma_decimal_injective(a as nat, b as nat);
    }
}

/// The path of the copy made for reload number `counter` of `source`.
pub fn reload_path(source: &str, counter: u64) -> (r: String)
    ensures
        r@ == reload_path_of(source@, counter),
{
    proof {
        reveal_strlit(".reload.");
    }
    let mut p = String::from_str(source);
    p.append(".reload.");
    let d = decimal_string_u64(counter);
    p.append(d.as_str());
    p
}

/// What the host knows of the current module: where it comes from, which
/// file is mapped, its cells in order, and the copies awaiting deletion.
#[derive(Debug)]
pub struct ModuleRecord {
    pub source_path: String,
    pub mapped_path: String,
    pub cells: Vec<CellInfo>,
    pub disposable: Vec<String>,
    pub reloads: u64,
}

impl ModuleRecord {
    /// Every mapped copy so far has its own reload number below `reloads`.
    pub open spec fn wf(&self) -> bool {
        &&& self.disposable@.len() == self.reloads
        &&& forall|i: int| 0 <= i < self.disposable@.len() ==> #[trigger] self.disposable@[i]@ == reload_path_of(self.source_path@, i as u64)
        &&& self.reloads > 0 ==> self.mapped_path@ == reload_path_of(self.source_path@, (self.reloads - 1) as u64)
        &&& self.reloads == 0 ==> self.mapped_path@ == self.source_path@
    }

    /// The record of a module mapped straight from `source`, with its cells
    /// put in declaration order.
    pub fn loaded(source: &str, cells: &Vec<CellInfo>) -> (r: ModuleRecord)
        ensures
            r.wf(),
            r.source_path@ == source@,
            r.mapped_path@ == source@,
            r.reloads == 0,
            r.cells@.len() == cells@.len(),
            in_declaration_order(r.cells@, cells@),
    {
        let r = ModuleRecord {
            source_path: String::from_str(source),
            mapped_path: String::from_str(source),
            cells: order_cells(cells),
            disposable: Vec::new(),
            reloads: 0,
        };
        r
    }

    /// The path to copy the source to for the next reload: never one mapped before.
    pub fn next_copy_path(&self) -> (r: String)
        requires
            self.wf(),
        ensures
            r@ == reload_path_of(self.source_path@, self.reloads),
            forall|i: int| 0 <= i < self.disposable@.len() ==> #[trigger] self.disposable@[i]@ != r@,
    {
        let r = reload_path(self.source_path.as_str(), self.reloads);
        proof {
            assert forall|i: int| 0 <= i < self.disposable@.len() implies #[trigger] self.disposable@[i]@ != r@ by {
                lemma_reload_paths_distinct(self.source_path@, i as u64, self.reloads);
            }
        }
        r
    }

    /// The record after the copy at `copy` was mapped and listed `cells`:
    /// a new record, the copy added to those awaiting deletion.
    pub fn reloaded(&self, copy: String, cells: &Vec<CellInfo>) -> (r: ModuleRecord)
        requires
            self.wf(),
            self.reloads < u64::MAX,
            copy@ == reload_path_of(self.source_path@, self.reloads),
        ensures
            r.wf(),
            r.source_path@ == self.source_path@,
            r.mapped_path@ == copy@,
            r.mapped_path@ != self.mapped_path@,
            r.reloads == self.reloads + 1,
            r.disposable@.len() == self.disposable@.len() + 1,
            forall|i: int| 0 <= i < self.disposable@.len() ==> #[trigger] r.disposable@[i]@ == self.disposable@[i]@,
            r.cells@.len() == cells@.len(),
            in_declaration_order(r.cells@, cells@),
    {
        let mut disposable: Vec<String> = Vec::new();
        let mut i: usize = 0;
        while i < self.disposable.len()
            invariant
                i <= self.disposable@.len(),
                disposable@.len() == i,
                forall|t: int| 0 <= t < i ==> #[trigger] disposable@[t]@ == self.disposable@[t]@,
            decreases self.disposable@.len() - i,
        {
            disposable.push(self.disposable[i].clone());
            i = i + 1;
        }
        let mapped = copy.clone();
        disposable.push(copy);
        proof {
            if self.reloads > 0 {
                lemma_reload_paths_distinct(self.source_path@, (self.reloads - 1) as u64, self.reloads);
            } else {
                assert(reload_path_of(self.source_path@, self.reloads).len() > self.source_path@.len());
            }
        }
        ModuleRecord {
            source_path: self.source_path.clone(),
            mapped_path: mapped,
            cells: order_cells(cells),
            disposable,
            reloads: self.reloads + 1,
        }
    }

    /// The position of the cell called `name`, if there is one.
    pub fn find_cell(&self, name: &str) -> (r: Option<usize>)
        ensures
            match r {
                Some(i) => i < self.cells@.len() && self.cells@[i as int].name@ == name@,
                None => forall|i: int| 0 <= i < self.cells@.len() ==> #[trigger] self.cells@[i].name@ != name@,
            },
    {
        let target = String::from_str(name);
        let mut i: usize = 0;
        while i < self.cells.len()
            invariant
                i <= self.cells@.len(),
                target@ == name@,
                forall|t: int| 0 <= t < i ==> #[trigger] self.cells@[t].name@ != name@,
            decreases self.cells@.len() - i,
        {
            if self.cells[i].name == target {
                return Some(i);
            }
            i = i + 1;
        }
        None
    }
}

} // verus!
