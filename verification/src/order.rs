use vstd::prelude::*;
use crate::graph::{deps_view, position, Graph, ModuleView};
use crate::resolver::{Resolved, ResolvedView};
use crate::text::chars_of;

verus! {

/// Whether the text `a` stands before `b`, or is `b`, where texts are put in
/// order by their first character that differs.
pub open spec fn lex_le(a: Seq<char>, b: Seq<char>) -> bool
    decreases a.len(),
{
    if a.len() == 0 {
        true
    } else if b.len() == 0 {
        false
    } else if a[0] != b[0] {
        (a[0] as int) < (b[0] as int)
    } else {
        lex_le(a.drop_first(), b.drop_first())
    }
}

/// Whether the text `a` stands before `b`, or is `b`.
pub fn stands_before(a: &str, b: &str) -> (r: bool)
    ensures
        r == lex_le(a@, b@),
{
    let x = chars_of(a);
    let y = chars_of(b);
    let mut i: usize = 0;
    assert(x@.skip(0) =~= x@);
    assert(y@.skip(0) =~= y@);
    loop
        invariant
            i <= x@.len(),
            i <= y@.len(),
            x@ == a@,
            y@ == b@,
            lex_le(a@, b@) == lex_le(x@.skip(i as int), y@.skip(i as int)),
        decreases x@.len() - i,
    {
        if i == x.len() {
            return true;
        }
        if i == y.len() {
            return false;
        }
        proof {
            assert(x@.skip(i as int)[0] == x@[i as int]);
            assert(y@.skip(i as int)[0] == y@[i as int]);
            assert(x@.skip(i as int).drop_first() =~= x@.skip(i + 1));
            assert(y@.skip(i as int).drop_first() =~= y@.skip(i + 1));
        }
        if x[i] != y[i] {
            return x[i] < y[i];
        }
        i += 1;
    }
}

/// The order `order` with the index `k` put in: behind every index whose key
/// stands before the key of `k` or is that key, and in front of the rest from
/// the `j`th on.
pub open spec fn placed(order: Seq<int>, keys: Seq<Seq<char>>, k: int, j: int) -> Seq<int>
    decreases order.len() - j,
{
    if j < 0 || j >= order.len() {
        order.push(k)
    } else if !lex_le(keys[order[j]], keys[k]) {
        order.insert(j, k)
    } else {
        placed(order, keys, k, j + 1)
    }
}

/// The first `n` indices of `keys`, put in the order of their keys; indices
/// of one key stay in their own order.
pub open spec fn key_order(keys: Seq<Seq<char>>, n: int) -> Seq<int>
    decreases n,
{
    if n <= 0 {
        Seq::empty()
    } else {
        placed(key_order(keys, n - 1), keys, n - 1, 0)
    }
}

/// The specifiers of a module's deps.
pub open spec fn keys_of(deps: Seq<(Seq<char>, ResolvedView)>) -> Seq<Seq<char>> {
    Seq::new(deps.len(), |i: int| deps[i].0)
}

/// Of two texts one stands before the other, or they are one text.
pub proof fn lex_le_is_total(a: Seq<char>, b: Seq<char>)
    ensures
        lex_le(a, b) || lex_le(b, a),
    decreases a.len(),
{
    if a.len() > 0 && b.len() > 0 && a[0] == b[0] {
        lex_le_is_total(a.drop_first(), b.drop_first());
    }
}

/// What stands before a text stands before all that the text stands before.
pub proof fn lex_le_is_transitive(a: Seq<char>, b: Seq<char>, c: Seq<char>)
    requires
        lex_le(a, b),
        lex_le(b, c),
    ensures
        lex_le(a, c),
    decreases a.len(),
{
    if a.len() > 0 && b.len() > 0 && c.len() > 0 && a[0] == b[0] && b[0] == c[0] {
        lex_le_is_transitive(a.drop_first(), b.drop_first(), c.drop_first());
    }
}

/// Whether the keys of the indices of `order` stand in order.
pub open spec fn in_key_order(order: Seq<int>, keys: Seq<Seq<char>>) -> bool {
    forall|a: int, b: int|
        0 <= a < b < order.len() ==> lex_le(keys[#[trigger] order[a]], keys[#[trigger] order[b]])
}

/// An index that is put into an order of keys leaves the keys in order.
pub proof fn placed_in_key_order(order: Seq<int>, keys: Seq<Seq<char>>, k: int, j: int)
    requires
        0 <= j <= order.len(),
        in_key_order(order, keys),
        forall|x: int| 0 <= x < j ==> lex_le(keys[#[trigger] order[x]], keys[k]),
    ensures
        in_key_order(placed(order, keys, k, j), keys),
    decreases order.len() - j,
{
    let r = placed(order, keys, k, j);
    if j >= order.len() {
        assert forall|a: int, b: int| 0 <= a < b < r.len() implies lex_le(
            keys[#[trigger] r[a]],
            keys[#[trigger] r[b]],
        ) by {
            if b < order.len() {
                assert(r[a] == order[a] && r[b] == order[b]);
            } else {
                assert(r[a] == order[a]);
            }
        }
    } else if !lex_le(keys[order[j]], keys[k]) {
        lex_le_is_total(keys[order[j]], keys[k]);
        assert forall|a: int, b: int| 0 <= a < b < r.len() implies lex_le(
            keys[#[trigger] r[a]],
            keys[#[trigger] r[b]],
        ) by {
            if b < j {
                assert(r[a] == order[a] && r[b] == order[b]);
            } else if b == j {
                assert(r[a] == order[a]);
            } else if a < j {
                assert(r[a] == order[a] && r[b] == order[b - 1]);
            } else if a == j {
                assert(r[b] == order[b - 1]);
                if b - 1 > j {
                    assert(lex_le(keys[order[j]], keys[order[b - 1]]));
                    lex_le_is_transitive(keys[k], keys[order[j]], keys[order[b - 1]]);
                }
            } else {
                assert(r[a] == order[a - 1] && r[b] == order[b - 1]);
            }
        }
    } else {
        placed_in_key_order(order, keys, k, j + 1);
    }
}

/// The indices of the keys come in the order of their keys.
pub proof fn key_order_is_in_key_order(keys: Seq<Seq<char>>, n: int)
    requires
        0 <= n <= keys.len(),
    ensures
        in_key_order(key_order(keys, n), keys),
    decreases n,
{
    if n > 0 {
        key_order_is_in_key_order(keys, n - 1);
        placed_in_key_order(key_order(keys, n - 1), keys, n - 1, 0);
    }
}

/// Indices as plain values.
pub open spec fn indices_view(v: Seq<usize>) -> Seq<int> {
    Seq::new(v.len(), |i: int| v[i] as int)
}

/// The indices of `deps` in the order of their specifiers.
pub fn deps_in_order(deps: &Vec<(String, Resolved)>) -> (order: Vec<usize>)
    ensures
        indices_view(order@) == key_order(keys_of(deps_view(deps@)), deps@.len() as int),
        in_key_order(indices_view(order@), keys_of(deps_view(deps@))),
        order@.len() == deps@.len(),
        forall|i: int| 0 <= i < order@.len() ==> #[trigger] order@[i] < deps@.len(),
{
    let ghost keys = keys_of(deps_view(deps@));
    proof {
        key_order_is_in_key_order(keys, deps@.len() as int);
    }
    let mut order: Vec<usize> = Vec::new();
    let mut n: usize = 0;
    assert(indices_view(order@) =~= Seq::empty());
    while n < deps.len()
        invariant
            n <= deps@.len(),
            keys == keys_of(deps_view(deps@)),
            indices_view(order@) == key_order(keys, n as int),
            order@.len() == n,
            forall|i: int| 0 <= i < order@.len() ==> #[trigger] order@[i] < n,
        decreases deps@.len() - n,
    {
        let ghost before = indices_view(order@);
        let mut j: usize = 0;
        while j < order.len() && stands_before(deps[order[j]].0.as_str(), deps[n].0.as_str())
            invariant
                j <= order@.len(),
                n < deps@.len(),
                order@.len() == n,
                before == indices_view(order@),
                keys == keys_of(deps_view(deps@)),
                forall|i: int| 0 <= i < order@.len() ==> #[trigger] order@[i] < n,
                placed(before, keys, n as int, 0) == placed(before, keys, n as int, j as int),
            decreases order@.len() - j,
        {
            proof {
                assert(before[j as int] == order@[j as int]);
                assert(keys[before[j as int]] == deps@[order@[j as int] as int].0@);
                assert(keys[n as int] == deps@[n as int].0@);
            }
            j += 1;
        }
        proof {
            if j < order@.len() {
                assert(before[j as int] == order@[j as int]);
                assert(keys[before[j as int]] == deps@[order@[j as int] as int].0@);
                assert(keys[n as int] == deps@[n as int].0@);
            }
        }
        order.insert(j, n);
        assert(indices_view(order@) =~= if j < before.len() {
            before.insert(j as int, n as int)
        } else {
            before.push(n as int)
        });
        n += 1;
    }
    order
}

/// The modules met so far after a walk from the module `i`: the module, then
/// what its deps lead to, dep by dep in the order of their specifiers, each
/// module once. The walk goes `fuel` modules deep.
pub open spec fn walk_from(modules: Seq<ModuleView>, i: int, seen: Seq<int>, fuel: nat) -> Seq<int>
    decreases fuel, 0nat,
{
    if fuel == 0 || seen.contains(i) || i < 0 || i >= modules.len() {
        seen
    } else {
        walk_deps(
            modules,
            modules[i].deps,
            key_order(keys_of(modules[i].deps), modules[i].deps.len() as int),
            0,
            seen.push(i),
            (fuel - 1) as nat,
        )
    }
}

/// The modules met so far after a walk along the deps from the `k`th of
/// `order` on.
pub open spec fn walk_deps(
    modules: Seq<ModuleView>,
    deps: Seq<(Seq<char>, ResolvedView)>,
    order: Seq<int>,
    k: int,
    seen: Seq<int>,
    fuel: nat,
) -> Seq<int>
    decreases fuel, 1 + order.len() - k,
{
    if k < 0 || k >= order.len() {
        seen
    } else {
        let next = match deps[order[k]].1 {
            ResolvedView::Normal(p) => match position(modules, p) {
                Some(j) => walk_from(modules, j, seen, fuel),
                None => seen,
            },
            _ => seen,
        };
        walk_deps(modules, deps, order, k + 1, next, fuel)
    }
}

/// The modules of a graph in the order in which they are written: the entry
/// first, then depth first along the deps.
pub open spec fn emission_order(modules: Seq<ModuleView>, entry: Seq<char>) -> Seq<int> {
    match position(modules, entry) {
        Some(e) => walk_from(modules, e, Seq::empty(), modules.len()),
        None => Seq::empty(),
    }
}

/// Whether each of `seen` is the index of a module.
pub open spec fn within(seen: Seq<int>, n: int) -> bool {
    forall|i: int| 0 <= i < seen.len() ==> 0 <= #[trigger] seen[i] < n
}

/// A walk meets modules of the graph only.
pub proof fn walk_from_within(modules: Seq<ModuleView>, i: int, seen: Seq<int>, fuel: nat)
    requires
        within(seen, modules.len() as int),
    ensures
        within(walk_from(modules, i, seen, fuel), modules.len() as int),
    decreases fuel, 0nat,
{
    if fuel == 0 || seen.contains(i) || i < 0 || i >= modules.len() {
    } else {
        walk_deps_within(
            modules,
            modules[i].deps,
            key_order(keys_of(modules[i].deps), modules[i].deps.len() as int),
            0,
            seen.push(i),
            (fuel - 1) as nat,
        );
    }
}

/// A walk along deps meets modules of the graph only.
pub proof fn walk_deps_within(
    modules: Seq<ModuleView>,
    deps: Seq<(Seq<char>, ResolvedView)>,
    order: Seq<int>,
    k: int,
    seen: Seq<int>,
    fuel: nat,
)
    requires
        within(seen, modules.len() as int),
    ensures
        within(walk_deps(modules, deps, order, k, seen, fuel), modules.len() as int),
    decreases fuel, 1 + order.len() - k,
{
    if k < 0 || k >= order.len() {
    } else {
        let next = match deps[order[k]].1 {
            ResolvedView::Normal(p) => match position(modules, p) {
                Some(j) => walk_from(modules, j, seen, fuel),
                None => seen,
            },
            _ => seen,
        };
        match deps[order[k]].1 {
            ResolvedView::Normal(p) => match position(modules, p) {
                Some(j) => {
                    walk_from_within(modules, j, seen, fuel);
                },
                None => {},
            },
            _ => {},
        }
        walk_deps_within(modules, deps, order, k + 1, next, fuel);
    }
}

/// Indices of modules, none twice, are at most as many as the modules; where
/// they are as many, each module is among them.
pub proof fn seen_fits(seen: Seq<int>, n: int, i: int)
    requires
        seen.no_duplicates(),
        within(seen, n),
        0 <= n,
        0 <= i < n,
    ensures
        seen.len() <= n,
        seen.len() == n ==> seen.contains(i),
{
    let all = vstd::set_lib::set_int_range(0, n);
    vstd::set_lib::lemma_int_range(0, n);
    seen.unique_seq_to_set();
    assert(seen.to_set().subset_of(all)) by {
        assert forall|x: int| seen.to_set().contains(x) implies all.contains(x) by {
            let k = choose|k: int| 0 <= k < seen.len() && seen[k] == x;
            assert(0 <= seen[k] < n);
        }
    }
    vstd::set_lib::lemma_len_subset(seen.to_set(), all);
    if seen.len() == n {
        vstd::set_lib::lemma_subset_equality(seen.to_set(), all);
        assert(all.contains(i));
        assert(seen.to_set().contains(i));
    }
}

/// A walk keeps what was met before it, and meets no module twice.
pub proof fn walk_from_grows(modules: Seq<ModuleView>, i: int, seen: Seq<int>, fuel: nat)
    requires
        seen.no_duplicates(),
    ensures
        walk_from(modules, i, seen, fuel).no_duplicates(),
        walk_from(modules, i, seen, fuel).len() >= seen.len(),
    decreases fuel, 0nat,
{
    if fuel == 0 || seen.contains(i) || i < 0 || i >= modules.len() {
    } else {
        let next = seen.push(i);
        assert(next.no_duplicates()) by {
            assert forall|a: int, b: int| 0 <= a < next.len() && 0 <= b < next.len() && a
                != b implies next[a] != next[b] by {
                if a == next.len() - 1 {
                    assert(seen[b] == next[b]);
                } else if b == next.len() - 1 {
                    assert(seen[a] == next[a]);
                }
            }
        }
        walk_deps_grows(
            modules,
            modules[i].deps,
            key_order(keys_of(modules[i].deps), modules[i].deps.len() as int),
            0,
            next,
            (fuel - 1) as nat,
        );
    }
}

/// A walk along deps keeps what was met before it, and meets no module twice.
pub proof fn walk_deps_grows(
    modules: Seq<ModuleView>,
    deps: Seq<(Seq<char>, ResolvedView)>,
    order: Seq<int>,
    k: int,
    seen: Seq<int>,
    fuel: nat,
)
    requires
        seen.no_duplicates(),
    ensures
        walk_deps(modules, deps, order, k, seen, fuel).no_duplicates(),
        walk_deps(modules, deps, order, k, seen, fuel).len() >= seen.len(),
    decreases fuel, 1 + order.len() - k,
{
    if k < 0 || k >= order.len() {
    } else {
        let next = match deps[order[k]].1 {
            ResolvedView::Normal(p) => match position(modules, p) {
                Some(j) => walk_from(modules, j, seen, fuel),
                None => seen,
            },
            _ => seen,
        };
        match deps[order[k]].1 {
            ResolvedView::Normal(p) => match position(modules, p) {
                Some(j) => {
                    walk_from_grows(modules, j, seen, fuel);
                },
                None => {},
            },
            _ => {},
        }
        walk_deps_grows(modules, deps, order, k + 1, next, fuel);
    }
}

/// A walk that may go as deep as there are modules left to meet goes as far
/// as any walk: to let it go deeper changes nothing.
pub proof fn walk_from_is_complete(
    modules: Seq<ModuleView>,
    i: int,
    seen: Seq<int>,
    fuel: nat,
    more: nat,
)
    requires
        seen.no_duplicates(),
        within(seen, modules.len() as int),
        fuel + seen.len() >= modules.len(),
        more >= fuel,
    ensures
        walk_from(modules, i, seen, fuel) == walk_from(modules, i, seen, more),
    decreases fuel, 0nat,
{
    if seen.contains(i) || i < 0 || i >= modules.len() {
    } else {
        seen_fits(seen, modules.len() as int, i);
        let next = seen.push(i);
        assert(next.no_duplicates()) by {
            assert forall|a: int, b: int| 0 <= a < next.len() && 0 <= b < next.len() && a
                != b implies next[a] != next[b] by {
                if a == next.len() - 1 {
                    assert(seen[b] == next[b]);
                } else if b == next.len() - 1 {
                    assert(seen[a] == next[a]);
                }
            }
        }
        walk_deps_is_complete(
            modules,
            modules[i].deps,
            key_order(keys_of(modules[i].deps), modules[i].deps.len() as int),
            0,
            next,
            (fuel - 1) as nat,
            (more - 1) as nat,
        );
    }
}

/// A walk along deps that may go as deep as there are modules left to meet
/// goes as far as any.
pub proof fn walk_deps_is_complete(
    modules: Seq<ModuleView>,
    deps: Seq<(Seq<char>, ResolvedView)>,
    order: Seq<int>,
    k: int,
    seen: Seq<int>,
    fuel: nat,
    more: nat,
)
    requires
        seen.no_duplicates(),
        within(seen, modules.len() as int),
        fuel + seen.len() >= modules.len(),
        more >= fuel,
    ensures
        walk_deps(modules, deps, order, k, seen, fuel) == walk_deps(
            modules,
            deps,
            order,
            k,
            seen,
            more,
        ),
    decreases fuel, 1 + order.len() - k,
{
    if k < 0 || k >= order.len() {
    } else {
        let next = match deps[order[k]].1 {
            ResolvedView::Normal(p) => match position(modules, p) {
                Some(j) => walk_from(modules, j, seen, fuel),
                None => seen,
            },
            _ => seen,
        };
        match deps[order[k]].1 {
            ResolvedView::Normal(p) => match position(modules, p) {
                Some(j) => {
                    walk_from_is_complete(modules, j, seen, fuel, more);
                    walk_from_grows(modules, j, seen, fuel);
                    walk_from_within(modules, j, seen, fuel);
                },
                None => {},
            },
            _ => {},
        }
        walk_deps_is_complete(modules, deps, order, k + 1, next, fuel, more);
    }
}

/// The order in which the modules are written is that of a walk that goes as
/// deep as it likes.
pub proof fn emission_order_is_complete(modules: Seq<ModuleView>, entry: Seq<char>, more: nat)
    requires
        position(modules, entry) is Some,
        more >= modules.len(),
    ensures
        emission_order(modules, entry) == walk_from(
            modules,
            position(modules, entry)->0,
            Seq::empty(),
            more,
        ),
{
    walk_from_is_complete(
        modules,
        position(modules, entry)->0,
        Seq::empty(),
        modules.len(),
        more,
    );
}

impl Graph {
    fn walk_from(&self, i: usize, seen: &mut Vec<usize>, fuel: usize)
        requires
            within(indices_view(old(seen)@), self@.modules.len() as int),
        ensures
            indices_view(final(seen)@) == walk_from(
                self@.modules,
                i as int,
                indices_view(old(seen)@),
                fuel as nat,
            ),
            within(indices_view(final(seen)@), self@.modules.len() as int),
        decreases fuel, 0nat,
    {
        proof {
            walk_from_within(self@.modules, i as int, indices_view(seen@), fuel as nat);
        }
        if fuel == 0 || i >= self.modules.len() {
            return ;
        }
        let mut met = false;
        let mut j: usize = 0;
        while j < seen.len()
            invariant
                j <= seen@.len(),
                seen@ == old(seen)@,
                !met ==> forall|k: int| 0 <= k < j ==> indices_view(seen@)[k] != i,
                met ==> indices_view(seen@).contains(i as int),
            decreases seen@.len() - j,
        {
            if seen[j] == i {
                assert(indices_view(seen@)[j as int] == i);
                met = true;
            }
            j += 1;
        }
        if met {
            return ;
        }
        let ghost before = indices_view(seen@);
        seen.push(i);
        assert(indices_view(seen@) =~= before.push(i as int));
        let order = deps_in_order(&self.modules[i].deps);
        let ghost deps = self@.modules[i as int].deps;
        let ghost sorted = indices_view(order@);
        assert(deps == deps_view(self.modules@[i as int].deps@));
        let ghost start = indices_view(seen@);
        let mut k: usize = 0;
        while k < order.len()
            invariant
                k <= order@.len(),
                i < self@.modules.len(),
                fuel > 0,
                sorted == indices_view(order@),
                deps == deps_view(self.modules@[i as int].deps@),
                order@.len() == self.modules@[i as int].deps@.len(),
                forall|x: int| 0 <= x < order@.len() ==> #[trigger] order@[x] < deps.len(),
                within(indices_view(seen@), self@.modules.len() as int),
                walk_deps(self@.modules, deps, sorted, 0, start, (fuel - 1) as nat) == walk_deps(
                    self@.modules,
                    deps,
                    sorted,
                    k as int,
                    indices_view(seen@),
                    (fuel - 1) as nat,
                ),
            decreases order@.len() - k,
        {
            proof {
                assert(sorted[k as int] == order@[k as int]);
                assert(deps[sorted[k as int]].1 == self.modules@[i as int].deps@[order@[k as int] as int].1@);
            }
            match &self.modules[i].deps[order[k]].1 {
                Resolved::Normal(p) => {
                    match self.position(p.as_str()) {
                        Some(j) => {
                            self.walk_from(j, seen, fuel - 1);
                        },
                        None => {},
                    }
                },
                _ => {},
            }
            k += 1;
        }
    }

    /// The modules in the order in which they are written: the entry first,
    /// then depth first along the deps, the deps of a module in the order of
    /// their specifiers.
    pub fn emission_order(&self) -> (order: Vec<usize>)
        ensures
            indices_view(order@) == emission_order(self@.modules, self@.entry),
            forall|i: int| 0 <= i < order@.len() ==> #[trigger] order@[i] < self@.modules.len(),
    {
        let mut seen: Vec<usize> = Vec::new();
        assert(indices_view(seen@) =~= Seq::empty());
        match self.position(self.entry.as_str()) {
            Some(e) => {
                self.walk_from(e, &mut seen, self.modules.len());
            },
            None => {},
        }
        assert forall|i: int| 0 <= i < seen@.len() implies #[trigger] seen@[i]
            < self@.modules.len() by {
            assert(indices_view(seen@)[i] == seen@[i]);
        }
        seen
    }
}

} // verus!
