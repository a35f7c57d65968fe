use vstd::prelude::*;

verus! {

/// How a flexible child uses the main extent it is given.
#[derive(Debug, Clone, Copy, PartialEq, Eq, Structural)]
pub enum FlexFit {
    /// The child may take less than its share.
    Loose,
    /// The child takes exactly its share.
    Tight,
}

/// The flex-related part of what a child of a flex carries for its parent.
#[derive(Debug, Clone, Copy, PartialEq, Eq, Structural)]
pub struct FlexData {
    pub flex_factor: usize,
    pub fit: FlexFit,
}

/// A child that carries no flex data has flex factor 0.
pub open spec fn flex_of(child: Option<FlexData>) -> nat {
    match child {
        Some(d) => d.flex_factor as nat,
        None => 0,
    }
}

/// A child is flexible when its flex factor is positive.
pub open spec fn is_flexible(child: Option<FlexData>) -> bool {
    flex_of(child) > 0
}

/// A flexible child with the given fit.
pub open spec fn flexible_with_fit(child: Option<FlexData>, fit: FlexFit) -> bool {
    is_flexible(child) && child.unwrap().fit == fit
}

/// The sum of the flex factors of all children.
pub open spec fn total_flex(children: Seq<Option<FlexData>>) -> nat
    decreases children.len(),
{
    if children.len() == 0 {
        0
    } else {
        total_flex(children.drop_last()) + flex_of(children.last())
    }
}

/// The indices of the children that are not flexible, in order.
pub open spec fn inflexible_children(children: Seq<Option<FlexData>>) -> Seq<int>
    decreases children.len(),
{
    if children.len() == 0 {
        Seq::empty()
    } else if is_flexible(children.last()) {
        inflexible_children(children.drop_last())
    } else {
        inflexible_children(children.drop_last()).push(children.len() - 1)
    }
}

/// The indices of the flexible children with the given fit, in order.
pub open spec fn flexible_children(children: Seq<Option<FlexData>>, fit: FlexFit) -> Seq<int>
    decreases children.len(),
{
    if children.len() == 0 {
        Seq::empty()
    } else if flexible_with_fit(children.last(), fit) {
        flexible_children(children.drop_last(), fit).push(children.len() - 1)
    } else {
        flexible_children(children.drop_last(), fit)
    }
}

/// The order in which flexible children are laid out: the loose ones first,
/// since they may take less than their share, then the tight ones; each
/// group in the children's order.
pub open spec fn flex_order(children: Seq<Option<FlexData>>) -> Seq<int> {
    flexible_children(children, FlexFit::Loose) + flexible_children(children, FlexFit::Tight)
}

/// The sum of the flex factors of the children at the given indices.
pub open spec fn flex_at(children: Seq<Option<FlexData>>, indices: Seq<int>) -> nat
    decreases indices.len(),
{
    if indices.len() == 0 {
        0
    } else {
        flex_at(children, indices.drop_last()) + flex_of(children[indices.last()])
    }
}

/// The children laid out before any flexible one, and the flex factor that
/// the flexible ones share.
#[derive(Debug, PartialEq, Eq)]
pub struct InflexPlan {
    /// The sum of the flex factors of all children.
    pub flex_count: usize,
    /// The indices of the children that are not flexible, in order.
    pub inflexible: Vec<usize>,
}

/// One flexible child in the order of layout.
#[derive(Debug, Clone, Copy, PartialEq, Eq, Structural)]
pub struct FlexStep {
    /// The index of the child.
    pub index: usize,
    /// Its flex factor.
    pub flex: usize,
    /// Whether it must take exactly its share.
    pub tight: bool,
    /// The flex factor not yet laid out, this child's included: the free
    /// space left is divided by it to give the space per unit of flex.
    pub remaining_flex: usize,
}

/// A sequence of indices as mathematical integers.
pub open spec fn as_ints(v: Seq<usize>) -> Seq<int> {
    v.map_values(|i: usize| i as int)
}

/// The flex factor of a child, where it carries flex data.
pub fn get_flex(child: &Option<FlexData>) -> (r: Option<usize>)
    ensures
        r == (match *child {
            Some(d) => Some(d.flex_factor),
            None => None::<usize>,
        }),
{
    match child {
        Some(d) => Some(d.flex_factor),
        None => None,
    }
}

/// The fit of a child, where it carries flex data.
pub fn get_fit(child: &Option<FlexData>) -> (r: Option<FlexFit>)
    ensures
        r == (match *child {
            Some(d) => Some(d.fit),
            None => None::<FlexFit>,
        }),
{
    match child {
        Some(d) => Some(d.fit),
        None => None,
    }
}

/// Whether a child is flexible: it carries a positive flex factor.
pub fn is_flex(child: &Option<FlexData>) -> (r: bool)
    ensures
        r == is_flexible(*child),
{
    match get_flex(child) {
        Some(f) => f > 0,
        None => false,
    }
}

/// Whether a child that carries flex data has a loose fit.
pub fn fit_loose(child: &Option<FlexData>) -> (r: bool)
    requires
        child.is_some(),
    ensures
        r == (child.unwrap().fit == FlexFit::Loose),
{
    match get_fit(child) {
        Some(FlexFit::Loose) => true,
        _ => false,
    }
}

/// Whether a child that carries flex data has a tight fit.
pub fn fit_tight(child: &Option<FlexData>) -> (r: bool)
    requires
        child.is_some(),
    ensures
        r == (child.unwrap().fit == FlexFit::Tight),
{
    match get_fit(child) {
        Some(FlexFit::Tight) => true,
        _ => false,
    }
}

/// The sum of the flex factors of all children, or `None` where it does not
/// fit in a `usize`.
pub fn total_flex_count(children: &Vec<Option<FlexData>>) -> (r: Option<usize>)
    ensures
        r matches Some(n) ==> n == total_flex(children@),
        r is None <==> total_flex(children@) > usize::MAX,
{
    let mut sum: usize = 0;
    let mut i: usize = 0;
    while i < children.len()
        invariant
            i <= children.len(),
            sum == total_flex(children@.take(i as int)),
        decreases children.len() - i,
    {
        assert(children@.take(i + 1).drop_last() == children@.take(i as int));
        let f: usize = match get_flex(&children[i]) {
            Some(f) => f,
            None => 0,
        };
        match sum.checked_add(f) {
            Some(s) => {
                sum = s;
            },
            None => {
                proof {
                    lemma_total_flex_prefix(children@, i + 1);
                }
                return None;
            },
        }
        i = i + 1;
    }
    assert(children@.take(i as int) == children@);
    Some(sum)
}

/// The sum of the flex factors of a prefix is at most that of all children.
proof fn lemma_total_flex_prefix(children: Seq<Option<FlexData>>, n: int)
    requires
        0 <= n <= children.len(),
    ensures
        total_flex(children.take(n)) <= total_flex(children),
    decreases children.len() - n,
{
    if n < children.len() {
        lemma_total_flex_prefix(children, n + 1);
        assert(children.take(n + 1).drop_last() == children.take(n));
    } else {
        assert(children.take(n) == children);
    }
}

/// The indices of a sequence of steps as mathematical integers.
pub open spec fn step_indices(steps: Seq<FlexStep>) -> Seq<int> {
    steps.map_values(|st: FlexStep| st.index as int)
}

/// Which children to lay out before the flexible ones, and the sum of all
/// flex factors. The sum must fit in a `usize`.
pub fn plan_inflexible(children: &Vec<Option<FlexData>>) -> (r: InflexPlan)
    requires
        total_flex(children@) <= usize::MAX,
    ensures
        r.flex_count == total_flex(children@),
        as_ints(r.inflexible@) == inflexible_children(children@),
{
    let mut flex_count: usize = 0;
    let mut inflexible: Vec<usize> = Vec::new();
    let mut i: usize = 0;
    while i < children.len()
        invariant
            i <= children.len(),
            total_flex(children@) <= usize::MAX,
            flex_count == total_flex(children@.take(i as int)),
            as_ints(inflexible@) == inflexible_children(children@.take(i as int)),
        decreases children.len() - i,
    {
        assert(children@.take(i + 1).drop_last() == children@.take(i as int));
        assert(children@.take(i + 1).last() == children@[i as int]);
        proof {
            lemma_total_flex_prefix(children@, i + 1);
        }
        let flex: usize = match get_flex(&children[i]) {
            Some(f) => f,
            None => 0,
        };
        if flex > 0 {
            flex_count = flex_count + flex;
        } else {
            inflexible.push(i);
        }
        assert(as_ints(inflexible@) == inflexible_children(children@.take(i + 1)));
        i = i + 1;
    }
    assert(children@.take(i as int) == children@);
    InflexPlan { flex_count, inflexible }
}

/// The sum of the flex factors at a concatenation of indices is the sum of
/// the two parts.
proof fn lemma_flex_at_concat(children: Seq<Option<FlexData>>, a: Seq<int>, b: Seq<int>)
    ensures
        flex_at(children, a + b) == flex_at(children, a) + flex_at(children, b),
    decreases b.len(),
{
    if b.len() > 0 {
        lemma_flex_at_concat(children, a, b.drop_last());
        assert((a + b).drop_last() == a + b.drop_last());
    } else {
        assert(a + b == a);
    }
}

/// Adding an index to a sequence adds that child's flex factor.
proof fn lemma_flex_at_push(children: Seq<Option<FlexData>>, a: Seq<int>, i: int)
    ensures
        flex_at(children, a.push(i)) == flex_at(children, a) + flex_of(children[i]),
{
    assert(a.push(i).drop_last() == a);
}

/// The flexible children of a longer prefix take at least as much flex.
proof fn lemma_flexible_prefix_mono(children: Seq<Option<FlexData>>, fit: FlexFit, n: int, m: int)
    requires
        0 <= n <= m <= children.len(),
    ensures
        flex_at(children, flexible_children(children.take(n), fit)) <= flex_at(
            children,
            flexible_children(children.take(m), fit),
        ),
    decreases m - n,
{
    if n < m {
        lemma_flexible_prefix_mono(children, fit, n, m - 1);
        assert(children.take(m).drop_last() == children.take(m - 1));
        assert(children.take(m).last() == children[m - 1]);
        lemma_flex_at_push(children, flexible_children(children.take(m - 1), fit), m - 1);
    }
}

/// Loose and tight flexible children of a prefix together take all the flex
/// of that prefix.
proof fn lemma_fits_split_prefix(children: Seq<Option<FlexData>>, n: int)
    requires
        0 <= n <= children.len(),
    ensures
        flex_at(children, flexible_children(children.take(n), FlexFit::Loose)) + flex_at(
            children,
            flexible_children(children.take(n), FlexFit::Tight),
        ) == total_flex(children.take(n)),
    decreases n,
{
    if n > 0 {
        lemma_fits_split_prefix(children, n - 1);
        let t = children.take(n);
        assert(t.drop_last() == children.take(n - 1));
        assert(t.last() == children[n - 1]);
        lemma_flex_at_push(children, flexible_children(children.take(n - 1), FlexFit::Loose), n - 1);
        lemma_flex_at_push(children, flexible_children(children.take(n - 1), FlexFit::Tight), n - 1);
    }
}

/// The flexible children, laid out in order, take exactly the sum of all
/// flex factors: the flex left to share never goes below zero and ends at
/// zero.
pub proof fn lemma_flex_order_takes_total(children: Seq<Option<FlexData>>)
    ensures
        flex_at(children, flex_order(children)) == total_flex(children),
{
    lemma_fits_split_prefix(children, children.len() as int);
    assert(children.take(children.len() as int) == children);
    lemma_flex_at_concat(
        children,
        flexible_children(children, FlexFit::Loose),
        flexible_children(children, FlexFit::Tight),
    );
}

/// The order in which flexible children are laid out, each with the flex
/// left to share when its turn comes. `flex_count` is the sum of all flex
/// factors, as `plan_inflexible` gives it.
pub fn plan_flexible(children: &Vec<Option<FlexData>>, flex_count: usize) -> (r: Vec<FlexStep>)
    requires
        flex_count == total_flex(children@),
    ensures
        step_indices(r@) == flex_order(children@),
        forall|k: int|
            0 <= k < r.len() ==> {
                let child = children@[flex_order(children@)[k]];
                &&& (#[trigger] r@[k]).flex == flex_of(child)
                &&& r@[k].tight == (child.unwrap().fit == FlexFit::Tight)
                &&& r@[k].remaining_flex == total_flex(children@) - flex_at(
                    children@,
                    flex_order(children@).take(k),
                )
            },
{
    let ghost s = children@;
    let ghost loose_all = flexible_children(s, FlexFit::Loose);
    let ghost tight_all = flexible_children(s, FlexFit::Tight);
    proof {
        lemma_flex_order_takes_total(s);
        lemma_flex_at_concat(s, loose_all, tight_all);
    }
    let mut steps: Vec<FlexStep> = Vec::new();
    let mut remaining: usize = flex_count;
    let mut pass: usize = 0;
    while pass < 2
        invariant
            s == children@,
            flex_count == total_flex(s),
            flex_at(s, loose_all) + flex_at(s, tight_all) == total_flex(s),
            loose_all == flexible_children(s, FlexFit::Loose),
            tight_all == flexible_children(s, FlexFit::Tight),
            pass <= 2,
            pass == 0 ==> steps@.len() == 0,
            pass == 1 ==> step_indices(steps@) == loose_all,
            pass == 2 ==> step_indices(steps@) == loose_all + tight_all,
            remaining == total_flex(s) - flex_at(s, step_indices(steps@)),
            forall|k: int|
                0 <= k < steps.len() ==> {
                    let child = s[step_indices(steps@)[k]];
                    &&& (#[trigger] steps@[k]).flex == flex_of(child)
                    &&& steps@[k].tight == (child.unwrap().fit == FlexFit::Tight)
                    &&& steps@[k].remaining_flex == total_flex(s) - flex_at(
                        s,
                        step_indices(steps@).take(k),
                    )
                },
        decreases 2 - pass,
    {
        let fit = if pass == 0 { FlexFit::Loose } else { FlexFit::Tight };
        let ghost before = step_indices(steps@);
        let mut i: usize = 0;
        while i < children.len()
            invariant
                s == children@,
                flex_count == total_flex(s),
                flex_at(s, loose_all) + flex_at(s, tight_all) == total_flex(s),
                loose_all == flexible_children(s, FlexFit::Loose),
                tight_all == flexible_children(s, FlexFit::Tight),
                pass < 2,
                fit == (if pass == 0 { FlexFit::Loose } else { FlexFit::Tight }),
                before == (if pass == 0 { Seq::<int>::empty() } else { loose_all }),
                i <= children.len(),
                step_indices(steps@) == before + flexible_children(s.take(i as int), fit),
                remaining == total_flex(s) - flex_at(s, step_indices(steps@)),
                forall|k: int|
                    0 <= k < steps.len() ==> {
                        let child = s[step_indices(steps@)[k]];
                        &&& (#[trigger] steps@[k]).flex == flex_of(child)
                        &&& steps@[k].tight == (child.unwrap().fit == FlexFit::Tight)
                        &&& steps@[k].remaining_flex == total_flex(s) - flex_at(
                            s,
                            step_indices(steps@).take(k),
                        )
                    },
            decreases children.len() - i,
        {
            assert(s.take(i + 1).drop_last() == s.take(i as int));
            assert(s.take(i + 1).last() == s[i as int]);
            let child = &children[i];
            let selected = is_flex(child) && (if pass == 0 { fit_loose(child) } else { fit_tight(child) });
            if selected {
                let flex: usize = match get_flex(child) {
                    Some(f) => f,
                    None => 0,
                };
                let ghost old_steps = steps@;
                proof {
                    let next = flexible_children(s.take(i + 1), fit);
                    assert(next == flexible_children(s.take(i as int), fit).push(i as int));
                    assert(step_indices(old_steps).push(i as int) == before + next);
                    lemma_flex_at_push(s, step_indices(old_steps), i as int);
                    lemma_flex_at_concat(s, before, next);
                    lemma_flexible_prefix_mono(s, fit, i + 1, s.len() as int);
                    assert(s.take(s.len() as int) == s);
                }
                steps.push(FlexStep { index: i, flex, tight: pass == 1, remaining_flex: remaining });
                remaining = remaining - flex;
                proof {
                    assert(step_indices(steps@) == step_indices(old_steps).push(i as int));
                    assert forall|k: int| 0 <= k < steps.len() implies {
                        let child = s[step_indices(steps@)[k]];
                        &&& (#[trigger] steps@[k]).flex == flex_of(child)
                        &&& steps@[k].tight == (child.unwrap().fit == FlexFit::Tight)
                        &&& steps@[k].remaining_flex == total_flex(s) - flex_at(
                            s,
                            step_indices(steps@).take(k),
                        )
                    } by {
                        if k < old_steps.len() {
                            assert(step_indices(steps@).take(k) == step_indices(old_steps).take(k));
                        } else {
                            assert(step_indices(steps@).take(k) == step_indices(old_steps));
                        }
                    }
                }
            }
            i = i + 1;
        }
        assert(s.take(i as int) == s);
        pass = pass + 1;
    }
    steps
}

/// Fit of a child that carries flex data.
pub open spec fn fit_of(child: Option<FlexData>) -> FlexFit {
    child.unwrap().fit
}

/// The flexible children with a given fit are exactly those, in increasing
/// order.
proof fn lemma_flexible_children_props(children: Seq<Option<FlexData>>, fit: FlexFit)
    ensures
        forall|x: int|
            flexible_children(children, fit).contains(x) <==> (0 <= x < children.len()
                && flexible_with_fit(children[x], fit)),
        forall|a: int, b: int|
            0 <= a < b < flexible_children(children, fit).len() ==> flexible_children(children, fit)[a]
                < flexible_children(children, fit)[b],
    decreases children.len(),
{
    if children.len() > 0 {
        let rest = children.drop_last();
        lemma_flexible_children_props(rest, fit);
        assert forall|x: int| 0 <= x < rest.len() implies rest[x] == children[x] by {}
        let fc = flexible_children(children, fit);
        let fr = flexible_children(rest, fit);
        assert forall|x: int| fc.contains(x) <==> (0 <= x < children.len() && flexible_with_fit(children[x], fit)) by {
            if fc.contains(x) {
                let j = choose|j: int| 0 <= j < fc.len() && fc[j] == x;
                if flexible_with_fit(children.last(), fit) {
                    assert(fc == fr.push(children.len() - 1));
                    if j < fr.len() {
                        assert(fr[j] == x);
                        assert(fr.contains(x));
                    }
                } else {
                    assert(fc == fr);
                    assert(fr.contains(x));
                }
            }
            if 0 <= x < children.len() && flexible_with_fit(children[x], fit) {
                if x < rest.len() {
                    assert(fr.contains(x));
                    let j = choose|j: int| 0 <= j < fr.len() && fr[j] == x;
                    assert(fc[j] == x);
                } else {
                    assert(fc[fc.len() - 1] == x);
                }
            }
        }
        assert forall|a: int, b: int| 0 <= a < b < fc.len() implies fc[a] < fc[b] by {
            if b >= fr.len() {
                assert(fr.contains(fr[a]));
            }
        }
    }
}

/// The children that are not flexible are exactly those, in increasing order.
proof fn lemma_inflexible_children_props(children: Seq<Option<FlexData>>)
    ensures
        forall|x: int|
            inflexible_children(children).contains(x) <==> (0 <= x < children.len() && !is_flexible(
                children[x],
            )),
        forall|a: int, b: int|
            0 <= a < b < inflexible_children(children).len() ==> inflexible_children(children)[a]
                < inflexible_children(children)[b],
    decreases children.len(),
{
    if children.len() > 0 {
        let rest = children.drop_last();
        lemma_inflexible_children_props(rest);
        assert forall|x: int| 0 <= x < rest.len() implies rest[x] == children[x] by {}
        let fc = inflexible_children(children);
        let fr = inflexible_children(rest);
        assert forall|x: int| fc.contains(x) <==> (0 <= x < children.len() && !is_flexible(children[x])) by {
            if fc.contains(x) {
                let j = choose|j: int| 0 <= j < fc.len() && fc[j] == x;
                if !is_flexible(children.last()) {
                    assert(fc == fr.push(children.len() - 1));
                    if j < fr.len() {
                        assert(fr[j] == x);
                        assert(fr.contains(x));
                    }
                } else {
                    assert(fc == fr);
                    assert(fr.contains(x));
                }
            }
            if 0 <= x < children.len() && !is_flexible(children[x]) {
                if x < rest.len() {
                    assert(fr.contains(x));
                    let j = choose|j: int| 0 <= j < fr.len() && fr[j] == x;
                    assert(fc[j] == x);
                } else {
                    assert(fc[fc.len() - 1] == x);
                }
            }
        }
        assert forall|a: int, b: int| 0 <= a < b < fc.len() implies fc[a] < fc[b] by {
            if b >= fr.len() {
                assert(fr.contains(fr[a]));
            }
        }
    }
}

/// Every child is laid out exactly once: either before the flexible
/// children, when it is not flexible, or once among them.
pub proof fn lemma_each_child_laid_out_once(children: Seq<Option<FlexData>>)
    ensures
        forall|i: int|
            0 <= i < children.len() ==> (inflexible_children(children).contains(i) != flex_order(
                children,
            ).contains(i)),
        forall|x: int|
            inflexible_children(children).contains(x) || flex_order(children).contains(x) ==> 0 <= x
                < children.len(),
        inflexible_children(children).no_duplicates(),
        flex_order(children).no_duplicates(),
{
    let loose = flexible_children(children, FlexFit::Loose);
    let tight = flexible_children(children, FlexFit::Tight);
    let order = flex_order(children);
    lemma_flexible_children_props(children, FlexFit::Loose);
    lemma_flexible_children_props(children, FlexFit::Tight);
    lemma_inflexible_children_props(children);
    assert forall|x: int| order.contains(x) <==> (loose.contains(x) || tight.contains(x)) by {
        if order.contains(x) {
            let j = choose|j: int| 0 <= j < order.len() && order[j] == x;
            if j < loose.len() {
                assert(loose[j] == x);
            } else {
                assert(tight[j - loose.len()] == x);
            }
        }
        if loose.contains(x) {
            let j = choose|j: int| 0 <= j < loose.len() && loose[j] == x;
            assert(order[j] == x);
        }
        if tight.contains(x) {
            let j = choose|j: int| 0 <= j < tight.len() && tight[j] == x;
            assert(order[loose.len() + j] == x);
        }
    }
    assert forall|i: int| 0 <= i < children.len() implies (inflexible_children(children).contains(i)
        != order.contains(i)) by {
        if is_flexible(children[i]) {
            if fit_of(children[i]) == FlexFit::Loose {
                assert(loose.contains(i));
            } else {
                assert(tight.contains(i));
            }
        }
    }
    let inf = inflexible_children(children);
    assert forall|a: int, b: int| 0 <= a < inf.len() && 0 <= b < inf.len() && a != b implies inf[a]
        != inf[b] by {
        if a > b {
            assert(inf[b] < inf[a]);
        }
    }
    assert forall|a: int, b: int| 0 <= a < order.len() && 0 <= b < order.len() && a != b implies order[a]
        != order[b] by {
        if a < loose.len() && b < loose.len() {
            if a > b { assert(loose[b] < loose[a]); }
        } else if a >= loose.len() && b >= loose.len() {
            if a > b { assert(tight[b - loose.len()] < tight[a - loose.len()]); } else {
                assert(tight[a - loose.len()] < tight[b - loose.len()]);
            }
        } else if a < loose.len() {
            assert(loose.contains(order[a]));
            assert(tight.contains(order[b]));
        } else {
            assert(tight.contains(order[a]));
            assert(loose.contains(order[b]));
        }
    }
}

/// Flexible children with a loose fit are laid out before those with a
/// tight fit, and children with the same fit in the order they stand in.
pub proof fn lemma_loose_before_tight(children: Seq<Option<FlexData>>)
    ensures
        forall|j: int, k: int|
            #![trigger flex_order(children)[j], flex_order(children)[k]]
            0 <= j < k < flex_order(children).len() ==> {
                let a = flex_order(children)[j];
                let b = flex_order(children)[k];
                &&& is_flexible(children[a]) && is_flexible(children[b])
                &&& fit_of(children[a]) == fit_of(children[b]) ==> a < b
                &&& fit_of(children[a]) != fit_of(children[b]) ==> fit_of(children[a]) == FlexFit::Loose
            },
{
    let loose = flexible_children(children, FlexFit::Loose);
    let tight = flexible_children(children, FlexFit::Tight);
    let order = flex_order(children);
    lemma_flexible_children_props(children, FlexFit::Loose);
    lemma_flexible_children_props(children, FlexFit::Tight);
    assert forall|j: int, k: int| #![trigger order[j], order[k]] 0 <= j < k < order.len() implies {
        let a = order[j];
        let b = order[k];
        &&& is_flexible(children[a]) && is_flexible(children[b])
        &&& fit_of(children[a]) == fit_of(children[b]) ==> a < b
        &&& fit_of(children[a]) != fit_of(children[b]) ==> fit_of(children[a]) == FlexFit::Loose
    } by {
        if k < loose.len() {
            assert(loose.contains(order[j]) && loose.contains(order[k]));
        } else if j >= loose.len() {
            assert(order[j] == tight[j - loose.len()] && order[k] == tight[k - loose.len()]);
            assert(tight.contains(order[j]) && tight.contains(order[k]));
        } else {
            assert(loose.contains(order[j]));
            assert(order[k] == tight[k - loose.len()]);
            assert(tight.contains(order[k]));
        }
    }
}

/// When a flexible child's turn comes, the flex left to share covers its own
/// flex factor, which is positive: the space per unit of flex is never
/// divided by zero, and taking the child's flex away never goes below zero.
pub proof fn lemma_remaining_flex_covers_each_child(children: Seq<Option<FlexData>>)
    ensures
        forall|k: int|
            0 <= k < flex_order(children).len() ==> {
                let flex = flex_of(children[#[trigger] flex_order(children)[k]]);
                &&& 0 < flex
                &&& flex <= total_flex(children) - flex_at(children, flex_order(children).take(k))
            },
{
    let order = flex_order(children);
    lemma_flex_order_takes_total(children);
    lemma_each_child_laid_out_once(children);
    lemma_flexible_children_props(children, FlexFit::Loose);
    lemma_flexible_children_props(children, FlexFit::Tight);
    assert forall|k: int| 0 <= k < order.len() implies {
        let flex = flex_of(children[#[trigger] order[k]]);
        &&& 0 < flex
        &&& flex <= total_flex(children) - flex_at(children, order.take(k))
    } by {
        let loose = flexible_children(children, FlexFit::Loose);
        let tight = flexible_children(children, FlexFit::Tight);
        if k < loose.len() {
            assert(order[k] == loose[k]);
            assert(loose.contains(order[k]));
        } else {
            assert(order[k] == tight[k - loose.len()]);
            assert(tight.contains(order[k]));
        }
        assert(order.take(k + 1) == order.take(k).push(order[k]));
        lemma_flex_at_push(children, order.take(k), order[k]);
        assert(order == order.take(k + 1) + order.skip(k + 1));
        lemma_flex_at_concat(children, order.take(k + 1), order.skip(k + 1));
    }
}

} // verus!
