//! Signals and nodes of a model file, in the order they depend on each other.
use indexmap::IndexMap;
use vstd::prelude::*;

use crate::arith::Prim;
use crate::graph::assemble::{build_node, Binding, Ctx, Made};
use crate::graph::formula::variables;
use crate::graph::grammar::{first_of, Env, Outcome, Scope};
use crate::graph::host::{Host, Sense};
use crate::graph::library::listed;
use crate::graph::node::{Kind, KindView, UNSET};
use crate::graph::order::{in_order, int_lists, ints, missing, sorted, topo_order, within};
use crate::graph::parse::{position, texts};
use crate::graph::spec::{args_at, args_index, args_len, args_of, keys, Arg, InputRef, ModelError, NodeSpec};
use crate::single::{Single, ONE};
use crate::text::{owned, plus};

verus! {

/// The formula of a signal; a number is one as it is written out.
pub open spec fn signal_source(key: Seq<char>, arg: Arg) -> Result<Seq<char>, Seq<char>> {
    match arg {
        Arg::Num(n) => Ok(n.text@),
        Arg::Text(t) => Ok(t@),
        Arg::List(_) => Err("[signals] '"@ + key + "': expected a formula"@),
    }
}

/// The formulas of signals after those of a list.
pub open spec fn signal_sources(entries: Seq<(Seq<char>, Arg)>, done: Seq<Seq<char>>) -> Result<Seq<Seq<char>>, Seq<char>>
    decreases entries.len() - done.len(),
{
    let i = done.len() as int;
    if i >= entries.len() {
        Ok(done)
    } else {
        match signal_source(entries[i].0, entries[i].1) {
            Ok(src) => signal_sources(entries, done.push(src)),
            Err(text) => Err(text),
        }
    }
}

pub fn build_sources(m: &IndexMap<String, Arg>) -> (r: Result<Vec<String>, ModelError>)
    ensures
        match (r, signal_sources(args_of(m), seq![])) {
            (Ok(list), Ok(found)) => texts(list@) == found && list@.len() == args_of(m).len(),
            (Err(e), Err(text)) => e.0@ == text,
            _ => false,
        },
{
    let count = args_len(m);
    let mut list: Vec<String> = Vec::new();
    assert(texts(list@) =~= seq![]);
    while list.len() < count
        invariant
            list@.len() <= count == args_of(m).len(),
            signal_sources(args_of(m), seq![]) == signal_sources(args_of(m), texts(list@)),
        decreases count - list@.len(),
    {
        let (key, arg) = args_at(m, list.len());
        let ghost before = list@;
        let src = match arg {
            Arg::Num(n) => n.text.clone(),
            Arg::Text(t) => t.clone(),
            Arg::List(_) => {
                let head = plus(owned("[signals] '"), key.as_str());
                return Err(ModelError(plus(head, "': expected a formula")));
            },
        };
        list.push(src);
        assert(texts(list@) =~= texts(before).push(list@.last()@));
    }
    Ok(list)
}

/// Where the names of a list that are keys stand among the keys.
pub open spec fn found(all: Seq<Seq<char>>, names: Seq<Seq<char>>) -> Seq<int>
    decreases names.len(),
{
    if names.len() == 0 {
        seq![]
    } else {
        let rest = found(all, names.drop_last());
        match first_of(all, names.last()) {
            Some(i) => rest.push(i),
            None => rest,
        }
    }
}

/// How messages refer to a signal.
pub open spec fn signal_who(key: Seq<char>) -> Seq<char> {
    "[signals] '"@ + key + "'"@
}

fn signal_who_text(key: &str) -> (r: String)
    ensures
        r@ == signal_who(key@),
{
    plus(plus(owned("[signals] '"), key), "'")
}

/// The signals each signal reads, after those of a list.
pub open spec fn signal_deps(w: Sense, all: Seq<Seq<char>>, sources: Seq<Seq<char>>, done: Seq<Seq<int>>) -> Result<
    Seq<Seq<int>>,
    Seq<char>,
>
    decreases sources.len() - done.len(),
{
    let i = done.len() as int;
    if i >= sources.len() {
        Ok(done)
    } else {
        match crate::graph::grammar::formula(Env { scope: Scope::Any, base: 0 }, sources[i]) {
            Outcome::Parsed { tree, at: _, calls: _ } => signal_deps(
                w,
                all,
                sources,
                done.push(found(all, crate::graph::grammar::names(tree))),
            ),
            Outcome::Failed { fault, calls: _ } => Err(
                signal_who(all[i]) + ": "@ + fault.text(w.show) + " in \""@ + sources[i] + "\""@,
            ),
        }
    }
}

proof fn lemma_found_grows(all: Seq<Seq<char>>, names: Seq<Seq<char>>, i: int)
    requires
        0 <= i < names.len(),
    ensures
        found(all, names.take(i + 1)) == match first_of(all, names[i]) {
            Some(k) => found(all, names.take(i)).push(k),
            None => found(all, names.take(i)),
        },
{
    assert(names.take(i + 1).drop_last() =~= names.take(i));
}

#[verifier::spinoff_prover]
fn find_all(m: &IndexMap<String, Arg>, names: &Vec<String>) -> (r: Vec<usize>)
    ensures
        ints(r@) == found(keys(args_of(m)), texts(names@)),
        forall|k: int| 0 <= k < r@.len() ==> #[trigger] r@[k] < args_of(m).len(),
{
    let ghost all = keys(args_of(m));
    let mut r: Vec<usize> = Vec::new();
    let mut i: usize = 0;
    assert(ints(r@) =~= found(all, texts(names@).take(0)));
    while i < names.len()
        invariant
            i <= names@.len(),
            all == keys(args_of(m)),
            ints(r@) == found(all, texts(names@).take(i as int)),
            forall|k: int| 0 <= k < r@.len() ==> #[trigger] r@[k] < args_of(m).len(),
        decreases names@.len() - i,
    {
        let ghost before = r@;
        proof {
            crate::graph::grammar::lemma_first_found(all, names@[i as int]@);
            lemma_found_grows(all, texts(names@), i as int);
            assert(texts(names@)[i as int] == names@[i as int]@);
        }
        if let Some(k) = args_index(m, names[i].as_str()) {
            r.push(k);
            assert(ints(r@) =~= ints(before).push(k as int));
        }
        i = i + 1;
    }
    assert(texts(names@).take(i as int) =~= texts(names@));
    r
}

pub fn build_signal_deps<F: Fn(Prim, Single, Single) -> Single, N: Fn(&String) -> Single, S: Fn(&String) -> String>(
    host: &Host<'_, F, N, S>,
    m: &IndexMap<String, Arg>,
    sources: &Vec<String>,
) -> (r: Result<Vec<Vec<usize>>, ModelError>)
    requires
        host.ok(),
        sources@.len() == args_of(m).len(),
    ensures
        r matches Ok(deps) ==> deps@.len() == sources@.len() && forall|i: int, k: int|
            0 <= i < deps@.len() && 0 <= k < deps@[i]@.len() ==> #[trigger] deps@[i]@[k] < deps@.len(),
        forall|w: Sense| #[trigger]
            host.means(w) ==> match (r, signal_deps(w, keys(args_of(m)), texts(sources@), seq![])) {
                (Ok(deps), Ok(lists)) => int_lists(deps@) == lists,
                (Err(e), Err(text)) => e.0@ == text,
                _ => false,
            },
{
    let ghost all = keys(args_of(m));
    let mut deps: Vec<Vec<usize>> = Vec::new();
    assert(int_lists(deps@) =~= seq![]);
    while deps.len() < sources.len()
        invariant
            host.ok(),
            all == keys(args_of(m)),
            deps@.len() <= sources@.len() == args_of(m).len(),
            forall|i: int, k: int|
                0 <= i < deps@.len() && 0 <= k < deps@[i]@.len() ==> #[trigger] deps@[i]@[k] < sources@.len(),
            forall|w: Sense| #[trigger]
                host.means(w) ==> signal_deps(w, all, texts(sources@), seq![]) == signal_deps(
                    w,
                    all,
                    texts(sources@),
                    int_lists(deps@),
                ),
        decreases sources@.len() - deps@.len(),
    {
        let i = deps.len();
        assert(texts(sources@)[i as int] == sources@[i as int]@);
        match variables(sources[i].as_str()) {
            Err(e) => {
                let (key, _) = args_at(m, i);
                let head = plus(plus(signal_who_text(key.as_str()), ": "), e.message(host.show).as_str());
                return Err(ModelError(plus(plus(plus(head, " in \""), sources[i].as_str()), "\"")));
            },
            Ok(used) => {
                let ghost before = deps@;
                deps.push(find_all(m, &used));
                assert(int_lists(deps@) =~= int_lists(before).push(ints(deps@.last()@)));
            },
        }
    }
    Ok(deps)
}

/// Message for items that form a loop.
pub open spec fn loop_text(what: Seq<char>, labels: Seq<Seq<char>>, stuck: Seq<int>, hint: Seq<char>) -> Seq<char> {
    what + " form a loop: "@ + listed(Seq::new(stuck.len(), |k: int| labels[stuck[k]])) + ". "@ + hint
}

fn loop_message(what: &str, labels: &Vec<String>, stuck: &Vec<usize>, hint: &str) -> (r: String)
    requires
        forall|k: int| 0 <= k < stuck@.len() ==> #[trigger] stuck@[k] < labels@.len(),
    ensures
        r@ == loop_text(what@, texts(labels@), ints(stuck@), hint@),
{
    let ghost words = Seq::new(ints(stuck@).len(), |k: int| texts(labels@)[ints(stuck@)[k]]);
    let mut list = String::new();
    let mut i: usize = 0;
    while i < stuck.len()
        invariant
            i <= stuck@.len() == words.len(),
            words == Seq::new(ints(stuck@).len(), |k: int| texts(labels@)[ints(stuck@)[k]]),
            forall|k: int| 0 <= k < stuck@.len() ==> #[trigger] stuck@[k] < labels@.len(),
            list@ == listed(words.take(i as int)),
        decreases stuck@.len() - i,
    {
        assert(stuck@[i as int] < labels@.len());
        if i > 0 {
            list = plus(list, ", ");
        }
        list = plus(list, labels[stuck[i]].as_str());
        i = i + 1;
        proof {
            let now = words.take(i as int);
            assert(now.drop_last() =~= words.take(i - 1));
            assert(now.last() == labels@[stuck@[i - 1] as int]@);
            if i == 1 {
                assert(list@ =~= now[0]);
            }
        }
    }
    assert(words.take(i as int) =~= words);
    plus(plus(plus(plus(owned(what), " form a loop: "), list.as_str()), ". "), hint)
}

/// The order of items, or a message about their loop.
pub open spec fn ordered(what: Seq<char>, labels: Seq<Seq<char>>, deps: Seq<Seq<int>>, hint: Seq<char>) -> Result<
    Seq<int>,
    Seq<char>,
> {
    if sorted(deps).len() == deps.len() {
        Ok(sorted(deps))
    } else {
        Err(loop_text(what, labels, missing(sorted(deps), 0, deps.len() as int), hint))
    }
}

pub fn order_items(what: &str, labels: &Vec<String>, deps: &Vec<Vec<usize>>, hint: &str) -> (r: Result<Vec<usize>, ModelError>)
    requires
        labels@.len() == deps@.len(),
        forall|i: int, k: int| 0 <= i < deps@.len() && 0 <= k < deps@[i]@.len() ==> #[trigger] deps@[i]@[k] < deps@.len(),
    ensures
        match (r, ordered(what@, texts(labels@), int_lists(deps@), hint@)) {
            (Ok(order), Ok(found)) => {
                &&& ints(order@) == found
                &&& order@.len() == deps@.len()
                &&& in_order(int_lists(deps@), ints(order@))
                &&& forall|p: int| 0 <= p < order@.len() ==> #[trigger] order@[p] < deps@.len()
                &&& forall|i: int| 0 <= i < deps@.len() ==> #[trigger] ints(order@).contains(i)
            },
            (Err(e), Err(text)) => e.0@ == text,
            _ => false,
        },
{
    proof {
        let lists = int_lists(deps@);
        assert(within(lists)) by {
            assert forall|i: int, k: int| 0 <= i < lists.len() && 0 <= k < lists[i].len() implies 0 <= #[trigger] lists[i][k]
                < lists.len() by {
                assert(deps@[i]@[k] < deps@.len());
            }
        }
        crate::graph::order::lemma_sorted(lists);
    }
    match topo_order(deps) {
        Ok(order) => {
            assert forall|p: int| 0 <= p < order@.len() implies #[trigger] order@[p] < deps@.len() by {
                assert(0 <= ints(order@)[p] < deps@.len());
            }
            Ok(order)
        },
        Err(stuck) => {
            proof {
                lemma_missing_within(sorted(int_lists(deps@)), 0, deps@.len() as int);
                assert forall|k: int| 0 <= k < stuck@.len() implies #[trigger] stuck@[k] < labels@.len() by {
                    assert(0 <= ints(stuck@)[k] < deps@.len());
                }
            }
            Err(ModelError(loop_message(what, labels, &stuck, hint)))
        },
    }
}

proof fn lemma_missing_within(order: Seq<int>, i: int, count: int)
    requires
        0 <= i,
    ensures
        forall|k: int| 0 <= k < missing(order, i, count).len() ==> i <= #[trigger] missing(order, i, count)[k] < count,
    decreases count - i,
{
    if i < count {
        lemma_missing_within(order, i + 1, count);
        let rest = missing(order, i + 1, count);
        assert forall|k: int| 0 <= k < missing(order, i, count).len() implies i <= #[trigger] missing(order, i, count)[k]
            < count by {
            if !order.contains(i) {
                assert(missing(order, i, count) =~= seq![i] + rest);
                if k > 0 {
                    assert(missing(order, i, count)[k] == rest[k - 1]);
                }
            }
        }
    }
}

/// What has been made after the programs of signals from the `k`th on.
pub open spec fn signal_programs(
    w: Sense,
    scope: Scope,
    all: Seq<Seq<char>>,
    sources: Seq<Seq<char>>,
    order: Seq<int>,
    made: Made,
    k: int,
) -> Result<Made, Seq<char>>
    decreases order.len() - k,
{
    if !(0 <= k < order.len()) {
        Ok(made)
    } else {
        match crate::graph::assemble::coded(w, scope, made.states, sources[order[k]], signal_who(all[order[k]])) {
            Err(text) => Err(text),
            Ok((ops, states)) => signal_programs(
                w,
                scope,
                all,
                sources,
                order,
                Made { programs: made.programs.push(ops), states },
                k + 1,
            ),
        }
    }
}

pub fn build_signals<F: Fn(Prim, Single, Single) -> Single, N: Fn(&String) -> Single, S: Fn(&String) -> String>(
    host: &Host<'_, F, N, S>,
    names: &Vec<String>,
    labels: &Vec<String>,
    sources: &Vec<String>,
    order: &Vec<usize>,
    ctx: &mut Ctx,
) -> (r: Result<(), ModelError>)
    requires
        host.ok(),
        names@.len() <= 0x1_0000,
        labels@.len() == sources@.len(),
        forall|p: int| 0 <= p < order@.len() ==> #[trigger] order@[p] < sources@.len(),
        old(ctx).wf(names@.len()),
    ensures
        final(ctx).wf(names@.len()),
        r is Ok ==> final(ctx).programs@.len() == old(ctx).programs@.len() + order@.len(),
        forall|w: Sense| #[trigger]
            host.means(w) ==> match (
                r,
                signal_programs(
                    w,
                    Scope::Names(texts(names@)),
                    texts(labels@),
                    texts(sources@),
                    ints(order@),
                    old(ctx)@,
                    0,
                ),
            ) {
                (Ok(_), Ok(made)) => final(ctx)@ == made,
                (Err(e), Err(text)) => e.0@ == text,
                _ => false,
            },
{
    let ghost scope = Scope::Names(texts(names@));
    let mut k: usize = 0;
    while k < order.len()
        invariant
            host.ok(),
            k <= order@.len(),
            names@.len() <= 0x1_0000,
            labels@.len() == sources@.len(),
            forall|p: int| 0 <= p < order@.len() ==> #[trigger] order@[p] < sources@.len(),
            ctx.wf(names@.len()),
            ctx.programs@.len() == old(ctx).programs@.len() + k,
            scope == Scope::Names(texts(names@)),
            forall|w: Sense| #[trigger]
                host.means(w) ==> signal_programs(
                    w,
                    scope,
                    texts(labels@),
                    texts(sources@),
                    ints(order@),
                    old(ctx)@,
                    0,
                ) == signal_programs(w, scope, texts(labels@), texts(sources@), ints(order@), ctx@, k as int),
        decreases order@.len() - k,
    {
        let i = order[k];
        assert(order@[k as int] < sources@.len());
        assert(ints(order@)[k as int] == i);
        let what = signal_who_text(labels[i].as_str());
        let p = match ctx.program(host, names, &sources[i], what) {
            Ok(p) => p,
            Err(e) => return Err(e),
        };
        let ghost before = ctx.programs@;
        ctx.programs.push(p);
        assert(crate::graph::assemble::codes(ctx.programs@) =~= crate::graph::assemble::codes(before).push(
            ctx.programs@.last().ops@,
        ));
        k = k + 1;
    }
    Ok(())
}

/// One input of a node.
#[derive(Clone, Copy, Debug, PartialEq, Eq, Structural)]
pub struct Source {
    /// Position of the node it comes from.
    pub node: usize,
    pub gain: Binding,
    /// The gain at the end of the last block; no number before the first.
    pub last: Single,
}

/// A node in its place.
#[derive(Debug)]
pub struct Node {
    pub kind: Kind,
    pub params: Vec<Binding>,
    pub inputs: Vec<Source>,
    pub by: Vec<Source>,
}

/// What a [`Node`] holds.
pub struct NodeView {
    pub kind: KindView,
    pub params: Seq<Binding>,
    pub inputs: Seq<Source>,
    pub by: Seq<Source>,
}

impl View for Node {
    type V = NodeView;

    open spec fn view(&self) -> NodeView {
        NodeView { kind: self.kind@, params: self.params@, inputs: self.inputs@, by: self.by@ }
    }
}

/// Sources come from earlier nodes, and their gains can be worked out.
pub open spec fn sources_wf(list: Seq<Source>, place: int, programs: nat) -> bool {
    forall|i: int| 0 <= i < list.len() ==> (#[trigger] list[i]).node < place && list[i].gain.wf(programs)
}

impl Node {
    /// Inputs from earlier nodes, arguments that can be worked out.
    pub open spec fn wf(&self, place: int, programs: nat) -> bool {
        &&& self.kind.wf()
        &&& self.params@.len() <= 3
        &&& forall|i: int| 0 <= i < self.params@.len() ==> (#[trigger] self.params@[i]).wf(programs)
        &&& sources_wf(self.inputs@, place, programs)
        &&& sources_wf(self.by@, place, programs)
    }
}

/// The ids of a list of nodes.
pub open spec fn ids(nodes: Seq<NodeSpec>) -> Seq<Seq<char>> {
    Seq::new(nodes.len(), |i: int| nodes[i].id@)
}

pub fn node_ids(nodes: &Vec<NodeSpec>) -> (r: Vec<String>)
    ensures
        texts(r@) == ids(nodes@),
{
    let mut r: Vec<String> = Vec::new();
    let mut i: usize = 0;
    assert(texts(r@) =~= ids(nodes@).take(0));
    while i < nodes.len()
        invariant
            i <= nodes@.len(),
            texts(r@) == ids(nodes@).take(i as int),
        decreases nodes@.len() - i,
    {
        let ghost before = r@;
        r.push(nodes[i].id.clone());
        i = i + 1;
        assert(texts(r@) =~= texts(before).push(nodes@[i - 1].id@));
        assert(ids(nodes@).take(i as int) =~= ids(nodes@).take(i - 1).push(nodes@[i - 1].id@));
    }
    assert(ids(nodes@).take(i as int) =~= ids(nodes@));
    r
}

/// Message for the first id that occurs before.
pub open spec fn repeated(all: Seq<Seq<char>>, i: int) -> Option<Seq<char>>
    decreases all.len() - i,
{
    if !(0 <= i < all.len()) {
        None
    } else if first_of(all, all[i]) != Some(i) {
        Some("[graph] duplicate node id '"@ + all[i] + "'"@)
    } else {
        repeated(all, i + 1)
    }
}

pub fn check_ids(all: &Vec<String>) -> (r: Result<(), ModelError>)
    ensures
        match r {
            Ok(_) => repeated(texts(all@), 0) is None,
            Err(e) => repeated(texts(all@), 0) == Some(e.0@),
        },
{
    let mut i: usize = 0;
    while i < all.len()
        invariant
            i <= all@.len(),
            repeated(texts(all@), 0) == repeated(texts(all@), i as int),
        decreases all@.len() - i,
    {
        let first = position(all, all[i].as_str());
        if first != Some(i) {
            let head = plus(owned("[graph] duplicate node id '"), all[i].as_str());
            return Err(ModelError(plus(head, "'")));
        }
        i = i + 1;
    }
    Ok(())
}

/// Message for an input that is no node.
#[verifier::opaque]
pub open spec fn no_such_node(user: Seq<char>, id: Seq<char>) -> Seq<char> {
    "node '"@ + user + "': input '"@ + id + "' is not a node id"@
}

fn find_node(all: &Vec<String>, id: &str, user: &str) -> (r: Result<usize, ModelError>)
    ensures
        match r {
            Ok(i) => first_of(texts(all@), id@) == Some(i as int) && i < all@.len(),
            Err(e) => first_of(texts(all@), id@) is None && e.0@ == no_such_node(user@, id@),
        },
{
    reveal(no_such_node);
    match position(all, id) {
        Some(i) => Ok(i),
        None => {
            let head = plus(plus(plus(owned("node '"), user), "': input '"), id);
            Err(ModelError(plus(head, "' is not a node id")))
        },
    }
}

/// The nodes a list of references means, after those of a list.
pub open spec fn referred(all: Seq<Seq<char>>, user: Seq<char>, refs: Seq<InputRef>, done: Seq<int>, i: int) -> Result<
    Seq<int>,
    Seq<char>,
>
    decreases refs.len() - i,
{
    if !(0 <= i < refs.len()) {
        Ok(done)
    } else {
        match first_of(all, refs[i].node()) {
            None => Err(no_such_node(user, refs[i].node())),
            Some(k) => referred(all, user, refs, done.push(k), i + 1),
        }
    }
}

fn refer(all: &Vec<String>, user: &str, refs: &Vec<InputRef>, list: &mut Vec<usize>) -> (r: Result<(), ModelError>)
    requires
        forall|k: int| 0 <= k < old(list)@.len() ==> #[trigger] old(list)@[k] < all@.len(),
    ensures
        forall|k: int| 0 <= k < final(list)@.len() ==> #[trigger] final(list)@[k] < all@.len(),
        match (r, referred(texts(all@), user@, refs@, ints(old(list)@), 0)) {
            (Ok(_), Ok(found)) => ints(final(list)@) == found,
            (Err(e), Err(text)) => e.0@ == text,
            _ => false,
        },
{
    let mut i: usize = 0;
    while i < refs.len()
        invariant
            i <= refs@.len(),
            forall|k: int| 0 <= k < list@.len() ==> #[trigger] list@[k] < all@.len(),
            referred(texts(all@), user@, refs@, ints(old(list)@), 0) == referred(
                texts(all@),
                user@,
                refs@,
                ints(list@),
                i as int,
            ),
        decreases refs@.len() - i,
    {
        match find_node(all, refs[i].id().as_str(), user) {
            Ok(k) => {
                let ghost before = list@;
                list.push(k);
                assert(ints(list@) =~= ints(before).push(k as int));
            },
            Err(e) => return Err(e),
        }
        i = i + 1;
    }
    Ok(())
}

/// The nodes each node takes its inputs from, after those of a list.
pub open spec fn node_deps(all: Seq<Seq<char>>, nodes: Seq<NodeSpec>, done: Seq<Seq<int>>) -> Result<Seq<Seq<int>>, Seq<char>>
    decreases nodes.len() - done.len(),
{
    let i = done.len() as int;
    if i >= nodes.len() {
        Ok(done)
    } else {
        match referred(all, nodes[i].id@, nodes[i].inputs@, seq![], 0) {
            Err(text) => Err(text),
            Ok(a) => match referred(all, nodes[i].id@, nodes[i].by@, a, 0) {
                Err(text) => Err(text),
                Ok(b) => node_deps(all, nodes, done.push(b)),
            },
        }
    }
}

pub fn build_node_deps(all: &Vec<String>, nodes: &Vec<NodeSpec>) -> (r: Result<Vec<Vec<usize>>, ModelError>)
    requires
        texts(all@) == ids(nodes@),
    ensures
        match (r, node_deps(texts(all@), nodes@, seq![])) {
            (Ok(deps), Ok(lists)) => int_lists(deps@) == lists && deps@.len() == nodes@.len() && forall|i: int, k: int|
                0 <= i < deps@.len() && 0 <= k < deps@[i]@.len() ==> #[trigger] deps@[i]@[k] < deps@.len(),
            (Err(e), Err(text)) => e.0@ == text,
            _ => false,
        },
{
    let mut deps: Vec<Vec<usize>> = Vec::new();
    assert(int_lists(deps@) =~= seq![]);
    assert(all@.len() == nodes@.len()) by {
        assert(texts(all@).len() == ids(nodes@).len());
    }
    while deps.len() < nodes.len()
        invariant
            all@.len() == nodes@.len(),
            deps@.len() <= nodes@.len(),
            node_deps(texts(all@), nodes@, seq![]) == node_deps(texts(all@), nodes@, int_lists(deps@)),
            forall|i: int, k: int|
                0 <= i < deps@.len() && 0 <= k < deps@[i]@.len() ==> #[trigger] deps@[i]@[k] < nodes@.len(),
        decreases nodes@.len() - deps@.len(),
    {
        let n = &nodes[deps.len()];
        let mut list: Vec<usize> = Vec::new();
        assert(ints(list@) =~= seq![]);
        if let Err(e) = refer(all, n.id.as_str(), &n.inputs, &mut list) {
            return Err(e);
        }
        if let Err(e) = refer(all, n.id.as_str(), &n.by, &mut list) {
            return Err(e);
        }
        let ghost before = deps@;
        deps.push(list);
        assert(int_lists(deps@) =~= int_lists(before).push(ints(deps@.last()@)));
    }
    Ok(deps)
}

/// Where an item stands in an order that holds it.
pub open spec fn place(order: Seq<int>, i: int) -> int {
    choose|p: int| 0 <= p < order.len() && order[p] == i
}

/// Where each item stands.
pub open spec fn places(order: Seq<int>) -> Seq<int> {
    Seq::new(order.len(), |i: int| place(order, i))
}

pub fn build_places(order: &Vec<usize>) -> (r: Vec<usize>)
    requires
        forall|p: int| 0 <= p < order@.len() ==> #[trigger] order@[p] < order@.len(),
        forall|p: int, q: int| 0 <= p < q < ints(order@).len() ==> ints(order@)[p] != ints(order@)[q],
        forall|i: int| 0 <= i < order@.len() ==> #[trigger] ints(order@).contains(i),
    ensures
        ints(r@) == places(ints(order@)),
        r@.len() == order@.len(),
        forall|i: int| 0 <= i < r@.len() ==> 0 <= #[trigger] r@[i] < order@.len() && order@[r@[i] as int] == i,
{
    let ghost all = ints(order@);
    let mut r: Vec<usize> = vec![0; order.len()];
    let mut p: usize = 0;
    while p < order.len()
        invariant
            p <= order@.len() == r@.len(),
            all == ints(order@),
            forall|p: int| 0 <= p < order@.len() ==> #[trigger] order@[p] < order@.len(),
            forall|p: int, q: int| 0 <= p < q < all.len() ==> all[p] != all[q],
            forall|q: int| 0 <= q < p ==> r@[(#[trigger] order@[q]) as int] == q,
        decreases order@.len() - p,
    {
        assert(order@[p as int] < order@.len());
        assert forall|q: int| 0 <= q < p implies order@[q] != order@[p as int] by {
            assert(all[q] != all[p as int]);
        }
        r.set(order[p], p);
        p = p + 1;
    }
    proof {
        assert forall|i: int| 0 <= i < r@.len() implies 0 <= #[trigger] r@[i] < order@.len() && order@[r@[i] as int] == i
            && r@[i] == place(all, i) by {
            assert(all.contains(i));
            let q = place(all, i);
            assert(0 <= q < all.len() && all[q] == i);
            assert(r@[order@[q] as int] == q);
        }
        assert(ints(r@) =~= places(all));
    }
    r
}

/// Inputs after those of a list, from the `i`th reference on, and what has been made then.
pub open spec fn connected(
    w: Sense,
    scope: Scope,
    all: Seq<Seq<char>>,
    at: Seq<int>,
    n: NodeSpec,
    refs: Seq<InputRef>,
    made: Made,
    done: Seq<Source>,
) -> Result<(Seq<Source>, Made), Seq<char>>
    decreases refs.len() - done.len(),
{
    let i = done.len() as int;
    if i >= refs.len() {
        Ok((done, made))
    } else {
        let gain = match refs[i] {
            InputRef::Full { from: _, gain: Some(g) } => crate::graph::assemble::bound(
                w,
                scope,
                made,
                g,
                "node '"@ + n.id@ + "' input gain"@,
            ),
            _ => Ok((Binding::Const(Single::of(ONE)), made)),
        };
        match gain {
            Err(text) => Err(text),
            Ok((gain, more)) => match first_of(all, refs[i].node()) {
                None => Err(no_such_node(n.id@, refs[i].node())),
                Some(k) => connected(
                    w,
                    scope,
                    all,
                    at,
                    n,
                    refs,
                    more,
                    done.push(Source { node: at[k] as usize, gain, last: Single::of(UNSET) }),
                ),
            },
        }
    }
}

/// Every reference of a list is to a node that stands before a place.
pub open spec fn refs_before(all: Seq<Seq<char>>, at: Seq<int>, refs: Seq<InputRef>, place: int) -> bool {
    forall|i: int|
        0 <= i < refs.len() ==> (first_of(all, (#[trigger] refs[i]).node()) matches Some(k) && at[k] < place)
}

pub fn connect<F: Fn(Prim, Single, Single) -> Single, N: Fn(&String) -> Single, S: Fn(&String) -> String>(
    host: &Host<'_, F, N, S>,
    names: &Vec<String>,
    all: &Vec<String>,
    at: &Vec<usize>,
    n: &NodeSpec,
    refs: &Vec<InputRef>,
    ctx: &mut Ctx,
    Ghost(place): Ghost<int>,
) -> (r: Result<Vec<Source>, ModelError>)
    requires
        host.ok(),
        names@.len() <= 0x1_0000,
        old(ctx).wf(names@.len()),
        at@.len() == all@.len(),
        refs_before(texts(all@), ints(at@), refs@, place),
    ensures
        final(ctx).wf(names@.len()),
        final(ctx).programs@.len() >= old(ctx).programs@.len(),
        r matches Ok(list) ==> sources_wf(list@, place, final(ctx).programs@.len()) && list@.len() == refs@.len(),
        forall|w: Sense| #[trigger]
            host.means(w) ==> match (
                r,
                connected(w, Scope::Names(texts(names@)), texts(all@), ints(at@), *n, refs@, old(ctx)@, seq![]),
            ) {
                (Ok(list), Ok((found, made))) => list@ == found && final(ctx)@ == made,
                (Err(e), Err(text)) => e.0@ == text,
                _ => false,
            },
{
    let ghost scope = Scope::Names(texts(names@));
    let mut list: Vec<Source> = Vec::new();
    assert(list@ =~= seq![]);
    while list.len() < refs.len()
        invariant
            host.ok(),
            names@.len() <= 0x1_0000,
            ctx.wf(names@.len()),
            ctx.programs@.len() >= old(ctx).programs@.len(),
            at@.len() == all@.len(),
            refs_before(texts(all@), ints(at@), refs@, place),
            list@.len() <= refs@.len(),
            sources_wf(list@, place, ctx.programs@.len()),
            scope == Scope::Names(texts(names@)),
            forall|w: Sense| #[trigger]
                host.means(w) ==> connected(w, scope, texts(all@), ints(at@), *n, refs@, old(ctx)@, seq![]) == connected(
                    w,
                    scope,
                    texts(all@),
                    ints(at@),
                    *n,
                    refs@,
                    ctx@,
                    list@,
                ),
        decreases refs@.len() - list@.len(),
    {
        let reference = &refs[list.len()];
        assert(*reference == refs@[list@.len() as int]);
        let gain = match reference {
            InputRef::Full { from: _, gain: Some(g) } => {
                let what = plus(plus(owned("node '"), n.id.as_str()), "' input gain");
                match ctx.bind(host, names, g, what) {
                    Ok(b) => b,
                    Err(e) => return Err(e),
                }
            },
            _ => Binding::Const(Single::of(ONE)),
        };
        let k = match find_node(all, reference.id().as_str(), n.id.as_str()) {
            Ok(k) => k,
            Err(e) => return Err(e),
        };
        assert(ints(at@)[k as int] < place);
        list.push(Source { node: at[k], gain, last: Single::of(UNSET) });
    }
    Ok(list)
}

/// Nodes after those of a list, and what has been made then.
pub open spec fn nodes_built(
    w: Sense,
    scope: Scope,
    nodes: Seq<NodeSpec>,
    order: Seq<int>,
    sr: Single,
    made: Made,
    done: Seq<NodeView>,
) -> Result<(Seq<NodeView>, Made), Seq<char>>
    decreases order.len() - done.len(),
{
    let p = done.len() as int;
    let n = nodes[order[p]];
    if p >= order.len() {
        Ok((done, made))
    } else {
        match connected(w, scope, ids(nodes), places(order), n, n.inputs@, made, seq![]) {
            Err(text) => Err(text),
            Ok((inputs, made1)) => match connected(w, scope, ids(nodes), places(order), n, n.by@, made1, seq![]) {
                Err(text) => Err(text),
                Ok((by, made2)) => match crate::graph::assemble::built(w, scope, made2, n) {
                    Err(text) => Err(text),
                    Ok((plan, params, made3)) => nodes_built(
                        w,
                        scope,
                        nodes,
                        order,
                        sr,
                        made3,
                        done.push(
                            NodeView {
                                kind: crate::graph::node::fresh_kind(w.f, plan, sr, crate::graph::node::node_seed(p)),
                                params,
                                inputs,
                                by,
                            },
                        ),
                    ),
                },
            },
        }
    }
}

/// The views of a list of nodes.
pub open spec fn node_views(list: Seq<Node>) -> Seq<NodeView> {
    Seq::new(list.len(), |i: int| list[i]@)
}

/// Each node is sound in its place.
pub open spec fn nodes_wf(list: Seq<Node>, programs: nat) -> bool {
    forall|p: int| 0 <= p < list.len() ==> (#[trigger] list[p]).wf(p, programs)
}

/// A list of nodes stays sound when more programs are made.
proof fn lemma_nodes_wf_more(list: Seq<Node>, programs: nat, more: nat)
    requires
        nodes_wf(list, programs),
        programs <= more,
    ensures
        nodes_wf(list, more),
{
    assert forall|p: int| 0 <= p < list.len() implies (#[trigger] list[p]).wf(p, more) by {
        assert(list[p].wf(p, programs));
    }
}

/// Items that a list of references means are among what was found.
proof fn lemma_referred(all: Seq<Seq<char>>, user: Seq<char>, refs: Seq<InputRef>, done: Seq<int>, i: int)
    requires
        0 <= i <= refs.len(),
        referred(all, user, refs, done, i) is Ok,
    ensures
        done.is_prefix_of(referred(all, user, refs, done, i)->Ok_0),
        forall|j: int| i <= j < refs.len() ==> (first_of(all, (#[trigger] refs[j]).node()) matches Some(k) && referred(
            all,
            user,
            refs,
            done,
            i,
        )->Ok_0.contains(k)),
    decreases refs.len() - i,
{
    if i < refs.len() {
        let k = first_of(all, refs[i].node()).unwrap();
        let next = done.push(k);
        lemma_referred(all, user, refs, next, i + 1);
        let full = referred(all, user, refs, done, i)->Ok_0;
        assert(next[done.len() as int] == k);
        assert(full[done.len() as int] == k);
    }
}

/// The dependencies of a node.
#[verifier::spinoff_prover]
#[verifier::rlimit(40)]
proof fn lemma_node_deps(all: Seq<Seq<char>>, nodes: Seq<NodeSpec>, done: Seq<Seq<int>>, j: int)
    requires
        node_deps(all, nodes, done) is Ok,
        done.len() <= j < nodes.len(),
    ensures
        ({
            let deps = node_deps(all, nodes, done)->Ok_0;
            let a = referred(all, nodes[j].id@, nodes[j].inputs@, seq![], 0);
            &&& a is Ok
            &&& referred(all, nodes[j].id@, nodes[j].by@, a->Ok_0, 0) == Ok::<Seq<int>, Seq<char>>(deps[j])
        }),
        done.is_prefix_of(node_deps(all, nodes, done)->Ok_0),
        node_deps(all, nodes, done)->Ok_0.len() == nodes.len(),
    decreases nodes.len() - done.len(),
{
    let i = done.len() as int;
    let a = referred(all, nodes[i].id@, nodes[i].inputs@, seq![], 0)->Ok_0;
    let b = referred(all, nodes[i].id@, nodes[i].by@, a, 0)->Ok_0;
    let next = done.push(b);
    assert(node_deps(all, nodes, done) == node_deps(all, nodes, next));
    assert(done.is_prefix_of(next));
    if j > i {
        lemma_node_deps(all, nodes, next, j);
    } else if next.len() < nodes.len() {
        lemma_node_deps(all, nodes, next, next.len() as int);
        assert(next[i] == b);
    } else {
        assert(node_deps(all, nodes, next)->Ok_0 == next);
    }
}

/// What a node refers to stands before it.
proof fn lemma_refs_before(nodes: Seq<NodeSpec>, deps: Seq<Seq<int>>, order: Seq<int>, p: int)
    requires
        node_deps(ids(nodes), nodes, seq![]) == Ok::<Seq<Seq<int>>, Seq<char>>(deps),
        in_order(deps, order),
        order.len() == nodes.len(),
        0 <= p < order.len(),
    ensures
        refs_before(ids(nodes), places(order), nodes[order[p]].inputs@, p),
        refs_before(ids(nodes), places(order), nodes[order[p]].by@, p),
{
    let j = order[p];
    let all = ids(nodes);
    let none: Seq<Seq<int>> = seq![];
    if nodes.len() > 0 {
        lemma_node_deps(all, nodes, none, 0);
    }
    assert(deps.len() == nodes.len());
    assert(0 <= j < deps.len());
    lemma_node_deps(all, nodes, none, j);
    let n = nodes[j];
    let empty: Seq<int> = seq![];
    lemma_referred(all, n.id@, n.inputs@, empty, 0);
    let a = referred(all, n.id@, n.inputs@, empty, 0)->Ok_0;
    lemma_referred(all, n.id@, n.by@, a, 0);
    assert(crate::graph::order::ready(deps, j, order.take(p)));
    assert forall|k: int| deps[j].contains(k) implies places(order)[k] < p by {
        let q = choose|q: int| 0 <= q < deps[j].len() && deps[j][q] == k;
        assert(order.take(p).contains(deps[j][q]));
        let s = choose|s: int| 0 <= s < order.take(p).len() && order.take(p)[s] == k;
        assert(order[s] == k);
        let t = place(order, k);
        assert(0 <= t < order.len() && order[t] == k);
        if t > s {
            assert(order[s] != order[t]);
        } else if s > t {
            assert(order[t] != order[s]);
        }
        assert(0 <= k < order.len());
    }
    assert forall|i: int| 0 <= i < n.inputs@.len() implies (first_of(all, (#[trigger] n.inputs@[i]).node()) matches Some(k)
        && places(order)[k] < p) by {
        let k = first_of(all, n.inputs@[i].node()).unwrap();
        assert(a.contains(k));
        let q = choose|q: int| 0 <= q < a.len() && a[q] == k;
        assert(deps[j][q] == k);
    }
    assert forall|i: int| 0 <= i < n.by@.len() implies (first_of(all, (#[trigger] n.by@[i]).node()) matches Some(k)
        && places(order)[k] < p) by {
        let k = first_of(all, n.by@[i].node()).unwrap();
        assert(deps[j].contains(k));
    }
}

/// Seed of the node at a position.
fn seed_of(position: usize) -> (r: u32)
    requires
        position < 0x1_0000_0000,
    ensures
        r == crate::graph::node::node_seed(position as int),
{
    let spread = (position as u64 * 2_654_435_761) % 0x1_0000_0000;
    ((0x6a00_0000 + spread) % 0x1_0000_0000) as u32
}

#[verifier::rlimit(40)]
pub fn build_nodes<F: Fn(Prim, Single, Single) -> Single, N: Fn(&String) -> Single, S: Fn(&String) -> String>(
    host: &Host<'_, F, N, S>,
    names: &Vec<String>,
    all: &Vec<String>,
    nodes: &Vec<NodeSpec>,
    order: &Vec<usize>,
    at: &Vec<usize>,
    sr: Single,
    ctx: &mut Ctx,
    Ghost(deps): Ghost<Seq<Seq<int>>>,
) -> (r: Result<Vec<Node>, ModelError>)
    requires
        host.ok(),
        names@.len() <= 0x1_0000,
        old(ctx).wf(names@.len()),
        texts(all@) == ids(nodes@),
        all@.len() == nodes@.len() == order@.len() == at@.len(),
        nodes@.len() < 0x1_0000,
        ints(at@) == places(ints(order@)),
        forall|p: int| 0 <= p < order@.len() ==> #[trigger] order@[p] < nodes@.len(),
        node_deps(ids(nodes@), nodes@, seq![]) == Ok::<Seq<Seq<int>>, Seq<char>>(deps),
        in_order(deps, ints(order@)),
    ensures
        final(ctx).wf(names@.len()),
        final(ctx).programs@.len() >= old(ctx).programs@.len(),
        r matches Ok(list) ==> nodes_wf(list@, final(ctx).programs@.len()) && list@.len() == nodes@.len(),
        forall|w: Sense| #[trigger]
            host.means(w) ==> match (
                r,
                nodes_built(w, Scope::Names(texts(names@)), nodes@, ints(order@), sr, old(ctx)@, seq![]),
            ) {
                (Ok(list), Ok((found, made))) => node_views(list@) == found && final(ctx)@ == made,
                (Err(e), Err(text)) => e.0@ == text,
                _ => false,
            },
{
    let ghost scope = Scope::Names(texts(names@));
    let mut list: Vec<Node> = Vec::new();
    assert(node_views(list@) =~= seq![]);
    while list.len() < order.len()
        invariant
            host.ok(),
            names@.len() <= 0x1_0000,
            ctx.wf(names@.len()),
            ctx.programs@.len() >= old(ctx).programs@.len(),
            texts(all@) == ids(nodes@),
            all@.len() == nodes@.len() == order@.len() == at@.len(),
            nodes@.len() < 0x1_0000,
            ints(at@) == places(ints(order@)),
            forall|p: int| 0 <= p < order@.len() ==> #[trigger] order@[p] < nodes@.len(),
            node_deps(ids(nodes@), nodes@, seq![]) == Ok::<Seq<Seq<int>>, Seq<char>>(deps),
            in_order(deps, ints(order@)),
            list@.len() <= order@.len(),
            nodes_wf(list@, ctx.programs@.len()),
            scope == Scope::Names(texts(names@)),
            forall|w: Sense| #[trigger]
                host.means(w) ==> nodes_built(w, scope, nodes@, ints(order@), sr, old(ctx)@, seq![]) == nodes_built(
                    w,
                    scope,
                    nodes@,
                    ints(order@),
                    sr,
                    ctx@,
                    node_views(list@),
                ),
        decreases order@.len() - list@.len(),
    {
        let p = list.len();
        let ghost start = ctx.programs@.len();
        assert(order@[p as int] < nodes@.len());
        assert(ints(order@)[p as int] == order@[p as int]);
        let n = &nodes[order[p]];
        proof {
            lemma_refs_before(nodes@, deps, ints(order@), p as int);
        }
        let inputs = match connect(host, names, all, at, n, &n.inputs, ctx, Ghost(p as int)) {
            Ok(list) => list,
            Err(e) => return Err(e),
        };
        let ghost one = ctx.programs@.len();
        let by = match connect(host, names, all, at, n, &n.by, ctx, Ghost(p as int)) {
            Ok(list) => list,
            Err(e) => return Err(e),
        };
        let ghost two = ctx.programs@.len();
        let body = match build_node(host, names, ctx, n) {
            Ok(body) => body,
            Err(e) => return Err(e),
        };
        let kind = Kind::new(host.fpu, body.design, sr, seed_of(p));
        let node = Node { kind, params: body.params, inputs, by };
        let ghost before = list@;
        proof {
            assert(node.wf(p as int, ctx.programs@.len()));
            lemma_nodes_wf_more(before, start, ctx.programs@.len());
        }
        list.push(node);
        assert(node_views(list@) =~= node_views(before).push(list@.last()@));
    }
    Ok(list)
}

} // verus!
