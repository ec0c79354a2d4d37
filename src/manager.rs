//! The fleet's connection set. Dialing a vehicle is done by the caller; the
//! manager receives each dial's outcome and keeps the vehicles that answered.
//! `H` is the connection handle that the flight-control link hands out.
use vstd::prelude::*;
use vstd::seq_lib::group_to_multiset_ensures;

verus! {

/// A dial that failed, with the link's own words.
#[derive(Clone, Debug, PartialEq, Eq)]
pub struct ConnectionError {
    pub reason: String,
}

#[derive(Clone, Copy, Debug, PartialEq, Eq, Structural)]
pub enum TargetStatus {
    Connected,
    Failed,
}

/// A fleet member: its place in the set, its endpoint, and its live connection.
#[derive(Clone, Debug)]
pub struct Target<H> {
    pub id: usize,
    pub url: String,
    pub connection: H,
    pub status: TargetStatus,
}

pub struct Manager<H> {
    pub targets: Vec<Target<H>>,
}

/// The (endpoint, handle) pairs of the dials that succeeded, in the order given.
pub open spec fn connected<H>(outcomes: Seq<(String, Result<H, ConnectionError>)>) -> Seq<(String, H)>
    decreases outcomes.len(),
{
    if outcomes.len() == 0 {
        Seq::empty()
    } else {
        let earlier = connected(outcomes.drop_last());
        match outcomes.last().1 {
            Ok(h) => earlier.push((outcomes.last().0, h)),
            Err(_) => earlier,
        }
    }
}

/// The (endpoint, error) pairs of the dials that failed, in the order given.
pub open spec fn failed<H>(outcomes: Seq<(String, Result<H, ConnectionError>)>) -> Seq<(String, ConnectionError)>
    decreases outcomes.len(),
{
    if outcomes.len() == 0 {
        Seq::empty()
    } else {
        let earlier = failed(outcomes.drop_last());
        match outcomes.last().1 {
            Ok(_) => earlier,
            Err(e) => earlier.push((outcomes.last().0, e)),
        }
    }
}

/// The target that a successful dial of `url` adds as member `id`.
pub open spec fn new_target<H>(id: int, url: String, connection: H) -> Target<H> {
    Target { id: id as usize, url, connection, status: TargetStatus::Connected }
}

/// `after` is `before` followed by one connected target per pair of `added`.
pub open spec fn appended<H>(before: Seq<Target<H>>, after: Seq<Target<H>>, added: Seq<(String, H)>) -> bool {
    &&& after.len() == before.len() + added.len()
    &&& forall|i: int| 0 <= i < before.len() ==> after[i] == before[i]
    &&& forall|k: int|
        0 <= k < added.len() ==> #[trigger] after[before.len() + k] == new_target(
            before.len() + k,
            added[k].0,
            added[k].1,
        )
}

impl<H> Manager<H> {
    /// A manager with no targets.
    pub fn new() -> (r: Manager<H>)
        ensures
            r.targets@.len() == 0,
    {
        Manager { targets: Vec::new() }
    }

    /// Records the outcome of dialing one endpoint: a success joins the set,
    /// a failure is handed back and the set is left as it was.
    pub fn add_target(&mut self, url: &str, dialed: Result<H, ConnectionError>) -> (r: Result<
        (),
        ConnectionError,
    >)
        ensures
            match dialed {
                Ok(h) => {
                    &&& r is Ok
                    &&& final(self).targets@.len() == old(self).targets@.len() + 1
                    &&& final(self).targets@.drop_last() == old(self).targets@
                    &&& final(self).targets@.last().id == old(self).targets@.len()
                    &&& final(self).targets@.last().url@ == url@
                    &&& final(self).targets@.last().connection == h
                    &&& final(self).targets@.last().status == TargetStatus::Connected
                },
                Err(e) => {
                    &&& r == Err::<(), ConnectionError>(e)
                    &&& final(self).targets@ == old(self).targets@
                },
            },
    {
        match dialed {
            Ok(connection) => {
                let id = self.targets.len();
                let t = Target {
                    id,
                    url: url.to_string(),
                    connection,
                    status: TargetStatus::Connected,
                };
                self.targets.push(t);
                proof {
                    assert(self.targets@.drop_last() =~= old(self).targets@);
                }
                Ok(())
            },
            Err(e) => Err(e),
        }
    }

    /// Records the outcomes of a batch of dials, in the order they completed:
    /// each success joins the set, and the failures are handed back, in order,
    /// for the caller to report. One failure never stops the batch.
    pub fn add_targets(&mut self, outcomes: Vec<(String, Result<H, ConnectionError>)>) -> (r: Vec<
        (String, ConnectionError),
    >)
        ensures
            appended(old(self).targets@, final(self).targets@, connected(outcomes@)),
            r@ == failed(outcomes@),
    {
        let mut outcomes = outcomes;
        let ghost all = outcomes@;
        let ghost start = self.targets@;
        let mut rest: Vec<(String, Result<H, ConnectionError>)> = Vec::new();
        let mut k: usize = outcomes.len();
        while k > 0
            invariant
                k == outcomes@.len(),
                outcomes@ == all.take(k as int),
                k <= all.len(),
                all.len() <= usize::MAX,
                rest@.len() == all.len() - k,
                forall|j: int| 0 <= j < rest@.len() ==> #[trigger] rest@[j] == all[all.len() - 1 - j],
            decreases k,
        {
            let o = outcomes.pop().unwrap();
            rest.push(o);
            k = k - 1;
            proof {
                assert(outcomes@ =~= all.take(k as int));
            }
        }
        let mut fails: Vec<(String, ConnectionError)> = Vec::new();
        let mut i: usize = 0;
        while rest.len() > 0
            invariant
                all.len() <= usize::MAX,
                i + rest@.len() == all.len(),
                forall|j: int| 0 <= j < rest@.len() ==> #[trigger] rest@[j] == all[all.len() - 1 - j],
                appended(start, self.targets@, connected(all.take(i as int))),
                fails@ == failed(all.take(i as int)),
            decreases rest@.len(),
        {
            let (url, dialed) = rest.pop().unwrap();
            proof {
                assert(all[i as int] == (url, dialed));
                assert(all.take(i + 1).drop_last() =~= all.take(i as int));
            }
            match dialed {
                Ok(connection) => {
                    let id = self.targets.len();
                    self.targets.push(Target { id, url, connection, status: TargetStatus::Connected });
                },
                Err(e) => {
                    fails.push((url, e));
                },
            }
            i = i + 1;
            proof {
                let added = connected(all.take(i as int));
                assert forall|k: int| 0 <= k < added.len() implies #[trigger] self.targets@[start.len() + k]
                    == new_target(start.len() + k, added[k].0, added[k].1) by {
                    if k < added.len() - 1 || all[i - 1].1 is Err {
                        assert(added[k] == connected(all.take(i - 1))[k]);
                    }
                }
            }
        }
        assert(all.take(all.len() as int) =~= all);
        fails
    }
}

/// How often `(url, h)` was connected equals how often its dial succeeded.
proof fn lemma_connected_count<H>(s: Seq<(String, Result<H, ConnectionError>)>, url: String, h: H)
    ensures
        connected(s).to_multiset().count((url, h)) == s.to_multiset().count((url, Ok(h))),
    decreases s.len(),
{
    broadcast use group_to_multiset_ensures;

    if s.len() > 0 {
        let init = s.drop_last();
        lemma_connected_count(init, url, h);
        assert(s =~= init.push(s.last()));
        match s.last().1 {
            Ok(g) => {
                assert(connected(s) == connected(init).push((s.last().0, g)));
            },
            Err(_) => {},
        }
    }
}

pub open spec fn dial_succeeded<H>(o: (String, Result<H, ConnectionError>)) -> bool {
    o.1 is Ok
}

/// One target is connected per successful dial.
proof fn lemma_connected_len<H>(s: Seq<(String, Result<H, ConnectionError>)>)
    ensures
        connected(s).len() == s.filter(|o: (String, Result<H, ConnectionError>)| dial_succeeded(o)).len(),
    decreases s.len(),
{
    reveal_with_fuel(Seq::filter, 1);
    if s.len() > 0 {
        lemma_connected_len(s.drop_last());
    }
}

/// Which dials succeed, not the order in which they complete, decides the set:
/// outcomes that differ only in order connect the same targets, as many of them.
pub proof fn lemma_dial_order_irrelevant<H>(
    a: Seq<(String, Result<H, ConnectionError>)>,
    b: Seq<(String, Result<H, ConnectionError>)>,
)
    requires
        a.to_multiset() == b.to_multiset(),
    ensures
        connected(a).to_multiset() == connected(b).to_multiset(),
        connected(a).len() == connected(b).len(),
        connected(a).len() == a.filter(|o: (String, Result<H, ConnectionError>)| dial_succeeded(o)).len(),
{
    lemma_connected_len(a);
    broadcast use group_to_multiset_ensures;

    assert forall|x: (String, H)| connected(a).to_multiset().count(x) == connected(b).to_multiset().count(x) by {
        lemma_connected_count(a, x.0, x.1);
        lemma_connected_count(b, x.0, x.1);
    }
    assert(connected(a).to_multiset() =~= connected(b).to_multiset());
    assert(connected(a).len() == connected(a).to_multiset().len());
    assert(connected(b).len() == connected(b).to_multiset().len());
}

} // verus!
