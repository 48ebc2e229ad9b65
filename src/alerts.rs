use vstd::prelude::*;
use vstd::string::*;
use crate::text::{equals_ignore_case, upper_seq};

verus! {

/// An alert delivered by a webhook. Never changed once stored.
pub struct Alert {
    pub id: u64,
    pub symbol: String,
    pub raw_payload: String,
    pub received_at: u64,
}

/// The contents of an alert.
pub struct AlertView {
    pub id: u64,
    pub symbol: Seq<char>,
    pub raw_payload: Seq<char>,
    pub received_at: u64,
}

impl View for Alert {
    type V = AlertView;

    open spec fn view(&self) -> AlertView {
        AlertView {
            id: self.id,
            symbol: self.symbol@,
            raw_payload: self.raw_payload@,
            received_at: self.received_at,
        }
    }
}

impl Alert {
    /// A copy with the same contents.
    pub fn duplicate(&self) -> (r: Alert)
        ensures
            r@ == self@,
    {
        Alert {
            id: self.id,
            symbol: self.symbol.clone(),
            raw_payload: self.raw_payload.clone(),
            received_at: self.received_at,
        }
    }
}

/// Whether an alert is for `sym`, ignoring ASCII case.
pub open spec fn for_symbol(a: AlertView, sym: Seq<char>) -> bool {
    upper_seq(a.symbol) == upper_seq(sym)
}

/// The alerts of `s` (oldest first) that are for `sym`, newest first.
pub open spec fn newest_for_symbol(s: Seq<AlertView>, sym: Seq<char>) -> Seq<AlertView>
    decreases s.len(),
{
    if s.len() == 0 {
        Seq::empty()
    } else {
        newest_for_symbol(s.skip(1), sym) + if for_symbol(s[0], sym) {
            seq![s[0]]
        } else {
            Seq::empty()
        }
    }
}

/// The abstract alert store: the alerts oldest first, the next id, and the
/// most alerts kept.
pub struct StoreModel {
    pub alerts: Seq<AlertView>,
    pub next_id: u64,
    pub capacity: nat,
}

impl StoreModel {
    /// Within the cap; ids strictly increase and receipt times never decrease
    /// from oldest to newest; every id is below the next one.
    pub open spec fn wf(self) -> bool {
        &&& 0 < self.capacity
        &&& self.alerts.len() <= self.capacity
        &&& forall|i: int, j: int|
            0 <= i < j < self.alerts.len() ==> (#[trigger] self.alerts[i]).id < (
            #[trigger] self.alerts[j]).id && self.alerts[i].received_at
                <= self.alerts[j].received_at
        &&& forall|i: int| 0 <= i < self.alerts.len() ==> (#[trigger] self.alerts[i]).id < self.next_id
    }

    /// The receipt time given to an alert appended at `now`: never earlier
    /// than the newest alert's.
    pub open spec fn stamp(self, now: u64) -> u64 {
        if self.alerts.len() > 0 && self.alerts.last().received_at > now {
            self.alerts.last().received_at
        } else {
            now
        }
    }

    /// The alert that an append at `now` creates.
    pub open spec fn appended_alert(self, sym: Seq<char>, payload: Seq<char>, now: u64) -> AlertView {
        AlertView { id: self.next_id, symbol: sym, raw_payload: payload, received_at: self.stamp(now) }
    }

    /// The state after an append: the oldest alert leaves when the store is
    /// full, and the new one is the newest.
    pub open spec fn after_append(self, sym: Seq<char>, payload: Seq<char>, now: u64) -> StoreModel {
        let kept = if self.alerts.len() >= self.capacity {
            self.alerts.skip(1)
        } else {
            self.alerts
        };
        StoreModel {
            alerts: kept.push(self.appended_alert(sym, payload, now)),
            next_id: (self.next_id + 1) as u64,
            capacity: self.capacity,
        }
    }

    /// The `limit` newest alerts, newest first.
    pub open spec fn recent(self, limit: nat) -> Seq<AlertView> {
        let n = self.alerts.len();
        let k = if limit < n { limit } else { n };
        Seq::new(k, |i: int| self.alerts[n - 1 - i])
    }

    /// The `limit` newest alerts for `sym`, newest first.
    pub open spec fn recent_for(self, sym: Seq<char>, limit: nat) -> Seq<AlertView> {
        let all = newest_for_symbol(self.alerts, sym);
        all.take(if limit < all.len() { limit as int } else { all.len() as int })
    }
}

/// Alerts in memory, oldest first, with a cap on how many are kept.
pub struct AlertStore {
    alerts: Vec<Alert>,
    next_id: u64,
    capacity: usize,
}

impl View for AlertStore {
    type V = StoreModel;

    closed spec fn view(&self) -> StoreModel {
        StoreModel {
            alerts: self.alerts@.map_values(|a: Alert| a@),
            next_id: self.next_id,
            capacity: self.capacity as nat,
        }
    }
}

impl AlertStore {
    /// An empty store keeping at most `capacity` alerts.
    pub fn new(capacity: usize) -> (r: AlertStore)
        requires
            capacity > 0,
        ensures
            r@.wf(),
            r@.alerts.len() == 0,
            r@.next_id == 0,
            r@.capacity == capacity,
    {
        let r = AlertStore { alerts: Vec::new(), next_id: 0, capacity };
        proof {
            assert(r@.alerts =~= Seq::<AlertView>::empty());
        }
        r
    }

    pub fn len(&self) -> (r: usize)
        ensures
            r == self@.alerts.len(),
    {
        self.alerts.len()
    }

    /// Whether another id can be handed out.
    pub fn can_append(&self) -> (r: bool)
        ensures
            r == (self@.next_id < u64::MAX),
    {
        self.next_id < u64::MAX
    }

    /// Stores a new alert for `symbol` received at `now` and returns it; when
    /// the store is full the oldest alert is dropped first.
    pub fn append(&mut self, symbol: String, raw_payload: String, now: u64) -> (r: Alert)
        requires
            old(self)@.wf(),
            old(self)@.next_id < u64::MAX,
        ensures
            r@ == old(self)@.appended_alert(symbol@, raw_payload@, now),
            final(self)@ == old(self)@.after_append(symbol@, raw_payload@, now),
            final(self)@.wf(),
    {
        let ghost m = self@;
        let n = self.alerts.len();
        let received_at: u64 = if n > 0 && self.alerts[n - 1].received_at > now {
            self.alerts[n - 1].received_at
        } else {
            now
        };
        if n >= self.capacity {
            self.alerts.remove(0);
            proof {
                assert(self.alerts@.map_values(|a: Alert| a@) =~= m.alerts.skip(1));
            }
        }
        let alert = Alert { id: self.next_id, symbol, raw_payload, received_at };
        let out = alert.duplicate();
        self.alerts.push(alert);
        self.next_id = self.next_id + 1;
        proof {
            assert(self@.alerts =~= m.after_append(symbol@, raw_payload@, now).alerts);
            assert(self@ =~= m.after_append(symbol@, raw_payload@, now));
        }
        out
    }

    /// The `limit` newest alerts, newest first.
    pub fn list_recent(&self, limit: usize) -> (r: Vec<Alert>)
        ensures
            r@.map_values(|a: Alert| a@) == self@.recent(limit as nat),
    {
        let n = self.alerts.len();
        let k = if limit < n {
            limit
        } else {
            n
        };
        let mut out: Vec<Alert> = Vec::new();
        let mut i: usize = 0;
        while i < k
            invariant
                n == self@.alerts.len(),
                k <= n,
                k == (if (limit as nat) < n { limit as nat } else { n as nat }),
                i <= k,
                out@.len() == i,
                forall|j: int| 0 <= j < i ==> (#[trigger] out@[j])@ == self@.alerts[n - 1 - j],
            decreases k - i,
        {
            out.push(self.alerts[n - 1 - i].duplicate());
            i = i + 1;
        }
        proof {
            assert(out@.map_values(|a: Alert| a@) =~= self@.recent(limit as nat));
        }
        out
    }

    /// The `limit` newest alerts for `symbol` (ignoring ASCII case), newest
    /// first. A symbol with no alerts gives an empty list.
    pub fn list_by_symbol(&self, symbol: &str, limit: usize) -> (r: Vec<Alert>)
        ensures
            r@.map_values(|a: Alert| a@) == self@.recent_for(symbol@, limit as nat),
    {
        let n = self.alerts.len();
        let ghost s = self@.alerts;
        let mut out: Vec<Alert> = Vec::new();
        let mut i: usize = n;
        while i > 0
            invariant
                n == s.len(),
                s == self@.alerts,
                i <= n,
                out@.map_values(|a: Alert| a@) == ({
                    let all = newest_for_symbol(s.subrange(i as int, n as int), symbol@);
                    all.take(if (limit as nat) < all.len() { limit as int } else { all.len() as int })
                }),
            decreases i,
        {
            let ghost prev = newest_for_symbol(s.subrange(i as int, n as int), symbol@);
            proof {
                assert(s.subrange(i - 1, n as int).skip(1) =~= s.subrange(i as int, n as int));
                assert(s.subrange(i - 1, n as int)[0] == s[i - 1]);
            }
            i = i - 1;
            if out.len() < limit && equals_ignore_case(self.alerts[i].symbol.as_str(), symbol) {
                let ghost before = out@.map_values(|a: Alert| a@);
                out.push(self.alerts[i].duplicate());
                proof {
                    assert(before == prev);
                    assert(out@.map_values(|a: Alert| a@) =~= before.push(s[i as int]));
                    let all = newest_for_symbol(s.subrange(i as int, n as int), symbol@);
                    assert(all =~= prev + seq![s[i as int]]);
                    assert(all.take(if (limit as nat) < all.len() { limit as int } else { all.len() as int }) =~= prev.push(s[i as int]));
                }
            } else {
                proof {
                    let all = newest_for_symbol(s.subrange(i as int, n as int), symbol@);
                    let ex: Seq<AlertView> = if for_symbol(s[i as int], symbol@) { seq![s[i as int]] } else { Seq::empty() };
                    assert(all =~= prev + ex);
                    assert(all.take(if (limit as nat) < all.len() { limit as int } else { all.len() as int })
                        =~= prev.take(if (limit as nat) < prev.len() { limit as int } else { prev.len() as int }));
                }
            }
        }
        proof {
            assert(s.subrange(0, n as int) =~= s);
        }
        out
    }

    /// Removes every alert; ids keep counting up.
    pub fn clear_all(&mut self)
        requires
            old(self)@.wf(),
        ensures
            final(self)@.alerts.len() == 0,
            final(self)@.next_id == old(self)@.next_id,
            final(self)@.capacity == old(self)@.capacity,
            final(self)@.wf(),
    {
        self.alerts = Vec::new();
        proof {
            assert(self@.alerts =~= Seq::<AlertView>::empty());
        }
    }
}

/// Applies appends one after another; each item is a symbol, a payload and a
/// receipt time.
pub open spec fn append_all(m: StoreModel, items: Seq<(Seq<char>, Seq<char>, u64)>) -> StoreModel
    decreases items.len(),
{
    if items.len() == 0 {
        m
    } else {
        let last = items.last();
        append_all(m, items.drop_last()).after_append(last.0, last.1, last.2)
    }
}

/// An append keeps the store well formed.
pub proof fn lemma_append_wf(m: StoreModel, sym: Seq<char>, payload: Seq<char>, now: u64)
    requires
        m.wf(),
        m.next_id < u64::MAX,
    ensures
        m.after_append(sym, payload, now).wf(),
        m.after_append(sym, payload, now).next_id == m.next_id + 1,
{
    let r = m.after_append(sym, payload, now);
    let kept = if m.alerts.len() >= m.capacity { m.alerts.skip(1) } else { m.alerts };
    assert forall|i: int, j: int| 0 <= i < j < r.alerts.len() implies (#[trigger] r.alerts[i]).id < (
    #[trigger] r.alerts[j]).id && r.alerts[i].received_at <= r.alerts[j].received_at by {
        if j == r.alerts.len() - 1 {
            assert(r.alerts[i] == kept[i]);
            if m.alerts.len() >= m.capacity {
                assert(kept[i] == m.alerts[i + 1]);
                assert(m.alerts.last() == m.alerts[m.alerts.len() - 1]);
                if i + 1 < m.alerts.len() - 1 {
                    assert(m.alerts[i + 1].received_at <= m.alerts[m.alerts.len() - 1].received_at);
                }
            } else {
                if i < m.alerts.len() - 1 {
                    assert(m.alerts[i].received_at <= m.alerts[m.alerts.len() - 1].received_at);
                }
            }
        } else {
            if m.alerts.len() >= m.capacity {
                assert(r.alerts[i] == m.alerts[i + 1]);
                assert(r.alerts[j] == m.alerts[j + 1]);
            }
        }
    }
    assert forall|i: int| 0 <= i < r.alerts.len() implies (#[trigger] r.alerts[i]).id < r.next_id by {
        if i < r.alerts.len() - 1 {
            if m.alerts.len() >= m.capacity {
                assert(r.alerts[i] == m.alerts[i + 1]);
            }
        }
    }
}

/// Appending alerts to a store with room for all of them loses none: the
/// store holds the old alerts followed by the new ones, in order of receipt,
/// and the store stays well formed.
pub proof fn lemma_appends_kept(m: StoreModel, items: Seq<(Seq<char>, Seq<char>, u64)>)
    requires
        m.wf(),
        m.alerts.len() + items.len() <= m.capacity,
        m.next_id + items.len() <= u64::MAX,
    ensures
        append_all(m, items).wf(),
        append_all(m, items).capacity == m.capacity,
        append_all(m, items).next_id == m.next_id + items.len(),
        append_all(m, items).alerts.len() == m.alerts.len() + items.len(),
        append_all(m, items).alerts.take(m.alerts.len() as int) == m.alerts,
        forall|k: int|
            0 <= k < items.len() ==> {
                &&& (#[trigger] append_all(m, items).alerts[m.alerts.len() + k]).symbol == items[k].0
                &&& append_all(m, items).alerts[m.alerts.len() + k].raw_payload == items[k].1
            },
    decreases items.len(),
{
    if items.len() > 0 {
        let prev_items = items.drop_last();
        lemma_appends_kept(m, prev_items);
        let p = append_all(m, prev_items);
        let last = items.last();
        lemma_append_wf(p, last.0, last.1, last.2);
        let r = append_all(m, items);
        assert(r == p.after_append(last.0, last.1, last.2));
        assert(p.alerts.len() == m.alerts.len() + prev_items.len());
        assert(p.alerts.len() < p.capacity);
        assert(r.alerts == p.alerts.push(p.appended_alert(last.0, last.1, last.2)));
        assert(r.alerts.take(m.alerts.len() as int) =~= p.alerts.take(m.alerts.len() as int));
        assert forall|k: int| 0 <= k < items.len() implies {
            &&& (#[trigger] r.alerts[m.alerts.len() + k]).symbol == items[k].0
            &&& r.alerts[m.alerts.len() + k].raw_payload == items[k].1
        } by {
            if k < items.len() - 1 {
                assert(r.alerts[m.alerts.len() + k] == p.alerts[m.alerts.len() + k]);
                assert(prev_items[k] == items[k]);
            }
        }
    }
}

/// The newest alerts come newest first: ids strictly decrease, so none is
/// listed twice, and receipt times never increase.
pub proof fn lemma_recent_ordered(m: StoreModel, limit: nat)
    requires
        m.wf(),
    ensures
        m.recent(limit).len() == (if limit < m.alerts.len() { limit } else { m.alerts.len() }),
        forall|i: int, j: int|
            0 <= i < j < m.recent(limit).len() ==> (#[trigger] m.recent(limit)[i]).id > (
            #[trigger] m.recent(limit)[j]).id && m.recent(limit)[i].received_at
                >= m.recent(limit)[j].received_at,
{
    let r = m.recent(limit);
    let n = m.alerts.len();
    assert forall|i: int, j: int| 0 <= i < j < r.len() implies (#[trigger] r[i]).id > (
    #[trigger] r[j]).id && r[i].received_at >= r[j].received_at by {
        assert(r[i] == m.alerts[n - 1 - i]);
        assert(r[j] == m.alerts[n - 1 - j]);
    }
}

/// Appending `n` alerts to a store with room for them and then listing the
/// `n` newest gives exactly those alerts, the last appended first, each id
/// once, with receipt times that never increase.
pub proof fn lemma_recent_after_appends(m: StoreModel, items: Seq<(Seq<char>, Seq<char>, u64)>)
    requires
        m.wf(),
        m.alerts.len() + items.len() <= m.capacity,
        m.next_id + items.len() <= u64::MAX,
    ensures
        append_all(m, items).recent(items.len()).len() == items.len(),
        forall|k: int|
            0 <= k < items.len() ==> {
                &&& (#[trigger] append_all(m, items).recent(items.len())[k]).symbol
                    == items[items.len() - 1 - k].0
                &&& append_all(m, items).recent(items.len())[k].raw_payload == items[items.len()
                    - 1 - k].1
            },
        forall|i: int, j: int|
            0 <= i < j < items.len() ==> (#[trigger] append_all(m, items).recent(items.len())[i]).id
                > (#[trigger] append_all(m, items).recent(items.len())[j]).id
                && append_all(m, items).recent(items.len())[i].received_at >= append_all(
                m,
                items,
            ).recent(items.len())[j].received_at,
{
    lemma_appends_kept(m, items);
    let a = append_all(m, items);
    lemma_recent_ordered(a, items.len());
    let r = a.recent(items.len());
    let n = a.alerts.len();
    assert forall|k: int| 0 <= k < items.len() implies {
        &&& (#[trigger] r[k]).symbol == items[items.len() - 1 - k].0
        &&& r[k].raw_payload == items[items.len() - 1 - k].1
    } by {
        assert(r[k] == a.alerts[n - 1 - k]);
        assert(n - 1 - k == m.alerts.len() + (items.len() - 1 - k));
    }
}

/// Every alert listed for a symbol is for that symbol.
pub proof fn lemma_newest_for_symbol_only(s: Seq<AlertView>, sym: Seq<char>)
    ensures
        forall|i: int|
            0 <= i < newest_for_symbol(s, sym).len() ==> for_symbol(
                #[trigger] newest_for_symbol(s, sym)[i],
                sym,
            ),
    decreases s.len(),
{
    if s.len() > 0 {
        lemma_newest_for_symbol_only(s.skip(1), sym);
        let rest = newest_for_symbol(s.skip(1), sym);
        let all = newest_for_symbol(s, sym);
        assert forall|i: int| 0 <= i < all.len() implies for_symbol(#[trigger] all[i], sym) by {
            if i < rest.len() {
                assert(all[i] == rest[i]);
            }
        }
    }
}

/// A listing by symbol never holds an alert of another symbol.
pub proof fn lemma_recent_for_only_symbol(m: StoreModel, sym: Seq<char>, limit: nat)
    ensures
        forall|i: int|
            0 <= i < m.recent_for(sym, limit).len() ==> for_symbol(
                #[trigger] m.recent_for(sym, limit)[i],
                sym,
            ),
{
    lemma_newest_for_symbol_only(m.alerts, sym);
    let all = newest_for_symbol(m.alerts, sym);
    let r = m.recent_for(sym, limit);
    assert forall|i: int| 0 <= i < r.len() implies for_symbol(#[trigger] r[i], sym) by {
        assert(r[i] == all[i]);
    }
}

} // verus!
