//! A model of the ledger token service's balance bookkeeping.
//!
//! The processor only decides; the platform's token service moves the
//! balances.  This model gives those moves a semantics: what each emitted
//! action does to token balances and mint supplies, and when the service
//! rejects it (a missing account, an overdraft, an overflow).  The
//! lifecycle properties are stated and proved against this semantics, and
//! tests run whole scenarios through it.

use vstd::prelude::*;
use crate::addr::Addr;
use crate::action::{Action, ActionView};

verus! {

/// Token balances and mint supplies, by address.
#[verifier::ext_equal]
pub struct LedgerView {
    pub balances: Map<Seq<u8>, u64>,
    pub supplies: Map<Seq<u8>, u64>,
}

/// What one action does to the token state.  `None` is the service
/// rejecting the call: a missing account, an overdraft, an overflow, a
/// recreated account, or closing a non-empty one.  Actions that touch
/// only native balance or storage leave the token state unchanged.
pub open spec fn step(l: LedgerView, a: ActionView) -> Option<LedgerView> {
    match a {
        ActionView::Transfer { source, destination, authority, amount, seeds } => {
            if !l.balances.contains_key(source) || !l.balances.contains_key(destination) {
                None
            } else if l.balances[source] < amount {
                None
            } else if source == destination {
                Some(l)
            } else if l.balances[destination] + amount > u64::MAX {
                None
            } else {
                Some(
                    LedgerView {
                        balances: l.balances.insert(
                            source,
                            (l.balances[source] - amount) as u64,
                        ).insert(destination, (l.balances[destination] + amount) as u64),
                        supplies: l.supplies,
                    },
                )
            }
        },
        ActionView::MintTo { mint, destination, authority, amount, seeds } => {
            if !l.supplies.contains_key(mint) || !l.balances.contains_key(destination) {
                None
            } else if l.supplies[mint] + amount > u64::MAX {
                None
            } else if l.balances[destination] + amount > u64::MAX {
                None
            } else {
                Some(
                    LedgerView {
                        balances: l.balances.insert(
                            destination,
                            (l.balances[destination] + amount) as u64,
                        ),
                        supplies: l.supplies.insert(mint, (l.supplies[mint] + amount) as u64),
                    },
                )
            }
        },
        ActionView::Burn { source, mint, owner, amount } => {
            if !l.balances.contains_key(source) || !l.supplies.contains_key(mint) {
                None
            } else if l.balances[source] < amount || l.supplies[mint] < amount {
                None
            } else {
                Some(
                    LedgerView {
                        balances: l.balances.insert(source, (l.balances[source] - amount) as u64),
                        supplies: l.supplies.insert(mint, (l.supplies[mint] - amount) as u64),
                    },
                )
            }
        },
        ActionView::CreateAssociatedAccount { payer, wallet, mint, address } => {
            if l.balances.contains_key(address) {
                None
            } else {
                Some(LedgerView { balances: l.balances.insert(address, 0u64), supplies: l.supplies })
            }
        },
        ActionView::InitializeMint { mint, mint_authority, decimals } => {
            if l.supplies.contains_key(mint) {
                None
            } else {
                Some(LedgerView { balances: l.balances, supplies: l.supplies.insert(mint, 0u64) })
            }
        },
        ActionView::CloseAccount { account, destination, authority, seeds } => {
            if l.supplies.contains_key(account) {
                if l.supplies[account] == 0 {
                    Some(l)
                } else {
                    None
                }
            } else if l.balances.contains_key(account) {
                if l.balances[account] == 0 {
                    Some(l)
                } else {
                    None
                }
            } else {
                None
            }
        },
        _ => Some(l),
    }
}

/// Run a whole action sequence; the first rejected action rejects the
/// run, mirroring the platform's all-or-nothing execution.
pub open spec fn run(l: LedgerView, actions: Seq<ActionView>) -> Option<LedgerView>
    decreases actions.len(),
{
    if actions.len() == 0 {
        Some(l)
    } else {
        match step(l, actions[0]) {
            None => None,
            Some(l2) => run(l2, actions.drop_first()),
        }
    }
}

/// A run of a concatenation is the run of the first part, then of the
/// second on what the first produced.
pub proof fn lemma_run_concat(l: LedgerView, s1: Seq<ActionView>, s2: Seq<ActionView>)
    ensures
        run(l, s1 + s2) == (match run(l, s1) {
            None => None::<LedgerView>,
            Some(l2) => run(l2, s2),
        }),
    decreases s1.len(),
{
    if s1.len() == 0 {
        assert(s1 + s2 =~= s2);
    } else {
        assert((s1 + s2)[0] == s1[0]);
        match step(l, s1[0]) {
            None => {},
            Some(l2) => {
                assert((s1 + s2).drop_first() =~= s1.drop_first() + s2);
                lemma_run_concat(l2, s1.drop_first(), s2);
            },
        }
    }
}

/// The balance a key association list holds for a key: the first match.
pub open spec fn lookup(s: Seq<(Addr, u64)>, k: Seq<u8>) -> Option<u64>
    decreases s.len(),
{
    if s.len() == 0 {
        None
    } else if s[0].0@ == k {
        Some(s[0].1)
    } else {
        lookup(s.drop_first(), k)
    }
}

/// The map an association list denotes.
pub open spec fn assoc_map(s: Seq<(Addr, u64)>) -> Map<Seq<u8>, u64> {
    Map::new(|k: Seq<u8>| lookup(s, k) is Some, |k: Seq<u8>| lookup(s, k)->Some_0)
}

/// Appending a fresh key binds it and keeps every other key.
proof fn lemma_lookup_push(s: Seq<(Addr, u64)>, p: (Addr, u64), x: Seq<u8>)
    ensures
        lookup(s.push(p), x) == (if lookup(s, x) is Some {
            lookup(s, x)
        } else if x == p.0@ {
            Some(p.1)
        } else {
            None
        }),
    decreases s.len(),
{
    if s.len() == 0 {
        assert(s.push(p)[0] == p);
        assert(s.push(p).drop_first() =~= Seq::<(Addr, u64)>::empty());
        if x == p.0@ {
            assert(lookup(s.push(p), x) == Some(p.1));
        } else {
            assert(lookup(s.push(p), x) == lookup(s.push(p).drop_first(), x));
            assert(lookup(s.push(p), x) is None);
        }
    } else {
        assert(s.push(p)[0] == s[0]);
        assert(s.push(p).drop_first() =~= s.drop_first().push(p));
        lemma_lookup_push(s.drop_first(), p, x);
        if s[0].0@ == x {
            assert(lookup(s.push(p), x) == Some(s[0].1));
            assert(lookup(s, x) == Some(s[0].1));
        } else {
            assert(lookup(s.push(p), x) == lookup(s.drop_first().push(p), x));
            assert(lookup(s, x) == lookup(s.drop_first(), x));
        }
    }
}

/// Updating the first binding of a key rebinds it and keeps every other
/// key.
proof fn lemma_lookup_update(s: Seq<(Addr, u64)>, i: int, p: (Addr, u64), x: Seq<u8>)
    requires
        0 <= i < s.len(),
        s[i].0@ == p.0@,
        forall|j: int| 0 <= j < i ==> s[j].0@ != p.0@,
    ensures
        lookup(s.update(i, p), x) == (if x == p.0@ {
            Some(p.1)
        } else {
            lookup(s, x)
        }),
    decreases i,
{
    if i == 0 {
        assert(s.update(0, p)[0] == p);
        assert(s.update(0, p).drop_first() =~= s.drop_first());
    } else {
        assert(s.update(i, p)[0] == s[0]);
        assert(s.update(i, p).drop_first() =~= s.drop_first().update(i - 1, p));
        lemma_lookup_update(s.drop_first(), i - 1, p, x);
    }
}

/// The token service's state, for running scenarios.
pub struct TokenLedger {
    accounts: Vec<(Addr, u64)>,
    mints: Vec<(Addr, u64)>,
}

impl View for TokenLedger {
    type V = LedgerView;

    closed spec fn view(&self) -> LedgerView {
        LedgerView { balances: assoc_map(self.accounts@), supplies: assoc_map(self.mints@) }
    }
}

/// Find the first binding of `k`.
fn assoc_get(v: &Vec<(Addr, u64)>, k: &Addr) -> (r: Option<u64>)
    ensures
        r == lookup(v@, k@),
{
    let n = v.len();
    let mut i: usize = 0;
    proof {
        assert(v@.skip(0) =~= v@);
    }
    while i < n
        invariant
            0 <= i <= n == v@.len(),
            forall|j: int| 0 <= j < i ==> v@[j].0@ != k@,
            lookup(v@, k@) == lookup(v@.skip(i as int), k@),
        decreases n - i,
    {
        let hit = v[i].0 == *k;
        proof {
            assert(v@.skip(i as int)[0] == v@[i as int]);
            assert(v@.skip(i as int).drop_first() =~= v@.skip(i + 1));
        }
        if hit {
            return Some(v[i].1);
        }
        i += 1;
    }
    proof {
        assert(v@.skip(n as int) =~= Seq::<(Addr, u64)>::empty());
    }
    None
}

/// Bind `k` to `val`: rebind its first binding, or append a fresh one.
fn assoc_put(v: &mut Vec<(Addr, u64)>, k: Addr, val: u64)
    ensures
        forall|x: Seq<u8>|
            #[trigger] lookup(final(v)@, x) == (if x == k@ {
                Some(val)
            } else {
                lookup(old(v)@, x)
            }),
{
    let n = v.len();
    let mut i: usize = 0;
    while i < n
        invariant
            0 <= i <= n == v@.len(),
            v@ == old(v)@,
            forall|j: int| 0 <= j < i ==> v@[j].0@ != k@,
        decreases n - i,
    {
        let hit = v[i].0 == k;
        if hit {
            v.set(i, (k, val));
            proof {
                assert forall|x: Seq<u8>|
                    #[trigger] lookup(v@, x) == (if x == k@ {
                        Some(val)
                    } else {
                        lookup(old(v)@, x)
                    }) by {
                    lemma_lookup_update(old(v)@, i as int, (k, val), x);
                }
            }
            return ;
        }
        i += 1;
    }
    proof {
        lemma_lookup_none_of_all(v@, k@);
    }
    v.push((k, val));
    proof {
        assert forall|x: Seq<u8>|
            #[trigger] lookup(v@, x) == (if x == k@ {
                Some(val)
            } else {
                lookup(old(v)@, x)
            }) by {
            lemma_lookup_push(old(v)@, (k, val), x);
        }
    }
}

/// A key bound nowhere in the list looks up to nothing.
proof fn lemma_lookup_none_of_all(s: Seq<(Addr, u64)>, k: Seq<u8>)
    requires
        forall|j: int| 0 <= j < s.len() ==> s[j].0@ != k,
    ensures
        lookup(s, k) is None,
    decreases s.len(),
{
    if s.len() > 0 {
        lemma_lookup_none_of_all(s.drop_first(), k);
    }
}

impl TokenLedger {
    /// An empty ledger: no token accounts, no mints.
    pub fn new() -> (r: TokenLedger)
        ensures
            r@.balances =~= Map::<Seq<u8>, u64>::empty(),
            r@.supplies =~= Map::<Seq<u8>, u64>::empty(),
    {
        let r = TokenLedger { accounts: Vec::new(), mints: Vec::new() };
        proof {
            assert(r@.balances =~= Map::<Seq<u8>, u64>::empty());
            assert(r@.supplies =~= Map::<Seq<u8>, u64>::empty());
        }
        r
    }

    /// The balance of a token account, when it exists.
    pub fn balance_of(&self, a: &Addr) -> (r: Option<u64>)
        ensures
            r is Some <==> self@.balances.contains_key(a@),
            r matches Some(x) ==> x == self@.balances[a@],
    {
        assoc_get(&self.accounts, a)
    }

    /// The supply of a mint, when it exists.
    pub fn supply_of(&self, a: &Addr) -> (r: Option<u64>)
        ensures
            r is Some <==> self@.supplies.contains_key(a@),
            r matches Some(x) ==> x == self@.supplies[a@],
    {
        assoc_get(&self.mints, a)
    }

    /// Bind a token account's balance, creating the account if absent.
    pub fn set_balance(&mut self, a: Addr, v: u64)
        ensures
            final(self)@.balances =~= old(self)@.balances.insert(a@, v),
            final(self)@.supplies == old(self)@.supplies,
    {
        assoc_put(&mut self.accounts, a, v);
        proof {
            assert(self@.balances =~= old(self)@.balances.insert(a@, v));
        }
    }

    /// Bind a mint's supply, creating the mint if absent.
    pub fn set_supply(&mut self, a: Addr, v: u64)
        ensures
            final(self)@.supplies =~= old(self)@.supplies.insert(a@, v),
            final(self)@.balances == old(self)@.balances,
    {
        assoc_put(&mut self.mints, a, v);
        proof {
            assert(self@.supplies =~= old(self)@.supplies.insert(a@, v));
        }
    }

    /// Perform one action.  Returns whether the service accepted it; a
    /// rejected action leaves the state unchanged.
    pub fn apply(&mut self, a: &Action) -> (ok: bool)
        ensures
            match step(old(self)@, a.deep_view()) {
                Some(l2) => ok && final(self)@ =~= l2,
                None => !ok && final(self)@ =~= old(self)@,
            },
    {
        match a {
            Action::Transfer { source, destination, authority, amount, seeds } => {
                let bs = match self.balance_of(source) {
                    Some(x) => x,
                    None => {
                        return false;
                    },
                };
                let bd = match self.balance_of(destination) {
                    Some(x) => x,
                    None => {
                        return false;
                    },
                };
                if bs < *amount {
                    return false;
                }
                if *source == *destination {
                    return true;
                }
                if bd > u64::MAX - *amount {
                    return false;
                }
                self.set_balance(*source, bs - *amount);
                self.set_balance(*destination, bd + *amount);
                proof {
                    assert(self@ =~= step(old(self)@, a.deep_view())->Some_0);
                }
                true
            },
            Action::MintTo { mint, destination, authority, amount, seeds } => {
                let sm = match self.supply_of(mint) {
                    Some(x) => x,
                    None => {
                        return false;
                    },
                };
                let bd = match self.balance_of(destination) {
                    Some(x) => x,
                    None => {
                        return false;
                    },
                };
                if sm > u64::MAX - *amount {
                    return false;
                }
                if bd > u64::MAX - *amount {
                    return false;
                }
                self.set_balance(*destination, bd + *amount);
                self.set_supply(*mint, sm + *amount);
                proof {
                    assert(self@ =~= step(old(self)@, a.deep_view())->Some_0);
                }
                true
            },
            Action::Burn { source, mint, owner, amount } => {
                let bs = match self.balance_of(source) {
                    Some(x) => x,
                    None => {
                        return false;
                    },
                };
                let sm = match self.supply_of(mint) {
                    Some(x) => x,
                    None => {
                        return false;
                    },
                };
                if bs < *amount || sm < *amount {
                    return false;
                }
                self.set_balance(*source, bs - *amount);
                self.set_supply(*mint, sm - *amount);
                proof {
                    assert(self@ =~= step(old(self)@, a.deep_view())->Some_0);
                }
                true
            },
            Action::CreateAssociatedAccount { payer, wallet, mint, address } => {
                match self.balance_of(address) {
                    Some(x) => false,
                    None => {
                        self.set_balance(*address, 0);
                        proof {
                            assert(self@ =~= step(old(self)@, a.deep_view())->Some_0);
                        }
                        true
                    },
                }
            },
            Action::InitializeMint { mint, mint_authority, decimals } => {
                match self.supply_of(mint) {
                    Some(x) => false,
                    None => {
                        self.set_supply(*mint, 0);
                        proof {
                            assert(self@ =~= step(old(self)@, a.deep_view())->Some_0);
                        }
                        true
                    },
                }
            },
            Action::CloseAccount { account, destination, authority, seeds } => {
                match self.supply_of(account) {
                    Some(x) => x == 0,
                    None => match self.balance_of(account) {
                        Some(x) => x == 0,
                        None => false,
                    },
                }
            },
            _ => true,
        }
    }

    /// Perform a whole action sequence, stopping at the first rejection.
    pub fn apply_all(&mut self, actions: &Vec<Action>) -> (ok: bool)
        ensures
            match run(old(self)@, actions.deep_view()) {
                Some(l2) => ok && final(self)@ =~= l2,
                None => !ok,
            },
    {
        let n = actions.len();
        let mut i: usize = 0;
        proof {
            assert(actions.deep_view().skip(0) =~= actions.deep_view());
        }
        while i < n
            invariant
                0 <= i <= n == actions@.len(),
                n == actions.deep_view().len(),
                run(old(self)@, actions.deep_view()) == run(self@, actions.deep_view().skip(i as int)),
            decreases n - i,
        {
            proof {
                assert(actions.deep_view().skip(i as int)[0] == actions.deep_view()[i as int]);
                assert(actions.deep_view().skip(i as int).drop_first() =~= actions.deep_view().skip(
                    i + 1,
                ));
            }
            let ok = self.apply(&actions[i]);
            if !ok {
                return false;
            }
            i += 1;
        }
        proof {
            assert(actions.deep_view().skip(n as int) =~= Seq::<ActionView>::empty());
        }
        true
    }
}

} // verus!
