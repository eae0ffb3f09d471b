use vstd::prelude::*;

use crate::bet::Bet;

verus! {

/// Per-owner, append-only list of bet identifiers. Identifiers are
/// indices into the engine's arena of bets.
#[derive(Debug)]
pub struct UserBets {
    /// Identity of the owner.
    pub user: u64,
    /// The owner's bets, in order of placement.
    pub bet_ids: Vec<usize>,
}

/// No two registry entries belong to the same owner.
pub open spec fn users_unique(reg: Seq<UserBets>) -> bool {
    forall|i: int, j: int|
        0 <= i < j < reg.len() ==> (#[trigger] reg[i].user) != (#[trigger] reg[j].user)
}

/// Every recorded identifier points at a bet of the arena, and that bet
/// belongs to the entry's owner.
pub open spec fn registry_ids_wf(reg: Seq<UserBets>, bets: Seq<Bet>) -> bool {
    forall|i: int, k: int|
        0 <= i < reg.len() && 0 <= k < reg[i].bet_ids@.len() ==> (#[trigger] reg[i].bet_ids@[k])
            < bets.len() && bets[reg[i].bet_ids@[k] as int].user == reg[i].user
}

/// Well-formedness of the whole registry against the arena of bets.
pub open spec fn registry_wf(reg: Seq<UserBets>, bets: Seq<Bet>) -> bool {
    users_unique(reg) && registry_ids_wf(reg, bets)
}

/// Some registry entry belongs to `user`.
pub open spec fn has_user(reg: Seq<UserBets>, user: u64) -> bool {
    exists|i: int| 0 <= i < reg.len() && (#[trigger] reg[i].user) == user
}

/// `after` is `before` with `id` recorded under `user`: the owner's entry
/// gained `id` at its end (created on first use), every other entry is
/// unchanged.
pub open spec fn registry_appended(
    before: Seq<UserBets>,
    after: Seq<UserBets>,
    user: u64,
    id: usize,
) -> bool {
    if has_user(before, user) {
        &&& after.len() == before.len()
        &&& exists|i: int|
            0 <= i < before.len() && (#[trigger] before[i].user) == user && after[i].user == user
                && after[i].bet_ids@ == before[i].bet_ids@.push(id) && (forall|j: int|
                0 <= j < before.len() && j != i ==> after[j] == before[j])
    } else {
        &&& after.len() == before.len() + 1
        &&& (forall|j: int| 0 <= j < before.len() ==> after[j] == before[j])
        &&& after[before.len() as int].user == user
        &&& after[before.len() as int].bet_ids@ == seq![id]
    }
}

/// Record `id` under `user`, creating the owner's entry on first use.
pub fn registry_append(reg: &mut Vec<UserBets>, user: u64, id: usize)
    requires
        users_unique(old(reg)@),
    ensures
        registry_appended(old(reg)@, final(reg)@, user, id),
        users_unique(final(reg)@),
{
    let n = reg.len();
    let mut i: usize = 0;
    while i < n
        invariant
            i <= n,
            n == reg@.len(),
            *reg == *old(reg),
            users_unique(reg@),
            forall|j: int| 0 <= j < i ==> (#[trigger] reg@[j].user) != user,
        decreases n - i,
    {
        if reg[i].user == user {
            let entry = &mut reg[i];
            entry.bet_ids.push(id);
            proof {
                assert(has_user(old(reg)@, user));
                let ghost fi = i as int;
                assert(0 <= fi < old(reg)@.len() && old(reg)@[fi].user == user && reg@[fi].user
                    == user && reg@[fi].bet_ids@ == old(reg)@[fi].bet_ids@.push(id) && (forall|
                    j: int,
                |
                    0 <= j < old(reg)@.len() && j != fi ==> reg@[j] == old(reg)@[j]));
                assert(forall|j: int|
                    0 <= j < reg@.len() ==> (#[trigger] reg@[j].user) == old(reg)@[j].user);
            }
            return ;
        }
        i = i + 1;
    }
    let mut first: Vec<usize> = Vec::new();
    first.push(id);
    reg.push(UserBets { user, bet_ids: first });
    proof {
        assert(!has_user(old(reg)@, user));
        assert(reg@[old(reg)@.len() as int].bet_ids@ =~= seq![id]);
    }
}

} // verus!
