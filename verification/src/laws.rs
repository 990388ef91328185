//! Properties of the vault that span several operations.
use vstd::prelude::*;

use crate::contract::{claim_amount, claim_refusal, claim_response, initial_vault, sent_total};
use crate::cosmos::{Coin, CoinView};
use crate::msg::InstantiateMsg;
use crate::text::decimal;
use crate::error::ContractError;
use crate::state::VaultView;

verus! {

/// A heartbeat at block `height` restarts the window: the vault is then expired at a
/// later block exactly when that block lies beyond `height` plus the heartbeat window.
pub proof fn heartbeat_restarts_window(v: VaultView, height: u64, later: u64)
    ensures
        v.with_heartbeat(height).expired_at(later) <==> later > height
            + v.config.heartbeat_window,
{
}

/// While the window that a heartbeat opened lasts, the beneficiary's claims are
/// refused as not expired.
pub proof fn heartbeat_holds_off_claims(v: VaultView, height: u64, later: u64)
    requires
        later <= height + v.config.heartbeat_window,
    ensures
        claim_refusal(v.with_heartbeat(height), v.config.beneficiary, later) == Some(
            ContractError::NotExpired {  },
        ),
{
}

/// The status query and the claim agree: at any block, the beneficiary's claim gets
/// past the liveness check exactly when the status reports the vault as expired.
pub proof fn status_agrees_with_claim(v: VaultView, height: u64)
    ensures
        claim_refusal(v, v.config.beneficiary, height) is None <==> v.expired_at(height),
{
}

/// Nobody but the beneficiary gets past the claim checks, at any block.
pub proof fn only_beneficiary_claims(v: VaultView, sender: Seq<char>, height: u64)
    requires
        sender != v.config.beneficiary,
    ensures
        claim_refusal(v, sender, height) == Some(ContractError::Unauthorized {  }),
{
}

/// The denomination is fixed at instantiation: neither a heartbeat nor a
/// configuration update changes it.
pub proof fn denom_never_changes(
    v: VaultView,
    height: u64,
    owner: Option<Seq<char>>,
    beneficiary: Option<Seq<char>>,
    heartbeat_window: Option<u64>,
)
    ensures
        v.with_heartbeat(height).config.denom == v.config.denom,
        v.with_update(owner, beneficiary, heartbeat_window).config.denom == v.config.denom,
{
}

/// A configuration update does not touch the heartbeat clock, and a heartbeat does
/// not touch the configuration.
pub proof fn update_and_heartbeat_are_independent(
    v: VaultView,
    height: u64,
    owner: Option<Seq<char>>,
    beneficiary: Option<Seq<char>>,
    heartbeat_window: Option<u64>,
)
    ensures
        v.with_update(owner, beneficiary, heartbeat_window).last_heartbeat == v.last_heartbeat,
        v.with_heartbeat(height).config == v.config,
        v.with_heartbeat(height).with_update(owner, beneficiary, heartbeat_window) == v.with_update(
            owner,
            beneficiary,
            heartbeat_window,
        ).with_heartbeat(height),
{
}

/// Every field of an update is optional: an update that gives none leaves the vault as it was.
pub proof fn empty_update_changes_nothing(v: VaultView)
    ensures
        v.with_update(None, None, None) == v,
{
}

/// Only the latest heartbeat counts.
pub proof fn latest_heartbeat_wins(v: VaultView, first: u64, second: u64)
    ensures
        v.with_heartbeat(first).with_heartbeat(second) == v.with_heartbeat(second),
{
}

/// The vault's invariant survives every change the owner can make: a heartbeat, and
/// any update whose heartbeat window, if given, is positive (the only kind that
/// `execute_update_config` accepts).
pub proof fn owner_changes_keep_invariant(
    v: VaultView,
    height: u64,
    owner: Option<Seq<char>>,
    beneficiary: Option<Seq<char>>,
    heartbeat_window: Option<u64>,
)
    requires
        v.wf(),
        heartbeat_window != Some(0u64),
    ensures
        v.with_heartbeat(height).wf(),
        v.with_update(owner, beneficiary, heartbeat_window).wf(),
{
}

/// The amount of `denom` sent with a list of coins is additive: for two lists joined
/// one after the other it is the sum of the amounts of each.
pub proof fn amount_sent_is_additive(f1: Seq<Coin>, f2: Seq<Coin>, denom: Seq<char>)
    ensures
        sent_total(f1 + f2, denom) == sent_total(f1, denom) + sent_total(f2, denom),
    decreases f2.len(),
{
    if f2.len() == 0 {
        assert(f1 + f2 =~= f1);
    } else {
        assert((f1 + f2).drop_last() =~= f1 + f2.drop_last());
        assert((f1 + f2).last() == f2.last());
        amount_sent_is_additive(f1, f2.drop_last(), denom);
    }
}

/// Taking the coin at index `i` out of a list lowers the amount sent by that coin's
/// share.
proof fn lemma_sent_total_remove(s: Seq<Coin>, i: int, denom: Seq<char>)
    requires
        0 <= i < s.len(),
    ensures
        sent_total(s, denom) == sent_total(s.remove(i), denom) + sent_total(seq![s[i]], denom),
{
    let front = s.take(i);
    let back = s.skip(i + 1);
    assert(s =~= front + seq![s[i]] + back);
    assert(s.remove(i) =~= front + back);
    amount_sent_is_additive(front + seq![s[i]], back, denom);
    amount_sent_is_additive(front, seq![s[i]], denom);
    amount_sent_is_additive(front, back, denom);
}

/// The amount of `denom` sent does not depend on the order of the coins: any two lists
/// holding the same coins, each as often, send the same amount.
pub proof fn amount_sent_ignores_order(f: Seq<Coin>, p: Seq<Coin>, denom: Seq<char>)
    requires
        f.to_multiset() == p.to_multiset(),
    ensures
        sent_total(f, denom) == sent_total(p, denom),
    decreases f.len(),
{
    broadcast use vstd::seq_lib::group_to_multiset_ensures, vstd::multiset::group_multiset_axioms;

    if f.len() == 0 {
        assert(p.to_multiset().len() == 0);
        assert(p.len() == 0);
        assert(f =~= p);
    } else {
        let rest = f.drop_last();
        let x = f.last();
        assert(rest.push(x) =~= f);
        assert(f.to_multiset() =~= rest.to_multiset().insert(x));
        assert(p.to_multiset().count(x) > 0);
        assert(p.contains(x));
        let j = choose|j: int| 0 <= j < p.len() && p[j] == x;
        assert(p.remove(j).to_multiset() == p.to_multiset().remove(p[j]));
        assert(p.remove(j).to_multiset() =~= rest.to_multiset());
        amount_sent_ignores_order(rest, p.remove(j), denom);
        lemma_sent_total_remove(p, j, denom);
        let single = seq![x];
        assert(single.drop_last() =~= Seq::<Coin>::empty());
        assert(sent_total(Seq::<Coin>::empty(), denom) == 0);
        assert(single.last() == x);
        assert(sent_total(single, denom) + sent_total(rest, denom) == sent_total(f, denom));
        assert(p[j] == x);
    }
}

/// A configuration update stores each value it gives, whatever the current value and
/// whatever else the update gives, and keeps every value it does not give.
pub proof fn update_stores_given_values(
    v: VaultView,
    owner: Option<Seq<char>>,
    beneficiary: Option<Seq<char>>,
    heartbeat_window: Option<u64>,
)
    ensures
        owner matches Some(o) ==> v.with_update(owner, beneficiary, heartbeat_window).config.owner
            == o,
        owner is None ==> v.with_update(owner, beneficiary, heartbeat_window).config.owner
            == v.config.owner,
        beneficiary matches Some(b) ==> v.with_update(
            owner,
            beneficiary,
            heartbeat_window,
        ).config.beneficiary == b,
        beneficiary is None ==> v.with_update(
            owner,
            beneficiary,
            heartbeat_window,
        ).config.beneficiary == v.config.beneficiary,
        heartbeat_window matches Some(w) ==> v.with_update(
            owner,
            beneficiary,
            heartbeat_window,
        ).config.heartbeat_window == w,
        heartbeat_window is None ==> v.with_update(
            owner,
            beneficiary,
            heartbeat_window,
        ).config.heartbeat_window == v.config.heartbeat_window,
{
}

/// A heartbeat records the block it was sent at, whether earlier or later than the
/// last one, and nothing else.
pub proof fn heartbeat_records_its_height(v: VaultView, height: u64)
    ensures
        v.with_heartbeat(height).last_heartbeat == height,
        v.with_heartbeat(height).config == v.config,
        v.with_heartbeat(height).expires_at() == height + v.config.heartbeat_window,
{
}

/// A new vault stores exactly what was asked for: the given owner (else the sender),
/// beneficiary, denomination and heartbeat window, with the clock started at the
/// current block; so it expires exactly one window after that block.
pub proof fn instantiate_stores_request(msg: InstantiateMsg, sender: Seq<char>, height: u64)
    ensures
        initial_vault(msg, sender, height).config.owner == match msg.owner {
            Some(o) => o@,
            None => sender,
        },
        initial_vault(msg, sender, height).config.beneficiary == msg.beneficiary@,
        initial_vault(msg, sender, height).config.denom == msg.denom@,
        initial_vault(msg, sender, height).config.heartbeat_window == msg.heartbeat_window,
        initial_vault(msg, sender, height).last_heartbeat == height,
        initial_vault(msg, sender, height).expires_at() == height + msg.heartbeat_window,
{
}

/// A claim's response reports the transfer it makes: one bank message of the claimed
/// amount in the vault's denomination, whose payee is the reported recipient, and
/// whose amount is the reported amount.
pub proof fn claim_response_reports_transfer(
    beneficiary: Seq<char>,
    recipient: Seq<char>,
    amount: u128,
    denom: Seq<char>,
)
    ensures
        ({
            let resp = claim_response(beneficiary, recipient, amount, denom);
            &&& resp.messages.len() == 1
            &&& resp.messages[0].to_address == recipient
            &&& resp.messages[0].amount == seq![CoinView { denom, amount }]
            &&& resp.attributes[1] == ("beneficiary"@, beneficiary)
            &&& resp.attributes[2] == ("recipient"@, resp.messages[0].to_address)
            &&& resp.attributes[3] == ("amount"@, decimal(resp.messages[0].amount[0].amount as nat))
            &&& resp.attributes[4] == ("denom"@, resp.messages[0].amount[0].denom)
        }),
{
}

/// A claim without an amount takes the whole balance; with one, exactly that amount.
pub proof fn claim_takes_what_is_asked(amount: u128, balance: u128)
    ensures
        claim_amount(None, balance) == balance,
        claim_amount(Some(amount), balance) == amount,
{
}

/// A coin counts toward a denomination with its full amount when its denomination is
/// exactly that one, and not at all otherwise; no coins count for nothing.
pub proof fn amount_sent_counts_matching_coins(c: Coin, denom: Seq<char>)
    ensures
        sent_total(seq![c], denom) == if c.denom@ == denom {
            c.amount as nat
        } else {
            0nat
        },
        sent_total(Seq::<Coin>::empty(), denom) == 0,
{
    let single = seq![c];
    assert(single.drop_last() =~= Seq::<Coin>::empty());
    assert(sent_total(Seq::<Coin>::empty(), denom) == 0);
    assert(single.last() == c);
}

/// Coins of other denominations never count: a list in which no coin has the
/// denomination sends none of it, and every coin that has it adds its whole amount.
pub proof fn amount_sent_ignores_other_denoms(f: Seq<Coin>, denom: Seq<char>)
    ensures
        (forall|i: int| 0 <= i < f.len() ==> f[i].denom@ != denom) ==> sent_total(f, denom) == 0,
        forall|i: int|
            0 <= i < f.len() && f[i].denom@ == denom ==> f[i].amount <= #[trigger] sent_total(
                f,
                denom,
            ),
    decreases f.len(),
{
    if f.len() > 0 {
        amount_sent_ignores_other_denoms(f.drop_last(), denom);
        assert forall|i: int|
            0 <= i < f.len() && f[i].denom@ == denom implies f[i].amount <= sent_total(
            f,
            denom,
        ) by {
            if i < f.len() - 1 {
                assert(f.drop_last()[i] == f[i]);
            }
        }
        if forall|i: int| 0 <= i < f.len() ==> f[i].denom@ != denom {
            assert forall|i: int| 0 <= i < f.drop_last().len() implies f.drop_last()[i].denom@
                != denom by {
                assert(f.drop_last()[i] == f[i]);
            }
            assert(f.last() == f[f.len() - 1]);
        }
    }
}

} // verus!
