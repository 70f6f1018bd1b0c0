use vstd::prelude::*;

use vstd::arithmetic::div_mod::lemma_div_by_multiple;
use vstd::arithmetic::div_mod::lemma_div_by_multiple_is_strongly_ordered;
use vstd::arithmetic::div_mod::lemma_div_multiples_vanish;
use vstd::arithmetic::div_mod::lemma_div_pos_is_pos;
use vstd::arithmetic::div_mod::lemma_fundamental_div_mod;
use vstd::arithmetic::div_mod::lemma_mod_bound;
use vstd::arithmetic::div_mod::lemma_multiply_divide_le;
use vstd::arithmetic::mul::lemma_mul_basics_1;
use vstd::arithmetic::mul::lemma_mul_basics_2;
use vstd::arithmetic::mul::lemma_mul_basics_3;
use vstd::arithmetic::mul::lemma_mul_basics_4;
use vstd::arithmetic::mul::lemma_mul_inequality;
use vstd::arithmetic::mul::lemma_mul_is_associative;
use vstd::arithmetic::mul::lemma_mul_is_commutative;
use vstd::arithmetic::mul::lemma_mul_is_distributive_add;
use vstd::arithmetic::mul::lemma_mul_is_distributive_add_other_way;
use vstd::arithmetic::mul::lemma_mul_is_distributive_sub;
use vstd::arithmetic::mul::lemma_mul_is_distributive_sub_other_way;
use vstd::arithmetic::mul::lemma_mul_left_inequality;
use vstd::arithmetic::mul::lemma_mul_nonnegative;
use vstd::arithmetic::mul::lemma_mul_strict_inequality_converse;
use vstd::arithmetic::mul::lemma_mul_strict_upper_bound;
use vstd::arithmetic::mul::lemma_mul_strictly_positive;

use crate::errors::VaultError;
use crate::fees::lemma_crystallize_in_range;
use crate::fees::spec_batch_outcome;
use crate::fees::spec_fee_eligible;
use crate::fees::sum_shares;
use crate::fees::lemma_sum_shares_nonneg;
use crate::flows::spec_deposit_error;
use crate::flows::spec_shares_to_mint;
use crate::flows::spec_withdraw_error;
use crate::state::ProtocolConfig;
use crate::state::UserPosition;
use crate::valuation::spec_user_balance;
use crate::valuation::spec_user_value_pool;
use crate::valuation::valuation_ok;

verus! {

/// Prepending one position adds exactly its shares to a ledger's total.
proof fn lemma_sum_shares_cons(p: UserPosition, ps: Seq<UserPosition>)
    ensures
        sum_shares(seq![p] + ps) == p.user_shares + sum_shares(ps),
{
    let whole = seq![p] + ps;
    assert(whole[0] == p);
    assert(whole.drop_first() =~= ps);
}

/// Replacing one position changes a ledger's total by exactly that
/// position's share delta.
proof fn lemma_sum_shares_update(ps: Seq<UserPosition>, i: int, p2: UserPosition)
    requires
        0 <= i < ps.len(),
    ensures
        sum_shares(ps.update(i, p2)) == sum_shares(ps) - ps[i].user_shares + p2.user_shares,
    decreases ps.len(),
{
    let after = ps.update(i, p2);
    if i == 0 {
        assert(after[0] == p2);
        assert(after.drop_first() =~= ps.drop_first());
    } else {
        assert(after[0] == ps[0]);
        assert(after.drop_first() =~= ps.drop_first().update(i - 1, p2));
        lemma_sum_shares_update(ps.drop_first(), i - 1, p2);
    }
}

/// Conservation under a single-position operation: deposit, withdraw and
/// single-user fee collection each promise that the pool total and the
/// touched position move by the same share delta, so a ledger whose shares
/// summed to the pool total before such an operation still sums to it
/// after the touched record is written back.
pub proof fn lemma_conservation_single_op(
    ps: Seq<UserPosition>,
    i: int,
    p2: UserPosition,
    c: ProtocolConfig,
    c2: ProtocolConfig,
)
    requires
        0 <= i < ps.len(),
        sum_shares(ps) == c.total_shares,
        c2.total_shares - c.total_shares == p2.user_shares - ps[i].user_shares,
    ensures
        sum_shares(ps.update(i, p2)) == c2.total_shares,
{
    lemma_sum_shares_update(ps, i, p2);
}

/// Conservation under batch fee collection: a successful batch moves
/// shares out of its positions and out of the pool total in lockstep, so
/// the gap between the pool total and the ledger's sum is unchanged — in
/// particular, a ledger that summed to the pool total still does.
pub proof fn lemma_conservation_batch(
    c: ProtocolConfig,
    ps: Seq<UserPosition>,
    treasury_balance: u64,
    now: i64,
)
    requires
        c.wf(),
        sum_shares(ps) <= c.total_shares,
    ensures
        spec_batch_outcome(c, ps, treasury_balance, now) matches Some(outcome) ==> outcome.0
            .total_shares - sum_shares(outcome.1) == c.total_shares - sum_shares(ps),
    decreases ps.len(),
{
    if ps.len() > 0 && spec_batch_outcome(c, ps, treasury_balance, now) is Some {
        let p = ps[0];
        let rest = ps.drop_first();
        lemma_sum_shares_nonneg(rest);
        if !spec_fee_eligible(p, now) {
            lemma_conservation_batch(c, rest, treasury_balance, now);
            let o = spec_batch_outcome(c, rest, treasury_balance, now);
            lemma_sum_shares_cons(p, o->Some_0.1);
        } else {
            let c1 = crate::fees::spec_config_after_fee(c, p, treasury_balance);
            let p1 = crate::fees::spec_position_after_fee(c, p, treasury_balance, now);
            lemma_crystallize_in_range(c, p, treasury_balance);
            lemma_conservation_batch(c1, rest, treasury_balance, now);
            let o = spec_batch_outcome(c1, rest, treasury_balance, now);
            if o is Some {
                lemma_sum_shares_cons(p1, o->Some_0.1);
            }
        }
    }
}

/// The liquidity gate: a withdrawal of more than the treasury's liquid
/// balance is rejected with `InsufficientLiquidity`, even when the user's
/// nominal balance covers the amount — deployed capital is not directly
/// withdrawable.
pub proof fn lemma_liquidity_gate(
    c: ProtocolConfig,
    p: UserPosition,
    treasury_balance: u64,
    amount: u64,
    max_shares: u64,
)
    requires
        !c.is_paused,
        valuation_ok(c, treasury_balance),
        amount <= spec_user_balance(c, p, treasury_balance),
        amount > treasury_balance,
    ensures
        spec_withdraw_error(c, p, treasury_balance, amount, max_shares) == Some(
            VaultError::InsufficientLiquidity,
        ),
{
}

/// Share-price consistency for fee-free, movement-free pools.
///
/// While the shareholder pool equals the shares outstanding — one unit per
/// share, the state every history of plain deposits and withdrawals
/// preserves, starting from the empty pool — nothing rounds: a deposit
/// mints exactly the amount, a withdrawal burns exactly the amount, a
/// user's claim is exactly their share count, and both operations leave
/// the pool at one unit per share again. A deposit-then-withdraw round
/// trip in such a pool therefore returns exactly what was deposited.
///
/// Away from this state the exactness breaks down in the integer
/// rounding; the deposit side is still bounded by
/// [`lemma_deposit_no_value_creation`].
pub proof fn lemma_unit_price_round_trip(
    c: ProtocolConfig,
    p: UserPosition,
    treasury_balance: u64,
    amount: u64,
)
    requires
        c.total_shares > 0,
        spec_user_value_pool(c, treasury_balance) == c.total_shares,
    ensures
        spec_shares_to_mint(c, treasury_balance, amount) == amount,
        crate::flows::spec_shares_to_burn(c, treasury_balance, amount) == amount,
        spec_user_balance(c, p, treasury_balance) == p.user_shares,
        spec_user_value_pool(c, treasury_balance) + amount == c.total_shares
            + spec_shares_to_mint(c, treasury_balance, amount),
        spec_user_value_pool(c, treasury_balance) - amount == c.total_shares
            - crate::flows::spec_shares_to_burn(c, treasury_balance, amount),
{
    let su = c.total_shares as int;
    lemma_div_by_multiple(amount as int, su);
    lemma_div_by_multiple(p.user_shares as int, su);
}

/// Minting never creates value: a successful deposit of `amount` raises
/// the depositor's redeemable balance by at most `amount`.
///
/// The one state excluded is a pool that carries value while no shares are
/// outstanding: there the first depositor's shares capture the unowned
/// value along with their own deposit.
pub proof fn lemma_deposit_no_value_creation(
    c: ProtocolConfig,
    p: UserPosition,
    treasury_balance: u64,
    amount: u64,
)
    requires
        p.user_shares <= c.total_shares,
        treasury_balance + amount <= u64::MAX,
        spec_deposit_error(c, p, treasury_balance, amount, 0) is None,
        c.total_shares == 0 ==> spec_user_value_pool(c, treasury_balance) == 0,
    ensures
        ({
            let minted = spec_shares_to_mint(c, treasury_balance, amount);
            let c2 = ProtocolConfig { total_shares: (c.total_shares + minted) as u64, ..c };
            let p2 = UserPosition {
                deposited_amount: (p.deposited_amount + amount) as u64,
                user_shares: (p.user_shares + minted) as u64,
                high_water_mark: (p.high_water_mark + amount) as u64,
                ..p
            };
            spec_user_balance(c2, p2, (treasury_balance + amount) as u64) <= spec_user_balance(
                c,
                p,
                treasury_balance,
            ) + amount
        }),
{
    let su = c.total_shares as int;
    let v = spec_user_value_pool(c, treasury_balance);
    let u = p.user_shares as int;
    let a = amount as int;
    let minted = spec_shares_to_mint(c, treasury_balance, amount);
    let c2 = ProtocolConfig { total_shares: (c.total_shares + minted) as u64, ..c };
    let p2 = UserPosition {
        deposited_amount: (p.deposited_amount + amount) as u64,
        user_shares: (p.user_shares + minted) as u64,
        high_water_mark: (p.high_water_mark + amount) as u64,
        ..p
    };
    let tb2 = (treasury_balance + amount) as u64;
    assert(spec_user_value_pool(c2, tb2) == v + a);

    if su == 0 {
        // Empty pool: the deposit mints one share per unit, and the new
        // balance is exactly the amount deposited.
        assert(minted == a);
        assert(u == 0);
        assert((a * (v + a)) / a == a) by {
            assert(v == 0);
            lemma_div_by_multiple(a, a);
        }
        assert(spec_user_balance(c2, p2, tb2) == a);
    } else {
        let b = spec_user_balance(c, p, treasury_balance);
        let m = minted;
        // Peel both floors off: u * v == su * b + r and a * su == v * m + s.
        lemma_fundamental_div_mod(u * v, su);
        lemma_mod_bound(u * v, su);
        let r = (u * v) % su;
        lemma_fundamental_div_mod(a * su, v);
        lemma_mod_bound(a * su, v);
        let s = (a * su) % v;
        assert(u * v == su * b + r);
        assert(a * su == v * m + s);

        // The old balance never exceeds the shareholder pool.
        lemma_mul_nonnegative(u, v);
        lemma_div_pos_is_pos(u * v, su);
        lemma_mul_inequality(u, su, v);
        lemma_multiply_divide_le(u * v, su, v);
        assert(0 <= b <= v);
        lemma_mul_nonnegative(a, su);
        lemma_div_pos_is_pos(a * su, v);
        assert(0 <= m);

        // The minted shares' claim cannot outgrow the deposit: multiply
        // the two division identities through by each other and compare
        // term by term.
        let x = su * b;
        let y = v * m;
        let z = su * v;

        // (u * v) * (a * su) rebracketed as (u * a) * (su * v).
        lemma_mul_is_associative(u, v, a * su);
        lemma_mul_is_associative(v, a, su);
        lemma_mul_is_commutative(v, a);
        lemma_mul_is_associative(a, v, su);
        lemma_mul_is_commutative(v, su);
        lemma_mul_is_associative(u, a, su * v);
        assert((u * a) * z == (u * v) * (a * su));

        // (su * b + r) * (v * m + s) expanded into four terms.
        lemma_mul_is_distributive_add_other_way(y + s, x, r);
        lemma_mul_is_distributive_add(x, y, s);
        lemma_mul_is_distributive_add(r, y, s);
        assert((x + r) * (y + s) == x * y + x * s + r * y + r * s);

        // x * y rebracketed as (b * m) * (su * v).
        lemma_mul_is_associative(su, b, v * m);
        lemma_mul_is_associative(b, v, m);
        lemma_mul_is_commutative(b, v);
        lemma_mul_is_associative(v, b, m);
        lemma_mul_is_associative(su, v, b * m);
        lemma_mul_is_commutative(su * v, b * m);
        assert(x * y == (b * m) * z);

        // Each remaining term is bounded by a multiple of su * v.
        lemma_mul_left_inequality(su, b, v);
        lemma_mul_inequality(x, z, s);
        lemma_mul_nonnegative(v, m);
        lemma_mul_inequality(r, su, y);
        lemma_mul_is_associative(su, v, m);
        assert(x * s <= z * s);
        assert(r * y <= z * m);
        if r == 0 || s == 0 {
            lemma_mul_basics_1(s);
            lemma_mul_basics_2(r);
            lemma_mul_strictly_positive(su, v);
            assert(r * s < z);
        } else {
            lemma_mul_strict_upper_bound(r, su, s, v);
            lemma_mul_is_distributive_sub(su - 1, v, 1);
            lemma_mul_is_distributive_sub_other_way(v, su, 1);
            lemma_mul_basics_3(su - 1);
            lemma_mul_basics_4(v);
            lemma_mul_is_commutative(su, v);
            assert((su - 1) * (v - 1) == su * v - v - su + 1);
            assert(r * s < z);
        }

        // Stitch the four bounds back together.
        lemma_mul_is_distributive_add_other_way(z, b * m + m + s, 1);
        lemma_mul_is_distributive_add_other_way(z, b * m + m, s);
        lemma_mul_is_distributive_add_other_way(z, b * m, m);
        lemma_mul_is_commutative(m, z);
        lemma_mul_is_commutative(s, z);
        lemma_mul_basics_4(z);
        assert((b * m + m + s + 1) * z == (b * m) * z + z * m + z * s + z);
        assert((u * a) * z < (b * m + m + s + 1) * z);
        lemma_mul_nonnegative(su, v);
        lemma_mul_strict_inequality_converse(u * a, b * m + m + s + 1, z);
        assert(u * a <= b * m + m + s);

        // Expand the goal product and compare against the expansion of
        // (b + a + 1) * (su + m) term by term.
        lemma_mul_is_distributive_add_other_way(v + a, u, m);
        lemma_mul_is_distributive_add(u, v, a);
        lemma_mul_is_distributive_add(m, v, a);
        assert((u + m) * (v + a) == u * v + u * a + m * v + m * a);
        lemma_mul_is_distributive_add(b + a + 1, su, m);
        lemma_mul_is_distributive_add_other_way(su, b + a, 1);
        lemma_mul_is_distributive_add_other_way(su, b, a);
        lemma_mul_is_distributive_add_other_way(m, b + a, 1);
        lemma_mul_is_distributive_add_other_way(m, b, a);
        lemma_mul_basics_4(su);
        lemma_mul_basics_4(m);
        assert((b + a + 1) * (su + m) == b * su + a * su + su + b * m + a * m + m);
        lemma_mul_is_commutative(su, b);
        lemma_mul_is_commutative(m, v);
        lemma_mul_is_commutative(m, a);
        assert((u + m) * (v + a) < (b + a + 1) * (su + m));

        // Therefore the new balance floor((u+m)(v+a)/(su+m)) stays within
        // b + a.
        lemma_mul_nonnegative(u + m, v + a);
        lemma_div_by_multiple_is_strongly_ordered(
            (u + m) * (v + a),
            (b + a + 1) * (su + m),
            b + a + 1,
            su + m,
        );
        lemma_div_multiples_vanish(b + a + 1, su + m);
        lemma_mul_is_commutative(su + m, b + a + 1);
        assert((u + m) * (v + a) / (su + m) < b + a + 1);
        assert(spec_user_balance(c2, p2, tb2) == (u + m) * (v + a) / (su + m));
    }
}

} // verus!

