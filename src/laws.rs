//! Laws of the draw model: which draws a seed yields, and how much of the
//! seed each one depends on.
use crate::draws::{
    after_colors, after_design, after_draws, after_order, color_moduli, colors_of, countdown, design_draws,
    design_moduli, draws, order_of, shuffled, rotation_of, shuffle_picks_of, template_order,
};
use vstd::arithmetic::div_mod::{lemma_fundamental_div_mod_converse, lemma_mod_breakdown};
use vstd::prelude::*;

verus! {

/// The product of the moduli.
pub open spec fn product(ms: Seq<nat>) -> nat
    decreases ms.len(),
{
    if ms.len() == 0 {
        1
    } else {
        ms[0] * product(ms.drop_first())
    }
}

/// Every modulus is positive.
pub open spec fn all_positive(ms: Seq<nat>) -> bool {
    forall|i: int| 0 <= i < ms.len() ==> #[trigger] ms[i] > 0
}

proof fn lemma_all_positive_rest(ms: Seq<nat>)
    requires
        all_positive(ms),
        ms.len() > 0,
    ensures
        all_positive(ms.drop_first()),
{
    assert forall|i: int| 0 <= i < ms.drop_first().len() implies #[trigger] ms.drop_first()[i] > 0 by {
        assert(ms[i + 1] > 0);
    }
}

proof fn lemma_product_positive(ms: Seq<nat>)
    requires
        all_positive(ms),
    ensures
        product(ms) > 0,
    decreases ms.len(),
{
    if ms.len() > 0 {
        assert(ms[0] > 0);
        lemma_all_positive_rest(ms);
        lemma_product_positive(ms.drop_first());
        vstd::arithmetic::mul::lemma_mul_strictly_positive(ms[0] as int, product(ms.drop_first()) as int);
    }
}

/// One value is drawn per modulus, and each lies below its modulus.
pub proof fn lemma_draws_below(s: nat, ms: Seq<nat>)
    requires
        all_positive(ms),
    ensures
        draws(s, ms).len() == ms.len(),
        forall|i: int| 0 <= i < ms.len() ==> #[trigger] draws(s, ms)[i] < ms[i],
    decreases ms.len(),
{
    if ms.len() > 0 {
        assert(ms[0] > 0);
        let rest = ms.drop_first();
        lemma_all_positive_rest(ms);
        lemma_draws_below(s / ms[0], rest);
        assert forall|i: int| 0 <= i < ms.len() implies #[trigger] draws(s, ms)[i] < ms[i] by {
            if i > 0 {
                assert(draws(s, ms)[i] == draws(s / ms[0], rest)[i - 1]);
            }
        }
    }
}

/// Drawing with moduli `a` then `b` is drawing with `a + b`.
pub proof fn lemma_draws_append(s: nat, a: Seq<nat>, b: Seq<nat>)
    requires
        all_positive(a),
    ensures
        draws(s, a + b) == draws(s, a) + draws(after_draws(s, a), b),
        after_draws(s, a + b) == after_draws(after_draws(s, a), b),
    decreases a.len(),
{
    if a.len() == 0 {
        assert(a + b =~= b);
        assert(draws(s, a) + draws(s, b) =~= draws(s, b));
    } else {
        assert((a + b)[0] == a[0]);
        assert((a + b).drop_first() =~= a.drop_first() + b);
        let x = a[0];
        assert(x > 0);
        lemma_all_positive_rest(a);
        lemma_draws_append(s / x, a.drop_first(), b);
        assert(draws(s, a + b) == seq![s % x] + draws(s / x, (a + b).drop_first()));
        assert(draws(s, a) == seq![s % x] + draws(s / x, a.drop_first()));
        assert(after_draws(s, a) == after_draws(s / x, a.drop_first()));
        assert(after_draws(s, a + b) == after_draws(s / x, (a + b).drop_first()));
        assert(draws(s, a + b) =~= draws(s, a) + draws(after_draws(s, a), b));
    }
}

/// The first `k` draws do not depend on the moduli of later draws.
pub proof fn lemma_draws_prefix(s: nat, ms: Seq<nat>, k: int)
    requires
        all_positive(ms),
        0 <= k <= ms.len(),
    ensures
        draws(s, ms.take(k)) == draws(s, ms).take(k),
    decreases ms.len(),
{
    if k == 0 {
        assert(draws(s, ms).take(0) =~= Seq::<nat>::empty());
    } else {
        assert(ms.take(k)[0] == ms[0]);
        assert(ms.take(k).drop_first() =~= ms.drop_first().take(k - 1));
        let x = ms[0];
        assert(x > 0);
        lemma_all_positive_rest(ms);
        lemma_draws_prefix(s / x, ms.drop_first(), k - 1);
        lemma_draws_below(s / x, ms.drop_first());
        assert(draws(s, ms.take(k)) == seq![s % x] + draws(s / x, ms.take(k).drop_first()));
        assert(draws(s, ms) == seq![s % x] + draws(s / x, ms.drop_first()));
        assert(draws(s, ms.take(k)) =~= draws(s, ms).take(k));
    }
}

/// One draw of modulus `m` from seeds that agree modulo `m * k` yields the
/// same value and leaves seeds that agree modulo `k`: a draw never depends on
/// what later draws will take.
pub proof fn law_draw_depends_on_residue(s: nat, t: nat, m: nat, k: nat)
    requires
        m > 0,
        k > 0,
        s % (m * k) == t % (m * k),
    ensures
        s % m == t % m,
        (s / m) % k == (t / m) % k,
{
    lemma_mod_breakdown(s as int, m as int, k as int);
    lemma_mod_breakdown(t as int, m as int, k as int);
    let a = (s / m) % k;
    let b = (t / m) % k;
    lemma_fundamental_div_mod_converse((m * a + s % m) as int, m as int, a as int, (s % m) as int);
    lemma_fundamental_div_mod_converse((m * b + t % m) as int, m as int, b as int, (t % m) as int);
}

/// From seed zero every shuffle pick is 0, so the items come out in their
/// given order, and the seed stays zero.
pub proof fn law_zero_seed_shuffle<A>(items: Seq<A>)
    ensures
        shuffled(items, draws(0, countdown(items.len()))) == items,
        after_draws(0, countdown(items.len())) == 0,
    decreases items.len(),
{
    let n = items.len();
    if n > 0 {
        let ms = countdown(n);
        assert(ms[0] == n);
        assert(ms.drop_first() =~= countdown((n - 1) as nat));
        let ps = draws(0, ms);
        assert(ps[0] == 0);
        assert(ps.drop_first() =~= draws(0, countdown((n - 1) as nat)));
        let rest = items.remove(0);
        assert(rest.len() == n - 1);
        law_zero_seed_shuffle(rest);
        assert(shuffled(items, ps) =~= seq![items[0]] + rest);
        assert(seq![items[0]] + rest =~= items);
    } else {
        assert(shuffled(items, draws(0, countdown(0))) =~= items);
    }
}

/// Draws with positive moduli depend only on the seed modulo the product of
/// the moduli.
pub proof fn lemma_draws_determined(s: nat, t: nat, ms: Seq<nat>)
    requires
        all_positive(ms),
        s % product(ms) == t % product(ms),
    ensures
        draws(s, ms) == draws(t, ms),
    decreases ms.len(),
{
    if ms.len() > 0 {
        let m = ms[0];
        let rest = ms.drop_first();
        assert(m > 0);
        lemma_all_positive_rest(ms);
        lemma_product_positive(rest);
        law_draw_depends_on_residue(s, t, m, product(rest));
        lemma_draws_determined(s / m, t / m, rest);
    }
}

/// The design draws, stage by stage: three colors, the shuffle picks, the
/// rotation.
pub proof fn lemma_design_draws(s: nat)
    ensures
        design_draws(s) == colors_of(s) + shuffle_picks_of(s) + seq![rotation_of(s)],
{
    let c = color_moduli();
    let k = countdown(3);
    let r = seq![359nat];
    reveal_with_fuel(countdown, 4);
    assert(all_positive(c));
    assert(all_positive(c + k));
    assert(design_moduli() =~= c + k + r);
    assert(r[0] == 359);
    assert(r.drop_first() =~= Seq::<nat>::empty());
    lemma_draws_append(s, c, k);
    lemma_draws_append(s, c + k, r);
    assert(after_draws(s, c + k) == after_order(s));
    let x = after_order(s);
    assert(draws(x, r) == seq![x % 359] + draws(x / 359, r.drop_first()));
    assert(draws(x / 359, r.drop_first()) == Seq::<nat>::empty());
    assert(draws(x, r) =~= seq![rotation_of(s)]);
}

/// The order in which values are drawn is fixed: three colors modulo 36,
/// shuffle picks modulo 3, 2 and 1, and the rotation modulo 359.
pub proof fn law_design_moduli()
    ensures
        design_moduli() == seq![36nat, 36nat, 36nat, 3nat, 2nat, 1nat, 359nat],
{
    reveal_with_fuel(countdown, 4);
    assert(design_moduli() =~= seq![36nat, 36nat, 36nat, 3nat, 2nat, 1nat, 359nat]);
}

/// Every color index is below 36, each shuffle pick below the number of
/// templates left (3, 2, 1), and the rotation below 359; the drawing order
/// names each template exactly once.
pub proof fn law_ranges(s: nat)
    ensures
        colors_of(s).len() == 3,
        forall|i: int| 0 <= i < 3 ==> #[trigger] colors_of(s)[i] < 36,
        shuffle_picks_of(s).len() == 3,
        forall|i: int| 0 <= i < 3 ==> #[trigger] shuffle_picks_of(s)[i] < 3 - i,
        rotation_of(s) < 359,
        order_of(s).len() == 3,
        forall|t: nat| t < 3 ==> #[trigger] order_of(s).contains(t),
{
    let c = color_moduli();
    let k = countdown(3);
    reveal_with_fuel(countdown, 4);
    assert(k =~= seq![3nat, 2nat, 1nat]);
    assert(all_positive(c));
    assert(all_positive(k));
    lemma_draws_below(s, c);
    lemma_draws_below(after_colors(s), k);
    assert forall|i: int| 0 <= i < 3 implies #[trigger] shuffle_picks_of(s)[i] < 3 - i by {
        assert(k[i] == 3 - i);
    }
    lemma_order_is_permutation(s);
}

/// Two seeds that agree modulo the product of the first `k` design moduli
/// agree on the first `k` design draws, whatever they hold beyond: a draw
/// depends only on the draws before it.
pub proof fn law_draws_depend_on_prefix(s: nat, t: nat, k: int)
    requires
        0 <= k <= 7,
        s % product(design_moduli().take(k)) == t % product(design_moduli().take(k)),
    ensures
        design_draws(s).take(k) == design_draws(t).take(k),
{
    law_design_moduli();
    let ms = design_moduli();
    assert(all_positive(ms));
    assert(all_positive(ms.take(k)));
    lemma_draws_prefix(s, ms, k);
    lemma_draws_prefix(t, ms, k);
    lemma_draws_determined(s, t, ms.take(k));
}

/// The first color depends only on the seed modulo 36.
pub proof fn law_first_color(s: nat, t: nat)
    requires
        s % 36 == t % 36,
    ensures
        colors_of(s)[0] == colors_of(t)[0],
{
    law_design_moduli();
    let ms = design_moduli();
    assert(ms.take(1).drop_first() =~= Seq::<nat>::empty());
    assert(ms.take(1)[0] == 36);
    assert(product(ms.take(1).drop_first()) == 1);
    assert(product(ms.take(1)) == 36);
    law_draws_depend_on_prefix(s, t, 1);
    lemma_design_draws(s);
    lemma_design_draws(t);
    assert(design_draws(s)[0] == design_draws(s).take(1)[0]);
    assert(design_draws(t)[0] == design_draws(t).take(1)[0]);
    law_ranges(s);
    law_ranges(t);
}

/// Seed zero draws color 0 three times, picks 0 at every shuffle step (so
/// the templates keep their definition order), rotation 0, and leaves 0.
pub proof fn law_zero_seed()
    ensures
        colors_of(0) == seq![0nat, 0nat, 0nat],
        shuffle_picks_of(0) == seq![0nat, 0nat, 0nat],
        order_of(0) == template_order(),
        rotation_of(0) == 0,
        after_design(0) == 0,
{
    reveal_with_fuel(draws, 4);
    reveal_with_fuel(after_draws, 4);
    reveal_with_fuel(countdown, 4);
    reveal_with_fuel(crate::draws::shuffled, 4);
    let c = color_moduli();
    assert(c.drop_first().drop_first().drop_first() =~= Seq::<nat>::empty());
    assert(colors_of(0) =~= seq![0nat, 0nat, 0nat]);
    assert(after_colors(0) == 0);
    let k = countdown(3);
    assert(k =~= seq![3nat, 2nat, 1nat]);
    assert(k.drop_first().drop_first().drop_first() =~= Seq::<nat>::empty());
    assert(shuffle_picks_of(0) =~= seq![0nat, 0nat, 0nat]);
    assert(after_order(0) == 0);
    let t = template_order();
    let p = shuffle_picks_of(0);
    assert(t.remove(0) =~= seq![1nat, 2nat]);
    assert(t.remove(0).remove(0) =~= seq![2nat]);
    assert(t.remove(0).remove(0).remove(0) =~= Seq::<nat>::empty());
    assert(p.drop_first() =~= seq![0nat, 0nat]);
    assert(p.drop_first().drop_first() =~= seq![0nat]);
    assert(order_of(0) =~= template_order());
}

proof fn lemma_order_is_permutation(s: nat)
    requires
        shuffle_picks_of(s).len() == 3,
        forall|i: int| 0 <= i < 3 ==> #[trigger] shuffle_picks_of(s)[i] < 3 - i,
    ensures
        order_of(s).len() == 3,
        forall|t: nat| t < 3 ==> #[trigger] order_of(s).contains(t),
{
    let p = shuffle_picks_of(s);
    assert(p[0] < 3 && p[1] < 2 && p[2] < 1);
    reveal_with_fuel(crate::draws::shuffled, 4);
    let o = order_of(s);
    let t = template_order();
    let r1 = t.remove(p[0] as int);
    let p1 = p.drop_first();
    let r2 = r1.remove(p1[0] as int);
    let p2 = p1.drop_first();
    let r3 = r2.remove(p2[0] as int);
    assert(r3.len() == 0);
    assert(o =~= seq![t[p[0] as int], r1[p1[0] as int], r2[p2[0] as int]]);
    assert(o.contains(o[0]) && o.contains(o[1]) && o.contains(o[2]));
    if p[0] == 0 {
        if p[1] == 0 {
            assert(o =~= seq![0nat, 1nat, 2nat]);
        } else {
            assert(o =~= seq![0nat, 2nat, 1nat]);
        }
    } else if p[0] == 1 {
        if p[1] == 0 {
            assert(o =~= seq![1nat, 0nat, 2nat]);
        } else {
            assert(o =~= seq![1nat, 2nat, 0nat]);
        }
    } else {
        if p[1] == 0 {
            assert(o =~= seq![2nat, 0nat, 1nat]);
        } else {
            assert(o =~= seq![2nat, 1nat, 0nat]);
        }
    }
}

} // verus!
