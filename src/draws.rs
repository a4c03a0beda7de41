//! The mathematical model of drawing from a seed: each draw of modulus `m`
//! yields the seed modulo `m` and leaves the seed divided by `m`.
use crate::svg::document_text;
use vstd::prelude::*;

verus! {

/// The values drawn from seed `s` with the moduli `ms`, in order.
pub open spec fn draws(s: nat, ms: Seq<nat>) -> Seq<nat>
    decreases ms.len(),
{
    if ms.len() == 0 {
        Seq::empty()
    } else {
        seq![s % ms[0]] + draws(s / ms[0], ms.drop_first())
    }
}

/// The seed left after drawing with the moduli `ms` from seed `s`.
pub open spec fn after_draws(s: nat, ms: Seq<nat>) -> nat
    decreases ms.len(),
{
    if ms.len() == 0 {
        s
    } else {
        after_draws(s / ms[0], ms.drop_first())
    }
}

/// The moduli `n, n - 1, ..., 1` of a destructive shuffle of `n` items.
pub open spec fn countdown(n: nat) -> Seq<nat>
    decreases n,
{
    if n == 0 {
        Seq::empty()
    } else {
        seq![n] + countdown((n - 1) as nat)
    }
}

/// Destructive shuffle: repeatedly remove and emit the item at the next pick.
pub open spec fn shuffled<A>(items: Seq<A>, picks: Seq<nat>) -> Seq<A>
    decreases items.len(),
{
    if items.len() == 0 || picks.len() == 0 || picks[0] >= items.len() {
        Seq::empty()
    } else {
        seq![items[picks[0] as int]] + shuffled(items.remove(picks[0] as int), picks.drop_first())
    }
}

/// Machine indices as natural numbers.
pub open spec fn nats(s: Seq<usize>) -> Seq<nat> {
    s.map_values(|x: usize| x as nat)
}

/// Shuffling commutes with reading indices as natural numbers.
pub proof fn lemma_shuffled_map(items: Seq<usize>, picks: Seq<nat>)
    ensures
        nats(shuffled(items, picks)) == shuffled(nats(items), picks),
    decreases items.len(),
{
    if items.len() == 0 || picks.len() == 0 || picks[0] >= items.len() {
        assert(nats(shuffled(items, picks)) =~= Seq::<nat>::empty());
    } else {
        let k = picks[0] as int;
        lemma_shuffled_map(items.remove(k), picks.drop_first());
        assert(nats(items.remove(k)) =~= nats(items).remove(k));
        assert(nats(shuffled(items, picks)) =~= seq![items[k] as nat] + nats(
            shuffled(items.remove(k), picks.drop_first()),
        ));
    }
}

/// A shuffle emits only items it was given.
pub proof fn lemma_shuffled_within<A>(items: Seq<A>, picks: Seq<nat>)
    ensures
        forall|i: int|
            0 <= i < shuffled(items, picks).len() ==> items.contains(
                #[trigger] shuffled(items, picks)[i],
            ),
    decreases items.len(),
{
    if items.len() == 0 || picks.len() == 0 || picks[0] >= items.len() {
    } else {
        let k = picks[0] as int;
        let rest = items.remove(k);
        lemma_shuffled_within(rest, picks.drop_first());
        let out = shuffled(items, picks);
        assert forall|i: int| 0 <= i < out.len() implies items.contains(#[trigger] out[i]) by {
            if i == 0 {
                assert(items[k] == out[0]);
            } else {
                let j = i - 1;
                assert(out[i] == shuffled(rest, picks.drop_first())[j]);
                assert(rest.contains(out[i]));
                let m = choose|m: int| 0 <= m < rest.len() && rest[m] == out[i];
                if m < k {
                    assert(items[m] == out[i]);
                } else {
                    assert(items[m + 1] == out[i]);
                }
            }
        }
    }
}

/// Palette size: the modulus of each color draw.
pub open spec fn color_modulus() -> nat {
    36
}

/// Rotation range: the modulus of the rotation draw.
pub open spec fn rotation_modulus() -> nat {
    359
}

/// The moduli of the three color draws.
pub open spec fn color_moduli() -> Seq<nat> {
    seq![color_modulus(), color_modulus(), color_modulus()]
}

/// The templates in definition order: first ellipse, path, second ellipse.
pub open spec fn template_order() -> Seq<nat> {
    seq![0nat, 1nat, 2nat]
}

/// Palette indices of the colors of the three templates, for seed `s`.
pub open spec fn colors_of(s: nat) -> Seq<nat> {
    draws(s, color_moduli())
}

/// The seed left once the colors are drawn.
pub open spec fn after_colors(s: nat) -> nat {
    after_draws(s, color_moduli())
}

/// The positions picked by the shuffle of the three templates, for seed `s`.
pub open spec fn shuffle_picks_of(s: nat) -> Seq<nat> {
    draws(after_colors(s), countdown(3))
}

/// The order in which the templates are drawn, bottom to top, for seed `s`.
pub open spec fn order_of(s: nat) -> Seq<nat> {
    shuffled(template_order(), shuffle_picks_of(s))
}

/// The seed left once the colors and the order are drawn.
pub open spec fn after_order(s: nat) -> nat {
    after_draws(after_colors(s), countdown(3))
}

/// The rotation in degrees, for seed `s`.
pub open spec fn rotation_of(s: nat) -> nat {
    after_order(s) % rotation_modulus()
}

/// The seed left once the whole design is drawn.
pub open spec fn after_design(s: nat) -> nat {
    after_order(s) / rotation_modulus()
}

/// The vector document for seed `s`.
pub open spec fn svg_of(s: nat) -> Seq<char> {
    document_text(colors_of(s), order_of(s), rotation_of(s))
}

/// Every modulus drawn while making a design, in draw order.
pub open spec fn design_moduli() -> Seq<nat> {
    color_moduli() + countdown(3) + seq![rotation_modulus()]
}

/// Every value drawn while making a design from seed `s`, in draw order.
pub open spec fn design_draws(s: nat) -> Seq<nat> {
    draws(s, design_moduli())
}

} // verus!
