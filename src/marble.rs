//! A marble: a seed together with the design drawn from it, drawn at most
//! once and kept.
use crate::draws::{
    after_colors, after_design, after_draws, color_moduli, color_modulus, colors_of, countdown,
    draws, lemma_shuffled_map, lemma_shuffled_within, nats, order_of, rotation_modulus, svg_of, rotation_of,
    shuffled, template_order,
};
use crate::palette::{palette, palette_color, PALETTE_LEN};
use crate::render::{outcome_view, png_has_size, render_outcome, render_svg, RenderError};
use crate::seed::{SeedFormatError, Seedable, U256};
use crate::svg::{build_document, TEMPLATE_COUNT};
use vstd::prelude::*;

verus! {

/// The drawn design: a palette index per template, a drawing order and a
/// rotation.
struct Design {
    colors: [usize; 3],
    order: Vec<usize>,
    rotation: u64,
}

/// One generated artwork, tied to one seed.
pub struct Marble {
    seed: U256,
    design: Option<Design>,
    origin: Ghost<nat>,
}

impl Marble {
    /// The seed the marble was created with.
    pub closed spec fn origin(&self) -> nat {
        self.origin@
    }

    /// Whether the design has been drawn already.
    pub closed spec fn is_drawn(&self) -> bool {
        self.design is Some
    }

    /// The seed value not yet consumed by draws.
    pub closed spec fn remaining(&self) -> nat {
        self.seed@
    }

    /// The seed consumed so far matches the draws made, and a kept design is
    /// the one drawn from the seed the marble was created with.
    pub closed spec fn wf(&self) -> bool {
        match self.design {
            None => self.seed@ == self.origin@,
            Some(d) => {
                &&& self.seed@ == after_design(self.origin@)
                &&& nats(d.colors@) == colors_of(self.origin@)
                &&& nats(d.order@) == order_of(self.origin@)
                &&& d.rotation as nat == rotation_of(self.origin@)
                &&& forall|i: int| 0 <= i < 3 ==> #[trigger] d.colors@[i] < PALETTE_LEN
                &&& forall|i: int| 0 <= i < d.order@.len() ==> #[trigger] d.order@[i] < TEMPLATE_COUNT
            },
        }
    }

    /// Creates a marble from an integer seed or its decimal text; fails when
    /// the value is no valid seed.
    pub fn new<S: Seedable>(seed: S) -> (r: Result<Marble, SeedFormatError>)
        ensures
            match seed.seed_value() {
                Some(v) => {
                    &&& r is Ok
                    &&& r->Ok_0.wf()
                    &&& r->Ok_0.origin() == v
                    &&& r->Ok_0.remaining() == v
                    &&& !r->Ok_0.is_drawn()
                },
                None => r is Err,
            },
    {
        match seed.into_seed() {
            Ok(s) => Ok(Marble { seed: s, design: None, origin: Ghost(s@) }),
            Err(e) => Err(e),
        }
    }

    /// Draws a value below `max`: the seed modulo `max`; the seed becomes the
    /// quotient.
    fn random_number(&mut self, max: u64) -> (r: u64)
        requires
            max > 0,
        ensures
            r as nat == old(self).seed@ % (max as nat),
            final(self).seed@ == old(self).seed@ / (max as nat),
            final(self).design == old(self).design,
            final(self).origin == old(self).origin,
    {
        self.seed.div_rem_assign(max)
    }

    /// Destructive shuffle: picks, removes and emits one item at a time, the
    /// pick drawn with the number of items left as modulus.
    fn random_sort<T>(&mut self, arr: Vec<T>) -> (r: Vec<T>)
        ensures
            r@ == shuffled(arr@, draws(old(self).seed@, countdown(arr@.len()))),
            final(self).seed@ == after_draws(old(self).seed@, countdown(arr@.len())),
            final(self).design == old(self).design,
            final(self).origin == old(self).origin,
    {
        let ghost items0 = arr@;
        let ghost seed0 = self.seed@;
        let mut arr = arr;
        let mut out: Vec<T> = Vec::new();
        while arr.len() > 0
            invariant
                out@ + shuffled(arr@, draws(self.seed@, countdown(arr@.len()))) == shuffled(
                    items0,
                    draws(seed0, countdown(items0.len())),
                ),
                after_draws(self.seed@, countdown(arr@.len())) == after_draws(
                    seed0,
                    countdown(items0.len()),
                ),
                self.design == old(self).design,
                self.origin == old(self).origin,
            decreases arr@.len(),
        {
            let ghost items = arr@;
            let ghost s = self.seed@;
            let ghost m = arr@.len();
            let k = self.random_number(arr.len() as u64) as usize;
            proof {
                let ms = countdown(m);
                assert(ms[0] == m);
                assert(ms.drop_first() =~= countdown((m - 1) as nat));
                let ps = draws(s, ms);
                assert(ps[0] == s % m);
                assert(ps.drop_first() =~= draws(s / m, countdown((m - 1) as nat)));
            }
            let item = arr.remove(k);
            out.push(item);
            proof {
                assert(arr@ == items.remove(k as int));
                let rest = shuffled(arr@, draws(self.seed@, countdown(arr@.len())));
                assert(shuffled(items, draws(s, countdown(m))) == seq![item] + rest);
                assert(out@ + rest =~= (out@.drop_last()) + (seq![item] + rest));
            }
        }
        proof {
            assert(out@ + shuffled(arr@, draws(self.seed@, countdown(0))) =~= out@);
        }
        out
    }

    /// Draws a palette index.
    fn random_color(&mut self) -> (r: usize)
        ensures
            r as nat == old(self).seed@ % color_modulus(),
            r < PALETTE_LEN,
            final(self).seed@ == old(self).seed@ / color_modulus(),
            final(self).design == old(self).design,
            final(self).origin == old(self).origin,
    {
        self.random_number(PALETTE_LEN as u64) as usize
    }

    /// Draws the design if it is not drawn yet, in the fixed draw order:
    /// three colors, the shuffle of the three templates, the rotation.
    fn ensure_design(&mut self)
        requires
            old(self).wf(),
        ensures
            final(self).wf(),
            final(self).is_drawn(),
            final(self).origin() == old(self).origin(),
            old(self).is_drawn() ==> *final(self) == *old(self),
    {
        if self.design.is_none() {
            let ghost s = self.seed@;
            let c0 = self.random_color();
            let c1 = self.random_color();
            let c2 = self.random_color();
            let colors: [usize; 3] = [c0, c1, c2];
            proof {
                let cm = color_moduli();
                assert(cm.drop_first().drop_first().drop_first() =~= Seq::<nat>::empty());
                assert(cm.drop_first().drop_first()[0] == color_modulus());
                assert(cm.drop_first()[0] == color_modulus());
                reveal_with_fuel(draws, 4);
                reveal_with_fuel(after_draws, 4);
                assert(nats(colors@) =~= colors_of(s));
                assert(self.seed@ == after_colors(s));
            }
            let mut templates: Vec<usize> = Vec::new();
            templates.push(0);
            templates.push(1);
            templates.push(2);
            proof {
                assert(nats(templates@) =~= template_order());
            }
            let order = self.random_sort(templates);
            let rotation = self.random_number(359);
            proof {
                lemma_shuffled_map(templates@, draws(after_colors(s), countdown(3)));
                lemma_shuffled_within(template_order(), draws(after_colors(s), countdown(3)));
                assert forall|i: int| 0 <= i < order@.len() implies #[trigger] order@[i]
                    < TEMPLATE_COUNT by {
                    assert(nats(order@)[i] == order@[i] as nat);
                    assert(template_order().contains(nats(order@)[i]));
                }
            }
            self.design = Some(Design { colors, order, rotation });
        }
    }
}

impl Marble {
    /// The palette colors of the three templates, in template order; draws
    /// the design on first use only.
    pub fn get_colors(&mut self) -> (r: [String; 3])
        requires
            old(self).wf(),
        ensures
            final(self).wf(),
            final(self).is_drawn(),
            final(self).origin() == old(self).origin(),
            final(self).remaining() == after_design(old(self).origin()),
            old(self).is_drawn() ==> *final(self) == *old(self),
            forall|i: int| 0 <= i < 3 ==> (#[trigger] r@[i])@ == palette(colors_of(old(self).origin())[i]),
    {
        self.ensure_design();
        let d = self.design.as_ref().unwrap();
        let r = [
            String::from_str(palette_color(d.colors[0])),
            String::from_str(palette_color(d.colors[1])),
            String::from_str(palette_color(d.colors[2])),
        ];
        proof {
            assert forall|i: int| 0 <= i < 3 implies (#[trigger] r@[i])@ == palette(
                colors_of(self.origin())[i],
            ) by {
                assert(nats(d.colors@)[i] == d.colors@[i] as nat);
            }
        }
        r
    }

    /// The order in which the templates are drawn, bottom to top (0: first
    /// ellipse, 1: path, 2: second ellipse); draws the design on first use
    /// only.
    pub fn get_order(&mut self) -> (r: Vec<usize>)
        requires
            old(self).wf(),
        ensures
            final(self).wf(),
            final(self).is_drawn(),
            final(self).origin() == old(self).origin(),
            final(self).remaining() == after_design(old(self).origin()),
            old(self).is_drawn() ==> *final(self) == *old(self),
            nats(r@) == order_of(old(self).origin()),
    {
        self.ensure_design();
        self.design.as_ref().unwrap().order.clone()
    }

    /// The rotation in degrees; draws the design on first use only.
    pub fn get_rotation(&mut self) -> (r: u64)
        requires
            old(self).wf(),
        ensures
            final(self).wf(),
            final(self).is_drawn(),
            final(self).origin() == old(self).origin(),
            final(self).remaining() == after_design(old(self).origin()),
            old(self).is_drawn() ==> *final(self) == *old(self),
            r as nat == rotation_of(old(self).origin()),
    {
        self.ensure_design();
        self.design.as_ref().unwrap().rotation
    }

    /// The vector document of the marble; draws the design on first use only.
    pub fn build_svg(&mut self) -> (r: String)
        requires
            old(self).wf(),
        ensures
            final(self).wf(),
            final(self).is_drawn(),
            final(self).origin() == old(self).origin(),
            final(self).remaining() == after_design(old(self).origin()),
            old(self).is_drawn() ==> *final(self) == *old(self),
            r@ == svg_of(old(self).origin()),
    {
        self.ensure_design();
        let d = self.design.as_ref().unwrap();
        build_document(&d.colors, &d.order, d.rotation)
    }

    /// Renders the marble as a PNG image of `size` by `size` pixels.
    pub fn render_png(&mut self, size: u32) -> (r: Result<Vec<u8>, RenderError>)
        requires
            old(self).wf(),
        ensures
            final(self).wf(),
            final(self).is_drawn(),
            final(self).origin() == old(self).origin(),
            final(self).remaining() == after_design(old(self).origin()),
            old(self).is_drawn() ==> *final(self) == *old(self),
            outcome_view(r) == render_outcome(svg_of(old(self).origin()), size),
            r is Ok ==> png_has_size(r->Ok_0@, size),
    {
        let svg = self.build_svg();
        render_svg(svg.as_str(), size)
    }
}

} // verus!
