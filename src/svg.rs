//! The vector document: three shape templates, each with one fill color, laid
//! over a background circle inside a circular clip, under one rotation.
use crate::draws::nats;
use crate::palette::{palette, palette_color, PALETTE_LEN};
use vstd::prelude::*;

verus! {

/// Text of the first ellipse template before its fill color.
pub const ELLIPSE_A_HEAD: &'static str = "<g filter=\"url(#blur)\" opacity=\".9\">\n    <ellipse cx=\"33.545\" cy=\"32.494\" fill=\"";

/// Text of the first ellipse template after its fill color.
pub const ELLIPSE_A_TAIL: &'static str = "\" rx=\"33.545\" ry=\"32.494\" transform=\"matrix(-.48289 -.87568 .7985 -.602 9.46 74.034)\"/>\n</g>\n";

/// Text of the path template before its fill color.
pub const PATH_HEAD: &'static str = "<g filter=\"url(#blur)\" opacity=\".8\">\n    <path fill=\"";

/// Text of the path template after its fill color.
pub const PATH_TAIL: &'static str = "\" d=\"M78.824-16.686c17.78 14.541 4.24 87.76-2.637 82.948-4.194-2.935-9.153-27.765-22.32-38.405-8.418-6.802-23.488-1.839-33.086-1.137-24.614 1.8 40.115-58.069 58.043-43.406Z\"/>\n</g>\n";

/// Text of the second ellipse template before its fill color.
pub const ELLIPSE_B_HEAD: &'static str = "<g filter=\"url(#blur)\" opacity=\".8\">\n    <ellipse cx=\"39.533\" cy=\"39.042\" fill=\"";

/// Text of the second ellipse template after its fill color.
pub const ELLIPSE_B_TAIL: &'static str = "\" rx=\"39.533\" ry=\"39.042\" transform=\"matrix(-.2882 -.95757 .93652 -.35062 13.847 67.74)\" />\n</g>\n";

/// Document text before the rotation angle.
pub const SVG_OPEN: &'static str = "<svg xmlns=\"http://www.w3.org/2000/svg\" fill=\"none\" viewBox=\"0 0 80 80\" transform=\"rotate(";

/// Document text between the rotation angle and the shapes.
pub const SVG_BODY: &'static str = " 40 40)\">\n    <g clip-path=\"url(#a)\">\n        <circle cx=\"40\" cy=\"40\" r=\"40\" fill=\"#F8F8F8\" />\n        ";

/// Document text after the shapes: the blur filter and the circular clip.
pub const SVG_CLOSE: &'static str = "\n    </g>\n    <defs>\n        <filter id=\"blur\" width=\"300\" height=\"300\" x=\"0\" y=\"0\" color-interpolation-filters=\"sRGB\" filterUnits=\"userSpaceOnUse\">\n            <feGaussianBlur result=\"effect1_foregroundBlur_557_59789\" stdDeviation=\"9.6\" />\n        </filter>\n        <clipPath id=\"a\">\n            <rect width=\"80\" height=\"80\" fill=\"#fff\" rx=\"40\" />\n        </clipPath>\n    </defs>\n</svg>\n";

/// The ten decimal digits, in order.
pub const DIGITS: &'static str = "0123456789";

/// Number of shape templates.
pub const TEMPLATE_COUNT: usize = 3;

/// Template text before the fill color.
pub open spec fn template_head(t: nat) -> Seq<char> {
    if t == 0 {
        ELLIPSE_A_HEAD@
    } else if t == 1 {
        PATH_HEAD@
    } else {
        ELLIPSE_B_HEAD@
    }
}

/// Template text after the fill color.
pub open spec fn template_tail(t: nat) -> Seq<char> {
    if t == 0 {
        ELLIPSE_A_TAIL@
    } else if t == 1 {
        PATH_TAIL@
    } else {
        ELLIPSE_B_TAIL@
    }
}

/// Template `t` filled with `color`.
pub open spec fn shape_text(t: nat, color: Seq<char>) -> Seq<char> {
    template_head(t) + color + template_tail(t)
}

/// The decimal notation of `n`, without leading zeros.
pub open spec fn decimal(n: nat) -> Seq<char>
    decreases n,
{
    if n < 10 {
        DIGITS@.subrange(n as int, n + 1int)
    } else {
        decimal(n / 10) + DIGITS@.subrange((n % 10) as int, (n % 10) + 1int)
    }
}

/// The shapes drawn in `order`, template `t` filled with palette entry
/// `colors[t]`.
pub open spec fn shapes_text(colors: Seq<nat>, order: Seq<nat>) -> Seq<char>
    decreases order.len(),
{
    if order.len() == 0 {
        Seq::empty()
    } else {
        shapes_text(colors, order.drop_last()) + shape_text(
            order.last(),
            palette(colors[order.last() as int]),
        )
    }
}

/// The whole document for given colors, drawing order and rotation.
pub open spec fn document_text(colors: Seq<nat>, order: Seq<nat>, rotation: nat) -> Seq<char> {
    SVG_OPEN@ + decimal(rotation) + SVG_BODY@ + shapes_text(colors, order) + SVG_CLOSE@
}

/// Appends the decimal notation of `n`.
fn push_decimal(out: &mut String, n: u64)
    ensures
        final(out)@ == old(out)@ + decimal(n as nat),
    decreases n,
{
    proof {
        reveal_strlit("0123456789");
    }
    if n >= 10 {
        push_decimal(out, n / 10);
    }
    let d = (n % 10) as usize;
    out.append(DIGITS.substring_ascii(d, d + 1));
    proof {
        assert(final(out)@ =~= old(out)@ + decimal(n as nat));
    }
}

/// Appends template `t` filled with `color`.
fn push_shape(out: &mut String, t: usize, color: &str)
    requires
        t < TEMPLATE_COUNT,
    ensures
        final(out)@ == old(out)@ + shape_text(t as nat, color@),
{
    if t == 0 {
        out.append(ELLIPSE_A_HEAD);
        out.append(color);
        out.append(ELLIPSE_A_TAIL);
    } else if t == 1 {
        out.append(PATH_HEAD);
        out.append(color);
        out.append(PATH_TAIL);
    } else {
        out.append(ELLIPSE_B_HEAD);
        out.append(color);
        out.append(ELLIPSE_B_TAIL);
    }
    proof {
        assert(final(out)@ =~= old(out)@ + shape_text(t as nat, color@));
    }
}

/// Writes the document: the shapes in `order`, template `t` filled with
/// palette entry `colors[t]`, the whole turned by `rotation` degrees about
/// the center.
pub fn build_document(colors: &[usize; 3], order: &Vec<usize>, rotation: u64) -> (r: String)
    requires
        forall|i: int| 0 <= i < 3 ==> #[trigger] colors@[i] < PALETTE_LEN,
        forall|i: int| 0 <= i < order@.len() ==> #[trigger] order@[i] < TEMPLATE_COUNT,
    ensures
        r@ == document_text(
            nats(colors@),
            nats(order@),
            rotation as nat,
        ),
{
    let ghost cs = nats(colors@);
    let ghost os = nats(order@);
    let mut out = String::from_str(SVG_OPEN);
    push_decimal(&mut out, rotation);
    out.append(SVG_BODY);
    let ghost prefix = out@;
    let mut i: usize = 0;
    while i < order.len()
        invariant
            i <= order@.len(),
            forall|k: int| 0 <= k < 3 ==> #[trigger] colors@[k] < PALETTE_LEN,
            forall|k: int| 0 <= k < order@.len() ==> #[trigger] order@[k] < TEMPLATE_COUNT,
            cs == nats(colors@),
            os == nats(order@),
            out@ == prefix + shapes_text(cs, os.take(i as int)),
        decreases order@.len() - i,
    {
        let t = order[i];
        push_shape(&mut out, t, palette_color(colors[t]));
        proof {
            assert(os.take(i + 1).drop_last() =~= os.take(i as int));
            assert(out@ =~= prefix + shapes_text(cs, os.take(i + 1)));
        }
        i = i + 1;
    }
    out.append(SVG_CLOSE);
    proof {
        assert(os.take(order@.len() as int) =~= os);
        assert(out@ =~= document_text(cs, os, rotation as nat));
    }
    out
}

} // verus!
