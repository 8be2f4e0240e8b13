use vstd::prelude::*;

verus! {


/// The shadow level used where none is given.
pub const SHADOW_DEFAULT: u8 = 150;

/// The complement of a sample.
pub open spec fn inverse(v: u8) -> u8 {
    (255 - v) as u8
}

/// Colour dodge of a bottom sample by a top sample, over samples read as
/// `v / 255`: `min(1, bottom / (1 - top))`, full white where the top is white,
/// scaled back to 0..=255 and rounded down.
pub open spec fn dodge(bottom: u8, top: u8) -> u8 {
    if top == 255 || bottom as int >= 255 - top as int {
        255
    } else {
        ((255 * bottom as int) / (255 - top as int)) as u8
    }
}

/// The levels curve with black point `shadow`, over samples read as `v / 255`:
/// a zero shadow keeps only full white; otherwise samples at or below the
/// shadow turn black and the rest is stretched linearly onto `(0, 1]`,
/// scaled back to 0..=255 and rounded down.
pub open spec fn level(v: u8, shadow: u8) -> u8 {
    if shadow == 0 {
        if v == 255 {
            255
        } else {
            0
        }
    } else if v <= shadow {
        0
    } else {
        ((255 * (v - shadow) as int) / (255 - shadow as int)) as u8
    }
}

/// The dodge of one sample by another.
pub fn dodge_sample(bottom: u8, top: u8) -> (r: u8)
    ensures
        r == dodge(bottom, top),
{
    if top == 255 || bottom as u32 >= 255 - top as u32 {
        255
    } else {
        let q: u32 = (255 * bottom as u32) / (255 - top as u32);
        assert(q < 255) by (nonlinear_arith)
            requires
                q == (255 * bottom as u32) / (255 - top as u32),
                (bottom as u32) < 255 - top as u32,
        ;
        q as u8
    }
}

/// The levels curve applied to one sample.
pub fn level_sample(v: u8, shadow: u8) -> (r: u8)
    ensures
        r == level(v, shadow),
{
    if shadow == 0 {
        if v == 255 {
            255
        } else {
            0
        }
    } else if v <= shadow {
        0
    } else {
        let d: u32 = (v - shadow) as u32;
        let q: u32 = (255 * d) / (255 - shadow as u32);
        assert(q <= 255) by (nonlinear_arith)
            requires
                q == (255 * d) / (255 - shadow as u32),
                d <= 255 - shadow as u32,
                shadow < 255,
        ;
        q as u8
    }
}

/// Replaces every sample by its complement.
pub fn invert(layer: &mut Vec<u8>)
    ensures
        final(layer)@.len() == old(layer)@.len(),
        forall|i: int| 0 <= i < old(layer)@.len() ==> final(layer)@[i] == inverse(old(layer)@[i]),
{
    let n = layer.len();
    let mut i: usize = 0;
    while i < n
        invariant
            n == old(layer)@.len(),
            layer@.len() == n,
            i <= n,
            forall|j: int| 0 <= j < i ==> layer@[j] == inverse(old(layer)@[j]),
            forall|j: int| i <= j < n ==> layer@[j] == old(layer)@[j],
        decreases n - i,
    {
        let v = layer[i];
        layer.set(i, 255 - v);
        i = i + 1;
    }
}

/// Colour-dodges the bottom layer by the top layer, sample by sample, over the
/// samples that both layers have; the rest of the bottom layer stays.
pub fn color_dodge(bottom: &mut Vec<u8>, top: &Vec<u8>)
    ensures
        final(bottom)@.len() == old(bottom)@.len(),
        forall|i: int|
            0 <= i < old(bottom)@.len() ==> final(bottom)@[i] == if i < top@.len() {
                dodge(old(bottom)@[i], top@[i])
            } else {
                old(bottom)@[i]
            },
{
    let n = if bottom.len() < top.len() {
        bottom.len()
    } else {
        top.len()
    };
    let mut i: usize = 0;
    while i < n
        invariant
            n <= old(bottom)@.len(),
            n <= top@.len(),
            n == old(bottom)@.len() || n == top@.len(),
            bottom@.len() == old(bottom)@.len(),
            i <= n,
            forall|j: int| 0 <= j < i ==> bottom@[j] == dodge(old(bottom)@[j], top@[j]),
            forall|j: int| i <= j < bottom@.len() ==> bottom@[j] == old(bottom)@[j],
        decreases n - i,
    {
        let v = dodge_sample(bottom[i], top[i]);
        bottom.set(i, v);
        i = i + 1;
    }
}

/// Applies the levels curve with black point `shadow` to every sample.
pub fn levels(img: &mut Vec<u8>, shadow: u8)
    ensures
        final(img)@.len() == old(img)@.len(),
        forall|i: int| 0 <= i < old(img)@.len() ==> final(img)@[i] == level(old(img)@[i], shadow),
{
    let n = img.len();
    let mut i: usize = 0;
    while i < n
        invariant
            n == old(img)@.len(),
            img@.len() == n,
            i <= n,
            forall|j: int| 0 <= j < i ==> img@[j] == level(old(img)@[j], shadow),
            forall|j: int| i <= j < n ==> img@[j] == old(img)@[j],
        decreases n - i,
    {
        let v = level_sample(img[i], shadow);
        img.set(i, v);
        i = i + 1;
    }
}

/// Spreads each gray sample over an opaque RGBA pixel: red, green and blue
/// take the sample and alpha is full.
pub fn to_rgba(gray: &Vec<u8>) -> (r: Vec<u8>)
    requires
        4 * gray@.len() <= usize::MAX,
    ensures
        r@.len() == 4 * gray@.len(),
        forall|i: int|
            0 <= i < gray@.len() ==> {
                &&& #[trigger] r@[4 * i] == gray@[i]
                &&& r@[4 * i + 1] == gray@[i]
                &&& r@[4 * i + 2] == gray@[i]
                &&& r@[4 * i + 3] == 255
            },
{
    let n = gray.len();
    let mut r: Vec<u8> = Vec::with_capacity(4 * n);
    let mut i: usize = 0;
    while i < n
        invariant
            n == gray@.len(),
            4 * n <= usize::MAX,
            i <= n,
            r@.len() == 4 * i,
            forall|j: int|
                0 <= j < i ==> {
                    &&& #[trigger] r@[4 * j] == gray@[j]
                    &&& r@[4 * j + 1] == gray@[j]
                    &&& r@[4 * j + 2] == gray@[j]
                    &&& r@[4 * j + 3] == 255
                },
        decreases n - i,
    {
        let v = gray[i];
        let ghost prev = r@;
        r.push(v);
        r.push(v);
        r.push(v);
        r.push(255);
        assert forall|j: int| 0 <= j <= i implies {
            &&& #[trigger] r@[4 * j] == gray@[j]
            &&& r@[4 * j + 1] == gray@[j]
            &&& r@[4 * j + 2] == gray@[j]
            &&& r@[4 * j + 3] == 255
        } by {
            if j < i {
                assert(r@[4 * j] == prev[4 * j]);
                assert(r@[4 * j + 1] == prev[4 * j + 1]);
                assert(r@[4 * j + 2] == prev[4 * j + 2]);
                assert(r@[4 * j + 3] == prev[4 * j + 3]);
            }
        }
        i = i + 1;
    }
    r
}

/// The finished sketch: the base layer colour-dodged by the blurred inverted
/// layer, put through the levels curve, and spread over opaque RGBA pixels.
pub fn sketch(base: &Vec<u8>, blurred: &Vec<u8>, shadow: u8) -> (r: Vec<u8>)
    requires
        4 * base@.len() <= usize::MAX,
    ensures
        r@.len() == 4 * base@.len(),
        forall|i: int|
            0 <= i < base@.len() ==> {
                let v = if i < blurred@.len() {
                    level(dodge(base@[i], blurred@[i]), shadow)
                } else {
                    level(base@[i], shadow)
                };
                &&& #[trigger] r@[4 * i] == v
                &&& r@[4 * i + 1] == v
                &&& r@[4 * i + 2] == v
                &&& r@[4 * i + 3] == 255
            },
{
    let mut gray = base.clone();
    assert(gray@ == base@);
    color_dodge(&mut gray, blurred);
    levels(&mut gray, shadow);
    to_rgba(&gray)
}

/// With a zero shadow the levels curve keeps full white and turns every other
/// sample black.
pub proof fn lemma_levels_zero_shadow(v: u8)
    ensures
        v < 255 ==> level(v, 0) == 0,
        level(255, 0) == 255,
{
}

/// With a shadow strictly between black and white, every sample at or below
/// the shadow turns black and full white stays full white.
pub proof fn lemma_levels_shadow(v: u8, shadow: u8)
    requires
        0 < shadow < 255,
    ensures
        v <= shadow ==> level(v, shadow) == 0,
        level(255, shadow) == 255,
{
    assert((255 * (255 - shadow) as int) / (255 - shadow as int) == 255) by (nonlinear_arith)
        requires
            shadow < 255,
    ;
}

/// Full white on top dodges any bottom sample to full white.
pub proof fn lemma_dodge_white_top(bottom: u8)
    ensures
        dodge(bottom, 255) == 255,
{
}

} // verus!
