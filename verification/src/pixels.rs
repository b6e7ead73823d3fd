use vstd::prelude::*;

verus! {

/// A colour channel stored premultiplied by `alpha`, as a straight value:
/// rounded to nearest and capped at 255; zero where the pixel is transparent.
pub open spec fn unpremultiply(channel: u8, alpha: u8) -> u8 {
    if alpha == 0 {
        0
    } else {
        let straight = (channel * 255 + alpha / 2) / (alpha as int);
        if straight > 255 {
            255u8
        } else {
            straight as u8
        }
    }
}

/// The straight RGBA pixel for premultiplied BGRA bytes `b, g, r, a`.
pub open spec fn straight_pixel(b: u8, g: u8, r: u8, a: u8) -> Seq<u8> {
    seq![unpremultiply(r, a), unpremultiply(g, a), unpremultiply(b, a), a]
}

fn unpremultiply_channel(channel: u8, alpha: u8) -> (v: u8)
    ensures
        v == unpremultiply(channel, alpha),
{
    if alpha == 0 {
        return 0;
    }
    let c = channel as u32;
    let a = alpha as u32;
    let straight = (c * 255 + a / 2) / a;
    if straight > 255 {
        255
    } else {
        straight as u8
    }
}

/// Converts premultiplied BGRA pixels to straight-alpha RGBA. Bytes after the
/// last whole pixel come out as zero.
pub fn bgra_premul_to_rgba_straight(bgra: &[u8]) -> (out: Vec<u8>)
    ensures
        out@.len() == bgra@.len(),
        forall|p: int| 0 <= p < bgra@.len() / 4 ==> #[trigger] out@.subrange(4 * p, 4 * p + 4)
            == straight_pixel(bgra@[4 * p], bgra@[4 * p + 1], bgra@[4 * p + 2], bgra@[4 * p + 3]),
        forall|k: int| 4 * (bgra@.len() / 4) <= k < bgra@.len() ==> out@[k] == 0,
{
    let len = bgra.len();
    let mut out: Vec<u8> = Vec::new();
    let mut k: usize = 0;
    while k < len
        invariant
            k <= len,
            len == bgra@.len(),
            out@.len() == k,
            forall|j: int| 0 <= j < k ==> out@[j] == 0,
        decreases len - k,
    {
        out.push(0);
        k += 1;
    }
    let pixels = len / 4;
    let mut i: usize = 0;
    while i < pixels
        invariant
            i <= pixels,
            pixels == len / 4,
            len == bgra@.len(),
            out@.len() == len,
            forall|p: int| 0 <= p < i ==> #[trigger] out@.subrange(4 * p, 4 * p + 4)
                == straight_pixel(bgra@[4 * p], bgra@[4 * p + 1], bgra@[4 * p + 2], bgra@[4 * p + 3]),
            forall|k: int| 4 * i <= k < len ==> out@[k] == 0,
        decreases pixels - i,
    {
        let o = i * 4;
        let b = bgra[o];
        let g = bgra[o + 1];
        let r = bgra[o + 2];
        let a = bgra[o + 3];
        let r2 = unpremultiply_channel(r, a);
        let g2 = unpremultiply_channel(g, a);
        let b2 = unpremultiply_channel(b, a);
        let ghost before = out@;
        out.set(o, r2);
        out.set(o + 1, g2);
        out.set(o + 2, b2);
        out.set(o + 3, a);
        assert(out@.subrange(4 * i, 4 * i + 4) =~= straight_pixel(b, g, r, a));
        assert forall|p: int| 0 <= p < i + 1 implies #[trigger] out@.subrange(4 * p, 4 * p + 4)
            == straight_pixel(bgra@[4 * p], bgra@[4 * p + 1], bgra@[4 * p + 2], bgra@[4 * p + 3]) by {
            if p < i {
                assert(out@.subrange(4 * p, 4 * p + 4) =~= before.subrange(4 * p, 4 * p + 4));
            }
        }
        i += 1;
    }
    out
}

/// An opaque pixel keeps its channels, only reordered; a transparent one
/// comes out all zero.
pub proof fn law_opaque_and_transparent_pixels(b: u8, g: u8, r: u8)
    ensures
        straight_pixel(b, g, r, 255) == seq![r, g, b, 255u8],
        straight_pixel(b, g, r, 0) == seq![0u8, 0u8, 0u8, 0u8],
{
    assert forall|c: u8| unpremultiply(c, 255) == c by {
        assert((c * 255 + 127) / 255 == c as int) by (nonlinear_arith);
    }
    assert(straight_pixel(b, g, r, 255) =~= seq![r, g, b, 255u8]);
    assert(straight_pixel(b, g, r, 0) =~= seq![0u8, 0u8, 0u8, 0u8]);
}

/// Unpremultiplying inverts premultiplying at every alpha: a channel `c` no
/// larger than its alpha `a` comes back as the straight value whose product
/// with `a` is within `a / 2` of `c * 255`, and never above 255.
pub proof fn law_unpremultiply_inverts(c: u8, a: u8)
    requires
        0 < a,
        c <= a,
    ensures
        unpremultiply(c, a) <= 255,
        -(a as int) <= unpremultiply(c, a) * a - c * 255 <= a / 2,
        (c * 255) % (a as int) == 0 ==> unpremultiply(c, a) * a == c * 255,
{
    let n: int = c * 255 + a / 2;
    let q: int = n / (a as int);
    assert(q * a <= n && n < q * a + a) by (nonlinear_arith)
        requires
            a > 0,
            q == n / (a as int),
    ;
    assert(q <= 255) by (nonlinear_arith)
        requires
            q * a <= n,
            n == c * 255 + a / 2,
            c <= a,
            a > 0,
    ;
    assert(0 <= q) by (nonlinear_arith)
        requires
            n >= 0,
            a > 0,
            q == n / (a as int),
    ;
    assert(unpremultiply(c, a) == q);
    if (c * 255) % (a as int) == 0 {
        let k: int = (c * 255) / (a as int);
        assert(k * a == c * 255 && q == k) by (nonlinear_arith)
            requires
                a > 0,
                (c * 255) % (a as int) == 0,
                k == (c * 255) / (a as int),
                n == c * 255 + a / 2,
                q * a <= n,
                n < q * a + a,
        ;
    }
}

} // verus!
