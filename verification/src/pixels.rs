//! Conversion of decoded texture images to tightly packed 8-bit RGBA, the
//! one layout the renderer uploads.
//!
//! glTF images come in several channel layouts. The 8-bit ones are expanded
//! to four channels: RGB gains an opaque alpha, grey is replicated into red,
//! green and blue, and two-channel images use the first channel as intensity
//! and the second as alpha. Other layouts are not supported.
use vstd::prelude::*;

verus! {

/// Channel layout of a decoded image.
#[derive(Debug, Clone, Copy, PartialEq, Eq, Structural)]
pub enum PixelFormat {
    R8,
    R8G8,
    R8G8B8,
    R8G8B8A8,
    R16,
    R16G16,
    R16G16B16,
    R16G16B16A16,
    R32G32B32FLOAT,
    R32G32B32A32FLOAT,
}

/// RGB to RGBA: the bytes are read three at a time, each group followed by
/// an opaque alpha byte; a shorter group at the end is kept as it is and
/// followed by the alpha byte as well.
pub open spec fn expand_rgb(s: Seq<u8>) -> Seq<u8>
    decreases s.len(),
{
    if s.len() == 0 {
        s
    } else if s.len() <= 3 {
        s.push(255u8)
    } else {
        s.take(3).push(255u8) + expand_rgb(s.skip(3))
    }
}

/// Grey to RGBA: each byte `v` becomes `v, v, v, 255`.
pub open spec fn expand_grey(s: Seq<u8>) -> Seq<u8>
    decreases s.len(),
{
    if s.len() == 0 {
        s
    } else {
        seq![s[0], s[0], s[0], 255u8] + expand_grey(s.skip(1))
    }
}

/// Two channels to RGBA: each pair `r, g` becomes `r, r, r, g`.
pub open spec fn expand_rg(s: Seq<u8>) -> Seq<u8>
    decreases s.len(),
{
    if s.len() < 2 {
        Seq::empty()
    } else {
        seq![s[0], s[0], s[0], s[1]] + expand_rg(s.skip(2))
    }
}

/// The RGBA bytes of an image in the given format, `None` where the format
/// is not supported.
pub open spec fn rgba_bytes(format: PixelFormat, pixels: Seq<u8>) -> Option<Seq<u8>> {
    match format {
        PixelFormat::R8G8B8A8 => Some(pixels),
        PixelFormat::R8G8B8 => Some(expand_rgb(pixels)),
        PixelFormat::R8 => Some(expand_grey(pixels)),
        PixelFormat::R8G8 => Some(expand_rg(pixels)),
        _ => None,
    }
}

fn rgb_to_rgba(pixels: &Vec<u8>) -> (res: Vec<u8>)
    ensures
        res@ == expand_rgb(pixels@),
{
    let n = pixels.len();
    let mut out: Vec<u8> = Vec::new();
    let mut pos: usize = 0;
    proof {
        assert(pixels@.skip(0) =~= pixels@);
        assert(out@ + pixels@ =~= pixels@);
    }
    while pos < n
        invariant
            n == pixels@.len(),
            pos <= n,
            out@ + expand_rgb(pixels@.skip(pos as int)) == expand_rgb(pixels@),
        decreases n - pos,
    {
        let ghost rest = pixels@.skip(pos as int);
        let ghost before = out@;
        if n - pos <= 3 {
            let mut k = pos;
            while k < n
                invariant
                    pos <= k <= n,
                    n == pixels@.len(),
                    out@ == before + pixels@.subrange(pos as int, k as int),
                decreases n - k,
            {
                out.push(pixels[k]);
                proof {
                    assert(pixels@.subrange(pos as int, k + 1) =~= pixels@.subrange(
                        pos as int,
                        k as int,
                    ).push(pixels@[k as int]));
                }
                k = k + 1;
            }
            out.push(255);
            proof {
                assert(pixels@.subrange(pos as int, n as int) =~= rest);
                assert(pixels@.skip(n as int) =~= Seq::<u8>::empty());
                assert(out@ + expand_rgb(pixels@.skip(n as int)) =~= out@);
            }
            pos = n;
        } else {
            out.push(pixels[pos]);
            out.push(pixels[pos + 1]);
            out.push(pixels[pos + 2]);
            out.push(255);
            proof {
                assert(rest.skip(3) =~= pixels@.skip(pos + 3));
                assert(out@ =~= before + rest.take(3).push(255u8));
            }
            pos = pos + 3;
        }
    }
    proof {
        assert(pixels@.skip(n as int) =~= Seq::<u8>::empty());
        assert(out@ + Seq::<u8>::empty() =~= out@);
    }
    out
}

fn grey_to_rgba(pixels: &Vec<u8>) -> (res: Vec<u8>)
    ensures
        res@ == expand_grey(pixels@),
{
    let n = pixels.len();
    let mut out: Vec<u8> = Vec::new();
    let mut pos: usize = 0;
    proof {
        assert(pixels@.skip(0) =~= pixels@);
        assert(out@ + pixels@ =~= pixels@);
    }
    while pos < n
        invariant
            n == pixels@.len(),
            pos <= n,
            out@ + expand_grey(pixels@.skip(pos as int)) == expand_grey(pixels@),
        decreases n - pos,
    {
        let ghost rest = pixels@.skip(pos as int);
        let ghost before = out@;
        let v = pixels[pos];
        out.push(v);
        out.push(v);
        out.push(v);
        out.push(255);
        proof {
            assert(rest.skip(1) =~= pixels@.skip(pos + 1));
            assert(out@ =~= before + seq![v, v, v, 255u8]);
        }
        pos = pos + 1;
    }
    proof {
        assert(pixels@.skip(n as int) =~= Seq::<u8>::empty());
        assert(out@ + Seq::<u8>::empty() =~= out@);
    }
    out
}

fn rg_to_rgba(pixels: &Vec<u8>) -> (res: Vec<u8>)
    requires
        pixels@.len() % 2 == 0,
    ensures
        res@ == expand_rg(pixels@),
{
    let n = pixels.len();
    let mut out: Vec<u8> = Vec::new();
    let mut pos: usize = 0;
    proof {
        assert(pixels@.skip(0) =~= pixels@);
        assert(out@ + pixels@ =~= pixels@);
    }
    while pos < n
        invariant
            n == pixels@.len(),
            n % 2 == 0,
            pos % 2 == 0,
            pos <= n,
            out@ + expand_rg(pixels@.skip(pos as int)) == expand_rg(pixels@),
        decreases n - pos,
    {
        let ghost rest = pixels@.skip(pos as int);
        let ghost before = out@;
        let r = pixels[pos];
        let g = pixels[pos + 1];
        out.push(r);
        out.push(r);
        out.push(r);
        out.push(g);
        proof {
            assert(rest.skip(2) =~= pixels@.skip(pos + 2));
            assert(out@ =~= before + seq![r, r, r, g]);
        }
        pos = pos + 2;
    }
    proof {
        assert(pixels@.skip(n as int) =~= Seq::<u8>::empty());
        assert(out@ + Seq::<u8>::empty() =~= out@);
    }
    out
}

/// Convert decoded image bytes to 8-bit RGBA; `None` for an unsupported
/// format. A two-channel image must hold whole pixels.
pub fn to_rgba8(format: PixelFormat, pixels: &Vec<u8>) -> (res: Option<Vec<u8>>)
    requires
        format == PixelFormat::R8G8 ==> pixels@.len() % 2 == 0,
    ensures
        match rgba_bytes(format, pixels@) {
            Some(bytes) => res matches Some(v) && v@ == bytes,
            None => res is None,
        },
        format == PixelFormat::R8G8B8A8 ==> (res matches Some(v) && v@ == pixels@),
{
    match format {
        PixelFormat::R8G8B8A8 => {
            let mut out: Vec<u8> = Vec::with_capacity(pixels.len());
            let mut k: usize = 0;
            while k < pixels.len()
                invariant
                    k <= pixels@.len(),
                    out@ == pixels@.take(k as int),
                decreases pixels@.len() - k,
            {
                out.push(pixels[k]);
                proof {
                    assert(pixels@.take(k + 1) =~= pixels@.take(k as int).push(pixels@[k as int]));
                }
                k = k + 1;
            }
            proof {
                assert(pixels@.take(k as int) =~= pixels@);
            }
            Some(out)
        },
        PixelFormat::R8G8B8 => Some(rgb_to_rgba(pixels)),
        PixelFormat::R8 => Some(grey_to_rgba(pixels)),
        PixelFormat::R8G8 => Some(rg_to_rgba(pixels)),
        _ => None,
    }
}

/// The `p`-th pixel of a packed image with `width` bytes per pixel.
pub open spec fn pixel(s: Seq<u8>, width: int, p: int) -> Seq<u8> {
    s.subrange(width * p, width * p + width)
}

/// An RGB image of `n` whole pixels becomes an RGBA image of `n` pixels
/// with the same colours, each fully opaque.
pub proof fn lemma_rgb_pixels(s: Seq<u8>)
    requires
        s.len() % 3 == 0,
    ensures
        expand_rgb(s).len() == s.len() / 3 * 4,
        forall|p: int|
            0 <= p < s.len() / 3 ==> #[trigger] pixel(expand_rgb(s), 4, p) == pixel(s, 3, p).push(
                255u8,
            ),
    decreases s.len(),
{
    if s.len() > 0 {
        let rest = s.skip(3);
        if s.len() > 3 {
            lemma_rgb_pixels(rest);
        } else {
            assert(s.take(3) =~= s);
        }
        let head = s.take(3).push(255u8);
        let out = expand_rgb(s);
        assert(out =~= head + expand_rgb(rest));
        assert forall|p: int| 0 <= p < s.len() / 3 implies #[trigger] pixel(out, 4, p) == pixel(
            s,
            3,
            p,
        ).push(255u8) by {
            if p == 0 {
                assert(pixel(out, 4, 0) =~= head);
                assert(pixel(s, 3, 0) =~= s.take(3));
            } else {
                assert(pixel(out, 4, p) =~= pixel(expand_rgb(rest), 4, p - 1));
                assert(pixel(s, 3, p) =~= pixel(rest, 3, p - 1));
            }
        }
    }
}

/// A grey image of `n` pixels becomes an RGBA image of `n` opaque pixels
/// whose red, green and blue all equal the grey value.
pub proof fn lemma_grey_pixels(s: Seq<u8>)
    ensures
        expand_grey(s).len() == s.len() * 4,
        forall|p: int|
            0 <= p < s.len() ==> #[trigger] pixel(expand_grey(s), 4, p) == seq![s[p], s[p], s[p], 255u8],
    decreases s.len(),
{
    if s.len() > 0 {
        let rest = s.skip(1);
        lemma_grey_pixels(rest);
        let head = seq![s[0], s[0], s[0], 255u8];
        let out = expand_grey(s);
        assert(out =~= head + expand_grey(rest));
        assert forall|p: int| 0 <= p < s.len() implies #[trigger] pixel(out, 4, p) == seq![s[p], s[p], s[p], 255u8] by {
            if p == 0 {
                assert(pixel(out, 4, 0) =~= head);
            } else {
                assert(pixel(out, 4, p) =~= pixel(expand_grey(rest), 4, p - 1));
                assert(rest[p - 1] == s[p]);
            }
        }
    }
}

/// A two-channel image of `n` pixels becomes an RGBA image of `n` pixels
/// with the first channel as grey intensity and the second as alpha.
pub proof fn lemma_rg_pixels(s: Seq<u8>)
    requires
        s.len() % 2 == 0,
    ensures
        expand_rg(s).len() == s.len() * 2,
        forall|p: int|
            0 <= p < s.len() / 2 ==> #[trigger] pixel(expand_rg(s), 4, p) == seq![s[2 * p], s[2 * p], s[2 * p], s[2 * p + 1]],
    decreases s.len(),
{
    if s.len() > 0 {
        let rest = s.skip(2);
        lemma_rg_pixels(rest);
        let head = seq![s[0], s[0], s[0], s[1]];
        let out = expand_rg(s);
        assert(out =~= head + expand_rg(rest));
        assert forall|p: int| 0 <= p < s.len() / 2 implies #[trigger] pixel(out, 4, p) == seq![s[2 * p], s[2 * p], s[2 * p], s[2 * p + 1]] by {
            if p == 0 {
                assert(pixel(out, 4, 0) =~= head);
            } else {
                assert(pixel(out, 4, p) =~= pixel(expand_rg(rest), 4, p - 1));
                assert(rest[2 * (p - 1)] == s[2 * p]);
                assert(rest[2 * (p - 1) + 1] == s[2 * p + 1]);
            }
        }
    }
}

/// An image that is already RGBA8 is handed back byte for byte, alpha
/// included; every other 8-bit layout is converted, and the wide layouts are
/// not supported.
pub proof fn lemma_rgba_passes_through(pixels: Seq<u8>)
    ensures
        rgba_bytes(PixelFormat::R8G8B8A8, pixels) == Some(pixels),
        rgba_bytes(PixelFormat::R8G8B8, pixels) is Some,
        rgba_bytes(PixelFormat::R8, pixels) is Some,
        rgba_bytes(PixelFormat::R8G8, pixels) is Some,
        rgba_bytes(PixelFormat::R16, pixels) is None,
        rgba_bytes(PixelFormat::R16G16, pixels) is None,
        rgba_bytes(PixelFormat::R16G16B16, pixels) is None,
        rgba_bytes(PixelFormat::R16G16B16A16, pixels) is None,
        rgba_bytes(PixelFormat::R32G32B32FLOAT, pixels) is None,
        rgba_bytes(PixelFormat::R32G32B32A32FLOAT, pixels) is None,
{
}

} // verus!
