use vstd::prelude::*;

verus! {

pub open spec fn sat_add(a: u8, b: u8) -> u8 {
    if a + b > 255 {
        255
    } else {
        (a + b) as u8
    }
}

pub open spec fn sat_sub(a: u8, b: u8) -> u8 {
    if a >= b {
        (a - b) as u8
    } else {
        0
    }
}

/// Byte `i` of the tinted image: in every complete RGBA pixel that is not fully
/// transparent, red is raised by 80 and green and blue lowered by 40, saturating;
/// everything else is kept.
pub open spec fn tinted_byte(px: Seq<u8>, i: int) -> u8 {
    let base = i - i % 4;
    if base + 4 <= px.len() && px[base + 3] > 0 && i % 4 < 3 {
        if i % 4 == 0 {
            sat_add(px[i], 80)
        } else {
            sat_sub(px[i], 40)
        }
    } else {
        px[i]
    }
}

/// The tray icon shown while recording: the normal icon tinted red.
pub fn create_recording_icon(base_rgba: &[u8], width: u32, height: u32) -> (r: Vec<u8>)
    ensures
        r@.len() == base_rgba@.len(),
        forall|i: int| 0 <= i < r@.len() ==> #[trigger] r@[i] == tinted_byte(base_rgba@, i),
{
    let n = base_rgba.len();
    let mut out: Vec<u8> = Vec::with_capacity(n);
    let mut p: usize = 0;
    while p < n
        invariant
            n == base_rgba@.len(),
            p <= n,
            p % 4 == 0,
            out@.len() == p,
            forall|i: int| 0 <= i < p ==> #[trigger] out@[i] == tinted_byte(base_rgba@, i),
        decreases n - p,
    {
        if n - p >= 4 {
            let r = base_rgba[p];
            let g = base_rgba[p + 1];
            let b = base_rgba[p + 2];
            let a = base_rgba[p + 3];
            if a > 0 {
                out.push(r.saturating_add(80));
                out.push(g.saturating_sub(40));
                out.push(b.saturating_sub(40));
            } else {
                out.push(r);
                out.push(g);
                out.push(b);
            }
            out.push(a);
            proof {
                assert forall|i: int| p <= i < p + 4 implies #[trigger] out@[i] == tinted_byte(
                    base_rgba@,
                    i,
                ) by {
                    assert(i - i % 4 == p);
                }
            }
            p = p + 4;
        } else {
            let ghost start = p;
            while p < n
                invariant
                    n == base_rgba@.len(),
                    start <= p <= n,
                    n - start < 4,
                    start % 4 == 0,
                    out@.len() == p,
                    forall|i: int| 0 <= i < p ==> #[trigger] out@[i] == tinted_byte(base_rgba@, i),
                decreases n - p,
            {
                proof {
                    assert(p - p % 4 == start);
                }
                out.push(base_rgba[p]);
                p = p + 1;
            }
            return out;
        }
    }
    out
}

} // verus!
