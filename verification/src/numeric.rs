use vstd::prelude::*;

verus! {

/// Millisecond-to-second conversion as the source values undergo it: integer
/// division by 1000 truncating toward zero.
pub open spec fn ms_to_secs_spec(ms: int) -> int {
    if ms >= 0 {
        ms / 1000
    } else {
        -((-ms) / 1000)
    }
}

/// Two's-complement wrap of an arbitrary integer into the range of `i32`:
/// the unique value congruent to `x` modulo 2^32 that `i32` can hold.
pub open spec fn wrap_i32_spec(x: int) -> int {
    let m = x % 0x1_0000_0000;
    if m < 0x8000_0000 {
        m
    } else {
        m - 0x1_0000_0000
    }
}

/// Converts an epoch-millisecond timestamp to whole epoch seconds, truncating
/// toward zero.
pub fn ms_to_secs(ms: i64) -> (s: i64)
    ensures
        s as int == ms_to_secs_spec(ms as int),
{
    if ms >= 0 {
        let q: u64 = (ms as u64) / 1000;
        assert(q <= ms as u64) by {
            assert(1000 * (ms as u64 / 1000) + ms as u64 % 1000 == ms as u64);
        };
        q as i64
    } else {
        // -(i64::MIN) does not fit in i64, so take the magnitude via ms + 1.
        let m: u64 = ((-(ms + 1)) as u64) + 1;
        assert(m == -(ms as int));
        let q: u64 = m / 1000;
        assert(q <= m) by {
            assert(1000 * (m / 1000) + m % 1000 == m);
        };
        -(q as i64)
    }
}

/// Reduces an `i64` to an `i32` with two's-complement wrapping, as a plain
/// narrowing cast would.
pub fn wrap_to_i32(x: i64) -> (r: i32)
    ensures
        r as int == wrap_i32_spec(x as int),
        -0x8000_0000 <= x <= 0x7fff_ffff ==> r as int == x as int,
{
    let m: u64 = if x >= 0 {
        (x as u64) % 0x1_0000_0000
    } else {
        let mag: u64 = ((-(x + 1)) as u64) + 1;
        assert(mag == -(x as int));
        let k: u64 = mag % 0x1_0000_0000;
        let flipped: u64 = (0x1_0000_0000 - k) % 0x1_0000_0000;
        proof {
            let d = mag as int / 0x1_0000_0000;
            assert(mag as int == 0x1_0000_0000 * d + k) by {
                assert(0x1_0000_0000 * (mag as int / 0x1_0000_0000) + mag as int % 0x1_0000_0000
                    == mag as int);
            };
            if k == 0 {
                assert(x as int == 0x1_0000_0000 * (-d));
                assert(x as int % 0x1_0000_0000 == 0) by {
                    vstd::arithmetic::div_mod::lemma_mod_multiples_basic(-d, 0x1_0000_0000);
                };
            } else {
                assert(x as int == 0x1_0000_0000 * (-d - 1) + (0x1_0000_0000 - k));
                assert(x as int % 0x1_0000_0000 == 0x1_0000_0000 - k) by {
                    vstd::arithmetic::div_mod::lemma_fundamental_div_mod_converse(
                        x as int,
                        0x1_0000_0000,
                        -d - 1,
                        0x1_0000_0000 - k,
                    );
                };
            }
        }
        flipped
    };
    assert(m == (x as int) % 0x1_0000_0000);
    if m < 0x8000_0000 {
        m as i32
    } else {
        let down: u64 = 0x1_0000_0000 - m;
        -((down - 1) as i32) - 1
    }
}

} // verus!
