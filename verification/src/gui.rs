//! Score counters and the in-game top bar.
//!
//! A [`Score`] shows a non-negative number as one digit glyph per decimal
//! digit, least significant digit first in storage, most significant glyph
//! leftmost on screen. The glyph for digit `d` carries `tex_id == d`. The
//! most significant glyph sits at a fixed anchor; incrementing rewrites the
//! trailing run of glyphs that the decimal carry touches and, on a rollover
//! to one more digit, shifts the old glyphs one glyph width to the right.

use vstd::prelude::*;
use vstd::arithmetic::power::{
    pow, lemma_pow0, lemma_pow1, lemma_pow_positive, lemma_pow_adds, lemma_pow_increases,
    lemma_pow_strictly_increases,
};
use vstd::arithmetic::div_mod::{
    lemma_fundamental_div_mod, lemma_fundamental_div_mod_converse, lemma_mod_pos_bound,
    lemma_div_denominator, lemma_div_multiples_vanish, lemma_mod_multiples_basic,
    lemma_div_pos_is_pos,
};

use crate::COORD_LIMIT;
use crate::texture::Texture;
use crate::shape::{LEFT, TOP, RIGHT};

verus! {

/// Largest width a digit glyph may have, and the largest magnitude of the
/// anchor position: together they keep every glyph of a ten-digit number
/// well inside the coordinate range, so no position is ever clamped.
pub const GLYPH_WIDTH_LIMIT: i64 = 100_000_000;

pub const ANCHOR_LIMIT: i64 = 1_000_000_000;

/// Ten to the `k`.
pub open spec fn pow10(k: nat) -> int {
    pow(10, k)
}

/// Decimal digit `k` (zero-based from the least significant) of `v`.
pub open spec fn spec_digit(v: int, k: nat) -> int {
    (v / pow10(k)) % 10
}

/// How many decimal digits `v` is written with; zero takes one.
pub open spec fn spec_digit_count(v: int) -> int
    decreases v,
{
    if v < 10 {
        1
    } else {
        1 + spec_digit_count(v / 10)
    }
}

proof fn lemma_pow10_pos(k: nat)
    ensures
        pow10(k) >= 1,
{
    lemma_pow_positive(10, k);
}

proof fn lemma_pow10_zero()
    ensures
        pow10(0) == 1,
{
    lemma_pow0(10);
}

proof fn lemma_pow10_step(k: nat)
    requires
        k >= 1,
    ensures
        pow10(k) == 10 * pow10((k - 1) as nat),
{
    lemma_pow1(10);
    lemma_pow_adds(10, 1, (k - 1) as nat);
}

/// Every number lies between the powers of ten its digit count names.
proof fn lemma_count_range(v: int)
    requires
        0 <= v,
    ensures
        spec_digit_count(v) >= 1,
        v < pow10(spec_digit_count(v) as nat),
        v >= 1 ==> pow10((spec_digit_count(v) - 1) as nat) <= v,
    decreases v,
{
    if v < 10 {
        lemma_pow10_zero();
        lemma_pow10_step(1);
    } else {
        lemma_count_range(v / 10);
        let c = spec_digit_count(v / 10);
        lemma_fundamental_div_mod(v, 10);
        lemma_mod_pos_bound(v, 10);
        lemma_pow10_step((c + 1) as nat);
        lemma_pow10_step(c as nat);
    }
}

/// The digit count is the unique `c` with `pow10(c-1) <= v < pow10(c)`.
proof fn lemma_count_exact(v: int, c: int)
    requires
        1 <= c,
        pow10((c - 1) as nat) <= v,
        v < pow10(c as nat),
    ensures
        spec_digit_count(v) == c,
{
    lemma_pow10_pos((c - 1) as nat);
    lemma_count_range(v);
    let c0 = spec_digit_count(v);
    if c0 < c {
        lemma_pow_increases(10, c0 as nat, (c - 1) as nat);
    }
    if c0 > c {
        lemma_pow_increases(10, c as nat, (c0 - 1) as nat);
    }
}

/// A number below `10^10` has at most ten digits.
proof fn lemma_count_small(v: int)
    requires
        0 <= v,
        v < 10_000_000_000,
    ensures
        1 <= spec_digit_count(v) <= 10,
{
    lemma_pow10_ten();
    lemma_count_range(v);
    let c = spec_digit_count(v);
    if c > 10 {
        lemma_pow_increases(10, 10, (c - 1) as nat);
    }
}

proof fn lemma_pow10_ten()
    ensures
        pow10(10) == 10_000_000_000,
{
    lemma_pow10_zero();
    lemma_pow10_step(1);
    lemma_pow10_step(2);
    lemma_pow10_step(3);
    lemma_pow10_step(4);
    lemma_pow10_step(5);
    lemma_pow10_step(6);
    lemma_pow10_step(7);
    lemma_pow10_step(8);
    lemma_pow10_step(9);
    lemma_pow10_step(10);
}

/// If `v` is a multiple of `pow10(i)`, its digits below `i` are all zero.
proof fn lemma_low_digits_zero(v: int, i: nat, k: nat)
    requires
        0 <= v,
        k < i,
        v % pow10(i) == 0,
    ensures
        spec_digit(v, k) == 0,
{
    lemma_pow10_pos(i);
    lemma_pow10_pos(k);
    lemma_pow10_pos((i - k) as nat);
    lemma_pow10_pos((i - k - 1) as nat);
    lemma_fundamental_div_mod(v, pow10(i));
    let m = v / pow10(i);
    lemma_pow_adds(10, k, (i - k) as nat);
    assert(v == pow10(k) * (pow10((i - k) as nat) * m)) by (nonlinear_arith)
        requires
            v == pow10(i) * m,
            pow10(i) == pow10(k) * pow10((i - k) as nat),
    ;
    lemma_div_multiples_vanish(pow10((i - k) as nat) * m, pow10(k));
    lemma_pow10_step((i - k) as nat);
    assert(pow10((i - k) as nat) * m == (pow10((i - k - 1) as nat) * m) * 10) by (nonlinear_arith)
        requires
            pow10((i - k) as nat) == 10 * pow10((i - k - 1) as nat),
    ;
    lemma_mod_multiples_basic(pow10((i - k - 1) as nat) * m, 10);
}

/// If the digits below `i` are zero and digit `i` is zero too, the digits
/// below `i + 1` are all zero.
proof fn lemma_extend_zeros(v: int, i: nat)
    requires
        0 <= v,
        v % pow10(i) == 0,
        spec_digit(v, i) == 0,
    ensures
        v % pow10((i + 1) as nat) == 0,
{
    lemma_pow10_pos(i);
    lemma_pow10_step((i + 1) as nat);
    lemma_fundamental_div_mod(v, pow10(i));
    let t = v / pow10(i);
    lemma_fundamental_div_mod(t, 10);
    assert(v == (t / 10) * pow10((i + 1) as nat)) by (nonlinear_arith)
        requires
            v == pow10(i) * t,
            t == 10 * (t / 10),
            pow10((i + 1) as nat) == 10 * pow10(i),
    ;
    lemma_mod_multiples_basic(t / 10, pow10((i + 1) as nat));
}

/// Dividing first by `pow10(i)` and then by ten is dividing by
/// `pow10(i + 1)`.
proof fn lemma_quot_step(v: int, i: nat)
    requires
        0 <= v,
    ensures
        (v / pow10(i)) / 10 == v / pow10((i + 1) as nat),
{
    lemma_pow10_pos(i);
    lemma_pow10_step((i + 1) as nat);
    lemma_div_denominator(v, pow10(i), 10);
}

/// A positive multiple of `pow10(i)` is at least `pow10(i)`.
proof fn lemma_multiple_at_least(v: int, i: nat)
    requires
        1 <= v,
        v % pow10(i) == 0,
    ensures
        v >= pow10(i),
        v / pow10(i) >= 1,
{
    lemma_pow10_pos(i);
    lemma_fundamental_div_mod(v, pow10(i));
    lemma_div_pos_is_pos(v, pow10(i));
    let q = v / pow10(i);
    assert(q >= 1 && pow10(i) * q >= pow10(i)) by (nonlinear_arith)
        requires
            v == pow10(i) * q,
            v >= 1,
            q >= 0,
            pow10(i) >= 1,
    ;
}

/// When incrementing `u` makes the carry stop at digit `j` (digit `j` of
/// `u + 1` is non-zero while everything below is zero), all digits above
/// `j` are untouched by the increment.
proof fn lemma_carry_stops(u: int, j: nat)
    requires
        0 <= u,
        (u + 1) % pow10(j) == 0,
        spec_digit(u + 1, j) != 0,
    ensures
        (u + 1) / pow10((j + 1) as nat) == u / pow10((j + 1) as nat),
        forall|k: nat| k > j ==> spec_digit(u + 1, k) == spec_digit(u, k),
{
    let v = u + 1;
    lemma_pow10_pos(j);
    lemma_fundamental_div_mod(v, pow10(j));
    lemma_multiple_at_least(v, j);
    let q = v / pow10(j);
    assert(u == (q - 1) * pow10(j) + (pow10(j) - 1)) by (nonlinear_arith)
        requires
            v == pow10(j) * q,
            u == v - 1,
    ;
    lemma_fundamental_div_mod_converse(u, pow10(j), q - 1, pow10(j) - 1);
    let d = q % 10;
    lemma_fundamental_div_mod(q, 10);
    lemma_mod_pos_bound(q, 10);
    lemma_fundamental_div_mod_converse(q - 1, 10, q / 10, d - 1);
    lemma_quot_step(v, j);
    lemma_quot_step(u, j);
    assert((u + 1) / pow10((j + 1) as nat) == u / pow10((j + 1) as nat));
    assert forall|k: nat| k > j implies spec_digit(v, k) == spec_digit(u, k) by {
        lemma_pow10_pos((j + 1) as nat);
        lemma_pow10_pos((k - j - 1) as nat);
        lemma_div_denominator(v, pow10((j + 1) as nat), pow10((k - j - 1) as nat));
        lemma_div_denominator(u, pow10((j + 1) as nat), pow10((k - j - 1) as nat));
        lemma_pow_adds(10, (j + 1) as nat, (k - j - 1) as nat);
        assert(v / pow10(k) == (v / pow10((j + 1) as nat)) / pow10((k - j - 1) as nat));
        assert(u / pow10(k) == (u / pow10((j + 1) as nat)) / pow10((k - j - 1) as nat));
    }
}

/// The digits of `pow10(c)`: a one in position `c`, zeroes below.
proof fn lemma_digits_of_pow10(c: nat)
    ensures
        spec_digit_count(pow10(c)) == c + 1,
        spec_digit(pow10(c), c) == 1,
        forall|k: nat| k < c ==> spec_digit(pow10(c), k) == 0,
{
    lemma_pow10_pos(c);
    lemma_pow_strictly_increases(10, c, (c + 1) as nat);
    lemma_count_exact(pow10(c), c as int + 1);
    lemma_div_multiples_vanish(1, pow10(c));
    assert(pow10(c) == pow10(c) * 1);
    assert(pow10(c) / pow10(c) == 1);
    assert(spec_digit(pow10(c), c) == 1int % 10);
    lemma_mod_multiples_basic(1, pow10(c));
    assert forall|k: nat| k < c implies spec_digit(pow10(c), k) == 0 by {
        lemma_low_digits_zero(pow10(c), c, k);
    }
}

/// The glyph sprite for digit `d`, with the shared glyph size, at a given
/// spot: what [`Score::increment`] writes into the digit row.
pub open spec fn spec_glyph(d: int, x: int, y: int, w: int, h: int) -> Texture {
    Texture {
        width: w as i64,
        height: h as i64,
        x: x as i64,
        y: y as i64,
        tex_id: d as u64,
        clipped: false,
        clip_rect: crate::texture::Rect { x: 0, y: 0, w: 1000, h: 1000 },
        mirrored_h: false,
        mirrored_v: false,
    }
}

/// A decimal counter rendered as digit glyphs.
pub struct Score {
    pub value: u32,
    pub textures: Vec<Texture>,
}

impl Score {
    /// Width shared by every glyph of the row.
    pub open spec fn glyph_w(&self) -> int {
        self.textures[0].width as int
    }

    /// Height shared by every glyph of the row.
    pub open spec fn glyph_h(&self) -> int {
        self.textures[0].height as int
    }

    /// Vertical position shared by every glyph of the row.
    pub open spec fn base_y(&self) -> int {
        self.textures[0].y as int
    }

    /// Horizontal position of the most significant glyph; it never moves.
    pub open spec fn anchor_x(&self) -> int {
        self.textures[self.textures.len() - 1].x as int
    }

    /// One glyph per decimal digit of `value`, least significant first;
    /// glyph `k` shows digit `k` and sits `count - 1 - k` glyph widths
    /// right of the anchor. The sizes keep every position unclamped.
    pub open spec fn wf(&self) -> bool {
        let n = self.textures.len() as int;
        let v = self.value as int;
        &&& n == spec_digit_count(v)
        &&& 1 <= n <= 10
        &&& 0 <= self.glyph_w() <= GLYPH_WIDTH_LIMIT
        &&& 0 <= self.glyph_h() <= COORD_LIMIT
        &&& -ANCHOR_LIMIT <= self.anchor_x() <= ANCHOR_LIMIT
        &&& -COORD_LIMIT <= self.base_y() <= COORD_LIMIT
        &&& forall|k: int| 0 <= k < n ==> (#[trigger] self.textures[k]).wf()
        &&& forall|k: int|
            0 <= k < n ==> (#[trigger] self.textures[k]).tex_id as int == spec_digit(v, k as nat)
        &&& forall|k: int|
            0 <= k < n ==> (#[trigger] self.textures[k]).width as int == self.glyph_w()
                && self.textures[k].height as int == self.glyph_h()
                && self.textures[k].y as int == self.base_y()
                && self.textures[k].x as int == self.anchor_x() + (n - 1 - k) * self.glyph_w()
    }

    /// A counter at zero showing the given zero glyph.
    pub fn new(zero: Texture) -> (s: Score)
        requires
            zero.wf(),
            zero.tex_id == 0,
            zero.width <= GLYPH_WIDTH_LIMIT,
            -ANCHOR_LIMIT <= zero.x <= ANCHOR_LIMIT,
        ensures
            s.wf(),
            s.value == 0,
            s.textures@.len() == 1,
            s.textures@[0] == zero,
    {
        let mut textures: Vec<Texture> = Vec::new();
        textures.push(zero);
        let s = Score { value: 0, textures };
        proof {
            assert(spec_digit_count(0) == 1);
            lemma_pow10_zero();
            assert(spec_digit(0, 0) == 0);
        }
        s
    }

    /// Moves the whole (single-glyph) row; the counter must still be at
    /// zero, as it is right after construction or a reset.
    pub fn set_position(&mut self, x: i64, y: i64)
        requires
            old(self).wf(),
            old(self).value == 0,
            -ANCHOR_LIMIT <= x <= ANCHOR_LIMIT,
            -COORD_LIMIT <= y <= COORD_LIMIT,
        ensures
            final(self).wf(),
            final(self).value == 0,
            final(self).textures@.len() == 1,
            final(self).textures@[0] == (Texture { x, y, ..old(self).textures@[0] }),
            final(self).anchor_x() == x,
            final(self).base_y() == y,
            final(self).glyph_w() == old(self).glyph_w(),
            final(self).glyph_h() == old(self).glyph_h(),
    {
        proof {
            assert(spec_digit_count(0) == 1);
        }
        let mut t = self.textures[0];
        t.set_position(x, y);
        self.textures[0] = t;
    }

    /// Back to zero: one zero glyph at the anchor, same glyph size.
    pub fn reset(&mut self)
        requires
            old(self).wf(),
        ensures
            final(self).wf(),
            final(self).value == 0,
            final(self).textures@.len() == 1,
            final(self).anchor_x() == old(self).anchor_x(),
            final(self).base_y() == old(self).base_y(),
            final(self).glyph_w() == old(self).glyph_w(),
            final(self).glyph_h() == old(self).glyph_h(),
    {
        let i = self.textures.len();
        let x = self.textures[i - 1].x;
        let y = self.textures[i - 1].y;
        let w = self.textures[0].width;
        let h = self.textures[0].height;
        self.value = 0;
        self.textures.clear();
        let mut zero = Texture::new(0, w, h);
        zero.set_position(x, y);
        self.textures.push(zero);
        proof {
            assert(spec_digit_count(0) == 1);
            lemma_pow10_zero();
            assert(spec_digit(0, 0) == 0);
        }
    }

    /// Counts one more: rewrites the glyphs the decimal carry touches, and
    /// on a rollover to one more digit pushes the new leading one at the
    /// anchor and shifts every other glyph one width to the right.
    pub fn increment(&mut self)
        requires
            old(self).wf(),
            old(self).value < u32::MAX,
        ensures
            final(self).wf(),
            final(self).value == old(self).value + 1,
            final(self).anchor_x() == old(self).anchor_x(),
            final(self).base_y() == old(self).base_y(),
            final(self).glyph_w() == old(self).glyph_w(),
            final(self).glyph_h() == old(self).glyph_h(),
    {
        self.value = self.value + 1;
        let ghost pre = *old(self);
        let ghost v: int = self.value as int;
        let ghost u: int = v - 1;
        let n = self.textures.len();
        let w = self.textures[0].width;
        let h = self.textures[0].height;
        let mut temp: u32 = self.value;
        let mut i: usize = 0;
        proof {
            lemma_pow10_zero();
            lemma_fundamental_div_mod_converse(v, 1, v, 0);
            lemma_count_small(v);
        }
        while temp > 0 && i < n
            invariant
                pre == *old(self),
                pre.wf(),
                pre.value + 1 == v,
                pre.value < u32::MAX,
                v == self.value as int,
                u == v - 1,
                n == pre.textures.len(),
                w as int == pre.glyph_w(),
                h as int == pre.glyph_h(),
                0 <= i <= n,
                temp == v / pow10(i as nat),
                v % pow10(i as nat) == 0,
                temp >= 1,
                self.textures.len() == n,
                self.value == v,
                forall|k: int|
                    0 <= k < i ==> #[trigger] self.textures[k] == spec_glyph(
                        0,
                        pre.textures[k].x as int,
                        pre.textures[k].y as int,
                        w as int,
                        h as int,
                    ),
                forall|k: int| i <= k < n ==> self.textures[k] == pre.textures[k],
            decreases n - i,
        {
            proof {
                assert(self.textures[i as int] == pre.textures[i as int]);
                assert(pre.textures[i as int].wf());
            }
            let x = self.textures[i].x;
            let y = self.textures[i].y;
            let d = temp % 10;
            if d != 0 {
                let mut g = Texture::new(d as u64, w, h);
                g.set_position(x, y);
                self.textures[i] = g;
                proof {
                    assert(spec_digit(v, i as nat) == d as int);
                    lemma_carry_stops(u, i as nat);
                    lemma_count_range(u);
                    assert(u < pow10(n as nat));
                    if v < pow10(n as nat) {
                        if u >= 1 {
                            lemma_count_exact(v, n as int);
                        } else {
                            assert(v == 1 && n == 1);
                            assert(spec_digit_count(1) == 1);
                        }
                    } else {
                        // v cannot reach pow10(n): u < pow10(n) so v <= pow10(n),
                        // and equality would make digit i of v zero.
                        assert(v == pow10(n as nat));
                        lemma_digits_of_pow10(n as nat);
                        assert(false);
                    }
                    assert(spec_digit_count(v) == n);
                    assert forall|k: int| 0 <= k < n implies (#[trigger] self.textures[k]).tex_id
                        as int == spec_digit(v, k as nat) by {
                        if k < i {
                            lemma_low_digits_zero(v, i as nat, k as nat);
                        } else if k > i {
                            assert(spec_digit(v, k as nat) == spec_digit(u, k as nat));
                            assert(pre.textures[k].tex_id as int == spec_digit(u, k as nat));
                        }
                    }
                    assert(self.glyph_w() == pre.glyph_w());
                    assert(self.glyph_h() == pre.glyph_h());
                    assert(self.base_y() == pre.base_y());
                    assert(self.textures[n - 1].x == pre.textures[n - 1].x);
                    assert(self.anchor_x() == pre.anchor_x());
                    assert forall|k: int|
                        0 <= k < n implies (#[trigger] self.textures[k]).width as int
                        == self.glyph_w() && self.textures[k].height as int == self.glyph_h()
                        && self.textures[k].y as int == self.base_y() && self.textures[k].x as int
                        == self.anchor_x() + (n - 1 - k) * self.glyph_w()
                        && self.textures[k].wf() by {
                        assert(pre.textures[k].x as int == pre.anchor_x() + (n as int - 1 - k)
                            * pre.glyph_w());
                        assert(pre.textures[k].wf());
                    }
                }
                return;
            } else {
                let mut g = Texture::new(0, w, h);
                g.set_position(x, y);
                self.textures[i] = g;
            }
            proof {
                lemma_extend_zeros(v, i as nat);
                lemma_quot_step(v, i as nat);
                lemma_multiple_at_least(v, (i + 1) as nat);
            }
            i = i + 1;
            temp = temp / 10;
        }
        // Every digit of the old value was a nine: the new value is a power
        // of ten, one digit longer. Push the leading one at the anchor and
        // shift the zeroes right.
        proof {
            assert(i == n);
            lemma_multiple_at_least(v, n as nat);
            lemma_count_range(u);
            assert(v == pow10(n as nat));
            lemma_digits_of_pow10(n as nat);
            lemma_count_small(v);
        }
        let x = self.textures[n - 1].x;
        let y = self.textures[n - 1].y;
        let mut one = Texture::new(1, w, h);
        one.set_position(x, y);
        self.textures.push(one);
        let mut k: usize = 0;
        while k < n
            invariant
                pre == *old(self),
                pre.wf(),
                v == pre.value + 1,
                v == pow10(n as nat),
                spec_digit_count(v) == n + 1,
                n + 1 <= 10,
                spec_digit(v, n as nat) == 1,
                forall|j: nat| j < n ==> spec_digit(v, j) == 0,
                n == pre.textures.len(),
                w as int == pre.glyph_w(),
                h as int == pre.glyph_h(),
                0 <= k <= n,
                self.textures.len() == n + 1,
                self.value == v,
                self.textures[n as int] == spec_glyph(
                    1,
                    pre.anchor_x(),
                    pre.base_y(),
                    w as int,
                    h as int,
                ),
                forall|j: int|
                    0 <= j < k ==> #[trigger] self.textures[j] == spec_glyph(
                        0,
                        pre.textures[j].x + pre.glyph_w(),
                        pre.textures[j].y as int,
                        w as int,
                        h as int,
                    ),
                forall|j: int|
                    k <= j < n ==> #[trigger] self.textures[j] == spec_glyph(
                        0,
                        pre.textures[j].x as int,
                        pre.textures[j].y as int,
                        w as int,
                        h as int,
                    ),
            decreases n - k,
        {
            proof {
                assert(pre.textures[k as int].wf());
                assert(pre.textures[k as int].x as int == pre.anchor_x() + (n - 1 - k)
                    * pre.glyph_w());
                assert(0 <= (n - 1 - k) * pre.glyph_w() <= 900_000_000) by (nonlinear_arith)
                    requires
                        0 <= n - 1 - k <= 9,
                        0 <= pre.glyph_w() <= 100_000_000,
                ;
            }
            let cur = self.textures[k];
            let mut g = cur;
            g.set_x(cur.x + w);
            self.textures[k] = g;
            k = k + 1;
        }
        proof {
            let m = n as int + 1;
            assert forall|j: int|
                0 <= j < m implies (#[trigger] self.textures[j]).x as int == pre.anchor_x() + (m - 1
                - j) * pre.glyph_w() by {
                if j < n {
                    assert(pre.textures[j].x as int == pre.anchor_x() + (n - 1 - j)
                        * pre.glyph_w());
                    assert((n - 1 - j) * pre.glyph_w() + pre.glyph_w() == (m - 1 - j)
                        * pre.glyph_w()) by (nonlinear_arith)
                        requires
                            m == n + 1,
                    ;
                }
            }
            assert forall|j: int|
                0 <= j < m implies (#[trigger] self.textures[j]).wf() by {
                if j < n {
                    assert(0 <= (n - 1 - j) * pre.glyph_w() <= 9 * GLYPH_WIDTH_LIMIT)
                        by (nonlinear_arith)
                        requires
                            0 <= n - 1 - j <= 9,
                            0 <= pre.glyph_w() <= GLYPH_WIDTH_LIMIT,
                    ;
                }
            }
        }
    }
}

/// The in-game heads-up bar: a fish counter, a defeated-enemy counter and
/// a travelled-distance counter, each with its label sprite, plus the pause
/// button sprite.
pub struct Topbar {
    pub fish_score: Score,
    pub fish_label: Texture,
    pub enemy_score: Score,
    pub enemy_label: Texture,
    pub flag_label: Texture,
    pub distance: Score,
    pub stop_button: Texture,
}

impl Topbar {
    pub open spec fn wf(&self) -> bool {
        &&& self.fish_score.wf()
        &&& self.enemy_score.wf()
        &&& self.distance.wf()
    }

    /// Lays the bar out along the top edge of the screen: labels and
    /// counters on the left, the travelled distance at the center, the
    /// pause button at the right. The three glyphs are the zero glyphs the
    /// counters start from.
    pub fn new(
        fish_label: Texture,
        enemy_label: Texture,
        flag_label: Texture,
        stop_button: Texture,
        fish_zero: Texture,
        enemy_zero: Texture,
        dist_zero: Texture,
    ) -> (t: Topbar)
        requires
            fish_label.wf(),
            enemy_label.wf(),
            flag_label.wf(),
            stop_button.wf(),
            fish_zero.wf(),
            fish_zero.tex_id == 0,
            fish_zero.width <= GLYPH_WIDTH_LIMIT,
            -ANCHOR_LIMIT <= fish_zero.x <= ANCHOR_LIMIT,
            enemy_zero.wf(),
            enemy_zero.tex_id == 0,
            enemy_zero.width <= GLYPH_WIDTH_LIMIT,
            -ANCHOR_LIMIT <= enemy_zero.x <= ANCHOR_LIMIT,
            dist_zero.wf(),
            dist_zero.tex_id == 0,
            dist_zero.width <= GLYPH_WIDTH_LIMIT,
            -ANCHOR_LIMIT <= dist_zero.x <= ANCHOR_LIMIT,
        ensures
            t.wf(),
            t.fish_score.value == 0,
            t.enemy_score.value == 0,
            t.distance.value == 0,
            t.fish_score.anchor_x() == LEFT + 80_000,
            t.enemy_score.anchor_x() == LEFT + 268_000,
            t.distance.anchor_x() == 80_000,
            t.fish_label.x == LEFT + 32_000 && t.fish_label.y == TOP - 32_000,
            t.enemy_label.x == LEFT + 220_000 && t.enemy_label.y == TOP - 30_000,
            t.flag_label.x == 32_000 && t.flag_label.y == TOP - 32_000,
            t.stop_button.x == RIGHT - 40_000 && t.stop_button.y == TOP - 32_000,
    {
        let mut fish_label = fish_label;
        fish_label.set_position(LEFT + 32_000, TOP - 32_000);

        let mut fish_score = Score::new(fish_zero);
        fish_score.set_position(LEFT + 80_000, TOP - 32_000);

        let mut enemy_score = Score::new(enemy_zero);
        enemy_score.set_position(LEFT + 268_000, TOP - 32_000);

        let mut enemy_label = enemy_label;
        enemy_label.set_position(LEFT + 220_000, TOP - 30_000);

        let mut flag_label = flag_label;
        flag_label.set_position(32_000, TOP - 32_000);

        let mut distance = Score::new(dist_zero);
        distance.set_position(80_000, TOP - 32_000);

        let mut stop_button = stop_button;
        stop_button.set_position(RIGHT - 40_000, TOP - 32_000);

        Topbar { fish_score, fish_label, enemy_score, enemy_label, flag_label, distance, stop_button }
    }

    /// One more fish collected.
    pub fn increment_fish_count(&mut self)
        requires
            old(self).wf(),
            old(self).fish_score.value < u32::MAX,
        ensures
            final(self).wf(),
            final(self).fish_score.value == old(self).fish_score.value + 1,
            final(self).fish_score.wf(),
            *final(self) == (Topbar { fish_score: final(self).fish_score, ..*old(self) }),
    {
        self.fish_score.increment();
    }

    /// One more enemy defeated.
    pub fn increment_enemy_count(&mut self)
        requires
            old(self).wf(),
            old(self).enemy_score.value < u32::MAX,
        ensures
            final(self).wf(),
            final(self).enemy_score.value == old(self).enemy_score.value + 1,
            final(self).enemy_score.wf(),
            *final(self) == (Topbar { enemy_score: final(self).enemy_score, ..*old(self) }),
    {
        self.enemy_score.increment();
    }

    /// One more unit of distance travelled.
    pub fn increment_distance(&mut self)
        requires
            old(self).wf(),
            old(self).distance.value < u32::MAX,
        ensures
            final(self).wf(),
            final(self).distance.value == old(self).distance.value + 1,
            final(self).distance.wf(),
            *final(self) == (Topbar { distance: final(self).distance, ..*old(self) }),
    {
        self.distance.increment();
    }

    /// All three counters back to zero; labels and layout stay.
    pub fn reset(&mut self)
        requires
            old(self).wf(),
        ensures
            final(self).wf(),
            final(self).fish_score.value == 0,
            final(self).enemy_score.value == 0,
            final(self).distance.value == 0,
            final(self).fish_score.anchor_x() == old(self).fish_score.anchor_x(),
            final(self).enemy_score.anchor_x() == old(self).enemy_score.anchor_x(),
            final(self).distance.anchor_x() == old(self).distance.anchor_x(),
            final(self).fish_label == old(self).fish_label,
            final(self).enemy_label == old(self).enemy_label,
            final(self).flag_label == old(self).flag_label,
            final(self).stop_button == old(self).stop_button,
    {
        self.fish_score.reset();
        self.enemy_score.reset();
        self.distance.reset();
    }
}

} // verus!
