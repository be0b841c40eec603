//! The battery gauge: a bar of cells that shows the charge.

use crate::power::Usage;
use crate::text::repeated;
use vstd::arithmetic::div_mod::lemma_fundamental_div_mod_converse;
use vstd::prelude::*;

verus! {

/// The cells of a gauge of `width` cells that a charge of `now` out of
/// `full` fills: the charge times the width, rounded up. A charge above
/// full counts as full.
#[verifier::opaque]
pub open spec fn filled_cells(now: nat, full: nat, width: nat) -> nat {
    if now >= full {
        width
    } else if (now * width) % full == 0 {
        (now * width) / full
    } else {
        (now * width) / full + 1
    }
}

/// The glyph between the empty and the filled cells.
pub open spec fn boundary_glyph(charging: bool) -> char {
    if charging {
        '<'
    } else {
        '>'
    }
}

/// The empty cells of the gauge.
pub open spec fn empty_part(now: nat, full: nat, width: nat) -> Seq<char> {
    repeated('-', (width - filled_cells(now, full, width)) as nat)
}

/// The filled cells of the gauge after the boundary glyph, which stands for
/// the first of them.
pub open spec fn filled_part(now: nat, full: nat, width: nat) -> Seq<char> {
    if filled_cells(now, full, width) > 1 {
        repeated('=', (filled_cells(now, full, width) - 1) as nat)
    } else {
        Seq::empty()
    }
}

/// The gauge of a known charge.
pub open spec fn gauge_text(now: nat, full: nat, charging: bool, width: nat) -> Seq<char> {
    empty_part(now, full, width) + seq![boundary_glyph(charging)] + filled_part(now, full, width)
}

/// The gauge of an unknown charge.
pub open spec fn unknown_gauge(width: nat) -> Seq<char> {
    repeated('?', width)
}

/// The key of the colour of the empty cells: `battery_full` from four
/// fifths on; below that `default` while charging and from two fifths on,
/// `battery_warn` from three twentieths on, `battery_crit` from one
/// twentieth on, and `battery_emerg` below.
pub open spec fn discharge_color_key(now: nat, full: nat, charging: bool) -> Seq<char> {
    if 5 * now >= 4 * full {
        "battery_full"@
    } else if charging {
        "default"@
    } else if 5 * now >= 2 * full {
        "default"@
    } else if 20 * now >= 3 * full {
        "battery_warn"@
    } else if 20 * now >= full {
        "battery_crit"@
    } else {
        "battery_emerg"@
    }
}

/// The filled cells are never more than the gauge has, and there is one as
/// soon as there is any charge.
pub proof fn lemma_filled_cells(now: nat, full: nat, width: nat)
    requires
        full > 0,
    ensures
        filled_cells(now, full, width) <= width,
        now > 0 && width > 0 ==> filled_cells(now, full, width) >= 1,
        now == 0 || width == 0 ==> filled_cells(now, full, width) == 0,
{
    reveal(filled_cells);
    if now < full {
        let x = now * width;
        let q = x / full;
        let r = x % full;
        assert(x == q * full + r && 0 <= r < full) by {
            vstd::arithmetic::div_mod::lemma_fundamental_div_mod(x as int, full as int);
            vstd::arithmetic::div_mod::lemma_mod_bound(x as int, full as int);
            assert(full * q == q * full) by (nonlinear_arith);
        }
        assert(x >= 0 && (now > 0 && width > 0 ==> x > 0) && (now == 0 || width == 0 ==> x == 0))
            by (nonlinear_arith)
            requires
                x == now * width,
        ;
        if width > 0 {
            assert(x <= (full - 1) * width) by (nonlinear_arith)
                requires
                    x == now * width,
                    now <= full - 1,
            ;
            assert(q < width && (r > 0 ==> q + 1 <= width)) by (nonlinear_arith)
                requires
                    x == q * full + r,
                    0 <= r < full,
                    x <= (full - 1) * width,
                    width > 0,
                    q >= 0,
            ;
        }
        if x > 0 && r == 0 {
            assert(q >= 1) by (nonlinear_arith)
                requires
                    x == q * full + r,
                    r == 0,
                    x > 0,
                    full > 0,
            ;
        }
        if x == 0 {
            assert(q == 0 && r == 0) by (nonlinear_arith)
                requires
                    x == q * full + r,
                    0 <= r < full,
                    x == 0,
                    q >= 0,
            ;
        }
    } else {
        assert(now > 0);
    }
}

/// A gauge with any charge in it is as wide as it was asked to be: the
/// empty cells, the boundary glyph and the filled cells after it make up
/// the width.
pub proof fn lemma_gauge_width(now: nat, full: nat, charging: bool, width: nat)
    requires
        full > 0,
        now > 0,
        width > 0,
    ensures
        (width - filled_cells(now, full, width)) + 1 + (if filled_cells(now, full, width) > 1 {
            filled_cells(now, full, width) - 1
        } else {
            0
        }) == width,
        gauge_text(now, full, charging, width).len() == width,
{
    lemma_filled_cells(now, full, width);
}

/// A gauge without charge, and a gauge of no width, is one column wider
/// than it was asked to be: the boundary glyph stands beside the cells.
pub proof fn lemma_gauge_width_empty(now: nat, full: nat, charging: bool, width: nat)
    requires
        full > 0,
        now == 0 || width == 0,
    ensures
        gauge_text(now, full, charging, width).len() == width + 1,
{
    lemma_filled_cells(now, full, width);
}

impl Usage {
    /// The cells of a gauge of `width` cells that this charge fills.
    pub fn filled(&self, width: usize) -> (cells: usize)
        ensures
            cells == filled_cells(self.now as nat, self.full as nat, width as nat),
    {
        if self.now >= self.full {
            proof {
                reveal(filled_cells);
            }
            return width;
        }
        let mut whole: usize = 0;
        let mut part: u128 = 0;
        let mut i: usize = 0;
        while i < width
            invariant
                i <= width,
                whole <= i,
                self.now < self.full,
                part < self.full,
                whole * self.full + part == i * self.now,
            decreases width - i,
        {
            assert((i + 1) * self.now == i * self.now + self.now) by (nonlinear_arith);
            assert((whole + 1) * self.full == whole * self.full + self.full) by (nonlinear_arith);
            if part >= self.full - self.now {
                part = part - (self.full - self.now);
                whole += 1;
            } else {
                part += self.now;
            }
            i += 1;
        }
        proof {
            reveal(filled_cells);
            let x = self.now as int * width as int;
            assert(x == width * self.now) by (nonlinear_arith)
                requires
                    x == self.now as int * width as int,
            ;
            lemma_fundamental_div_mod_converse(
                x,
                self.full as int,
                whole as int,
                part as int,
            );
            lemma_filled_cells(self.now as nat, self.full as nat, width as nat);
        }
        if part > 0 {
            whole + 1
        } else {
            whole
        }
    }
}

/// The key of the colour of the empty cells of the gauge.
pub fn battery_discharge_color(usage: Usage, charging: bool) -> (key: &'static str)
    ensures
        key@ == discharge_color_key(usage.now as nat, usage.full as nat, charging),
{
    let fifth = usage.full / 5;
    let fifth_rest = usage.full % 5;
    let twentieth = usage.full / 20;
    let twentieth_rest = usage.full % 20;
    if usage.now >= usage.full - fifth {
        "battery_full"
    } else if charging {
        "default"
    } else if usage.now >= 2 * fifth + (2 * fifth_rest + 4) / 5 {
        "default"
    } else if usage.now >= 3 * twentieth + (3 * twentieth_rest + 19) / 20 {
        "battery_warn"
    } else if usage.now >= twentieth + (twentieth_rest + 19) / 20 {
        "battery_crit"
    } else {
        "battery_emerg"
    }
}

} // verus!
