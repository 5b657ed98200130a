//! What the 5x5 LED matrix shows for a CO2 reading: the number scrolled as
//! text, then a bar of lit rows.
use vstd::prelude::*;

verus! {

pub const ROWS: usize = 5;

pub const COLS: usize = 5;

/// A fully lit row of the matrix.
pub const FULL_ROW: u8 = 0b0001_1111;

/// Whether the bar's row `i`, counted from the bottom, is lit: CO2 has reached
/// `400 + 200 * i` ppm.
pub open spec fn row_lit(co2: u16, i: int) -> bool {
    co2 >= 400 + 200 * i
}

/// How many thresholds `400, 600, ..., 1200` the reading has reached.
pub open spec fn rows_reached(co2: u16) -> nat {
    if co2 < 400 {
        0
    } else if co2 >= 1200 {
        5
    } else {
        ((co2 - 400) / 200 + 1) as nat
    }
}

/// How many rows of the bar are lit.
pub fn lit_rows(co2: u16) -> (r: usize)
    ensures
        r == rows_reached(co2),
        r <= ROWS,
        forall|i: int| 0 <= i < ROWS ==> (i < r <==> row_lit(co2, i)),
{
    let mut n: usize = 0;
    while n < ROWS && (co2 as usize) >= 400 + 200 * n
        invariant
            n <= ROWS,
            forall|i: int| 0 <= i < n ==> row_lit(co2, i),
            n > 0 ==> co2 >= 400 + 200 * (n - 1),
        decreases ROWS - n,
    {
        n = n + 1;
    }
    assert(n == rows_reached(co2)) by {
        if n < ROWS {
            assert(co2 < 400 + 200 * n);
        }
        if n == 1 {
            assert((co2 - 400) / 200 == 0);
        } else if n == 2 {
            assert((co2 - 400) / 200 == 1);
        } else if n == 3 {
            assert((co2 - 400) / 200 == 2);
        } else if n == 4 {
            assert((co2 - 400) / 200 == 3);
        }
    }
    n
}

/// The bar as a frame of rows, top row first; a lit row lights all columns.
pub fn level_frame(co2: u16) -> (r: [u8; 5])
    ensures
        forall|k: int|
            0 <= k < ROWS ==> r@[k] == (if row_lit(co2, ROWS - 1 - k) {
                FULL_ROW
            } else {
                0u8
            }),
{
    let lit = lit_rows(co2);
    let mut frame = [0u8; 5];
    let mut k: usize = 0;
    while k < ROWS
        invariant
            k <= ROWS,
            lit <= ROWS,
            forall|i: int| 0 <= i < ROWS ==> (i < lit <==> row_lit(co2, i)),
            forall|j: int|
                0 <= j < k ==> frame@[j] == (if row_lit(co2, ROWS - 1 - j) {
                    FULL_ROW
                } else {
                    0u8
                }),
            forall|j: int| k <= j < ROWS ==> frame@[j] == 0u8,
        decreases ROWS - k,
    {
        if ROWS - 1 - k < lit {
            frame[k] = FULL_ROW;
        }
        k = k + 1;
    }
    frame
}

/// The decimal digits of `n`, most significant first, in ASCII.
pub open spec fn decimal(n: nat) -> Seq<u8>
    decreases n,
{
    if n < 10 {
        seq![(n + 0x30) as u8]
    } else {
        decimal(n / 10) + seq![((n % 10) + 0x30) as u8]
    }
}

fn push_decimal(buf: &mut Vec<u8>, n: u16)
    ensures
        final(buf)@ == old(buf)@ + decimal(n as nat),
    decreases n,
{
    if n >= 10 {
        push_decimal(buf, n / 10);
    }
    let ghost mid = buf@;
    buf.push((n % 10) as u8 + 0x30);
    proof {
        if n >= 10 {
            assert(buf@ =~= old(buf)@ + decimal(n as nat));
        } else {
            assert(buf@ =~= old(buf)@ + decimal(n as nat));
        }
    }
}

/// The text scrolled across the matrix: a space, then the reading in decimal.
pub fn scroll_text(co2: u16) -> (r: Vec<u8>)
    ensures
        r@ == seq![0x20u8] + decimal(co2 as nat),
{
    let mut r: Vec<u8> = Vec::new();
    r.push(0x20u8);
    push_decimal(&mut r, co2);
    r
}

} // verus!
