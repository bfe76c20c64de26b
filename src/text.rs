use vstd::prelude::*;
use vstd::string::StringExecFns;

use crate::model::GridModel;

verus! {

/// The character of a decimal digit `d < 10`.
pub open spec fn digit_char(d: nat) -> char {
    ((d + 48) as u8) as char
}

/// The decimal notation of `n`, most significant digit first, without
/// leading zeros.
pub open spec fn decimal(n: nat) -> Seq<char>
    decreases n,
{
    if n < 10 {
        seq![digit_char(n)]
    } else {
        decimal(n / 10).push(digit_char(n % 10))
    }
}

/// The lines of a matrix: each inner sequence in turn, each followed by a
/// line break.
pub open spec fn lines(rows: Seq<Seq<char>>) -> Seq<char>
    decreases rows.len(),
{
    if rows.len() == 0 {
        Seq::empty()
    } else {
        lines(rows.drop_last()) + rows.last().push('\n')
    }
}

/// The heading of a frame: the generation number on a line of its own.
pub open spec fn heading(generation: nat) -> Seq<char> {
    "Generation: "@ + decimal(generation).push('\n')
}

/// The text shown for one frame of a grid: its heading, then one line per
/// column of the matrix.
pub open spec fn frame(m: GridModel) -> Seq<char> {
    heading(m.generation) + lines(m.cells)
}

/// Relies on String::push: appends one character at the end.
#[verifier::external_body]
fn push_char(s: &mut String, c: char)
    ensures
        final(s)@ == old(s)@.push(c),
{
    s.push(c);
}

/// Appends the decimal notation of `n`.
pub fn push_decimal(s: &mut String, n: u64)
    ensures
        final(s)@ == old(s)@ + decimal(n as nat),
    decreases n,
{
    if n >= 10 {
        push_decimal(s, n / 10);
    }
    let d: u8 = (n % 10) as u8;
    push_char(s, (d + 48) as char);
    proof {
        assert(s@ =~= old(s)@ + decimal(n as nat));
    }
}

/// The heading of a frame for generation `generation`.
pub fn heading_text(generation: u64) -> (r: String)
    ensures
        r@ == heading(generation as nat),
{
    let mut s = String::from_str("Generation: ");
    push_decimal(&mut s, generation);
    push_char(&mut s, '\n');
    proof {
        assert(s@ =~= heading(generation as nat));
    }
    s
}

/// Appends `row` and a line break.
pub fn push_line(s: &mut String, row: &Vec<char>)
    ensures
        final(s)@ == old(s)@ + row@.push('\n'),
{
    let mut i: usize = 0;
    while i < row.len()
        invariant
            i <= row@.len(),
            s@ == old(s)@ + row@.take(i as int),
        decreases row@.len() - i,
    {
        push_char(s, row[i]);
        i = i + 1;
        proof {
            assert(s@ =~= old(s)@ + row@.take(i as int));
        }
    }
    push_char(s, '\n');
    proof {
        assert(row@.take(i as int) =~= row@);
        assert(s@ =~= old(s)@ + row@.push('\n'));
    }
}

} // verus!
