//! Bound strategies: how a progress bar is rendered for a given position.

use vstd::prelude::*;
use vstd::string::StringExecFns;

verus! {

/// The sequence `s` repeated `n` times, one copy after another.
pub open spec fn repeat_seq(s: Seq<char>, n: nat) -> Seq<char>
    decreases n,
{
    if n == 0 {
        Seq::empty()
    } else {
        repeat_seq(s, (n - 1) as nat) + s
    }
}

/// Repeating a sequence `n` times gives `n` times its length.
pub proof fn lemma_repeat_len(s: Seq<char>, n: nat)
    ensures
        repeat_seq(s, n).len() == n * s.len(),
    decreases n,
{
    if n == 0 {
        assert(repeat_seq(s, n).len() == 0);
        assert(n * s.len() == 0) by (nonlinear_arith)
            requires
                n == 0,
        ;
    } else {
        lemma_repeat_len(s, (n - 1) as nat);
        assert(repeat_seq(s, n).len() == ((n - 1) as nat) * s.len() + s.len());
        assert(((n - 1) as nat) * s.len() + s.len() == n * s.len()) by (nonlinear_arith)
            requires
                n >= 1,
        ;
    }
}

/// Repeating a one-character sequence `n` times gives the sequence of
/// `n` copies of that character: length exactly `n`, every place the glyph.
pub proof fn lemma_repeat_single(c: char, n: nat)
    ensures
        repeat_seq(seq![c], n) == Seq::new(n, |i: int| c),
    decreases n,
{
    if n == 0 {
        assert(repeat_seq(seq![c], n) =~= Seq::new(n, |i: int| c));
    } else {
        lemma_repeat_single(c, (n - 1) as nat);
        assert(repeat_seq(seq![c], n) =~= Seq::new(n, |i: int| c));
    }
}

/// Relies on `String::push`: appends the one character at the end.
#[verifier::external_body]
fn push_char(s: &mut String, c: char)
    ensures
        final(s)@ == old(s)@.push(c),
{
    s.push(c);
}

/// Append `count` copies of `part` to `s`.
fn push_repeated(s: &mut String, part: &str, count: usize)
    ensures
        final(s)@ == old(s)@ + repeat_seq(part@, count as nat),
{
    let mut k: usize = 0;
    while k < count
        invariant
            k <= count,
            s@ == old(s)@ + repeat_seq(part@, k as nat),
        decreases count - k,
    {
        s.append(part);
        k = k + 1;
    }
}

/// The unbounded bound strategy: a bar that only grows, with no known end.
pub struct Unbounded {
    /// The fill glyph, drawn once per position.
    pub bar: &'static str,
}

/// The bounded bound strategy: a fixed-width bar between two delimiters,
/// filled up to the position and padded with spaces up to the bound.
pub struct Bounded {
    /// The fixed total width of the bar's interior, in positions.
    pub bound: usize,
    /// The opening and closing delimiter drawn around the bar.
    pub delims: (char, char),
    /// The fill glyph, drawn once per position.
    pub bar: &'static str,
}

/// A bound strategy: renders a textual progress bar for a given position,
/// as a pure function of the strategy and the position.
pub trait ProgressDisplay: Sized {
    /// Whether the strategy may be asked to render at `pos`.
    spec fn pos_ok(&self, pos: nat) -> bool;

    /// The text rendered at `pos`.
    spec fn frame(&self, pos: nat) -> Seq<char>;

    /// Render the progress bar for position `pos`.
    fn display(&self, pos: usize) -> (r: String)
        requires
            self.pos_ok(pos as nat),
        ensures
            r@ == self.frame(pos as nat),
    ;
}

impl ProgressDisplay for Unbounded {
    /// An unbounded bar has no upper limit on the position.
    open spec fn pos_ok(&self, pos: nat) -> bool {
        true
    }

    /// The fill glyph repeated once per position.
    open spec fn frame(&self, pos: nat) -> Seq<char> {
        repeat_seq(self.bar@, pos)
    }

    fn display(&self, pos: usize) -> (r: String) {
        let mut s = String::new();
        push_repeated(&mut s, self.bar, pos);
        proof {
            assert(s@ =~= repeat_seq(self.bar@, pos as nat));
        }
        s
    }
}

impl ProgressDisplay for Bounded {
    /// A bounded bar is only rendered while the position is within the bound.
    open spec fn pos_ok(&self, pos: nat) -> bool {
        pos <= self.bound
    }

    /// The opening delimiter, the fill glyph once per position, one space for
    /// each position still to come, and the closing delimiter.
    open spec fn frame(&self, pos: nat) -> Seq<char> {
        seq![self.delims.0] + repeat_seq(self.bar@, pos) + repeat_seq(
            seq![' '],
            (self.bound - pos) as nat,
        ) + seq![self.delims.1]
    }

    fn display(&self, pos: usize) -> (r: String) {
        proof {
            reveal_strlit(" ");
            assert(" "@ =~= seq![' ']);
        }
        let mut s = String::new();
        push_char(&mut s, self.delims.0);
        push_repeated(&mut s, self.bar, pos);
        push_repeated(&mut s, " ", self.bound - pos);
        push_char(&mut s, self.delims.1);
        proof {
            assert(s@ =~= self.frame(pos as nat));
        }
        s
    }
}

/// A bounded frame is well formed: its length is the bound plus the two
/// delimiters, it opens and closes with the delimiters, and the interior is
/// the fill glyph up to the position, spaces from there to the bound.
pub proof fn lemma_bounded_frame(b: Bounded, pos: nat)
    requires
        pos <= b.bound,
        b.bar@.len() == 1,
    ensures
        b.frame(pos).len() == b.bound + 2,
        b.frame(pos)[0] == b.delims.0,
        b.frame(pos)[b.bound + 1] == b.delims.1,
        forall|j: int| 1 <= j <= pos ==> b.frame(pos)[j] == b.bar@[0],
        forall|j: int| pos < j <= b.bound ==> b.frame(pos)[j] == ' ',
{
    lemma_repeat_len(b.bar@, pos);
    lemma_repeat_single(b.bar@[0], pos);
    assert(b.bar@ =~= seq![b.bar@[0]]);
    lemma_repeat_len(seq![' '], (b.bound - pos) as nat);
    lemma_repeat_single(' ', (b.bound - pos) as nat);
}

} // verus!
