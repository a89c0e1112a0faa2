//! Source positions and the rendering helpers they need: splitting a raw
//! byte buffer into lines, turning bytes and numbers into text, and the
//! colorized excerpt a [`Span`] produces for a diagnostic.

use vstd::prelude::*;

verus! {

/// A source location: a zero-based line index and the byte offsets, within
/// that line, of the highlighted range (`start` inclusive, `end` exclusive).
#[derive(Clone, Copy, Debug, PartialEq, Eq, Structural)]
pub struct Span {
    pub line: usize,
    pub start: usize,
    pub end: usize,
}

impl Default for Span {
    /// The zeroed span, used where a statement stores no position of its own.
    fn default() -> (r: Span)
        ensures
            r.line == 0,
            r.start == 0,
            r.end == 0,
    {
        Span { line: 0, start: 0, end: 0 }
    }
}

/// The lines of a byte buffer, split on the newline byte (which belongs to
/// no line). A buffer always holds at least one line: the empty buffer holds
/// one empty line, and a buffer ending in a newline ends in an empty line.
pub open spec fn spec_lines(s: Seq<u8>) -> Seq<Seq<u8>>
    decreases s.len(),
{
    if s.len() == 0 {
        seq![Seq::<u8>::empty()]
    } else if s[0] == 10u8 {
        seq![Seq::<u8>::empty()] + spec_lines(s.subrange(1, s.len() as int))
    } else {
        let rest = spec_lines(s.subrange(1, s.len() as int));
        seq![seq![s[0]] + rest[0]] + rest.subrange(1, rest.len() as int)
    }
}

pub proof fn lemma_spec_lines_nonempty(s: Seq<u8>)
    ensures
        spec_lines(s).len() >= 1,
    decreases s.len(),
{
    if s.len() == 0 {
    } else {
        lemma_spec_lines_nonempty(s.subrange(1, s.len() as int));
    }
}

/// The given line sequence with `p` joined onto the front of its first line.
pub open spec fn prepend_first(p: Seq<u8>, ls: Seq<Seq<u8>>) -> Seq<Seq<u8>> {
    if ls.len() == 0 {
        seq![p]
    } else {
        seq![p + ls[0]] + ls.subrange(1, ls.len() as int)
    }
}

fn split_lines(contents: &[u8]) -> (r: Vec<Vec<u8>>)
    ensures
        r@.map_values(|l: Vec<u8>| l@) == spec_lines(contents@),
{
    let mut out: Vec<Vec<u8>> = Vec::new();
    let mut cur: Vec<u8> = Vec::new();
    let mut i: usize = 0;
    proof {
        assert(contents@.subrange(0, contents@.len() as int) =~= contents@);
        lemma_spec_lines_nonempty(contents@);
        assert(spec_lines(contents@) =~~= out@.map_values(|l: Vec<u8>| l@) + prepend_first(
            cur@,
            spec_lines(contents@.subrange(i as int, contents@.len() as int)),
        ));
    }
    while i < contents.len()
        invariant
            i <= contents@.len(),
            spec_lines(contents@) =~~= out@.map_values(|l: Vec<u8>| l@) + prepend_first(
                cur@,
                spec_lines(contents@.subrange(i as int, contents@.len() as int)),
            ),
        decreases contents@.len() - i,
    {
        let ghost n = contents@.len() as int;
        let ghost tail = contents@.subrange(i as int, n);
        let ghost tail1 = contents@.subrange(i as int + 1, n);
        proof {
            assert(tail.subrange(1, tail.len() as int) =~= tail1);
            assert(tail[0] == contents@[i as int]);
            lemma_spec_lines_nonempty(tail1);
        }
        let b = contents[i];
        if b == 10u8 {
            proof {
                assert(spec_lines(tail) =~~= seq![Seq::<u8>::empty()] + spec_lines(tail1));
            }
            let ghost old_out = out@;
            let ghost old_cur = cur@;
            out.push(cur);
            cur = Vec::new();
            proof {
                assert(out@.map_values(|l: Vec<u8>| l@) =~~= old_out.map_values(|l: Vec<u8>| l@)
                    + seq![old_cur]);
                assert(old_out.map_values(|l: Vec<u8>| l@) + prepend_first(
                    old_cur,
                    spec_lines(tail),
                ) =~~= out@.map_values(|l: Vec<u8>| l@) + prepend_first(cur@, spec_lines(tail1)));
            }
        } else {
            let ghost old_cur = cur@;
            cur.push(b);
            proof {
                let rest = spec_lines(tail1);
                assert(spec_lines(tail) =~~= seq![seq![tail[0]] + rest[0]] + rest.subrange(
                    1,
                    rest.len() as int,
                ));
                assert(old_cur + (seq![tail[0]] + rest[0]) =~= cur@ + rest[0]);
                assert(prepend_first(old_cur, spec_lines(tail)) =~~= prepend_first(cur@, rest));
            }
        }
        i = i + 1;
    }
    proof {
        let ghost tail = contents@.subrange(i as int, contents@.len() as int);
        assert(tail.len() == 0);
        assert(spec_lines(tail) =~~= seq![Seq::<u8>::empty()]);
        assert(cur@ + Seq::<u8>::empty() =~= cur@);
        assert(prepend_first(cur@, spec_lines(tail)) =~~= seq![cur@]);
    }
    let ghost old_out = out@;
    let ghost last = cur@;
    out.push(cur);
    proof {
        assert(out@.map_values(|l: Vec<u8>| l@) =~~= old_out.map_values(|l: Vec<u8>| l@)
            + seq![last]);
        assert(out@.map_values(|l: Vec<u8>| l@) =~~= spec_lines(contents@));
    }
    out
}

/// The characters a byte sequence renders as: each byte read as the character
/// with that code point.
pub open spec fn chars_of(s: Seq<u8>) -> Seq<char> {
    s.map_values(|b: u8| b as char)
}

/// Relies on String::push: appends exactly the given character.
#[verifier::external_body]
fn push_char(s: &mut String, c: char)
    ensures
        final(s)@ == old(s)@ + seq![c],
{
    s.push(c)
}

fn push_byte_range(out: &mut String, bytes: &Vec<u8>, from: usize, to: usize)
    requires
        from <= to,
        to <= bytes@.len(),
    ensures
        final(out)@ == old(out)@ + chars_of(bytes@.subrange(from as int, to as int)),
{
    proof {
        assert(bytes@.subrange(from as int, from as int) =~= Seq::<u8>::empty());
        assert(old(out)@ + chars_of(bytes@.subrange(from as int, from as int)) =~= old(out)@);
    }
    let mut j: usize = from;
    while j < to
        invariant
            from <= j <= to,
            to <= bytes@.len(),
            out@ == old(out)@ + chars_of(bytes@.subrange(from as int, j as int)),
        decreases to - j,
    {
        let c = bytes[j] as char;
        push_char(out, c);
        proof {
            assert(bytes@.subrange(from as int, j as int + 1) =~= bytes@.subrange(
                from as int,
                j as int,
            ).push(bytes@[j as int]));
            assert(chars_of(bytes@.subrange(from as int, j as int + 1)) =~= chars_of(
                bytes@.subrange(from as int, j as int),
            ).push(bytes@[j as int] as char));
            assert(out@ =~= old(out)@ + chars_of(bytes@.subrange(from as int, j as int + 1)));
        }
        j = j + 1;
    }
}

/// The character for one decimal digit.
pub open spec fn digit_char(d: nat) -> char
    recommends
        d < 10,
{
    if d == 0 {
        '0'
    } else if d == 1 {
        '1'
    } else if d == 2 {
        '2'
    } else if d == 3 {
        '3'
    } else if d == 4 {
        '4'
    } else if d == 5 {
        '5'
    } else if d == 6 {
        '6'
    } else if d == 7 {
        '7'
    } else if d == 8 {
        '8'
    } else {
        '9'
    }
}

/// The decimal notation of a number, most significant digit first, with no
/// leading zero except for the number zero itself.
pub open spec fn spec_decimal(n: nat) -> Seq<char>
    decreases n,
{
    if n < 10 {
        seq![digit_char(n)]
    } else {
        spec_decimal(n / 10) + seq![digit_char(n % 10)]
    }
}

fn digit_string(d: usize) -> (r: String)
    requires
        d < 10,
    ensures
        r@ == seq![digit_char(d as nat)],
{
    let r = if d == 0 {
        proof {
            reveal_strlit("0");
        }
        String::from_str("0")
    } else if d == 1 {
        proof {
            reveal_strlit("1");
        }
        String::from_str("1")
    } else if d == 2 {
        proof {
            reveal_strlit("2");
        }
        String::from_str("2")
    } else if d == 3 {
        proof {
            reveal_strlit("3");
        }
        String::from_str("3")
    } else if d == 4 {
        proof {
            reveal_strlit("4");
        }
        String::from_str("4")
    } else if d == 5 {
        proof {
            reveal_strlit("5");
        }
        String::from_str("5")
    } else if d == 6 {
        proof {
            reveal_strlit("6");
        }
        String::from_str("6")
    } else if d == 7 {
        proof {
            reveal_strlit("7");
        }
        String::from_str("7")
    } else if d == 8 {
        proof {
            reveal_strlit("8");
        }
        String::from_str("8")
    } else {
        proof {
            reveal_strlit("9");
        }
        String::from_str("9")
    };
    proof {
        assert(r@ =~= seq![digit_char(d as nat)]);
    }
    r
}

/// Writes a number in decimal notation.
pub fn decimal_string(n: usize) -> (r: String)
    ensures
        r@ == spec_decimal(n as nat),
{
    let mut acc = digit_string(n % 10);
    let mut m: usize = n / 10;
    while m != 0
        invariant
            m != 0 ==> spec_decimal(n as nat) == spec_decimal(m as nat) + acc@,
            m == 0 ==> acc@ == spec_decimal(n as nat),
        decreases m,
    {
        let ghost old_m = m as nat;
        let ghost old_acc = acc@;
        let d = digit_string(m % 10);
        acc = d.concat(acc.as_str());
        m = m / 10;
        proof {
            if m == 0 {
                assert(spec_decimal(old_m) =~= seq![digit_char(old_m % 10)]);
                assert(acc@ =~= spec_decimal(old_m) + old_acc);
                assert(acc@ =~= spec_decimal(n as nat));
            } else {
                assert(spec_decimal(old_m) == spec_decimal(old_m / 10) + seq![
                    digit_char(old_m % 10),
                ]);
                assert(spec_decimal(m as nat) + acc@ =~= spec_decimal(old_m) + old_acc);
            }
        }
    }
    acc
}

impl Span {
    /// Whether this span designates a range inside one of the buffer's lines.
    pub open spec fn in_range(self, contents: Seq<u8>) -> bool {
        &&& (self.line as int) < spec_lines(contents).len()
        &&& self.start <= self.end
        &&& self.end <= spec_lines(contents)[self.line as int].len()
    }

    /// The excerpt this span renders to: its line, with the highlighted range
    /// wrapped in the given color code and a trailing reset code.
    pub open spec fn rendered(self, contents: Seq<u8>, color: Seq<char>) -> Seq<char>
        recommends
            self.in_range(contents),
    {
        let l = spec_lines(contents)[self.line as int];
        chars_of(l.subrange(0, self.start as int)) + color + chars_of(
            l.subrange(self.start as int, self.end as int),
        ) + "\u{001b}[0m"@ + chars_of(l.subrange(self.end as int, l.len() as int))
    }

    /// Extracts this span's line from the raw source bytes and colorizes the
    /// spanned range, or yields nothing when the span does not lie within the
    /// buffer.
    pub fn show(&self, contents: &[u8], color: &str) -> (r: Option<String>)
        ensures
            match r {
                Some(s) => self.in_range(contents@) && s@ == self.rendered(contents@, color@),
                None => !self.in_range(contents@),
            },
    {
        let lines = split_lines(contents);
        if self.line >= lines.len() {
            return None;
        }
        let l = &lines[self.line];
        proof {
            assert(l@ == spec_lines(contents@)[self.line as int]);
        }
        if self.start > self.end || self.end > l.len() {
            return None;
        }
        let mut out = String::new();
        push_byte_range(&mut out, l, 0, self.start);
        out.append(color);
        push_byte_range(&mut out, l, self.start, self.end);
        out.append("\u{001b}[0m");
        push_byte_range(&mut out, l, self.end, l.len());
        Some(out)
    }
}

} // verus!
