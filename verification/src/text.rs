//! Character- and string-level helpers shared by the rest of the crate.

use vstd::prelude::*;
use vstd::string::*;

verus! {

/// The Unicode `White_Space` property, which `char::is_whitespace`,
/// `str::split_whitespace` and `str::trim` go by.
pub open spec fn is_ws(c: char) -> bool {
    ||| '\u{9}' <= c <= '\u{d}'
    ||| c == ' '
    ||| c == '\u{85}'
    ||| c == '\u{a0}'
    ||| c == '\u{1680}'
    ||| '\u{2000}' <= c <= '\u{200a}'
    ||| c == '\u{2028}'
    ||| c == '\u{2029}'
    ||| c == '\u{202f}'
    ||| c == '\u{205f}'
    ||| c == '\u{3000}'
}

pub fn is_whitespace(c: char) -> (r: bool)
    ensures
        r == is_ws(c),
{
    ('\u{9}' <= c && c <= '\u{d}') || c == ' ' || c == '\u{85}' || c == '\u{a0}' || c == '\u{1680}'
        || ('\u{2000}' <= c && c <= '\u{200a}') || c == '\u{2028}' || c == '\u{2029}' || c
        == '\u{202f}' || c == '\u{205f}' || c == '\u{3000}'
}

/// The characters of `s`, in order.
pub fn chars_of(s: &str) -> (v: Vec<char>)
    ensures
        v@ == s@,
{
    let mut v: Vec<char> = Vec::new();
    for c in it: s.chars()
        invariant
            v@ == it.seq().take(it.index() as int),
            it.seq() == s@,
    {
        v.push(c);
    }
    v
}


/// Whether `a` and `b` hold the same characters.
pub fn seq_eq(a: &Vec<char>, b: &Vec<char>) -> (r: bool)
    ensures
        r == (a@ == b@),
{
    if a.len() != b.len() {
        return false;
    }
    let mut i: usize = 0;
    while i < a.len()
        invariant
            a@.len() == b@.len(),
            i <= a@.len(),
            forall|k: int| 0 <= k < i ==> a@[k] == b@[k],
        decreases a.len() - i,
    {
        if a[i] != b[i] {
            return false;
        }
        i = i + 1;
    }
    assert(a@ =~= b@);
    true
}

/// Whether `prefix` is a prefix of `s`.
pub fn seq_starts_with(s: &Vec<char>, prefix: &Vec<char>) -> (r: bool)
    ensures
        r == prefix@.is_prefix_of(s@),
{
    if prefix.len() > s.len() {
        return false;
    }
    let mut i: usize = 0;
    while i < prefix.len()
        invariant
            prefix@.len() <= s@.len(),
            i <= prefix@.len(),
            forall|k: int| 0 <= k < i ==> prefix@[k] == s@[k],
        decreases prefix.len() - i,
    {
        if prefix[i] != s[i] {
            assert(prefix@[i as int] != s@.subrange(0, prefix@.len() as int)[i as int]);
            return false;
        }
        i = i + 1;
    }
    assert(prefix@ =~= s@.subrange(0, prefix@.len() as int));
    true
}

/// Whether `a` and `b` are the same text.
pub fn str_eq(a: &str, b: &str) -> (r: bool)
    ensures
        r == (a@ == b@),
{
    seq_eq(&chars_of(a), &chars_of(b))
}

/// Whether `s` starts with `prefix`.
pub fn starts_with(s: &str, prefix: &str) -> (r: bool)
    ensures
        r == prefix@.is_prefix_of(s@),
{
    seq_starts_with(&chars_of(s), &chars_of(prefix))
}


/// The words of `s`: its maximal runs of characters that are not separators, in order.
/// Defined one character at a time.
pub open spec fn split_by(s: Seq<char>, sep: spec_fn(char) -> bool) -> Seq<Seq<char>>
    decreases s.len(),
{
    if s.len() == 0 {
        seq![]
    } else {
        let prev = split_by(s.drop_last(), sep);
        let c = s.last();
        if sep(c) {
            prev
        } else if s.len() == 1 || sep(s[s.len() - 2]) {
            prev.push(seq![c])
        } else {
            prev.update(prev.len() - 1, prev.last().push(c))
        }
    }
}

/// A text that does not end in a separator has at least one word.
pub proof fn lemma_split_by_nonempty(s: Seq<char>, sep: spec_fn(char) -> bool)
    requires
        s.len() > 0,
        !sep(s.last()),
    ensures
        split_by(s, sep).len() > 0,
    decreases s.len(),
{
    if s.len() > 1 && !sep(s[s.len() - 2]) {
        assert(s.drop_last().last() == s[s.len() - 2]);
        lemma_split_by_nonempty(s.drop_last(), sep);
    }
}

/// The words of a text that follows a separator (or nothing) are the words before it
/// followed by the words of the text.
pub proof fn lemma_split_by_append(a: Seq<char>, b: Seq<char>, sep: spec_fn(char) -> bool)
    requires
        a.len() == 0 || sep(a.last()),
    ensures
        split_by(a + b, sep) == split_by(a, sep) + split_by(b, sep),
    decreases b.len(),
{
    if b.len() == 0 {
        assert(a + b =~= a);
        assert(split_by(a, sep) + split_by(b, sep) =~= split_by(a, sep));
    } else {
        let ab = a + b;
        assert(ab.drop_last() =~= a + b.drop_last());
        lemma_split_by_append(a, b.drop_last(), sep);
        let c = b.last();
        assert(ab.last() == c);
        let pa = split_by(a, sep);
        let pb = split_by(b.drop_last(), sep);
        if sep(c) {
        } else if b.len() == 1 || sep(b[b.len() - 2]) {
            if b.len() == 1 {
                if a.len() > 0 {
                    assert(ab[ab.len() - 2] == a.last());
                }
            } else {
                assert(ab[ab.len() - 2] == b[b.len() - 2]);
            }
            assert((pa + pb).push(seq![c]) =~= pa + pb.push(seq![c]));
        } else {
            assert(ab[ab.len() - 2] == b[b.len() - 2]);
            assert(b.drop_last().last() == b[b.len() - 2]);
            lemma_split_by_nonempty(b.drop_last(), sep);
            assert((pa + pb).last() == pb.last());
            assert((pa + pb).update((pa + pb).len() - 1, pb.last().push(c)) =~= pa + pb.update(
                pb.len() - 1,
                pb.last().push(c),
            ));
        }
    }
}

/// The separator `split_words` splits on: `/` or whitespace.
pub open spec fn separator(on_slash: bool) -> spec_fn(char) -> bool {
    if on_slash {
        |c: char| c == '/'
    } else {
        |c: char| is_ws(c)
    }
}

proof fn lemma_split_step(s: Seq<char>, i: int)
    requires
        0 <= i < s.len(),
    ensures
        s.take(i + 1).drop_last() == s.take(i),
        s.take(i + 1).last() == s[i],
        i >= 1 ==> s.take(i + 1)[i - 1] == s[i - 1],
{
    assert(s.take(i + 1).drop_last() =~= s.take(i));
}

/// The words of `s`, split on `/` (`on_slash`) or on whitespace.
pub fn split_words(s: &str, on_slash: bool) -> (r: Vec<String>)
    ensures
        r@.map_values(|w: String| w@) == split_by(s@, separator(on_slash)),
{
    let ghost sep = separator(on_slash);
    let cs = chars_of(s);
    let n = cs.len();
    let mut out: Vec<String> = Vec::new();
    let mut start: usize = 0;
    let mut in_word = false;
    let mut i: usize = 0;
    assert(cs@.take(0) =~= Seq::<char>::empty());
    while i < n
        invariant
            n == cs@.len(),
            cs@ == s@,
            sep == separator(on_slash),
            i <= n,
            in_word ==> start < i && !sep(cs@[i - 1]),
            !in_word ==> (i == 0 || sep(cs@[i - 1])),
            split_by(cs@.take(i as int), sep) == out@.map_values(|w: String| w@) + (if in_word {
                seq![cs@.subrange(start as int, i as int)]
            } else {
                Seq::<Seq<char>>::empty()
            }),
        decreases n - i,
    {
        let c = cs[i];
        proof {
            lemma_split_step(cs@, i as int);
        }
        let ghost prev = split_by(cs@.take(i as int), sep);
        let ghost old_out = out@.map_values(|w: String| w@);
        let is_sep = if on_slash {
            c == '/'
        } else {
            is_whitespace(c)
        };
        assert(is_sep == sep(c));
        if is_sep {
            if in_word {
                let w = s.substring_char(start, i).to_owned();
                out.push(w);
                in_word = false;
                assert(out@.map_values(|w: String| w@) =~= old_out.push(cs@.subrange(start as int, i as int)));
                assert(out@.map_values(|w: String| w@) =~= prev);
            } else {
                assert(prev =~= out@.map_values(|w: String| w@) + Seq::<Seq<char>>::empty());
            }
            assert(split_by(cs@.take(i + 1), sep) == prev);
        } else {
            if !in_word {
                start = i;
                in_word = true;
                assert(cs@.subrange(i as int, i + 1) =~= seq![c]);
                assert(split_by(cs@.take(i + 1), sep) == prev.push(seq![c]));
                assert(prev =~= old_out);
            } else {
                assert(cs@.subrange(start as int, i + 1) =~= cs@.subrange(start as int, i as int).push(c));
                assert(split_by(cs@.take(i + 1), sep) == prev.update(prev.len() - 1, prev.last().push(c)));
            }
        }
        i = i + 1;
        assert(split_by(cs@.take(i as int), sep) =~= out@.map_values(|w: String| w@) + (if in_word {
            seq![cs@.subrange(start as int, i as int)]
        } else {
            Seq::<Seq<char>>::empty()
        }));
    }
    if in_word {
        let w = s.substring_char(start, n).to_owned();
        let ghost old_out = out@.map_values(|w: String| w@);
        out.push(w);
        assert(out@.map_values(|w: String| w@) =~= old_out.push(cs@.subrange(start as int, n as int)));
    }
    assert(cs@.take(n as int) =~= cs@);
    assert(out@.map_values(|w: String| w@) =~= split_by(s@, sep));
    out
}


/// The pieces of `s` between occurrences of `sep`, empty pieces included (what
/// `str::split` yields for a character pattern). Defined one character at a time.
pub open spec fn pieces(s: Seq<char>, sep: char) -> Seq<Seq<char>>
    decreases s.len(),
{
    if s.len() == 0 {
        seq![Seq::<char>::empty()]
    } else {
        let prev = pieces(s.drop_last(), sep);
        if s.last() == sep {
            prev.push(Seq::<char>::empty())
        } else {
            prev.update(prev.len() - 1, prev.last().push(s.last()))
        }
    }
}

proof fn lemma_pieces_nonempty(s: Seq<char>, sep: char)
    ensures
        pieces(s, sep).len() >= 1,
    decreases s.len(),
{
    if s.len() > 0 {
        lemma_pieces_nonempty(s.drop_last(), sep);
    }
}

/// The pieces of `s` between occurrences of `sep`.
pub fn split_pieces(s: &str, sep: char) -> (r: Vec<String>)
    ensures
        r@.map_values(|w: String| w@) == pieces(s@, sep),
{
    let cs = chars_of(s);
    let n = cs.len();
    let mut out: Vec<String> = Vec::new();
    let mut start: usize = 0;
    let mut i: usize = 0;
    assert(cs@.take(0) =~= Seq::<char>::empty());
    assert(cs@.subrange(0, 0) =~= Seq::<char>::empty());
    while i < n
        invariant
            n == cs@.len(),
            cs@ == s@,
            start <= i <= n,
            pieces(cs@.take(i as int), sep) == out@.map_values(|w: String| w@).push(
                cs@.subrange(start as int, i as int),
            ),
        decreases n - i,
    {
        let c = cs[i];
        proof {
            lemma_split_step(cs@, i as int);
            lemma_pieces_nonempty(cs@.take(i as int), sep);
        }
        let ghost prev = pieces(cs@.take(i as int), sep);
        let ghost old_out = out@.map_values(|w: String| w@);
        if c == sep {
            let w = s.substring_char(start, i).to_owned();
            out.push(w);
            assert(out@.map_values(|w: String| w@) =~= old_out.push(cs@.subrange(start as int, i as int)));
            start = i + 1;
            assert(cs@.subrange(start as int, i + 1) =~= Seq::<char>::empty());
            assert(pieces(cs@.take(i + 1), sep) == prev.push(Seq::<char>::empty()));
            assert(prev =~= out@.map_values(|w: String| w@));
        } else {
            assert(cs@.subrange(start as int, i + 1) =~= cs@.subrange(start as int, i as int).push(c));
            assert(pieces(cs@.take(i + 1), sep) == prev.update(prev.len() - 1, prev.last().push(c)));
        }
        i = i + 1;
        assert(pieces(cs@.take(i as int), sep) =~= out@.map_values(|w: String| w@).push(
            cs@.subrange(start as int, i as int),
        ));
    }
    let w = s.substring_char(start, n).to_owned();
    let ghost old_out = out@.map_values(|w: String| w@);
    out.push(w);
    assert(out@.map_values(|w: String| w@) =~= old_out.push(cs@.subrange(start as int, n as int)));
    assert(cs@.take(n as int) =~= cs@);
    out
}


/// Whether `s` does not contain `c`.
pub open spec fn free_of(s: Seq<char>, c: char) -> bool {
    forall|k: int| 0 <= k < s.len() ==> #[trigger] s[k] != c
}

proof fn lemma_pieces_extend(a: Seq<char>, b: Seq<char>, sep: char, k: int)
    requires
        free_of(b, sep),
        0 <= k <= b.len(),
        pieces(a, sep).len() >= 1,
    ensures
        pieces(a + b.take(k), sep) == pieces(a, sep).update(
            pieces(a, sep).len() - 1,
            pieces(a, sep).last() + b.take(k),
        ),
    decreases k,
{
    let p = pieces(a, sep);
    if k == 0 {
        assert(a + b.take(0) =~= a);
        assert(p.last() + b.take(0) =~= p.last());
        assert(p.update(p.len() - 1, p.last()) =~= p);
    } else {
        lemma_pieces_extend(a, b, sep, k - 1);
        let s = a + b.take(k);
        assert(s.drop_last() =~= a + b.take(k - 1));
        assert(s.last() == b[k - 1]);
        assert(b[k - 1] != sep);
        assert(p.last() + b.take(k) =~= (p.last() + b.take(k - 1)).push(b[k - 1]));
        let q = pieces(a + b.take(k - 1), sep);
        assert(q.update(q.len() - 1, q.last().push(b[k - 1])) =~= p.update(p.len() - 1, p.last() + b.take(k)));
    }
}

/// Appending a separator and a piece free of separators appends that piece.
pub proof fn lemma_pieces_push(a: Seq<char>, b: Seq<char>, sep: char)
    requires
        free_of(b, sep),
    ensures
        pieces(a + seq![sep] + b, sep) == pieces(a, sep).push(b),
{
    let a2 = a + seq![sep];
    assert(a2.drop_last() =~= a);
    assert(pieces(a2, sep) == pieces(a, sep).push(Seq::<char>::empty()));
    lemma_pieces_extend(a2, b, sep, b.len() as int);
    assert(b.take(b.len() as int) =~= b);
    assert(Seq::<char>::empty() + b =~= b);
    assert(pieces(a, sep).push(Seq::<char>::empty()).update(pieces(a, sep).len() as int, b) =~= pieces(a, sep).push(b));
}

/// A text free of separators is a single piece.
pub proof fn lemma_pieces_single(b: Seq<char>, sep: char)
    requires
        free_of(b, sep),
    ensures
        pieces(b, sep) == seq![b],
{
    let e = Seq::<char>::empty();
    assert(pieces(e, sep) == seq![e]);
    lemma_pieces_extend(e, b, sep, b.len() as int);
    assert(e + b.take(b.len() as int) =~= b);
    assert(seq![e].update(0, e + b) =~= seq![b]);
    assert(e + b =~= b);
}


/// The decimal digit character for `d`.
pub open spec fn digit_char(d: nat) -> char {
    if d == 0 { '0' } else if d == 1 { '1' } else if d == 2 { '2' } else if d == 3 { '3' }
    else if d == 4 { '4' } else if d == 5 { '5' } else if d == 6 { '6' } else if d == 7 { '7' }
    else if d == 8 { '8' } else { '9' }
}

/// The decimal digits of `n`, most significant first, without leading zeros.
pub open spec fn nat_decimal(n: nat) -> Seq<char>
    decreases n,
{
    if n < 10 {
        seq![digit_char(n)]
    } else {
        nat_decimal(n / 10).push(digit_char(n % 10))
    }
}

/// The decimal text of `i`, with a leading `-` when it is negative (what `Display` prints).
pub open spec fn int_decimal(i: int) -> Seq<char> {
    if i < 0 {
        seq!['-'] + nat_decimal((-i) as nat)
    } else {
        nat_decimal(i as nat)
    }
}

fn digit_str(d: u64) -> (r: &'static str)
    requires
        d < 10,
    ensures
        r@ == seq![digit_char(d as nat)],
{
    match d {
        0 => {
            proof {
                reveal_strlit("0");
            }
            "0"
        },
        1 => {
            proof {
                reveal_strlit("1");
            }
            "1"
        },
        2 => {
            proof {
                reveal_strlit("2");
            }
            "2"
        },
        3 => {
            proof {
                reveal_strlit("3");
            }
            "3"
        },
        4 => {
            proof {
                reveal_strlit("4");
            }
            "4"
        },
        5 => {
            proof {
                reveal_strlit("5");
            }
            "5"
        },
        6 => {
            proof {
                reveal_strlit("6");
            }
            "6"
        },
        7 => {
            proof {
                reveal_strlit("7");
            }
            "7"
        },
        8 => {
            proof {
                reveal_strlit("8");
            }
            "8"
        },
        _ => {
            proof {
                reveal_strlit("9");
            }
            "9"
        },
    }
}

fn append_decimal(out: &mut String, n: u64)
    ensures
        final(out)@ == old(out)@ + nat_decimal(n as nat),
    decreases n,
{
    if n >= 10 {
        append_decimal(out, n / 10);
    }
    let d = digit_str(n % 10);
    out.append(d);
}

/// Appends the decimal text of `i` to `out`.
pub fn push_i64(out: &mut String, i: i64)
    ensures
        final(out)@ == old(out)@ + int_decimal(i as int),
{
    if i < 0 {
        out.append("-");
        proof {
            reveal_strlit("-");
        }
        let magnitude: u64 = if i == i64::MIN {
            9_223_372_036_854_775_808u64
        } else {
            (-i) as u64
        };
        let ghost mid = out@;
        append_decimal(out, magnitude);
        assert(out@ =~= old(out)@ + int_decimal(i as int));
    } else {
        append_decimal(out, i as u64);
    }
}


proof fn lemma_nat_decimal_digits(n: nat)
    ensures
        nat_decimal(n).len() >= 1,
        forall|k: int| 0 <= k < nat_decimal(n).len() ==> #[trigger] nat_decimal(n)[k] != '-',
        nat_decimal(n).last() == digit_char(n % 10),
    decreases n,
{
    if n >= 10 {
        lemma_nat_decimal_digits(n / 10);
    }
}

proof fn lemma_nat_decimal_injective(a: nat, b: nat)
    ensures
        nat_decimal(a) == nat_decimal(b) ==> a == b,
    decreases a + b,
{
    lemma_nat_decimal_digits(a);
    lemma_nat_decimal_digits(b);
    if nat_decimal(a) == nat_decimal(b) {
        if a >= 10 && b >= 10 {
            lemma_nat_decimal_digits(a / 10);
            lemma_nat_decimal_digits(b / 10);
            assert(nat_decimal(a).drop_last() =~= nat_decimal(a / 10));
            assert(nat_decimal(b).drop_last() =~= nat_decimal(b / 10));
            lemma_nat_decimal_injective(a / 10, b / 10);
            assert(digit_char(a % 10) == digit_char(b % 10));
        } else if a >= 10 {
            lemma_nat_decimal_digits(a / 10);
        } else if b >= 10 {
            lemma_nat_decimal_digits(b / 10);
        }
    }
}

/// Different integers have different decimal texts.
pub proof fn lemma_int_decimal_injective(a: int, b: int)
    ensures
        int_decimal(a) == int_decimal(b) ==> a == b,
{
    if int_decimal(a) == int_decimal(b) {
        if a < 0 && b < 0 {
            assert(int_decimal(a).drop_first() =~= nat_decimal((-a) as nat));
            assert(int_decimal(b).drop_first() =~= nat_decimal((-b) as nat));
            lemma_nat_decimal_injective((-a) as nat, (-b) as nat);
        } else if a < 0 {
            lemma_nat_decimal_digits(b as nat);
            assert(int_decimal(b)[0] != '-');
        } else if b < 0 {
            lemma_nat_decimal_digits(a as nat);
            assert(int_decimal(a)[0] != '-');
        } else {
            lemma_nat_decimal_injective(a as nat, b as nat);
        }
    }
}

} // verus!
