//! Text for commands and for the log: decimal numbers, joined words, and lines.
use vstd::prelude::*;
use vstd::string::*;

verus! {

/// The decimal digit `d` as a character.
pub open spec fn digit(d: nat) -> char {
    (48 + d) as char
}

/// The decimal digits of `n`, without leading zeros.
pub open spec fn decimal(n: nat) -> Seq<char>
    decreases n,
{
    if n < 10 {
        seq![digit(n)]
    } else {
        decimal(n / 10).push(digit(n % 10))
    }
}

/// The decimal digits of `i`, after a minus sign where `i` is negative.
pub open spec fn signed_decimal(i: int) -> Seq<char> {
    if i < 0 {
        seq!['-'] + decimal((-i) as nat)
    } else {
        decimal(i as nat)
    }
}

/// The number that a sequence of decimal digits stands for.
pub open spec fn decimal_value(s: Seq<char>) -> int
    decreases s.len(),
{
    if s.len() == 0 {
        0
    } else {
        10 * decimal_value(s.drop_last()) + (s.last() as int - 48)
    }
}

/// Reading back the decimal digits of a number gives the number.
pub proof fn decimal_reads_back(n: nat)
    ensures
        decimal_value(decimal(n)) == n,
    decreases n,
{
    reveal_with_fuel(decimal_value, 2);
    if n < 10 {
        assert(decimal(n).drop_last() =~= Seq::<char>::empty());
    } else {
        decimal_reads_back(n / 10);
        assert(decimal(n).drop_last() =~= decimal(n / 10));
    }
}

/// Reading one more digit shifts what has been read by one place and adds the digit.
pub proof fn one_more_digit(s: Seq<char>, c: char)
    ensures
        decimal_value(Seq::empty()) == 0,
        decimal_value(s.push(c)) == 10 * decimal_value(s) + (c as int - '0' as int),
{
    assert(s.push(c).drop_last() =~= s);
}

/// The decimal digits of a number are digits, none of them a leading zero, and reading them back
/// gives the number.
pub proof fn decimal_is_digits(n: nat)
    ensures
        decimal(n).len() >= 1,
        forall|i: int|
            0 <= i < decimal(n).len() ==> '0' as int <= (#[trigger] decimal(n)[i]) as int <= '9' as int,
        decimal(n)[0] == '0' ==> n == 0 && decimal(n).len() == 1,
        decimal_value(decimal(n)) == n,
    decreases n,
{
    decimal_reads_back(n);
    if n >= 10 {
        decimal_is_digits(n / 10);
        assert(decimal(n)[0] == decimal(n / 10)[0]);
    }
}

/// The text of a signed number starts with a minus sign if and only if the number is negative, and
/// what follows the sign, or the whole where there is none, is digits that read back as the
/// absolute value, without leading zeros.
pub proof fn signed_decimal_reads_back(i: int)
    ensures
        signed_decimal(i).len() >= 1,
        signed_decimal(i)[0] == '-' <==> i < 0,
        ({
            let digits = if i < 0 { signed_decimal(i).skip(1) } else { signed_decimal(i) };
            &&& digits.len() >= 1
            &&& forall|k: int|
                0 <= k < digits.len() ==> '0' as int <= (#[trigger] digits[k]) as int <= '9' as int
            &&& digits[0] == '0' ==> i == 0 && digits.len() == 1
            &&& decimal_value(digits) == (if i < 0 { -i } else { i })
        }),
{
    if i < 0 {
        decimal_is_digits((-i) as nat);
        assert(signed_decimal(i).skip(1) =~= decimal((-i) as nat));
    } else {
        decimal_is_digits(i as nat);
        assert('0' as int <= signed_decimal(i)[0] as int);
    }
}

/// No two numbers have the same text.
pub proof fn signed_decimal_is_injective(i: int, j: int)
    requires
        signed_decimal(i) == signed_decimal(j),
    ensures
        i == j,
{
    signed_decimal_reads_back(i);
    signed_decimal_reads_back(j);
}

/// The parts one after another, with `sep` between neighbours.
pub open spec fn joined(parts: Seq<Seq<char>>, sep: Seq<char>) -> Seq<char>
    decreases parts.len(),
{
    if parts.len() == 0 {
        Seq::empty()
    } else if parts.len() == 1 {
        parts[0]
    } else {
        joined(parts.drop_last(), sep) + sep + parts.last()
    }
}

/// Joining nothing gives nothing, joining one part gives the part, and joining more gives what
/// joining those up to any point gives, the separator, and what joining the rest gives.
pub proof fn joined_at_a_seam(a: Seq<Seq<char>>, b: Seq<Seq<char>>, part: Seq<char>, sep: Seq<char>)
    requires
        a.len() > 0,
        b.len() > 0,
    ensures
        joined(Seq::empty(), sep) == Seq::<char>::empty(),
        joined(seq![part], sep) == part,
        joined(a + b, sep) == joined(a, sep) + sep + joined(b, sep),
    decreases b.len(),
{
    if b.len() == 1 {
        assert((a + b).drop_last() =~= a);
        assert(joined(a + b, sep) =~= joined(a, sep) + sep + joined(b, sep));
    } else {
        joined_at_a_seam(a, b.drop_last(), part, sep);
        assert((a + b).drop_last() =~= a + b.drop_last());
        assert(joined(a + b, sep) =~= joined(a, sep) + sep + joined(b, sep));
    }
}

/// The texts that a sequence of strings holds.
pub open spec fn texts(v: Seq<String>) -> Seq<Seq<char>> {
    v.map_values(|s: String| s@)
}

/// The texts that a sequence of string slices holds.
pub open spec fn slices(v: Seq<&str>) -> Seq<Seq<char>> {
    v.map_values(|s: &str| s@)
}

/// The texts of strings and of string slices are theirs, in the same order.
pub proof fn texts_in_order(v: Seq<String>, w: Seq<&str>)
    ensures
        texts(v).len() == v.len(),
        forall|i: int| 0 <= i < v.len() ==> #[trigger] texts(v)[i] == v[i]@,
        slices(w).len() == w.len(),
        forall|i: int| 0 <= i < w.len() ==> #[trigger] slices(w)[i] == w[i]@,
{
}

fn digit_text(d: u64) -> (r: &'static str)
    requires
        d < 10,
    ensures
        r@ == seq![digit(d as nat)],
{
    proof {
        reveal_strlit("0");
        reveal_strlit("1");
        reveal_strlit("2");
        reveal_strlit("3");
        reveal_strlit("4");
        reveal_strlit("5");
        reveal_strlit("6");
        reveal_strlit("7");
        reveal_strlit("8");
        reveal_strlit("9");
    }
    match d {
        0 => "0",
        1 => "1",
        2 => "2",
        3 => "3",
        4 => "4",
        5 => "5",
        6 => "6",
        7 => "7",
        8 => "8",
        _ => "9",
    }
}

/// Writes `n` in decimal.
pub fn decimal_text(n: u64) -> (r: String)
    ensures
        r@ == decimal(n as nat),
    decreases n,
{
    if n < 10 {
        digit_text(n).to_owned()
    } else {
        let mut r = decimal_text(n / 10);
        r.append(digit_text(n % 10));
        r
    }
}

/// Writes `i` in decimal, with a minus sign where it is negative.
pub fn signed_decimal_text(i: i64) -> (r: String)
    ensures
        r@ == signed_decimal(i as int),
{
    if i < 0 {
        let magnitude: u64 = if i == i64::MIN {
            0x8000_0000_0000_0000
        } else {
            (-i) as u64
        };
        let mut r = "-".to_owned();
        proof {
            reveal_strlit("-");
        }
        r.append(decimal_text(magnitude).as_str());
        assert(r@ =~= signed_decimal(i as int));
        r
    } else {
        decimal_text(i as u64)
    }
}

/// Joins `parts` with `sep` between neighbours.
pub fn join_texts(parts: &Vec<String>, sep: &str) -> (r: String)
    ensures
        r@ == joined(texts(parts@), sep@),
{
    let mut r = String::new();
    let ghost all = texts(parts@);
    let mut i: usize = 0;
    while i < parts.len()
        invariant
            i <= parts.len(),
            all == texts(parts@),
            r@ == joined(all.take(i as int), sep@),
        decreases parts.len() - i,
    {
        proof {
            assert(all.take(i + 1).drop_last() =~= all.take(i as int));
            assert(all.take(i + 1).last() == parts@[i as int]@);
        }
        if i > 0 {
            r.append(sep);
        }
        r.append(parts[i].as_str());
        proof {
            if i == 0 {
                assert(r@ =~= parts@[0]@);
            }
        }
        i = i + 1;
    }
    proof {
        assert(all.take(i as int) =~= all);
    }
    r
}

/// Whether `lines` are the lines of `text`: there is at least one, none holds a newline, and
/// joined by newlines they give the text back.
pub open spec fn are_lines_of(lines: Seq<Seq<char>>, text: Seq<char>) -> bool {
    &&& lines.len() >= 1
    &&& forall|i: int| 0 <= i < lines.len() ==> !(#[trigger] lines[i]).contains('\n')
    &&& joined(lines, seq!['\n']) == text
}

/// A text has only one sequence of lines.
pub proof fn lines_are_unique(a: Seq<Seq<char>>, b: Seq<Seq<char>>, text: Seq<char>)
    requires
        are_lines_of(a, text),
        are_lines_of(b, text),
    ensures
        a == b,
    decreases a.len(),
{
    let sep = seq!['\n'];
    if a.len() == 1 && b.len() == 1 {
        assert(a =~= b);
    } else if a.len() == 1 {
        assert(text[text.len() - b.last().len() - 1] == '\n');
        assert(a[0].contains('\n'));
    } else if b.len() == 1 {
        assert(text[text.len() - a.last().len() - 1] == '\n');
        assert(b[0].contains('\n'));
    } else {
        let i = text.len() - a.last().len() - 1;
        let j = text.len() - b.last().len() - 1;
        assert(text[i] == '\n' && text[j] == '\n');
        if i < j {
            assert(a.last()[j - i - 1] == '\n');
            assert(a[a.len() - 1].contains('\n'));
        }
        if j < i {
            assert(b.last()[i - j - 1] == '\n');
            assert(b[b.len() - 1].contains('\n'));
        }
        assert(a.last() =~= text.skip(i + 1));
        assert(b.last() =~= text.skip(j + 1));
        assert(joined(a.drop_last(), sep) =~= text.take(i));
        assert(joined(b.drop_last(), sep) =~= text.take(j));
        assert forall|k: int| 0 <= k < a.len() - 1 implies !(#[trigger] a.drop_last()[k]).contains(
            '\n',
        ) by {
            assert(a.drop_last()[k] == a[k]);
        }
        assert forall|k: int| 0 <= k < b.len() - 1 implies !(#[trigger] b.drop_last()[k]).contains(
            '\n',
        ) by {
            assert(b.drop_last()[k] == b[k]);
        }
        lines_are_unique(a.drop_last(), b.drop_last(), text.take(i));
        assert(a =~= a.drop_last().push(a.last()));
        assert(b =~= b.drop_last().push(b.last()));
    }
}

/// A text without a newline is its only line.
pub proof fn single_line(lines: Seq<Seq<char>>, text: Seq<char>)
    requires
        are_lines_of(lines, text),
        !text.contains('\n'),
    ensures
        lines == seq![text],
{
    if lines.len() > 1 {
        assert(text[text.len() - lines.last().len() - 1] == '\n');
    }
    assert(lines =~= seq![text]);
}

/// What stands before the first newline of a text is its first line, and the lines of what stands
/// behind it are the others.
pub proof fn first_line(lines: Seq<Seq<char>>, a: Seq<char>, b: Seq<char>)
    requires
        are_lines_of(lines, a + seq!['\n'] + b),
        !a.contains('\n'),
    ensures
        lines.len() >= 2,
        lines[0] == a,
        are_lines_of(lines.skip(1), b),
{
    let sep = seq!['\n'];
    let text = a + sep + b;
    assert(text[a.len() as int] == '\n');
    if lines.len() == 1 {
        assert(lines[0].contains('\n'));
    } else {
        let rest = lines.skip(1);
        assert(lines =~= seq![lines[0]] + rest);
        joined_at_a_seam(seq![lines[0]], rest, lines[0], sep);
        let n = lines[0].len() as int;
        assert(text == lines[0] + sep + joined(rest, sep));
        assert(text[n] == '\n');
        if n < a.len() {
            assert(a[n] == '\n');
        }
        if a.len() < n {
            assert(lines[0][a.len() as int] == '\n');
        }
        assert(lines[0] =~= text.take(n));
        assert(a =~= text.take(n));
        assert(joined(rest, sep) =~= text.skip(n + 1));
        assert(b =~= text.skip(n + 1));
        assert forall|k: int| 0 <= k < rest.len() implies !(#[trigger] rest[k]).contains('\n') by {
            assert(rest[k] == lines[k + 1]);
        }
    }
}

/// Splits `text` at its newlines.
pub fn split_lines(text: &str) -> (r: Vec<String>)
    ensures
        are_lines_of(texts(r@), text@),
{
    let mut lines: Vec<String> = Vec::new();
    let mut start: usize = 0;
    let mut i: usize = 0;
    let n: usize = text.unicode_len();
    let ghost sep = seq!['\n'];
    for c in it: text.chars()
        invariant
            n == text@.len(),
            it.seq() == text@,
            i == it.index(),
            start <= i <= n,
            sep == seq!['\n'],
            lines@.len() == 0 ==> start == 0,
            lines@.len() > 0 ==> joined(texts(lines@), sep) + sep == text@.take(start as int),
            forall|k: int| 0 <= k < lines@.len() ==> !(#[trigger] lines@[k])@.contains('\n'),
            forall|k: int| start <= k < i ==> text@[k] != '\n',
    {
        if c == '\n' {
            let line = text.substring_char(start, i).to_owned();
            let ghost before = lines@;
            lines.push(line);
            proof {
                assert(texts(lines@).drop_last() =~= texts(before));
                assert(texts(lines@).last() == text@.subrange(start as int, i as int));
                assert(joined(texts(lines@), sep) =~= text@.take(i as int));
                assert(text@.take(i + 1) =~= text@.take(i as int) + sep);
            }
            start = i + 1;
        }
        i = i + 1;
    }
    let line = text.substring_char(start, n).to_owned();
    let ghost before = lines@;
    lines.push(line);
    proof {
        assert(texts(lines@).drop_last() =~= texts(before));
        assert(texts(lines@).last() == text@.subrange(start as int, n as int));
        assert(joined(texts(lines@), sep) =~= text@);
    }
    lines
}

} // verus!
