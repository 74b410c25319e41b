use vstd::prelude::*;
use crate::level::LogLevel;

verus! {

/// The decimal digit character for a value below ten.
pub open spec fn digit_char(d: int) -> char {
    if d == 0 {
        '0'
    } else if d == 1 {
        '1'
    } else if d == 2 {
        '2'
    } else if d == 3 {
        '3'
    } else if d == 4 {
        '4'
    } else if d == 5 {
        '5'
    } else if d == 6 {
        '6'
    } else if d == 7 {
        '7'
    } else if d == 8 {
        '8'
    } else {
        '9'
    }
}

/// The decimal rendering of `n`, most significant digit first, with no
/// leading zeros (a single `'0'` for zero itself).
pub open spec fn dec_digits(n: nat) -> Seq<char>
    decreases n,
{
    if n < 10 {
        seq![digit_char(n as int)]
    } else {
        dec_digits(n / 10).push(digit_char((n % 10) as int))
    }
}

/// Whether `c` is a decimal digit character.
pub open spec fn is_digit(c: char) -> bool {
    c == '0' || c == '1' || c == '2' || c == '3' || c == '4' || c == '5' || c == '6' || c == '7'
        || c == '8' || c == '9'
}

/// Every character of a decimal rendering is a digit.
pub proof fn lemma_dec_digits_are_digits(n: nat)
    ensures
        dec_digits(n).len() >= 1,
        forall|i: int| 0 <= i < dec_digits(n).len() ==> is_digit(#[trigger] dec_digits(n)[i]),
    decreases n,
{
    if n >= 10 {
        lemma_dec_digits_are_digits(n / 10);
    }
}

/// Appends one digit character to `out`.
fn append_digit(out: &mut String, d: u64)
    requires
        d < 10,
    ensures
        final(out)@ == old(out)@ + seq![digit_char(d as int)],
{
    if d == 0 {
        out.append("0");
    } else if d == 1 {
        out.append("1");
    } else if d == 2 {
        out.append("2");
    } else if d == 3 {
        out.append("3");
    } else if d == 4 {
        out.append("4");
    } else if d == 5 {
        out.append("5");
    } else if d == 6 {
        out.append("6");
    } else if d == 7 {
        out.append("7");
    } else if d == 8 {
        out.append("8");
    } else {
        out.append("9");
    }
    proof {
        reveal_strlit("0");
        reveal_strlit("1");
        reveal_strlit("2");
        reveal_strlit("3");
        reveal_strlit("4");
        reveal_strlit("5");
        reveal_strlit("6");
        reveal_strlit("7");
        reveal_strlit("8");
        reveal_strlit("9");
        assert(final(out)@ =~= old(out)@ + seq![digit_char(d as int)]);
    }
}

/// Appends the decimal rendering of `n` to `out`.
pub fn push_dec(out: &mut String, n: u64)
    ensures
        final(out)@ == old(out)@ + dec_digits(n as nat),
    decreases n,
{
    if n >= 10 {
        push_dec(out, n / 10);
    }
    append_digit(out, n % 10);
    proof {
        assert(final(out)@ =~= old(out)@ + dec_digits(n as nat));
    }
}

/// One formatted line of output: the bracketed timestamp, severity label,
/// thread name, and `file:line` location, then the message verbatim, then a
/// terminating newline.
pub open spec fn line_spec(
    ts: Seq<char>,
    level: LogLevel,
    thread: Seq<char>,
    filepath: Seq<char>,
    line_number: nat,
    message: Seq<char>,
) -> Seq<char> {
    "["@ + ts + "] ["@ + level.label_spec() + "] ["@ + thread + "] ["@ + filepath + ":"@
        + dec_digits(line_number) + "] "@ + message + "\n"@
}

/// The numeric value of a decimal digit character.
pub open spec fn digit_val(c: char) -> int {
    if c == '0' {
        0
    } else if c == '1' {
        1
    } else if c == '2' {
        2
    } else if c == '3' {
        3
    } else if c == '4' {
        4
    } else if c == '5' {
        5
    } else if c == '6' {
        6
    } else if c == '7' {
        7
    } else if c == '8' {
        8
    } else {
        9
    }
}

/// The value of a sequence of decimal digits, most significant first.
pub open spec fn dec_val(s: Seq<char>) -> int
    decreases s.len(),
{
    if s.len() == 0 {
        0
    } else {
        dec_val(s.drop_last()) * 10 + digit_val(s.last())
    }
}

/// Reading the decimal rendering of `n` back gives `n`.
pub proof fn lemma_dec_val_round_trip(n: nat)
    ensures
        dec_val(dec_digits(n)) == n,
    decreases n,
{
    if n < 10 {
        assert(dec_digits(n).drop_last() =~= Seq::<char>::empty());
        assert(dec_val(Seq::<char>::empty()) == 0);
        assert(dec_digits(n).last() == digit_char(n as int));
        assert(digit_val(digit_char(n as int)) == n);
    } else {
        lemma_dec_val_round_trip(n / 10);
        let s = dec_digits(n / 10);
        let c = digit_char((n % 10) as int);
        assert(s.push(c).drop_last() =~= s);
        assert(s.push(c).last() == c);
        assert(digit_val(c) == n % 10);
        assert(n == (n / 10) * 10 + n % 10) by (nonlinear_arith);
        assert(dec_val(dec_digits(n)) == dec_val(s) * 10 + digit_val(c));
    }
}

/// Renders one line of output from the parts of a record and an ambient
/// timestamp and thread name.
pub fn format_line(
    ts: &str,
    level: LogLevel,
    thread: &str,
    filepath: &str,
    line_number: u32,
    message: &str,
) -> (r: String)
    ensures
        r@ == line_spec(ts@, level, thread@, filepath@, line_number as nat, message@),
{
    let mut out = String::new();
    out.append("[");
    out.append(ts);
    out.append("] [");
    out.append(level.label());
    out.append("] [");
    out.append(thread);
    out.append("] [");
    out.append(filepath);
    out.append(":");
    push_dec(&mut out, line_number as u64);
    out.append("] ");
    out.append(message);
    out.append("\n");
    proof {
        assert(out@ =~= line_spec(ts@, level, thread@, filepath@, line_number as nat, message@));
    }
    out
}

/// The remainder of `s` after a required prefix `p`, or nothing when `s`
/// does not start with `p`.
pub open spec fn strip_prefix(s: Seq<char>, p: Seq<char>) -> Option<Seq<char>> {
    if p.is_prefix_of(s) {
        Some(s.skip(p.len() as int))
    } else {
        None
    }
}

/// Splits `s` at the first occurrence of `c`: what stands before it and what
/// follows it, or nothing when `c` does not occur.
pub open spec fn split_first(s: Seq<char>, c: char) -> Option<(Seq<char>, Seq<char>)>
    decreases s.len(),
{
    if s.len() == 0 {
        None
    } else if s[0] == c {
        Some((Seq::empty(), s.drop_first()))
    } else {
        match split_first(s.drop_first(), c) {
            None => None,
            Some(p) => Some((seq![s[0]] + p.0, p.1)),
        }
    }
}

/// When what stands before the first `c` is known to be `a`, splitting gives
/// back exactly `a` and the tail after that `c`.
pub proof fn lemma_split_first_exact(a: Seq<char>, c: char, b: Seq<char>)
    requires
        forall|i: int| 0 <= i < a.len() ==> a[i] != c,
    ensures
        split_first(a + seq![c] + b, c) == Some((a, b)),
    decreases a.len(),
{
    let s = a + seq![c] + b;
    if a.len() == 0 {
        assert(s[0] == c);
        assert(s.drop_first() =~= b);
        assert(a =~= Seq::<char>::empty());
    } else {
        assert(s[0] == a[0]);
        lemma_split_first_exact(a.drop_first(), c, b);
        assert(s.drop_first() =~= a.drop_first() + seq![c] + b);
        assert(seq![s[0]] + a.drop_first() =~= a);
    }
}

/// Stripping a known prefix gives back exactly the rest.
proof fn lemma_strip_prefix_exact(p: Seq<char>, r: Seq<char>)
    ensures
        strip_prefix(p + r, p) == Some(r),
{
    let s = p + r;
    assert(p =~= s.subrange(0, p.len() as int));
    assert(s.skip(p.len() as int) =~= r);
}

/// The fields read back from one formatted line.
#[verifier::ext_equal]
pub struct ParsedLine {
    /// The bracketed timestamp field.
    pub timestamp: Seq<char>,
    /// The bracketed severity label.
    pub label: Seq<char>,
    /// The bracketed thread name.
    pub thread: Seq<char>,
    /// The source file, from the bracketed `file:line` location.
    pub filepath: Seq<char>,
    /// The line number, from the bracketed `file:line` location.
    pub line_number: int,
    /// The message: everything after the location, up to the final newline.
    pub message: Seq<char>,
}

/// Reads the five fields back out of one formatted line, as the line format's
/// shape dictates: four bracketed fields — the fourth split at its colon into
/// a file and a decimal line number — then the message, then the terminating
/// newline.
pub open spec fn parse_line_spec(l: Seq<char>) -> Option<ParsedLine> {
    match strip_prefix(l, "["@) {
        None => None,
        Some(r0) => match split_first(r0, ']') {
            None => None,
            Some((ts, r1)) => match strip_prefix(r1, " ["@) {
                None => None,
                Some(r2) => match split_first(r2, ']') {
                    None => None,
                    Some((label, r3)) => match strip_prefix(r3, " ["@) {
                        None => None,
                        Some(r4) => match split_first(r4, ']') {
                            None => None,
                            Some((thread, r5)) => match strip_prefix(r5, " ["@) {
                                None => None,
                                Some(r6) => match split_first(r6, ':') {
                                    None => None,
                                    Some((filepath, r7)) => match split_first(r7, ']') {
                                        None => None,
                                        Some((digits, r8)) => if digits.len() > 0 && (forall|
                                            i: int,
                                        |
                                            0 <= i < digits.len() ==> is_digit(
                                                #[trigger] digits[i],
                                            )) && r8.len() >= 2 && r8[0] == ' ' && r8.last()
                                            == '\n' {
                                            Some(
                                                ParsedLine {
                                                    timestamp: ts,
                                                    label,
                                                    thread,
                                                    filepath,
                                                    line_number: dec_val(digits),
                                                    message: r8.subrange(1, r8.len() - 1),
                                                },
                                            )
                                        } else {
                                            None
                                        },
                                    },
                                },
                            },
                        },
                    },
                },
            },
        },
    }
}

/// Format round-trip: parsing a formatted line yields back exactly the
/// severity label, thread name, file, line number and message it was built
/// from.  The timestamp and thread fields must hold no closing bracket and
/// the file no colon — a field that embeds its own delimiter cannot be read
/// back — and the message is recovered verbatim, embedded newlines included,
/// since the parse runs from the line's start and its final character.
pub proof fn lemma_format_round_trip(
    ts: Seq<char>,
    level: LogLevel,
    thread: Seq<char>,
    filepath: Seq<char>,
    n: nat,
    message: Seq<char>,
)
    requires
        forall|i: int| 0 <= i < ts.len() ==> ts[i] != ']',
        forall|i: int| 0 <= i < thread.len() ==> thread[i] != ']',
        forall|i: int| 0 <= i < filepath.len() ==> filepath[i] != ':',
    ensures
        parse_line_spec(line_spec(ts, level, thread, filepath, n, message)) matches Some(p)
            && p.timestamp == ts && p.label == level.label_spec() && p.thread == thread
            && p.filepath == filepath && p.line_number == n && p.message == message,
{
    reveal_strlit("[");
    reveal_strlit("] [");
    reveal_strlit(" [");
    reveal_strlit(":");
    reveal_strlit("] ");
    reveal_strlit("\n");
    crate::level::lemma_label_chars(level);
    lemma_dec_digits_are_digits(n);
    lemma_dec_val_round_trip(n);
    let lab = level.label_spec();
    let dd = dec_digits(n);
    let l = line_spec(ts, level, thread, filepath, n, message);

    let t6 = seq![' '] + message + "\n"@;
    let t5 = dd + seq![']'] + t6;
    let t4 = filepath + seq![':'] + t5;
    let u3 = " ["@ + t4;
    let t3 = thread + seq![']'] + u3;
    let u2 = " ["@ + t3;
    let t2 = lab + seq![']'] + u2;
    let u1 = " ["@ + t2;
    let t1 = ts + seq![']'] + u1;

    assert(l =~= "["@ + t1);
    lemma_strip_prefix_exact("["@, t1);
    lemma_split_first_exact(ts, ']', u1);
    lemma_strip_prefix_exact(" ["@, t2);
    lemma_split_first_exact(lab, ']', u2);
    lemma_strip_prefix_exact(" ["@, t3);
    lemma_split_first_exact(thread, ']', u3);
    lemma_strip_prefix_exact(" ["@, t4);
    lemma_split_first_exact(filepath, ':', t5);
    assert(forall|i: int| 0 <= i < dd.len() ==> dd[i] != ']');
    lemma_split_first_exact(dd, ']', t6);
    assert(t6[0] == ' ');
    assert(t6.last() == '\n');
    assert(t6.subrange(1, t6.len() - 1) =~= message);
}

/// How many newline characters a sequence holds.
pub open spec fn newline_count(s: Seq<char>) -> nat {
    s.filter(|c: char| c == '\n').len()
}

/// Newlines add up across concatenation: appending one record's line after
/// another's adds their newline counts, so a workload of appended lines,
/// each carrying exactly one newline, splits back into exactly one line of
/// output per record.
pub proof fn lemma_newline_count_append(a: Seq<char>, b: Seq<char>)
    ensures
        newline_count(a + b) == newline_count(a) + newline_count(b),
{
    Seq::filter_distributes_over_add(a, b, |c: char| c == '\n');
}

/// Line atomicity: a formatted line ends with a newline and adds exactly one
/// newline beyond those the message itself carries; with a newline-free
/// message the line holds no newline before its last character, so it is one
/// line of the output file.  The timestamp, thread and file must be
/// newline-free, as the format passes them through verbatim.
pub proof fn lemma_line_atomicity(
    ts: Seq<char>,
    level: LogLevel,
    thread: Seq<char>,
    filepath: Seq<char>,
    n: nat,
    message: Seq<char>,
)
    requires
        forall|i: int| 0 <= i < ts.len() ==> ts[i] != '\n',
        forall|i: int| 0 <= i < thread.len() ==> thread[i] != '\n',
        forall|i: int| 0 <= i < filepath.len() ==> filepath[i] != '\n',
    ensures
        line_spec(ts, level, thread, filepath, n, message).len() > 0,
        line_spec(ts, level, thread, filepath, n, message).last() == '\n',
        newline_count(line_spec(ts, level, thread, filepath, n, message)) == newline_count(message)
            + 1,
        (forall|i: int| 0 <= i < message.len() ==> message[i] != '\n') ==> (forall|i: int|
            0 <= i < line_spec(ts, level, thread, filepath, n, message).len() - 1 ==> line_spec(
                ts,
                level,
                thread,
                filepath,
                n,
                message,
            )[i] != '\n'),
{
    reveal_strlit("[");
    reveal_strlit("] [");
    reveal_strlit(":");
    reveal_strlit("] ");
    reveal_strlit("\n");
    crate::level::lemma_label_chars(level);
    lemma_dec_digits_are_digits(n);
    let lab = level.label_spec();
    let dd = dec_digits(n);
    let l = line_spec(ts, level, thread, filepath, n, message);
    let prefix = "["@ + ts + "] ["@ + lab + "] ["@ + thread + "] ["@ + filepath + ":"@ + dd
        + "] "@;
    let pred = |c: char| c == '\n';

    assert(forall|i: int| 0 <= i < dd.len() ==> dd[i] != '\n');
    assert(forall|i: int| 0 <= i < prefix.len() ==> prefix[i] != '\n');
    assert(l.last() == '\n');

    assert(prefix.all(|c: char| !pred(c))) by {
        assert(forall|i: int|
            0 <= i < prefix.len() ==> !pred(#[trigger] prefix[i]));
    }
    prefix.lemma_all_neg_filter_empty(pred);
    Seq::filter_distributes_over_add(prefix, message, pred);
    Seq::filter_distributes_over_add(prefix + message, "\n"@, pred);
    assert(l =~= (prefix + message) + "\n"@);
    assert(("\n"@).filter(pred) =~= seq!['\n']) by {
        reveal(Seq::filter);
        assert(("\n"@).drop_last() =~= Seq::<char>::empty());
    }
    assert(l.filter(pred) == prefix.filter(pred) + message.filter(pred) + ("\n"@).filter(pred));
    assert(newline_count(l) == newline_count(message) + 1);

    if forall|i: int| 0 <= i < message.len() ==> message[i] != '\n' {
        assert forall|i: int| 0 <= i < l.len() - 1 implies l[i] != '\n' by {
            assert(l[i] == (prefix + message)[i]);
        }
    }
}

} // verus!

