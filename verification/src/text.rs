//! Character-level text helpers: line splitting with the same semantics as
//! the standard library's `lines`, whitespace trimming, joining, substring
//! search, and decimal formatting, each pinned to a spec-level definition.

use vstd::prelude::*;

verus! {

/// Whether a character has the Unicode white-space property (the set the
/// standard library's `trim` removes).
pub open spec fn is_space(c: char) -> bool {
    let u = c as u32;
    ||| u == 9
    ||| u == 10
    ||| u == 11
    ||| u == 12
    ||| u == 13
    ||| u == 32
    ||| u == 0x85
    ||| u == 0xA0
    ||| u == 0x1680
    ||| (0x2000 <= u && u <= 0x200A)
    ||| u == 0x2028
    ||| u == 0x2029
    ||| u == 0x202F
    ||| u == 0x205F
    ||| u == 0x3000
}

/// Whether a character has the Unicode white-space property.
#[verifier::when_used_as_spec(is_space)]
pub fn check_is_space(c: char) -> (r: bool)
    ensures
        r == is_space(c),
{
    let u = c as u32;
    u == 9 || u == 10 || u == 11 || u == 12 || u == 13 || u == 32 || u == 0x85 || u == 0xA0
        || u == 0x1680 || (0x2000 <= u && u <= 0x200A) || u == 0x2028 || u == 0x2029 || u == 0x202F
        || u == 0x205F || u == 0x3000
}

/// The sequence with leading white space removed.
pub open spec fn trim_front(s: Seq<char>) -> Seq<char>
    decreases s.len(),
{
    if s.len() > 0 && is_space(s[0]) {
        trim_front(s.drop_first())
    } else {
        s
    }
}

/// The sequence with trailing white space removed.
pub open spec fn trim_back(s: Seq<char>) -> Seq<char>
    decreases s.len(),
{
    if s.len() > 0 && is_space(s[s.len() - 1]) {
        trim_back(s.drop_last())
    } else {
        s
    }
}

/// The sequence with leading and trailing white space removed.
pub open spec fn trim_spec(s: Seq<char>) -> Seq<char> {
    trim_back(trim_front(s))
}

/// Remove leading and trailing white space.
pub fn trim_chars(v: &Vec<char>) -> (r: Vec<char>)
    ensures
        r@ == trim_spec(v@),
{
    let n = v.len();
    let mut start: usize = 0;
    proof {
        assert(v@.subrange(0, n as int) =~= v@);
    }
    while start < n && check_is_space(v[start])
        invariant
            n == v@.len(),
            start <= n,
            trim_front(v@) == trim_front(v@.subrange(start as int, n as int)),
        decreases n - start,
    {
        proof {
            assert(v@.subrange(start as int, n as int).drop_first() =~= v@.subrange(
                start as int + 1,
                n as int,
            ));
        }
        start = start + 1;
    }
    proof {
        assert(trim_front(v@) =~= v@.subrange(start as int, n as int));
    }
    let mut end: usize = n;
    while end > start && check_is_space(v[end - 1])
        invariant
            n == v@.len(),
            start <= end <= n,
            trim_front(v@) == v@.subrange(start as int, n as int),
            trim_back(v@.subrange(start as int, n as int)) == trim_back(
                v@.subrange(start as int, end as int),
            ),
        decreases end,
    {
        proof {
            assert(v@.subrange(start as int, end as int).drop_last() =~= v@.subrange(
                start as int,
                end as int - 1,
            ));
        }
        end = end - 1;
    }
    proof {
        assert(trim_spec(v@) =~= v@.subrange(start as int, end as int));
    }
    let mut r: Vec<char> = Vec::new();
    let mut i: usize = start;
    while i < end
        invariant
            start <= i <= end <= n,
            n == v@.len(),
            r@ == v@.subrange(start as int, i as int),
        decreases end - i,
    {
        r.push(v[i]);
        proof {
            assert(v@.subrange(start as int, i as int).push(v@[i as int]) =~= v@.subrange(
                start as int,
                i as int + 1,
            ));
        }
        i = i + 1;
    }
    r
}

/// The index of the first newline in `s`, or `s.len()` if there is none.
pub open spec fn find_nl(s: Seq<char>) -> int
    decreases s.len(),
{
    if s.len() == 0 {
        0
    } else if s[0] == '\n' {
        0
    } else {
        1 + find_nl(s.drop_first())
    }
}

/// `find_nl` indeed points at the first newline, inside the sequence.
pub proof fn lemma_find_nl_props(s: Seq<char>)
    ensures
        0 <= find_nl(s) <= s.len(),
        find_nl(s) < s.len() ==> s[find_nl(s)] == '\n',
        forall|m: int| 0 <= m < find_nl(s) ==> s[m] != '\n',
    decreases s.len(),
{
    if s.len() > 0 && s[0] != '\n' {
        lemma_find_nl_props(s.drop_first());
        assert forall|m: int| 0 <= m < find_nl(s) implies s[m] != '\n' by {
            if m >= 1 {
                assert(s.drop_first()[m - 1] == s[m]);
            }
        }
    }
}

/// A position that is a first newline — or the end, with no newline before
/// it — is what `find_nl` returns.
pub proof fn lemma_find_nl_at(s: Seq<char>, k: int)
    requires
        0 <= k <= s.len(),
        forall|m: int| 0 <= m < k ==> s[m] != '\n',
        k == s.len() || s[k] == '\n',
    ensures
        find_nl(s) == k,
    decreases k,
{
    if k > 0 {
        assert(s[0] != '\n');
        lemma_find_nl_at(s.drop_first(), k - 1);
    }
}

/// One line as delivered: a terminated line loses at most one trailing
/// carriage return.
pub open spec fn strip_cr(t: Seq<char>) -> Seq<char> {
    if t.len() > 0 && t[t.len() - 1] == '\r' {
        t.drop_last()
    } else {
        t
    }
}

/// The lines of `s`, split at `\n` or `\r\n`, with an optional final line
/// ending — the same lines the standard library's `lines` yields.
pub open spec fn lines_spec(s: Seq<char>) -> Seq<Seq<char>>
    decreases s.len(),
    via lines_spec_decreases
{
    if s.len() == 0 {
        Seq::empty()
    } else {
        let i = find_nl(s);
        if i == s.len() {
            seq![s]
        } else {
            seq![strip_cr(s.subrange(0, i))] + lines_spec(s.subrange(i + 1, s.len() as int))
        }
    }
}

#[via_fn]
proof fn lines_spec_decreases(s: Seq<char>) {
    lemma_find_nl_props(s);
}

/// Split into lines, exactly as `lines_spec` states.
pub fn split_lines(v: &Vec<char>) -> (r: Vec<Vec<char>>)
    ensures
        r.deep_view() == lines_spec(v@),
{
    let n = v.len();
    let mut r: Vec<Vec<char>> = Vec::new();
    let mut pos: usize = 0;
    proof {
        assert(r.deep_view() =~= Seq::<Seq<char>>::empty());
        assert(v@.subrange(0, n as int) =~= v@);
    }
    while pos < n
        invariant
            pos <= n,
            n == v@.len(),
            lines_spec(v@) == r.deep_view() + lines_spec(v@.subrange(pos as int, n as int)),
        decreases n - pos,
    {
        let ghost old_r = r.deep_view();
        let mut j: usize = pos;
        while j < n && !(v[j] == '\n')
            invariant
                pos <= j <= n,
                n == v@.len(),
                forall|m: int| pos <= m < j ==> v@[m] != '\n',
            decreases n - j,
        {
            j = j + 1;
        }
        let stop: usize = if j < n && j > pos && v[j - 1] == '\r' {
            j - 1
        } else {
            j
        };
        let mut line: Vec<char> = Vec::new();
        let mut i: usize = pos;
        while i < stop
            invariant
                pos <= i <= stop <= n,
                n == v@.len(),
                line@ == v@.subrange(pos as int, i as int),
            decreases stop - i,
        {
            line.push(v[i]);
            proof {
                assert(v@.subrange(pos as int, i as int).push(v@[i as int]) =~= v@.subrange(
                    pos as int,
                    i as int + 1,
                ));
            }
            i = i + 1;
        }
        proof {
            let s_rem = v@.subrange(pos as int, n as int);
            assert(forall|m: int|
                0 <= m < j - pos ==> s_rem[m] == v@[pos + m] && v@[pos + m] != '\n');
            lemma_find_nl_at(s_rem, j as int - pos as int);
            if j < n {
                assert(s_rem.subrange(0, j as int - pos as int) =~= v@.subrange(
                    pos as int,
                    j as int,
                ));
                assert(s_rem.subrange(j as int - pos as int + 1, s_rem.len() as int)
                    =~= v@.subrange(j as int + 1, n as int));
                if j > pos && v@[j as int - 1] == '\r' {
                    assert(v@.subrange(pos as int, j as int).drop_last() =~= v@.subrange(
                        pos as int,
                        j as int - 1,
                    ));
                    assert(strip_cr(v@.subrange(pos as int, j as int)) =~= line@);
                } else {
                    assert(strip_cr(v@.subrange(pos as int, j as int)) =~= line@);
                }
                assert(lines_spec(s_rem) == seq![line@] + lines_spec(
                    v@.subrange(j as int + 1, n as int),
                ));
            } else {
                assert(line@ =~= s_rem);
                assert(lines_spec(s_rem) == seq![line@]);
                assert(v@.subrange(n as int, n as int) =~= Seq::<char>::empty());
            }
        }
        let ghost old_vec = r@;
        r.push(line);
        proof {
            assert(line.deep_view() =~= line@);
            assert(forall|t: int|
                0 <= t < old_vec.len() ==> r@[t] == #[trigger] old_vec[t]);
            assert(r.deep_view() =~= old_r.push(line@));
            assert(old_r.push(line@) =~= old_r + seq![line@]);
        }
        pos = if j < n {
            j + 1
        } else {
            j
        };
    }
    proof {
        assert(lines_spec(v@.subrange(pos as int, n as int)) =~= Seq::<Seq<char>>::empty());
        assert(r.deep_view() + Seq::<Seq<char>>::empty() =~= r.deep_view());
    }
    r
}

/// The lines joined back with single newlines, no terminator.
pub open spec fn join_nl(ls: Seq<Seq<char>>) -> Seq<char>
    decreases ls.len(),
{
    if ls.len() == 0 {
        Seq::empty()
    } else if ls.len() == 1 {
        ls[0]
    } else {
        ls[0] + seq!['\n'] + join_nl(ls.drop_first())
    }
}

/// Appending one more line extends the join by a newline and that line.
pub proof fn lemma_join_nl_push(ls: Seq<Seq<char>>, x: Seq<char>)
    ensures
        ls.len() == 0 ==> join_nl(ls.push(x)) == x,
        ls.len() > 0 ==> join_nl(ls.push(x)) == join_nl(ls) + seq!['\n'] + x,
    decreases ls.len(),
{
    if ls.len() == 0 {
        assert(ls.push(x)[0] =~= x);
    } else if ls.len() == 1 {
        assert(ls.push(x).drop_first() =~= seq![x]);
        assert(ls.push(x)[0] == ls[0]);
        assert(join_nl(seq![x]) == x);
        assert(join_nl(ls.push(x)) == ls[0] + seq!['\n'] + x);
        assert(join_nl(ls) == ls[0]);
    } else {
        lemma_join_nl_push(ls.drop_first(), x);
        assert(ls.push(x).drop_first() =~= ls.drop_first().push(x));
        assert(ls.push(x)[0] == ls[0]);
    }
}

/// Join the lines `from..to` with single newlines.
pub fn join_lines(ls: &Vec<Vec<char>>, from: usize, to: usize) -> (r: Vec<char>)
    requires
        from <= to <= ls@.len(),
    ensures
        r@ == join_nl(ls.deep_view().subrange(from as int, to as int)),
{
    let mut r: Vec<char> = Vec::new();
    let mut k: usize = from;
    proof {
        assert(ls.deep_view().subrange(from as int, from as int) =~= Seq::<Seq<char>>::empty());
    }
    while k < to
        invariant
            from <= k <= to <= ls@.len(),
            ls.deep_view().len() == ls@.len(),
            r@ == join_nl(ls.deep_view().subrange(from as int, k as int)),
        decreases to - k,
    {
        let ghost prefix = ls.deep_view().subrange(from as int, k as int);
        if k > from {
            r.push('\n');
        }
        let line = &ls[k];
        let mut i: usize = 0;
        let ghost r_mid = r@;
        while i < line.len()
            invariant
                i <= line@.len(),
                r@ == r_mid + line@.subrange(0, i as int),
            decreases line@.len() - i,
        {
            r.push(line[i]);
            proof {
                assert(r_mid + line@.subrange(0, i as int + 1) =~= (r_mid + line@.subrange(
                    0,
                    i as int,
                )).push(line@[i as int]));
            }
            i = i + 1;
        }
        proof {
            assert(line@.subrange(0, line@.len() as int) =~= line@);
            assert(line.deep_view() =~= line@);
            lemma_join_nl_push(prefix, line@);
            assert(ls.deep_view().subrange(from as int, k as int + 1) =~= prefix.push(
                ls.deep_view()[k as int],
            ));
            if k > from {
                assert(r@ =~= join_nl(prefix) + seq!['\n'] + line@);
            } else {
                assert(r@ =~= line@);
            }
        }
        k = k + 1;
    }
    r
}

/// Whether `needle` occurs contiguously inside `hay`.
pub open spec fn contains_sub(hay: Seq<char>, needle: Seq<char>) -> bool {
    exists|i: int|
        0 <= i && i + needle.len() <= hay.len() && #[trigger] hay.subrange(
            i,
            i + needle.len() as int,
        ) == needle
}

/// Decide whether `needle` occurs contiguously inside `hay`.
pub fn find_sub(hay: &Vec<char>, needle: &Vec<char>) -> (r: bool)
    ensures
        r == contains_sub(hay@, needle@),
{
    let m = needle.len();
    let n = hay.len();
    if m > n {
        return false;
    }
    let mut i: usize = 0;
    while i <= n - m
        invariant
            m <= n,
            n == hay@.len(),
            m == needle@.len(),
            i <= n - m + 1,
            forall|k: int| 0 <= k < i ==> #[trigger] hay@.subrange(k, k + m as int) != needle@,
        decreases n - m + 1 - i,
    {
        let mut j: usize = 0;
        while j < m && hay[i + j] == needle[j]
            invariant
                i + m <= n,
                n == hay@.len(),
                m == needle@.len(),
                j <= m,
                forall|t: int| 0 <= t < j ==> hay@[i + t] == needle@[t],
            decreases m - j,
        {
            j = j + 1;
        }
        if j == m {
            proof {
                assert(hay@.subrange(i as int, i as int + m as int) =~= needle@);
            }
            return true;
        }
        proof {
            assert(hay@.subrange(i as int, i as int + m as int)[j as int] == hay@[i as int
                + j as int]);
            assert(hay@.subrange(i as int, i as int + m as int) != needle@);
        }
        i = i + 1;
    }
    proof {
        assert(forall|k: int|
            0 <= k && k + needle@.len() <= hay@.len() ==> #[trigger] hay@.subrange(
                k,
                k + needle@.len() as int,
            ) != needle@);
    }
    false
}

/// Collect the characters of a string slice.
pub fn chars_vec(s: &str) -> (r: Vec<char>)
    ensures
        r@ == s@,
{
    let n = s.unicode_len();
    let mut r: Vec<char> = Vec::new();
    let mut i: usize = 0;
    proof {
        assert(r@ =~= s@.subrange(0, 0));
    }
    while i < n
        invariant
            n == s@.len(),
            i <= n,
            r@ == s@.subrange(0, i as int),
        decreases n - i,
    {
        let c = s.get_char(i);
        r.push(c);
        proof {
            assert(s@.subrange(0, i as int).push(s@[i as int]) =~= s@.subrange(0, i as int + 1));
        }
        i = i + 1;
    }
    proof {
        assert(s@.subrange(0, n as int) =~= s@);
    }
    r
}

/// The character for one decimal digit.
pub open spec fn digit_char(d: nat) -> char {
    ((48 + d) as u8) as char
}

/// The decimal digits of `n`, most significant first, no leading zeros.
pub open spec fn dec_digits(n: nat) -> Seq<char>
    decreases n,
{
    if n < 10 {
        seq![digit_char(n)]
    } else {
        dec_digits(n / 10).push(digit_char(n % 10))
    }
}

/// Append the decimal digits of `m`.
fn push_dec_digits(m: u64, out: &mut Vec<char>)
    ensures
        final(out)@ == old(out)@ + dec_digits(m as nat),
    decreases m,
{
    if m < 10 {
        let c = ((48 + (m as u8)) as u8) as char;
        out.push(c);
        proof {
            assert(old(out)@ + dec_digits(m as nat) =~= old(out)@.push(digit_char(m as nat)));
        }
    } else {
        push_dec_digits(m / 10, out);
        let d = (m % 10) as u8;
        let c = ((48 + d) as u8) as char;
        out.push(c);
        proof {
            assert((m as nat) / 10 == (m / 10) as nat);
            assert((m as nat) % 10 == (m % 10) as nat);
            assert(old(out)@ + dec_digits(m as nat) =~= (old(out)@ + dec_digits(
                (m / 10) as nat,
            )).push(digit_char((m % 10) as nat)));
        }
    }
}

/// Format a number in decimal.
pub fn u64_to_string(n: u64) -> (r: String)
    ensures
        r@ == dec_digits(n as nat),
{
    let mut digits: Vec<char> = Vec::new();
    push_dec_digits(n, &mut digits);
    proof {
        assert(digits@ =~= dec_digits(n as nat));
    }
    string_from_chars(&digits)
}

/// Relies on `String::push`: appends exactly one character.
#[verifier::external_body]
fn push_char(s: &mut String, c: char)
    ensures
        final(s)@ == old(s)@.push(c),
{
    s.push(c);
}

/// Build an owned string from a character sequence.
pub fn string_from_chars(v: &Vec<char>) -> (r: String)
    ensures
        r@ == v@,
{
    let mut r = String::new();
    let mut i: usize = 0;
    proof {
        assert(r@ =~= v@.subrange(0, 0));
    }
    while i < v.len()
        invariant
            i <= v@.len(),
            r@ == v@.subrange(0, i as int),
        decreases v@.len() - i,
    {
        push_char(&mut r, v[i]);
        proof {
            assert(v@.subrange(0, i as int).push(v@[i as int]) =~= v@.subrange(0, i as int + 1));
        }
        i = i + 1;
    }
    proof {
        assert(v@.subrange(0, v@.len() as int) =~= v@);
    }
    r
}

} // verus!
