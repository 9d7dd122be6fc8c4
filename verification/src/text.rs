//! Verified string utilities: substring search, replacement, splitting,
//! joining, and decimal rendering.  All contracts are stated over the
//! `Seq<char>` views of `&str` and `String`.

use vstd::prelude::*;

verus! {

/// True when `pat` occurs in `s` starting at position `i`.
pub open spec fn match_at(s: Seq<char>, pat: Seq<char>, i: int) -> bool {
    0 <= i && i + pat.len() <= s.len() && s.subrange(i, i + pat.len() as int) == pat
}

/// True when `pat` occurs somewhere in `s`.
pub open spec fn contains_seq(s: Seq<char>, pat: Seq<char>) -> bool {
    exists|i: int| match_at(s, pat, i)
}

/// Character-wise string equality.
pub fn eq_str(a: &str, b: &str) -> (r: bool)
    ensures
        r == (a@ == b@),
{
    let alen = a.unicode_len();
    let blen = b.unicode_len();
    if alen != blen {
        return false;
    }
    let mut i: usize = 0;
    while i < alen
        invariant
            i <= alen,
            alen == a@.len(),
            alen == b@.len(),
            forall|j: int| 0 <= j < i ==> a@[j] == b@[j],
        decreases alen - i,
    {
        if a.get_char(i) != b.get_char(i) {
            return false;
        }
        i = i + 1;
    }
    proof {
        assert(a@ =~= b@);
    }
    true
}

/// Whether `pat` matches in `s` at position `i`.
pub fn matches_at(s: &str, pat: &str, i: usize) -> (r: bool)
    requires
        i + pat@.len() <= s@.len(),
    ensures
        r == match_at(s@, pat@, i as int),
{
    let slen = s.unicode_len();
    let plen = pat.unicode_len();
    let mut j: usize = 0;
    while j < plen
        invariant
            j <= plen,
            plen == pat@.len(),
            slen == s@.len(),
            i + plen <= slen,
            forall|k: int| 0 <= k < j ==> s@[i + k] == pat@[k],
        decreases plen - j,
    {
        if s.get_char(i + j) != pat.get_char(j) {
            proof {
                assert(!match_at(s@, pat@, i as int)) by {
                    if match_at(s@, pat@, i as int) {
                        assert(s@.subrange(i as int, i + plen as int)[j as int] == pat@[j as int]);
                    }
                }
            }
            return false;
        }
        j = j + 1;
    }
    proof {
        assert(s@.subrange(i as int, i + plen as int) =~= pat@);
    }
    true
}

/// Whether `s` contains `pat` as a substring.
pub fn contains_str(s: &str, pat: &str) -> (r: bool)
    ensures
        r == contains_seq(s@, pat@),
{
    let slen = s.unicode_len();
    let plen = pat.unicode_len();
    if plen > slen {
        proof {
            assert(!contains_seq(s@, pat@)) by {
                if contains_seq(s@, pat@) {
                    let i = choose|i: int| match_at(s@, pat@, i);
                    assert(i + pat@.len() <= s@.len());
                }
            }
        }
        return false;
    }
    if plen == 0 {
        proof {
            assert(s@.subrange(0, 0) =~= pat@);
            assert(match_at(s@, pat@, 0));
        }
        return true;
    }
    let last = slen - plen;
    let mut i: usize = 0;
    while i <= last
        invariant
            i <= last + 1,
            last == slen - plen,
            slen == s@.len(),
            plen == pat@.len(),
            0 < plen <= slen,
            forall|j: int| 0 <= j < i ==> !match_at(s@, pat@, j),
        decreases last + 1 - i,
    {
        if matches_at(s, pat, i) {
            return true;
        }
        i = i + 1;
    }
    proof {
        assert(!contains_seq(s@, pat@)) by {
            if contains_seq(s@, pat@) {
                let j = choose|j: int| match_at(s@, pat@, j);
                assert(j <= last as int);
            }
        }
    }
    false
}

/// Whether `s` starts with `pat`.
pub fn starts_with_str(s: &str, pat: &str) -> (r: bool)
    ensures
        r == match_at(s@, pat@, 0),
{
    let slen = s.unicode_len();
    let plen = pat.unicode_len();
    if plen > slen {
        return false;
    }
    matches_at(s, pat, 0)
}

/// `s` with every non-overlapping occurrence of `pat` replaced by `rep`,
/// scanning left to right.  An empty pattern replaces nothing.
pub open spec fn replaced(s: Seq<char>, pat: Seq<char>, rep: Seq<char>) -> Seq<char>
    decreases s.len(),
{
    if pat.len() == 0 || s.len() < pat.len() {
        s
    } else if s.subrange(0, pat.len() as int) == pat {
        rep + replaced(s.skip(pat.len() as int), pat, rep)
    } else {
        s.take(1) + replaced(s.skip(1), pat, rep)
    }
}

/// Replace every non-overlapping occurrence of `pat` in `s` by `rep`.
pub fn replace_all(s: &str, pat: &str, rep: &str) -> (r: String)
    requires
        pat@.len() > 0,
    ensures
        r@ == replaced(s@, pat@, rep@),
{
    let slen = s.unicode_len();
    let plen = pat.unicode_len();
    let mut out = String::new();
    let mut i: usize = 0;
    proof {
        assert(s@.skip(0) =~= s@);
        assert(out@ + replaced(s@, pat@, rep@) =~= replaced(s@, pat@, rep@));
    }
    while i < slen
        invariant
            i <= slen,
            slen == s@.len(),
            plen == pat@.len(),
            plen > 0,
            out@ + replaced(s@.skip(i as int), pat@, rep@) == replaced(s@, pat@, rep@),
        decreases slen - i,
    {
        let ghost t = s@.skip(i as int);
        if plen <= slen - i && matches_at(s, pat, i) {
            proof {
                assert(t.subrange(0, plen as int) =~= s@.subrange(i as int, i + plen as int));
                assert(t.skip(plen as int) =~= s@.skip(i + plen as int));
                assert(replaced(t, pat@, rep@) == rep@ + replaced(
                    s@.skip(i + plen as int),
                    pat@,
                    rep@,
                ));
            }
            out.append(rep);
            proof {
                assert(out@ + replaced(s@.skip(i + plen as int), pat@, rep@) =~= replaced(
                    s@,
                    pat@,
                    rep@,
                ));
            }
            i = i + plen;
        } else {
            proof {
                if i + plen <= slen {
                    assert(t.subrange(0, plen as int) =~= s@.subrange(i as int, i + plen as int));
                    assert(replaced(t, pat@, rep@) == t.take(1) + replaced(t.skip(1), pat@, rep@));
                } else {
                    assert(t.len() < plen);
                    assert(replaced(t, pat@, rep@) == t);
                    assert(t.skip(1) =~= replaced(t.skip(1), pat@, rep@));
                    assert(t =~= t.take(1) + t.skip(1));
                }
                assert(t.take(1) =~= s@.subrange(i as int, i + 1));
                assert(t.skip(1) =~= s@.skip(i + 1));
            }
            out.append(s.substring_char(i, i + 1));
            proof {
                assert(out@ + replaced(s@.skip(i + 1), pat@, rep@) =~= replaced(s@, pat@, rep@));
            }
            i = i + 1;
        }
    }
    proof {
        assert(s@.skip(slen as int) =~= Seq::<char>::empty());
        assert(out@ =~= out@ + replaced(s@.skip(slen as int), pat@, rep@));
    }
    out
}

/// The decimal digit character for `d`.
pub open spec fn digit_char(d: nat) -> char {
    if d == 0 {
        '0'
    } else if d == 1 {
        '1'
    } else if d == 2 {
        '2'
    } else if d == 3 {
        '3'
    } else if d == 4 {
        '4'
    } else if d == 5 {
        '5'
    } else if d == 6 {
        '6'
    } else if d == 7 {
        '7'
    } else if d == 8 {
        '8'
    } else {
        '9'
    }
}

/// The decimal rendering of `n`, without sign or leading zeros.
pub open spec fn dec_of(n: nat) -> Seq<char>
    decreases n,
{
    if n < 10 {
        seq![digit_char(n)]
    } else {
        dec_of(n / 10).push(digit_char(n % 10))
    }
}

fn digit_str(d: u64) -> (r: &'static str)
    requires
        d < 10,
    ensures
        r@ == seq![digit_char(d as nat)],
{
    let r: &'static str = match d {
        0 => "0",
        1 => "1",
        2 => "2",
        3 => "3",
        4 => "4",
        5 => "5",
        6 => "6",
        7 => "7",
        8 => "8",
        _ => "9",
    };
    proof {
        reveal_strlit("0");
        reveal_strlit("1");
        reveal_strlit("2");
        reveal_strlit("3");
        reveal_strlit("4");
        reveal_strlit("5");
        reveal_strlit("6");
        reveal_strlit("7");
        reveal_strlit("8");
        reveal_strlit("9");
        assert(r@ =~= seq![digit_char(d as nat)]);
    }
    r
}

/// Render `n` in decimal.
pub fn u64_to_string(n: u64) -> (r: String)
    ensures
        r@ == dec_of(n as nat),
    decreases n,
{
    if n < 10 {
        let r = String::from_str(digit_str(n));
        proof {
            assert(r@ =~= dec_of(n as nat));
        }
        r
    } else {
        let q = u64_to_string(n / 10);
        let r = q.concat(digit_str(n % 10));
        proof {
            assert(r@ =~= dec_of(n as nat));
        }
        r
    }
}

/// The elements of `parts` joined by `sep`.
pub open spec fn join_with(parts: Seq<Seq<char>>, sep: Seq<char>) -> Seq<char>
    decreases parts.len(),
{
    if parts.len() == 0 {
        Seq::empty()
    } else if parts.len() == 1 {
        parts[0]
    } else {
        parts[0] + sep + join_with(parts.drop_first(), sep)
    }
}

proof fn lemma_join_snoc(parts: Seq<Seq<char>>, sep: Seq<char>, i: int)
    requires
        1 <= i < parts.len(),
    ensures
        join_with(parts.take(i + 1), sep) == join_with(parts.take(i), sep) + sep + parts[i],
    decreases i,
{
    if i == 1 {
        let two = parts.take(2);
        let d = two.drop_first();
        assert(two.len() == 2);
        assert(d =~= seq![parts[1]]);
        assert(d.len() == 1);
        assert(join_with(d, sep) == d[0]);
        assert(d[0] == parts[1]);
        assert(two[0] == parts[0]);
        assert(join_with(two, sep) == two[0] + sep + join_with(d, sep));
        assert(parts.take(1) =~= seq![parts[0]]);
        assert(join_with(parts.take(1), sep) == parts[0]);
        assert(join_with(parts.take(1), sep) + sep + parts[1] =~= parts[0] + sep + parts[1]);
    } else {
        let t = parts.drop_first();
        lemma_join_snoc(t, sep, i - 1);
        assert(parts.take(i + 1).drop_first() =~= t.take(i));
        assert(parts.take(i).drop_first() =~= t.take(i - 1));
        assert(t[i - 1] == parts[i]);
        assert(join_with(parts.take(i + 1), sep) == parts[0] + sep + join_with(t.take(i), sep));
        assert(join_with(parts.take(i), sep) == parts[0] + sep + join_with(t.take(i - 1), sep));
        assert(join_with(t.take(i), sep) == join_with(t.take(i - 1), sep) + sep + t[i - 1]);
        assert(parts[0] + sep + (join_with(t.take(i - 1), sep) + sep + t[i - 1]) =~= (parts[0] + sep
            + join_with(t.take(i - 1), sep)) + sep + t[i - 1]);
    }
}

/// Join the strings of `parts` with the separator `sep`.
pub fn join_strings(parts: &Vec<String>, sep: &str) -> (r: String)
    ensures
        r@ == join_with(parts.deep_view(), sep@),
{
    let mut out = String::new();
    let mut i: usize = 0;
    while i < parts.len()
        invariant
            i <= parts.len(),
            i == 0 ==> out@ == Seq::<char>::empty(),
            i > 0 ==> out@ == join_with(parts.deep_view().take(i as int), sep@),
        decreases parts.len() - i,
    {
        if i > 0 {
            out.append(sep);
        }
        out.append(parts[i].as_str());
        proof {
            let pv = parts.deep_view();
            assert(pv[i as int] == parts[i as int]@);
            if i == 0 {
                assert(pv.take(1) =~= seq![pv[0]]);
                assert(join_with(pv.take(1), sep@) == pv[0]);
            } else {
                lemma_join_snoc(pv, sep@, i as int);
            }
        }
        i = i + 1;
    }
    proof {
        if parts.len() == 0 {
            assert(join_with(parts.deep_view(), sep@) =~= Seq::<char>::empty());
        } else {
            assert(parts.deep_view().take(parts.len() as int) =~= parts.deep_view());
        }
    }
    out
}

/// Whitespace for the purposes of command splitting.
pub open spec fn is_ws(c: char) -> bool {
    c == ' ' || c == '\t' || c == '\n' || c == '\r'
}

/// The whitespace-separated words of `s`, given that the characters of
/// `cur` have already been read as the beginning of the current word.
pub open spec fn ws_split_acc(s: Seq<char>, cur: Seq<char>) -> Seq<Seq<char>>
    decreases s.len(),
{
    if s.len() == 0 {
        if cur.len() == 0 {
            Seq::empty()
        } else {
            seq![cur]
        }
    } else if is_ws(s[0]) {
        (if cur.len() == 0 {
            Seq::empty()
        } else {
            seq![cur]
        }) + ws_split_acc(s.drop_first(), Seq::empty())
    } else {
        ws_split_acc(s.drop_first(), cur.push(s[0]))
    }
}

/// The whitespace-separated words of `s`, in order, without empties.
pub open spec fn ws_split(s: Seq<char>) -> Seq<Seq<char>> {
    ws_split_acc(s, Seq::empty())
}

/// Split `s` into whitespace-separated words.
pub fn split_ws(s: &str) -> (r: Vec<String>)
    ensures
        r.deep_view() == ws_split(s@),
{
    let slen = s.unicode_len();
    let mut out: Vec<String> = Vec::new();
    let mut cur = String::new();
    let mut i: usize = 0;
    proof {
        assert(s@.skip(0) =~= s@);
        assert(out.deep_view() =~= Seq::<Seq<char>>::empty());
        assert(Seq::<Seq<char>>::empty() + ws_split_acc(s@, cur@) =~= ws_split_acc(s@, cur@));
    }
    while i < slen
        invariant
            i <= slen,
            slen == s@.len(),
            ws_split(s@) == out.deep_view() + ws_split_acc(s@.skip(i as int), cur@),
        decreases slen - i,
    {
        let ghost t = s@.skip(i as int);
        let ghost dv0 = out.deep_view();
        let ghost cur0 = cur@;
        proof {
            assert(t[0] == s@[i as int]);
            assert(t.drop_first() =~= s@.skip(i + 1));
        }
        let c = s.get_char(i);
        if c == ' ' || c == '\t' || c == '\n' || c == '\r' {
            if cur.unicode_len() > 0 {
                out.push(cur);
                cur = String::new();
                proof {
                    assert(out.deep_view() =~= dv0.push(cur0));
                    assert(ws_split_acc(t, cur0) == seq![cur0] + ws_split_acc(
                        s@.skip(i + 1),
                        Seq::<char>::empty(),
                    ));
                    assert(dv0 + (seq![cur0] + ws_split_acc(s@.skip(i + 1), Seq::<char>::empty()))
                        =~= dv0.push(cur0) + ws_split_acc(s@.skip(i + 1), Seq::<char>::empty()));
                    assert(cur@ =~= Seq::<char>::empty());
                }
            } else {
                proof {
                    assert(cur0 =~= Seq::<char>::empty());
                    assert(ws_split_acc(t, cur0) == Seq::<Seq<char>>::empty() + ws_split_acc(
                        s@.skip(i + 1),
                        Seq::<char>::empty(),
                    ));
                    assert(Seq::<Seq<char>>::empty() + ws_split_acc(
                        s@.skip(i + 1),
                        Seq::<char>::empty(),
                    ) =~= ws_split_acc(s@.skip(i + 1), cur0));
                }
            }
        } else {
            let piece = s.substring_char(i, i + 1);
            cur.append(piece);
            proof {
                assert(piece@ =~= seq![t[0]]);
                assert(cur@ =~= cur0.push(t[0]));
                assert(ws_split_acc(t, cur0) == ws_split_acc(t.drop_first(), cur0.push(t[0])));
            }
        }
        i = i + 1;
    }
    proof {
        assert(s@.skip(slen as int) =~= Seq::<char>::empty());
    }
    let ghost dv0 = out.deep_view();
    let ghost cur0 = cur@;
    if cur.unicode_len() > 0 {
        out.push(cur);
        proof {
            assert(out.deep_view() =~= dv0.push(cur0));
            assert(ws_split_acc(Seq::<char>::empty(), cur0) == seq![cur0]);
            assert(dv0 + seq![cur0] =~= dv0.push(cur0));
        }
    } else {
        proof {
            assert(ws_split_acc(Seq::<char>::empty(), cur0) =~= Seq::<Seq<char>>::empty());
            assert(dv0 + Seq::<Seq<char>>::empty() =~= dv0);
        }
    }
    out
}

/// The lines of `s`, split at newline characters, each stripped of one
/// trailing carriage return, with no entry for a trailing newline; `cur`
/// holds the characters of the current line read so far.
pub open spec fn lines_acc(s: Seq<char>, cur: Seq<char>) -> Seq<Seq<char>>
    decreases s.len(),
{
    if s.len() == 0 {
        if cur.len() == 0 {
            Seq::empty()
        } else {
            seq![cur]
        }
    } else if s[0] == '\n' {
        seq![strip_cr(cur)] + lines_acc(s.drop_first(), Seq::empty())
    } else {
        lines_acc(s.drop_first(), cur.push(s[0]))
    }
}

/// `s` without a single trailing carriage return, if it has one.
pub open spec fn strip_cr(s: Seq<char>) -> Seq<char> {
    if s.len() > 0 && s.last() == '\r' {
        s.drop_last()
    } else {
        s
    }
}

/// The lines of `s`, as `str::lines` yields them.
pub open spec fn lines_of(s: Seq<char>) -> Seq<Seq<char>> {
    lines_acc(s, Seq::empty())
}

/// Split `s` into its lines.
pub fn split_lines(s: &str) -> (r: Vec<String>)
    ensures
        r.deep_view() == lines_of(s@),
{
    let slen = s.unicode_len();
    let mut out: Vec<String> = Vec::new();
    let mut cur = String::new();
    let mut i: usize = 0;
    proof {
        assert(s@.skip(0) =~= s@);
        assert(out.deep_view() =~= Seq::<Seq<char>>::empty());
        assert(Seq::<Seq<char>>::empty() + lines_acc(s@, cur@) =~= lines_acc(s@, cur@));
    }
    while i < slen
        invariant
            i <= slen,
            slen == s@.len(),
            lines_of(s@) == out.deep_view() + lines_acc(s@.skip(i as int), cur@),
        decreases slen - i,
    {
        let ghost t = s@.skip(i as int);
        let ghost dv0 = out.deep_view();
        let ghost cur0 = cur@;
        proof {
            assert(t[0] == s@[i as int]);
            assert(t.drop_first() =~= s@.skip(i + 1));
        }
        let c = s.get_char(i);
        if c == '\n' {
            let line = finish_line(cur);
            out.push(line);
            cur = String::new();
            proof {
                assert(out.deep_view() =~= dv0.push(strip_cr(cur0)));
                assert(lines_acc(t, cur0) == seq![strip_cr(cur0)] + lines_acc(
                    s@.skip(i + 1),
                    Seq::<char>::empty(),
                ));
                assert(dv0 + (seq![strip_cr(cur0)] + lines_acc(
                    s@.skip(i + 1),
                    Seq::<char>::empty(),
                )) =~= dv0.push(strip_cr(cur0)) + lines_acc(s@.skip(i + 1), Seq::<char>::empty()));
                assert(cur@ =~= Seq::<char>::empty());
            }
        } else {
            let piece = s.substring_char(i, i + 1);
            cur.append(piece);
            proof {
                assert(piece@ =~= seq![t[0]]);
                assert(cur@ =~= cur0.push(t[0]));
                assert(lines_acc(t, cur0) == lines_acc(t.drop_first(), cur0.push(t[0])));
            }
        }
        i = i + 1;
    }
    proof {
        assert(s@.skip(slen as int) =~= Seq::<char>::empty());
    }
    let ghost dv0 = out.deep_view();
    let ghost cur0 = cur@;
    if cur.unicode_len() > 0 {
        out.push(cur);
        proof {
            assert(out.deep_view() =~= dv0.push(cur0));
            assert(lines_acc(Seq::<char>::empty(), cur0) == seq![cur0]);
            assert(dv0 + seq![cur0] =~= dv0.push(cur0));
        }
    } else {
        proof {
            assert(lines_acc(Seq::<char>::empty(), cur0) =~= Seq::<Seq<char>>::empty());
            assert(dv0 + Seq::<Seq<char>>::empty() =~= dv0);
        }
    }
    out
}

/// Drop one trailing carriage return from a finished line.
fn finish_line(line: String) -> (r: String)
    ensures
        r@ == strip_cr(line@),
{
    let n = line.as_str().unicode_len();
    if n > 0 && line.as_str().get_char(n - 1) == '\r' {
        let r = String::from_str(line.as_str().substring_char(0, n - 1));
        proof {
            assert(line@.subrange(0, n - 1) =~= line@.drop_last());
        }
        r
    } else {
        line
    }
}

} // verus!
