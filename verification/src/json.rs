use vstd::prelude::*;

verus! {

/// How one character is written inside a JSON string literal: quote and
/// backslash get a backslash escape, everything else stands for itself.
pub open spec fn esc_char(c: char) -> Seq<char> {
    if c == '"' {
        seq!['\\', '"']
    } else if c == '\\' {
        seq!['\\', '\\']
    } else {
        seq![c]
    }
}

/// The body of a JSON string literal holding `s`: each character escaped.
pub open spec fn spec_escape(s: Seq<char>) -> Seq<char>
    decreases s.len(),
{
    if s.len() == 0 {
        Seq::empty()
    } else {
        spec_escape(s.drop_last()) + esc_char(s.last())
    }
}

/// Reading a string-literal body from the front of `s` up to its closing
/// quote: the unescaped content and what follows the quote. Only the two
/// escapes the writer emits are accepted.
pub open spec fn spec_unescape(s: Seq<char>) -> Option<(Seq<char>, Seq<char>)>
    decreases s.len(),
{
    if s.len() == 0 {
        None
    } else if s[0] == '"' {
        Some((Seq::empty(), s.skip(1)))
    } else if s[0] == '\\' {
        if s.len() >= 2 && (s[1] == '"' || s[1] == '\\') {
            match spec_unescape(s.skip(2)) {
                None => None,
                Some((t, r)) => Some((seq![s[1]] + t, r)),
            }
        } else {
            None
        }
    } else {
        match spec_unescape(s.skip(1)) {
            None => None,
            Some((t, r)) => Some((seq![s[0]] + t, r)),
        }
    }
}

/// Escaping distributes over removing the first character.
proof fn lemma_escape_head(s: Seq<char>)
    requires
        s.len() > 0,
    ensures
        spec_escape(s) == esc_char(s[0]) + spec_escape(s.skip(1)),
    decreases s.len(),
{
    if s.len() == 1 {
        assert(s.drop_last() =~= Seq::<char>::empty());
        assert(s.skip(1) =~= Seq::<char>::empty());
        assert(spec_escape(s) =~= esc_char(s[0]) + spec_escape(s.skip(1)));
    } else {
        lemma_escape_head(s.drop_last());
        assert(s.drop_last()[0] == s[0]);
        assert(s.skip(1).drop_last() =~= s.drop_last().skip(1));
        assert(s.skip(1).last() == s.last());
        assert(spec_escape(s.skip(1)) == spec_escape(s.skip(1).drop_last()) + esc_char(
            s.skip(1).last(),
        ));
        assert(spec_escape(s) == spec_escape(s.drop_last()) + esc_char(s.last()));
        assert(esc_char(s[0]) + (spec_escape(s.drop_last().skip(1)) + esc_char(s.last())) =~= (
        esc_char(s[0]) + spec_escape(s.drop_last().skip(1))) + esc_char(s.last()));
    }
}

/// Reading back what was escaped, with the closing quote and anything after
/// it appended, recovers the content exactly and stops at that quote.
pub proof fn lemma_escape_unescape(v: Seq<char>, rest: Seq<char>)
    ensures
        spec_unescape(spec_escape(v) + seq!['"'] + rest) == Some((v, rest)),
    decreases v.len(),
{
    let s = spec_escape(v) + seq!['"'] + rest;
    if v.len() == 0 {
        assert(spec_escape(v) =~= Seq::<char>::empty());
        assert(s =~= seq!['"'] + rest);
        assert(s[0] == '"');
        assert(s.skip(1) =~= rest);
    } else {
        lemma_escape_head(v);
        let c = v[0];
        let tail = v.skip(1);
        lemma_escape_unescape(tail, rest);
        let inner = spec_escape(tail) + seq!['"'] + rest;
        if c == '"' || c == '\\' {
            assert(esc_char(c) =~= seq!['\\', c]);
            assert(s =~= seq!['\\', c] + inner);
            assert(s[0] == '\\' && s[1] == c);
            assert(s.skip(2) =~= inner);
            assert(seq![c] + tail =~= v);
        } else {
            assert(esc_char(c) =~= seq![c]);
            assert(s =~= seq![c] + inner);
            assert(s[0] == c);
            assert(c != '"' && c != '\\');
            assert(s.skip(1) =~= inner);
            assert(seq![c] + tail =~= v);
        }
    }
}

/// Writes the body of a JSON string literal holding `s`.
pub fn escape_json(s: &str) -> (r: String)
    ensures
        r@ == spec_escape(s@),
{
    let n = s.unicode_len();
    let mut out = String::new();
    let mut i: usize = 0;
    while i < n
        invariant
            n == s@.len(),
            i <= n,
            out@ == spec_escape(s@.take(i as int)),
        decreases n - i,
    {
        let c = s.get_char(i);
        if c == '"' {
            out.append("\\\"");
            proof {
                reveal_strlit("\\\"");
            }
        } else if c == '\\' {
            out.append("\\\\");
            proof {
                reveal_strlit("\\\\");
            }
        } else {
            let piece = s.substring_char(i, i + 1);
            out.append(piece);
            proof {
                assert(piece@ =~= seq![s@[i as int]]);
            }
        }
        proof {
            let t = s@.take(i + 1);
            assert(t.drop_last() =~= s@.take(i as int));
            assert(t.last() == s@[i as int]);
            assert(spec_escape(t) == spec_escape(s@.take(i as int)) + esc_char(s@[i as int]));
            assert(out@ =~= spec_escape(s@.take(i as int)) + esc_char(s@[i as int]));
        }
        i = i + 1;
    }
    proof {
        assert(s@.take(n as int) =~= s@);
    }
    out
}

/// Reads a string-literal body starting at `i` (just past the opening
/// quote): the content, and the index just past the closing quote.
pub fn parse_json_string(s: &str, i: usize) -> (r: Option<(String, usize)>)
    requires
        i <= s@.len(),
    ensures
        match spec_unescape(s@.skip(i as int)) {
            None => r is None,
            Some((t, rest)) => {
                &&& r matches Some((out, j))
                &&& out@ == t
                &&& i < j <= s@.len()
                &&& s@.skip(j as int) == rest
            },
        },
    decreases s@.len() - i,
{
    let n = s.unicode_len();
    if i >= n {
        proof {
            assert(s@.skip(i as int) =~= Seq::<char>::empty());
        }
        return None;
    }
    let c = s.get_char(i);
    proof {
        assert(s@.skip(i as int)[0] == s@[i as int]);
    }
    if c == '"' {
        proof {
            assert(s@.skip(i as int).skip(1) =~= s@.skip(i + 1));
        }
        return Some((String::new(), i + 1));
    }
    if c == '\\' {
        if i + 1 >= n {
            return None;
        }
        let e = s.get_char(i + 1);
        proof {
            assert(s@.skip(i as int)[1] == s@[i + 1]);
        }
        if e == '"' || e == '\\' {
            proof {
                assert(s@.skip(i as int).skip(2) =~= s@.skip(i + 2));
            }
            match parse_json_string(s, i + 2) {
                None => None,
                Some((t, j)) => {
                    let piece = s.substring_char(i + 1, i + 2);
                    let mut out = String::from_str(piece);
                    out.append(t.as_str());
                    proof {
                        assert(piece@ =~= seq![s@[i + 1]]);
                    }
                    Some((out, j))
                },
            }
        } else {
            None
        }
    } else {
        proof {
            assert(s@.skip(i as int).skip(1) =~= s@.skip(i + 1));
        }
        match parse_json_string(s, i + 1) {
            None => None,
            Some((t, j)) => {
                let piece = s.substring_char(i, i + 1);
                let mut out = String::from_str(piece);
                out.append(t.as_str());
                proof {
                    assert(piece@ =~= seq![s@[i as int]]);
                }
                Some((out, j))
            },
        }
    }
}

/// Whether the character is JSON insignificant whitespace.
pub open spec fn is_ws(c: char) -> bool {
    c == ' ' || c == '\t' || c == '\n' || c == '\r'
}

/// The first index at or after `i` holding a non-whitespace character.
pub open spec fn spec_skip_ws(s: Seq<char>, i: int) -> int
    decreases s.len() - i,
{
    if i < 0 || i >= s.len() {
        i
    } else if is_ws(s[i]) {
        spec_skip_ws(s, i + 1)
    } else {
        i
    }
}

pub proof fn lemma_skip_ws_bounds(s: Seq<char>, i: int)
    requires
        0 <= i <= s.len(),
    ensures
        i <= spec_skip_ws(s, i) <= s.len(),
    decreases s.len() - i,
{
    if i < s.len() && is_ws(s[i]) {
        lemma_skip_ws_bounds(s, i + 1);
    }
}

/// Advances past insignificant whitespace.
pub fn skip_ws(s: &str, i: usize) -> (r: usize)
    requires
        i <= s@.len(),
    ensures
        r == spec_skip_ws(s@, i as int),
        i <= r <= s@.len(),
    decreases s@.len() - i,
{
    proof {
        lemma_skip_ws_bounds(s@, i as int);
    }
    let n = s.unicode_len();
    if i >= n {
        return i;
    }
    let c = s.get_char(i);
    if c == ' ' || c == '\t' || c == '\n' || c == '\r' {
        skip_ws(s, i + 1)
    } else {
        i
    }
}

/// Whether the character is a decimal digit.
pub open spec fn is_digit(c: char) -> bool {
    '0' <= c && c <= '9'
}

/// The numeric value of a digit character.
pub open spec fn digit_val(c: char) -> int {
    c as int - '0' as int
}

/// Reads an unsigned decimal number starting at `i`: its value and the index
/// just past its digits. Values of one hundred thousand and above are
/// rejected, so the value always fits comfortably in a machine word.
pub open spec fn spec_parse_number(s: Seq<char>, i: int) -> Option<(int, int)> {
    spec_parse_number_rec(s, i, 0, false)
}

pub open spec fn spec_parse_number_rec(s: Seq<char>, i: int, acc: int, started: bool) -> Option<
    (int, int),
>
    decreases s.len() - i,
{
    if acc >= 100000 {
        None
    } else if i < 0 || i >= s.len() || !is_digit(s[i]) {
        if !started {
            None
        } else {
            Some((acc, i))
        }
    } else {
        spec_parse_number_rec(s, i + 1, acc * 10 + digit_val(s[i]), true)
    }
}

/// Reads an unsigned decimal number at `i`, as `spec_parse_number` says.
pub fn parse_number(s: &str, i: usize) -> (r: Option<(usize, usize)>)
    requires
        i <= s@.len(),
    ensures
        match spec_parse_number(s@, i as int) {
            None => r is None,
            Some((v, j)) => r matches Some((rv, rj)) && rv == v && rj == j && i <= rj <= s@.len(),
        },
{
    let n = s.unicode_len();
    let mut j = i;
    let mut acc: usize = 0;
    let mut started = false;
    loop
        invariant
            n == s@.len(),
            i <= j <= n,
            acc < 1000000,
            spec_parse_number(s@, i as int) == spec_parse_number_rec(
                s@,
                j as int,
                acc as int,
                started,
            ),
        decreases n - j,
    {
        if acc >= 100000 {
            return None;
        }
        if j >= n {
            if !started {
                return None;
            }
            return Some((acc, j));
        }
        let c = s.get_char(j);
        if !('0' <= c && c <= '9') {
            if !started {
                return None;
            }
            return Some((acc, j));
        }
        let d = (c as u32 - '0' as u32) as usize;
        acc = acc * 10 + d;
        started = true;
        j = j + 1;
    }
}

/// Character-for-character string comparison.
pub fn str_eq(a: &str, b: &str) -> (r: bool)
    ensures
        r == (a@ == b@),
{
    let n = a.unicode_len();
    if n != b.unicode_len() {
        return false;
    }
    let mut k: usize = 0;
    while k < n
        invariant
            n == a@.len(),
            n == b@.len(),
            k <= n,
            forall|t: int| 0 <= t < k ==> a@[t] == b@[t],
        decreases n - k,
    {
        if a.get_char(k) != b.get_char(k) {
            return false;
        }
        k = k + 1;
    }
    proof {
        assert(a@ =~= b@);
    }
    true
}

/// Whether the literal `pat` stands at position `i` of `s`.
pub open spec fn spec_match_at(s: Seq<char>, i: int, pat: Seq<char>) -> bool {
    i + pat.len() <= s.len() && s.subrange(i, i + pat.len()) == pat
}

/// Tests whether the literal `pat` stands at position `i` of `s`.
pub fn match_at(s: &str, i: usize, pat: &str) -> (r: bool)
    requires
        i <= s@.len(),
    ensures
        r == spec_match_at(s@, i as int, pat@),
{
    let n = s.unicode_len();
    let m = pat.unicode_len();
    if m > n - i {
        return false;
    }
    let mut k: usize = 0;
    while k < m
        invariant
            n == s@.len(),
            m == pat@.len(),
            i + m <= n,
            k <= m,
            forall|t: int| 0 <= t < k ==> s@[i + t] == pat@[t],
        decreases m - k,
    {
        if s.get_char(i + k) != pat.get_char(k) {
            proof {
                assert(s@.subrange(i as int, i + m) != pat@) by {
                    assert(s@.subrange(i as int, i + m)[k as int] != pat@[k as int]);
                }
            }
            return false;
        }
        k = k + 1;
    }
    proof {
        assert(s@.subrange(i as int, i + m) =~= pat@);
    }
    true
}

} // verus!
