//! Character-level utilities shared by the option translator, the fstab
//! parser and the mount-table oracle: whitespace and digit classification,
//! trimming, splitting on a separator, whitespace tokenisation and
//! comma-joining.
use vstd::prelude::*;

verus! {

/// The whitespace characters recognised when trimming and tokenising:
/// space, tab, newline, carriage return, vertical tab and form feed.
pub open spec fn is_space_char(c: char) -> bool {
    c == ' ' || c == '\t' || c == '\n' || c == '\r' || c == '\u{b}' || c == '\u{c}'
}

pub fn is_space(c: char) -> (r: bool)
    ensures
        r == is_space_char(c),
{
    c == ' ' || c == '\t' || c == '\n' || c == '\r' || c == '\u{b}' || c == '\u{c}'
}

/// A decimal digit `0`..`9`.
pub open spec fn is_digit_char(c: char) -> bool {
    48 <= c as u32 <= 57
}

pub fn is_digit(c: char) -> (r: bool)
    ensures
        r == is_digit_char(c),
{
    let u = c as u32;
    48 <= u && u <= 57
}

/// A non-empty run of decimal digits.
pub open spec fn is_digit_run(s: Seq<char>) -> bool {
    s.len() > 0 && (forall|i: int| 0 <= i < s.len() ==> is_digit_char(s[i]))
}

/// Whether every character of `s` is a digit, and `s` is non-empty.
pub fn is_digit_run_str(s: &str) -> (r: bool)
    ensures
        r == is_digit_run(s@),
{
    let n = s.unicode_len();
    if n == 0 {
        return false;
    }
    let mut i: usize = 0;
    while i < n
        invariant
            0 <= i <= n,
            n == s@.len(),
            forall|j: int| 0 <= j < i ==> is_digit_char(s@[j]),
        decreases n - i,
    {
        if !is_digit(s.get_char(i)) {
            return false;
        }
        i = i + 1;
    }
    true
}

/// The longest prefix of `s` made of decimal digits.
pub open spec fn digits_prefix(s: Seq<char>) -> Seq<char>
    decreases s.len(),
{
    if s.len() > 0 && is_digit_char(s[0]) {
        seq![s[0]] + digits_prefix(s.skip(1))
    } else {
        Seq::empty()
    }
}

proof fn lemma_digits_prefix_take(s: Seq<char>, k: int)
    requires
        0 <= k <= s.len(),
        forall|j: int| 0 <= j < k ==> is_digit_char(s[j]),
        k < s.len() ==> !is_digit_char(s[k]),
    ensures
        digits_prefix(s) == s.take(k),
    decreases k,
{
    if k == 0 {
        assert(s.take(0) =~= Seq::<char>::empty());
    } else {
        let t = s.skip(1);
        lemma_digits_prefix_take(t, k - 1);
        assert(digits_prefix(s) == seq![s[0]] + digits_prefix(t));
        assert(seq![s[0]] + t.take(k - 1) =~= s.take(k));
    }
}

/// The longest digit prefix of `s`, as an owned string.
pub fn digits_prefix_str(s: &str) -> (r: String)
    ensures
        r@ == digits_prefix(s@),
{
    let n = s.unicode_len();
    let mut k: usize = 0;
    while k < n && is_digit(s.get_char(k))
        invariant
            0 <= k <= n,
            n == s@.len(),
            forall|j: int| 0 <= j < k ==> is_digit_char(s@[j]),
        decreases n - k,
    {
        k = k + 1;
    }
    proof {
        lemma_digits_prefix_take(s@, k as int);
    }
    let r = s.substring_char(0, k).to_owned();
    proof {
        assert(s@.subrange(0, k as int) =~= s@.take(k as int));
    }
    r
}

/// `s` with the whitespace stripped from its front.
pub open spec fn trim_start_rec(s: Seq<char>) -> Seq<char>
    decreases s.len(),
{
    if s.len() > 0 && is_space_char(s[0]) {
        trim_start_rec(s.skip(1))
    } else {
        s
    }
}

/// `s` with the whitespace stripped from its back.
pub open spec fn trim_end_rec(s: Seq<char>) -> Seq<char>
    decreases s.len(),
{
    if s.len() > 0 && is_space_char(s[s.len() - 1]) {
        trim_end_rec(s.take(s.len() - 1))
    } else {
        s
    }
}

/// `s` with whitespace stripped from both ends.
pub open spec fn trimmed(s: Seq<char>) -> Seq<char> {
    trim_end_rec(trim_start_rec(s))
}

proof fn lemma_trim_start_skip(s: Seq<char>, a: int)
    requires
        0 <= a <= s.len(),
        forall|j: int| 0 <= j < a ==> is_space_char(s[j]),
        a < s.len() ==> !is_space_char(s[a]),
    ensures
        trim_start_rec(s) == s.skip(a),
    decreases a,
{
    if a == 0 {
        assert(s.skip(0) =~= s);
    } else {
        let t = s.skip(1);
        lemma_trim_start_skip(t, a - 1);
        assert(t.skip(a - 1) =~= s.skip(a));
    }
}

proof fn lemma_trim_end_take(s: Seq<char>, b: int)
    requires
        0 <= b <= s.len(),
        forall|j: int| b <= j < s.len() ==> is_space_char(s[j]),
        b > 0 ==> !is_space_char(s[b - 1]),
    ensures
        trim_end_rec(s) == s.take(b),
    decreases s.len() - b,
{
    if b == s.len() {
        assert(s.take(b) =~= s);
    } else {
        let t = s.take(s.len() - 1);
        lemma_trim_end_take(t, b);
        assert(t.take(b) =~= s.take(b));
    }
}

/// Trims leading and trailing whitespace, as `trimmed` describes.
pub fn trim_str(s: &str) -> (r: String)
    ensures
        r@ == trimmed(s@),
{
    let n = s.unicode_len();
    let mut a: usize = 0;
    while a < n && is_space(s.get_char(a))
        invariant
            0 <= a <= n,
            n == s@.len(),
            forall|j: int| 0 <= j < a ==> is_space_char(s@[j]),
        decreases n - a,
    {
        a = a + 1;
    }
    let mut b: usize = n;
    while b > a && is_space(s.get_char(b - 1))
        invariant
            a <= b <= n,
            n == s@.len(),
            forall|j: int| b <= j < n ==> is_space_char(s@[j]),
        decreases b,
    {
        b = b - 1;
    }
    proof {
        lemma_trim_start_skip(s@, a as int);
        let t = s@.skip(a as int);
        if b == a {
            // everything after `a` is whitespace, or the string is empty there
            lemma_trim_end_take(t, 0);
        } else {
            lemma_trim_end_take(t, b - a);
        }
        assert(t.take(b - a) =~= s@.subrange(a as int, b as int));
    }
    let r = s.substring_char(a, b).to_owned();
    r
}

/// The pieces of `s` cut at every occurrence of `sep`, the separator not
/// included; `cur` is the piece accumulated so far. Splitting an empty
/// sequence yields one empty piece, as `str::split` does.
pub open spec fn split_rec(s: Seq<char>, sep: char, cur: Seq<char>) -> Seq<Seq<char>>
    decreases s.len(),
{
    if s.len() == 0 {
        seq![cur]
    } else if s[0] == sep {
        seq![cur] + split_rec(s.skip(1), sep, Seq::empty())
    } else {
        split_rec(s.skip(1), sep, cur.push(s[0]))
    }
}

/// `s` split at every occurrence of `sep`.
pub open spec fn split_char(s: Seq<char>, sep: char) -> Seq<Seq<char>> {
    split_rec(s, sep, Seq::empty())
}

/// Splits `s` at every occurrence of `sep`, as `split_char` describes.
pub fn split_str(s: &str, sep: char) -> (r: Vec<String>)
    ensures
        r.deep_view() == split_char(s@, sep),
{
    let n = s.unicode_len();
    let mut out: Vec<String> = Vec::new();
    let mut start: usize = 0;
    let mut i: usize = 0;
    proof {
        assert(out.deep_view() =~= Seq::<Seq<char>>::empty());
        assert(s@.skip(0) =~= s@);
        assert(s@.subrange(0, 0) =~= Seq::<char>::empty());
        assert(out.deep_view() + split_rec(s@, sep, Seq::empty()) =~= split_char(s@, sep));
    }
    while i < n
        invariant
            0 <= start <= i <= n,
            n == s@.len(),
            split_char(s@, sep) == out.deep_view() + split_rec(
                s@.skip(i as int),
                sep,
                s@.subrange(start as int, i as int),
            ),
        decreases n - i,
    {
        let ghost pre = out.deep_view();
        let ghost cur = s@.subrange(start as int, i as int);
        let c = s.get_char(i);
        if c == sep {
            let tok = s.substring_char(start, i).to_owned();
            out.push(tok);
            proof {
                assert(s@.skip(i as int)[0] == sep);
                assert(s@.skip(i as int).skip(1) =~= s@.skip(i + 1));
                assert(split_rec(s@.skip(i as int), sep, cur) == seq![cur] + split_rec(
                    s@.skip(i + 1),
                    sep,
                    Seq::empty(),
                ));
                assert(out.deep_view() =~= pre + seq![cur]);
                assert(s@.subrange(i + 1, i + 1) =~= Seq::<char>::empty());
                assert(out.deep_view() + split_rec(s@.skip(i + 1), sep, s@.subrange(i + 1, i + 1))
                    =~= pre + split_rec(s@.skip(i as int), sep, cur));
            }
            i = i + 1;
            start = i;
        } else {
            proof {
                assert(s@.skip(i as int)[0] == s@[i as int]);
                assert(s@.skip(i as int).skip(1) =~= s@.skip(i + 1));
                assert(cur.push(s@[i as int]) =~= s@.subrange(start as int, i + 1));
            }
            i = i + 1;
        }
    }
    let ghost pre = out.deep_view();
    let ghost cur = s@.subrange(start as int, i as int);
    let tok = s.substring_char(start, n).to_owned();
    out.push(tok);
    proof {
        assert(s@.skip(n as int).len() == 0);
        assert(split_rec(s@.skip(n as int), sep, cur) == seq![cur]);
        assert(out.deep_view() =~= pre + seq![cur]);
    }
    out
}

/// The maximal non-empty runs of non-whitespace characters of `s`, in
/// order; `cur` is the run accumulated so far.
pub open spec fn ws_tokens_rec(s: Seq<char>, cur: Seq<char>) -> Seq<Seq<char>>
    decreases s.len(),
{
    if s.len() == 0 {
        if cur.len() == 0 {
            Seq::empty()
        } else {
            seq![cur]
        }
    } else if is_space_char(s[0]) {
        if cur.len() == 0 {
            ws_tokens_rec(s.skip(1), cur)
        } else {
            seq![cur] + ws_tokens_rec(s.skip(1), Seq::empty())
        }
    } else {
        ws_tokens_rec(s.skip(1), cur.push(s[0]))
    }
}

/// The whitespace-separated fields of `s`.
pub open spec fn ws_tokens(s: Seq<char>) -> Seq<Seq<char>> {
    ws_tokens_rec(s, Seq::empty())
}

/// Cuts `s` into its whitespace-separated fields, as `ws_tokens` describes.
pub fn ws_tokens_str(s: &str) -> (r: Vec<String>)
    ensures
        r.deep_view() == ws_tokens(s@),
{
    let n = s.unicode_len();
    let mut out: Vec<String> = Vec::new();
    let mut start: usize = 0;
    let mut in_token: bool = false;
    let mut i: usize = 0;
    proof {
        assert(out.deep_view() =~= Seq::<Seq<char>>::empty());
        assert(s@.skip(0) =~= s@);
        assert(out.deep_view() + ws_tokens_rec(s@, Seq::empty()) =~= ws_tokens(s@));
    }
    while i < n
        invariant
            0 <= start <= i <= n,
            n == s@.len(),
            in_token ==> start < i,
            ws_tokens(s@) == out.deep_view() + ws_tokens_rec(
                s@.skip(i as int),
                if in_token {
                    s@.subrange(start as int, i as int)
                } else {
                    Seq::<char>::empty()
                },
            ),
        decreases n - i,
    {
        let ghost pre = out.deep_view();
        let ghost cur: Seq<char> = if in_token {
            s@.subrange(start as int, i as int)
        } else {
            Seq::<char>::empty()
        };
        let c = s.get_char(i);
        proof {
            assert(s@.skip(i as int)[0] == s@[i as int]);
            assert(s@.skip(i as int).skip(1) =~= s@.skip(i + 1));
        }
        if is_space(c) {
            if in_token {
                let tok = s.substring_char(start, i).to_owned();
                out.push(tok);
                proof {
                    assert(cur.len() > 0);
                    assert(out.deep_view() =~= pre + seq![cur]);
                    assert(out.deep_view() + ws_tokens_rec(s@.skip(i + 1), Seq::empty()) =~= pre
                        + ws_tokens_rec(s@.skip(i as int), cur));
                }
                in_token = false;
            }
            i = i + 1;
        } else {
            if !in_token {
                start = i;
                in_token = true;
                proof {
                    assert(cur.push(s@[i as int]) =~= s@.subrange(i as int, i + 1));
                }
            } else {
                proof {
                    assert(cur.push(s@[i as int]) =~= s@.subrange(start as int, i + 1));
                }
            }
            i = i + 1;
        }
    }
    if in_token {
        let ghost pre = out.deep_view();
        let ghost cur = s@.subrange(start as int, i as int);
        let tok = s.substring_char(start, n).to_owned();
        out.push(tok);
        proof {
            assert(cur.len() > 0);
            assert(s@.skip(n as int).len() == 0);
            assert(out.deep_view() =~= pre + seq![cur]);
        }
    }
    out
}

/// Compares two string slices by their characters.
pub fn str_eq(a: &str, b: &str) -> (r: bool)
    ensures
        r == (a@ == b@),
{
    let x: String = a.to_owned();
    let y: String = b.to_owned();
    x == y
}

/// Whether one of the strings of `v` has the characters of `t`.
pub fn vec_contains_str(v: &Vec<String>, t: &str) -> (r: bool)
    ensures
        r == v.deep_view().contains(t@),
{
    let mut i: usize = 0;
    while i < v.len()
        invariant
            0 <= i <= v.len(),
            forall|j: int| 0 <= j < i ==> v.deep_view()[j] != t@,
        decreases v.len() - i,
    {
        if str_eq(v[i].as_str(), t) {
            proof {
                assert(v.deep_view()[i as int] == t@);
            }
            return true;
        }
        i = i + 1;
    }
    proof {
        if v.deep_view().contains(t@) {
            let j = choose|j: int| 0 <= j < v.deep_view().len() && v.deep_view()[j] == t@;
            assert(v.deep_view()[j] != t@);
        }
    }
    false
}

/// The pieces of `ts` joined with a single comma between neighbours.
pub open spec fn join_commas(ts: Seq<Seq<char>>) -> Seq<char>
    decreases ts.len(),
{
    if ts.len() == 0 {
        Seq::empty()
    } else if ts.len() == 1 {
        ts[0]
    } else {
        ts[0] + seq![','] + join_commas(ts.skip(1))
    }
}

proof fn lemma_join_push(ts: Seq<Seq<char>>, t: Seq<char>)
    ensures
        ts.len() == 0 ==> join_commas(ts.push(t)) == t,
        ts.len() > 0 ==> join_commas(ts.push(t)) == join_commas(ts) + seq![','] + t,
    decreases ts.len(),
{
    if ts.len() == 0 {
        assert(ts.push(t)[0] =~= t);
        assert(join_commas(ts.push(t)) == ts.push(t)[0]);
    } else {
        let u = ts.push(t);
        assert(u.len() >= 2);
        assert(u.skip(1) =~= ts.skip(1).push(t));
        lemma_join_push(ts.skip(1), t);
        if ts.len() == 1 {
            assert(join_commas(u) == u[0] + seq![','] + join_commas(u.skip(1)));
            assert(u[0] == ts[0]);
            assert(join_commas(u.skip(1)) == t);
        } else {
            assert(join_commas(u) == u[0] + seq![','] + join_commas(u.skip(1)));
            assert(join_commas(u.skip(1)) == join_commas(ts.skip(1)) + seq![','] + t);
            assert(ts[0] + seq![','] + (join_commas(ts.skip(1)) + seq![','] + t) =~= (ts[0]
                + seq![','] + join_commas(ts.skip(1))) + seq![','] + t);
        }
    }
}

/// Joins the strings of `ts` with commas, as `join_commas` describes.
pub fn join_commas_vec(ts: &Vec<String>) -> (r: String)
    ensures
        r@ == join_commas(ts.deep_view()),
{
    let mut r = String::new();
    let mut i: usize = 0;
    while i < ts.len()
        invariant
            0 <= i <= ts.len(),
            r@ == join_commas(ts.deep_view().take(i as int)),
        decreases ts.len() - i,
    {
        let ghost prefix = ts.deep_view().take(i as int);
        if i > 0 {
            r.append(",");
        }
        r.append(ts[i].as_str());
        proof {
            reveal_strlit(",");
            assert(","@ =~= seq![',']);
            assert(ts.deep_view().take(i + 1) =~= prefix.push(ts.deep_view()[i as int]));
            lemma_join_push(prefix, ts.deep_view()[i as int]);
            if i == 0 {
                assert(r@ =~= join_commas(ts.deep_view().take(i + 1)));
            } else {
                assert(r@ =~= join_commas(prefix) + seq![','] + ts.deep_view()[i as int]);
            }
        }
        i = i + 1;
    }
    proof {
        assert(ts.deep_view().take(ts.deep_view().len() as int) =~= ts.deep_view());
    }
    r
}

} // verus!
