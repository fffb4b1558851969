//! Verified text utilities: decimal numbers, equality, search, split
//! and join over the character views of `str` and `String`.

use vstd::prelude::*;

verus! {

/// True when `c` is an ASCII decimal digit.
pub open spec fn is_digit_char(c: char) -> bool {
    '0' <= c && c <= '9'
}

/// Numeric value of an ASCII decimal digit.
pub open spec fn digit_val(c: char) -> int {
    c as int - '0' as int
}

/// Every character of `s` is an ASCII decimal digit.
pub open spec fn all_digits(s: Seq<char>) -> bool {
    forall|i: int| 0 <= i < s.len() ==> is_digit_char(#[trigger] s[i])
}

/// Value of a digit string read as a decimal number.
pub open spec fn dec_val(s: Seq<char>) -> int
    decreases s.len(),
{
    if s.len() == 0 {
        0
    } else {
        dec_val(s.drop_last()) * 10 + digit_val(s.last())
    }
}

pub proof fn lemma_dec_val_nonneg(s: Seq<char>)
    requires
        all_digits(s),
    ensures
        dec_val(s) >= 0,
    decreases s.len(),
{
    if s.len() > 0 {
        assert(all_digits(s.drop_last()));
        lemma_dec_val_nonneg(s.drop_last());
    }
}

/// Reading one more digit multiplies the prefix value by ten.
pub proof fn lemma_dec_val_take_succ(s: Seq<char>, i: int)
    requires
        0 <= i < s.len(),
    ensures
        dec_val(s.take(i + 1)) == dec_val(s.take(i)) * 10 + digit_val(s[i]),
{
    assert(s.take(i + 1).drop_last() =~= s.take(i));
    assert(s.take(i + 1).last() == s[i]);
}

/// A digit string's value never shrinks as the prefix grows.
pub proof fn lemma_dec_val_take_le(s: Seq<char>, i: int, j: int)
    requires
        0 <= i <= j <= s.len(),
        forall|k: int| 0 <= k < j ==> is_digit_char(#[trigger] s[k]),
    ensures
        dec_val(s.take(i)) <= dec_val(s.take(j)),
    decreases j - i,
{
    if i < j {
        lemma_dec_val_take_le(s, i, j - 1);
        lemma_dec_val_take_succ(s, j - 1);
        assert(all_digits(s.take(j - 1)));
        lemma_dec_val_nonneg(s.take(j - 1));
    }
}

/// Parses a non-empty, all-digit string as a `u32`; anything else,
/// including a value above `u32::MAX`, is `None`.
pub fn parse_u32(s: &str) -> (r: Option<u32>)
    ensures
        r is Some <==> s@.len() > 0 && all_digits(s@) && dec_val(s@) <= u32::MAX as int,
        match r {
            Some(v) => v as int == dec_val(s@),
            None => true,
        },
{
    let len = s.unicode_len();
    if len == 0 {
        return None;
    }
    let mut i: usize = 0;
    let mut acc: u32 = 0;
    while i < len
        invariant
            0 <= i <= len,
            len == s@.len(),
            all_digits(s@.take(i as int)),
            acc as int == dec_val(s@.take(i as int)),
        decreases len - i,
    {
        let c = s.get_char(i);
        if !('0' <= c && c <= '9') {
            assert(!is_digit_char(s@[i as int]));
            return None;
        }
        let d: u32 = (c as u32) - 48;
        assert(d as int == digit_val(s@[i as int]));
        proof {
            lemma_dec_val_take_succ(s@, i as int);
        }
        if acc > 429496729 || (acc == 429496729 && d > 5) {
            // The running value already exceeds u32::MAX, and growing the
            // prefix can only increase it.
            assert(dec_val(s@.take(i as int + 1)) > u32::MAX as int);
            proof {
                if s@.len() > 0 && all_digits(s@) && dec_val(s@) <= u32::MAX as int {
                    lemma_dec_val_take_le(s@, i as int + 1, len as int);
                    assert(s@.take(len as int) =~= s@);
                }
            }
            return None;
        }
        acc = acc * 10 + d;
        i = i + 1;
    }
    proof {
        assert(s@.take(len as int) =~= s@);
    }
    Some(acc)
}

/// Digit character of a value below ten.
pub open spec fn digit_char(d: int) -> char {
    if d == 0 {
        '0'
    } else if d == 1 {
        '1'
    } else if d == 2 {
        '2'
    } else if d == 3 {
        '3'
    } else if d == 4 {
        '4'
    } else if d == 5 {
        '5'
    } else if d == 6 {
        '6'
    } else if d == 7 {
        '7'
    } else if d == 8 {
        '8'
    } else {
        '9'
    }
}

/// Decimal text of a natural number, without sign or padding.
pub open spec fn dec_str(n: nat) -> Seq<char>
    decreases n,
{
    if n < 10 {
        seq![digit_char(n as int)]
    } else {
        dec_str(n / 10) + seq![digit_char((n % 10) as int)]
    }
}

fn digit_string(d: u64) -> (r: String)
    requires
        d < 10,
    ensures
        r@ =~= seq![digit_char(d as int)],
{
    proof {
        reveal_strlit("0");
        reveal_strlit("1");
        reveal_strlit("2");
        reveal_strlit("3");
        reveal_strlit("4");
        reveal_strlit("5");
        reveal_strlit("6");
        reveal_strlit("7");
        reveal_strlit("8");
        reveal_strlit("9");
    }
    if d == 0 {
        String::from_str("0")
    } else if d == 1 {
        String::from_str("1")
    } else if d == 2 {
        String::from_str("2")
    } else if d == 3 {
        String::from_str("3")
    } else if d == 4 {
        String::from_str("4")
    } else if d == 5 {
        String::from_str("5")
    } else if d == 6 {
        String::from_str("6")
    } else if d == 7 {
        String::from_str("7")
    } else if d == 8 {
        String::from_str("8")
    } else {
        String::from_str("9")
    }
}

/// Renders a `u64` as decimal text.
pub fn u64_to_dec(n: u64) -> (r: String)
    ensures
        r@ == dec_str(n as nat),
    decreases n,
{
    if n < 10 {
        digit_string(n)
    } else {
        let head = u64_to_dec(n / 10);
        let tail = digit_string(n % 10);
        head.concat(tail.as_str())
    }
}

/// Character-wise string equality.
pub fn str_eq(a: &str, b: &str) -> (r: bool)
    ensures
        r == (a@ == b@),
{
    let la = a.unicode_len();
    let lb = b.unicode_len();
    if la != lb {
        assert(a@ != b@);
        return false;
    }
    let mut i: usize = 0;
    while i < la
        invariant
            0 <= i <= la,
            la == a@.len(),
            la == b@.len(),
            forall|j: int| 0 <= j < i ==> a@[j] == b@[j],
        decreases la - i,
    {
        if a.get_char(i) != b.get_char(i) {
            assert(a@[i as int] != b@[i as int]);
            return false;
        }
        i = i + 1;
    }
    proof {
        assert(a@ =~= b@);
    }
    true
}

/// `p` is a prefix of `s`.
pub open spec fn starts_with_seq(s: Seq<char>, p: Seq<char>) -> bool {
    p.len() <= s.len() && s.take(p.len() as int) == p
}

pub fn str_starts_with(s: &str, p: &str) -> (r: bool)
    ensures
        r == starts_with_seq(s@, p@),
{
    let ls = s.unicode_len();
    let lp = p.unicode_len();
    if lp > ls {
        return false;
    }
    let mut i: usize = 0;
    while i < lp
        invariant
            0 <= i <= lp <= ls,
            ls == s@.len(),
            lp == p@.len(),
            forall|j: int| 0 <= j < i ==> s@[j] == p@[j],
        decreases lp - i,
    {
        if s.get_char(i) != p.get_char(i) {
            assert(s@.take(lp as int)[i as int] != p@[i as int]);
            return false;
        }
        i = i + 1;
    }
    proof {
        assert(s@.take(lp as int) =~= p@);
    }
    true
}

/// `n` occurs in `h` starting at index `i`.
pub open spec fn matches_at(h: Seq<char>, n: Seq<char>, i: int) -> bool {
    0 <= i && i + n.len() <= h.len() && h.subrange(i, i + n.len()) == n
}

/// `n` occurs somewhere in `h`.
pub open spec fn contains_seq(h: Seq<char>, n: Seq<char>) -> bool {
    exists|i: int| matches_at(h, n, i)
}

fn check_match_at(h: &str, n: &str, i: usize) -> (r: bool)
    requires
        i + n@.len() <= h@.len(),
    ensures
        r == matches_at(h@, n@, i as int),
{
    let lh = h.unicode_len();
    let ln = n.unicode_len();
    let mut j: usize = 0;
    while j < ln
        invariant
            0 <= j <= ln,
            lh == h@.len(),
            ln == n@.len(),
            i + ln <= lh,
            forall|k: int| 0 <= k < j ==> h@[i + k] == n@[k],
        decreases ln - j,
    {
        if h.get_char(i + j) != n.get_char(j) {
            assert(h@[i as int + j as int] != n@[j as int]);
            assert(!matches_at(h@, n@, i as int)) by {
                if matches_at(h@, n@, i as int) {
                    assert(h@.subrange(i as int, i as int + n@.len())[j as int] == n@[j as int]);
                }
            }
            return false;
        }
        j = j + 1;
    }
    proof {
        assert(h@.subrange(i as int, i as int + n@.len()) =~= n@);
    }
    true
}

/// Substring search over the character views.
pub fn str_contains(h: &str, n: &str) -> (r: bool)
    ensures
        r == contains_seq(h@, n@),
{
    let lh = h.unicode_len();
    let ln = n.unicode_len();
    if ln > lh {
        assert(!contains_seq(h@, n@));
        return false;
    }
    if ln == 0 {
        proof {
            assert(h@.subrange(0, 0) =~= n@);
            assert(contains_seq(h@, n@)) by {
                assert(matches_at(h@, n@, 0));
            }
        }
        return true;
    }
    let bound = lh - ln;
    let mut i: usize = 0;
    while i <= bound
        invariant
            0 <= i <= bound + 1,
            1 <= ln <= lh,
            bound == lh - ln,
            lh == h@.len(),
            ln == n@.len(),
            forall|k: int| 0 <= k < i ==> !matches_at(h@, n@, k),
        decreases bound + 1 - i,
    {
        if check_match_at(h, n, i) {
            proof {
                assert(contains_seq(h@, n@)) by {
                    assert(matches_at(h@, n@, i as int));
                }
            }
            return true;
        }
        i = i + 1;
    }
    assert(forall|k: int| matches_at(h@, n@, k) ==> 0 <= k <= bound);
    false
}

/// Splitting a character sequence on a separator, keeping empty pieces,
/// as `str::split` does for a character pattern.
pub open spec fn split_seq(s: Seq<char>, sep: char) -> Seq<Seq<char>>
    decreases s.len(),
{
    if s.len() == 0 {
        seq![Seq::<char>::empty()]
    } else if s[0] == sep {
        seq![Seq::<char>::empty()] + split_seq(s.skip(1), sep)
    } else {
        let rest = split_seq(s.skip(1), sep);
        seq![seq![s[0]] + rest[0]] + rest.skip(1)
    }
}

pub proof fn lemma_split_seq_len(s: Seq<char>, sep: char)
    ensures
        split_seq(s, sep).len() >= 1,
    decreases s.len(),
{
    if s.len() > 0 {
        lemma_split_seq_len(s.skip(1), sep);
    }
}

proof fn lemma_split_seq_step(s: Seq<char>, sep: char, i: int)
    requires
        0 <= i < s.len(),
    ensures
        s[i] == sep ==> split_seq(s.skip(i), sep) == seq![Seq::<char>::empty()] + split_seq(
            s.skip(i + 1),
            sep,
        ),
        s[i] != sep ==> split_seq(s.skip(i), sep) == seq![
            seq![s[i]] + split_seq(s.skip(i + 1), sep)[0],
        ] + split_seq(s.skip(i + 1), sep).skip(1),
{
    assert(s.skip(i).len() > 0);
    assert(s.skip(i)[0] == s[i]);
    assert(s.skip(i).skip(1) =~= s.skip(i + 1));
}

/// Splits on a separator character; the parts carry no separator and
/// rebuild the input when joined with it.
pub fn split_char(s: &str, sep: char) -> (r: Vec<String>)
    ensures
        r.deep_view() == split_seq(s@, sep),
{
    let len = s.unicode_len();
    let mut parts: Vec<String> = Vec::new();
    let mut start: usize = 0;
    let mut i: usize = 0;
    proof {
        lemma_split_seq_len(s@, sep);
        assert(s@.skip(0) =~= s@);
        let r0 = split_seq(s@, sep);
        assert(s@.subrange(0, 0) + r0[0] =~= r0[0]);
        assert(parts.deep_view() =~= Seq::<Seq<char>>::empty());
        assert(parts.deep_view() + seq![s@.subrange(0, 0) + r0[0]] + r0.skip(1) =~= r0);
    }
    while i < len
        invariant
            0 <= start <= i <= len,
            len == s@.len(),
            split_seq(s@.skip(i as int), sep).len() >= 1,
            split_seq(s@, sep) == parts.deep_view() + seq![
                s@.subrange(start as int, i as int) + split_seq(s@.skip(i as int), sep)[0],
            ] + split_seq(s@.skip(i as int), sep).skip(1),
        decreases len - i,
    {
        let ghost cur = split_seq(s@.skip(i as int), sep);
        let ghost rest = split_seq(s@.skip(i as int + 1), sep);
        proof {
            lemma_split_seq_step(s@, sep, i as int);
            lemma_split_seq_len(s@.skip(i as int + 1), sep);
        }
        let c = s.get_char(i);
        if c == sep {
            let piece = s.substring_char(start, i).to_owned();
            let ghost old_parts = parts.deep_view();
            parts.push(piece);
            proof {
                // cur == [empty] + rest, so its head is empty and its tail is rest
                assert(cur[0] =~= Seq::<char>::empty());
                assert(cur.skip(1) =~= rest);
                assert(s@.subrange(start as int, i as int) + cur[0] =~= s@.subrange(
                    start as int,
                    i as int,
                ));
                assert(s@.subrange(i as int + 1, i as int + 1) + rest[0] =~= rest[0]);
                assert(parts.deep_view() =~= old_parts.push(s@.subrange(start as int, i as int)));
                assert(old_parts + seq![s@.subrange(start as int, i as int) + cur[0]] + cur.skip(1)
                    =~= parts.deep_view() + seq![s@.subrange(i as int + 1, i as int + 1) + rest[0]]
                    + rest.skip(1));
            }
            start = i + 1;
        } else {
            proof {
                // the head of cur extends the current piece by one character
                assert(cur[0] == seq![s@[i as int]] + rest[0]);
                assert(cur.skip(1) =~= rest.skip(1));
                assert(s@.subrange(start as int, i as int) + cur[0] =~= s@.subrange(
                    start as int,
                    i as int + 1,
                ) + rest[0]);
            }
        }
        i = i + 1;
    }
    let ghost tail = split_seq(s@.skip(len as int), sep);
    let piece = s.substring_char(start, len).to_owned();
    let ghost old_parts = parts.deep_view();
    parts.push(piece);
    proof {
        assert(s@.skip(len as int) =~= Seq::<char>::empty());
        assert(tail =~= seq![Seq::<char>::empty()]);
        assert(s@.subrange(start as int, len as int) + tail[0] =~= s@.subrange(
            start as int,
            len as int,
        ));
        assert(tail.skip(1) =~= Seq::<Seq<char>>::empty());
        assert(parts.deep_view() =~= old_parts.push(s@.subrange(start as int, len as int)));
        assert(old_parts + seq![s@.subrange(start as int, len as int) + tail[0]] + tail.skip(1)
            =~= parts.deep_view());
    }
    parts
}

/// Joining parts with a separator character.
pub open spec fn join_seq(parts: Seq<Seq<char>>, sep: char) -> Seq<char>
    decreases parts.len(),
{
    if parts.len() == 0 {
        Seq::empty()
    } else if parts.len() == 1 {
        parts[0]
    } else {
        parts[0] + seq![sep] + join_seq(parts.skip(1), sep)
    }
}

/// Joins parts with the newline character.
pub fn join_lines(parts: &Vec<String>) -> (r: String)
    ensures
        r@ == join_seq(parts.deep_view(), '\n'),
{
    let mut out = String::new();
    if parts.len() == 0 {
        return out;
    }
    let mut i: usize = 0;
    proof {
        reveal_strlit("\n");
        assert(parts.deep_view().skip(0) =~= parts.deep_view());
        assert(Seq::<char>::empty() + join_seq(parts.deep_view(), '\n') =~= join_seq(
            parts.deep_view(),
            '\n',
        ));
    }
    while i + 1 < parts.len()
        invariant
            0 <= i < parts.len(),
            parts.deep_view().len() == parts.len(),
            join_seq(parts.deep_view(), '\n') == out@ + join_seq(
                parts.deep_view().skip(i as int),
                '\n',
            ),
            "\n"@ == seq!['\n'],
        decreases parts.len() - i,
    {
        let ghost pview = parts.deep_view();
        let ghost out0 = out@;
        out.append(parts[i].as_str());
        out.append("\n");
        proof {
            assert(pview.skip(i as int).len() >= 2);
            assert(pview.skip(i as int)[0] == pview[i as int]);
            assert(pview.skip(i as int).skip(1) =~= pview.skip(i as int + 1));
            assert(join_seq(pview.skip(i as int), '\n') == pview[i as int] + seq!['\n'] + join_seq(
                pview.skip(i as int + 1),
                '\n',
            ));
            assert(parts@[i as int]@ == pview[i as int]);
            assert(out@ =~= out0 + pview[i as int] + seq!['\n']);
            assert(out0 + (pview[i as int] + seq!['\n'] + join_seq(pview.skip(i as int + 1), '\n'))
                =~= out@ + join_seq(pview.skip(i as int + 1), '\n'));
        }
        i = i + 1;
    }
    let ghost pview = parts.deep_view();
    let ghost out0 = out@;
    out.append(parts[i].as_str());
    proof {
        assert(pview.skip(i as int).len() == 1);
        assert(pview.skip(i as int)[0] == pview[i as int]);
        assert(join_seq(pview.skip(i as int), '\n') == pview[i as int]);
        assert(parts@[i as int]@ == pview[i as int]);
        assert(out@ =~= out0 + pview[i as int]);
    }
    out
}

/// A whitespace character for the purpose of trimming.
pub open spec fn is_trim_blank(c: char) -> bool {
    c == ' ' || c == '\t' || c == '\r' || c == '\n'
}

/// The sequence with its leading whitespace removed.
pub open spec fn trim_start_spec(s: Seq<char>) -> Seq<char>
    decreases s.len(),
{
    if s.len() > 0 && is_trim_blank(s[0]) {
        trim_start_spec(s.skip(1))
    } else {
        s
    }
}

/// The sequence with its trailing whitespace removed.
pub open spec fn trim_end_spec(s: Seq<char>) -> Seq<char>
    decreases s.len(),
{
    if s.len() > 0 && is_trim_blank(s.last()) {
        trim_end_spec(s.drop_last())
    } else {
        s
    }
}

/// The sequence with whitespace removed from both ends.
pub open spec fn trim_spec(s: Seq<char>) -> Seq<char> {
    trim_end_spec(trim_start_spec(s))
}

/// Whether a character counts as whitespace for trimming.
pub fn is_blank(c: char) -> (r: bool)
    ensures
        r == is_trim_blank(c),
{
    c == ' ' || c == '\t' || c == '\r' || c == '\n'
}

/// Trims ASCII whitespace from both ends of a string.
pub fn trim_ascii(s: &str) -> (r: String)
    ensures
        r@ == trim_spec(s@),
{
    let len = s.unicode_len();
    let mut i: usize = 0;
    proof {
        assert(s@.skip(0) =~= s@);
    }
    while i < len && is_blank(s.get_char(i))
        invariant
            0 <= i <= len,
            len == s@.len(),
            trim_start_spec(s@) == trim_start_spec(s@.skip(i as int)),
        decreases len - i,
    {
        proof {
            assert(s@.skip(i as int)[0] == s@[i as int]);
            assert(s@.skip(i as int).skip(1) =~= s@.skip(i as int + 1));
        }
        i = i + 1;
    }
    let ghost t = s@.skip(i as int);
    proof {
        if i < len {
            assert(!is_trim_blank(t[0]));
        } else {
            assert(t =~= Seq::<char>::empty());
        }
        assert(trim_start_spec(t) == t);
    }
    let mut j: usize = len;
    proof {
        assert(t.take(len - i as int) =~= t);
    }
    while j > i && is_blank(s.get_char(j - 1))
        invariant
            i <= j <= len,
            len == s@.len(),
            t == s@.skip(i as int),
            trim_end_spec(t) == trim_end_spec(t.take(j - i as int)),
        decreases j,
    {
        proof {
            let cur = t.take(j - i as int);
            assert(cur.last() == s@[j - 1]);
            assert(cur.drop_last() =~= t.take(j - 1 - i as int));
        }
        j = j - 1;
    }
    proof {
        let cur = t.take(j - i as int);
        if j > i {
            assert(cur.last() == s@[j - 1]);
            assert(!is_trim_blank(cur.last()));
        } else {
            assert(cur =~= Seq::<char>::empty());
        }
        assert(trim_end_spec(cur) == cur);
        assert(cur =~= s@.subrange(i as int, j as int));
    }
    s.substring_char(i, j).to_owned()
}

/// Replacement of every non-overlapping occurrence of `pat`, leftmost
/// first, as `str::replace` does.
pub open spec fn replace_seq(h: Seq<char>, pat: Seq<char>, rep: Seq<char>) -> Seq<char>
    decreases h.len(),
    when pat.len() > 0
{
    if h.len() < pat.len() {
        h
    } else if h.take(pat.len() as int) == pat {
        rep + replace_seq(h.skip(pat.len() as int), pat, rep)
    } else {
        seq![h[0]] + replace_seq(h.skip(1), pat, rep)
    }
}

/// Replaces every occurrence of `pat` in `h` with `rep`.
pub fn replace_all(h: &str, pat: &str, rep: &str) -> (r: String)
    requires
        pat@.len() > 0,
    ensures
        r@ == replace_seq(h@, pat@, rep@),
    decreases h@.len(),
{
    let lh = h.unicode_len();
    let lp = pat.unicode_len();
    if lh < lp {
        return h.to_owned();
    }
    if check_match_at(h, pat, 0) {
        proof {
            assert(h@.subrange(0, pat@.len() as int) =~= h@.take(pat@.len() as int));
        }
        let tail = h.substring_char(lp, lh);
        proof {
            assert(tail@ =~= h@.skip(pat@.len() as int));
        }
        let rest = replace_all(tail, pat, rep);
        rep.to_owned().concat(rest.as_str())
    } else {
        proof {
            assert(h@.subrange(0, pat@.len() as int) =~= h@.take(pat@.len() as int));
        }
        let head = h.substring_char(0, 1);
        let tail = h.substring_char(1, lh);
        proof {
            assert(head@ =~= seq![h@[0]]);
            assert(tail@ =~= h@.skip(1));
        }
        let rest = replace_all(tail, pat, rep);
        head.to_owned().concat(rest.as_str())
    }
}

} // verus!
