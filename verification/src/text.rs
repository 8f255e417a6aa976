//! Character-level text utilities: substring search, suffix tests, equality,
//! trimming and simple rewriting.  All contracts are stated over the
//! `Seq<char>` views of `&str` / `String`.

use vstd::prelude::*;

verus! {

/// `pat` occurs in `hay` starting at position `i`.
pub open spec fn matches_at(hay: Seq<char>, i: int, pat: Seq<char>) -> bool {
    &&& 0 <= i
    &&& i + pat.len() <= hay.len()
    &&& forall|j: int| 0 <= j < pat.len() ==> hay[i + j] == pat[j]
}

/// `pat` occurs somewhere in `hay`.
pub open spec fn has_substring(hay: Seq<char>, pat: Seq<char>) -> bool {
    exists|i: int| matches_at(hay, i, pat)
}

/// `s` ends with `suffix`.
pub open spec fn ends_with(s: Seq<char>, suffix: Seq<char>) -> bool {
    s.len() >= suffix.len() && matches_at(s, s.len() - suffix.len(), suffix)
}

/// Whether `pat` occurs at offset `i` of `hay`, comparing character by
/// character.
fn matches_here(hay: &str, i: usize, pat: &str, pat_len: usize) -> (b: bool)
    requires
        pat_len == pat@.len(),
        i + pat_len <= hay@.len(),
        hay@.len() <= usize::MAX,
    ensures
        b == matches_at(hay@, i as int, pat@),
{
    let mut j: usize = 0;
    while j < pat_len
        invariant
            j <= pat_len,
            pat_len == pat@.len(),
            i + pat_len <= hay@.len(),
            hay@.len() <= usize::MAX,
            forall|k: int| 0 <= k < j ==> hay@[i + k] == pat@[k],
        decreases pat_len - j,
    {
        let hc = hay.get_char(i + j);
        let pc = pat.get_char(j);
        if hc != pc {
            return false;
        }
        j += 1;
    }
    true
}

/// Substring search: `pat` occurs somewhere in `hay`.
pub fn contains_substr(hay: &str, pat: &str) -> (b: bool)
    ensures
        b == has_substring(hay@, pat@),
{
    let hay_len = hay.unicode_len();
    let pat_len = pat.unicode_len();
    if pat_len > hay_len {
        assert(forall|i: int| !matches_at(hay@, i, pat@));
        return false;
    }
    let mut i: usize = 0;
    while i <= hay_len - pat_len
        invariant
            hay_len == hay@.len(),
            pat_len == pat@.len(),
            pat_len <= hay_len,
            i <= hay_len - pat_len + 1,
            forall|x: int| 0 <= x < i ==> !matches_at(hay@, x, pat@),
        decreases hay_len - pat_len + 1 - i,
    {
        if matches_here(hay, i, pat, pat_len) {
            assert(matches_at(hay@, i as int, pat@));
            return true;
        }
        i += 1;
    }
    assert(forall|x: int| matches_at(hay@, x, pat@) ==> 0 <= x <= hay@.len() - pat@.len());
    false
}

/// Suffix test: `s` ends with `suffix`.
pub fn ends_with_str(s: &str, suffix: &str) -> (b: bool)
    ensures
        b == ends_with(s@, suffix@),
{
    let n = s.unicode_len();
    let m = suffix.unicode_len();
    if m > n {
        return false;
    }
    matches_here(s, n - m, suffix, m)
}

/// Character-for-character string equality.
pub fn str_eq(a: &str, b: &str) -> (r: bool)
    ensures
        r == (a@ == b@),
{
    let n = a.unicode_len();
    if n != b.unicode_len() {
        return false;
    }
    let mut i: usize = 0;
    while i < n
        invariant
            n == a@.len(),
            n == b@.len(),
            i <= n,
            forall|k: int| 0 <= k < i ==> a@[k] == b@[k],
        decreases n - i,
    {
        let ca = a.get_char(i);
        let cb = b.get_char(i);
        if ca != cb {
            return false;
        }
        i += 1;
    }
    proof {
        assert(a@ =~= b@);
    }
    true
}

/// Blank characters stripped by [`trim_str`].
pub open spec fn is_blank(c: char) -> bool {
    c == ' ' || c == '\t' || c == '\r' || c == '\n'
}

/// `s` with its leading blanks removed.
pub open spec fn trim_front(s: Seq<char>) -> Seq<char>
    decreases s.len(),
{
    if s.len() > 0 && is_blank(s[0]) {
        trim_front(s.skip(1))
    } else {
        s
    }
}

/// `s` with its trailing blanks removed.
pub open spec fn trim_back(s: Seq<char>) -> Seq<char>
    decreases s.len(),
{
    if s.len() > 0 && is_blank(s[s.len() - 1]) {
        trim_back(s.take(s.len() - 1))
    } else {
        s
    }
}

/// `s` with leading and trailing blanks removed.
pub open spec fn trimmed(s: Seq<char>) -> Seq<char> {
    trim_back(trim_front(s))
}

fn blank(c: char) -> (b: bool)
    ensures
        b == is_blank(c),
{
    c == ' ' || c == '\t' || c == '\r' || c == '\n'
}

/// Copy of `s` with leading and trailing blanks removed.
pub fn trim_str(s: &str) -> (r: String)
    ensures
        r@ == trimmed(s@),
{
    let n = s.unicode_len();
    let mut start: usize = 0;
    proof {
        assert(s@.skip(0) =~= s@);
    }
    while start < n && blank(s.get_char(start))
        invariant
            n == s@.len(),
            start <= n,
            trim_front(s@) == trim_front(s@.skip(start as int)),
        decreases n - start,
    {
        proof {
            assert(s@.skip(start as int).skip(1) =~= s@.skip(start + 1));
        }
        start += 1;
    }
    proof {
        if start < n {
            assert(trim_front(s@) == s@.skip(start as int));
        } else {
            assert(s@.skip(start as int) =~= Seq::<char>::empty());
            assert(trim_front(s@) == s@.skip(start as int));
        }
    }
    let ghost f = s@.skip(start as int);
    let mut end: usize = n;
    proof {
        assert(f.take(n - start) =~= f);
    }
    while end > start && blank(s.get_char(end - 1))
        invariant
            n == s@.len(),
            start <= end <= n,
            f == s@.skip(start as int),
            trim_back(f) == trim_back(f.take(end - start)),
        decreases end,
    {
        proof {
            let m = end - start;
            assert(f.take(m)[m - 1] == s@[end - 1]);
            assert(f.take(m).take(m - 1) =~= f.take(m - 1));
        }
        end -= 1;
    }
    proof {
        if end > start {
            assert(f.take(end - start)[end - start - 1] == s@[end - 1]);
            assert(trim_back(f.take(end - start)) == f.take(end - start));
        } else {
            assert(f.take(0) =~= Seq::<char>::empty());
        }
    }
    let piece = s.substring_char(start, end);
    proof {
        assert(piece@ =~= f.take(end - start));
    }
    piece.to_owned()
}

/// `s` with every `/` turned into `\`.
pub open spec fn backslashed(s: Seq<char>) -> Seq<char> {
    s.map_values(|c: char| if c == '/' { '\\' } else { c })
}

/// Copy of `s` with every forward slash replaced by a backslash, the form
/// Windows path handling expects.
pub fn backslashes(s: &str) -> (r: String)
    ensures
        r@ == backslashed(s@),
{
    let n = s.unicode_len();
    let mut r = String::new();
    let mut i: usize = 0;
    proof {
        assert(r@ =~= backslashed(s@.take(0)));
    }
    while i < n
        invariant
            n == s@.len(),
            i <= n,
            r@ == backslashed(s@.take(i as int)),
        decreases n - i,
    {
        let c = s.get_char(i);
        if c == '/' {
            r.append("\\");
            proof {
                reveal_strlit("\\");
                assert(r@ =~= backslashed(s@.take(i + 1)));
            }
        } else {
            let piece = s.substring_char(i, i + 1);
            r.append(piece);
            proof {
                assert(piece@ =~= seq![s@[i as int]]);
                assert(r@ =~= backslashed(s@.take(i + 1)));
            }
        }
        i += 1;
    }
    proof {
        assert(s@.take(n as int) =~= s@);
    }
    r
}

/// `s` with every non-overlapping occurrence of `pat` removed, scanning left
/// to right.
pub open spec fn removed_all(s: Seq<char>, pat: Seq<char>) -> Seq<char>
    decreases s.len(),
{
    if pat.len() == 0 || s.len() == 0 {
        s
    } else if matches_at(s, 0, pat) {
        removed_all(s.skip(pat.len() as int), pat)
    } else {
        seq![s[0]] + removed_all(s.skip(1), pat)
    }
}

/// Copy of `s` with every occurrence of `pat` removed.
pub fn remove_all(s: &str, pat: &str) -> (r: String)
    requires
        pat@.len() > 0,
    ensures
        r@ == removed_all(s@, pat@),
{
    let n = s.unicode_len();
    let pat_len = pat.unicode_len();
    let mut r = String::new();
    let mut i: usize = 0;
    proof {
        assert(s@.skip(0) =~= s@);
        assert(r@ + removed_all(s@, pat@) =~= removed_all(s@, pat@));
    }
    while i < n
        invariant
            n == s@.len(),
            pat_len == pat@.len(),
            pat_len > 0,
            i <= n,
            removed_all(s@, pat@) == r@ + removed_all(s@.skip(i as int), pat@),
        decreases n - i,
    {
        proof {
            assert(s@.skip(i as int).len() == n - i);
        }
        if pat_len <= n - i && matches_here(s, i, pat, pat_len) {
            proof {
                let rest = s@.skip(i as int);
                assert forall|j: int| 0 <= j < pat@.len() implies rest[j] == pat@[j] by {
                    assert(rest[j] == s@[i + j]);
                }
                assert(matches_at(rest, 0, pat@));
                assert(rest.skip(pat_len as int) =~= s@.skip(i + pat_len));
                assert(r@ + removed_all(rest, pat@) == r@ + removed_all(
                    s@.skip(i + pat_len),
                    pat@,
                ));
            }
            i += pat_len;
        } else {
            proof {
                let rest = s@.skip(i as int);
                if pat_len <= n - i {
                    assert(!matches_at(s@, i as int, pat@));
                    if matches_at(rest, 0, pat@) {
                        assert(forall|j: int|
                            0 <= j < pat@.len() ==> s@[i + j] == rest[j] && rest[j] == pat@[j]);
                        assert(matches_at(s@, i as int, pat@));
                    }
                } else {
                    assert(!matches_at(rest, 0, pat@));
                }
                assert(rest.skip(1) =~= s@.skip(i + 1));
                assert(removed_all(rest, pat@) == seq![s@[i as int]] + removed_all(
                    s@.skip(i + 1),
                    pat@,
                ));
            }
            let ghost r_before = r@;
            let piece = s.substring_char(i, i + 1);
            r.append(piece);
            proof {
                assert(piece@ =~= seq![s@[i as int]]);
                assert(r@ + removed_all(s@.skip(i + 1), pat@) =~= r_before + (seq![s@[i as int]]
                    + removed_all(s@.skip(i + 1), pat@)));
            }
            i += 1;
        }
    }
    proof {
        assert(s@.skip(n as int) =~= Seq::<char>::empty());
        assert(r@ + Seq::<char>::empty() =~= r@);
    }
    r
}

/// `s` split on newline characters; there is always at least one (possibly
/// empty) line.
pub open spec fn split_nl(s: Seq<char>) -> Seq<Seq<char>>
    decreases s.len(),
{
    if s.len() == 0 {
        seq![Seq::<char>::empty()]
    } else if s[0] == '\n' {
        seq![Seq::<char>::empty()] + split_nl(s.skip(1))
    } else {
        let rest = split_nl(s.skip(1));
        seq![seq![s[0]] + rest[0]] + rest.skip(1)
    }
}

pub proof fn lemma_split_nl_len(s: Seq<char>)
    ensures
        split_nl(s).len() >= 1,
    decreases s.len(),
{
    if s.len() > 0 {
        lemma_split_nl_len(s.skip(1));
    }
}

/// When the first `k` characters of `s` are newline-free, they form the first
/// line of the split.
proof fn lemma_split_nl_prefix(s: Seq<char>, k: int)
    requires
        0 <= k <= s.len(),
        forall|q: int| 0 <= q < k ==> s[q] != '\n',
    ensures
        k == s.len() ==> split_nl(s) =~~= seq![s],
        k < s.len() && s[k] == '\n' ==> split_nl(s) =~~= seq![s.take(k)] + split_nl(
            s.skip(k + 1),
        ),
    decreases k,
{
    if k == 0 {
        if k < s.len() && s[k] == '\n' {
            assert(s.take(0) =~= Seq::<char>::empty());
        } else if k == s.len() {
            assert(s =~= Seq::<char>::empty());
        }
    } else {
        let t = s.skip(1);
        lemma_split_nl_prefix(t, k - 1);
        lemma_split_nl_len(t);
        if k == s.len() {
            assert(split_nl(t) =~~= seq![t]);
            assert(seq![s[0]] + t =~= s);
            assert(split_nl(s) =~~= seq![s]);
        } else if s[k] == '\n' {
            assert(t[k - 1] == '\n');
            assert(split_nl(t) =~~= seq![t.take(k - 1)] + split_nl(t.skip(k)));
            assert(seq![s[0]] + t.take(k - 1) =~= s.take(k));
            assert(t.skip(k) =~= s.skip(k + 1));
            assert(split_nl(s) =~~= seq![s.take(k)] + split_nl(s.skip(k + 1)));
        }
    }
}

/// The trimmed content of the first of `ls` that, trimmed, ends with
/// `suffix`.
pub open spec fn first_suffixed_line(ls: Seq<Seq<char>>, suffix: Seq<char>) -> Option<Seq<char>>
    decreases ls.len(),
{
    if ls.len() == 0 {
        Option::None
    } else if ends_with(trimmed(ls[0]), suffix) {
        Option::Some(trimmed(ls[0]))
    } else {
        first_suffixed_line(ls.skip(1), suffix)
    }
}

/// Scan `s` line by line and return the first line that, once trimmed, ends
/// with `suffix`, trimmed.
pub fn first_line_with_suffix(s: &str, suffix: &str) -> (r: Option<String>)
    ensures
        r matches Option::Some(t) ==> first_suffixed_line(split_nl(s@), suffix@)
            == Option::Some(t@),
        r is None ==> first_suffixed_line(split_nl(s@), suffix@) is None,
{
    let n = s.unicode_len();
    let mut i: usize = 0;
    proof {
        assert(s@.skip(0) =~= s@);
    }
    loop
        invariant
            n == s@.len(),
            i <= n,
            first_suffixed_line(split_nl(s@), suffix@) == first_suffixed_line(
                split_nl(s@.skip(i as int)),
                suffix@,
            ),
        decreases n - i,
    {
        let mut j: usize = i;
        while j < n && s.get_char(j) != '\n'
            invariant
                n == s@.len(),
                i <= j <= n,
                forall|q: int| i <= q < j ==> s@[q] != '\n',
            decreases n - j,
        {
            j += 1;
        }
        let line = s.substring_char(i, j);
        let t = trim_str(line);
        let ghost rest = s@.skip(i as int);
        proof {
            assert forall|q: int| 0 <= q < j - i implies rest[q] != '\n' by {
                assert(rest[q] == s@[i + q]);
            }
            lemma_split_nl_prefix(rest, j - i);
            assert(rest.take(j - i) =~= s@.subrange(i as int, j as int));
            if j < n {
                assert(rest[j - i] == s@[j as int]);
            }
        }
        if ends_with_str(t.as_str(), suffix) {
            proof {
                lemma_split_nl_len(rest);
                if (j as int) == n {
                    assert(split_nl(rest)[0] == rest);
                    assert(rest =~= s@.subrange(i as int, j as int));
                } else {
                    assert(split_nl(rest)[0] == rest.take(j - i));
                }
                assert(split_nl(rest)[0] == line@);
            }
            return Option::Some(t);
        }
        if j == n {
            proof {
                assert(split_nl(rest) =~~= seq![rest]);
                assert(rest =~= s@.subrange(i as int, j as int));
                assert(split_nl(rest)[0] == line@);
                assert(trimmed(split_nl(rest)[0]) == t@);
                assert(!ends_with(trimmed(split_nl(rest)[0]), suffix@));
                assert(split_nl(rest).skip(1) =~~= Seq::<Seq<char>>::empty());
                assert(first_suffixed_line(split_nl(rest).skip(1), suffix@) is None);
                assert(first_suffixed_line(split_nl(rest), suffix@) is None);
            }
            return Option::None;
        }
        proof {
            assert(split_nl(rest) =~~= seq![rest.take(j - i)] + split_nl(rest.skip(j - i + 1)));
            assert(split_nl(rest)[0] == line@);
            assert(split_nl(rest).skip(1) =~~= split_nl(rest.skip(j - i + 1)));
            assert(rest.skip(j - i + 1) =~= s@.skip(j + 1));
        }
        i = j + 1;
    }
}

/// The decimal digit character for `d`.
pub open spec fn dec_digit(d: int) -> char {
    if d == 0 {
        '0'
    } else if d == 1 {
        '1'
    } else if d == 2 {
        '2'
    } else if d == 3 {
        '3'
    } else if d == 4 {
        '4'
    } else if d == 5 {
        '5'
    } else if d == 6 {
        '6'
    } else if d == 7 {
        '7'
    } else if d == 8 {
        '8'
    } else {
        '9'
    }
}

/// The decimal rendering of a nonnegative number, most significant digit
/// first.
pub open spec fn dec_str(n: int) -> Seq<char>
    decreases n,
{
    if n < 10 {
        seq![dec_digit(n)]
    } else {
        dec_str(n / 10) + seq![dec_digit(n % 10)]
    }
}

fn append_digit(r: &mut String, d: u32)
    requires
        d < 10,
    ensures
        final(r)@ == old(r)@ + seq![dec_digit(d as int)],
{
    if d == 0 {
        r.append("0");
        proof {
            reveal_strlit("0");
            assert(r@ =~= old(r)@ + seq![dec_digit(d as int)]);
        }
    } else if d == 1 {
        r.append("1");
        proof {
            reveal_strlit("1");
            assert(r@ =~= old(r)@ + seq![dec_digit(d as int)]);
        }
    } else if d == 2 {
        r.append("2");
        proof {
            reveal_strlit("2");
            assert(r@ =~= old(r)@ + seq![dec_digit(d as int)]);
        }
    } else if d == 3 {
        r.append("3");
        proof {
            reveal_strlit("3");
            assert(r@ =~= old(r)@ + seq![dec_digit(d as int)]);
        }
    } else if d == 4 {
        r.append("4");
        proof {
            reveal_strlit("4");
            assert(r@ =~= old(r)@ + seq![dec_digit(d as int)]);
        }
    } else if d == 5 {
        r.append("5");
        proof {
            reveal_strlit("5");
            assert(r@ =~= old(r)@ + seq![dec_digit(d as int)]);
        }
    } else if d == 6 {
        r.append("6");
        proof {
            reveal_strlit("6");
            assert(r@ =~= old(r)@ + seq![dec_digit(d as int)]);
        }
    } else if d == 7 {
        r.append("7");
        proof {
            reveal_strlit("7");
            assert(r@ =~= old(r)@ + seq![dec_digit(d as int)]);
        }
    } else if d == 8 {
        r.append("8");
        proof {
            reveal_strlit("8");
            assert(r@ =~= old(r)@ + seq![dec_digit(d as int)]);
        }
    } else {
        r.append("9");
        proof {
            reveal_strlit("9");
            assert(r@ =~= old(r)@ + seq![dec_digit(d as int)]);
        }
    }
}

/// The decimal rendering of `n`.
pub fn u32_to_string(n: u32) -> (r: String)
    ensures
        r@ == dec_str(n as int),
    decreases n,
{
    if n < 10 {
        let mut r = String::new();
        append_digit(&mut r, n);
        proof {
            assert(r@ =~= dec_str(n as int));
        }
        r
    } else {
        let mut r = u32_to_string(n / 10);
        append_digit(&mut r, n % 10);
        r
    }
}

} // verus!
