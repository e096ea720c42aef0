//! Text processing: UTF-8-safe truncation, word extraction and joining,
//! and the trusted case-folding and trimming primitives.
use vstd::prelude::*;
use vstd::string::StrSliceExecFns;
use vstd::string::StringExecFns;

verus! {

/// The number of bytes the UTF-8 encoding of a character takes.
pub open spec fn char_utf8_len(c: char) -> int {
    if (c as u32) < 0x80 {
        1
    } else if (c as u32) < 0x800 {
        2
    } else if (c as u32) < 0x10000 {
        3
    } else {
        4
    }
}

/// The number of characters in the longest prefix of `s` whose UTF-8
/// encoding fits in `max` bytes.
pub open spec fn prefix_fit(s: Seq<char>, max: int) -> int
    decreases s.len(),
{
    if s.len() == 0 {
        0
    } else if char_utf8_len(s[0]) <= max {
        1 + prefix_fit(s.drop_first(), max - char_utf8_len(s[0]))
    } else {
        0
    }
}

/// The longest prefix of `s` whose UTF-8 encoding fits in `max` bytes.
pub open spec fn spec_safe_slice(s: Seq<char>, max: int) -> Seq<char> {
    s.take(prefix_fit(s, max))
}

proof fn lemma_prefix_fit_bounds(s: Seq<char>, max: int)
    ensures
        0 <= prefix_fit(s, max) <= s.len(),
    decreases s.len(),
{
    if s.len() != 0 && char_utf8_len(s[0]) <= max {
        lemma_prefix_fit_bounds(s.drop_first(), max - char_utf8_len(s[0]));
    }
}

fn utf8_len_of_char(c: char) -> (l: usize)
    ensures
        l == char_utf8_len(c),
{
    let u = c as u32;
    if u < 0x80 {
        1
    } else if u < 0x800 {
        2
    } else if u < 0x10000 {
        3
    } else {
        4
    }
}

/// Truncate a string to at most `max_bytes` bytes without splitting a
/// character: the result is the longest prefix whose UTF-8 encoding fits.
pub fn safe_slice(s: &str, max_bytes: usize) -> (r: String)
    ensures
        r@ == spec_safe_slice(s@, max_bytes as int),
{
    let n = s.unicode_len();
    let mut i: usize = 0;
    let mut used: usize = 0;
    proof {
        assert(s@.skip(0) =~= s@);
    }
    while i < n
        invariant
            n == s@.len(),
            0 <= i <= n,
            used <= max_bytes,
            prefix_fit(s@, max_bytes as int) == i + prefix_fit(
                s@.skip(i as int),
                max_bytes - used,
            ),
        ensures
            prefix_fit(s@, max_bytes as int) == i as int,
        decreases n - i,
    {
        let c = s.get_char(i);
        let clen = utf8_len_of_char(c);
        proof {
            assert(s@.skip(i as int)[0] == s@[i as int]);
            assert(s@.skip(i as int).drop_first() =~= s@.skip(i as int + 1));
        }
        if clen > max_bytes - used {
            proof {
                assert(prefix_fit(s@.skip(i as int), max_bytes - used) == 0);
            }
            break ;
        }
        used = used + clen;
        i = i + 1;
        proof {
            if i == n {
                assert(s@.skip(i as int).len() == 0);
            }
        }
    }
    proof {
        lemma_prefix_fit_bounds(s@, max_bytes as int);
    }
    let prefix = s.substring_char(0, i);
    let r = prefix.to_owned();
    proof {
        assert(r@ =~= s@.take(i as int));
    }
    r
}

/// Whether `char::is_alphanumeric` holds of a character: a Unicode letter or
/// digit. The result depends on the character alone.
pub uninterp spec fn alnum_char(c: char) -> bool;

/// Relies on `char::is_alphanumeric`: true for Unicode letters and digits;
/// the result depends on the character alone.
#[verifier::external_body]
fn is_alnum(c: char) -> (r: bool)
    ensures
        r == alnum_char(c),
{
    c.is_alphanumeric()
}

/// A character that counts as part of a word for the boundary test: a Unicode
/// letter or digit, or an underscore.
pub open spec fn word_char(c: char) -> bool {
    alnum_char(c) || c == '_'
}

/// A character the tokenizer keeps: a lowercase ASCII letter or a character
/// in the Latin-1 range from U+00E4 to U+00FF.
pub open spec fn token_char(c: char) -> bool {
    (('a' as u32) <= (c as u32) && (c as u32) <= ('z' as u32)) || (0xe4 <= (c as u32) && (c as u32)
        <= 0xff)
}

/// Position `i` of `s` holds a word character.
pub open spec fn word_at(s: Seq<char>, i: int) -> bool {
    0 <= i < s.len() && word_char(s[i])
}

/// A word boundary lies at position `p`: of the two positions around `p`,
/// exactly one holds a word character (the ends of the string count as
/// non-word).
pub open spec fn boundary(s: Seq<char>, p: int) -> bool {
    word_at(s, p - 1) != word_at(s, p)
}

/// The end of the run of token characters that starts at `p`: the first
/// position at or after `p` that is past the end or holds no token character.
pub open spec fn run_end(s: Seq<char>, p: int) -> int
    decreases s.len() - p,
{
    if 0 <= p < s.len() && token_char(s[p]) {
        run_end(s, p + 1)
    } else {
        p
    }
}

/// The largest position in `[lo, hi]` that is a word boundary, if any.
pub open spec fn best_end(s: Seq<char>, lo: int, hi: int) -> Option<int>
    decreases hi - lo + 1,
{
    if hi < lo {
        None
    } else if boundary(s, hi) {
        Some(hi)
    } else {
        best_end(s, lo, hi - 1)
    }
}

/// Where a word match starting at `p` ends, if one starts there: `p` must be
/// a word boundary holding a token character, and the match takes the longest
/// run of at least two token characters that ends on a word boundary.
pub open spec fn match_end(s: Seq<char>, p: int) -> Option<int> {
    if 0 <= p < s.len() && boundary(s, p) && token_char(s[p]) {
        best_end(s, p + 2, run_end(s, p))
    } else {
        None
    }
}

proof fn lemma_run_end_bounds(s: Seq<char>, p: int)
    requires
        0 <= p <= s.len(),
    ensures
        p <= run_end(s, p) <= s.len(),
    decreases s.len() - p,
{
    if p < s.len() && token_char(s[p]) {
        lemma_run_end_bounds(s, p + 1);
    }
}

proof fn lemma_best_end_bounds(s: Seq<char>, lo: int, hi: int)
    ensures
        match best_end(s, lo, hi) {
            Some(e) => lo <= e <= hi,
            None => true,
        },
    decreases hi - lo + 1,
{
    if hi >= lo && !boundary(s, hi) {
        lemma_best_end_bounds(s, lo, hi - 1);
    }
}

proof fn lemma_match_end_bounds(s: Seq<char>, p: int)
    requires
        0 <= p < s.len(),
    ensures
        match match_end(s, p) {
            Some(e) => p + 2 <= e <= s.len(),
            None => true,
        },
{
    if boundary(s, p) && token_char(s[p]) {
        lemma_run_end_bounds(s, p);
        lemma_best_end_bounds(s, p + 2, run_end(s, p));
    }
}

/// The words found from position `p` on: at each position where a match
/// starts, the matched run is taken and the scan continues at its end;
/// elsewhere the scan advances one position.
pub open spec fn words_from(s: Seq<char>, p: int) -> Seq<Seq<char>>
    decreases s.len() - p, s.len() - p + 1 via words_from_decreases
{
    if !(0 <= p < s.len()) {
        Seq::empty()
    } else {
        match match_end(s, p) {
            Some(end) => seq![s.subrange(p, end)] + words_from(s, end),
            None => words_from(s, p + 1),
        }
    }
}

#[via_fn]
proof fn words_from_decreases(s: Seq<char>, p: int) {
    if 0 <= p < s.len() {
        lemma_match_end_bounds(s, p);
    }
}

/// The words of a string: the maximal runs of token characters of length at
/// least two that begin and end on a word boundary, in order.
pub open spec fn words_spec(s: Seq<char>) -> Seq<Seq<char>> {
    words_from(s, 0)
}

/// The characters of `s`, one per element.
fn chars_of(s: &str) -> (r: Vec<char>)
    ensures
        r@ == s@,
{
    let n = s.unicode_len();
    let mut r: Vec<char> = Vec::new();
    let mut i: usize = 0;
    while i < n
        invariant
            n == s@.len(),
            0 <= i <= n,
            r@ =~= s@.take(i as int),
        decreases n - i,
    {
        r.push(s.get_char(i));
        i = i + 1;
        proof {
            assert(r@ =~= s@.take(i as int));
        }
    }
    proof {
        assert(r@ =~= s@);
    }
    r
}

fn is_token_char(c: char) -> (r: bool)
    ensures
        r == token_char(c),
{
    let u = c as u32;
    (0x61 <= u && u <= 0x7a) || (0xe4 <= u && u <= 0xff)
}

/// `flags[i]` holds exactly when position `i` of `s` holds a word character.
fn word_flags(cs: &Vec<char>) -> (r: Vec<bool>)
    ensures
        r@.len() == cs@.len(),
        forall|i: int| 0 <= i < cs@.len() ==> r@[i] == word_char(cs@[i]),
{
    let n = cs.len();
    let mut r: Vec<bool> = Vec::new();
    let mut i: usize = 0;
    while i < n
        invariant
            n == cs@.len(),
            0 <= i <= n,
            r@.len() == i,
            forall|j: int| 0 <= j < i ==> r@[j] == word_char(cs@[j]),
        decreases n - i,
    {
        let c = cs[i];
        let w = is_alnum(c) || c == '_';
        r.push(w);
        i = i + 1;
    }
    r
}

/// Whether a word boundary lies at position `p` of the string whose word
/// flags are `w`.
fn boundary_at(w: &Vec<bool>, p: usize, s: Ghost<Seq<char>>) -> (r: bool)
    requires
        w@.len() == s@.len(),
        forall|i: int| 0 <= i < s@.len() ==> w@[i] == word_char(s@[i]),
        p <= s@.len(),
    ensures
        r == boundary(s@, p as int),
{
    let n = w.len();
    let left = p > 0 && w[p - 1];
    let right = p < n && w[p];
    left != right
}

/// Extract the words of a text: the maximal runs of at least two lowercase
/// (ASCII or Latin-1) letters that begin and end on a word boundary.
pub fn extract_words(text: &str) -> (r: Option<Vec<String>>)
    ensures
        r matches Some(ws) && ws.deep_view() == words_spec(text@),
{
    let cs = chars_of(text);
    let w = word_flags(&cs);
    let ghost s = text@;
    let n = cs.len();
    let mut out: Vec<String> = Vec::new();
    let mut p: usize = 0;
    while p < n
        invariant
            n == s.len(),
            cs@ == s,
            text@ == s,
            w@.len() == s.len(),
            forall|i: int| 0 <= i < s.len() ==> w@[i] == word_char(s[i]),
            0 <= p <= n,
            out.deep_view() + words_from(s, p as int) == words_spec(s),
        decreases n - p,
    {
        let ghost p0 = p as int;
        if boundary_at(&w, p, Ghost(s)) && is_token_char(cs[p]) {
            // the end of the run of token characters starting at p
            let mut q = p;
            while q < n && is_token_char(cs[q])
                invariant
                    n == s.len(),
                    cs@ == s,
                    p0 == p as int,
                    p0 <= q <= n,
                    run_end(s, p0) == run_end(s, q as int),
                decreases n - q,
            {
                q = q + 1;
            }
            proof {
                assert(run_end(s, q as int) == q as int);
                lemma_run_end_bounds(s, p0 + 1);
                assert(q >= p0 + 1);
            }
            // the longest match of at least two characters ending on a boundary
            let mut e = q;
            let mut found = false;
            while !found && e >= 2 && e - 2 >= p
                invariant
                    n == s.len(),
                    w@.len() == s.len(),
                    forall|i: int| 0 <= i < s.len() ==> w@[i] == word_char(s[i]),
                    p0 == p as int,
                    p0 + 1 <= e,
                    e <= q <= n,
                    found ==> best_end(s, p0 + 2, q as int) == Some(e as int) && e >= p0 + 2,
                    !found ==> best_end(s, p0 + 2, q as int) == best_end(s, p0 + 2, e as int),
                decreases e + (if found {
                    0int
                } else {
                    1int
                }),
            {
                if boundary_at(&w, e, Ghost(s)) {
                    found = true;
                } else {
                    e = e - 1;
                }
            }
            if found {
                proof {
                    assert(match_end(s, p0) == Some(e as int));
                    lemma_match_end_bounds(s, p0);
                }
                let ghost out0 = out.deep_view();
                let word = text.substring_char(p, e).to_owned();
                proof {
                    assert(word@ == s.subrange(p0, e as int));
                }
                out.push(word);
                proof {
                    assert(out.deep_view() =~= out0.push(s.subrange(p0, e as int)));
                    assert(out0.push(s.subrange(p0, e as int)) + words_from(s, e as int) =~= out0 + (
                    seq![s.subrange(p0, e as int)] + words_from(s, e as int)));
                }
                p = e;
            } else {
                proof {
                    assert(best_end(s, p0 + 2, e as int) is None);
                    assert(match_end(s, p0) is None);
                }
                p = p + 1;
            }
        } else {
            proof {
                assert(match_end(s, p0) is None);
            }
            p = p + 1;
        }
    }
    proof {
        assert(out.deep_view() + words_from(s, n as int) =~= out.deep_view());
    }
    Some(out)
}

/// The given sequences joined with a single space between neighbours.
pub open spec fn join_spaced(ws: Seq<Seq<char>>) -> Seq<char>
    decreases ws.len(),
{
    if ws.len() == 0 {
        Seq::empty()
    } else if ws.len() == 1 {
        ws[0]
    } else {
        ws[0] + seq![' '] + join_spaced(ws.drop_first())
    }
}

proof fn lemma_join_take_step(ws: Seq<Seq<char>>, i: int)
    requires
        1 <= i < ws.len(),
    ensures
        join_spaced(ws.take(i + 1)) == join_spaced(ws.take(i)) + seq![' '] + ws[i],
    decreases i,
{
    let a = ws.take(i + 1);
    let b = ws.take(i);
    if i == 1 {
        assert(a.drop_first() =~= seq![ws[1]]);
        assert(join_spaced(a) == a[0] + seq![' '] + join_spaced(a.drop_first()));
        assert(b =~= seq![ws[0]]);
        assert(join_spaced(a) =~= join_spaced(b) + seq![' '] + ws[i]);
    } else {
        lemma_join_take_step(ws.drop_first(), i - 1);
        assert(a.drop_first() =~= ws.drop_first().take(i));
        assert(b.drop_first() =~= ws.drop_first().take(i - 1));
        assert(ws.drop_first()[i - 1] == ws[i]);
        assert(join_spaced(a) == a[0] + seq![' '] + join_spaced(ws.drop_first().take(i)));
        assert(join_spaced(b) == b[0] + seq![' '] + join_spaced(ws.drop_first().take(i - 1)));
        assert(join_spaced(a) =~= join_spaced(b) + seq![' '] + ws[i]);
    }
}

/// Join words with single spaces.
pub fn join_words(words: &Vec<String>) -> (r: String)
    ensures
        r@ == join_spaced(words.deep_view()),
{
    let ghost ws = words.deep_view();
    let n = words.len();
    let mut r = String::new();
    let mut i: usize = 0;
    proof {
        assert(ws.len() == n);
        assert(ws.take(0) =~= Seq::empty());
    }
    while i < n
        invariant
            ws == words.deep_view(),
            ws.len() == n,
            n == words@.len(),
            0 <= i <= n,
            r@ == join_spaced(ws.take(i as int)),
        decreases n - i,
    {
        if i > 0 {
            r.append(" ");
        }
        let w: &String = &words[i];
        r.append(w.as_str());
        proof {
            assert(ws[i as int] == words@[i as int]@);
            if i == 0 {
                assert(ws.take(1) =~= seq![ws[0]]);
                assert(join_spaced(ws.take(1)) == ws[0]);
                assert(r@ =~= ws[0]);
            } else {
                lemma_join_take_step(ws, i as int);
                reveal_strlit(" ");
                assert(r@ =~= join_spaced(ws.take(i as int)) + seq![' '] + ws[i as int]);
            }
        }
        i = i + 1;
    }
    proof {
        assert(ws.take(n as int) =~= ws);
    }
    r
}

/// What `str::trim` returns for a string: the string without its leading and
/// trailing whitespace.
pub uninterp spec fn trimmed(s: Seq<char>) -> Seq<char>;

/// Relies on `str::trim`: removes leading and trailing whitespace; the result
/// depends on the characters alone.
#[verifier::external_body]
pub(crate) fn trim_str(s: &str) -> (r: String)
    ensures
        r@ == trimmed(s@),
{
    s.trim().to_string()
}

/// What `str::to_lowercase` returns for a string; the result depends on the
/// characters alone.
pub uninterp spec fn lower_of(s: Seq<char>) -> Seq<char>;

/// Relies on `str::to_lowercase`: the Unicode lowercase form of the string;
/// the result depends on the characters alone.
#[verifier::external_body]
pub(crate) fn lowercase(s: &str) -> (r: String)
    ensures
        r@ == lower_of(s@),
{
    s.to_lowercase()
}

} // verus!

