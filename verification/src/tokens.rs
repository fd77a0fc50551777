use vstd::prelude::*;

verus! {

/// A character that separates tokens in a space-separated attribute
/// value: space, tab, line feed, form feed, carriage return.
pub open spec fn is_html_space(c: char) -> bool {
    c == ' ' || c == '\t' || c == '\n' || c == '\u{000c}' || c == '\r'
}

/// ASCII lower-casing of a code point.
pub open spec fn lower_code(c: int) -> int {
    if 65 <= c && c <= 90 {
        c + 32
    } else {
        c
    }
}

/// ASCII case-insensitive character equality.
pub open spec fn chars_ieq(a: char, b: char) -> bool {
    lower_code(a as int) == lower_code(b as int)
}

/// ASCII case-insensitive sequence equality.
pub open spec fn seq_ieq(a: Seq<char>, b: Seq<char>) -> bool {
    a.len() == b.len() && (forall|i: int| 0 <= i < a.len() ==> chars_ieq(a[i], b[i]))
}

/// `token` occupies exactly the space-delimited run of `list` that
/// begins at `i`, compared case-insensitively when `ignore_case` holds.
pub open spec fn token_starts_at(list: Seq<char>, token: Seq<char>, i: int, ignore_case: bool) -> bool {
    let j = i + token.len();
    &&& 0 <= i < j <= list.len()
    &&& (i == 0 || is_html_space(list[i - 1]))
    &&& (j == list.len() || is_html_space(list[j]))
    &&& (forall|k: int| i <= k < j ==> !is_html_space(list[k]))
    &&& (if ignore_case {
        seq_ieq(list.subrange(i, j), token)
    } else {
        list.subrange(i, j) == token
    })
}

/// One of the space-separated tokens of `list` equals `token`
/// (case-insensitively when `ignore_case` holds).
pub open spec fn contains_token(list: Seq<char>, token: Seq<char>, ignore_case: bool) -> bool {
    exists|i: int| token_starts_at(list, token, i, ignore_case)
}

/// The `rel` attribute names a stylesheet link.
pub open spec fn spec_string_is_stylesheet(value: Option<Seq<char>>) -> bool {
    match value {
        Some(v) => contains_token(v, "stylesheet"@, true),
        None => false,
    }
}

/// The `rel` attribute names a site icon.
pub open spec fn spec_is_favicon(value: Option<Seq<char>>) -> bool {
    match value {
        Some(v) => contains_token(v, "icon"@, true) || contains_token(v, "apple-touch-icon"@, true),
        None => false,
    }
}

fn is_html_space_exec(c: char) -> (r: bool)
    ensures
        r == is_html_space(c),
{
    c == ' ' || c == '\t' || c == '\n' || c == '\u{000c}' || c == '\r'
}

/// Character equality, case-insensitive when `ignore_case` holds.
pub open spec fn char_matches(a: char, b: char, ignore_case: bool) -> bool {
    if ignore_case {
        chars_ieq(a, b)
    } else {
        a == b
    }
}

fn chars_eq_exec(a: char, b: char, ignore_case: bool) -> (r: bool)
    ensures
        r == char_matches(a, b, ignore_case),
{
    if ignore_case {
        let x = a as u32;
        let y = b as u32;
        let xl = if 65 <= x && x <= 90 { x + 32 } else { x };
        let yl = if 65 <= y && y <= 90 { y + 32 } else { y };
        xl == yl
    } else {
        a == b
    }
}

/// The characters of `s`, in order, as a vector.
pub fn str_chars(s: &str) -> (r: Vec<char>)
    ensures
        r@ == s@,
{
    let n: usize = s.unicode_len();
    let mut r: Vec<char> = Vec::new();
    let mut i: usize = 0;
    while i < n
        invariant
            i <= n,
            n == s@.len(),
            r@ == s@.subrange(0, i as int),
        decreases n - i,
    {
        let c = s.get_char(i);
        r.push(c);
        i = i + 1;
        proof {
            assert(r@ =~= s@.subrange(0, i as int));
        }
    }
    proof {
        assert(r@ =~= s@);
    }
    r
}

/// The run of `list` starting at `i` is space-free and matches `token`
/// character by character.
spec fn token_run_matches(list: Seq<char>, token: Seq<char>, i: int, ignore_case: bool) -> bool {
    &&& (forall|k: int| i <= k < i + token.len() ==> !is_html_space(#[trigger] list[k]))
    &&& (forall|k: int|
        i <= k < i + token.len() ==> char_matches(#[trigger] list[k], token[k - i], ignore_case))
}

proof fn lemma_run_matches_iff(list: Seq<char>, token: Seq<char>, i: int, ignore_case: bool)
    requires
        0 <= i,
        i + token.len() <= list.len(),
    ensures
        token_run_matches(list, token, i, ignore_case) <==> {
            &&& (forall|k: int| i <= k < i + token.len() ==> !is_html_space(list[k]))
            &&& (if ignore_case {
                seq_ieq(list.subrange(i, i + token.len() as int), token)
            } else {
                list.subrange(i, i + token.len() as int) == token
            })
        },
{
    let j = i + token.len() as int;
    let sub = list.subrange(i, j);
    assert(forall|k: int| 0 <= k < token.len() ==> #[trigger] sub[k] == list[i + k]);
    if token_run_matches(list, token, i, ignore_case) {
        if ignore_case {
            assert forall|k: int| 0 <= k < token.len() implies chars_ieq(
                #[trigger] sub[k],
                token[k],
            ) by {
                assert(char_matches(list[i + k], token[(i + k) - i], ignore_case));
            }
            assert(seq_ieq(sub, token));
        } else {
            assert forall|k: int| 0 <= k < token.len() implies #[trigger] sub[k] == token[k] by {
                assert(char_matches(list[i + k], token[(i + k) - i], ignore_case));
            }
            assert(sub =~= token);
        }
    }
    if (forall|k: int| i <= k < j ==> !is_html_space(#[trigger] list[k])) {
        if ignore_case && seq_ieq(sub, token) {
            assert forall|k: int|
                i <= k < i + token.len() implies char_matches(
                #[trigger] list[k],
                token[k - i],
                ignore_case,
            ) by {
                assert(chars_ieq(sub[k - i], token[k - i]));
            }
            assert(token_run_matches(list, token, i, ignore_case));
        }
        if !ignore_case && sub == token {
            assert forall|k: int|
                i <= k < i + token.len() implies char_matches(
                #[trigger] list[k],
                token[k - i],
                ignore_case,
            ) by {
                assert(sub[k - i] == token[k - i]);
            }
            assert(token_run_matches(list, token, i, ignore_case));
        }
    }
}

fn token_matches_at(list: &Vec<char>, token: &Vec<char>, i: usize, ignore_case: bool) -> (r: bool)
    requires
        i + token@.len() <= list@.len(),
    ensures
        r == token_run_matches(list@, token@, i as int, ignore_case),
{
    let n = list.len();
    let m = token.len();
    let mut k: usize = 0;
    while k < m
        invariant
            k <= m,
            m == token@.len(),
            n == list@.len(),
            i + m <= n,
            forall|k2: int| i <= k2 < i + k ==> !is_html_space(#[trigger] list@[k2]),
            forall|k2: int|
                i <= k2 < i + k ==> char_matches(#[trigger] list@[k2], token@[k2 - i], ignore_case),
        decreases m - k,
    {
        let c = list[i + k];
        if is_html_space_exec(c) {
            proof {
                assert(is_html_space(list@[i as int + k as int]));
                assert(!token_run_matches(list@, token@, i as int, ignore_case));
            }
            return false;
        }
        if !chars_eq_exec(c, token[k], ignore_case) {
            proof {
                assert(!char_matches(list@[i as int + k as int], token@[k as int], ignore_case));
                assert(!token_run_matches(list@, token@, i as int, ignore_case));
            }
            return false;
        }
        k = k + 1;
    }
    true
}

/// One of the space-separated tokens of `list` equals `token`, compared
/// case-insensitively when `ignore_case` holds.
pub(crate) fn contains_token_exec(list: &Vec<char>, token: &Vec<char>, ignore_case: bool) -> (r:
    bool)
    requires
        token@.len() > 0,
    ensures
        r == contains_token(list@, token@, ignore_case),
{
    let n = list.len();
    let m = token.len();
    if m > n {
        proof {
            assert forall|i2: int| !token_starts_at(list@, token@, i2, ignore_case) by {}
        }
        return false;
    }
    let mut i: usize = 0;
    while i <= n - m
        invariant
            m <= n,
            m >= 1,
            n == list@.len(),
            m == token@.len(),
            i <= n - m + 1,
            forall|i2: int| 0 <= i2 < i ==> !token_starts_at(list@, token@, i2, ignore_case),
        decreases n - i,
    {
        let before_ok = i == 0 || is_html_space_exec(list[i - 1]);
        let after_ok = i + m == n || is_html_space_exec(list[i + m]);
        if before_ok && after_ok && token_matches_at(list, token, i, ignore_case) {
            proof {
                lemma_run_matches_iff(list@, token@, i as int, ignore_case);
                assert(token_starts_at(list@, token@, i as int, ignore_case));
            }
            return true;
        }
        proof {
            lemma_run_matches_iff(list@, token@, i as int, ignore_case);
            assert(!token_starts_at(list@, token@, i as int, ignore_case));
        }
        i = i + 1;
    }
    proof {
        assert forall|i2: int| !token_starts_at(list@, token@, i2, ignore_case) by {
            if 0 <= i2 < i {
                assert(!token_starts_at(list@, token@, i2, ignore_case));
            } else {
                assert(!(0 <= i2 && i2 + token@.len() <= list@.len() && i2 < i));
            }
        }
    }
    false
}

/// ASCII case-insensitive equality of a whole string with a token.
pub(crate) fn str_ieq(a: &str, b: &Vec<char>) -> (r: bool)
    ensures
        r == seq_ieq(a@, b@),
{
    let ca = str_chars(a);
    let n = ca.len();
    if n != b.len() {
        return false;
    }
    let mut k: usize = 0;
    while k < n
        invariant
            k <= n,
            n == ca@.len(),
            n == b@.len(),
            ca@ == a@,
            forall|k2: int| 0 <= k2 < k ==> chars_ieq(#[trigger] ca@[k2], b@[k2]),
        decreases n - k,
    {
        if !chars_eq_exec(ca[k], b[k], true) {
            return false;
        }
        k = k + 1;
    }
    true
}

/// The attribute value holds the given space-free token among its
/// space-separated tokens.
pub(crate) fn value_contains_token(value: &Option<String>, token: &Vec<char>, ignore_case: bool) -> (r:
    bool)
    requires
        token@.len() > 0,
    ensures
        r == (match value.deep_view() {
            Some(v) => contains_token(v, token@, ignore_case),
            None => false,
        }),
{
    match value {
        Some(v) => {
            let cs = str_chars(v.as_str());
            contains_token_exec(&cs, token, ignore_case)
        },
        None => false,
    }
}

/// The `rel` attribute names a stylesheet link: its value holds the
/// token `stylesheet`, matched case-insensitively.
pub fn string_is_stylesheet(value: &Option<String>) -> (r: bool)
    ensures
        r == spec_string_is_stylesheet(value.deep_view()),
{
    proof {
        reveal_strlit("stylesheet");
    }
    let token = str_chars("stylesheet");
    value_contains_token(value, &token, true)
}

/// The `rel` attribute names a site icon: its value holds the token
/// `icon` or `apple-touch-icon`, matched case-insensitively.
pub fn is_favicon(value: &Option<String>) -> (r: bool)
    ensures
        r == spec_is_favicon(value.deep_view()),
{
    proof {
        reveal_strlit("icon");
        reveal_strlit("apple-touch-icon");
    }
    let icon = str_chars("icon");
    if value_contains_token(value, &icon, true) {
        true
    } else {
        let apple = str_chars("apple-touch-icon");
        value_contains_token(value, &apple, true)
    }
}

} // verus!
