//! The source-list parser: turns the raw configuration text into the
//! ordered list of normalized source-manifest URLs.
//!
//! A line declares a source iff, after trimming surrounding whitespace, it
//! starts with `src ` and ends with `;`; the URL is the text strictly
//! between the first and the last double quote of the line. URLs without an
//! `http://` or `https://` scheme are prefixed with `http://`. Malformed
//! lines are skipped silently; only an empty result is an error.

use vstd::prelude::*;
use vstd::string::*;

verus! {

/// The only parser-level failure: no valid source declaration in the text.
#[derive(Clone, Copy, Debug, PartialEq, Eq, Structural)]
pub enum ParseError {
    NoSources,
}

/// The whitespace characters trimmed from the ends of a line.
pub open spec fn is_space_char(c: char) -> bool {
    c == ' ' || c == '\t' || c == '\r' || c == '\n' || c == '\u{000B}' || c == '\u{000C}'
}

/// Index of the first occurrence of `c` in `s`, if any.
pub open spec fn find_first(s: Seq<char>, c: char) -> Option<int>
    decreases s.len(),
{
    if s.len() == 0 {
        None
    } else if s[0] == c {
        Some(0int)
    } else {
        match find_first(s.drop_first(), c) {
            Some(i) => Some(i + 1),
            None => None,
        }
    }
}

/// Index of the last occurrence of `c` in `s`, if any.
pub open spec fn find_last(s: Seq<char>, c: char) -> Option<int>
    decreases s.len(),
{
    if s.len() == 0 {
        None
    } else if s[s.len() - 1] == c {
        Some(s.len() - 1)
    } else {
        find_last(s.drop_last(), c)
    }
}

pub proof fn lemma_find_first_char(s: Seq<char>, c: char)
    ensures
        match find_first(s, c) {
            Some(i) => 0 <= i < s.len() && s[i] == c && (forall|j: int| 0 <= j < i ==> s[j] != c),
            None => forall|j: int| 0 <= j < s.len() ==> s[j] != c,
        },
    decreases s.len(),
{
    if s.len() == 0 {
    } else if s[0] == c {
    } else {
        lemma_find_first_char(s.drop_first(), c);
        match find_first(s.drop_first(), c) {
            Some(i) => {
                assert forall|j: int| 0 <= j < i + 1 implies s[j] != c by {
                    if j > 0 {
                        assert(s.drop_first()[j - 1] == s[j]);
                    }
                }
            },
            None => {
                assert forall|j: int| 0 <= j < s.len() implies s[j] != c by {
                    if j > 0 {
                        assert(s.drop_first()[j - 1] == s[j]);
                    }
                }
            },
        }
    }
}

pub proof fn lemma_find_last_char(s: Seq<char>, c: char)
    ensures
        match find_last(s, c) {
            Some(i) => 0 <= i < s.len() && s[i] == c && (forall|j: int| i < j < s.len() ==> s[j] != c),
            None => forall|j: int| 0 <= j < s.len() ==> s[j] != c,
        },
    decreases s.len(),
{
    if s.len() == 0 {
    } else if s[s.len() - 1] == c {
    } else {
        lemma_find_last_char(s.drop_last(), c);
        assert forall|j: int| 0 <= j < s.drop_last().len() implies s.drop_last()[j] == s[j] by {}
    }
}

/// `s` with its leading whitespace removed.
pub open spec fn trim_start_spec(s: Seq<char>) -> Seq<char>
    decreases s.len(),
{
    if s.len() > 0 && is_space_char(s[0]) {
        trim_start_spec(s.drop_first())
    } else {
        s
    }
}

/// `s` with its trailing whitespace removed.
pub open spec fn trim_end_spec(s: Seq<char>) -> Seq<char>
    decreases s.len(),
{
    if s.len() > 0 && is_space_char(s[s.len() - 1]) {
        trim_end_spec(s.drop_last())
    } else {
        s
    }
}

/// `s` with surrounding whitespace removed.
pub open spec fn trim_spec(s: Seq<char>) -> Seq<char> {
    trim_end_spec(trim_start_spec(s))
}

proof fn lemma_trim_start_at(s: Seq<char>, a: int)
    requires
        0 <= a <= s.len(),
        forall|j: int| 0 <= j < a ==> is_space_char(s[j]),
        a < s.len() ==> !is_space_char(s[a]),
    ensures
        trim_start_spec(s) == s.skip(a),
    decreases a,
{
    if a == 0 {
        assert(s.skip(0) =~= s);
    } else {
        lemma_trim_start_at(s.drop_first(), a - 1);
        assert(s.drop_first().skip(a - 1) =~= s.skip(a));
    }
}

proof fn lemma_trim_end_at(s: Seq<char>, b: int)
    requires
        0 <= b <= s.len(),
        forall|j: int| b <= j < s.len() ==> is_space_char(s[j]),
        b > 0 ==> !is_space_char(s[b - 1]),
    ensures
        trim_end_spec(s) == s.take(b),
    decreases s.len(),
{
    if b == s.len() {
        assert(s.take(b) =~= s);
    } else {
        lemma_trim_end_at(s.drop_last(), b);
        assert(s.drop_last().take(b) =~= s.take(b));
    }
}

/// The lines of the text, split at each newline character.
pub open spec fn split_lines(s: Seq<char>) -> Seq<Seq<char>>
    decreases s.len(),
{
    match find_first(s, '\n') {
        None => seq![s],
        Some(i) => if 0 <= i < s.len() {
            seq![s.take(i)] + split_lines(s.skip(i + 1))
        } else {
            seq![s]
        },
    }
}

pub open spec fn src_token() -> Seq<char> {
    seq!['s', 'r', 'c', ' ']
}

pub open spec fn http_prefix() -> Seq<char> {
    seq!['h', 't', 't', 'p', ':', '/', '/']
}

pub open spec fn https_prefix() -> Seq<char> {
    seq!['h', 't', 't', 'p', 's', ':', '/', '/']
}

pub open spec fn starts_with_seq(s: Seq<char>, p: Seq<char>) -> bool {
    p.len() <= s.len() && s.take(p.len() as int) == p
}

/// A trimmed line is a candidate source declaration iff it starts with
/// `src ` and ends with `;`.
pub open spec fn is_src_decl(t: Seq<char>) -> bool {
    starts_with_seq(t, src_token()) && t.len() > 0 && t[t.len() - 1] == ';'
}

/// A URL already carrying a scheme is kept; any other is given `http://`.
pub open spec fn normalize_url(u: Seq<char>) -> Seq<char> {
    if starts_with_seq(u, http_prefix()) || starts_with_seq(u, https_prefix()) {
        u
    } else {
        http_prefix() + u
    }
}

/// The URL contributed by one line of the configuration, if any: the
/// normalized text strictly between the first and last double quote of a
/// trimmed `src ...;` declaration. Every other line contributes nothing.
pub open spec fn line_url(line: Seq<char>) -> Option<Seq<char>> {
    let t = trim_spec(line);
    if is_src_decl(t) {
        match find_first(t, '"') {
            Some(a) => match find_last(t, '"') {
                Some(b) => if a < b {
                    Some(normalize_url(t.subrange(a + 1, b)))
                } else {
                    None
                },
                None => None,
            },
            None => None,
        }
    } else {
        None
    }
}

/// The URLs contributed by a sequence of lines, in line order.
pub open spec fn urls_of_lines(lines: Seq<Seq<char>>) -> Seq<Seq<char>>
    decreases lines.len(),
{
    if lines.len() == 0 {
        Seq::empty()
    } else {
        match line_url(lines[0]) {
            Some(u) => seq![u] + urls_of_lines(lines.drop_first()),
            None => urls_of_lines(lines.drop_first()),
        }
    }
}

/// The source list denoted by a configuration text: the URLs of its valid
/// declarations, in file order.
pub open spec fn parse_spec(text: Seq<char>) -> Seq<Seq<char>> {
    urls_of_lines(split_lines(text))
}

/// The views of a sequence of strings.
pub open spec fn views_of(v: Seq<String>) -> Seq<Seq<char>> {
    Seq::new(v.len(), |i: int| v[i]@)
}

/// The text of a well-formed declaration line for the URL text `x`:
/// `src "x";`.
pub open spec fn src_decl_of(x: Seq<char>) -> Seq<char> {
    seq!['s', 'r', 'c', ' ', '"'] + x + seq!['"', ';']
}

/// Every well-formed line `src "x";` parses to exactly the URL `x`,
/// normalized: `x` itself when it already carries an `http://` or
/// `https://` scheme, `http://x` otherwise.
pub proof fn lemma_wellformed_line_parses(x: Seq<char>)
    requires
        forall|j: int| 0 <= j < x.len() ==> x[j] != '\n',
    ensures
        parse_spec(src_decl_of(x)) == seq![normalize_url(x)],
{
    let pre = seq!['s', 'r', 'c', ' ', '"'];
    let suf = seq!['"', ';'];
    let line = src_decl_of(x);
    let n = line.len();
    assert(n == x.len() + 7);
    assert(forall|j: int| 0 <= j < x.len() ==> line[j + 5] == x[j]);
    assert(line[0] == 's' && line[1] == 'r' && line[2] == 'c' && line[3] == ' ' && line[4] == '"');
    assert(line[n - 2] == '"' && line[n - 1] == ';');

    // the line holds no newline, so it is the only line of the text
    lemma_find_first_char(line, '\n');
    if let Some(i) = find_first(line, '\n') {
        if 5 <= i < n - 2 {
            assert(line[i] == x[i - 5]);
        }
        assert(false);
    }
    assert(split_lines(line) =~= seq![line]);

    // no surrounding whitespace, so trimming keeps the line as it is
    assert(trim_start_spec(line) == line);
    assert(trim_end_spec(line) == line);
    assert(trim_spec(line) == line);

    // it is a source declaration
    assert(line.take(4) =~= src_token());
    assert(is_src_decl(line));

    // the first quote stands at index 4, the last at index n - 2
    lemma_find_first_char(line, '"');
    match find_first(line, '"') {
        None => {
            assert(false);
        },
        Some(a) => {
            if a < 4 {
                assert(line[a] != '"');
            }
            assert(a == 4);
        },
    }
    lemma_find_last_char(line, '"');
    match find_last(line, '"') {
        None => {
            assert(false);
        },
        Some(b) => {
            if b < n - 2 {
                assert(line[n - 2] != '"');
            }
            if b == n - 1 {
                assert(line[b] == ';');
            }
            assert(b == n - 2);
        },
    }

    // the text strictly between the quotes is exactly x
    assert(line.subrange(5, n - 2) =~= x);
    assert(line_url(line) == Some(normalize_url(x)));

    assert(urls_of_lines(seq![line]) == seq![normalize_url(x)] + urls_of_lines(
        seq![line].drop_first(),
    ));
    assert(seq![line].drop_first() =~= Seq::<Seq<char>>::empty());
    assert(seq![normalize_url(x)] + urls_of_lines(Seq::<Seq<char>>::empty()) =~= seq![
        normalize_url(x),
    ]);
}

/// A line that is not a valid declaration — quotes missing, quote order
/// reversed, the `src ...;` framing absent — contributes no entry: removing
/// it from the line sequence leaves the parsed URLs unchanged. By itself it
/// never raises an error; only a wholly empty result set does.
pub proof fn lemma_malformed_line_ignored(lines: Seq<Seq<char>>, i: int)
    requires
        0 <= i < lines.len(),
        line_url(lines[i]) is None,
    ensures
        urls_of_lines(lines) == urls_of_lines(lines.remove(i)),
    decreases lines.len(),
{
    if i == 0 {
        assert(lines.remove(0) =~= lines.drop_first());
    } else {
        lemma_malformed_line_ignored(lines.drop_first(), i - 1);
        assert(lines.remove(i).drop_first() =~= lines.drop_first().remove(i - 1));
        assert(lines.remove(i)[0] == lines[0]);
    }
}

fn is_space(c: char) -> (b: bool)
    ensures
        b == is_space_char(c),
{
    c == ' ' || c == '\t' || c == '\r' || c == '\n' || c == '\u{000B}' || c == '\u{000C}'
}

fn find_char(s: &str, c: char) -> (r: Option<usize>)
    ensures
        match r {
            Some(i) => find_first(s@, c) == Some(i as int),
            None => find_first(s@, c) is None,
        },
{
    let n: usize = s.unicode_len();
    let mut i: usize = 0;
    while i < n
        invariant
            0 <= i <= n,
            n == s@.len(),
            forall|j: int| 0 <= j < i ==> s@[j] != c,
        decreases n - i,
    {
        if s.get_char(i) == c {
            proof {
                lemma_find_first_char(s@, c);
            }
            return Some(i);
        }
        i = i + 1;
    }
    proof {
        lemma_find_first_char(s@, c);
    }
    None
}

fn rfind_char(s: &str, c: char) -> (r: Option<usize>)
    ensures
        match r {
            Some(i) => find_last(s@, c) == Some(i as int),
            None => find_last(s@, c) is None,
        },
{
    let n: usize = s.unicode_len();
    let mut i: usize = n;
    while i > 0
        invariant
            0 <= i <= n,
            n == s@.len(),
            forall|j: int| i <= j < n ==> s@[j] != c,
        decreases i,
    {
        i = i - 1;
        if s.get_char(i) == c {
            proof {
                lemma_find_last_char(s@, c);
            }
            return Some(i);
        }
    }
    proof {
        lemma_find_last_char(s@, c);
    }
    None
}

fn trim_str(s: &str) -> (r: &str)
    ensures
        r@ == trim_spec(s@),
{
    let n: usize = s.unicode_len();
    let mut a: usize = 0;
    while a < n && is_space(s.get_char(a))
        invariant
            0 <= a <= n,
            n == s@.len(),
            forall|j: int| 0 <= j < a ==> is_space_char(s@[j]),
        decreases n - a,
    {
        a = a + 1;
    }
    proof {
        lemma_trim_start_at(s@, a as int);
    }
    if a == n {
        let r = s.substring_char(n, n);
        proof {
            assert(r@ =~= trim_start_spec(s@));
        }
        r
    } else {
        let mut b: usize = n;
        while b > a + 1 && is_space(s.get_char(b - 1))
            invariant
                a < b <= n,
                n == s@.len(),
                forall|j: int| b <= j < n ==> is_space_char(s@[j]),
            decreases b,
        {
            b = b - 1;
        }
        let r = s.substring_char(a, b);
        proof {
            lemma_trim_end_at(s@.skip(a as int), b - a);
            assert(s@.skip(a as int).take(b - a) =~= s@.subrange(a as int, b as int));
        }
        r
    }
}

fn normalize(u: &str) -> (r: String)
    ensures
        r@ == normalize_url(u@),
{
    let n: usize = u.unicode_len();
    let has_http = n >= 7 && u.get_char(0) == 'h' && u.get_char(1) == 't' && u.get_char(2) == 't'
        && u.get_char(3) == 'p' && u.get_char(4) == ':' && u.get_char(5) == '/' && u.get_char(6)
        == '/';
    let has_https = n >= 8 && u.get_char(0) == 'h' && u.get_char(1) == 't' && u.get_char(2) == 't'
        && u.get_char(3) == 'p' && u.get_char(4) == 's' && u.get_char(5) == ':' && u.get_char(6)
        == '/' && u.get_char(7) == '/';
    if has_http || has_https {
        proof {
            if has_http {
                assert(u@.take(7) =~= http_prefix());
            } else {
                assert(u@.take(8) =~= https_prefix());
            }
        }
        String::from_str(u)
    } else {
        proof {
            if starts_with_seq(u@, http_prefix()) {
                assert(u@[0] == u@.take(7)[0]);
                assert(u@[1] == u@.take(7)[1]);
                assert(u@[2] == u@.take(7)[2]);
                assert(u@[3] == u@.take(7)[3]);
                assert(u@[4] == u@.take(7)[4]);
                assert(u@[5] == u@.take(7)[5]);
                assert(u@[6] == u@.take(7)[6]);
                assert(false);
            }
            if starts_with_seq(u@, https_prefix()) {
                assert(u@[0] == u@.take(8)[0]);
                assert(u@[1] == u@.take(8)[1]);
                assert(u@[2] == u@.take(8)[2]);
                assert(u@[3] == u@.take(8)[3]);
                assert(u@[4] == u@.take(8)[4]);
                assert(u@[5] == u@.take(8)[5]);
                assert(u@[6] == u@.take(8)[6]);
                assert(u@[7] == u@.take(8)[7]);
                assert(false);
            }
            reveal_strlit("http://");
            assert("http://"@ =~= http_prefix());
        }
        let r = String::from_str("http://").concat(u);
        proof {
            assert(r@ =~= http_prefix() + u@);
        }
        r
    }
}

/// The URL declared by one configuration line, if the line is a valid
/// source declaration.
fn parse_line(line: &str) -> (r: Option<String>)
    ensures
        match r {
            Some(u) => line_url(line@) == Some(u@),
            None => line_url(line@) is None,
        },
{
    let t = trim_str(line);
    let n: usize = t.unicode_len();
    if n < 4 || !(t.get_char(0) == 's' && t.get_char(1) == 'r' && t.get_char(2) == 'c'
        && t.get_char(3) == ' ') {
        proof {
            if starts_with_seq(t@, src_token()) {
                assert(t@[0] == t@.take(4)[0]);
                assert(t@[1] == t@.take(4)[1]);
                assert(t@[2] == t@.take(4)[2]);
                assert(t@[3] == t@.take(4)[3]);
            }
        }
        return None;
    }
    proof {
        assert(t@.take(4) =~= src_token());
    }
    if t.get_char(n - 1) != ';' {
        return None;
    }
    match find_char(t, '"') {
        None => None,
        Some(a) => match rfind_char(t, '"') {
            None => None,
            Some(b) => {
                if a < b {
                    proof {
                        lemma_find_last_char(t@, '"');
                    }
                    let u = t.substring_char(a + 1, b);
                    Some(normalize(u))
                } else {
                    None
                }
            },
        },
    }
}

/// Parses a whole configuration text into the URLs it declares, in file
/// order. Lines that are not valid declarations contribute nothing.
fn parse_all(text: &str) -> (r: Vec<String>)
    ensures
        views_of(r@) == parse_spec(text@),
    decreases text@.len(),
{
    proof {
        lemma_find_first_char(text@, '\n');
    }
    match find_char(text, '\n') {
        None => {
            proof {
                assert(split_lines(text@) =~= seq![text@]);
                assert(seq![text@].drop_first() =~= Seq::<Seq<char>>::empty());
            }
            let mut v: Vec<String> = Vec::new();
            match parse_line(text) {
                Some(u) => {
                    let ghost uv = u@;
                    v.push(u);
                    proof {
                        assert(urls_of_lines(seq![text@]) == seq![uv] + urls_of_lines(
                            Seq::<Seq<char>>::empty(),
                        ));
                        assert(views_of(v@) =~= seq![uv] + Seq::<Seq<char>>::empty());
                        assert(views_of(v@) == parse_spec(text@));
                    }
                },
                None => {
                    proof {
                        assert(urls_of_lines(seq![text@]) == urls_of_lines(
                            Seq::<Seq<char>>::empty(),
                        ));
                        assert(views_of(v@) =~= Seq::<Seq<char>>::empty());
                    }
                },
            }
            v
        },
        Some(i) => {
            let n: usize = text.unicode_len();
            let line = text.substring_char(0, i);
            let rest = text.substring_char(i + 1, n);
            let ghost lines = seq![line@] + split_lines(rest@);
            proof {
                assert(line@ =~= text@.take(i as int));
                assert(rest@ =~= text@.skip(i + 1));
                assert(split_lines(text@) =~= lines);
                assert(lines.drop_first() =~= split_lines(rest@));
            }
            let head = parse_line(line);
            let mut more = parse_all(rest);
            let ghost tail_views = more@;
            match head {
                Some(u) => {
                    let ghost uv = u@;
                    let mut v: Vec<String> = Vec::new();
                    v.push(u);
                    v.append(&mut more);
                    proof {
                        assert(urls_of_lines(lines) == seq![uv] + urls_of_lines(
                            split_lines(rest@),
                        ));
                        assert(v@ == seq![v@[0]] + tail_views);
                        assert(views_of(v@) =~= seq![uv] + views_of(tail_views));
                        assert(views_of(v@) == parse_spec(text@));
                    }
                    v
                },
                None => {
                    proof {
                        assert(urls_of_lines(lines) == urls_of_lines(split_lines(rest@)));
                    }
                    more
                },
            }
        },
    }
}

/// Parses the configuration text into the ordered source list.
///
/// Returns every URL declared by a valid `src "...";` line, normalized and
/// in file order; fails with `ParseError::NoSources` exactly when the text
/// declares no source at all.
pub fn parse_sources(text: &str) -> (r: Result<Vec<String>, ParseError>)
    ensures
        match r {
            Ok(v) => parse_spec(text@).len() > 0 && views_of(v@) == parse_spec(text@),
            Err(e) => e == ParseError::NoSources && parse_spec(text@).len() == 0,
        },
{
    let v = parse_all(text);
    if v.len() == 0 {
        proof {
            assert(parse_spec(text@).len() == views_of(v@).len());
        }
        Err(ParseError::NoSources)
    } else {
        Ok(v)
    }
}

} // verus!
