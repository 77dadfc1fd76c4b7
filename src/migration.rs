use vstd::prelude::*;

use crate::query::{chars_of, is_ws, strings_view};

verus! {

/// The first `*/` that starts at or after `j`.
pub open spec fn close_at(s: Seq<char>, j: int) -> Option<int>
    decreases s.len() - j,
{
    if j < 0 || j + 1 >= s.len() {
        None
    } else if s[j] == '*' && s[j + 1] == '/' {
        Some(j)
    } else {
        close_at(s, j + 1)
    }
}

/// The text without its block comments: each `/*` with the first `*/` after
/// it goes, across lines; a `/*` that never closes stays, with all after it.
pub open spec fn strip_block_comments(s: Seq<char>) -> Seq<char>
    decreases s.len(),
{
    if s.len() < 2 {
        s
    } else if s[0] == '/' && s[1] == '*' {
        match close_at(s, 2) {
            Some(j) => if 2 <= j && j + 2 <= s.len() {
                strip_block_comments(s.subrange(j + 2, s.len() as int))
            } else {
                s
            },
            None => s,
        }
    } else {
        seq![s[0]] + strip_block_comments(s.drop_first())
    }
}

/// The pieces of `s` between occurrences of `c`; one more than there are `c`s.
pub open spec fn split_on(s: Seq<char>, c: char) -> Seq<Seq<char>>
    decreases s.len(),
{
    if s.len() == 0 {
        seq![Seq::empty()]
    } else {
        let init = split_on(s.drop_last(), c);
        if s.last() == c {
            init.push(Seq::empty())
        } else {
            init.update(init.len() - 1, init.last().push(s.last()))
        }
    }
}

pub open spec fn trim_start(s: Seq<char>) -> Seq<char>
    decreases s.len(),
{
    if s.len() > 0 && is_ws(s[0]) {
        trim_start(s.drop_first())
    } else {
        s
    }
}

pub open spec fn trim_end(s: Seq<char>) -> Seq<char>
    decreases s.len(),
{
    if s.len() > 0 && is_ws(s.last()) {
        trim_end(s.drop_last())
    } else {
        s
    }
}

/// `s` without white space at either end.
pub open spec fn trim(s: Seq<char>) -> Seq<char> {
    trim_end(trim_start(s))
}

pub open spec fn is_line_comment(s: Seq<char>) -> bool {
    s.len() >= 2 && s[0] == '-' && s[1] == '-'
}

/// The trimmed lines that hold code: neither blank nor `--` comments.
pub open spec fn code_lines(lines: Seq<Seq<char>>) -> Seq<Seq<char>>
    decreases lines.len(),
{
    if lines.len() == 0 {
        Seq::empty()
    } else {
        let init = code_lines(lines.drop_last());
        let t = trim(lines.last());
        if t.len() > 0 && !is_line_comment(t) {
            init.push(t)
        } else {
            init
        }
    }
}

/// The pieces joined with `sep` between each two.
pub open spec fn join(pieces: Seq<Seq<char>>, sep: char) -> Seq<char>
    decreases pieces.len(),
{
    if pieces.len() == 0 {
        Seq::empty()
    } else if pieces.len() == 1 {
        pieces[0]
    } else {
        join(pieces.drop_last(), sep) + seq![sep] + pieces.last()
    }
}

/// The trimmed pieces that are not blank.
pub open spec fn non_blank_trimmed(pieces: Seq<Seq<char>>) -> Seq<Seq<char>>
    decreases pieces.len(),
{
    if pieces.len() == 0 {
        Seq::empty()
    } else {
        let init = non_blank_trimmed(pieces.drop_last());
        let t = trim(pieces.last());
        if t.len() > 0 {
            init.push(t)
        } else {
            init
        }
    }
}

/// The statements of a migration script: block comments removed, code lines
/// trimmed and joined with spaces, then split at `;` into trimmed, non-blank
/// statements. (Line ends, `\r` included, are white space and trimmed away.)
pub open spec fn statements_of(script: Seq<char>) -> Seq<Seq<char>> {
    non_blank_trimmed(
        split_on(join(code_lines(split_on(strip_block_comments(script), '\n')), ' '), ';'),
    )
}

pub open spec fn nested_view(v: Seq<Vec<char>>) -> Seq<Seq<char>> {
    v.map_values(|x: Vec<char>| x@)
}

fn is_ws_at(s: &Vec<char>, i: usize) -> (r: bool)
    requires
        i < s@.len(),
    ensures
        r == is_ws(s@[i as int]),
{
    let c = s[i];
    ('\t' <= c && c <= '\r') || c == ' ' || c == '\u{85}' || c == '\u{a0}' || c == '\u{1680}'
        || ('\u{2000}' <= c && c <= '\u{200a}') || c == '\u{2028}' || c == '\u{2029}'
        || c == '\u{202f}' || c == '\u{205f}' || c == '\u{3000}'
}

fn find_close(s: &Vec<char>, j: usize) -> (r: Option<usize>)
    ensures
        match r {
            Some(k) => close_at(s@, j as int) == Some(k as int),
            None => close_at(s@, j as int) is None,
        },
    decreases s@.len() - j,
{
    if j >= s.len() || j + 1 >= s.len() {
        None
    } else if s[j] == '*' && s[j + 1] == '/' {
        Some(j)
    } else {
        find_close(s, j + 1)
    }
}

proof fn lemma_close_at_bounds(s: Seq<char>, j: int)
    requires
        j >= 0,
    ensures
        close_at(s, j) matches Some(k) ==> j <= k && k + 2 <= s.len(),
    decreases s.len() - j,
{
    if j + 1 < s.len() && !(s[j] == '*' && s[j + 1] == '/') {
        lemma_close_at_bounds(s, j + 1);
    }
}

proof fn lemma_close_at_shift(s: Seq<char>, i: int, j: int)
    requires
        0 <= i <= j,
        i <= s.len(),
    ensures
        close_at(s.subrange(i, s.len() as int), j - i) == (match close_at(s, j) {
            Some(k) => Some(k - i),
            None => None::<int>,
        }),
    decreases s.len() - j,
{
    let t = s.subrange(i, s.len() as int);
    if j + 1 < s.len() {
        assert(t[j - i] == s[j]);
        assert(t[j - i + 1] == s[j + 1]);
        if !(s[j] == '*' && s[j + 1] == '/') {
            lemma_close_at_shift(s, i, j + 1);
        }
    }
}

/// Removes block comments (see [`strip_block_comments`]).
fn strip_comments(s: &Vec<char>) -> (r: Vec<char>)
    ensures
        r@ == strip_block_comments(s@),
{
    let n = s.len();
    let mut out: Vec<char> = Vec::new();
    let mut i: usize = 0;
    assert(s@.subrange(0, n as int) =~= s@);
    assert(out@ + strip_block_comments(s@) =~= strip_block_comments(s@));
    while i < n
        invariant
            n == s@.len(),
            i <= n,
            out@ + strip_block_comments(s@.subrange(i as int, n as int)) == strip_block_comments(s@),
        decreases n - i,
    {
        let ghost rest = s@.subrange(i as int, n as int);
        if i + 1 < n && s[i] == '/' && s[i + 1] == '*' {
            match find_close(s, i + 2) {
                Some(k) => {
                    proof {
                        lemma_close_at_bounds(s@, i + 2);
                        lemma_close_at_shift(s@, i as int, i + 2);
                        assert(rest[0] == s@[i as int]);
                        assert(rest[1] == s@[i + 1]);
                        assert(rest.subrange(k - i + 2, rest.len() as int) =~= s@.subrange(k + 2, n as int));
                    }
                    i = k + 2;
                },
                None => {
                    proof {
                        lemma_close_at_shift(s@, i as int, i + 2);
                        assert(rest[0] == s@[i as int]);
                        assert(rest[1] == s@[i + 1]);
                        assert(strip_block_comments(rest) == rest);
                    }
                    let mut m: usize = i;
                    while m < n
                        invariant
                            n == s@.len(),
                            i <= m <= n,
                            out@ + s@.subrange(m as int, n as int) == strip_block_comments(s@),
                        decreases n - m,
                    {
                        let ghost before = out@;
                        out.push(s[m]);
                        assert(before + s@.subrange(m as int, n as int) =~= out@ + s@.subrange(m + 1, n as int));
                        m = m + 1;
                    }
                    assert(out@ =~= out@ + s@.subrange(n as int, n as int));
                    return out;
                },
            }
        } else {
            let ghost before = out@;
            out.push(s[i]);
            proof {
                assert(rest.drop_first() =~= s@.subrange(i + 1, n as int));
                assert(rest[0] == s@[i as int]);
                assert(before + strip_block_comments(rest) =~= out@ + strip_block_comments(s@.subrange(i + 1, n as int)));
            }
            i = i + 1;
        }
    }
    assert(s@.subrange(n as int, n as int) =~= Seq::<char>::empty());
    assert(out@ =~= out@ + strip_block_comments(Seq::<char>::empty()));
    out
}


/// Splits at every `c` (see [`split_on`]).
fn split_chars(s: &Vec<char>, c: char) -> (r: Vec<Vec<char>>)
    ensures
        nested_view(r@) == split_on(s@, c),
{
    let n = s.len();
    let mut pieces: Vec<Vec<char>> = Vec::new();
    let mut cur: Vec<char> = Vec::new();
    let mut i: usize = 0;
    assert(s@.subrange(0, 0) =~= Seq::<char>::empty());
    assert(nested_view(pieces@).push(cur@) =~= split_on(s@.subrange(0, 0), c));
    while i < n
        invariant
            n == s@.len(),
            i <= n,
            nested_view(pieces@).push(cur@) == split_on(s@.subrange(0, i as int), c),
        decreases n - i,
    {
        let ghost prefix = s@.subrange(0, i + 1);
        let ghost pv = nested_view(pieces@);
        let ghost cv = cur@;
        assert(prefix.drop_last() =~= s@.subrange(0, i as int));
        assert(prefix.last() == s@[i as int]);
        if s[i] == c {
            let done = cur;
            pieces.push(done);
            cur = Vec::new();
            assert(nested_view(pieces@) =~= pv.push(cv));
            assert(nested_view(pieces@).push(cur@) =~= split_on(prefix, c));
        } else {
            cur.push(s[i]);
            assert(nested_view(pieces@).push(cur@) =~= pv.push(cv).update(pv.len() as int, cv.push(s@[i as int])));
        }
        i = i + 1;
    }
    let ghost pv = nested_view(pieces@);
    let ghost cv = cur@;
    pieces.push(cur);
    assert(nested_view(pieces@) =~= pv.push(cv));
    assert(s@.subrange(0, n as int) =~= s@);
    pieces
}

proof fn lemma_trim_start_skip(s: Seq<char>, i: int)
    requires
        0 <= i < s.len(),
        is_ws(s[i]),
    ensures
        trim_start(s.subrange(i, s.len() as int)) == trim_start(s.subrange(i + 1, s.len() as int)),
{
    let t = s.subrange(i, s.len() as int);
    assert(t.drop_first() =~= s.subrange(i + 1, s.len() as int));
}

proof fn lemma_trim_end_skip(s: Seq<char>, st: int, e: int)
    requires
        0 <= st < e <= s.len(),
        is_ws(s[e - 1]),
    ensures
        trim_end(s.subrange(st, e)) == trim_end(s.subrange(st, e - 1)),
{
    let t = s.subrange(st, e);
    assert(t.drop_last() =~= s.subrange(st, e - 1));
}

/// Copies `s[from..to]`.
fn copy_range(s: &Vec<char>, from: usize, to: usize) -> (r: Vec<char>)
    requires
        from <= to <= s@.len(),
    ensures
        r@ == s@.subrange(from as int, to as int),
{
    let mut r: Vec<char> = Vec::new();
    let mut k: usize = from;
    while k < to
        invariant
            from <= k <= to <= s@.len(),
            r@ == s@.subrange(from as int, k as int),
        decreases to - k,
    {
        r.push(s[k]);
        k = k + 1;
        assert(r@ =~= s@.subrange(from as int, k as int));
    }
    r
}

/// `s` without white space at either end.
fn trim_chars(s: &Vec<char>) -> (r: Vec<char>)
    ensures
        r@ == trim(s@),
{
    let n = s.len();
    let mut st: usize = 0;
    assert(s@.subrange(0, n as int) =~= s@);
    while st < n && is_ws_at(s, st)
        invariant
            n == s@.len(),
            st <= n,
            trim_start(s@.subrange(st as int, n as int)) == trim_start(s@),
        decreases n - st,
    {
        proof {
            lemma_trim_start_skip(s@, st as int);
        }
        st = st + 1;
    }
    assert(trim_start(s@.subrange(st as int, n as int)) == s@.subrange(st as int, n as int));
    let mut e: usize = n;
    while e > st && is_ws_at(s, e - 1)
        invariant
            n == s@.len(),
            st <= e <= n,
            trim_end(s@.subrange(st as int, e as int)) == trim(s@),
        decreases e,
    {
        proof {
            lemma_trim_end_skip(s@, st as int, e as int);
        }
        e = e - 1;
    }
    let r = copy_range(s, st, e);
    proof {
        let t = s@.subrange(st as int, e as int);
        if t.len() > 0 {
            assert(t.last() == s@[e - 1]);
        }
        assert(trim_end(t) == t);
    }
    r
}

/// Keeps the trimmed lines that hold code (see [`code_lines`]).
fn code_lines_of(lines: &Vec<Vec<char>>) -> (r: Vec<Vec<char>>)
    ensures
        nested_view(r@) == code_lines(nested_view(lines@)),
{
    let ghost all = nested_view(lines@);
    let mut r: Vec<Vec<char>> = Vec::new();
    let mut i: usize = 0;
    assert(all.subrange(0, 0) =~= Seq::<Seq<char>>::empty());
    assert(nested_view(r@) =~= code_lines(all.subrange(0, 0)));
    while i < lines.len()
        invariant
            all == nested_view(lines@),
            i <= lines@.len(),
            nested_view(r@) == code_lines(all.subrange(0, i as int)),
        decreases lines@.len() - i,
    {
        let ghost prefix = all.subrange(0, i + 1);
        assert(prefix.drop_last() =~= all.subrange(0, i as int));
        assert(prefix.last() == lines@[i as int]@);
        let t = trim_chars(&lines[i]);
        if t.len() > 0 && !(t.len() >= 2 && t[0] == '-' && t[1] == '-') {
            let ghost before = nested_view(r@);
            r.push(t);
            assert(nested_view(r@) =~= before.push(t@));
        }
        i = i + 1;
    }
    assert(all.subrange(0, i as int) =~= all);
    r
}

/// Joins the pieces with `sep` between each two (see [`join`]).
fn join_chars(pieces: &Vec<Vec<char>>, sep: char) -> (r: Vec<char>)
    ensures
        r@ == join(nested_view(pieces@), sep),
{
    let ghost all = nested_view(pieces@);
    let mut r: Vec<char> = Vec::new();
    let mut i: usize = 0;
    assert(all.subrange(0, 0) =~= Seq::<Seq<char>>::empty());
    while i < pieces.len()
        invariant
            all == nested_view(pieces@),
            i <= pieces@.len(),
            r@ == join(all.subrange(0, i as int), sep),
        decreases pieces@.len() - i,
    {
        let ghost prefix = all.subrange(0, i + 1);
        assert(prefix.drop_last() =~= all.subrange(0, i as int));
        assert(prefix.last() == pieces@[i as int]@);
        let ghost before = r@;
        if i > 0 {
            r.push(sep);
        }
        let mut k: usize = 0;
        let ghost mid = r@;
        while k < pieces[i].len()
            invariant
                i < pieces@.len(),
                k <= pieces@[i as int]@.len(),
                r@ == mid + pieces@[i as int]@.subrange(0, k as int),
            decreases pieces@[i as int]@.len() - k,
        {
            r.push(pieces[i][k]);
            k = k + 1;
            assert(r@ =~= mid + pieces@[i as int]@.subrange(0, k as int));
        }
        assert(pieces@[i as int]@.subrange(0, k as int) =~= pieces@[i as int]@);
        if i == 0 {
            assert(prefix.len() == 1);
            assert(r@ =~= prefix[0]);
        } else {
            assert(r@ =~= before + seq![sep] + prefix.last());
        }
        i = i + 1;
    }
    assert(all.subrange(0, i as int) =~= all);
    r
}

/// Keeps the trimmed pieces that are not blank (see [`non_blank_trimmed`]).
fn non_blank_trimmed_of(pieces: &Vec<Vec<char>>) -> (r: Vec<Vec<char>>)
    ensures
        nested_view(r@) == non_blank_trimmed(nested_view(pieces@)),
{
    let ghost all = nested_view(pieces@);
    let mut r: Vec<Vec<char>> = Vec::new();
    let mut i: usize = 0;
    assert(all.subrange(0, 0) =~= Seq::<Seq<char>>::empty());
    assert(nested_view(r@) =~= non_blank_trimmed(all.subrange(0, 0)));
    while i < pieces.len()
        invariant
            all == nested_view(pieces@),
            i <= pieces@.len(),
            nested_view(r@) == non_blank_trimmed(all.subrange(0, i as int)),
        decreases pieces@.len() - i,
    {
        let ghost prefix = all.subrange(0, i + 1);
        assert(prefix.drop_last() =~= all.subrange(0, i as int));
        assert(prefix.last() == pieces@[i as int]@);
        let t = trim_chars(&pieces[i]);
        if t.len() > 0 {
            let ghost before = nested_view(r@);
            r.push(t);
            assert(nested_view(r@) =~= before.push(t@));
        }
        i = i + 1;
    }
    assert(all.subrange(0, i as int) =~= all);
    r
}

/// Relies on `String`'s `FromIterator<char>`: the characters, in order.
#[verifier::external_body]
fn string_from_chars(chars: &Vec<char>) -> (r: String)
    ensures
        r@ == chars@,
{
    chars.iter().collect()
}

/// Splits a migration script into the statements to run one by one (see
/// [`statements_of`]).
pub fn split_query(query: &str) -> (r: Vec<String>)
    ensures
        strings_view(r@) == statements_of(query@),
{
    let chars = chars_of(query);
    let stripped = strip_comments(&chars);
    let lines = split_chars(&stripped, '\n');
    let code = code_lines_of(&lines);
    let joined = join_chars(&code, ' ');
    let parts = split_chars(&joined, ';');
    let statements = non_blank_trimmed_of(&parts);
    let mut r: Vec<String> = Vec::new();
    let mut i: usize = 0;
    while i < statements.len()
        invariant
            i <= statements@.len(),
            strings_view(r@) == nested_view(statements@).subrange(0, i as int),
        decreases statements@.len() - i,
    {
        let ghost before = strings_view(r@);
        let st = string_from_chars(&statements[i]);
        r.push(st);
        assert(strings_view(r@) =~= before.push(st@));
        assert(nested_view(statements@).subrange(0, i + 1) =~= nested_view(statements@).subrange(0, i as int).push(statements@[i as int]@));
        i = i + 1;
    }
    assert(nested_view(statements@).subrange(0, i as int) =~= nested_view(statements@));
    r
}

} // verus!
