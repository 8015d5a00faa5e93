//! Searching and cutting text, stated over sequences of characters.
//!
//! The executable functions take `&str`, scan a `Vec<char>` copy of it by
//! index, and cut the pieces out of the string itself.
use vstd::prelude::*;
use vstd::string::*;

verus! {

/// `pat` stands in `s` at position `i`.
pub open spec fn occurs_at(s: Seq<char>, pat: Seq<char>, i: int) -> bool {
    &&& 0 <= i
    &&& i + pat.len() <= s.len()
    &&& s.subrange(i, i + pat.len()) == pat
}

/// `pat` stands somewhere in `s`.
pub open spec fn contains(s: Seq<char>, pat: Seq<char>) -> bool {
    exists|i: int| occurs_at(s, pat, i)
}

/// The least position at or after `from` at which `pat` stands in `s`.
pub open spec fn find_from(s: Seq<char>, pat: Seq<char>, from: int) -> Option<int>
    decreases s.len() + 1 - from,
{
    if from < 0 || from + pat.len() > s.len() {
        None
    } else if occurs_at(s, pat, from) {
        Some(from)
    } else {
        find_from(s, pat, from + 1)
    }
}

/// The pieces of `s` from position `from` on, cut at the occurrences of
/// `pat` taken from the left. An empty `pat` cuts nowhere.
pub open spec fn split_from(s: Seq<char>, pat: Seq<char>, from: int) -> Seq<Seq<char>>
    decreases s.len() - from,
{
    match find_from(s, pat, from) {
        Some(i) if pat.len() > 0 && 0 <= from => {
            proof {
                lemma_find_from(s, pat, from);
            }
            seq![s.subrange(from, i)] + split_from(s, pat, i + pat.len())
        },
        _ => seq![s.subrange(from, s.len() as int)],
    }
}

/// The pieces of `s` between the occurrences of `pat`.
pub open spec fn split(s: Seq<char>, pat: Seq<char>) -> Seq<Seq<char>> {
    split_from(s, pat, 0)
}

/// The characters that separate words: those with the Unicode property
/// White_Space.
pub open spec fn is_space(c: char) -> bool {
    let n = c as u32;
    ||| 0x09 <= n <= 0x0D
    ||| n == 0x20
    ||| n == 0x85
    ||| n == 0xA0
    ||| n == 0x1680
    ||| 0x2000 <= n <= 0x200A
    ||| n == 0x2028
    ||| n == 0x2029
    ||| n == 0x202F
    ||| n == 0x205F
    ||| n == 0x3000
}

/// The first position at or after `i` that holds no space, or the length.
pub open spec fn skip_spaces(s: Seq<char>, i: int) -> int
    decreases s.len() - i,
{
    if 0 <= i < s.len() && is_space(s[i]) {
        skip_spaces(s, i + 1)
    } else {
        i
    }
}

/// The first position at or after `i` that holds a space, or the length.
pub open spec fn skip_word(s: Seq<char>, i: int) -> int
    decreases s.len() - i,
{
    if 0 <= i < s.len() && !is_space(s[i]) {
        skip_word(s, i + 1)
    } else {
        i
    }
}

/// The words of `s` from position `from` on: the longest runs without a
/// space.
pub open spec fn words_from(s: Seq<char>, from: int) -> Seq<Seq<char>>
    decreases s.len() - from,
{
    let a = skip_spaces(s, from);
    let b = skip_word(s, a);
    if 0 <= from && a < s.len() {
        proof {
            lemma_skip_spaces(s, from);
            lemma_skip_word(s, a);
        }
        seq![s.subrange(a, b)] + words_from(s, b)
    } else {
        Seq::empty()
    }
}

/// The words of `s`.
pub open spec fn words(s: Seq<char>) -> Seq<Seq<char>> {
    words_from(s, 0)
}

/// `s` ends with `suffix`.
pub open spec fn ends_with(s: Seq<char>, suffix: Seq<char>) -> bool {
    occurs_at(s, suffix, s.len() - suffix.len())
}

/// The views of a sequence of strings.
pub open spec fn views(v: Seq<String>) -> Seq<Seq<char>> {
    Seq::new(v.len(), |i: int| v[i]@)
}

/// What `find_from` finds is the first occurrence at or after `from`, and it
/// finds nothing only where there is none.
pub proof fn lemma_find_from(s: Seq<char>, pat: Seq<char>, from: int)
    requires
        0 <= from,
    ensures
        match find_from(s, pat, from) {
            Some(i) => from <= i && occurs_at(s, pat, i) && forall|j: int|
                from <= j < i ==> !occurs_at(s, pat, j),
            None => forall|j: int| from <= j ==> !occurs_at(s, pat, j),
        },
    decreases s.len() + 1 - from,
{
    if from + pat.len() > s.len() {
    } else if occurs_at(s, pat, from) {
    } else {
        lemma_find_from(s, pat, from + 1);
    }
}

/// `skip_spaces` stops at the first character that is no space.
pub proof fn lemma_skip_spaces(s: Seq<char>, i: int)
    requires
        0 <= i,
    ensures
        i <= skip_spaces(s, i),
        i <= s.len() ==> skip_spaces(s, i) <= s.len(),
        skip_spaces(s, i) < s.len() ==> !is_space(s[skip_spaces(s, i)]),
        forall|j: int| i <= j < skip_spaces(s, i) ==> is_space(s[j]),
    decreases s.len() - i,
{
    if i < s.len() && is_space(s[i]) {
        lemma_skip_spaces(s, i + 1);
    }
}

/// `skip_word` stops at the first space, and moves where it starts on a
/// character that is none.
pub proof fn lemma_skip_word(s: Seq<char>, i: int)
    requires
        0 <= i,
    ensures
        i <= skip_word(s, i),
        i <= s.len() ==> skip_word(s, i) <= s.len(),
        i < s.len() && !is_space(s[i]) ==> i < skip_word(s, i),
        skip_word(s, i) < s.len() ==> is_space(s[skip_word(s, i)]),
        forall|j: int| i <= j < skip_word(s, i) ==> !is_space(s[j]),
    decreases s.len() - i,
{
    if i < s.len() && !is_space(s[i]) {
        lemma_skip_word(s, i + 1);
    }
}

/// Pieces one after the other, with `pat` between two of them.
pub open spec fn joined(pieces: Seq<Seq<char>>, pat: Seq<char>) -> Seq<char>
    decreases pieces.len(),
{
    if pieces.len() == 0 {
        Seq::empty()
    } else if pieces.len() == 1 {
        pieces[0]
    } else {
        pieces[0] + pat + joined(pieces.drop_first(), pat)
    }
}

/// Cutting loses nothing and cuts everywhere: the pieces joined by `pat` are
/// the text again, there is at least one piece, and `pat` stands in none of
/// them.
pub proof fn lemma_split_from(s: Seq<char>, pat: Seq<char>, from: int)
    requires
        0 <= from <= s.len(),
        pat.len() > 0,
    ensures
        split_from(s, pat, from).len() >= 1,
        joined(split_from(s, pat, from), pat) == s.subrange(from, s.len() as int),
        forall|k: int|
            0 <= k < split_from(s, pat, from).len() ==> !contains(
                #[trigger] split_from(s, pat, from)[k],
                pat,
            ),
    decreases s.len() - from,
{
    lemma_find_from(s, pat, from);
    let end = s.len() as int;
    match find_from(s, pat, from) {
        Some(i) => {
            let next = i + pat.len();
            let rest = split_from(s, pat, next);
            let first = s.subrange(from, i);
            let all = split_from(s, pat, from);
            lemma_split_from(s, pat, next);
            assert(all == seq![first] + rest);
            assert(all.drop_first() =~= rest);
            assert(all[0] == first);
            assert(s.subrange(i, next) == pat);
            assert(first + pat + s.subrange(next, end) =~= s.subrange(from, end));
            assert forall|j: int| !occurs_at(first, pat, j) by {
                if occurs_at(first, pat, j) {
                    assert(first.subrange(j, j + pat.len()) =~= s.subrange(
                        from + j,
                        from + j + pat.len(),
                    ));
                    assert(occurs_at(s, pat, from + j));
                }
            }
            assert forall|k: int| 0 <= k < all.len() implies !contains(#[trigger] all[k], pat) by {
                if k > 0 {
                    assert(all[k] == rest[k - 1]);
                }
            }
        },
        None => {
            let last = s.subrange(from, end);
            assert(split_from(s, pat, from) == seq![last]);
            assert forall|j: int| !occurs_at(last, pat, j) by {
                if occurs_at(last, pat, j) {
                    assert(last.subrange(j, j + pat.len()) =~= s.subrange(
                        from + j,
                        from + j + pat.len(),
                    ));
                    assert(occurs_at(s, pat, from + j));
                }
            }
        },
    }
}

/// No word is empty, and no word holds a space.
pub proof fn lemma_words_from(s: Seq<char>, from: int)
    requires
        0 <= from,
    ensures
        forall|k: int|
            0 <= k < words_from(s, from).len() ==> (#[trigger] words_from(s, from)[k]).len() > 0
                && forall|j: int|
                0 <= j < words_from(s, from)[k].len() ==> !is_space(words_from(s, from)[k][j]),
    decreases s.len() - from,
{
    let a = skip_spaces(s, from);
    let b = skip_word(s, a);
    lemma_skip_spaces(s, from);
    lemma_skip_word(s, a);
    if a < s.len() {
        lemma_words_from(s, b);
        let all = words_from(s, from);
        let rest = words_from(s, b);
        let first = s.subrange(a, b);
        assert(all == seq![first] + rest);
        assert forall|k: int| 0 <= k < all.len() implies (#[trigger] all[k]).len() > 0
            && forall|j: int| 0 <= j < all[k].len() ==> !is_space(all[k][j]) by {
            if k > 0 {
                assert(all[k] == rest[k - 1]);
            } else {
                assert(all[0] == first);
                assert forall|j: int| 0 <= j < first.len() implies !is_space(first[j]) by {
                    assert(first[j] == s[a + j]);
                }
            }
        }
    }
}

/// `contains` holds exactly where a search from the start finds something.
pub proof fn lemma_contains_is_found(s: Seq<char>, pat: Seq<char>)
    ensures
        contains(s, pat) <==> find_from(s, pat, 0) is Some,
{
    lemma_find_from(s, pat, 0);
}

/// The characters of a string, in a vector.
pub fn to_chars(s: &str) -> (v: Vec<char>)
    ensures
        v@ == s@,
{
    let mut v: Vec<char> = Vec::new();
    for c in it: s.chars()
        invariant
            it.seq() == s@,
            v@ == it.seq().take(it.index()),
    {
        v.push(c);
    }
    v
}

/// Tests whether `pat` stands in `hay` at position `i`.
pub fn matches_at(hay: &Vec<char>, pat: &Vec<char>, i: usize) -> (r: bool)
    ensures
        r == occurs_at(hay@, pat@, i as int),
{
    if pat.len() > hay.len() || i > hay.len() - pat.len() {
        return false;
    }
    let mut k: usize = 0;
    while k < pat.len()
        invariant
            k <= pat.len(),
            i + pat.len() <= hay.len(),
            forall|j: int| 0 <= j < k ==> hay@[i + j] == pat@[j],
        decreases pat.len() - k,
    {
        if hay[i + k] != pat[k] {
            proof {
                assert(hay@.subrange(i as int, i + pat@.len())[k as int] == hay@[i + k]);
            }
            return false;
        }
        k += 1;
    }
    proof {
        assert(hay@.subrange(i as int, i + pat@.len()) =~= pat@);
    }
    true
}

/// Finds the first occurrence of `pat` in `hay` at or after `from`.
pub fn find(hay: &Vec<char>, pat: &Vec<char>, from: usize) -> (r: Option<usize>)
    ensures
        match r {
            Some(i) => find_from(hay@, pat@, from as int) == Some(i as int),
            None => find_from(hay@, pat@, from as int) is None,
        },
{
    if pat.len() > hay.len() {
        return None;
    }
    let last: usize = hay.len() - pat.len();
    let mut i: usize = from;
    while i <= last
        invariant
            from <= i,
            last == hay.len() - pat.len(),
            find_from(hay@, pat@, from as int) == find_from(hay@, pat@, i as int),
        decreases last + 1 - i,
    {
        if matches_at(hay, pat, i) {
            return Some(i);
        }
        if i == last {
            assert(find_from(hay@, pat@, i + 1) is None);
            return None;
        }
        i += 1;
    }
    None
}

/// Tests whether `a` and `b` hold the same characters.
pub fn str_eq(a: &str, b: &str) -> (r: bool)
    ensures
        r == (a@ == b@),
{
    let x = to_chars(a);
    let y = to_chars(b);
    let r = x.len() == y.len() && matches_at(&x, &y, 0);
    proof {
        if x.len() == y.len() {
            assert(x@.subrange(0, y@.len() as int) =~= x@);
        }
    }
    r
}

/// Tests whether `pat` stands somewhere in `s`.
pub fn str_contains(s: &str, pat: &str) -> (r: bool)
    ensures
        r == contains(s@, pat@),
{
    let hay = to_chars(s);
    let p = to_chars(pat);
    proof {
        lemma_contains_is_found(s@, pat@);
    }
    find(&hay, &p, 0).is_some()
}

/// Tests whether `s` ends with `suffix`.
pub fn str_ends_with(s: &str, suffix: &str) -> (r: bool)
    ensures
        r == ends_with(s@, suffix@),
{
    let hay = to_chars(s);
    let p = to_chars(suffix);
    if p.len() > hay.len() {
        return false;
    }
    matches_at(&hay, &p, hay.len() - p.len())
}

/// Cuts `s` at the occurrences of `pat`.
pub fn str_split(s: &str, pat: &str) -> (r: Vec<String>)
    ensures
        views(r@) == split(s@, pat@),
{
    let hay = to_chars(s);
    let p = to_chars(pat);
    let mut out: Vec<String> = Vec::new();
    let mut start: usize = 0;
    loop
        invariant
            hay@ == s@,
            p@ == pat@,
            start <= hay.len(),
            views(out@) + split_from(s@, pat@, start as int) == split(s@, pat@),
        decreases hay.len() - start,
    {
        let found = if p.len() > 0 {
            find(&hay, &p, start)
        } else {
            None
        };
        proof {
            lemma_find_from(s@, pat@, start as int);
        }
        match found {
            Some(i) => {
                let piece = s.substring_char(start, i).to_owned();
                proof {
                    assert(views(out@.push(piece)) =~= views(out@) + seq![piece@]);
                    assert(views(out@) + split_from(s@, pat@, start as int) =~= (views(out@)
                        + seq![piece@]) + split_from(s@, pat@, i + pat@.len()));
                }
                out.push(piece);
                start = i + p.len();
            },
            None => {
                let piece = s.substring_char(start, hay.len()).to_owned();
                proof {
                    assert(views(out@.push(piece)) =~= views(out@) + seq![piece@]);
                }
                out.push(piece);
                return out;
            },
        }
    }
}

/// Tests whether `c` separates words.
pub fn is_space_char(c: char) -> (r: bool)
    ensures
        r == is_space(c),
{
    let n: u32 = c as u32;
    (0x09 <= n && n <= 0x0D) || n == 0x20 || n == 0x85 || n == 0xA0 || n == 0x1680 || (0x2000
        <= n && n <= 0x200A) || n == 0x2028 || n == 0x2029 || n == 0x202F || n == 0x205F || n
        == 0x3000
}

/// Cuts `s` into its words.
pub fn str_words(s: &str) -> (r: Vec<String>)
    ensures
        views(r@) == words(s@),
{
    let hay = to_chars(s);
    let mut out: Vec<String> = Vec::new();
    let mut i: usize = 0;
    loop
        invariant
            hay@ == s@,
            i <= hay.len(),
            views(out@) + words_from(s@, i as int) == words(s@),
        decreases hay.len() - i,
    {
        let mut a: usize = i;
        while a < hay.len() && is_space_char(hay[a])
            invariant
                i <= a <= hay.len(),
                hay@ == s@,
                skip_spaces(s@, a as int) == skip_spaces(s@, i as int),
            decreases hay.len() - a,
        {
            a += 1;
        }
        if a >= hay.len() {
            assert(views(out@) + Seq::<Seq<char>>::empty() =~= views(out@));
            return out;
        }
        let mut b: usize = a;
        while b < hay.len() && !is_space_char(hay[b])
            invariant
                a <= b <= hay.len(),
                hay@ == s@,
                skip_word(s@, b as int) == skip_word(s@, a as int),
            decreases hay.len() - b,
        {
            b += 1;
        }
        let piece = s.substring_char(a, b).to_owned();
        proof {
            lemma_skip_word(s@, a as int);
            assert(views(out@.push(piece)) =~= views(out@) + seq![piece@]);
            assert(views(out@) + words_from(s@, i as int) =~= (views(out@) + seq![piece@])
                + words_from(s@, b as int));
        }
        out.push(piece);
        i = b;
    }
}

} // verus!
