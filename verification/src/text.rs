//! Verified operations on text. Every contract is stated over the sequence of
//! characters that a string holds.
use vstd::prelude::*;
use vstd::string::*;

verus! {

/// `String::push` appends one character to the end of the string.
pub assume_specification[ String::push ](s: &mut String, c: char)
    ensures
        final(s)@ == old(s)@.push(c),
;

/// Position of the first `c` in `s` at or after `from`; the length of `s` when there is none.
pub open spec fn index_from(s: Seq<char>, c: char, from: int) -> int
    decreases s.len() - from,
{
    if from < 0 || from >= s.len() {
        s.len() as int
    } else if s[from] == c {
        from
    } else {
        index_from(s, c, from + 1)
    }
}

/// Position of the first `c` in `s`; the length of `s` when there is none.
pub open spec fn index_of(s: Seq<char>, c: char) -> int {
    index_from(s, c, 0)
}

/// Position of the last `c` in `s`; -1 when there is none.
pub open spec fn last_index_of(s: Seq<char>, c: char) -> int
    decreases s.len(),
{
    if s.len() == 0 {
        -1
    } else if s.last() == c {
        s.len() - 1
    } else {
        last_index_of(s.drop_last(), c)
    }
}

/// `s` begins with `prefix`.
pub open spec fn has_prefix(s: Seq<char>, prefix: Seq<char>) -> bool {
    prefix.len() <= s.len() && s.subrange(0, prefix.len() as int) == prefix
}

/// `s` with every occurrence of `from` replaced by `to`, scanning from the left and
/// never looking again at what a match covered. An empty `from` replaces nothing.
pub open spec fn replaced(s: Seq<char>, from: Seq<char>, to: Seq<char>) -> Seq<char>
    decreases s.len(),
{
    if from.len() == 0 || s.len() < from.len() {
        s
    } else if has_prefix(s, from) {
        to + replaced(s.subrange(from.len() as int, s.len() as int), from, to)
    } else {
        seq![s[0]] + replaced(s.subrange(1, s.len() as int), from, to)
    }
}

/// Some element of `items` holds exactly the characters `needle`.
pub open spec fn has_text(items: Seq<String>, needle: Seq<char>) -> bool {
    exists|i: int| 0 <= i < items.len() && (#[trigger] items[i])@ == needle
}

/// The characters of an optional text.
pub open spec fn opt_text(value: Option<String>) -> Option<Seq<char>> {
    match value {
        Some(s) => Some(s@),
        None => None,
    }
}

/// The characters of each element, in order.
pub open spec fn texts(items: Seq<String>) -> Seq<Seq<char>> {
    items.map_values(|s: String| s@)
}

/// Lists that hold the same texts hold the same needles.
pub proof fn lemma_has_text_by_texts(a: Seq<String>, b: Seq<String>, needle: Seq<char>)
    requires
        texts(a) == texts(b),
    ensures
        has_text(a, needle) == has_text(b, needle),
{
    assert(a.len() == texts(a).len());
    assert(b.len() == texts(b).len());
    if has_text(a, needle) {
        let i = choose|i: int| 0 <= i < a.len() && (#[trigger] a[i])@ == needle;
        assert(texts(a)[i] == a[i]@);
        assert(texts(b)[i] == b[i]@);
    }
    if has_text(b, needle) {
        let i = choose|i: int| 0 <= i < b.len() && (#[trigger] b[i])@ == needle;
        assert(texts(a)[i] == a[i]@);
        assert(texts(b)[i] == b[i]@);
    }
}

/// The characters of a text, in order.
pub fn to_chars(s: &str) -> (v: Vec<char>)
    ensures
        v@ == s@,
{
    let mut v: Vec<char> = Vec::new();
    for c in it: s.chars()
        invariant
            it.seq() == s@,
            v@ == s@.take(it.index() as int),
    {
        v.push(c);
    }
    v
}

/// The text made of the given characters.
pub fn from_chars(v: &Vec<char>) -> (s: String)
    ensures
        s@ == v@,
{
    let mut s = String::new();
    let mut i: usize = 0;
    while i < v.len()
        invariant
            i <= v.len(),
            s@ == v@.take(i as int),
        decreases v.len() - i,
    {
        s.push(v[i]);
        assert(v@.take(i + 1) == v@.take(i as int).push(v@[i as int]));
        i = i + 1;
    }
    assert(v@.take(i as int) == v@);
    s
}

/// True when both texts hold the same characters.
pub fn str_eq(a: &str, b: &str) -> (r: bool)
    ensures
        r == (a@ == b@),
{
    let x = to_chars(a);
    let y = to_chars(b);
    if x.len() != y.len() {
        return false;
    }
    let mut i: usize = 0;
    while i < x.len()
        invariant
            x@ == a@,
            y@ == b@,
            x.len() == y.len(),
            i <= x.len(),
            a@.take(i as int) == b@.take(i as int),
        decreases x.len() - i,
    {
        if x[i] != y[i] {
            return false;
        }
        assert(a@.take(i + 1) == a@.take(i as int).push(a@[i as int]));
        assert(b@.take(i + 1) == b@.take(i as int).push(b@[i as int]));
        i = i + 1;
    }
    assert(a@.take(i as int) == a@);
    assert(b@.take(i as int) == b@);
    true
}

/// Equality of two secrets that looks at every position of the shorter text
/// whatever it finds, so that the time taken does not tell where they differ.
pub fn ct_eq(a: &str, b: &str) -> (r: bool)
    ensures
        r == (a@ == b@),
{
    let x = to_chars(a);
    let y = to_chars(b);
    let n: usize = if x.len() < y.len() {
        x.len()
    } else {
        y.len()
    };
    let mut diff: u32 = 0;
    let mut i: usize = 0;
    assert(a@.take(0) == b@.take(0));
    while i < n
        invariant
            x@ == a@,
            y@ == b@,
            n <= x.len(),
            n <= y.len(),
            i <= n,
            (diff == 0) == (a@.take(i as int) == b@.take(i as int)),
        decreases n - i,
    {
        let differs: bool = x[i] != y[i];
        let mark: u32 = if differs {
            1
        } else {
            0
        };
        let next: u32 = diff | mark;
        assert((next == 0) == (diff == 0 && mark == 0)) by (bit_vector)
            requires
                next == diff | mark,
        ;
        assert(a@.take(i + 1) == a@.take(i as int).push(a@[i as int]));
        assert(b@.take(i + 1) == b@.take(i as int).push(b@[i as int]));
        proof {
            assert(a@.take(i + 1).take(i as int) == a@.take(i as int));
            assert(b@.take(i + 1).take(i as int) == b@.take(i as int));
            if differs {
                assert(a@.take(i + 1)[i as int] != b@.take(i + 1)[i as int]);
            }
        }
        diff = next;
        i = i + 1;
    }

    proof {
        if x.len() == y.len() {
            assert(a@.take(i as int) == a@);
            assert(b@.take(i as int) == b@);
        }
    }
    diff == 0 && x.len() == y.len()
}

/// True when two optional texts are both absent or hold the same characters.
pub fn opt_str_eq(a: &Option<String>, b: &Option<String>) -> (r: bool)
    ensures
        r == (opt_text(*a) == opt_text(*b)),
{
    match a {
        Some(x) => match b {
            Some(y) => str_eq(x.as_str(), y.as_str()),
            None => false,
        },
        None => b.is_none(),
    }
}

/// Position of the first `c` in `s` at or after `from`; the length of `s` when there is none.
pub fn find_from(s: &Vec<char>, c: char, from: usize) -> (r: usize)
    ensures
        r == index_from(s@, c, from as int),
        r <= s.len(),
{
    let mut i: usize = from;
    if from >= s.len() {
        return s.len();
    }
    while i < s.len()
        invariant
            from <= i <= s.len(),
            index_from(s@, c, from as int) == index_from(s@, c, i as int),
        decreases s.len() - i,
    {
        if s[i] == c {
            return i;
        }
        i = i + 1;
    }
    i
}

/// True when `s` begins with `prefix`.
pub fn starts_with(s: &Vec<char>, prefix: &Vec<char>, at: usize) -> (r: bool)
    requires
        at <= s.len(),
    ensures
        r == has_prefix(s@.subrange(at as int, s.len() as int), prefix@),
{
    let ghost rest = s@.subrange(at as int, s.len() as int);
    if prefix.len() > s.len() - at {
        return false;
    }
    let mut i: usize = 0;
    while i < prefix.len()
        invariant
            at <= s.len(),
            prefix.len() <= s.len() - at,
            i <= prefix.len(),
            rest == s@.subrange(at as int, s.len() as int),
            rest.subrange(0, i as int) == prefix@.subrange(0, i as int),
        decreases prefix.len() - i,
    {
        if s[at + i] != prefix[i] {
            assert(rest.subrange(0, prefix.len() as int)[i as int] != prefix@[i as int]);
            return false;
        }
        assert(rest.subrange(0, i + 1) == rest.subrange(0, i as int).push(rest[i as int]));
        assert(prefix@.subrange(0, i + 1) == prefix@.subrange(0, i as int).push(prefix@[i as int]));
        i = i + 1;
    }
    assert(prefix@.subrange(0, i as int) == prefix@);
    true
}

/// Position of the first place at or after `from` where `pattern` stands in
/// `s`; the length of `s` when there is none.
pub open spec fn find_text(s: Seq<char>, pattern: Seq<char>, from: int) -> int
    decreases s.len() - from,
{
    if from < 0 || from >= s.len() {
        s.len() as int
    } else if has_prefix(s.subrange(from, s.len() as int), pattern) {
        from
    } else {
        find_text(s, pattern, from + 1)
    }
}

/// Position of the first place at or after `from` where `pattern` stands in
/// `s`; the length of `s` when there is none.
pub fn find_text_from(s: &Vec<char>, pattern: &Vec<char>, from: usize) -> (r: usize)
    ensures
        r == find_text(s@, pattern@, from as int),
        r <= s.len(),
        r < s.len() ==> has_prefix(s@.subrange(r as int, s.len() as int), pattern@),
{
    let mut i: usize = from;
    if from >= s.len() {
        return s.len();
    }
    while i < s.len()
        invariant
            from <= i <= s.len(),
            find_text(s@, pattern@, from as int) == find_text(s@, pattern@, i as int),
        decreases s.len() - i,
    {
        if starts_with(s, pattern, i) {
            return i;
        }
        i = i + 1;
    }
    i
}

/// What follows `prefix` in `s`, when `s` begins with it.
pub fn strip_prefix(s: &str, prefix: &str) -> (r: Option<String>)
    ensures
        has_prefix(s@, prefix@) ==> r.is_some() && r.unwrap()@ == s@.subrange(
            prefix@.len() as int,
            s@.len() as int,
        ),
        !has_prefix(s@, prefix@) ==> r.is_none(),
{
    let sc = to_chars(s);
    let pc = to_chars(prefix);
    assert(sc@.subrange(0, sc.len() as int) == sc@);
    if starts_with(&sc, &pc, 0) {
        let rest = s.substring_char(pc.len(), sc.len());
        Some(String::from_str(rest))
    } else {
        None
    }
}

/// `s` with every occurrence of `from` replaced by `to`.
pub fn replace_all(s: &str, from: &str, to: &str) -> (r: String)
    ensures
        r@ == replaced(s@, from@, to@),
{
    let sc = to_chars(s);
    let fc = to_chars(from);
    let tc = to_chars(to);
    if fc.len() == 0 {
        return String::from_str(s);
    }
    let mut out: Vec<char> = Vec::new();
    let mut i: usize = 0;
    assert(sc@.subrange(0, sc.len() as int) == sc@);
    while i < sc.len()
        invariant
            i <= sc.len(),
            sc@ == s@,
            fc@ == from@,
            tc@ == to@,
            fc.len() > 0,
            replaced(s@, from@, to@) == out@ + replaced(
                sc@.subrange(i as int, sc.len() as int),
                from@,
                to@,
            ),
        decreases sc.len() - i,
    {
        let ghost rest = sc@.subrange(i as int, sc.len() as int);
        if starts_with(&sc, &fc, i) {
            let ghost before = out@;
            let mut k: usize = 0;
            while k < tc.len()
                invariant
                    k <= tc.len(),
                    out@ == before + tc@.take(k as int),
                decreases tc.len() - k,
            {
                out.push(tc[k]);
                assert(tc@.take(k + 1) == tc@.take(k as int).push(tc@[k as int]));
                k = k + 1;
            }
            assert(tc@.take(k as int) == tc@);
            assert(rest.subrange(fc.len() as int, rest.len() as int) == sc@.subrange(
                i + fc.len(),
                sc.len() as int,
            ));
            assert(before + (tc@ + replaced(
                rest.subrange(fc.len() as int, rest.len() as int),
                from@,
                to@,
            )) == (before + tc@) + replaced(
                rest.subrange(fc.len() as int, rest.len() as int),
                from@,
                to@,
            ));
            i = i + fc.len();
        } else {
            let ghost before = out@;
            out.push(sc[i]);
            proof {
                if rest.len() < fc.len() {
                    lemma_replaced_short(rest, from@, to@);
                }
                assert(rest.subrange(1, rest.len() as int) == sc@.subrange(
                    i + 1,
                    sc.len() as int,
                ));
                let tail = replaced(sc@.subrange(i + 1, sc.len() as int), from@, to@);
                assert(replaced(rest, from@, to@) == seq![rest[0]] + tail);
                assert(before + (seq![rest[0]] + tail) == before.push(sc@[i as int]) + tail);
            }
            i = i + 1;
        }
    }
    assert(sc@.subrange(i as int, sc.len() as int).len() == 0);
    assert(out@ + Seq::<char>::empty() == out@);
    from_chars(&out)
}

/// A text shorter than the pattern is replaced one character at a time, which
/// leaves it as it is.
pub proof fn lemma_replaced_short(s: Seq<char>, from: Seq<char>, to: Seq<char>)
    requires
        0 < s.len() < from.len(),
    ensures
        replaced(s, from, to) == seq![s[0]] + replaced(s.subrange(1, s.len() as int), from, to),
{
    let tail = s.subrange(1, s.len() as int);
    assert(replaced(tail, from, to) == tail);
    assert(seq![s[0]] + tail == s);
}

/// True when some element of `items` holds exactly the characters of `needle`.
pub fn contains_text(items: &Vec<String>, needle: &str) -> (r: bool)
    ensures
        r == has_text(items@, needle@),
{
    let mut i: usize = 0;
    while i < items.len()
        invariant
            i <= items.len(),
            forall|j: int| 0 <= j < i ==> (#[trigger] items@[j])@ != needle@,
        decreases items.len() - i,
    {
        if str_eq(items[i].as_str(), needle) {
            return true;
        }
        i = i + 1;
    }
    false
}

/// True when both lists hold the same texts in the same order.
pub fn texts_eq(a: &Vec<String>, b: &Vec<String>) -> (r: bool)
    ensures
        r == (texts(a@) == texts(b@)),
{
    if a.len() != b.len() {
        assert(texts(a@).len() != texts(b@).len());
        return false;
    }
    let mut i: usize = 0;
    while i < a.len()
        invariant
            i <= a.len(),
            a.len() == b.len(),
            forall|j: int| 0 <= j < i ==> (#[trigger] a@[j])@ == b@[j]@,
        decreases a.len() - i,
    {
        if !str_eq(a[i].as_str(), b[i].as_str()) {
            assert(texts(a@)[i as int] != texts(b@)[i as int]);
            return false;
        }
        i = i + 1;
    }
    assert(texts(a@) =~= texts(b@));
    true
}

/// A copy of a list of texts, element by element.
pub fn copy_texts(items: &Vec<String>) -> (r: Vec<String>)
    ensures
        r@ == items@,
{
    let mut out: Vec<String> = Vec::new();
    let mut i: usize = 0;
    while i < items.len()
        invariant
            i <= items.len(),
            out@ == items@.take(i as int),
        decreases items.len() - i,
    {
        out.push(items[i].clone());
        assert(items@.take(i + 1) == items@.take(i as int).push(items@[i as int]));
        i = i + 1;
    }
    assert(items@.take(i as int) == items@);
    out
}

/// A copy of an optional text.
pub fn copy_opt(value: &Option<String>) -> (r: Option<String>)
    ensures
        r == *value,
        opt_text(r) == opt_text(*value),
{
    match value {
        Some(s) => Some(s.clone()),
        None => None,
    }
}

} // verus!
