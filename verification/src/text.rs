//! Character-level string utilities shared by the parsers: conversions
//! between strings and character vectors, equality and splitting.
use vstd::prelude::*;
use vstd::std_specs::iter::IteratorSpec;

verus! {

/// Appending a character to a `String` extends its characters by that character.
pub assume_specification[ String::push ](string: &mut String, ch: char)
    ensures
        final(string)@ == old(string)@.push(ch),
;

/// The characters of a string.
pub fn chars_of(s: &str) -> (r: Vec<char>)
    ensures
        r@ == s@,
{
    let mut it = s.chars();
    let mut out: Vec<char> = Vec::new();
    loop
        invariant
            out@ + it.remaining() == s@,
            it.obeys_prophetic_iter_laws(),
            it.decrease() is Some,
        decreases it.decrease()->0,
    {
        let ghost before = it;
        match it.next() {
            Some(c) => {
                out.push(c);
                assert(out@ + it.remaining() =~= s@);
            },
            None => {
                assert(out@ =~= s@);
                return out;
            },
        }
    }
}

/// A string made of the given characters.
pub fn string_from_chars(v: &[char]) -> (r: String)
    ensures
        r@ == v@,
{
    let mut out = String::new();
    let mut i: usize = 0;
    while i < v.len()
        invariant
            i <= v@.len(),
            out@ == v@.subrange(0, i as int),
        decreases v@.len() - i,
    {
        out.push(v[i]);
        i = i + 1;
        assert(out@ =~= v@.subrange(0, i as int));
    }
    assert(v@.subrange(0, v@.len() as int) =~= v@);
    out
}

/// A copy of a string.
pub fn copy_string(s: &str) -> (r: String)
    ensures
        r@ == s@,
{
    let v = chars_of(s);
    string_from_chars(v.as_slice())
}

/// Whether two character slices are equal.
pub fn chars_eq(a: &[char], b: &[char]) -> (r: bool)
    ensures
        r == (a@ == b@),
{
    if a.len() != b.len() {
        return false;
    }
    let mut i: usize = 0;
    while i < a.len()
        invariant
            a@.len() == b@.len(),
            i <= a@.len(),
            forall|j: int| 0 <= j < i ==> a@[j] == b@[j],
        decreases a@.len() - i,
    {
        if a[i] != b[i] {
            return false;
        }
        i = i + 1;
    }
    assert(a@ =~= b@);
    true
}

/// Whether two strings are equal.
pub fn str_eq(a: &str, b: &str) -> (r: bool)
    ensures
        r == (a@ == b@),
{
    let x = chars_of(a);
    let y = chars_of(b);
    chars_eq(x.as_slice(), y.as_slice())
}

/// The characters of each string.
pub open spec fn views(v: Seq<String>) -> Seq<Seq<char>> {
    v.map_values(|s: String| s@)
}

/// `d` occurs in `s` at index `i`.
pub open spec fn occurs_at(s: Seq<char>, d: Seq<char>, i: int) -> bool {
    0 <= i && i + d.len() <= s.len() && s.subrange(i, i + d.len()) == d
}

/// The first index at or after `i` at which `d` occurs in `s`.
pub open spec fn first_occurrence(s: Seq<char>, d: Seq<char>, i: int) -> Option<int>
    decreases s.len() + 1 - i,
{
    if i < 0 || i + d.len() > s.len() {
        None
    } else if occurs_at(s, d, i) {
        Some(i)
    } else {
        first_occurrence(s, d, i + 1)
    }
}

/// The first occurrence found from `i` is an occurrence at or after `i`, and
/// none lies between `i` and it.
pub proof fn lemma_first_occurrence_bounds(s: Seq<char>, d: Seq<char>, i: int)
    ensures
        first_occurrence(s, d, i) matches Some(k) ==> i <= k && occurs_at(s, d, k) && (forall|
            j: int,
        | i <= j < k ==> !occurs_at(s, d, j)),
        first_occurrence(s, d, i) is None ==> forall|j: int| i <= j ==> #[trigger] occurs_at(s, d, j) ==> i < 0,
    decreases s.len() + 1 - i,
{
    if i < 0 || i + d.len() > s.len() {
    } else if occurs_at(s, d, i) {
    } else {
        lemma_first_occurrence_bounds(s, d, i + 1);
    }
}

/// The pieces of `s[start..]` between the non-overlapping occurrences of the
/// non-empty delimiter `d`, found from left to right.
pub open spec fn split_from(s: Seq<char>, d: Seq<char>, start: int) -> Seq<Seq<char>>
    decreases s.len() - start,
    when d.len() > 0 && 0 <= start <= s.len()
{
    match first_occurrence(s, d, start) {
        None => seq![s.subrange(start, s.len() as int)],
        Some(k) => {
            proof {
                lemma_first_occurrence_bounds(s, d, start);
            }
            seq![s.subrange(start, k)] + split_from(s, d, k + d.len())
        },
    }
}

/// The pieces `str::split` yields for the pattern `d`: with an empty pattern,
/// an empty piece, each character, and an empty piece.
pub open spec fn split_spec(s: Seq<char>, d: Seq<char>) -> Seq<Seq<char>> {
    if d.len() == 0 {
        seq![Seq::<char>::empty()] + s.map_values(|c: char| seq![c]) + seq![Seq::<char>::empty()]
    } else {
        split_from(s, d, 0)
    }
}

fn occurs_at_exec(s: &[char], d: &[char], i: usize) -> (r: bool)
    ensures
        r == occurs_at(s@, d@, i as int),
{
    if i > s.len() || d.len() > s.len() - i {
        return false;
    }
    let mut j: usize = 0;
    while j < d.len()
        invariant
            i + d@.len() <= s@.len(),
            s@.len() == s.len(),
            d@.len() == d.len(),
            j <= d@.len(),
            forall|k: int| 0 <= k < j ==> s@[i + k] == d@[k],
        decreases d@.len() - j,
    {
        if s[i + j] != d[j] {
            assert(s@.subrange(i as int, i + d@.len())[j as int] != d@[j as int]);
            return false;
        }
        j = j + 1;
    }
    assert(s@.subrange(i as int, i + d@.len()) =~= d@);
    true
}

/// The characters `s[from..to]` as a string.
pub fn substring(s: &[char], from: usize, to: usize) -> (r: String)
    requires
        from <= to <= s@.len(),
    ensures
        r@ == s@.subrange(from as int, to as int),
{
    let mut out = String::new();
    let mut i = from;
    while i < to
        invariant
            from <= i <= to,
            to <= s@.len(),
            out@ == s@.subrange(from as int, i as int),
        decreases to - i,
    {
        out.push(s[i]);
        i = i + 1;
        assert(out@ =~= s@.subrange(from as int, i as int));
    }
    out
}

/// Splits the characters `s` at the occurrences of `d`, as `str::split` does.
pub fn split_chars(s: &[char], d: &[char]) -> (r: Vec<String>)
    ensures
        views(r@) == split_spec(s@, d@),
{
    let mut out: Vec<String> = Vec::new();
    if d.len() == 0 {
        out.push(String::new());
        let mut i: usize = 0;
        while i < s.len()
            invariant
                i <= s@.len(),
                views(out@) == seq![Seq::<char>::empty()] + s@.subrange(0, i as int).map_values(
                    |c: char| seq![c],
                ),
            decreases s@.len() - i,
        {
            let mut piece = String::new();
            piece.push(s[i]);
            assert(piece@ =~= seq![s@[i as int]]);
            let ghost old_out = out@;
            out.push(piece);
            proof {
                let f = |c: char| seq![c];
                assert(s@.subrange(0, i + 1).map_values(f) =~= s@.subrange(0, i as int).map_values(
                    f,
                ).push(seq![s@[i as int]]));
                assert(views(out@) =~= views(old_out).push(seq![s@[i as int]]));
            }
            i = i + 1;
        }
        out.push(String::new());
        assert(s@.subrange(0, s@.len() as int) =~= s@);
        assert(views(out@) =~= split_spec(s@, d@));
        return out;
    }
    let mut start: usize = 0;
    let mut i: usize = 0;
    while i < s.len()
        invariant
            d@.len() > 0,
            start <= i <= s@.len(),
            first_occurrence(s@, d@, start as int) == first_occurrence(s@, d@, i as int),
            views(out@) + split_from(s@, d@, start as int) == split_from(s@, d@, 0),
        decreases s@.len() - i,
    {
        if occurs_at_exec(s, d, i) {
            let piece = substring(s, start, i);
            let ghost old_out = out@;
            out.push(piece);
            proof {
                lemma_first_occurrence_bounds(s@, d@, i as int);
                assert(split_from(s@, d@, start as int) =~= seq![s@.subrange(start as int, i as int)]
                    + split_from(s@, d@, i + d@.len()));
                assert(views(out@) =~= views(old_out).push(s@.subrange(start as int, i as int)));
                assert(views(out@) + split_from(s@, d@, i + d@.len()) =~= views(old_out) + split_from(
                    s@,
                    d@,
                    start as int,
                ));
            }
            start = i + d.len();
            i = start;
        } else {
            assert(first_occurrence(s@, d@, i as int) == first_occurrence(s@, d@, i + 1)) by {
                if i + d@.len() <= s@.len() {
                }
            }
            i = i + 1;
        }
    }
    let piece = substring(s, start, s.len());
    let ghost old_out = out@;
    out.push(piece);
    proof {
        assert(first_occurrence(s@, d@, i as int) is None);
        assert(split_from(s@, d@, start as int) =~= seq![s@.subrange(start as int, s@.len() as int)]);
        assert(views(out@) =~= views(old_out).push(s@.subrange(start as int, s@.len() as int)));
        assert(views(out@) =~= split_from(s@, d@, 0));
    }
    out
}

} // verus!

verus! {

/// The characters of the strings of `list` joined by `sep`.
pub open spec fn join_with(list: Seq<Seq<char>>, sep: Seq<char>) -> Seq<char>
    decreases list.len(),
{
    if list.len() == 0 {
        Seq::empty()
    } else if list.len() == 1 {
        list[0]
    } else {
        join_with(list.drop_last(), sep) + sep + list.last()
    }
}

/// Joins the strings with `sep` between each two.
pub fn join_strings(list: &Vec<String>, sep: &str) -> (r: String)
    ensures
        r@ == join_with(views(list@), sep@),
{
    let mut out = String::new();
    let ghost lv = views(list@);
    let mut i: usize = 0;
    while i < list.len()
        invariant
            i <= list@.len(),
            lv == views(list@),
            out@ == join_with(lv.take(i as int), sep@),
        decreases list@.len() - i,
    {
        assert(lv.take(i + 1).drop_last() =~= lv.take(i as int));
        if i == 0 {
            out = list[0].clone();
            assert(lv.take(1) =~= seq![lv[0]]);
        } else {
            out = out.concat(sep);
            out = out.concat(list[i].as_str());
        }
        i = i + 1;
    }
    assert(lv.take(list@.len() as int) =~= lv);
    out
}

/// A copy of each string.
pub fn clone_strings(v: &Vec<String>) -> (r: Vec<String>)
    ensures
        views(r@) == views(v@),
{
    let mut out: Vec<String> = Vec::new();
    let mut i: usize = 0;
    while i < v.len()
        invariant
            i <= v@.len(),
            views(out@) == views(v@).take(i as int),
        decreases v@.len() - i,
    {
        let ghost before = out@;
        let c = v[i].clone();
        out.push(c);
        assert(views(out@) =~= views(before).push(v@[i as int]@));
        assert(views(out@) =~= views(v@).take(i + 1));
        i = i + 1;
    }
    assert(views(v@).take(v@.len() as int) =~= views(v@));
    out
}

/// The characters of each string of an optional list.
pub open spec fn opt_views(o: Option<Vec<String>>) -> Option<Seq<Seq<char>>> {
    match o {
        Some(v) => Some(views(v@)),
        None => None,
    }
}

/// The characters of an optional string.
pub open spec fn opt_view(o: Option<String>) -> Option<Seq<char>> {
    match o {
        Some(s) => Some(s@),
        None => None,
    }
}

/// A copy of an optional list of strings.
pub fn clone_opt_strings(o: &Option<Vec<String>>) -> (r: Option<Vec<String>>)
    ensures
        opt_views(r) == opt_views(*o),
{
    match o {
        Some(v) => Some(clone_strings(v)),
        None => None,
    }
}

/// A copy of an optional string.
pub fn clone_opt_string(o: &Option<String>) -> (r: Option<String>)
    ensures
        opt_view(r) == opt_view(*o),
{
    match o {
        Some(s) => Some(s.clone()),
        None => None,
    }
}

/// The decimal digits of `n`.
pub open spec fn decimal(n: nat) -> Seq<char>
    decreases n,
{
    if n < 10 {
        seq![(48 + n) as char]
    } else {
        decimal(n / 10).push((48 + n % 10) as char)
    }
}

/// `n` written in decimal.
pub fn decimal_string(n: usize) -> (r: String)
    ensures
        r@ == decimal(n as nat),
    decreases n,
{
    if n < 10 {
        let mut s = String::new();
        s.push(digit_char(n));
        assert(s@ =~= decimal(n as nat));
        s
    } else {
        let mut s = decimal_string(n / 10);
        s.push(digit_char(n % 10));
        s
    }
}

fn digit_char(d: usize) -> (c: char)
    requires
        d < 10,
    ensures
        c == (48 + d) as char,
{
    match d {
        0 => '0',
        1 => '1',
        2 => '2',
        3 => '3',
        4 => '4',
        5 => '5',
        6 => '6',
        7 => '7',
        8 => '8',
        _ => '9',
    }
}

} // verus!

verus! {

/// Splitting always yields at least one piece.
pub proof fn lemma_split_nonempty(s: Seq<char>, d: Seq<char>)
    ensures
        split_spec(s, d).len() >= 1,
{
    if d.len() > 0 {
        assert(split_from(s, d, 0).len() >= 1);
    }
}


/// The number of non-overlapping occurrences of the non-empty `d` in
/// `s[start..]`, found from left to right.
pub open spec fn occurrence_count(s: Seq<char>, d: Seq<char>, start: int) -> nat
    decreases s.len() - start,
    when d.len() > 0 && 0 <= start <= s.len()
{
    match first_occurrence(s, d, start) {
        None => 0,
        Some(k) => {
            proof {
                lemma_first_occurrence_bounds(s, d, start);
            }
            1 + occurrence_count(s, d, k + d.len())
        },
    }
}

/// `d` occurs nowhere in `s`.
pub open spec fn free_of(s: Seq<char>, d: Seq<char>) -> bool {
    forall|j: int| !#[trigger] occurs_at(s, d, j)
}

proof fn lemma_join_cons(p: Seq<char>, rest: Seq<Seq<char>>, d: Seq<char>)
    requires
        rest.len() >= 1,
    ensures
        join_with(seq![p] + rest, d) == p + d + join_with(rest, d),
    decreases rest.len(),
{
    let l = seq![p] + rest;
    if rest.len() == 1 {
        assert(l.drop_last() =~= seq![p]);
        assert(l.last() == rest[0]);
        assert(p + d + rest[0] =~= join_with(seq![p], d) + d + rest[0]);
    } else {
        assert(l.drop_last() =~= seq![p] + rest.drop_last());
        lemma_join_cons(p, rest.drop_last(), d);
        assert(l.last() == rest.last());
        assert(p + d + join_with(rest, d) =~= (p + d + join_with(rest.drop_last(), d)) + d
            + rest.last());
    }
}

/// Splitting `s[start..]` at a non-empty delimiter: there is one piece more
/// than there are occurrences, no piece holds the delimiter, and joining the
/// pieces with it gives back the text.
pub proof fn lemma_split_from_laws(s: Seq<char>, d: Seq<char>, start: int)
    requires
        d.len() > 0,
        0 <= start <= s.len(),
    ensures
        split_from(s, d, start).len() == occurrence_count(s, d, start) + 1,
        forall|i: int| 0 <= i < split_from(s, d, start).len() ==> free_of(
            #[trigger] split_from(s, d, start)[i],
            d,
        ),
        join_with(split_from(s, d, start), d) == s.subrange(start, s.len() as int),
    decreases s.len() - start,
{
    lemma_first_occurrence_bounds(s, d, start);
    match first_occurrence(s, d, start) {
        None => {
            let piece = s.subrange(start, s.len() as int);
            assert forall|j: int| !#[trigger] occurs_at(piece, d, j) by {
                if occurs_at(piece, d, j) {
                    assert(s.subrange(start + j, start + j + d.len()) =~= piece.subrange(j, j + d.len()));
                    assert(occurs_at(s, d, start + j));
                }
            }
            assert(split_from(s, d, start)[0] == piece);
        },
        Some(k) => {
            let piece = s.subrange(start, k);
            let rest = split_from(s, d, k + d.len());
            lemma_split_from_laws(s, d, k + d.len());
            assert(split_from(s, d, start) == seq![piece] + rest);
            assert forall|j: int| !#[trigger] occurs_at(piece, d, j) by {
                if occurs_at(piece, d, j) {
                    assert(s.subrange(start + j, start + j + d.len()) =~= piece.subrange(j, j + d.len()));
                    assert(occurs_at(s, d, start + j));
                }
            }
            assert forall|i: int| 0 <= i < split_from(s, d, start).len() implies free_of(
                #[trigger] split_from(s, d, start)[i],
                d,
            ) by {
                if i > 0 {
                    assert(split_from(s, d, start)[i] == rest[i - 1]);
                }
            }
            lemma_join_cons(piece, rest, d);
            assert(s.subrange(k, k + d.len()) == d);
            assert(piece + d + s.subrange(k + d.len(), s.len() as int) =~= s.subrange(
                start,
                s.len() as int,
            ));
        },
    }
}

} // verus!
