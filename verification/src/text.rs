//! Text as a sequence of characters: searching, trimming, numerals.
//!
//! Every other module states what it writes over the `Seq<char>` view of
//! strings. The functions here are the executable side of those statements.

use vstd::prelude::*;

verus! {

/// `String::push` appends one character.
pub assume_specification[ String::push ](s: &mut String, ch: char)
    ensures
        final(s)@ == old(s)@.push(ch),
;

// ── equality, slices ──────────────────────────────────────────────

/// The characters of `s`, in order.
pub fn chars_of(s: &str) -> (out: Vec<char>)
    ensures
        out@ == s@,
{
    let mut out: Vec<char> = Vec::new();
    for c in it: s.chars()
        invariant
            it.seq() == s@,
            out@ == s@.take(it.index() as int),
    {
        proof {
            assert(s@.take(it.index() + 1) =~= s@.take(it.index() as int).push(c));
        }
        out.push(c);
    }
    assert(s@.take(s@.len() as int) =~= s@);
    out
}

/// Whether two strings hold the same characters.
pub fn same_text(a: &str, b: &str) -> (same: bool)
    ensures
        same == (a@ == b@),
{
    a.to_owned() == b.to_owned()
}

/// Whether an optional string is present and holds exactly `b`.
pub fn option_is(a: &Option<String>, b: &str) -> (same: bool)
    ensures
        same == (a matches Some(x) && x@ == b@),
{
    match a {
        Some(x) => same_text(x.as_str(), b),
        None => false,
    }
}

/// The view of an optional string.
pub open spec fn option_view(a: Option<String>) -> Option<Seq<char>> {
    match a {
        Some(x) => Some(x@),
        None => None,
    }
}

/// The text of an optional string, empty where there is none.
pub open spec fn option_text(a: Option<Seq<char>>) -> Seq<char> {
    match a {
        Some(x) => x,
        None => Seq::<char>::empty(),
    }
}

/// The text of an optional string, empty where there is none.
pub fn text_or_empty(a: &Option<String>) -> (out: String)
    ensures
        out@ == option_text(option_view(*a)),
{
    match a {
        Some(x) => x.clone(),
        None => String::new(),
    }
}

/// A copy of an optional string.
pub fn clone_option(a: &Option<String>) -> (out: Option<String>)
    ensures
        out == *a,
{
    match a {
        Some(x) => Some(x.clone()),
        None => None,
    }
}

/// The views of a list of strings.
pub open spec fn views(list: Seq<String>) -> Seq<Seq<char>> {
    Seq::new(list.len(), |i: int| list[i]@)
}

/// A string as `{:?}` writes it: in double quotes, with escapes.
pub uninterp spec fn debug_quoted(s: Seq<char>) -> Seq<char>;

/// `std`'s `Debug` text of a string. The escapes follow Unicode tables, so the
/// result is a function of the string alone and is only named.
#[verifier::external_body]
pub(crate) fn debug_text(s: &str) -> (out: String)
    ensures
        out@ == debug_quoted(s@),
{
    format!("{:?}", s)
}

/// A letter or a number, by Unicode's tables.
pub uninterp spec fn alphanumeric(c: char) -> bool;

/// A letter or a digit of ASCII.
pub open spec fn ascii_alphanumeric(c: char) -> bool {
    ||| 0x30 <= c as u32 <= 0x39
    ||| 0x41 <= c as u32 <= 0x5a
    ||| 0x61 <= c as u32 <= 0x7a
}

/// `char::is_alphanumeric`. It follows Unicode tables and is only named; in the
/// ASCII range it holds of the letters and digits.
#[verifier::external_body]
pub(crate) fn is_alphanumeric(c: char) -> (yes: bool)
    ensures
        yes == alphanumeric(c),
        c as u32 <= 0x7f ==> yes == ascii_alphanumeric(c),
{
    c.is_alphanumeric()
}

/// A string in lower case, by Unicode's tables.
pub uninterp spec fn lowercase(s: Seq<char>) -> Seq<char>;

/// `str::to_lowercase`. The mapping follows Unicode tables, so the result is a
/// function of the string alone and is only named.
#[verifier::external_body]
pub(crate) fn lowercase_text(s: &str) -> (out: String)
    ensures
        out@ == lowercase(s@),
{
    s.to_lowercase()
}

// ── searching ─────────────────────────────────────────────────────

/// `pattern` stands in `s` at character `i`.
pub open spec fn occurs_at(s: Seq<char>, pattern: Seq<char>, i: int) -> bool {
    &&& 0 <= i
    &&& i + pattern.len() <= s.len()
    &&& s.subrange(i, i + pattern.len()) == pattern
}

/// `pattern` stands somewhere in `s`.
pub open spec fn occurs(s: Seq<char>, pattern: Seq<char>) -> bool {
    exists|i: int| occurs_at(s, pattern, i)
}

/// `i` is the first place where `pattern` stands in `s`.
pub open spec fn first_at(s: Seq<char>, pattern: Seq<char>, i: int) -> bool {
    &&& occurs_at(s, pattern, i)
    &&& forall|j: int| 0 <= j < i ==> !occurs_at(s, pattern, j)
}

/// The first place where `pattern` stands in `s`, if it does.
pub open spec fn position(s: Seq<char>, pattern: Seq<char>) -> Option<int> {
    if occurs(s, pattern) {
        Some(choose|i: int| first_at(s, pattern, i))
    } else {
        None
    }
}

/// There is one first place.
pub proof fn lemma_position(s: Seq<char>, pattern: Seq<char>, i: int)
    requires
        first_at(s, pattern, i),
    ensures
        position(s, pattern) == Some(i),
{
    assert(occurs_at(s, pattern, i));
    let k = choose|k: int| first_at(s, pattern, k);
    assert(first_at(s, pattern, k));
    assert(!(k < i) && !(i < k));
}

/// A pattern whose first character does not come again in it, and which does
/// not stand in `front`, is found right behind `front`.
pub proof fn lemma_found_behind(front: Seq<char>, pattern: Seq<char>, back: Seq<char>)
    requires
        pattern.len() > 0,
        forall|k: int| 0 < k < pattern.len() ==> #[trigger] pattern[k] != pattern[0],
        !occurs(front, pattern),
    ensures
        position(front + pattern + back, pattern) == Some(front.len() as int),
{
    let s = front + pattern + back;
    let n = pattern.len() as int;
    let at = front.len() as int;
    assert(s.subrange(at, at + n) =~= pattern);
    assert forall|j: int| 0 <= j < at implies !occurs_at(s, pattern, j) by {
        if occurs_at(s, pattern, j) {
            let window = s.subrange(j, j + n);
            if j + n <= at {
                assert(front.subrange(j, j + n) =~= window);
                assert(occurs_at(front, pattern, j));
            } else {
                let k = at - j;
                assert(window[k] == s[at]);
                assert(pattern[k] == pattern[0]);
            }
        }
    }
    lemma_position(s, pattern, at);
}

/// A pattern without the character `c` does not reach over a `c`.
pub proof fn lemma_not_across(a: Seq<char>, c: char, b: Seq<char>, pattern: Seq<char>)
    requires
        !pattern.contains(c),
        !occurs(a, pattern),
        !occurs(b, pattern),
    ensures
        !occurs(a + seq![c] + b, pattern),
{
    let s = a + seq![c] + b;
    let n = pattern.len() as int;
    let at = a.len() as int;
    assert forall|j: int| !occurs_at(s, pattern, j) by {
        if occurs_at(s, pattern, j) {
            let window = s.subrange(j, j + n);
            if j + n <= at {
                assert(a.subrange(j, j + n) =~= window);
                assert(occurs_at(a, pattern, j));
            } else if j > at {
                assert(b.subrange(j - at - 1, j - at - 1 + n) =~= window);
                assert(occurs_at(b, pattern, j - at - 1));
            } else {
                assert(window[at - j] == c);
                assert(pattern[at - j] == c);
            }
        }
    }
}

/// A text without the first character of a pattern does not hold the pattern.
pub proof fn lemma_not_without(s: Seq<char>, pattern: Seq<char>)
    requires
        pattern.len() > 0,
        !s.contains(pattern[0]),
    ensures
        !occurs(s, pattern),
{
    assert forall|j: int| !occurs_at(s, pattern, j) by {
        if occurs_at(s, pattern, j) {
            assert(s.subrange(j, j + pattern.len())[0] == s[j]);
            assert(s[j] == pattern[0]);
        }
    }
}

/// Texts are put together in any grouping.
pub proof fn lemma_regroup(a: Seq<char>, b: Seq<char>, c: Seq<char>)
    ensures
        a + b + c == a + (b + c),
{
    assert(a + b + c =~= a + (b + c));
}

/// A text put together from two holds what either holds.
pub proof fn lemma_contains_either(a: Seq<char>, b: Seq<char>, c: char)
    ensures
        (a + b).contains(c) == (a.contains(c) || b.contains(c)),
{
    let s = a + b;
    if a.contains(c) {
        let i = choose|i: int| 0 <= i < a.len() && a[i] == c;
        assert(s[i] == c);
    }
    if b.contains(c) {
        let i = choose|i: int| 0 <= i < b.len() && b[i] == c;
        assert(s[a.len() + i] == c);
    }
    if s.contains(c) {
        let i = choose|i: int| 0 <= i < s.len() && s[i] == c;
        if i < a.len() {
            assert(a[i] == c);
        } else {
            assert(b[i - a.len()] == c);
        }
    }
}

/// A front without the first character of a pattern adds no place for it.
pub proof fn lemma_not_with_front(front: Seq<char>, s: Seq<char>, pattern: Seq<char>)
    requires
        pattern.len() > 0,
        !front.contains(pattern[0]),
        !occurs(s, pattern),
    ensures
        !occurs(front + s, pattern),
{
    let whole = front + s;
    let n = pattern.len() as int;
    let at = front.len() as int;
    assert forall|j: int| !occurs_at(whole, pattern, j) by {
        if occurs_at(whole, pattern, j) {
            let window = whole.subrange(j, j + n);
            assert(window[0] == whole[j]);
            if j < at {
                assert(front[j] == pattern[0]);
            } else {
                assert(s.subrange(j - at, j - at + n) =~= window);
                assert(occurs_at(s, pattern, j - at));
            }
        }
    }
}

/// Whether `pattern` stands in `s` at `at`.
fn matches_at(s: &Vec<char>, pattern: &Vec<char>, at: usize) -> (found: bool)
    ensures
        found == occurs_at(s@, pattern@, at as int),
{
    if pattern.len() > s.len() || at > s.len() - pattern.len() {
        return false;
    }
    let mut k: usize = 0;
    while k < pattern.len()
        invariant
            k <= pattern.len(),
            at + pattern.len() <= s.len(),
            forall|m: int| 0 <= m < k ==> s@[at + m] == pattern@[m],
        decreases pattern.len() - k,
    {
        if s[at + k] != pattern[k] {
            proof {
                let part = s@.subrange(at as int, at + pattern@.len());
                assert(part[k as int] == s@[at + k]);
            }
            return false;
        }
        k = k + 1;
    }
    assert(s@.subrange(at as int, at + pattern@.len()) =~= pattern@);
    true
}

/// The first place where `pattern` stands in `s`, counted in characters.
pub fn find(s: &str, pattern: &str) -> (at: Option<usize>)
    ensures
        match at {
            Some(i) => position(s@, pattern@) == Some(i as int) && i + pattern@.len() <= s@.len(),
            None => position(s@, pattern@) is None,
        },
{
    let text: Vec<char> = chars_of(s);
    let want: Vec<char> = chars_of(pattern);
    let mut i: usize = 0;
    while i < text.len()
        invariant
            text@ == s@,
            want@ == pattern@,
            i <= text.len(),
            forall|j: int| 0 <= j < i ==> !occurs_at(s@, pattern@, j),
        decreases text.len() - i,
    {
        if matches_at(&text, &want, i) {
            proof {
                lemma_position(s@, pattern@, i as int);
            }
            return Some(i);
        }
        i = i + 1;
    }
    if matches_at(&text, &want, i) {
        proof {
            lemma_position(s@, pattern@, i as int);
        }
        return Some(i);
    }
    None
}

/// Whether `s` holds the character `c`.
pub fn contains_char(s: &str, c: char) -> (found: bool)
    ensures
        found == s@.contains(c),
{
    let text: Vec<char> = chars_of(s);
    let mut i: usize = 0;
    while i < text.len()
        invariant
            text@ == s@,
            i <= text.len(),
            forall|j: int| 0 <= j < i ==> s@[j] != c,
        decreases text.len() - i,
    {
        if text[i] == c {
            return true;
        }
        i = i + 1;
    }
    false
}

/// `s` begins with `prefix`.
pub open spec fn starts_with(s: Seq<char>, prefix: Seq<char>) -> bool {
    prefix.len() <= s.len() && s.subrange(0, prefix.len() as int) == prefix
}

/// `s` ends with `suffix`.
pub open spec fn ends_with(s: Seq<char>, suffix: Seq<char>) -> bool {
    suffix.len() <= s.len() && s.subrange(s.len() - suffix.len(), s.len() as int) == suffix
}

/// `s` without `prefix` at its front, where it has it.
pub open spec fn without_prefix(s: Seq<char>, prefix: Seq<char>) -> Option<Seq<char>> {
    if starts_with(s, prefix) {
        Some(s.subrange(prefix.len() as int, s.len() as int))
    } else {
        None
    }
}

/// `s` without `suffix` at its end, where it has it.
pub open spec fn without_suffix(s: Seq<char>, suffix: Seq<char>) -> Option<Seq<char>> {
    if ends_with(s, suffix) {
        Some(s.subrange(0, s.len() - suffix.len()))
    } else {
        None
    }
}

/// `s` without `prefix` at its front, where it has it.
pub fn strip_prefix<'a>(s: &'a str, prefix: &str) -> (rest: Option<&'a str>)
    ensures
        match rest {
            Some(r) => without_prefix(s@, prefix@) == Some(r@),
            None => without_prefix(s@, prefix@) is None,
        },
{
    let text: Vec<char> = chars_of(s);
    let want: Vec<char> = chars_of(prefix);
    if matches_at(&text, &want, 0) {
        Some(s.substring_char(want.len(), text.len()))
    } else {
        None
    }
}

/// `s` without `suffix` at its end, where it has it.
pub fn strip_suffix<'a>(s: &'a str, suffix: &str) -> (rest: Option<&'a str>)
    ensures
        match rest {
            Some(r) => without_suffix(s@, suffix@) == Some(r@),
            None => without_suffix(s@, suffix@) is None,
        },
{
    let text: Vec<char> = chars_of(s);
    let want: Vec<char> = chars_of(suffix);
    if want.len() <= text.len() && matches_at(&text, &want, text.len() - want.len()) {
        Some(s.substring_char(0, text.len() - want.len()))
    } else {
        None
    }
}

/// The pieces of `s` between copies of `c`.
pub open spec fn pieces(s: Seq<char>, c: char) -> Seq<Seq<char>>
    decreases s.len(),
{
    if s.len() == 0 {
        seq![s]
    } else {
        let rest = pieces(s.drop_last(), c);
        if s.last() == c {
            rest.push(Seq::empty())
        } else {
            rest.update(rest.len() - 1, rest.last().push(s.last()))
        }
    }
}

proof fn lemma_pieces_not_empty(s: Seq<char>, c: char)
    ensures
        pieces(s, c).len() > 0,
    decreases s.len(),
{
    if s.len() > 0 {
        lemma_pieces_not_empty(s.drop_last(), c);
    }
}

/// The pieces of `s` between copies of `c`.
pub fn split(s: &str, c: char) -> (out: Vec<String>)
    ensures
        views(out@) == pieces(s@, c),
{
    let text: Vec<char> = chars_of(s);
    let mut out: Vec<String> = Vec::new();
    let mut piece: String = String::new();
    let mut i: usize = 0;
    assert(s@.take(0) =~= Seq::<char>::empty());
    assert(views(out@).push(piece@) =~= pieces(s@.take(0), c));
    while i < text.len()
        invariant
            text@ == s@,
            i <= text.len(),
            views(out@).push(piece@) == pieces(s@.take(i as int), c),
        decreases text.len() - i,
    {
        let ghost before = views(out@).push(piece@);
        proof {
            assert(s@.take(i + 1).drop_last() =~= s@.take(i as int));
            assert(s@.take(i + 1).last() == s@[i as int]);
        }
        if text[i] == c {
            out.push(piece);
            assert(views(out@) =~= before);
            piece = String::new();
        } else {
            piece.push(text[i]);
            assert(views(out@).push(piece@) =~= before.update(
                before.len() - 1,
                before.last().push(s@[i as int]),
            ));
        }
        i = i + 1;
    }
    let ghost before = views(out@).push(piece@);
    out.push(piece);
    assert(views(out@) =~= before);
    assert(s@.take(s@.len() as int) =~= s@);
    out
}

/// What separates the pieces is not in them, and putting them together again
/// gives the text.
pub proof fn law_pieces(s: Seq<char>, c: char)
    ensures
        pieces(s, c).len() > 0,
        forall|i: int| 0 <= i < pieces(s, c).len() ==> !(#[trigger] pieces(s, c)[i]).contains(c),
        rejoined(pieces(s, c), c) == s,
    decreases s.len(),
{
    lemma_pieces_not_empty(s, c);
    reveal_with_fuel(rejoined, 2);
    if s.len() == 0 {
        assert(rejoined(seq![s], c) =~= s);
    } else {
        let front = s.drop_last();
        law_pieces(front, c);
        let rest = pieces(front, c);
        let all = pieces(s, c);
        assert(front.push(s.last()) =~= s);
        if s.last() == c {
            assert(all.drop_last() =~= rest);
            assert(rejoined(all, c) =~= s);
        } else {
            let longer = rest.last().push(s.last());
            assert(!longer.contains(c)) by {
                if longer.contains(c) {
                    let k = choose|k: int| 0 <= k < longer.len() && longer[k] == c;
                    assert(rest.last()[k] == c);
                    assert(rest[rest.len() - 1].contains(c));
                }
            }
            assert(all.drop_last() =~= rest.drop_last());
            if rest.len() == 1 {
                assert(rejoined(all, c) =~= rest.last().push(s.last()));
                assert(rejoined(rest, c) =~= rest.last());
            } else {
                assert(rejoined(all, c) =~= rejoined(rest, c).push(s.last()));
            }
        }
    }
}

/// Texts put together with `c` between them.
pub open spec fn rejoined(list: Seq<Seq<char>>, c: char) -> Seq<char>
    decreases list.len(),
{
    if list.len() == 0 {
        Seq::empty()
    } else if list.len() == 1 {
        list[0]
    } else {
        rejoined(list.drop_last(), c).push(c) + list.last()
    }
}

// ── trimming ──────────────────────────────────────────────────────

/// The characters with Unicode's `White_Space` property.
pub open spec fn is_white(c: char) -> bool {
    ||| 0x09 <= c as u32 <= 0x0d
    ||| c as u32 == 0x20
    ||| c as u32 == 0x85
    ||| c as u32 == 0xa0
    ||| c as u32 == 0x1680
    ||| 0x2000 <= c as u32 <= 0x200a
    ||| c as u32 == 0x2028
    ||| c as u32 == 0x2029
    ||| c as u32 == 0x202f
    ||| c as u32 == 0x205f
    ||| c as u32 == 0x3000
}

/// Whether `c` is white space.
fn white(c: char) -> (yes: bool)
    ensures
        yes == is_white(c),
{
    let n: u32 = c as u32;
    (0x09 <= n && n <= 0x0d) || n == 0x20 || n == 0x85 || n == 0xa0 || n == 0x1680 || (0x2000
        <= n && n <= 0x200a) || n == 0x2028 || n == 0x2029 || n == 0x202f || n == 0x205f || n
        == 0x3000
}

/// `s` without the white space at its front.
pub open spec fn trim_start(s: Seq<char>) -> Seq<char>
    decreases s.len(),
{
    if s.len() > 0 && is_white(s[0]) {
        trim_start(s.subrange(1, s.len() as int))
    } else {
        s
    }
}

/// `s` without the white space at its end.
pub open spec fn trim_end(s: Seq<char>) -> Seq<char>
    decreases s.len(),
{
    if s.len() > 0 && is_white(s.last()) {
        trim_end(s.drop_last())
    } else {
        s
    }
}

/// `s` without the white space at its two ends.
pub open spec fn trim(s: Seq<char>) -> Seq<char> {
    trim_end(trim_start(s))
}

/// `s` without the copies of `c` at its end.
pub open spec fn trim_end_of(s: Seq<char>, c: char) -> Seq<char>
    decreases s.len(),
{
    if s.len() > 0 && s.last() == c {
        trim_end_of(s.drop_last(), c)
    } else {
        s
    }
}

/// White space at the end of a text is no part of what trimming leaves.
pub proof fn lemma_trim_ignores_last(s: Seq<char>, c: char)
    requires
        is_white(c),
    ensures
        trim(s.push(c)) == trim(s),
    decreases s.len(),
{
    let longer = s.push(c);
    if s.len() == 0 {
        assert(longer.subrange(1, 1) =~= s);
        assert(trim_start(longer) == trim_start(s));
    } else if is_white(s[0]) {
        let rest = s.subrange(1, s.len() as int);
        lemma_trim_ignores_last(rest, c);
        assert(longer.subrange(1, longer.len() as int) =~= rest.push(c));
    } else {
        assert(longer.drop_last() =~= s);
    }
}

/// White space at the front of a text is no part of what trimming leaves.
pub proof fn lemma_trim_ignores_first(c: char, s: Seq<char>)
    requires
        is_white(c),
    ensures
        trim(seq![c] + s) == trim(s),
{
    let longer = seq![c] + s;
    assert(longer.subrange(1, longer.len() as int) =~= s);
}

/// A text with no white space at its ends is left as it is.
pub proof fn lemma_trim_keeps(s: Seq<char>)
    requires
        s.len() > 0,
        !is_white(s[0]),
        !is_white(s.last()),
    ensures
        trim(s) == s,
{
}

/// `s` without the white space at its front.
pub fn trimmed_start<'a>(s: &'a str) -> (out: &'a str)
    ensures
        out@ == trim_start(s@),
{
    let text: Vec<char> = chars_of(s);
    let mut i: usize = 0;
    assert(s@.subrange(0, s@.len() as int) =~= s@);
    while i < text.len() && white(text[i])
        invariant
            text@ == s@,
            i <= text.len(),
            trim_start(s@) == trim_start(s@.subrange(i as int, s@.len() as int)),
        decreases text.len() - i,
    {
        proof {
            let rest = s@.subrange(i as int, s@.len() as int);
            assert(rest.subrange(1, rest.len() as int) =~= s@.subrange(i + 1, s@.len() as int));
            assert(rest[0] == s@[i as int]);
        }
        i = i + 1;
    }
    s.substring_char(i, text.len())
}

/// `s` without the white space at its end.
pub fn trimmed_end<'a>(s: &'a str) -> (out: &'a str)
    ensures
        out@ == trim_end(s@),
{
    let text: Vec<char> = chars_of(s);
    let mut n: usize = text.len();
    assert(s@.take(s@.len() as int) =~= s@);
    while n > 0 && white(text[n - 1])
        invariant
            text@ == s@,
            n <= text.len(),
            trim_end(s@) == trim_end(s@.take(n as int)),
        decreases n,
    {
        proof {
            assert(s@.take(n as int).drop_last() =~= s@.take(n - 1));
        }
        n = n - 1;
    }
    s.substring_char(0, n)
}

/// `s` without the white space at its two ends.
pub fn trimmed<'a>(s: &'a str) -> (out: &'a str)
    ensures
        out@ == trim(s@),
{
    trimmed_end(trimmed_start(s))
}

/// `s` without the copies of `c` at its end.
pub fn trimmed_end_of<'a>(s: &'a str, c: char) -> (out: &'a str)
    ensures
        out@ == trim_end_of(s@, c),
{
    let text: Vec<char> = chars_of(s);
    let mut n: usize = text.len();
    assert(s@.take(s@.len() as int) =~= s@);
    while n > 0 && text[n - 1] == c
        invariant
            text@ == s@,
            n <= text.len(),
            trim_end_of(s@, c) == trim_end_of(s@.take(n as int), c),
        decreases n,
    {
        proof {
            assert(s@.take(n as int).drop_last() =~= s@.take(n - 1));
        }
        n = n - 1;
    }
    s.substring_char(0, n)
}

// ── numerals ──────────────────────────────────────────────────────

/// The digit for `d`, which is below 16; letters are upper case if `upper`.
pub open spec fn digit(d: nat, upper: bool) -> char {
    if d < 10 {
        (0x30 + d) as char
    } else if upper {
        (0x41 + d - 10) as char
    } else {
        (0x61 + d - 10) as char
    }
}

/// `n` written in base `base`, without leading zeros.
pub open spec fn in_base(n: nat, base: nat, upper: bool) -> Seq<char>
    decreases n,
{
    if base < 2 || n < base {
        seq![digit(n, upper)]
    } else {
        proof {
            vstd::arithmetic::div_mod::lemma_div_decreases(n as int, base as int);
        }
        in_base(n / base, base, upper).push(digit(n % base, upper))
    }
}

/// `n` in decimal.
pub open spec fn decimal(n: nat) -> Seq<char> {
    in_base(n, 10, false)
}

/// An integer in decimal, with a minus sign where it is negative.
pub open spec fn signed_decimal(n: int) -> Seq<char> {
    if n < 0 {
        seq!['-'] + decimal((-n) as nat)
    } else {
        decimal(n as nat)
    }
}

/// `s`, filled with zeros at its front up to `width` characters.
pub open spec fn zero_padded(s: Seq<char>, width: nat) -> Seq<char>
    decreases width - s.len(),
{
    if s.len() < width {
        zero_padded(seq!['0'] + s, width)
    } else {
        s
    }
}

fn digit_char(d: u64, upper: bool) -> (c: char)
    requires
        d < 16,
    ensures
        c == digit(d as nat, upper),
{
    let d: u8 = d as u8;
    if d < 10 {
        (0x30 + d) as char
    } else if upper {
        (0x41 + (d - 10)) as char
    } else {
        (0x61 + (d - 10)) as char
    }
}

/// `n` written in base `base`.
pub fn base_text(n: u64, base: u64, upper: bool) -> (out: String)
    requires
        2 <= base <= 16,
    ensures
        out@ == in_base(n as nat, base as nat, upper),
    decreases n,
{
    let mut out: String = if n < base {
        String::new()
    } else {
        proof {
            vstd::arithmetic::div_mod::lemma_div_decreases(n as int, base as int);
        }
        base_text(n / base, base, upper)
    };
    out.push(digit_char(n % base, upper));
    assert(n < base ==> n % base == n) by {
        if n < base {
            vstd::arithmetic::div_mod::lemma_small_mod(n as nat, base as nat);
        }
    }
    out
}

/// `n` in decimal.
pub fn decimal_text(n: u64) -> (out: String)
    ensures
        out@ == decimal(n as nat),
{
    base_text(n, 10, false)
}

/// `n` in decimal, with a minus sign where it is negative.
pub fn signed_decimal_text(n: i64) -> (out: String)
    ensures
        out@ == signed_decimal(n as int),
{
    if n >= 0 {
        decimal_text(n as u64)
    } else {
        let mut out: String = String::new();
        out.push('-');
        let size: u64 = (-(n as i128)) as u64;
        out.append(decimal_text(size).as_str());
        assert(Seq::<char>::empty().push('-') =~= seq!['-']);
        out
    }
}

/// `s`, filled with zeros at its front up to `width` characters.
pub fn padded_text(s: String, width: usize) -> (out: String)
    ensures
        out@ == zero_padded(s@, width as nat),
{
    let mut out: String = s;
    let mut n: usize = out.as_str().unicode_len();
    while n < width
        invariant
            n == out@.len(),
            zero_padded(s@, width as nat) == zero_padded(out@, width as nat),
        decreases width - n,
    {
        let mut longer: String = String::new();
        longer.push('0');
        longer.append(out.as_str());
        assert(longer@ =~= seq!['0'] + out@);
        out = longer;
        n = n + 1;
    }
    out
}

/// The value of a digit up to 15.
pub open spec fn digit_value(c: char) -> int {
    if c as u32 <= 0x39 {
        c as u32 - 0x30
    } else if c as u32 <= 0x46 {
        c as u32 - 0x41 + 10
    } else {
        c as u32 - 0x61 + 10
    }
}

/// The value of a numeral in base `base`.
pub open spec fn numeral_value(s: Seq<char>, base: nat) -> int
    decreases s.len(),
{
    if s.len() == 0 {
        0
    } else {
        base * numeral_value(s.drop_last(), base) + digit_value(s.last())
    }
}

/// A numeral has the value it was written for: no two numbers share one.
pub proof fn law_numeral_value(n: nat, base: nat, upper: bool)
    requires
        2 <= base <= 16,
    ensures
        numeral_value(in_base(n, base, upper), base) == n,
    decreases n,
{
    reveal_with_fuel(numeral_value, 2);
    if n < base {
        assert(seq![digit(n, upper)].drop_last() =~= Seq::<char>::empty());
        assert(base * 0 == 0) by (nonlinear_arith);
    } else {
        vstd::arithmetic::div_mod::lemma_div_decreases(n as int, base as int);
        law_numeral_value(n / base, base, upper);
        let front = in_base(n / base, base, upper);
        assert(front.push(digit(n % base, upper)).drop_last() =~= front);
        vstd::arithmetic::div_mod::lemma_fundamental_div_mod(n as int, base as int);
        vstd::arithmetic::div_mod::lemma_mod_bound(n as int, base as int);
    }
}

/// A number below `base` to the power `k` needs at most `k` digits.
pub proof fn lemma_numeral_len(n: nat, base: nat, upper: bool, k: nat)
    requires
        2 <= base <= 16,
        k >= 1,
        n < vstd::arithmetic::power::pow(base as int, k),
    ensures
        1 <= in_base(n, base, upper).len() <= k,
    decreases k,
{
    if n >= base {
        vstd::arithmetic::power::lemma_pow1(base as int);
        assert(k > 1);
        vstd::arithmetic::power::lemma_pow_adds(base as int, 1, (k - 1) as nat);
        let p = vstd::arithmetic::power::pow(base as int, (k - 1) as nat);
        assert((n / base) as int * base <= n) by {
            vstd::arithmetic::div_mod::lemma_fundamental_div_mod(n as int, base as int);
            vstd::arithmetic::div_mod::lemma_mod_bound(n as int, base as int);
            assert((n / base) as int * base == base * (n / base) as int) by (nonlinear_arith);
        }
        assert((n / base) < p) by (nonlinear_arith)
            requires
                (n / base) as int * base <= n,
                n < base * p,
                base >= 2,
        ;
        lemma_numeral_len(n / base, base, upper, (k - 1) as nat);
    }
}

/// Zeros at the front fill a numeral up and do not change its value.
pub proof fn law_padding_keeps_the_value(s: Seq<char>, width: nat, base: nat)
    ensures
        numeral_value(zero_padded(s, width), base) == numeral_value(s, base),
        zero_padded(s, width).len() == if s.len() < width {
            width
        } else {
            s.len()
        },
    decreases width - s.len(),
{
    if s.len() < width {
        let longer = seq!['0'] + s;
        law_padding_keeps_the_value(longer, width, base);
        lemma_zero_in_front(s, base);
    }
}

proof fn lemma_zero_in_front(s: Seq<char>, base: nat)
    ensures
        numeral_value(seq!['0'] + s, base) == numeral_value(s, base),
    decreases s.len(),
{
    let longer = seq!['0'] + s;
    if s.len() == 0 {
        reveal_with_fuel(numeral_value, 2);
        assert(longer.drop_last() =~= Seq::<char>::empty());
        assert(base * 0 == 0) by (nonlinear_arith);
    } else {
        lemma_zero_in_front(s.drop_last(), base);
        assert(longer.drop_last() =~= seq!['0'] + s.drop_last());
    }
}

/// A decimal numeral is made of digits, and there is at least one.
pub proof fn lemma_decimal_is_digits(n: nat)
    ensures
        decimal(n).len() >= 1,
        forall|i: int| 0 <= i < decimal(n).len() ==> is_digit(#[trigger] decimal(n)[i]),
    decreases n,
{
    if n >= 10 {
        lemma_decimal_is_digits(n / 10);
        let front = decimal(n / 10);
        assert forall|i: int| 0 <= i < decimal(n).len() implies is_digit(
            #[trigger] decimal(n)[i],
        ) by {
            if i < front.len() {
                assert(is_digit(front[i]));
            }
        }
    }
}

/// No two integers are written the same.
pub proof fn law_signed_decimal_is_injective(a: int, b: int)
    requires
        signed_decimal(a) == signed_decimal(b),
    ensures
        a == b,
{
    let x = if a < 0 {
        (-a) as nat
    } else {
        a as nat
    };
    let y = if b < 0 {
        (-b) as nat
    } else {
        b as nat
    };
    lemma_decimal_is_digits(x);
    lemma_decimal_is_digits(y);
    law_numeral_value(x, 10, false);
    law_numeral_value(y, 10, false);
    assert(is_digit(decimal(x)[0]));
    assert(is_digit(decimal(y)[0]));
    assert(signed_decimal(a)[0] == signed_decimal(b)[0]);
    if a < 0 && b < 0 {
        assert(decimal(x) =~= signed_decimal(a).subrange(1, signed_decimal(a).len() as int));
        assert(decimal(y) =~= signed_decimal(b).subrange(1, signed_decimal(b).len() as int));
    }
}

// ── reading numbers ───────────────────────────────────────────────

/// Why a text is no number.
#[derive(Clone, Copy, Debug, PartialEq, Eq, Structural)]
pub enum NumberError {
    /// The text is empty.
    Empty,
    /// A character is no digit, or there is none.
    InvalidDigit,
    /// The number is too large.
    TooLarge,
}

/// A decimal digit.
pub open spec fn is_digit(c: char) -> bool {
    0x30 <= c as u32 <= 0x39
}

/// The value of a text of decimal digits.
pub open spec fn digits_value(s: Seq<char>) -> nat
    decreases s.len(),
{
    if s.len() == 0 {
        0
    } else {
        10 * digits_value(s.drop_last()) + (s.last() as u32 - 0x30) as nat
    }
}

/// The number of digits at the front of `s`.
pub open spec fn digits_in_front(s: Seq<char>) -> nat
    decreases s.len(),
{
    if s.len() > 0 && is_digit(s[0]) {
        1 + digits_in_front(s.subrange(1, s.len() as int))
    } else {
        0
    }
}

/// What stands behind an optional plus sign.
pub open spec fn behind_plus(s: Seq<char>) -> Seq<char> {
    if s.len() > 1 && s[0] == '+' {
        s.subrange(1, s.len() as int)
    } else {
        s
    }
}

/// The unsigned number up to `max` that `s` writes in decimal: digits, after
/// an optional plus sign. Of two faults the first in the text is reported.
pub open spec fn parsed(s: Seq<char>, max: u64) -> Result<u64, NumberError> {
    let t = behind_plus(s);
    let n = digits_in_front(t);
    if s.len() == 0 {
        Err(NumberError::Empty)
    } else if digits_value(t.take(n as int)) > max {
        Err(NumberError::TooLarge)
    } else if n < t.len() {
        Err(NumberError::InvalidDigit)
    } else {
        Ok(digits_value(t) as u64)
    }
}

impl NumberError {
    /// What the error says to a person.
    pub open spec fn text(self) -> Seq<char> {
        match self {
            NumberError::Empty => "cannot parse integer from empty string"@,
            NumberError::InvalidDigit => "invalid digit found in string"@,
            NumberError::TooLarge => "number too large to fit in target type"@,
        }
    }

    /// What the error says to a person.
    pub fn message(&self) -> (out: &'static str)
        ensures
            out@ == self.text(),
    {
        match self {
            NumberError::Empty => "cannot parse integer from empty string",
            NumberError::InvalidDigit => "invalid digit found in string",
            NumberError::TooLarge => "number too large to fit in target type",
        }
    }
}

proof fn lemma_digits_in_front(s: Seq<char>, n: int)
    requires
        0 <= n <= s.len(),
        forall|i: int| 0 <= i < n ==> is_digit(#[trigger] s[i]),
    ensures
        n == s.len() || !is_digit(s[n]) ==> digits_in_front(s) == n,
        digits_in_front(s) >= n,
    decreases n,
{
    if n > 0 {
        let rest = s.subrange(1, s.len() as int);
        assert(is_digit(s[0]));
        assert forall|i: int| 0 <= i < n - 1 implies is_digit(#[trigger] rest[i]) by {
            assert(rest[i] == s[i + 1]);
        }
        lemma_digits_in_front(rest, n - 1);
        if n < s.len() {
            assert(rest[n - 1] == s[n]);
        }
    }
}

proof fn lemma_digits_in_front_bound(s: Seq<char>)
    ensures
        digits_in_front(s) <= s.len(),
    decreases s.len(),
{
    if s.len() > 0 && is_digit(s[0]) {
        lemma_digits_in_front_bound(s.subrange(1, s.len() as int));
    }
}

proof fn lemma_digits_grow(s: Seq<char>, m: int, n: int)
    requires
        0 <= m <= n <= s.len(),
    ensures
        digits_value(s.take(m)) <= digits_value(s.take(n)),
    decreases n - m,
{
    if m < n {
        lemma_digits_grow(s, m, n - 1);
        assert(s.take(n).drop_last() =~= s.take(n - 1));
    }
}

/// The unsigned number up to `max` that `s` writes in decimal.
pub fn parse_number(s: &str, max: u64) -> (n: Result<u64, NumberError>)
    ensures
        n == parsed(s@, max),
        n matches Ok(v) ==> v <= max,
{
    let text: Vec<char> = chars_of(s);
    if text.len() == 0 {
        return Err(NumberError::Empty);
    }
    let start: usize = if text.len() > 1 && text[0] == '+' {
        1
    } else {
        0
    };
    let ghost t = behind_plus(s@);
    assert(t =~= s@.subrange(start as int, s@.len() as int));
    assert(t.take(0) =~= Seq::<char>::empty());
    let mut value: u64 = 0;
    let mut i: usize = start;
    while i < text.len()
        invariant
            text@ == s@,
            text.len() > 0,
            start <= i <= text.len(),
            start <= 1,
            t == behind_plus(s@),
            t == s@.subrange(start as int, s@.len() as int),
            value == digits_value(t.take(i - start)),
            value <= max,
            forall|k: int| 0 <= k < i - start ==> is_digit(#[trigger] t[k]),
        decreases text.len() - i,
    {
        let c: u32 = text[i] as u32;
        let ghost n = (i - start) as int;
        assert(t[n] == text@[i as int]);
        proof {
            lemma_digits_in_front_bound(t);
        }
        if c < 0x30 || c > 0x39 {
            proof {
                lemma_digits_in_front(t, n);
            }
            return Err(NumberError::InvalidDigit);
        }
        let d: u64 = (c - 0x30) as u64;
        proof {
            assert(t.take(n + 1).drop_last() =~= t.take(n));
            assert(t.take(n + 1).last() == t[n]);
            assert(t[n] as u32 == c);
            assert(is_digit(t[n]));
            assert(digits_value(t.take(n + 1)) == 10 * value + d);
            lemma_digits_in_front(t, n + 1);
            lemma_digits_grow(t, n + 1, digits_in_front(t) as int);
        }
        let next: u128 = 10 * value as u128 + d as u128;
        if next > max as u128 {
            return Err(NumberError::TooLarge);
        }
        value = next as u64;
        i = i + 1;
    }
    proof {
        lemma_digits_in_front(t, t.len() as int);
        assert(t.take(t.len() as int) =~= t);
    }
    Ok(value)
}

} // verus!
