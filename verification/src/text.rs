//! Character-level primitives shared by the three chart decoders: character
//! classes, runs, trimming, splitting into lines and into fields.
//!
//! Every decoder reads its input as a sequence of Unicode scalar values
//! (`Seq<char>`, the view of a `str`), never as bytes.
use vstd::prelude::*;
use vstd::std_specs::iter::IteratorSpec;

verus! {

/// `String::push` of the standard library appends the given character and
/// leaves the characters before it as they were.
pub assume_specification[ String::push ](s: &mut String, c: char)
    ensures
        final(s)@ == old(s)@.push(c),
;

/// What `str::to_uppercase` of the standard library makes of a text: its
/// upper-case form by the Unicode case mappings, which may be longer than
/// the text.
pub uninterp spec fn uppercase(s: Seq<char>) -> Seq<char>;

/// `str::to_uppercase` of the standard library returns the upper-case form
/// of the slice, a function of its characters alone.
pub assume_specification[ str::to_uppercase ](s: &str) -> (r: String)
    ensures
        r@ == uppercase(s@),
;

/// The Unicode `White_Space` code points.
pub open spec fn is_space(c: char) -> bool {
    ||| '\u{9}' <= c <= '\u{d}'
    ||| c == ' '
    ||| c == '\u{85}'
    ||| c == '\u{a0}'
    ||| c == '\u{1680}'
    ||| '\u{2000}' <= c <= '\u{200a}'
    ||| c == '\u{2028}'
    ||| c == '\u{2029}'
    ||| c == '\u{202f}'
    ||| c == '\u{205f}'
    ||| c == '\u{3000}'
}

/// The ASCII decimal digits.
pub open spec fn is_decimal_digit(c: char) -> bool {
    '0' <= c <= '9'
}

/// A set of characters that a scan can run over.
#[derive(Clone, Copy, Debug)]
pub enum CharClass {
    /// Unicode white space.
    Space,
    /// Everything but Unicode white space.
    Visible,
    /// `0` to `9`.
    Digit,
    /// The one given character.
    Is(char),
    /// Everything but the given character.
    Not(char),
}

impl CharClass {
    /// Whether `c` belongs to the class.
    pub open spec fn holds(self, c: char) -> bool {
        match self {
            CharClass::Space => is_space(c),
            CharClass::Visible => !is_space(c),
            CharClass::Digit => is_decimal_digit(c),
            CharClass::Is(d) => c == d,
            CharClass::Not(d) => c != d,
        }
    }

    /// Whether `c` belongs to the class.
    pub fn contains(self, c: char) -> (b: bool)
        ensures
            b == self.holds(c),
    {
        match self {
            CharClass::Space => is_whitespace(c),
            CharClass::Visible => !is_whitespace(c),
            CharClass::Digit => '0' <= c && c <= '9',
            CharClass::Is(d) => c == d,
            CharClass::Not(d) => c != d,
        }
    }
}

/// Whether `c` is white space.
pub fn is_whitespace(c: char) -> (b: bool)
    ensures
        b == is_space(c),
{
    ('\u{9}' <= c && c <= '\u{d}') || c == ' ' || c == '\u{85}' || c == '\u{a0}' || c == '\u{1680}'
        || ('\u{2000}' <= c && c <= '\u{200a}') || c == '\u{2028}' || c == '\u{2029}' || c
        == '\u{202f}' || c == '\u{205f}' || c == '\u{3000}'
}

/// Length of the longest prefix of `s` whose characters all belong to `class`.
pub open spec fn run(s: Seq<char>, class: CharClass) -> nat
    decreases s.len(),
{
    if s.len() > 0 && class.holds(s[0]) {
        1 + run(s.drop_first(), class)
    } else {
        0
    }
}

/// Length of the longest suffix of `s` whose characters all belong to `class`.
pub open spec fn run_back(s: Seq<char>, class: CharClass) -> nat
    decreases s.len(),
{
    if s.len() > 0 && class.holds(s.last()) {
        1 + run_back(s.drop_last(), class)
    } else {
        0
    }
}

/// A run stays inside the sequence, covers only members of the class, and
/// stops at the first character outside it.
pub proof fn lemma_run(s: Seq<char>, class: CharClass)
    ensures
        run(s, class) <= s.len(),
        forall|i: int| 0 <= i < run(s, class) ==> class.holds(#[trigger] s[i]),
        run(s, class) < s.len() ==> !class.holds(s[run(s, class) as int]),
    decreases s.len(),
{
    if s.len() > 0 && class.holds(s[0]) {
        let t = s.drop_first();
        lemma_run(t, class);
        assert forall|i: int| 0 <= i < run(s, class) implies class.holds(#[trigger] s[i]) by {
            if i > 0 {
                assert(s[i] == t[i - 1]);
            }
        }
        if run(s, class) < s.len() {
            assert(s[run(s, class) as int] == t[run(t, class) as int]);
        }
    }
}

/// The three facts of `lemma_run` determine the run's length.
pub proof fn lemma_run_is(s: Seq<char>, class: CharClass, n: nat)
    requires
        n <= s.len(),
        forall|i: int| 0 <= i < n ==> class.holds(#[trigger] s[i]),
        n < s.len() ==> !class.holds(s[n as int]),
    ensures
        run(s, class) == n,
    decreases s.len(),
{
    if n > 0 {
        let t = s.drop_first();
        assert(class.holds(s[0]));
        assert forall|i: int| 0 <= i < n - 1 implies class.holds(#[trigger] t[i]) by {
            assert(t[i] == s[i + 1]);
        }
        if n < s.len() {
            assert(t[n - 1] == s[n as int]);
        }
        lemma_run_is(t, class, (n - 1) as nat);
    }
}

/// `lemma_run` for suffixes.
pub proof fn lemma_run_back(s: Seq<char>, class: CharClass)
    ensures
        run_back(s, class) <= s.len(),
        forall|i: int| s.len() - run_back(s, class) <= i < s.len() ==> class.holds(#[trigger] s[i]),
        run_back(s, class) < s.len() ==> !class.holds(s[s.len() - run_back(s, class) - 1]),
    decreases s.len(),
{
    if s.len() > 0 && class.holds(s.last()) {
        let t = s.drop_last();
        lemma_run_back(t, class);
        assert forall|i: int| s.len() - run_back(s, class) <= i < s.len() implies class.holds(
            #[trigger] s[i],
        ) by {
            if i < s.len() - 1 {
                assert(s[i] == t[i]);
            }
        }
        if run_back(s, class) < s.len() {
            assert(s[s.len() - run_back(s, class) - 1] == t[t.len() - run_back(t, class) - 1]);
        }
    }
}

/// `lemma_run_is` for suffixes.
pub proof fn lemma_run_back_is(s: Seq<char>, class: CharClass, n: nat)
    requires
        n <= s.len(),
        forall|i: int| s.len() - n <= i < s.len() ==> class.holds(#[trigger] s[i]),
        n < s.len() ==> !class.holds(s[s.len() - n - 1]),
    ensures
        run_back(s, class) == n,
    decreases s.len(),
{
    if n > 0 {
        let t = s.drop_last();
        assert(class.holds(s[s.len() - 1]));
        assert forall|i: int| t.len() - (n - 1) <= i < t.len() implies class.holds(
            #[trigger] t[i],
        ) by {
            assert(t[i] == s[i]);
        }
        if n < s.len() {
            assert(t[t.len() - (n - 1) - 1] == s[s.len() - n - 1]);
        }
        lemma_run_back_is(t, class, (n - 1) as nat);
    }
}

/// `s` without its leading and trailing white space.
pub open spec fn trim(s: Seq<char>) -> Seq<char> {
    let a = run(s, CharClass::Space);
    if a == s.len() {
        Seq::empty()
    } else {
        s.subrange(a as int, s.len() - run_back(s, CharClass::Space))
    }
}

/// The maximal runs of visible characters of `s`, in order.
pub open spec fn fields(s: Seq<char>) -> Seq<Seq<char>>
    decreases s.len(),
    via fields_decreases
{
    let a = run(s, CharClass::Space);
    let n = run(s.skip(a as int), CharClass::Visible);
    if n == 0 {
        Seq::empty()
    } else {
        seq![s.subrange(a as int, (a + n) as int)] + fields(s.skip((a + n) as int))
    }
}

#[via_fn]
proof fn fields_decreases(s: Seq<char>) {
    lemma_run(s, CharClass::Space);
    lemma_run(s.skip(run(s, CharClass::Space) as int), CharClass::Visible);
}

/// The lines of `s`: the pieces between line feeds. A line feed at the very
/// end closes the last line and opens no empty one. Carriage returns stay:
/// every decoder trims its lines.
pub open spec fn lines(s: Seq<char>) -> Seq<Seq<char>>
    decreases s.len(),
    via lines_decreases
{
    let n = run(s, CharClass::Not('\n'));
    if s.len() == 0 {
        Seq::empty()
    } else if n == s.len() {
        seq![s]
    } else {
        seq![s.take(n as int)] + lines(s.skip((n + 1) as int))
    }
}

#[via_fn]
proof fn lines_decreases(s: Seq<char>) {
    lemma_run(s, CharClass::Not('\n'));
}

/// `parts[from..]` joined by single blanks.
pub open spec fn join_from(parts: Seq<Seq<char>>, from: int) -> Seq<char>
    decreases parts.len() - from,
{
    if from < 0 || from >= parts.len() {
        Seq::empty()
    } else if from == parts.len() - 1 {
        parts[from]
    } else {
        parts[from] + seq![' '] + join_from(parts, from + 1)
    }
}

/// The views of a sequence of strings.
pub open spec fn texts(v: Seq<String>) -> Seq<Seq<char>> {
    v.map_values(|t: String| t@)
}

/// `texts` keeps the length and takes the view of each string.
pub proof fn lemma_texts(v: Seq<String>)
    ensures
        texts(v).len() == v.len(),
        forall|i: int| 0 <= i < v.len() ==> (#[trigger] texts(v)[i]) == v[i]@,
{
}

/// No field is empty and no field holds white space.
pub proof fn lemma_fields_are_visible(s: Seq<char>)
    ensures
        forall|k: int, i: int|
            0 <= k < fields(s).len() && 0 <= i < fields(s)[k].len() ==> !is_space(
                #[trigger] fields(s)[k][i],
            ),
        forall|k: int| 0 <= k < fields(s).len() ==> (#[trigger] fields(s)[k]).len() > 0,
    decreases s.len(),
{
    let a = run(s, CharClass::Space);
    let n = run(s.skip(a as int), CharClass::Visible);
    lemma_run(s, CharClass::Space);
    lemma_run(s.skip(a as int), CharClass::Visible);
    if n > 0 {
        let head = s.subrange(a as int, (a + n) as int);
        let rest = fields(s.skip((a + n) as int));
        lemma_fields_are_visible(s.skip((a + n) as int));
        assert forall|k: int, i: int|
            0 <= k < fields(s).len() && 0 <= i < fields(s)[k].len() implies !is_space(
            #[trigger] fields(s)[k][i],
        ) by {
            if k == 0 {
                assert(head[i] == s.skip(a as int)[i]);
            } else {
                assert(fields(s)[k] == rest[k - 1]);
            }
        }
        assert forall|k: int| 0 <= k < fields(s).len() implies (#[trigger] fields(s)[k]).len()
            > 0 by {
            if k > 0 {
                assert(fields(s)[k] == rest[k - 1]);
            }
        }
    }
}

/// White space at the end of a text adds no field: where everything from
/// `m` on is white space, the fields of the text are those of its first `m`
/// characters.
pub proof fn lemma_fields_ignore_trailing_space(s: Seq<char>, m: int)
    requires
        0 <= m <= s.len(),
        forall|i: int| m <= i < s.len() ==> is_space(#[trigger] s[i]),
    ensures
        fields(s.take(m)) == fields(s),
    decreases s.len(),
{
    let head = s.take(m);
    let a = run(s, CharClass::Space);
    let n = run(s.skip(a as int), CharClass::Visible);
    lemma_run(s, CharClass::Space);
    lemma_run(s.skip(a as int), CharClass::Visible);
    if n == 0 {
        // the text is white space throughout, and so is its head
        if a < s.len() {
            assert(s.skip(a as int)[0] == s[a as int]);
        }
        assert forall|i: int| 0 <= i < head.len() implies CharClass::Space.holds(
            #[trigger] head[i],
        ) by {
            assert(head[i] == s[i]);
        }
        lemma_run_is(head, CharClass::Space, head.len());
        assert(head.skip(head.len() as int) =~= Seq::<char>::empty());
    } else {
        // the first field ends before the white space at the end begins
        let rest = s.skip(a as int);
        assert(a + n <= m) by {
            assert(CharClass::Visible.holds(rest[n - 1]));
            assert(rest[n - 1] == s[a + n - 1]);
        }
        assert forall|i: int| 0 <= i < a implies CharClass::Space.holds(#[trigger] head[i]) by {
            assert(head[i] == s[i]);
        }
        assert(head[a as int] == s[a as int]);
        assert(rest[0] == s[a as int]);
        lemma_run_is(head, CharClass::Space, a);
        let head_rest = head.skip(a as int);
        assert forall|i: int| 0 <= i < n implies CharClass::Visible.holds(
            #[trigger] head_rest[i],
        ) by {
            assert(head_rest[i] == rest[i]);
        }
        if n < head_rest.len() {
            assert(head_rest[n as int] == rest[n as int]);
        }
        lemma_run_is(head_rest, CharClass::Visible, n);
        assert(head.subrange(a as int, (a + n) as int) =~= s.subrange(a as int, (a + n) as int));
        let tail = s.skip((a + n) as int);
        assert(head.skip((a + n) as int) =~= tail.take(m - (a + n)));
        assert forall|i: int| m - (a + n) <= i < tail.len() implies is_space(#[trigger] tail[i]) by {
            assert(tail[i] == s[a + n + i]);
        }
        lemma_fields_ignore_trailing_space(tail, m - (a + n));
    }
}

/// White space at the start of a text adds no field.
pub proof fn lemma_fields_ignore_leading_space(s: Seq<char>)
    ensures
        fields(s.skip(run(s, CharClass::Space) as int)) == fields(s),
{
    let a = run(s, CharClass::Space);
    let rest = s.skip(a as int);
    lemma_run(s, CharClass::Space);
    if a < s.len() {
        assert(rest[0] == s[a as int]);
    }
    lemma_run_is(rest, CharClass::Space, 0);
    assert(rest.skip(0) =~= rest);
    let n = run(rest, CharClass::Visible);
    lemma_run(rest, CharClass::Visible);
    assert(rest.subrange(0, n as int) =~= s.subrange(a as int, (a + n) as int));
    assert(rest.skip(n as int) =~= s.skip((a + n) as int));
}

/// Trimming a text changes none of its fields.
pub proof fn lemma_fields_of_trimmed(s: Seq<char>)
    ensures
        fields(trim(s)) == fields(s),
{
    let a = run(s, CharClass::Space);
    let b = run_back(s, CharClass::Space);
    lemma_run(s, CharClass::Space);
    lemma_run_back(s, CharClass::Space);
    lemma_fields_ignore_leading_space(s);
    let rest = s.skip(a as int);
    if a == s.len() {
        assert(rest =~= Seq::<char>::empty());
    } else {
        if s.len() - b <= a {
            assert(CharClass::Space.holds(s[a as int]));
        }
        let m = s.len() - b - a;
        assert(trim(s) =~= rest.take(m));
        assert forall|i: int| m <= i < rest.len() implies is_space(#[trigger] rest[i]) by {
            assert(rest[i] == s[a + i]);
        }
        lemma_fields_ignore_trailing_space(rest, m);
    }
}

/// The characters of a string slice.
pub fn to_chars(s: &str) -> (v: Vec<char>)
    ensures
        v@ == s@,
{
    let mut v: Vec<char> = Vec::new();
    for c in it: s.chars()
        invariant
            it.seq() == s@,
            v@ == it.seq().take(it.index()),
    {
        v.push(c);
        assert(it.seq().take(it.index() + 1) =~= it.seq().take(it.index()).push(c));
    }
    assert(v@ =~= s@);
    v
}

/// The string made of `cs[from..to]`.
pub fn to_text(cs: &Vec<char>, from: usize, to: usize) -> (t: String)
    requires
        from <= to <= cs.len(),
    ensures
        t@ == cs@.subrange(from as int, to as int),
{
    let mut t = String::new();
    let mut i: usize = from;
    while i < to
        invariant
            from <= i <= to <= cs.len(),
            t@ == cs@.subrange(from as int, i as int),
        decreases to - i,
    {
        t.push(cs[i]);
        assert(cs@.subrange(from as int, i + 1) =~= cs@.subrange(from as int, i as int).push(
            cs@[i as int],
        ));
        i += 1;
    }
    assert(cs@.subrange(from as int, from as int) =~= Seq::<char>::empty());
    t
}

/// A copy of `cs[from..to]`.
pub fn slice(cs: &Vec<char>, from: usize, to: usize) -> (r: Vec<char>)
    requires
        from <= to <= cs.len(),
    ensures
        r@ == cs@.subrange(from as int, to as int),
{
    let mut r: Vec<char> = Vec::new();
    let mut i: usize = from;
    while i < to
        invariant
            from <= i <= to <= cs.len(),
            r@ == cs@.subrange(from as int, i as int),
        decreases to - i,
    {
        r.push(cs[i]);
        assert(cs@.subrange(from as int, i + 1) =~= cs@.subrange(from as int, i as int).push(
            cs@[i as int],
        ));
        i += 1;
    }
    assert(cs@.subrange(from as int, from as int) =~= Seq::<char>::empty());
    r
}

/// Whether the characters spell the word.
pub fn chars_eq(cs: &Vec<char>, word: &str) -> (r: bool)
    ensures
        r == (cs@ == word@),
{
    let w = to_chars(word);
    if w.len() != cs.len() {
        return false;
    }
    let mut i: usize = 0;
    while i < w.len()
        invariant
            i <= w.len(),
            w.len() == cs.len(),
            w@ == word@,
            forall|j: int| 0 <= j < i ==> cs@[j] == w@[j],
        decreases w.len() - i,
    {
        if cs[i] != w[i] {
            return false;
        }
        i += 1;
    }
    assert(cs@ =~= w@);
    true
}

/// Whether the characters start with the word.
pub fn has_prefix(cs: &Vec<char>, word: &str) -> (r: bool)
    ensures
        r == word@.is_prefix_of(cs@),
{
    let w = to_chars(word);
    if w.len() > cs.len() {
        return false;
    }
    let mut i: usize = 0;
    while i < w.len()
        invariant
            i <= w.len() <= cs.len(),
            w@ == word@,
            forall|j: int| 0 <= j < i ==> cs@[j] == w@[j],
        decreases w.len() - i,
    {
        if cs[i] != w[i] {
            assert(cs@.subrange(0, w.len() as int)[i as int] == cs@[i as int]);
            return false;
        }
        i += 1;
    }
    assert(w@ =~= cs@.subrange(0, w.len() as int));
    true
}

/// Whether two string slices hold the same characters.
pub fn text_eq(a: &str, b: &str) -> (r: bool)
    ensures
        r == (a@ == b@),
{
    let x = a.to_string();
    let y = b.to_string();
    x == y
}

/// End of the run of `class` that starts at `from` inside `cs[..to]`.
pub fn scan(cs: &Vec<char>, from: usize, to: usize, class: CharClass) -> (k: usize)
    requires
        from <= to <= cs.len(),
    ensures
        from <= k <= to,
        k == from + run(cs@.subrange(from as int, to as int), class),
{
    let mut k: usize = from;
    while k < to && class.contains(cs[k])
        invariant
            from <= k <= to <= cs.len(),
            forall|i: int| from <= i < k ==> class.holds(#[trigger] cs@[i]),
        decreases to - k,
    {
        k += 1;
    }
    proof {
        lemma_run_is(cs@.subrange(from as int, to as int), class, (k - from) as nat);
    }
    k
}

/// Start of the run of `class` that ends at `to` inside `cs[from..]`.
pub fn scan_back(cs: &Vec<char>, from: usize, to: usize, class: CharClass) -> (k: usize)
    requires
        from <= to <= cs.len(),
    ensures
        from <= k <= to,
        k == to - run_back(cs@.subrange(from as int, to as int), class),
{
    let mut k: usize = to;
    while k > from && class.contains(cs[k - 1])
        invariant
            from <= k <= to <= cs.len(),
            forall|i: int| k <= i < to ==> class.holds(#[trigger] cs@[i]),
        decreases k - from,
    {
        k -= 1;
    }
    proof {
        let s = cs@.subrange(from as int, to as int);
        assert forall|i: int| s.len() - (to - k) <= i < s.len() implies class.holds(
            #[trigger] s[i],
        ) by {
            assert(s[i] == cs@[from + i]);
        }
        lemma_run_back_is(s, class, (to - k) as nat);
    }
    k
}

/// The bounds of `cs[from..to]` without its leading and trailing white space.
pub fn trim_range(cs: &Vec<char>, from: usize, to: usize) -> (r: (usize, usize))
    requires
        from <= to <= cs.len(),
    ensures
        from <= r.0 <= r.1 <= to,
        cs@.subrange(r.0 as int, r.1 as int) == trim(cs@.subrange(from as int, to as int)),
{
    let ghost s = cs@.subrange(from as int, to as int);
    let a = scan(cs, from, to, CharClass::Space);
    if a == to {
        assert(cs@.subrange(to as int, to as int) =~= Seq::<char>::empty());
        (to, to)
    } else {
        let b = scan_back(cs, from, to, CharClass::Space);
        proof {
            lemma_run(s, CharClass::Space);
            lemma_run_back(s, CharClass::Space);
            // the character that stops the leading run is not white space,
            // so the trailing run cannot reach it
            if b <= a {
                assert(CharClass::Space.holds(s[a - from]));
            }
            assert(cs@.subrange(a as int, b as int) =~= s.subrange(a - from, b - from));
        }
        (a, b)
    }
}

/// A copy of `cs[from..to]` without its leading and trailing white space.
pub fn trimmed(cs: &Vec<char>, from: usize, to: usize) -> (r: Vec<char>)
    requires
        from <= to <= cs.len(),
    ensures
        r@ == trim(cs@.subrange(from as int, to as int)),
{
    let (a, b) = trim_range(cs, from, to);
    slice(cs, a, b)
}

/// Splits a line into its fields.
pub fn split_fields(line: &str) -> (parts: Vec<String>)
    ensures
        texts(parts@) == fields(line@),
{
    let cs = to_chars(line);
    let mut parts: Vec<String> = Vec::new();
    let mut i: usize = 0;
    proof {
        assert(cs@.skip(0) =~= cs@);
        assert(texts(parts@) + fields(cs@) =~= fields(cs@));
    }
    loop
        invariant
            i <= cs.len(),
            cs@ == line@,
            texts(parts@) + fields(cs@.skip(i as int)) == fields(cs@),
        decreases cs.len() - i,
    {
        let ghost rest = cs@.skip(i as int);
        let a = scan(&cs, i, cs.len(), CharClass::Space);
        let b = scan(&cs, a, cs.len(), CharClass::Visible);
        proof {
            assert(cs@.subrange(i as int, cs.len() as int) =~= rest);
            assert(cs@.subrange(a as int, cs.len() as int) =~= rest.skip(a - i));
        }
        if b == a {
            proof {
                assert(fields(rest) =~= Seq::<Seq<char>>::empty());
                assert(texts(parts@) + fields(rest) =~= texts(parts@));
            }
            return parts;
        }
        let field = to_text(&cs, a, b);
        proof {
            let ghost before = texts(parts@);
            assert(cs@.subrange(a as int, b as int) =~= rest.subrange(a - i, b - i));
            assert(rest.skip(b - i) =~= cs@.skip(b as int));
            assert(fields(rest) == seq![field@] + fields(cs@.skip(b as int)));
            assert(texts(parts@.push(field)) =~= before + seq![field@]);
            assert(before + seq![field@] + fields(cs@.skip(b as int)) =~= before + fields(rest));
        }
        parts.push(field);
        i = b;
    }
}

/// Splits a text into its lines.
pub fn split_lines(content: &str) -> (out: Vec<String>)
    ensures
        texts(out@) == lines(content@),
{
    let cs = to_chars(content);
    let mut out: Vec<String> = Vec::new();
    let mut i: usize = 0;
    proof {
        assert(cs@.skip(0) =~= cs@);
        assert(texts(out@) + lines(cs@) =~= lines(cs@));
    }
    while i < cs.len()
        invariant
            i <= cs.len(),
            cs@ == content@,
            texts(out@) + lines(cs@.skip(i as int)) == lines(cs@),
        decreases cs.len() - i,
    {
        let ghost rest = cs@.skip(i as int);
        let ghost before = texts(out@);
        let e = scan(&cs, i, cs.len(), CharClass::Not('\n'));
        let line = to_text(&cs, i, e);
        proof {
            assert(cs@.subrange(i as int, cs.len() as int) =~= rest);
            assert(cs@.subrange(i as int, e as int) =~= rest.take(e - i));
            assert(texts(out@.push(line)) =~= before + seq![line@]);
        }
        out.push(line);
        if e == cs.len() {
            proof {
                assert(rest.take(e - i) =~= rest);
                assert(lines(cs@.skip(e as int)) =~= Seq::<Seq<char>>::empty());
                assert(before + seq![line@] + lines(cs@.skip(e as int)) =~= before + lines(rest));
            }
            i = e;
        } else {
            proof {
                assert(rest.skip(e - i + 1) =~= cs@.skip(e + 1));
                assert(before + seq![line@] + lines(cs@.skip(e + 1)) =~= before + lines(rest));
            }
            i = e + 1;
        }
    }
    proof {
        assert(lines(cs@.skip(i as int)) =~= Seq::<Seq<char>>::empty());
        assert(texts(out@) + lines(cs@.skip(i as int)) =~= texts(out@));
    }
    out
}

/// Joins `parts[from..]` with single blanks.
pub fn join_fields(parts: &Vec<String>, from: usize) -> (t: String)
    ensures
        t@ == join_from(texts(parts@), from as int),
{
    let mut t = String::new();
    if from >= parts.len() {
        return t;
    }
    let mut i: usize = parts.len() - 1;
    t.append(parts[i].as_str());
    while i > from
        invariant
            from <= i < parts.len(),
            t@ == join_from(texts(parts@), i as int),
        decreases i,
    {
        i -= 1;
        let mut head = String::new();
        head.append(parts[i].as_str());
        head.push(' ');
        head.append(t.as_str());
        t = head;
    }
    t
}

} // verus!
