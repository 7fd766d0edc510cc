//! Naming conventions: the lower-snake, Pascal and lower-camel forms of a name.
//!
//! Which characters are upper or lower case, and what they map to, is decided
//! by std's Unicode tables. Those tables are named here, not restated; each
//! transform is split into the part that consults them and a part that takes
//! their answers as plain values and has an exact contract.
use vstd::prelude::*;
use crate::text::{push_char, push_chars, to_chars};

verus! {

/// The convention in which a name is stored.
#[derive(Debug, Clone, Copy, PartialEq, Eq, Hash, Structural)]
pub enum NameCase {
    /// `lower_snake`
    Snake,
    /// `PascalCase`
    Pascal,
}

/// Whether std's `char::is_uppercase` holds of `c`.
pub uninterp spec fn char_is_uppercase(c: char) -> bool;

/// Whether std's `char::is_lowercase` holds of `c`.
pub uninterp spec fn char_is_lowercase(c: char) -> bool;

/// The characters that std's `char::to_lowercase` yields for `c`.
pub uninterp spec fn char_to_lowercase(c: char) -> Seq<char>;

/// The characters that std's `char::to_uppercase` yields for `c`.
pub uninterp spec fn char_to_uppercase(c: char) -> Seq<char>;

/// Calls `char::is_uppercase` of std; the contract only names its answer.
#[verifier::external_body]
fn is_uppercase(c: char) -> (r: bool)
    ensures
        r == char_is_uppercase(c),
{
    c.is_uppercase()
}

/// Calls `char::is_lowercase` of std; the contract only names its answer.
#[verifier::external_body]
fn is_lowercase(c: char) -> (r: bool)
    ensures
        r == char_is_lowercase(c),
{
    c.is_lowercase()
}

/// Calls `char::to_lowercase` of std and collects what its iterator yields.
/// The contract names the characters; nothing is claimed of their number.
#[verifier::external_body]
fn to_lowercase(c: char) -> (r: Vec<char>)
    ensures
        r@ == char_to_lowercase(c),
{
    c.to_lowercase().collect()
}

/// Calls `char::to_uppercase` of std and collects what its iterator yields.
/// The contract names the characters; nothing is claimed of their number.
#[verifier::external_body]
fn to_uppercase(c: char) -> (r: Vec<char>)
    ensures
        r@ == char_to_uppercase(c),
{
    c.to_uppercase().collect()
}

/// The views of the rows of `v`, in order.
pub open spec fn rows_of(v: Seq<Vec<char>>) -> Seq<Seq<char>> {
    Seq::new(v.len(), |i: int| v[i]@)
}

/// For each character of `s`, whether it is upper case.
pub open spec fn uppers_of(s: Seq<char>) -> Seq<bool> {
    Seq::new(s.len(), |i: int| char_is_uppercase(s[i]))
}

/// For each character of `s`, whether it is lower case.
pub open spec fn lowers_of(s: Seq<char>) -> Seq<bool> {
    Seq::new(s.len(), |i: int| char_is_lowercase(s[i]))
}

/// For each character of `s`, its lower-case mapping.
pub open spec fn lowered_of(s: Seq<char>) -> Seq<Seq<char>> {
    Seq::new(s.len(), |i: int| char_to_lowercase(s[i]))
}

/// For each character of `s`, its upper-case mapping.
pub open spec fn raised_of(s: Seq<char>) -> Seq<Seq<char>> {
    Seq::new(s.len(), |i: int| char_to_uppercase(s[i]))
}

/// Whether `flags` has an entry `i` and it is set.
pub open spec fn flag(flags: Seq<bool>, i: int) -> bool {
    0 <= i < flags.len() && flags[i]
}

/// What character `i` of `s` contributes to the snake form. An upper-case
/// character contributes the first character of its lower-case mapping (itself
/// if the mapping is missing or empty), with `'_'` before it when it is not the
/// first character of `s` and a lower-case character follows. Any other
/// character contributes itself.
pub open spec fn snake_piece(
    s: Seq<char>,
    upper: Seq<bool>,
    lower: Seq<bool>,
    lowered: Seq<Seq<char>>,
    i: int,
) -> Seq<char> {
    if flag(upper, i) {
        let small = if i < lowered.len() && lowered[i].len() > 0 {
            lowered[i][0]
        } else {
            s[i]
        };
        if 0 < i && i + 1 < s.len() && flag(lower, i + 1) {
            seq!['_', small]
        } else {
            seq![small]
        }
    } else {
        seq![s[i]]
    }
}

/// The contributions of the first `n` characters of `s` to the snake form.
pub open spec fn snake_prefix(
    s: Seq<char>,
    upper: Seq<bool>,
    lower: Seq<bool>,
    lowered: Seq<Seq<char>>,
    n: int,
) -> Seq<char>
    decreases n,
{
    if n <= 0 {
        Seq::empty()
    } else {
        snake_prefix(s, upper, lower, lowered, n - 1) + snake_piece(s, upper, lower, lowered, n - 1)
    }
}

/// The snake form of `s`, given the case tables' answers for its characters.
pub open spec fn snake_with_spec(
    s: Seq<char>,
    upper: Seq<bool>,
    lower: Seq<bool>,
    lowered: Seq<Seq<char>>,
) -> Seq<char> {
    snake_prefix(s, upper, lower, lowered, s.len() as int)
}

/// The snake form of `s`: split before each upper-case character that is
/// followed by a lower-case one, and made lower case.
pub open spec fn snake_case_spec(s: Seq<char>) -> Seq<char> {
    snake_with_spec(s, uppers_of(s), lowers_of(s), lowered_of(s))
}

/// What character `i` of `t` contributes when the segments of `t` between
/// `'_'` are capitalized and run together: nothing for `'_'`, the upper-case
/// mapping for the first character of a segment (itself if the mapping is
/// missing), itself otherwise.
pub open spec fn capital_piece(t: Seq<char>, raised: Seq<Seq<char>>, i: int) -> Seq<char> {
    if t[i] == '_' {
        Seq::empty()
    } else if i == 0 || t[i - 1] == '_' {
        if i < raised.len() {
            raised[i]
        } else {
            seq![t[i]]
        }
    } else {
        seq![t[i]]
    }
}

/// The contributions of the first `n` characters of `t`.
pub open spec fn capital_prefix(t: Seq<char>, raised: Seq<Seq<char>>, n: int) -> Seq<char>
    decreases n,
{
    if n <= 0 {
        Seq::empty()
    } else {
        capital_prefix(t, raised, n - 1) + capital_piece(t, raised, n - 1)
    }
}

/// The segments of `t` capitalized and run together, given the upper-case
/// mappings of its characters.
pub open spec fn capitalize_with_spec(t: Seq<char>, raised: Seq<Seq<char>>) -> Seq<char> {
    capital_prefix(t, raised, t.len() as int)
}

/// The segments of `t` between `'_'`, each with its first character in upper
/// case, run together.
pub open spec fn capitalize_spec(t: Seq<char>) -> Seq<char> {
    capitalize_with_spec(t, raised_of(t))
}

/// `p` with `first` in place of its first character; empty if `p` is.
pub open spec fn lower_first_with_spec(p: Seq<char>, first: Seq<char>) -> Seq<char> {
    if p.len() == 0 {
        Seq::empty()
    } else {
        first + p.skip(1)
    }
}

/// `p` with its first character in lower case.
pub open spec fn lower_first_spec(p: Seq<char>) -> Seq<char> {
    if p.len() == 0 {
        Seq::empty()
    } else {
        lower_first_with_spec(p, char_to_lowercase(p[0]))
    }
}

/// The Pascal form of `s`.
pub open spec fn pascal_case_spec(s: Seq<char>) -> Seq<char> {
    capitalize_spec(snake_case_spec(s))
}

/// The camel form of `s`.
pub open spec fn camel_case_spec(s: Seq<char>) -> Seq<char> {
    lower_first_spec(pascal_case_spec(s))
}

/// Whether no character of `s` is upper case.
pub open spec fn is_snake_case(s: Seq<char>) -> bool {
    forall|i: int| 0 <= i < s.len() ==> !char_is_uppercase(#[trigger] s[i])
}

/// The snake form of `chars` from the case tables' answers: `upper[i]` and
/// `lower[i]` say whether character `i` is upper or lower case, `lowered[i]` is
/// its lower-case mapping. A missing entry counts as "no" or "itself".
pub fn snake_case_with(
    chars: &Vec<char>,
    upper: &Vec<bool>,
    lower: &Vec<bool>,
    lowered: &Vec<Vec<char>>,
) -> (r: String)
    ensures
        r@ == snake_with_spec(chars@, upper@, lower@, rows_of(lowered@)),
{
    let mut out = String::new();
    let mut i: usize = 0;
    while i < chars.len()
        invariant
            i <= chars.len(),
            out@ == snake_prefix(chars@, upper@, lower@, rows_of(lowered@), i as int),
        decreases chars.len() - i,
    {
        let c = chars[i];
        if i < upper.len() && upper[i] {
            let small = if i < lowered.len() && lowered[i].len() > 0 {
                lowered[i][0]
            } else {
                c
            };
            if 0 < i && i + 1 < chars.len() && i + 1 < lower.len() && lower[i + 1] {
                push_char(&mut out, '_');
            }
            push_char(&mut out, small);
        } else {
            push_char(&mut out, c);
        }
        assert(out@ =~= snake_prefix(chars@, upper@, lower@, rows_of(lowered@), i as int)
            + snake_piece(chars@, upper@, lower@, rows_of(lowered@), i as int));
        i += 1;
    }
    out
}

/// The segments of `chars` capitalized and run together, from the upper-case
/// mappings `raised[i]` of its characters. A missing entry counts as "itself".
pub fn capitalize_with(chars: &Vec<char>, raised: &Vec<Vec<char>>) -> (r: String)
    ensures
        r@ == capitalize_with_spec(chars@, rows_of(raised@)),
{
    let mut out = String::new();
    let mut i: usize = 0;
    while i < chars.len()
        invariant
            i <= chars.len(),
            out@ == capital_prefix(chars@, rows_of(raised@), i as int),
        decreases chars.len() - i,
    {
        let c = chars[i];
        if c != '_' {
            if (i == 0 || chars[i - 1] == '_') && i < raised.len() {
                push_chars(&mut out, &raised[i]);
            } else {
                push_char(&mut out, c);
            }
        }
        assert(out@ =~= capital_prefix(chars@, rows_of(raised@), i as int) + capital_piece(
            chars@,
            rows_of(raised@),
            i as int,
        ));
        i += 1;
    }
    out
}

/// `chars` with the characters of `first` in place of its first character.
pub fn lower_first_with(chars: &Vec<char>, first: &Vec<char>) -> (r: String)
    ensures
        r@ == lower_first_with_spec(chars@, first@),
{
    let mut out = String::new();
    if chars.len() == 0 {
        return out;
    }
    push_chars(&mut out, first);
    let mut i: usize = 1;
    while i < chars.len()
        invariant
            1 <= i <= chars.len(),
            out@ == first@ + chars@.subrange(1, i as int),
        decreases chars.len() - i,
    {
        push_char(&mut out, chars[i]);
        i += 1;
    }
    out
}

/// The snake form of `s`.
pub fn snake_case(s: &str) -> (r: String)
    ensures
        r@ == snake_case_spec(s@),
{
    let chars = to_chars(s);
    let mut upper: Vec<bool> = Vec::new();
    let mut lower: Vec<bool> = Vec::new();
    let mut lowered: Vec<Vec<char>> = Vec::new();
    let mut i: usize = 0;
    while i < chars.len()
        invariant
            i <= chars.len(),
            upper@ =~= uppers_of(chars@).take(i as int),
            lower@ =~= lowers_of(chars@).take(i as int),
            lowered.len() == i,
            rows_of(lowered@) =~= lowered_of(chars@).take(i as int),
        decreases chars.len() - i,
    {
        upper.push(is_uppercase(chars[i]));
        lower.push(is_lowercase(chars[i]));
        let ghost before = lowered@;
        lowered.push(to_lowercase(chars[i]));
        i += 1;
        assert forall|k: int| 0 <= k < i implies #[trigger] rows_of(lowered@)[k] == lowered_of(
            chars@,
        )[k] by {
            if k < i - 1 {
                assert(rows_of(before)[k] == lowered_of(chars@).take(i - 1)[k]);
            }
        }
    }
    assert(upper@ =~= uppers_of(chars@));
    assert(lower@ =~= lowers_of(chars@));
    assert(rows_of(lowered@) =~= lowered_of(chars@));
    snake_case_with(&chars, &upper, &lower, &lowered)
}

/// The segments of `t` between `'_'`, each with its first character in upper
/// case, run together.
pub fn capitalize(t: &str) -> (r: String)
    ensures
        r@ == capitalize_spec(t@),
{
    let chars = to_chars(t);
    let mut raised: Vec<Vec<char>> = Vec::new();
    let mut i: usize = 0;
    while i < chars.len()
        invariant
            i <= chars.len(),
            raised.len() == i,
            rows_of(raised@) =~= raised_of(chars@).take(i as int),
        decreases chars.len() - i,
    {
        let ghost before = raised@;
        raised.push(to_uppercase(chars[i]));
        i += 1;
        assert forall|k: int| 0 <= k < i implies #[trigger] rows_of(raised@)[k] == raised_of(
            chars@,
        )[k] by {
            if k < i - 1 {
                assert(rows_of(before)[k] == raised_of(chars@).take(i - 1)[k]);
            }
        }
    }
    assert(rows_of(raised@) =~= raised_of(chars@));
    capitalize_with(&chars, &raised)
}

/// `p` with its first character in lower case.
pub fn lower_first(p: &str) -> (r: String)
    ensures
        r@ == lower_first_spec(p@),
{
    let chars = to_chars(p);
    if chars.len() == 0 {
        return String::new();
    }
    let first = to_lowercase(chars[0]);
    lower_first_with(&chars, &first)
}

/// The Pascal form of `s`: the segments of its snake form capitalized.
pub fn pascal_case(s: &str) -> (r: String)
    ensures
        r@ == pascal_case_spec(s@),
{
    let snake = snake_case(s);
    capitalize(snake.as_str())
}

/// The camel form of `s`: its Pascal form with the first character lowered.
pub fn camel_case(s: &str) -> (r: String)
    ensures
        r@ == camel_case_spec(s@),
{
    let pascal = pascal_case(s);
    lower_first(pascal.as_str())
}

/// The snake form of a name stored as `name` in the convention `case`: the
/// name itself if it is stored in snake form; else what the snake transform
/// makes of its camel form.
pub open spec fn snake_form(case: NameCase, name: Seq<char>) -> Seq<char> {
    match case {
        NameCase::Snake => name,
        NameCase::Pascal => snake_case_spec(lower_first_spec(name)),
    }
}

/// The Pascal form of a name stored as `name` in the convention `case`: the
/// name itself if it is stored in Pascal form; else its segments,
/// capitalized.
pub open spec fn pascal_form(case: NameCase, name: Seq<char>) -> Seq<char> {
    match case {
        NameCase::Pascal => name,
        NameCase::Snake => capitalize_spec(name),
    }
}

/// The camel form of a name stored as `name` in the convention `case`: its
/// Pascal form with the first character lowered.
pub open spec fn camel_form(case: NameCase, name: Seq<char>) -> Seq<char> {
    lower_first_spec(pascal_form(case, name))
}

/// A named entity. It stores its name once, in one convention, and the three
/// forms are derived from that.
pub trait Named {
    /// The stored name.
    spec fn name_model(&self) -> Seq<char>;

    /// The convention in which the name is stored.
    spec fn case_model(&self) -> NameCase;

    /// The stored name.
    fn stored_name(&self) -> (r: String)
        ensures
            r@ == self.name_model(),
    ;

    /// The convention in which the name is stored.
    fn stored_case(&self) -> (r: NameCase)
        ensures
            r == self.case_model(),
    ;

    /// The name in `lower_snake` form.
    fn snake_case_name(&self) -> (r: String)
        ensures
            r@ == snake_form(self.case_model(), self.name_model()),
    {
        let name = self.stored_name();
        match self.stored_case() {
            NameCase::Snake => name,
            NameCase::Pascal => {
                let camel = lower_first(name.as_str());
                snake_case(camel.as_str())
            },
        }
    }

    /// The name in `PascalCase` form.
    fn pascal_case_name(&self) -> (r: String)
        ensures
            r@ == pascal_form(self.case_model(), self.name_model()),
    {
        let name = self.stored_name();
        match self.stored_case() {
            NameCase::Pascal => name,
            NameCase::Snake => capitalize(name.as_str()),
        }
    }

    /// The name in `lowerCamel` form.
    fn camel_case_name(&self) -> (r: String)
        ensures
            r@ == camel_form(self.case_model(), self.name_model()),
    {
        let pascal = self.pascal_case_name();
        lower_first(pascal.as_str())
    }
}

/// The snake form leaves a name without upper-case characters as it is.
pub proof fn lemma_snake_case_keeps_snake(s: Seq<char>)
    requires
        is_snake_case(s),
    ensures
        snake_case_spec(s) == s,
{
    lemma_snake_prefix_keeps(s, s.len() as int);
}

proof fn lemma_snake_prefix_keeps(s: Seq<char>, n: int)
    requires
        is_snake_case(s),
        0 <= n <= s.len(),
    ensures
        snake_prefix(s, uppers_of(s), lowers_of(s), lowered_of(s), n) == s.take(n),
    decreases n,
{
    if n > 0 {
        lemma_snake_prefix_keeps(s, n - 1);
    }
}

/// The first character of the upper-case mapping of `c`.
pub open spec fn raised_first(c: char) -> char {
    char_to_uppercase(c)[0]
}

/// Whether a word begins at character `i` of `t`: the character is not `'_'`
/// and stands first or after a `'_'`.
pub open spec fn starts_word(t: Seq<char>, i: int) -> bool {
    t[i] != '_' && (i == 0 || t[i - 1] == '_')
}

/// Whether nothing but `'_'` stands before character `i` of `t`.
pub open spec fn is_first_word(t: Seq<char>, i: int) -> bool {
    forall|k: int| 0 <= k < i ==> #[trigger] t[k] == '_'
}

/// Whether the word that begins at character `i` of `t` can be told apart
/// again in the camel form of `t`. Its first character has an upper-case
/// mapping of one character, which is not `'_'`. For the first word that
/// mapping is upper case and has the character as its lower-case mapping, or
/// it is its own upper-case and lower-case mapping. For a later word whose
/// capital is upper case, the lower-case mapping of the capital begins with
/// the character, and a lower-case character follows the character.
pub open spec fn word_is_separable(t: Seq<char>, i: int) -> bool {
    let u = raised_first(t[i]);
    &&& char_to_uppercase(t[i]).len() == 1
    &&& u != '_'
    &&& is_first_word(t, i) ==> if char_is_uppercase(u) {
        char_to_lowercase(u) == seq![t[i]]
    } else {
        char_to_lowercase(u) == seq![u] && char_to_uppercase(u) == seq![u]
    }
    &&& !is_first_word(t, i) && char_is_uppercase(u) ==> {
        &&& char_to_lowercase(u).len() > 0
        &&& char_to_lowercase(u)[0] == t[i]
        &&& i + 1 < t.len()
        &&& t[i + 1] != '_'
        &&& char_is_lowercase(t[i + 1])
    }
}

/// Whether the words of the snake name `t` can be told apart again in its
/// camel form: the name has no upper-case character, and each of its words
/// can be told apart.
pub open spec fn is_separable(t: Seq<char>) -> bool {
    &&& is_snake_case(t)
    &&& forall|i: int|
        0 <= i < t.len() && #[trigger] starts_word(t, i) ==> word_is_separable(t, i)
}

/// How many of the first `n` characters of `t` are not `'_'`.
pub open spec fn kept(t: Seq<char>, n: int) -> int
    decreases n,
{
    if n <= 0 {
        0
    } else if t[n - 1] == '_' {
        kept(t, n - 1)
    } else {
        kept(t, n - 1) + 1
    }
}

/// The character that stands for character `i` of `t` in its capitalized
/// form.
pub open spec fn capital_of(t: Seq<char>, i: int) -> char {
    if i == 0 || t[i - 1] == '_' {
        raised_first(t[i])
    } else {
        t[i]
    }
}

proof fn lemma_kept_grows(t: Seq<char>, a: int, b: int)
    requires
        0 <= a <= b,
    ensures
        0 <= kept(t, a) <= kept(t, b),
        kept(t, b) - kept(t, a) <= b - a,
    decreases b - a,
{
    if a < b {
        lemma_kept_grows(t, a, b - 1);
    } else {
        lemma_kept_bounds(t, a);
    }
}

proof fn lemma_kept_bounds(t: Seq<char>, n: int)
    requires
        0 <= n,
    ensures
        0 <= kept(t, n) <= n,
    decreases n,
{
    if n > 0 {
        lemma_kept_bounds(t, n - 1);
    }
}

/// Nothing but `'_'` stands before a character exactly when no character
/// before it is kept.
proof fn lemma_first_word_keeps_none(t: Seq<char>, i: int)
    requires
        0 <= i,
    ensures
        is_first_word(t, i) <==> kept(t, i) == 0,
    decreases i,
{
    if i > 0 {
        lemma_first_word_keeps_none(t, i - 1);
        lemma_kept_bounds(t, i - 1);
        if is_first_word(t, i) {
            assert(t[i - 1] == '_');
            assert(is_first_word(t, i - 1));
        }
        if kept(t, i) == 0 {
            assert(t[i - 1] == '_');
            assert forall|k: int| 0 <= k < i implies #[trigger] t[k] == '_' by {
                if k < i - 1 {
                    assert(is_first_word(t, i - 1));
                }
            }
        }
    }
}

/// The character of `t` that is kept as number `j`.
proof fn lemma_kept_is_onto(t: Seq<char>, n: int, j: int) -> (i: int)
    requires
        0 <= n,
        0 <= j < kept(t, n),
    ensures
        0 <= i < n,
        t[i] != '_',
        kept(t, i) == j,
    decreases n,
{
    if t[n - 1] != '_' && kept(t, n - 1) == j {
        n - 1
    } else {
        lemma_kept_is_onto(t, n - 1, j)
    }
}

/// Whether the first character of each word of `t` has an upper-case
/// mapping of one character.
pub open spec fn has_single_capitals(t: Seq<char>) -> bool {
    forall|i: int|
        0 <= i < t.len() && #[trigger] starts_word(t, i) ==> char_to_uppercase(t[i]).len() == 1
}

/// The capitalized form of a name whose words have single capitals holds one
/// character for each character of the name that is not `'_'`, in order.
proof fn lemma_capital_prefix(t: Seq<char>, n: int)
    requires
        has_single_capitals(t),
        0 <= n <= t.len(),
    ensures
        capital_prefix(t, raised_of(t), n).len() == kept(t, n),
        forall|i: int|
            0 <= i < n && t[i] != '_' ==> capital_prefix(t, raised_of(t), n)[#[trigger] kept(t, i)]
                == capital_of(t, i),
    decreases n,
{
    if n > 0 {
        lemma_capital_prefix(t, n - 1);
        let before = capital_prefix(t, raised_of(t), n - 1);
        let piece = capital_piece(t, raised_of(t), n - 1);
        let now = capital_prefix(t, raised_of(t), n);
        assert(now == before + piece);
        if t[n - 1] == '_' {
            assert(now =~= before);
        } else {
            if n - 1 == 0 || t[n - 2] == '_' {
                assert(starts_word(t, n - 1));
            }
            assert(piece =~= seq![capital_of(t, n - 1)]);
            assert(now =~= before.push(capital_of(t, n - 1)));
        }
        assert forall|i: int| 0 <= i < n && t[i] != '_' implies now[#[trigger] kept(t, i)]
            == capital_of(t, i) by {
            lemma_kept_grows(t, i, n - 1);
            if i < n - 1 {
                lemma_kept_grows(t, i + 1, n - 1);
                assert(kept(t, i + 1) == kept(t, i) + 1);
                assert(now[kept(t, i)] == before[kept(t, i)]);
            }
        }
    }
}

/// Each character contributes one or two characters to the snake form, and
/// what the first `j` characters contribute stands at the beginning of what
/// the first `k` contribute.
proof fn lemma_snake_prefix_extends(p: Seq<char>, j: int, k: int)
    requires
        0 <= j <= k,
    ensures
        j <= snake_prefix(p, uppers_of(p), lowers_of(p), lowered_of(p), j).len() <= snake_prefix(
            p,
            uppers_of(p),
            lowers_of(p),
            lowered_of(p),
            k,
        ).len(),
        snake_prefix(p, uppers_of(p), lowers_of(p), lowered_of(p), k).take(
            snake_prefix(p, uppers_of(p), lowers_of(p), lowered_of(p), j).len() as int,
        ) == snake_prefix(p, uppers_of(p), lowers_of(p), lowered_of(p), j),
    decreases k - j,
{
    let sj = snake_prefix(p, uppers_of(p), lowers_of(p), lowered_of(p), j);
    if j == k {
        lemma_snake_prefix_is_long(p, j);
        assert(sj.take(sj.len() as int) =~= sj);
    } else {
        lemma_snake_prefix_extends(p, j, k - 1);
        let sk = snake_prefix(p, uppers_of(p), lowers_of(p), lowered_of(p), k - 1);
        let piece = snake_piece(p, uppers_of(p), lowers_of(p), lowered_of(p), k - 1);
        assert((sk + piece).take(sj.len() as int) =~= sk.take(sj.len() as int));
    }
}

proof fn lemma_snake_prefix_is_long(p: Seq<char>, j: int)
    requires
        0 <= j,
    ensures
        j <= snake_prefix(p, uppers_of(p), lowers_of(p), lowered_of(p), j).len(),
    decreases j,
{
    if j > 0 {
        lemma_snake_prefix_is_long(p, j - 1);
    }
}

/// The words of a separable name are found again in the snake form of its
/// capitalized form: what the first `j` characters of the capitalized form
/// contribute to that snake form is capitalized to those `j` characters.
proof fn lemma_words_are_found_again(t: Seq<char>, j: int)
    requires
        is_separable(t),
        0 <= j <= capitalize_spec(t).len(),
    ensures
        ({
            let p = capitalize_spec(t);
            let q = snake_case_spec(p);
            let sj = snake_prefix(p, uppers_of(p), lowers_of(p), lowered_of(p), j);
            &&& sj.len() <= q.len()
            &&& capital_prefix(q, raised_of(q), sj.len() as int) == p.take(j)
            &&& j > 0 ==> sj.len() > 0 && sj.last() != '_'
        }),
    decreases j,
{
    let p = capitalize_spec(t);
    let q = snake_case_spec(p);
    let len = t.len() as int;
    lemma_snake_prefix_extends(p, j, p.len() as int);
    if j == 0 {
        assert(p.take(0) =~= Seq::<char>::empty());
    } else {
        let jj = j - 1;
        lemma_words_are_found_again(t, jj);
        lemma_snake_prefix_extends(p, jj, p.len() as int);
        lemma_capital_prefix(t, len);
        let i = lemma_kept_is_onto(t, len, jj);
        lemma_first_word_keeps_none(t, i);
        lemma_kept_grows(t, i + 1, len);
        assert(kept(t, i + 1) == jj + 1);
        assert(p[jj] == capital_of(t, i));
        assert(!char_is_uppercase(t[i]));
        let s0 = snake_prefix(p, uppers_of(p), lowers_of(p), lowered_of(p), jj);
        let s1 = snake_prefix(p, uppers_of(p), lowers_of(p), lowered_of(p), j);
        let piece = snake_piece(p, uppers_of(p), lowers_of(p), lowered_of(p), jj);
        assert(s1 == s0 + piece);
        assert(q.take(s1.len() as int) == s1);
        let at = s0.len() as int;
        assert forall|r: int| 0 <= r < piece.len() implies q[at + r] == piece[r] by {
            assert(q.take(s1.len() as int)[at + r] == s1[at + r]);
        }
        if jj > 0 {
            assert(q[at - 1] == s0.last()) by {
                assert(q.take(s1.len() as int)[at - 1] == s1[at - 1]);
            }
        }
        let u = raised_first(t[i]);
        let before = capital_prefix(q, raised_of(q), at);
        assert(before == p.take(jj));
        assert(p.take(j) =~= p.take(jj).push(p[jj]));
        if starts_word(t, i) && char_is_uppercase(u) && jj > 0 {
            assert(i + 1 < len && t[i + 1] != '_');
            lemma_kept_grows(t, i + 2, len);
            assert(kept(t, i + 2) == jj + 2);
            assert(p[jj + 1] == capital_of(t, i + 1));
            assert(capital_of(t, i + 1) == t[i + 1]);
            assert(flag(uppers_of(p), jj));
            assert(flag(lowers_of(p), jj + 1));
            assert(piece =~= seq!['_', t[i]]);
            assert(q[at] == '_');
            assert(q[at + 1] == t[i]);
            assert(capital_prefix(q, raised_of(q), at + 1) =~= before);
            assert(capital_piece(q, raised_of(q), at + 1) == char_to_uppercase(t[i]));
            assert(char_to_uppercase(t[i]) =~= seq![u]);
            assert(capital_prefix(q, raised_of(q), at + 2) =~= before.push(u));
            assert(s1.last() == t[i]);
        } else if starts_word(t, i) && char_is_uppercase(u) {
            assert(jj == 0);
            assert(at == 0);
            assert(flag(uppers_of(p), 0));
            assert(piece =~= seq![t[i]]);
            assert(q[0] == t[i]);
            assert(capital_piece(q, raised_of(q), 0) == char_to_uppercase(t[i]));
            assert(char_to_uppercase(t[i]) =~= seq![u]);
            assert(capital_prefix(q, raised_of(q), 1) =~= before.push(u));
            assert(s1.last() == t[i]);
        } else {
            assert(!flag(uppers_of(p), jj)) by {
                if starts_word(t, i) {
                    assert(p[jj] == u);
                } else {
                    assert(p[jj] == t[i]);
                }
            }
            assert(piece =~= seq![p[jj]]);
            assert(p[jj] != '_') by {
                if starts_word(t, i) {
                    assert(u != '_');
                }
            }
            assert(q[at] == p[jj]) by {
                assert(q[at + 0] == piece[0]);
            }
            if jj == 0 {
                assert(at == 0);
                assert(starts_word(t, i)) by {
                    if i > 0 {
                        assert(t[i - 1] == '_');
                    }
                }
                assert(char_to_uppercase(u) == seq![u]);
                assert(capital_piece(q, raised_of(q), 0) == seq![u]);
            } else {
                assert(q[at - 1] != '_');
                assert(at > 0);
                assert(capital_piece(q, raised_of(q), at) == seq![p[jj]]);
            }
            assert(capital_prefix(q, raised_of(q), at + 1) =~= before.push(p[jj]));
            assert(s1.last() == p[jj]);
        }
    }
}

/// The capitalized form of a separable name is its own Pascal form.
proof fn lemma_pascal_of_capitalized(t: Seq<char>)
    requires
        is_separable(t),
    ensures
        pascal_case_spec(capitalize_spec(t)) == capitalize_spec(t),
{
    let p = capitalize_spec(t);
    lemma_words_are_found_again(t, p.len() as int);
    assert(p.take(p.len() as int) =~= p);
}

/// Two texts that differ in their first character only, and agree in what
/// it contributes, have the same snake form.
proof fn lemma_snake_after_first(p: Seq<char>, c: Seq<char>, n: int)
    requires
        p.len() == c.len(),
        p.len() > 0,
        forall|i: int| 1 <= i < p.len() ==> p[i] == c[i],
        snake_piece(p, uppers_of(p), lowers_of(p), lowered_of(p), 0) == snake_piece(
            c,
            uppers_of(c),
            lowers_of(c),
            lowered_of(c),
            0,
        ),
        0 <= n <= p.len(),
    ensures
        snake_prefix(p, uppers_of(p), lowers_of(p), lowered_of(p), n) == snake_prefix(
            c,
            uppers_of(c),
            lowers_of(c),
            lowered_of(c),
            n,
        ),
    decreases n,
{
    if n > 0 {
        lemma_snake_after_first(p, c, n - 1);
        if n - 1 >= 1 {
            let i = n - 1;
            assert(p[i] == c[i]);
            if i + 1 < p.len() {
                assert(p[i + 1] == c[i + 1]);
            }
            assert(snake_piece(p, uppers_of(p), lowers_of(p), lowered_of(p), i) == snake_piece(
                c,
                uppers_of(c),
                lowers_of(c),
                lowered_of(c),
                i,
            ));
        }
    }
}

/// The camel form of a separable name has the snake form of its capitalized
/// form.
proof fn lemma_snake_of_camel(t: Seq<char>)
    requires
        is_separable(t),
    ensures
        snake_case_spec(lower_first_spec(capitalize_spec(t))) == snake_case_spec(
            capitalize_spec(t),
        ),
{
    let p = capitalize_spec(t);
    let c = lower_first_spec(p);
    let len = t.len() as int;
    lemma_capital_prefix(t, len);
    if p.len() > 0 {
        let i = lemma_kept_is_onto(t, len, 0);
        lemma_first_word_keeps_none(t, i);
        assert(starts_word(t, i)) by {
            if i > 0 {
                assert(t[i - 1] == '_');
            }
        }
        assert(p[0] == capital_of(t, i));
        let u = raised_first(t[i]);
        assert(p[0] == u);
        if char_is_uppercase(u) {
            assert(c =~= seq![t[i]] + p.skip(1));
            assert(c.len() == p.len());
            assert forall|k: int| 1 <= k < p.len() implies p[k] == c[k] by {
                assert(c[k] == p.skip(1)[k - 1]);
            }
            assert(!char_is_uppercase(t[i]));
            assert(!flag(uppers_of(c), 0));
            assert(flag(uppers_of(p), 0));
            assert(snake_piece(c, uppers_of(c), lowers_of(c), lowered_of(c), 0) =~= seq![t[i]]);
            assert(snake_piece(p, uppers_of(p), lowers_of(p), lowered_of(p), 0) =~= seq![t[i]]);
            lemma_snake_after_first(p, c, p.len() as int);
        } else {
            assert(c =~= p);
        }
    } else {
        assert(c =~= p);
    }
}

/// For a name whose snake form is separable, the camel form of the Pascal
/// form of the camel form is the camel form, and the Pascal form of its
/// camel form and of its Pascal form is its Pascal form.
pub proof fn lemma_camel_of_pascal_of_camel(s: Seq<char>)
    requires
        is_separable(snake_case_spec(s)),
    ensures
        camel_case_spec(pascal_case_spec(camel_case_spec(s))) == camel_case_spec(s),
        pascal_case_spec(camel_case_spec(s)) == pascal_case_spec(s),
        pascal_case_spec(pascal_case_spec(s)) == pascal_case_spec(s),
{
    let t = snake_case_spec(s);
    lemma_pascal_of_capitalized(t);
    lemma_snake_of_camel(t);
}

/// Whether the lower-case mapping of the first character of `s` is that
/// character. It is so of the empty name.
pub open spec fn begins_lower(s: Seq<char>) -> bool {
    s.len() == 0 || char_to_lowercase(s[0]) == seq![s[0]]
}

/// A name without upper-case characters is its own snake form in whichever
/// convention it is stored; for a name stored in Pascal form, where the
/// lower-case mapping of its first character is that character.
pub proof fn lemma_snake_form_of_a_snake_name(case: NameCase, s: Seq<char>)
    requires
        is_snake_case(s),
        case is Pascal ==> begins_lower(s),
    ensures
        snake_form(case, s) == s,
{
    lemma_snake_case_keeps_snake(s);
    if case is Pascal && s.len() > 0 {
        assert(lower_first_spec(s) =~= s);
    }
}

/// Whether a Pascal form that begins with `u` gets its camel form back. The
/// lower-case mapping of `u` is not empty and holds no `'_'`; its first
/// character has an upper-case mapping of one character, which is not `'_'`;
/// and that character has an upper-case mapping of one character, whose
/// lower-case mapping is the first character again.
pub open spec fn first_comes_back(u: char) -> bool {
    let low = char_to_lowercase(u);
    &&& low.len() > 0
    &&& forall|k: int| 0 <= k < low.len() ==> #[trigger] low[k] != '_'
    &&& char_to_uppercase(low[0]).len() == 1
    &&& raised_first(low[0]) != '_'
    &&& char_to_uppercase(raised_first(low[0])).len() == 1
    &&& char_to_lowercase(raised_first(raised_first(low[0]))) == seq![low[0]]
}

/// Whether the Pascal form `p` gets its camel form back when that is
/// capitalized and lowered again: it holds no `'_'`, and its first
/// character comes back.
pub open spec fn pascal_comes_back(p: Seq<char>) -> bool {
    &&& forall|j: int| 0 <= j < p.len() ==> #[trigger] p[j] != '_'
    &&& p.len() > 0 ==> first_comes_back(p[0])
}

/// Whether the Pascal form of a name stored as `s` in snake form gets its
/// camel form back.
pub open spec fn is_capitalizable(s: Seq<char>) -> bool {
    pascal_comes_back(capitalize_spec(s))
}

/// A text without `'_'` is capitalized by the upper-case mapping of its
/// first character.
proof fn lemma_capitalize_one_word(x: Seq<char>, n: int)
    requires
        forall|i: int| 0 <= i < x.len() ==> #[trigger] x[i] != '_',
        1 <= n <= x.len(),
    ensures
        capital_prefix(x, raised_of(x), n) == char_to_uppercase(x[0]) + x.subrange(1, n),
    decreases n,
{
    if n == 1 {
        assert(capital_prefix(x, raised_of(x), 0) =~= Seq::<char>::empty());
        assert(capital_piece(x, raised_of(x), 0) == char_to_uppercase(x[0]));
        assert(x.subrange(1, 1) =~= Seq::<char>::empty());
        assert(capital_prefix(x, raised_of(x), 1) =~= char_to_uppercase(x[0]) + x.subrange(1, 1));
    } else {
        lemma_capitalize_one_word(x, n - 1);
        assert(x[n - 1] != '_');
        assert(x[n - 2] != '_');
        assert(capital_piece(x, raised_of(x), n - 1) == seq![x[n - 1]]);
        assert(x.subrange(1, n) =~= x.subrange(1, n - 1).push(x[n - 1]));
        assert(capital_prefix(x, raised_of(x), n) =~= char_to_uppercase(x[0]) + x.subrange(
            1,
            n,
        ));
    }
}

/// A text without `'_'` that is not empty is capitalized by the upper-case
/// mapping of its first character.
proof fn lemma_capitalize_word(x: Seq<char>)
    requires
        forall|i: int| 0 <= i < x.len() ==> #[trigger] x[i] != '_',
        x.len() > 0,
    ensures
        capitalize_spec(x) == char_to_uppercase(x[0]) + x.skip(1),
{
    lemma_capitalize_one_word(x, x.len() as int);
    assert(x.subrange(1, x.len() as int) =~= x.skip(1));
}

/// For a capitalizable name stored in snake form, the camel form of the
/// Pascal form of the camel form is the camel form, where each form is
/// taken of a name that is stored in snake form again.
pub proof fn lemma_named_camel_of_pascal_of_camel(s: Seq<char>)
    requires
        is_capitalizable(s),
    ensures
        camel_form(NameCase::Snake, pascal_form(NameCase::Snake, camel_form(NameCase::Snake, s)))
            == camel_form(NameCase::Snake, s),
{
    let big = capitalize_spec(s);
    let c = lower_first_spec(big);
    if big.len() == 0 {
        assert(c =~= Seq::<char>::empty());
        assert(capitalize_spec(c) =~= Seq::<char>::empty());
    } else {
        let low = char_to_lowercase(big[0]);
        let rest = big.skip(1);
        let b = raised_first(low[0]);
        let d = raised_first(b);
        assert(c == low + rest);
        assert forall|j: int| 0 <= j < c.len() implies #[trigger] c[j] != '_' by {
            if j >= low.len() {
                assert(c[j] == big[j - low.len() + 1]);
            } else {
                assert(c[j] == low[j]);
            }
        }
        assert(c[0] == low[0]);
        assert(c.skip(1) =~= low.skip(1) + rest);
        lemma_capitalize_word(c);
        let p = capitalize_spec(c);
        assert(char_to_uppercase(low[0]) =~= seq![b]);
        assert(p =~= seq![b] + c.skip(1));
        assert forall|j: int| 0 <= j < p.len() implies #[trigger] p[j] != '_' by {
            if j > 0 {
                assert(p[j] == c[j]);
            }
        }
        lemma_capitalize_word(p);
        let again = capitalize_spec(p);
        assert(char_to_uppercase(b) =~= seq![d]);
        assert(p.skip(1) =~= c.skip(1));
        assert(again =~= seq![d] + c.skip(1));
        assert(again[0] == d);
        assert(again.skip(1) =~= c.skip(1));
        assert(lower_first_spec(again) =~= seq![low[0]] + c.skip(1));
        assert(seq![low[0]] + c.skip(1) =~= c);
    }
}

/// Whether `s` is in snake case already, that is, has no upper-case
/// character. Its snake form is then `s` itself.
pub fn is_snake_case_name(s: &str) -> (r: bool)
    ensures
        r == is_snake_case(s@),
        r ==> snake_case_spec(s@) == s@,
{
    let chars = to_chars(s);
    let mut i: usize = 0;
    while i < chars.len()
        invariant
            i <= chars.len(),
            chars@ == s@,
            forall|k: int| 0 <= k < i ==> !char_is_uppercase(#[trigger] chars@[k]),
        decreases chars.len() - i,
    {
        if is_uppercase(chars[i]) {
            assert(char_is_uppercase(s@[i as int]));
            return false;
        }
        i += 1;
    }
    proof {
        lemma_snake_case_keeps_snake(s@);
    }
    true
}

/// Whether `v` holds `c` and nothing else.
fn is_only(v: &Vec<char>, c: char) -> (r: bool)
    ensures
        r == (v@ == seq![c]),
{
    if v.len() == 1 && v[0] == c {
        assert(v@ =~= seq![c]);
        true
    } else {
        assert(seq![c].len() == 1 && seq![c][0] == c);
        false
    }
}

/// Whether the word that begins at character `i` can be told apart again.
fn word_can_be_told_apart(chars: &Vec<char>, i: usize, first: bool) -> (r: bool)
    requires
        i < chars.len(),
        first == is_first_word(chars@, i as int),
    ensures
        r == word_is_separable(chars@, i as int),
{
    let c = chars[i];
    let up = to_uppercase(c);
    if up.len() != 1 {
        return false;
    }
    let u = up[0];
    if u == '_' {
        return false;
    }
    let capital = is_uppercase(u);
    let low = to_lowercase(u);
    if first {
        if capital {
            is_only(&low, c)
        } else {
            let again = to_uppercase(u);
            is_only(&low, u) && is_only(&again, u)
        }
    } else if capital {
        low.len() > 0 && low[0] == c && i + 1 < chars.len() && chars[i + 1] != '_' && is_lowercase(
            chars[i + 1],
        )
    } else {
        true
    }
}

/// Whether the words of the snake name `t` can be told apart again in its
/// camel form.
pub fn is_separable_name(t: &str) -> (r: bool)
    ensures
        r == is_separable(t@),
{
    let chars = to_chars(t);
    let mut first = true;
    let mut i: usize = 0;
    while i < chars.len()
        invariant
            i <= chars.len(),
            chars@ == t@,
            first == is_first_word(chars@, i as int),
            forall|k: int| 0 <= k < i ==> !char_is_uppercase(#[trigger] chars@[k]),
            forall|k: int|
                0 <= k < i && #[trigger] starts_word(chars@, k) ==> word_is_separable(chars@, k),
        decreases chars.len() - i,
    {
        let c = chars[i];
        if is_uppercase(c) {
            assert(char_is_uppercase(t@[i as int]));
            return false;
        }
        if c != '_' && (i == 0 || chars[i - 1] == '_') {
            assert(starts_word(chars@, i as int));
            if !word_can_be_told_apart(&chars, i, first) {
                return false;
            }
        }
        proof {
            let now = first && c == '_';
            if now {
                assert forall|k: int| 0 <= k < i + 1 implies #[trigger] chars@[k] == '_' by {
                    if k < i {
                        assert(is_first_word(chars@, i as int));
                    }
                }
            } else if is_first_word(chars@, i + 1) {
                assert(chars@[i as int] == '_');
                assert forall|k: int| 0 <= k < i implies #[trigger] chars@[k] == '_' by {}
            }
            assert(now == is_first_word(chars@, i + 1));
        }
        first = first && c == '_';
        i += 1;
    }
    true
}

/// Whether the snake form of `s` is separable. The camel form of `s` is then
/// stable: the camel form of the Pascal form of the camel form is the camel
/// form.
pub fn has_stable_forms(s: &str) -> (r: bool)
    ensures
        r == is_separable(snake_case_spec(s@)),
        r ==> camel_case_spec(pascal_case_spec(camel_case_spec(s@))) == camel_case_spec(s@),
{
    let snake = snake_case(s);
    let r = is_separable_name(snake.as_str());
    proof {
        if r {
            lemma_camel_of_pascal_of_camel(s@);
        }
    }
    r
}

/// Whether a name that is stored as `s` in the convention `case` is in snake
/// case already and is its own snake form: it has no upper-case character,
/// and, if it is stored in Pascal form, the lower-case mapping of its first
/// character is that character.
pub fn is_own_snake_form(case: NameCase, s: &str) -> (r: bool)
    ensures
        r == (is_snake_case(s@) && (case is Pascal ==> begins_lower(s@))),
        r ==> snake_form(case, s@) == s@,
{
    if !is_snake_case_name(s) {
        return false;
    }
    let chars = to_chars(s);
    let lower = match case {
        NameCase::Snake => true,
        NameCase::Pascal => {
            if chars.len() == 0 {
                true
            } else {
                let low = to_lowercase(chars[0]);
                is_only(&low, chars[0])
            }
        },
    };
    proof {
        if lower {
            lemma_snake_form_of_a_snake_name(case, s@);
        }
    }
    lower
}

/// Whether `v` holds no `'_'`.
fn has_no_underscore(v: &Vec<char>) -> (r: bool)
    ensures
        r == (forall|k: int| 0 <= k < v@.len() ==> #[trigger] v@[k] != '_'),
{
    let mut i: usize = 0;
    while i < v.len()
        invariant
            i <= v.len(),
            forall|k: int| 0 <= k < i ==> #[trigger] v@[k] != '_',
        decreases v.len() - i,
    {
        if v[i] == '_' {
            return false;
        }
        i += 1;
    }
    true
}

/// Whether a Pascal form that begins with `u` gets its camel form back.
fn first_character_comes_back(u: char) -> (r: bool)
    ensures
        r == first_comes_back(u),
{
    let low = to_lowercase(u);
    if low.len() == 0 || !has_no_underscore(&low) {
        return false;
    }
    let up = to_uppercase(low[0]);
    if up.len() != 1 || up[0] == '_' {
        return false;
    }
    let again = to_uppercase(up[0]);
    if again.len() != 1 {
        return false;
    }
    let back = to_lowercase(again[0]);
    is_only(&back, low[0])
}

/// Whether the Pascal form of a name stored as `s` in snake form gets its
/// camel form back. The camel form is then stable: the camel form of the
/// Pascal form of the camel form is the camel form, each taken of a name
/// stored in snake form.
pub fn is_capitalizable_name(s: &str) -> (r: bool)
    ensures
        r == is_capitalizable(s@),
        r ==> camel_form(
            NameCase::Snake,
            pascal_form(NameCase::Snake, camel_form(NameCase::Snake, s@)),
        ) == camel_form(NameCase::Snake, s@),
{
    let pascal = capitalize(s);
    let chars = to_chars(pascal.as_str());
    let r = has_no_underscore(&chars) && (chars.len() == 0 || first_character_comes_back(
        chars[0],
    ));
    proof {
        if r {
            lemma_named_camel_of_pascal_of_camel(s@);
        }
    }
    r
}

} // verus!
