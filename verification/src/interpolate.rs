//! Substitution of `$name` references in the arguments of a tool.

use crate::table::Table;
use regex::{Captures, Regex};
use vstd::prelude::*;

verus! {

/// What a reference looks like: a `$`, then a name that ends at a word boundary. Upper-case names
/// are of no interest: those are left to the tool.
pub const REFERENCE_PATTERN: &'static str = "\\$([a-z0-9_]+)\\b";

/// The characters that a name is made of.
pub open spec fn is_name_char(c: char) -> bool {
    ||| 'a' <= c && c <= 'z'
    ||| '0' <= c && c <= '9'
    ||| c == '_'
}

/// The characters beyond ASCII that a `\b` in `pattern` counts as parts of words: those that the
/// regex crate's `\w` matches.
pub uninterp spec fn unicode_word_chars(pattern: Seq<char>) -> Set<char>;

/// The characters that make up words, given those of them that lie beyond ASCII. A name reaches to
/// the end of the word that it is part of, or it is no name.
pub open spec fn is_word_char(c: char, unicode_words: Set<char>) -> bool {
    if c <= '\x7f' {
        is_name_char(c) || ('A' <= c && c <= 'Z')
    } else {
        unicode_words.contains(c)
    }
}

/// How many characters at the start of `s` can belong to a name.
pub open spec fn name_len(s: Seq<char>) -> nat
    decreases s.len(),
{
    if s.len() > 0 && is_name_char(s[0]) {
        1 + name_len(s.skip(1))
    } else {
        0
    }
}

/// The length of the reference that `s` starts with, and 0 where it starts with none.
pub open spec fn reference_len(s: Seq<char>, unicode_words: Set<char>) -> nat {
    let n = name_len(s.skip(1));
    if s.len() > 0 && s[0] == '$' && n > 0 && (1 + n == s.len() || !is_word_char(
        s[1 + n as int],
        unicode_words,
    )) {
        1 + n
    } else {
        0
    }
}

/// What stands in place of a reference: the value of the variable that it names, or the reference
/// itself where there is no such variable.
pub open spec fn substitution(
    reference: Seq<char>,
    variables: Map<Seq<char>, Seq<char>>,
) -> Seq<char> {
    if variables.contains_key(reference.skip(1)) {
        variables[reference.skip(1)]
    } else {
        reference
    }
}

/// `s` with every reference replaced by its substitution. The values that go in are not searched
/// for further references.
pub open spec fn replaced(
    s: Seq<char>,
    variables: Map<Seq<char>, Seq<char>>,
    unicode_words: Set<char>,
) -> Seq<char>
    decreases s.len(),
{
    let n = reference_len(s, unicode_words);
    if s.len() == 0 {
        seq![]
    } else if 0 < n <= s.len() {
        substitution(s.take(n as int), variables) + replaced(
            s.skip(n as int),
            variables,
            unicode_words,
        )
    } else {
        seq![s[0]] + replaced(s.skip(1), variables, unicode_words)
    }
}

/// What [`interpolate_variables`] makes of one argument.
pub open spec fn interpolated(s: Seq<char>, variables: Map<Seq<char>, Seq<char>>) -> Seq<char> {
    replaced(s, variables, unicode_word_chars(REFERENCE_PATTERN@))
}

/// The variables that can be referred to, each with its value.
pub struct Variables {
    values: Table<String>,
}

impl View for Variables {
    type V = Map<Seq<char>, Seq<char>>;

    closed spec fn view(&self) -> Map<Seq<char>, Seq<char>> {
        self.values@.map_values(|value: String| value@)
    }
}

impl Variables {
    /// No variables at all.
    pub fn new() -> (variables: Variables)
        ensures
            variables@ == Map::<Seq<char>, Seq<char>>::empty(),
    {
        let variables = Variables { values: Table::new() };
        assert(variables@ =~= Map::<Seq<char>, Seq<char>>::empty());
        variables
    }

    /// Gives the variable `name` the value `value`, in place of the one it had.
    pub fn insert(&mut self, name: &str, value: &str)
        ensures
            final(self)@ == old(self)@.insert(name@, value@),
    {
        self.values.insert(name, value.to_owned());
        assert(self@ =~= old(self)@.insert(name@, value@));
    }

    /// The value of the variable `name`.
    pub fn get(&self, name: &str) -> (value: Option<&str>)
        ensures
            value is Some <==> self@.contains_key(name@),
            value matches Some(v) ==> v@ == self@[name@],
    {
        match self.values.get(name) {
            Some(value) => Some(value.as_str()),
            None => None,
        }
    }
}

/// What stands in place of `reference`, which refers to the variable `name`.
fn substitute(reference: &str, name: &str, variables: &Variables) -> (text: String)
    requires
        name@ == reference@.skip(1),
    ensures
        text@ == substitution(reference@, variables@),
{
    match variables.get(name) {
        Some(value) => value.to_owned(),
        None => reference.to_owned(),
    }
}

/// Calls `regex::Regex::replace_all` with the reference pattern. It searches the text from left to
/// right for matches that do not overlap, and puts in place of each what [`substitute`] makes of
/// it; all other text stays as it is. A match of the pattern starts at a `$`, takes the longest run
/// of name characters after it, which must not be empty, and needs a word boundary at its end: a
/// character that `\w` does not match, or the end of the text.
#[verifier::external_body]
fn replace_references(pattern: &str, text: &str, variables: &Variables) -> (result: String)
    requires
        pattern@ == REFERENCE_PATTERN@,
    ensures
        result@ == replaced(text@, variables@, unicode_word_chars(pattern@)),
{
    Regex::new(pattern)
        .unwrap()
        .replace_all(text, |caps: &Captures| substitute(&caps[0], &caps[1], variables))
        .into_owned()
}

/// What [`interpolate_variables`] makes of all arguments.
pub open spec fn interpolated_args(
    args: Seq<Seq<char>>,
    variables: Map<Seq<char>, Seq<char>>,
) -> Seq<Seq<char>> {
    args.map_values(|arg: Seq<char>| interpolated(arg, variables))
}

/// Replaces the references in each of the arguments.
pub fn interpolate_variables(args: &[String], variables: &Variables) -> (result: Vec<String>)
    ensures
        result.deep_view() == interpolated_args(args.deep_view(), variables@),
        result@.len() == args@.len(),
        forall|i: int|
            0 <= i < args@.len() ==> #[trigger] result@[i]@ == interpolated(args@[i]@, variables@),
{
    let mut result: Vec<String> = Vec::new();
    for i in 0..args.len()
        invariant
            result@.len() == i,
            forall|j: int|
                0 <= j < i ==> #[trigger] result@[j]@ == interpolated(args@[j]@, variables@),
    {
        result.push(replace_references(REFERENCE_PATTERN, args[i].as_str(), variables));
    }
    assert(result.deep_view() =~= interpolated_args(args.deep_view(), variables@));
    result
}

/// The first `k` characters are those that can belong to a name exactly where all of them can, and
/// the one after them cannot.
proof fn lemma_name_len(s: Seq<char>, k: nat)
    requires
        k <= s.len(),
    ensures
        name_len(s) == k <==> (forall|j: int| 0 <= j < k ==> is_name_char(#[trigger] s[j])) && (k
            == s.len() || !is_name_char(s[k as int])),
    decreases s.len(),
{
    if s.len() > 0 && is_name_char(s[0]) {
        if k > 0 {
            lemma_name_len(s.skip(1), (k - 1) as nat);
            assert forall|j: int| 0 <= j < k - 1 implies s.skip(1)[j] == #[trigger] s[j + 1] by {}
            if forall|j: int| 0 <= j < k - 1 ==> is_name_char(#[trigger] s.skip(1)[j]) {
                assert forall|j: int| 0 <= j < k implies is_name_char(#[trigger] s[j]) by {
                    if j > 0 {
                        assert(s.skip(1)[j - 1] == s[j]);
                    }
                }
            }
        }
    } else if k > 0 {
        assert(!is_name_char(s[0]));
    }
}

/// The count of name characters stays within the text.
proof fn lemma_name_len_bound(s: Seq<char>)
    ensures
        name_len(s) <= s.len(),
    decreases s.len(),
{
    if s.len() > 0 && is_name_char(s[0]) {
        lemma_name_len_bound(s.skip(1));
    }
}

/// A reference at the start of the text that ends before a `$` is a reference of the text up to
/// that `$` too, and the other way round.
proof fn lemma_reference_len_before(s: Seq<char>, i: int, unicode_words: Set<char>)
    requires
        0 < i < s.len(),
        s[i] == '$',
    ensures
        reference_len(s, unicode_words) <= i,
        reference_len(s.take(i), unicode_words) == reference_len(s, unicode_words),
{
    let rest = s.skip(1);
    let n = name_len(rest);
    lemma_name_len_bound(rest);
    lemma_name_len(rest, n);
    assert(rest[i - 1] == '$');
    assert(n <= i - 1) by {
        if n > i - 1 {
            assert(is_name_char(rest[i - 1]));
        }
    }
    let short = s.take(i).skip(1);
    assert(short =~= rest.take(i - 1));
    assert forall|j: int| 0 <= j < n implies is_name_char(#[trigger] short[j]) by {
        assert(short[j] == rest[j]);
    }
    lemma_name_len(short, n);
}

/// A reference is replaced by its substitution as that stands, whatever text surrounds it: neither
/// does the surrounding text change what is put in, nor is what is put in searched again.
pub proof fn law_references_are_replaced_independently(
    s: Seq<char>,
    i: int,
    variables: Map<Seq<char>, Seq<char>>,
)
    requires
        0 <= i < s.len(),
        reference_len(s.skip(i), unicode_word_chars(REFERENCE_PATTERN@)) > 0,
    ensures
        ({
            let end = i + reference_len(s.skip(i), unicode_word_chars(REFERENCE_PATTERN@));
            &&& end <= s.len()
            &&& interpolated(s, variables) == interpolated(s.take(i), variables) + substitution(
                s.subrange(i, end),
                variables,
            ) + interpolated(s.skip(end), variables)
        }),
    decreases s.len(),
{
    let w = unicode_word_chars(REFERENCE_PATTERN@);
    lemma_name_len_bound(s.skip(i).skip(1));
    let n = reference_len(s.skip(i), w);
    let end = i + n;
    if i == 0 {
        assert(s.skip(0) =~= s);
        assert(s.take(end) =~= s.subrange(0, end));
        assert(s.take(0) =~= Seq::<char>::empty());
        assert(interpolated(s, variables) =~= interpolated(s.take(i), variables) + substitution(
            s.subrange(i, end),
            variables,
        ) + interpolated(s.skip(end), variables));
    } else {
        assert(s.skip(i)[0] == s[i]);
        lemma_reference_len_before(s, i, w);
        let m = reference_len(s, w);
        let step = if m > 0 { m as int } else { 1int };
        let rest = s.skip(step);
        let before = s.take(i);
        assert(rest.skip(i - step) =~= s.skip(i));
        assert(rest.take(i - step) =~= before.skip(step));
        assert(rest.subrange(i - step, end - step) =~= s.subrange(i, end));
        assert(rest.skip(end - step) =~= s.skip(end));
        assert(before.take(step) =~= s.take(step));
        law_references_are_replaced_independently(rest, i - step, variables);
        assert(interpolated(s, variables) =~= interpolated(before, variables) + substitution(
            s.subrange(i, end),
            variables,
        ) + interpolated(s.skip(end), variables));
    }
}

/// An argument that is a reference and nothing else becomes the value of the variable that it names,
/// or stays as it is where there is no such variable.
pub proof fn law_whole_references_become_values(
    name: Seq<char>,
    variables: Map<Seq<char>, Seq<char>>,
)
    requires
        name.len() > 0,
        forall|j: int| 0 <= j < name.len() ==> is_name_char(#[trigger] name[j]),
    ensures
        interpolated(seq!['$'] + name, variables) == (if variables.contains_key(name) {
            variables[name]
        } else {
            seq!['$'] + name
        }),
{
    let s = seq!['$'] + name;
    assert(s.skip(1) =~= name);
    lemma_name_len(name, name.len());
    assert(s.take(s.len() as int) =~= s);
    assert(s.skip(s.len() as int) =~= Seq::<char>::empty());
    reveal_with_fuel(replaced, 2);
    assert(interpolated(s, variables) =~= substitution(s, variables));
}

/// Whether position `i` of the text is not the start of a reference to one of the variables.
pub open spec fn is_no_known_reference(
    s: Seq<char>,
    i: int,
    variables: Map<Seq<char>, Seq<char>>,
) -> bool {
    let n = reference_len(s.skip(i), unicode_word_chars(REFERENCE_PATTERN@));
    n > 0 ==> !variables.contains_key(s.subrange(i + 1, i + n))
}

/// Text whose references all name unknown variables is left as it is, and so is text without
/// references.
pub proof fn law_unknown_references_stay(s: Seq<char>, variables: Map<Seq<char>, Seq<char>>)
    requires
        forall|i: int| 0 <= i < s.len() ==> #[trigger] is_no_known_reference(s, i, variables),
    ensures
        interpolated(s, variables) == s,
    decreases s.len(),
{
    let w = unicode_word_chars(REFERENCE_PATTERN@);
    if s.len() > 0 {
        lemma_name_len_bound(s.skip(1));
        assert(s.skip(0) =~= s);
        assert(is_no_known_reference(s, 0, variables));
        let m = reference_len(s, w);
        let step = if m > 0 { m as int } else { 1int };
        let rest = s.skip(step);
        assert forall|i: int| 0 <= i < rest.len() implies #[trigger] is_no_known_reference(
            rest,
            i,
            variables,
        ) by {
            assert(is_no_known_reference(s, i + step, variables));
            assert(rest.skip(i) =~= s.skip(i + step));
            let n = reference_len(rest.skip(i), w);
            lemma_name_len_bound(rest.skip(i).skip(1));
            if n > 0 {
                assert(rest.subrange(i + 1, i + n) =~= s.subrange(i + step + 1, i + step + n));
            }
        }
        law_unknown_references_stay(rest, variables);
        if m > 0 {
            assert(s.take(step).skip(1) =~= s.subrange(1, step));
        }
        assert(s =~= s.take(step) + rest);
        assert(s.take(1) =~= seq![s[0]]);
    }
}

/// Names in upper case are of no interest: where every `$` is followed by an upper-case letter, the
/// text is left as it is, whatever the variables are.
pub proof fn law_upper_case_names_stay(s: Seq<char>, variables: Map<Seq<char>, Seq<char>>)
    requires
        forall|i: int|
            0 <= i < s.len() && #[trigger] s[i] == '$' ==> i + 1 < s.len() && 'A' <= s[i + 1]
                && s[i + 1] <= 'Z',
    ensures
        interpolated(s, variables) == s,
{
    assert forall|i: int| 0 <= i < s.len() implies #[trigger] is_no_known_reference(
        s,
        i,
        variables,
    ) by {
        assert(s.skip(i)[0] == s[i]);
        if s[i] == '$' {
            assert(s.skip(i).skip(1)[0] == s[i + 1]);
        }
    }
    law_unknown_references_stay(s, variables);
}

/// A reference is a `$` with a run of lower-case ASCII letters, digits and underscores behind it, of
/// which there is at least one. It ends where the text ends, or where no character of a word
/// follows. So text starts with at most one reference.
pub proof fn law_references_are_whole_words(s: Seq<char>, n: int, unicode_words: Set<char>)
    ensures
        (n > 0 && reference_len(s, unicode_words) == n) <==> {
            &&& 2 <= n <= s.len()
            &&& s[0] == '$'
            &&& forall|j: int|
                1 <= j < n ==> ('a' <= #[trigger] s[j] && s[j] <= 'z') || ('0' <= s[j] && s[j]
                    <= '9') || s[j] == '_'
            &&& n == s.len() || !(if s[n] <= '\x7f' {
                ('a' <= s[n] && s[n] <= 'z') || ('A' <= s[n] && s[n] <= 'Z') || ('0' <= s[n] && s[n]
                    <= '9') || s[n] == '_'
            } else {
                unicode_words.contains(s[n])
            })
        },
{
    let rest = s.skip(1);
    if s.len() > 0 {
        lemma_name_len_bound(rest);
        lemma_name_len(rest, name_len(rest));
        assert forall|j: int| 1 <= j < s.len() implies #[trigger] s[j] == rest[j - 1] by {}
        if 2 <= n <= s.len() {
            lemma_name_len(rest, (n - 1) as nat);
            if forall|j: int|
                1 <= j < n ==> ('a' <= #[trigger] s[j] && s[j] <= 'z') || ('0' <= s[j] && s[j]
                    <= '9') || s[j] == '_' {
                assert forall|j: int| 0 <= j < n - 1 implies is_name_char(#[trigger] rest[j]) by {
                    assert(rest[j] == s[j + 1]);
                }
            }
            if n < s.len() {
                assert(rest[n - 1] == s[n]);
            }
        }
    }
}

/// Each argument is replaced on its own, and none is added, left out or moved.
pub proof fn law_arguments_are_replaced_one_by_one(
    args: Seq<Seq<char>>,
    variables: Map<Seq<char>, Seq<char>>,
)
    ensures
        interpolated_args(args, variables).len() == args.len(),
        forall|i: int|
            0 <= i < args.len() ==> #[trigger] interpolated_args(args, variables)[i]
                == interpolated(args[i], variables),
{
}

} // verus!
