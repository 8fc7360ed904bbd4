//! Words and lists of words.

use vstd::prelude::*;

verus! {

/// `String::push` appends the given character to the end of the string.
pub assume_specification[ std::string::String::push ](s: &mut std::string::String, c: char)
    ensures
        final(s)@ == old(s)@.push(c),
;

/// The pieces of `s` between its spaces. There is one more of them than there are spaces, so that
/// two spaces in a row have an empty piece between them.
pub open spec fn split_at_spaces(s: Seq<char>) -> Seq<Seq<char>>
    decreases s.len(),
{
    if s.len() == 0 {
        seq![seq![]]
    } else {
        let pieces = split_at_spaces(s.drop_last());
        if s.last() == ' ' {
            pieces.push(seq![])
        } else {
            pieces.drop_last().push(pieces.last().push(s.last()))
        }
    }
}

/// The words with one separator between each two of them.
pub open spec fn join(words: Seq<Seq<char>>, separator: char) -> Seq<char>
    decreases words.len(),
{
    if words.len() == 0 {
        seq![]
    } else if words.len() == 1 {
        words[0]
    } else {
        join(words.drop_last(), separator).push(separator) + words.last()
    }
}

proof fn lemma_split_is_not_empty(s: Seq<char>)
    ensures
        split_at_spaces(s).len() > 0,
    decreases s.len(),
{
    if s.len() > 0 {
        lemma_split_is_not_empty(s.drop_last());
    }
}

/// Joining the pieces of a text gives back the text.
pub proof fn law_join_undoes_split(s: Seq<char>)
    ensures
        split_at_spaces(s).len() > 0,
        join(split_at_spaces(s), ' ') == s,
    decreases s.len(),
{
    if s.len() > 0 {
        law_join_undoes_split(s.drop_last());
        let pieces = split_at_spaces(s.drop_last());
        if s.last() == ' ' {
            assert(pieces.push(seq![]).drop_last() =~= pieces);
            assert(join(pieces.push(seq![]), ' ') =~= s);
        } else {
            let last = pieces.last().push(s.last());
            let longer = pieces.drop_last().push(last);
            assert(longer.drop_last() =~= pieces.drop_last());
            assert(join(longer, ' ') =~= join(pieces, ' ').push(s.last()));
            assert(s =~= s.drop_last().push(s.last()));
        }
    }
}

/// No piece of a text holds a space.
pub proof fn law_pieces_hold_no_space(s: Seq<char>)
    ensures
        forall|i: int|
            0 <= i < split_at_spaces(s).len() ==> !(#[trigger] split_at_spaces(s)[i]).contains(' '),
    decreases s.len(),
{
    if s.len() > 0 {
        law_pieces_hold_no_space(s.drop_last());
        lemma_split_is_not_empty(s.drop_last());
        let pieces = split_at_spaces(s.drop_last());
        if s.last() != ' ' {
            let last = pieces.last().push(s.last());
            assert(!pieces.last().contains(' '));
            assert(!last.contains(' ')) by {
                if last.contains(' ') {
                    let j = choose|j: int| 0 <= j < last.len() && last[j] == ' ';
                    assert(pieces.last()[j] == ' ');
                }
            }
        }
    }
}

/// The pieces of `s` between its spaces.
pub fn split_spaces(s: &str) -> (pieces: Vec<String>)
    ensures
        pieces.deep_view() == split_at_spaces(s@),
        pieces@.len() > 0,
{
    let mut pieces: Vec<String> = Vec::new();
    let mut piece: String = String::new();
    proof {
        assert(s@.take(0) =~= Seq::<char>::empty());
        assert(pieces.deep_view().push(piece@) =~= split_at_spaces(s@.take(0)));
    }
    for c in chars: s.chars()
        invariant
            chars.seq() == s@,
            pieces.deep_view().push(piece@) == split_at_spaces(s@.take(chars.index() as int)),
    {
        let ghost before = pieces.deep_view().push(piece@);
        let ghost front = s@.take(chars.index() + 1);
        assert(front.drop_last() =~= s@.take(chars.index() as int));
        assert(before.drop_last() =~= pieces.deep_view());
        if c == ' ' {
            pieces.push(piece);
            piece = String::new();
            assert(pieces.deep_view() =~= before);
            assert(pieces.deep_view().push(piece@) =~= before.push(seq![]));
        } else {
            piece.push(c);
        }
    }
    assert(s@.take(s@.len() as int) =~= s@);
    let ghost front = pieces.deep_view();
    let ghost last = piece@;
    pieces.push(piece);
    assert(pieces.deep_view() =~= front.push(last));
    pieces
}

/// The words with one separator between each two of them.
pub fn join_words(words: &Vec<String>, separator: char) -> (joined: String)
    ensures
        joined@ == join(words.deep_view(), separator),
{
    let mut joined: String = String::new();
    for i in 0..words.len()
        invariant
            joined@ == join(words.deep_view().take(i as int), separator),
    {
        let ghost front = words.deep_view().take(i + 1);
        assert(front.drop_last() =~= words.deep_view().take(i as int));
        if i > 0 {
            joined.push(separator);
        }
        joined.append(words[i].as_str());
        assert(joined@ =~= join(front, separator));
    }
    assert(words.deep_view().take(words@.len() as int) =~= words.deep_view());
    joined
}

/// A copy of the words from position `from` on.
pub fn copy_words(words: &Vec<String>, from: usize) -> (copy: Vec<String>)
    requires
        from <= words@.len(),
    ensures
        copy.deep_view() == words.deep_view().skip(from as int),
{
    let mut copy: Vec<String> = Vec::new();
    for i in from..words.len()
        invariant
            from <= i <= words@.len(),
            copy.deep_view() == words.deep_view().subrange(from as int, i as int),
    {
        let ghost front = copy.deep_view();
        copy.push(words[i].clone());
        assert(copy.deep_view() =~= front.push(words@[i as int]@));
        assert(copy.deep_view() =~= words.deep_view().subrange(from as int, i + 1));
    }
    assert(words.deep_view().subrange(from as int, words@.len() as int) =~= words.deep_view().skip(
        from as int,
    ));
    copy
}

/// The decimal digit for a number below ten.
pub open spec fn digit(n: nat) -> char {
    (('0' as u32) + n) as char
}

/// `n` in decimal notation.
pub open spec fn decimal(n: nat) -> Seq<char>
    decreases n,
{
    if n < 10 {
        seq![digit(n)]
    } else {
        decimal(n / 10).push(digit(n % 10))
    }
}

/// `n` in decimal notation, with a minus sign where it is negative.
pub open spec fn signed_decimal(n: int) -> Seq<char> {
    if n < 0 {
        seq!['-'] + decimal((-n) as nat)
    } else {
        decimal(n as nat)
    }
}

/// `n` in decimal notation.
pub fn decimal_text(n: u64) -> (text: String)
    ensures
        text@ == decimal(n as nat),
    decreases n,
{
    let mut text: String = if n < 10 {
        String::new()
    } else {
        decimal_text(n / 10)
    };
    let last: u8 = 48u8 + (n % 10) as u8;
    text.push(last as char);
    assert(text@ =~= decimal(n as nat));
    text
}

/// `n` in decimal notation, with a minus sign where it is negative.
pub fn signed_decimal_text(n: i32) -> (text: String)
    ensures
        text@ == signed_decimal(n as int),
{
    if n < 0 {
        let size: i64 = -(n as i64);
        let mut text: String = String::new();
        text.push('-');
        let digits = decimal_text(size as u64);
        text.append(digits.as_str());
        assert(text@ =~= seq!['-'] + decimal((-n) as nat));
        text
    } else {
        decimal_text(n as u64)
    }
}

/// How `{:?}` writes a string: in quotes, with escapes for what cannot be shown.
pub uninterp spec fn debug_text(s: Seq<char>) -> Seq<char>;

/// Calls `std::fmt::format` with the `Debug` form of a string. What it writes is a function of the
/// string alone; which characters it escapes, and how, is left unsaid.
#[verifier::external_body]
pub(crate) fn quote(s: &str) -> (quoted: String)
    ensures
        quoted@ == debug_text(s@),
{
    format!("{:?}", s)
}

/// Text read from bytes, with replacement characters for what is not UTF-8.
pub uninterp spec fn lossy_text(bytes: Seq<u8>) -> Seq<char>;

/// Calls `String::from_utf8_lossy`. Bytes that are UTF-8 are decoded as they are. Where they are
/// not, the text is a function of the bytes; how the replacement characters are placed in it is left
/// unsaid.
#[verifier::external_body]
pub(crate) fn decode_lossily(bytes: &Vec<u8>) -> (text: String)
    ensures
        text@ == lossy_text(bytes@),
        vstd::utf8::valid_utf8(bytes@) ==> text@ == vstd::utf8::decode_utf8(bytes@),
{
    std::string::String::from_utf8_lossy(bytes.as_slice()).to_string()
}

/// Between two lists of words there is one separator, a word alone is joined to itself, and no words
/// are joined to nothing.
pub proof fn law_one_separator_between_words(
    a: Seq<Seq<char>>,
    b: Seq<Seq<char>>,
    word: Seq<char>,
    separator: char,
)
    ensures
        a.len() > 0 && b.len() > 0 ==> join(a + b, separator) == join(a, separator) + seq![separator]
            + join(b, separator),
        join(seq![word], separator) == word,
        join(Seq::<Seq<char>>::empty(), separator) == Seq::<char>::empty(),
    decreases b.len(),
{
    if a.len() > 0 && b.len() > 0 {
        assert((a + b).drop_last() =~= a + b.drop_last());
        assert((a + b).last() == b.last());
        if b.len() == 1 {
            assert(a + b.drop_last() =~= a);
        } else {
            law_one_separator_between_words(a, b.drop_last(), word, separator);
        }
        assert(join(a + b, separator) =~= join(a, separator) + seq![separator] + join(b, separator));
    }
}

/// In decimal notation each digit has ten times the weight of the one behind it, and there are no
/// leading zeros. A minus sign stands in front of the digits of a negative number.
pub proof fn law_digits_have_their_weight(n: nat, d: nat)
    requires
        d < 10,
    ensures
        decimal(d) == seq![(48 + d) as char],
        n > 0 ==> decimal(10 * n + d) == decimal(n) + decimal(d),
        signed_decimal(n as int) == decimal(n),
        n > 0 ==> signed_decimal(-(n as int)) == seq!['-'] + decimal(n),
{
    assert(decimal(d) =~= seq![(48 + d) as char]);
    if n > 0 {
        assert((10 * n + d) / 10 == n);
        assert((10 * n + d) % 10 == d);
        assert(decimal(10 * n + d) =~= decimal(n) + decimal(d));
    }
}

} // verus!
