//! String primitives the command extractor is built from: prefix
//! stripping, trimming and splitting into words.
//!
//! Every function returns slices of its input, so a command can be taken
//! apart without copying the message it came in. Positions are counted in
//! characters, which keeps the contracts in terms of `Seq<char>`.

use vstd::prelude::*;
use vstd::string::*;

verus! {

/// Whether `c` is whitespace: whether it has the Unicode property
/// `White_Space`, which these 25 characters have.
pub open spec fn whitespace(c: char) -> bool {
    let u = c as u32;
    ||| 0x09 <= u <= 0x0D
    ||| u == 0x20
    ||| u == 0x85
    ||| u == 0xA0
    ||| u == 0x1680
    ||| 0x2000 <= u <= 0x200A
    ||| u == 0x2028
    ||| u == 0x2029
    ||| u == 0x202F
    ||| u == 0x205F
    ||| u == 0x3000
}

/// Calls `char::is_whitespace`, which tells whether a character has the
/// property `White_Space`. Trusted: that those are the characters of
/// `whitespace`.
#[verifier::external_body]
fn is_whitespace(c: char) -> (b: bool)
    ensures
        b == whitespace(c),
{
    c.is_whitespace()
}

/// A set of characters that can be trimmed off a string or that separates
/// its words.
#[derive(Clone, Copy, Debug)]
pub enum CharClass {
    /// The one given character.
    Exactly(char),
    /// Every whitespace character.
    Whitespace,
}

impl CharClass {
    pub open spec fn contains(self, c: char) -> bool {
        match self {
            CharClass::Exactly(x) => c == x,
            CharClass::Whitespace => whitespace(c),
        }
    }

    /// Whether `c` belongs to the class.
    pub fn has(self, c: char) -> (b: bool)
        ensures
            b == self.contains(c),
    {
        match self {
            CharClass::Exactly(x) => c == x,
            CharClass::Whitespace => is_whitespace(c),
        }
    }
}

/// `s` without its leading and trailing characters of `class`: characters
/// are removed from either end for as long as that end is in the class.
pub open spec fn trimmed(s: Seq<char>, class: CharClass) -> Seq<char>
    decreases s.len(),
{
    if s.len() == 0 {
        s
    } else if class.contains(s.first()) {
        trimmed(s.drop_first(), class)
    } else if class.contains(s.last()) {
        trimmed(s.drop_last(), class)
    } else {
        s
    }
}

/// `s` without its leading characters of `class`. The end of `s` stays
/// as it is.
pub open spec fn trimmed_start(s: Seq<char>, class: CharClass) -> Seq<char>
    decreases s.len(),
{
    if s.len() > 0 && class.contains(s.first()) {
        trimmed_start(s.drop_first(), class)
    } else {
        s
    }
}

/// The number of characters before the first whitespace of `s`, or its
/// length where it holds no whitespace.
pub open spec fn word_len(s: Seq<char>) -> nat
    decreases s.len(),
{
    if s.len() == 0 || whitespace(s.first()) {
        0
    } else {
        1 + word_len(s.drop_first())
    }
}

/// The words of `s`: its maximal runs of characters that are not
/// whitespace, in the order in which they occur. No word is empty.
pub open spec fn tokens(s: Seq<char>) -> Seq<Seq<char>>
    decreases s.len(),
    via tokens_terminates
{
    if s.len() == 0 {
        Seq::empty()
    } else if whitespace(s.first()) {
        tokens(s.drop_first())
    } else {
        seq![s.take(word_len(s) as int)] + tokens(s.skip(word_len(s) as int))
    }
}

#[via_fn]
proof fn tokens_terminates(s: Seq<char>) {
    lemma_word_len_bounds(s);
}

/// A word is no longer than the text it starts, and is not empty where the
/// text starts with a character that is not whitespace.
pub proof fn lemma_word_len_bounds(s: Seq<char>)
    ensures
        word_len(s) <= s.len(),
        s.len() > 0 && !whitespace(s.first()) ==> word_len(s) >= 1,
    decreases s.len(),
{
    if s.len() > 0 && !whitespace(s.first()) {
        lemma_word_len_bounds(s.drop_first());
    }
}

/// Where the first `k` characters of `s` are no whitespace and the text
/// ends there or goes on with whitespace, the first word has length `k`.
proof fn lemma_word_len_is(s: Seq<char>, k: int)
    requires
        0 <= k <= s.len(),
        forall|i: int| 0 <= i < k ==> !whitespace(#[trigger] s[i]),
        k < s.len() ==> whitespace(s[k]),
    ensures
        word_len(s) == k,
    decreases k,
{
    if k > 0 {
        let rest = s.drop_first();
        assert forall|i: int| 0 <= i < k - 1 implies !whitespace(#[trigger] rest[i]) by {
            assert(rest[i] == s[i + 1]);
        }
        lemma_word_len_is(rest, k - 1);
    }
}

/// Trimming leaves the part between the first and the last character that
/// is outside the class, or nothing where every character is inside.
proof fn lemma_trimmed_is_subrange(s: Seq<char>, class: CharClass, start: int, end: int)
    requires
        0 <= start <= end <= s.len(),
        forall|i: int| 0 <= i < start ==> class.contains(#[trigger] s[i]),
        forall|i: int| end <= i < s.len() ==> class.contains(#[trigger] s[i]),
        start < end ==> !class.contains(s[start]) && !class.contains(s[end - 1]),
    ensures
        trimmed(s, class) == s.subrange(start, end),
    decreases s.len(),
{
    if s.len() == 0 {
        assert(s.subrange(start, end) =~= s);
    } else if class.contains(s.first()) {
        let rest = s.drop_first();
        if start == 0 {
            assert forall|i: int| 0 <= i < rest.len() implies class.contains(#[trigger] rest[i]) by {
                assert(rest[i] == s[i + 1]);
            }
            lemma_trimmed_is_subrange(rest, class, 0, 0);
            assert(rest.subrange(0, 0) =~= s.subrange(start, end));
        } else {
            assert forall|i: int| 0 <= i < start - 1 implies class.contains(#[trigger] rest[i]) by {
                assert(rest[i] == s[i + 1]);
            }
            assert forall|i: int| end - 1 <= i < rest.len() implies class.contains(
                #[trigger] rest[i],
            ) by {
                assert(rest[i] == s[i + 1]);
            }
            lemma_trimmed_is_subrange(rest, class, start - 1, end - 1);
            assert(rest.subrange(start - 1, end - 1) =~= s.subrange(start, end));
        }
    } else if class.contains(s.last()) {
        let rest = s.drop_last();
        assert(start == 0) by {
            if start > 0 {
                assert(class.contains(s[0]));
            }
        }
        assert(end < s.len()) by {
            if end == 0 {
                assert(class.contains(s[0]));
            }
        }
        assert forall|i: int| end <= i < rest.len() implies class.contains(#[trigger] rest[i]) by {
            assert(rest[i] == s[i]);
        }
        lemma_trimmed_is_subrange(rest, class, start, end);
        assert(rest.subrange(start, end) =~= s.subrange(start, end));
    } else {
        assert(start == 0) by {
            if start > 0 {
                assert(class.contains(s[0]));
            }
        }
        assert(end == s.len()) by {
            if end < s.len() {
                assert(class.contains(s[s.len() - 1]));
            }
        }
        assert(s.subrange(start, end) =~= s);
    }
}

/// Trimming the front leaves what starts at the first character outside
/// the class.
proof fn lemma_trimmed_start_is_skip(s: Seq<char>, class: CharClass, start: int)
    requires
        0 <= start <= s.len(),
        forall|i: int| 0 <= i < start ==> class.contains(#[trigger] s[i]),
        start < s.len() ==> !class.contains(s[start]),
    ensures
        trimmed_start(s, class) == s.skip(start),
    decreases start,
{
    if start == 0 {
        assert(s.skip(0) =~= s);
    } else {
        let rest = s.drop_first();
        assert(class.contains(s[0]));
        assert forall|i: int| 0 <= i < start - 1 implies class.contains(#[trigger] rest[i]) by {
            assert(rest[i] == s[i + 1]);
        }
        lemma_trimmed_start_is_skip(rest, class, start - 1);
        assert(rest.skip(start - 1) =~= s.skip(start));
    }
}

/// Trimming the front takes nothing off the end: what is left is the end
/// of `s`, and it does not start with a character of the class.
pub proof fn lemma_trimmed_start_keeps_end(s: Seq<char>, class: CharClass)
    ensures
        trimmed_start(s, class).is_suffix_of(s),
        trimmed_start(s, class).len() > 0 ==> !class.contains(trimmed_start(s, class).first()),
    decreases s.len(),
{
    if s.len() > 0 && class.contains(s.first()) {
        let rest = s.drop_first();
        let t = trimmed_start(rest, class);
        lemma_trimmed_start_keeps_end(rest, class);
        assert(t =~= s.subrange(s.len() - t.len(), s.len() as int)) by {
            assert(t =~= rest.subrange(rest.len() - t.len(), rest.len() as int));
        }
    } else {
        assert(s =~= s.subrange(0, s.len() as int));
    }
}

/// What trimming leaves neither starts nor ends with a character of the
/// class, and trimming it again changes nothing.
pub proof fn lemma_trimmed_has_clean_ends(s: Seq<char>, class: CharClass)
    ensures
        trimmed(s, class).len() <= s.len(),
        trimmed(s, class).len() > 0 ==> !class.contains(trimmed(s, class).first())
            && !class.contains(trimmed(s, class).last()),
        trimmed(trimmed(s, class), class) == trimmed(s, class),
    decreases s.len(),
{
    if s.len() > 0 {
        if class.contains(s.first()) {
            lemma_trimmed_has_clean_ends(s.drop_first(), class);
        } else if class.contains(s.last()) {
            lemma_trimmed_has_clean_ends(s.drop_last(), class);
        }
    }
}

/// A word: at least one character, none of them whitespace.
pub open spec fn is_word(w: Seq<char>) -> bool {
    w.len() > 0 && forall|j: int| 0 <= j < w.len() ==> !whitespace(#[trigger] w[j])
}

/// Splitting yields words and nothing else.
pub proof fn lemma_tokens_are_words(s: Seq<char>)
    ensures
        forall|i: int| 0 <= i < tokens(s).len() ==> is_word(#[trigger] tokens(s)[i]),
    decreases s.len(),
{
    if s.len() == 0 {
        assert(tokens(s).len() == 0);
    } else {
        if whitespace(s.first()) {
            lemma_tokens_are_words(s.drop_first());
            assert(tokens(s) == tokens(s.drop_first()));
        } else {
            let n = word_len(s) as int;
            lemma_word_len_bounds(s);
            lemma_word_has_no_whitespace(s);
            lemma_tokens_are_words(s.skip(n));
            let rest = tokens(s.skip(n));
            assert forall|i: int| 0 <= i < tokens(s).len() implies is_word(
                #[trigger] tokens(s)[i],
            ) by {
                if i > 0 {
                    assert(tokens(s)[i] == rest[i - 1]);
                } else {
                    let word = s.take(n);
                    assert(tokens(s)[0] == word);
                    assert forall|j: int| 0 <= j < word.len() implies !whitespace(
                        #[trigger] word[j],
                    ) by {
                        assert(word[j] == s[j]);
                    }
                }
            }
        }
    }
}

/// Text without whitespace is one word, and text that is all whitespace
/// holds none.
pub proof fn lemma_tokens_of_one_word(s: Seq<char>)
    ensures
        s.len() > 0 && (forall|i: int| 0 <= i < s.len() ==> !whitespace(#[trigger] s[i]))
            ==> tokens(s) == seq![s],
        (forall|i: int| 0 <= i < s.len() ==> whitespace(#[trigger] s[i])) ==> tokens(s)
            == Seq::<Seq<char>>::empty(),
    decreases s.len(),
{
    if s.len() > 0 {
        if forall|i: int| 0 <= i < s.len() ==> !whitespace(#[trigger] s[i]) {
            lemma_word_len_is(s, s.len() as int);
            assert(s.take(s.len() as int) =~= s);
            assert(tokens(s.skip(s.len() as int)) =~= Seq::<Seq<char>>::empty());
            assert(tokens(s) =~= seq![s]);
        }
        if forall|i: int| 0 <= i < s.len() ==> whitespace(#[trigger] s[i]) {
            let rest = s.drop_first();
            assert forall|i: int| 0 <= i < rest.len() implies whitespace(#[trigger] rest[i]) by {
                assert(rest[i] == s[i + 1]);
            }
            lemma_tokens_of_one_word(rest);
        }
    }
}

/// No character of the first word is whitespace.
proof fn lemma_word_has_no_whitespace(s: Seq<char>)
    ensures
        forall|i: int| 0 <= i < word_len(s) ==> !whitespace(#[trigger] s[i]),
    decreases s.len(),
{
    if s.len() > 0 && !whitespace(s.first()) {
        let rest = s.drop_first();
        lemma_word_len_bounds(s);
        lemma_word_has_no_whitespace(rest);
        assert forall|i: int| 0 <= i < word_len(s) implies !whitespace(#[trigger] s[i]) by {
            if i > 0 {
                assert(s[i] == rest[i - 1]);
            }
        }
    }
}

/// The characters of `s`, for access by position.
fn chars_of(s: &str) -> (chars: Vec<char>)
    ensures
        chars@ == s@,
{
    let mut chars: Vec<char> = Vec::new();
    for c in it: s.chars()
        invariant
            chars@ == it.seq().take(it.index() as int),
            it.seq() == s@,
    {
        chars.push(c);
    }
    chars
}

/// `s` without the leading `prefix`, or `None` where `s` does not start
/// with it. The comparison is exact, character by character.
pub fn strip_prefix<'a>(s: &'a str, prefix: &str) -> (rest: Option<&'a str>)
    ensures
        match rest {
            Some(r) => prefix@.is_prefix_of(s@) && r@ == s@.skip(prefix@.len() as int),
            None => !prefix@.is_prefix_of(s@),
        },
{
    let text = chars_of(s);
    let head = chars_of(prefix);
    if head.len() > text.len() {
        return None;
    }
    let mut i: usize = 0;
    while i < head.len()
        invariant
            i <= head.len() <= text.len(),
            head@ == prefix@,
            text@ == s@,
            forall|k: int| 0 <= k < i ==> head@[k] == text@[k],
        decreases head.len() - i,
    {
        if head[i] != text[i] {
            assert(prefix@[i as int] != s@.subrange(0, prefix@.len() as int)[i as int]);
            return None;
        }
        i = i + 1;
    }
    Some(s.substring_char(head.len(), text.len()))
}

/// `s` without its leading characters of `class`.
pub fn trim_start_matches<'a>(s: &'a str, class: CharClass) -> (r: &'a str)
    ensures
        r@ == trimmed_start(s@, class),
{
    let text = chars_of(s);
    let n: usize = text.len();
    let mut start: usize = 0;
    while start < n && class.has(text[start])
        invariant
            start <= n == text.len(),
            text@ == s@,
            forall|k: int| 0 <= k < start ==> class.contains(#[trigger] s@[k]),
        decreases n - start,
    {
        start = start + 1;
    }
    proof {
        lemma_trimmed_start_is_skip(s@, class, start as int);
    }
    s.substring_char(start, n)
}

/// `s` without its leading and trailing characters of `class`.
pub fn trim_matches<'a>(s: &'a str, class: CharClass) -> (r: &'a str)
    ensures
        r@ == trimmed(s@, class),
{
    let text = chars_of(s);
    let n: usize = text.len();
    let mut start: usize = 0;
    while start < n && class.has(text[start])
        invariant
            start <= n == text.len(),
            text@ == s@,
            forall|k: int| 0 <= k < start ==> class.contains(#[trigger] s@[k]),
        decreases n - start,
    {
        start = start + 1;
    }
    let mut end: usize = n;
    while end > start && class.has(text[end - 1])
        invariant
            start <= end <= n == text.len(),
            text@ == s@,
            forall|k: int| end <= k < n ==> class.contains(#[trigger] s@[k]),
        decreases end,
    {
        end = end - 1;
    }
    proof {
        lemma_trimmed_is_subrange(s@, class, start as int, end as int);
    }
    s.substring_char(start, end)
}

/// The words of `s`, split at whitespace of any length. The result holds
/// no empty word, and none at all where `s` is empty or all whitespace.
pub fn split_whitespace<'a>(s: &'a str) -> (words: Vec<&'a str>)
    ensures
        words.deep_view() == tokens(s@),
{
    let text = chars_of(s);
    let n: usize = text.len();
    let mut words: Vec<&'a str> = Vec::new();
    let mut i: usize = 0;
    assert(s@.skip(0) =~= s@);
    assert(words.deep_view() + tokens(s@) =~= tokens(s@));
    while i < n
        invariant
            i <= n == text.len(),
            text@ == s@,
            words.deep_view() + tokens(s@.skip(i as int)) == tokens(s@),
        decreases n - i,
    {
        let ghost tail = s@.skip(i as int);
        if is_whitespace(text[i]) {
            assert(tail.drop_first() =~= s@.skip(i + 1));
            i = i + 1;
        } else {
            let mut j: usize = i + 1;
            while j < n && !is_whitespace(text[j])
                invariant
                    i < j <= n == text.len(),
                    text@ == s@,
                    forall|k: int| i <= k < j ==> !whitespace(#[trigger] s@[k]),
                decreases n - j,
            {
                j = j + 1;
            }
            let word = s.substring_char(i, j);
            proof {
                assert forall|k: int| 0 <= k < j - i implies !whitespace(#[trigger] tail[k]) by {
                    assert(tail[k] == s@[i + k]);
                }
                lemma_word_len_is(tail, j - i);
                assert(tail.take(j - i) =~= word@);
                assert(tail.skip(j - i) =~= s@.skip(j as int));
            }
            let ghost before = words.deep_view();
            words.push(word);
            assert(words.deep_view() =~= before + seq![word@]);
            assert(words.deep_view() + tokens(s@.skip(j as int)) =~= before + tokens(tail));
            i = j;
        }
    }
    assert(tokens(s@.skip(n as int)) =~= Seq::<Seq<char>>::empty());
    assert(words.deep_view() + tokens(s@.skip(n as int)) =~= words.deep_view());
    words
}

} // verus!
