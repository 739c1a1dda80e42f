//! Splitting a chat line into words at white space.

use vstd::prelude::*;
use vstd::string::StrSliceExecFns;
use vstd::string::StringExecFns;

verus! {

/// The characters that separate words: those with the Unicode property
/// `White_Space`.
pub open spec fn is_whitespace(c: char) -> bool {
    ||| c == ' '
    ||| ('\u{9}' <= c && c <= '\u{d}')
    ||| c == '\u{85}'
    ||| c == '\u{a0}'
    ||| c == '\u{1680}'
    ||| ('\u{2000}' <= c && c <= '\u{200a}')
    ||| c == '\u{2028}'
    ||| c == '\u{2029}'
    ||| c == '\u{202f}'
    ||| c == '\u{205f}'
    ||| c == '\u{3000}'
}

/// The word that is open at `end`, if one is: the characters from `start`.
pub open spec fn open_word(text: Seq<char>, start: int, end: int) -> Seq<Seq<char>> {
    if start < end {
        seq![text.subrange(start, end)]
    } else {
        Seq::empty()
    }
}

/// The words of `text` that end at or after `i`, read from `i` on, when the
/// characters from `start` up to `i` belong to a word that is still open.
pub open spec fn words_scan(text: Seq<char>, start: int, i: int) -> Seq<Seq<char>>
    decreases text.len() - i,
{
    if i < 0 || i >= text.len() {
        open_word(text, start, i)
    } else if is_whitespace(text[i]) {
        open_word(text, start, i) + words_scan(text, i + 1, i + 1)
    } else {
        words_scan(text, start, i + 1)
    }
}

/// The words of `text`: its maximal runs of characters that are not white
/// space, in their order. White space at either end gives no empty word, and
/// neither does a run of white space.
pub open spec fn words_of(text: Seq<char>) -> Seq<Seq<char>> {
    words_scan(text, 0, 0)
}

/// A word as splitting gives it: not empty, and free of white space.
pub open spec fn is_word(word: Seq<char>) -> bool {
    &&& word.len() > 0
    &&& forall|j: int| 0 <= j < word.len() ==> !is_whitespace(#[trigger] word[j])
}

/// The words with one space between each two.
pub open spec fn joined(words: Seq<Seq<char>>) -> Seq<char>
    decreases words.len(),
{
    if words.len() == 0 {
        Seq::empty()
    } else if words.len() == 1 {
        words[0]
    } else {
        joined(words.drop_last()) + " "@ + words.last()
    }
}

/// The characters of each string of a list.
pub open spec fn views_of(strings: Seq<String>) -> Seq<Seq<char>> {
    Seq::new(strings.len(), |i: int| strings[i]@)
}

/// Whether `c` separates words.
pub fn is_space(c: char) -> (space: bool)
    ensures
        space == is_whitespace(c),
{
    c == ' ' || ('\u{9}' <= c && c <= '\u{d}') || c == '\u{85}' || c == '\u{a0}' || c
        == '\u{1680}' || ('\u{2000}' <= c && c <= '\u{200a}') || c == '\u{2028}' || c
        == '\u{2029}' || c == '\u{202f}' || c == '\u{205f}' || c == '\u{3000}'
}

/// The words of `message`, each as a string of its own.
pub fn split_words(message: &str) -> (words: Vec<String>)
    ensures
        views_of(words@) == words_of(message@),
{
    let n = message.unicode_len();
    let mut words: Vec<String> = Vec::new();
    let mut start: usize = 0;
    let mut i: usize = 0;
    assert(views_of(words@) =~= Seq::<Seq<char>>::empty());
    for c in it: message.chars()
        invariant
            n == message@.len(),
            it.seq() == message@,
            i == it.index(),
            start <= i,
            views_of(words@) + words_scan(message@, start as int, i as int) == words_of(
                message@,
            ),
    {
        if is_space(c) {
            if start < i {
                let word = String::from_str(message.substring_char(start, i));
                proof {
                    assert(views_of(words@.push(word)) =~= views_of(words@) + open_word(
                        message@,
                        start as int,
                        i as int,
                    ));
                }
                words.push(word);
            }
            start = i + 1;
        }
        i += 1;
    }
    if start < i {
        let word = String::from_str(message.substring_char(start, i));
        proof {
            assert(views_of(words@.push(word)) =~= views_of(words@) + open_word(
                message@,
                start as int,
                i as int,
            ));
        }
        words.push(word);
    }
    words
}

/// While a word is open and no white space follows, the scan gives that
/// word alone.
proof fn lemma_scan_to_the_end(text: Seq<char>, start: int, i: int)
    requires
        0 <= start <= i <= text.len(),
        start < text.len(),
        forall|k: int| i <= k < text.len() ==> !is_whitespace(#[trigger] text[k]),
    ensures
        words_scan(text, start, i) == seq![text.subrange(start, text.len() as int)],
    decreases text.len() - i,
{
    if i < text.len() {
        lemma_scan_to_the_end(text, start, i + 1);
    }
}

/// Each word that a scan gives is a word, where the open word is free of
/// white space.
proof fn lemma_scan_gives_words(text: Seq<char>, start: int, i: int)
    requires
        0 <= start <= i <= text.len(),
        forall|k: int| start <= k < i ==> !is_whitespace(#[trigger] text[k]),
    ensures
        forall|w: int|
            0 <= w < words_scan(text, start, i).len() ==> is_word(
                #[trigger] words_scan(text, start, i)[w],
            ),
    decreases text.len() - i,
{
    let open = open_word(text, start, i);
    if start < i {
        assert forall|j: int| 0 <= j < i - start implies !is_whitespace(
            #[trigger] text.subrange(start, i)[j],
        ) by {
            assert(text.subrange(start, i)[j] == text[start + j]);
        }
        assert(is_word(text.subrange(start, i)));
    }
    if i < text.len() {
        if is_whitespace(text[i]) {
            lemma_scan_gives_words(text, i + 1, i + 1);
            let rest = words_scan(text, i + 1, i + 1);
            assert forall|w: int| 0 <= w < (open + rest).len() implies is_word(
                #[trigger] (open + rest)[w],
            ) by {
                if w < open.len() {
                    assert((open + rest)[w] == open[w]);
                } else {
                    assert((open + rest)[w] == rest[w - open.len()]);
                }
            }
            assert(words_scan(text, start, i) == open + rest);
        } else {
            lemma_scan_gives_words(text, start, i + 1);
            assert(words_scan(text, start, i) == words_scan(text, start, i + 1));
        }
    } else {
        assert(words_scan(text, start, i) == open);
        assert forall|w: int| 0 <= w < open.len() implies is_word(#[trigger] open[w]) by {
            assert(open[w] == text.subrange(start, i));
        }
    }
}

/// A space and a word after a text add that word to the scan of the text.
proof fn lemma_scan_with_one_more_word(head: Seq<char>, word: Seq<char>, start: int, i: int)
    requires
        0 <= start <= i <= head.len(),
        is_word(word),
    ensures
        words_scan(head + " "@ + word, start, i) == words_scan(head, start, i) + seq![word],
    decreases head.len() - i,
{
    reveal_strlit(" ");
    let text = head + " "@ + word;
    assert(text.len() == head.len() + 1 + word.len());
    assert(text.subrange(start, i) =~= head.subrange(start, i));
    if i == head.len() {
        assert(text[i] == ' ');
        assert forall|k: int| i + 1 <= k < text.len() implies !is_whitespace(
            #[trigger] text[k],
        ) by {
            assert(text[k] == word[k - i - 1]);
        }
        lemma_scan_to_the_end(text, i + 1, i + 1);
        assert(text.subrange(i + 1, text.len() as int) =~= word);
    } else {
        assert(text[i] == head[i]);
        if is_whitespace(head[i]) {
            lemma_scan_with_one_more_word(head, word, i + 1, i + 1);
            assert(open_word(head, start, i) + (words_scan(head, i + 1, i + 1) + seq![word])
                =~= (open_word(head, start, i) + words_scan(head, i + 1, i + 1)) + seq![word]);
        } else {
            lemma_scan_with_one_more_word(head, word, start, i + 1);
        }
    }
}

/// Every word of a text is a word: none is empty and none holds white space.
pub proof fn lemma_words_are_words(text: Seq<char>)
    ensures
        forall|w: int| 0 <= w < words_of(text).len() ==> is_word(#[trigger] words_of(text)[w]),
{
    lemma_scan_gives_words(text, 0, 0);
}

/// A text without white space is its own and only word.
pub proof fn lemma_word_is_its_only_word(text: Seq<char>)
    requires
        is_word(text),
    ensures
        words_of(text) == seq![text],
{
    lemma_scan_to_the_end(text, 0, 0);
    assert(text.subrange(0, text.len() as int) =~= text);
}

/// Splitting undoes joining: words that are put together with one space
/// between each two come apart as the same words.
pub proof fn lemma_words_of_joined(words: Seq<Seq<char>>)
    requires
        forall|w: int| 0 <= w < words.len() ==> is_word(#[trigger] words[w]),
    ensures
        words_of(joined(words)) == words,
    decreases words.len(),
{
    if words.len() == 0 {
        assert(words_of(joined(words)) =~= words);
    } else if words.len() == 1 {
        lemma_word_is_its_only_word(words[0]);
        assert(seq![words[0]] =~= words);
    } else {
        let front = words.drop_last();
        assert forall|w: int| 0 <= w < front.len() implies is_word(#[trigger] front[w]) by {
            assert(front[w] == words[w]);
        }
        lemma_words_of_joined(front);
        assert(is_word(words[words.len() - 1]));
        lemma_scan_with_one_more_word(joined(front), words.last(), 0, 0);
        assert(front + seq![words.last()] =~= words);
    }
}

} // verus!
