//! The HTML of a message seen as runs: maximal groups of neighbouring words
//! of one class.

use vstd::prelude::*;
use crate::services::emotes_service::{
    emote_html, last_tag, message_html, words_html, MessageTag,
};
use crate::services::message_words::{joined, words_of};
use crate::state::saved_emotes_state::Catalogs;

verus! {

/// An emote in a message: the word that names it and the address of its
/// image.
pub ghost struct EmoteWord {
    pub word: Seq<char>,
    pub url: Seq<char>,
}

/// A run: neighbouring words of text, or neighbouring emotes.
pub ghost enum Run {
    Text(Seq<Seq<char>>),
    Emotes(Seq<EmoteWord>),
}

impl Run {
    /// How many words the run holds.
    pub open spec fn len(self) -> nat {
        match self {
            Run::Text(words) => words.len(),
            Run::Emotes(emotes) => emotes.len(),
        }
    }

    /// The class of the words of the run.
    pub open spec fn tag(self) -> MessageTag {
        match self {
            Run::Text(_) => MessageTag::PlainText,
            Run::Emotes(_) => MessageTag::Emote,
        }
    }
}

/// `runs` with one more word of text: in the last run where that is text,
/// else in a run of its own.
pub open spec fn with_text(runs: Seq<Run>, word: Seq<char>) -> Seq<Run> {
    if runs.len() > 0 && runs.last() is Text {
        runs.update(runs.len() - 1, Run::Text(runs.last()->Text_0.push(word)))
    } else {
        runs.push(Run::Text(seq![word]))
    }
}

/// `runs` with one more emote: in the last run where that holds emotes, else
/// in a run of its own.
pub open spec fn with_emote(runs: Seq<Run>, emote: EmoteWord) -> Seq<Run> {
    if runs.len() > 0 && runs.last() is Emotes {
        runs.update(runs.len() - 1, Run::Emotes(runs.last()->Emotes_0.push(emote)))
    } else {
        runs.push(Run::Emotes(seq![emote]))
    }
}

/// The runs of `words`.
pub open spec fn runs_of(catalogs: Catalogs, words: Seq<Seq<char>>) -> Seq<Run>
    decreases words.len(),
{
    if words.len() == 0 {
        Seq::empty()
    } else {
        let before = runs_of(catalogs, words.drop_last());
        match catalogs.lookup(words.last()) {
            Some(url) => with_emote(before, EmoteWord { word: words.last(), url }),
            None => with_text(before, words.last()),
        }
    }
}

/// Whether no run is empty and each run is of the other class than the run
/// before it.
pub open spec fn runs_alternate(runs: Seq<Run>) -> bool {
    &&& forall|k: int| 0 <= k < runs.len() ==> (#[trigger] runs[k]).len() > 0
    &&& forall|k: int| 0 < k < runs.len() ==> (#[trigger] runs[k]).tag() != runs[k - 1].tag()
}

/// The images of neighbouring emotes, an empty text run between each two.
pub open spec fn emotes_html(emotes: Seq<EmoteWord>) -> Seq<char>
    decreases emotes.len(),
{
    if emotes.len() == 0 {
        Seq::empty()
    } else if emotes.len() == 1 {
        emote_html(emotes[0].url, emotes[0].word)
    } else {
        emotes_html(emotes.drop_last()) + "<span> </span>"@ + emote_html(
            emotes.last().url,
            emotes.last().word,
        )
    }
}

/// The start of a text run and its words: a space stands before the words
/// unless the run is the first of the message.
pub open spec fn text_start_html(words: Seq<Seq<char>>, first: bool) -> Seq<char> {
    (if first {
        "<span>"@
    } else {
        "<span> "@
    }) + joined(words)
}

/// The end of a text run: a space stands after the words unless the run is
/// the last of the message.
pub open spec fn text_end_html(last: bool) -> Seq<char> {
    if last {
        "</span>"@
    } else {
        " </span>"@
    }
}

/// The HTML of one run. A text run is one wrapper, and holds one space on
/// each side on which another run stands.
pub open spec fn run_html(run: Run, first: bool, last: bool) -> Seq<char> {
    match run {
        Run::Text(words) => text_start_html(words, first) + text_end_html(last),
        Run::Emotes(emotes) => emotes_html(emotes),
    }
}

/// The HTML of the first `n` runs, none of them the last of the message.
pub open spec fn inner_runs_html(runs: Seq<Run>, n: int) -> Seq<char>
    decreases n,
{
    if n <= 0 {
        Seq::empty()
    } else {
        inner_runs_html(runs, n - 1) + run_html(runs[n - 1], n == 1, false)
    }
}

/// The HTML of the runs of a message, one after the other.
pub open spec fn runs_html(runs: Seq<Run>) -> Seq<char> {
    if runs.len() == 0 {
        Seq::empty()
    } else {
        inner_runs_html(runs, runs.len() - 1) + run_html(runs.last(), runs.len() == 1, true)
    }
}

/// The HTML of the runs while the last may still grow: a last text run is
/// not closed yet.
spec fn open_runs_html(runs: Seq<Run>) -> Seq<char> {
    if runs.len() == 0 {
        Seq::empty()
    } else {
        inner_runs_html(runs, runs.len() - 1) + match runs.last() {
            Run::Text(words) => text_start_html(words, runs.len() == 1),
            Run::Emotes(emotes) => emotes_html(emotes),
        }
    }
}

/// Runs that agree in their first `n` have the same HTML of those.
proof fn lemma_inner_runs_agree(a: Seq<Run>, b: Seq<Run>, n: int)
    requires
        n <= a.len(),
        n <= b.len(),
        forall|k: int| 0 <= k < n ==> a[k] == b[k],
    ensures
        inner_runs_html(a, n) == inner_runs_html(b, n),
    decreases n,
{
    if n > 0 {
        lemma_inner_runs_agree(a, b, n - 1);
    }
}

/// What the runs of `words` are like, and that the HTML of the words is
/// that of their runs with the last run left open.
proof fn lemma_words_html_is_open_runs(catalogs: Catalogs, words: Seq<Seq<char>>)
    ensures
        runs_alternate(runs_of(catalogs, words)),
        runs_of(catalogs, words).len() == 0 <==> words.len() == 0,
        words.len() > 0 ==> last_tag(catalogs, words) == Some(
            runs_of(catalogs, words).last().tag(),
        ),
        words_html(catalogs, words) == open_runs_html(runs_of(catalogs, words)),
    decreases words.len(),
{
    if words.len() > 0 {
        let front = words.drop_last();
        let word = words.last();
        let before = runs_of(catalogs, front);
        let after = runs_of(catalogs, words);
        let n = before.len() as int;
        lemma_words_html_is_open_runs(catalogs, front);
        match catalogs.lookup(word) {
            Some(url) => {
                let emote = EmoteWord { word, url };
                if n > 0 && before.last() is Emotes {
                    let emotes = before.last()->Emotes_0;
                    lemma_inner_runs_agree(before, after, n - 1);
                    assert(emotes.push(emote).drop_last() =~= emotes);
                    assert(words_html(catalogs, words) =~= open_runs_html(after));
                } else if n > 0 {
                    lemma_inner_runs_agree(before, after, n - 1);
                    assert(after[n - 1] == before[n - 1]);
                    assert(inner_runs_html(after, n) =~= open_runs_html(before) + " </span>"@);
                    assert(words_html(catalogs, words) =~= open_runs_html(after));
                } else {
                    assert(words_html(catalogs, words) =~= open_runs_html(after));
                }
            },
            None => {
                if n > 0 && before.last() is Text {
                    let text = before.last()->Text_0;
                    lemma_inner_runs_agree(before, after, n - 1);
                    assert(text.push(word).drop_last() =~= text);
                    assert(words_html(catalogs, words) =~= open_runs_html(after));
                } else if n > 0 {
                    lemma_inner_runs_agree(before, after, n - 1);
                    assert(after[n - 1] == before[n - 1]);
                    assert(inner_runs_html(after, n) =~= open_runs_html(before));
                    assert(words_html(catalogs, words) =~= open_runs_html(after));
                } else {
                    assert(words_html(catalogs, words) =~= open_runs_html(after));
                }
            },
        }
    }
}

/// The HTML of a message is that of its runs. The runs alternate: no two
/// neighbouring runs are of one class, so text that is not parted by an emote
/// is never split over two wrappers, and none is empty.
pub proof fn lemma_message_html_is_its_runs(catalogs: Catalogs, message: Seq<char>)
    ensures
        runs_alternate(runs_of(catalogs, words_of(message))),
        message_html(catalogs, message) == runs_html(runs_of(catalogs, words_of(message))),
{
    let words = words_of(message);
    let runs = runs_of(catalogs, words);
    lemma_words_html_is_open_runs(catalogs, words);
    assert(message_html(catalogs, message) =~= runs_html(runs));
}

} // verus!
