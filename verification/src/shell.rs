//! Quoting a text for a POSIX shell, and what such a shell reads back.

use vstd::prelude::*;

verus! {

/// The characters that are passed to the shell as they stand.
pub open spec fn is_plain(c: char) -> bool {
    ||| 'a' <= c <= 'z'
    ||| 'A' <= c <= 'Z'
    ||| '0' <= c <= '9'
    ||| c == '-'
    ||| c == '_'
    ||| c == '='
    ||| c == '/'
    ||| c == ','
    ||| c == '.'
    ||| c == '+'
}

/// Whether every character of `text` is plain.
pub open spec fn all_plain(text: Seq<char>) -> bool {
    forall|i: int| 0 <= i < text.len() ==> is_plain(#[trigger] text[i])
}

/// What stands for `c` between single quotes: `'` and `!` leave the quotes,
/// are escaped by a backslash, and the quotes are opened again.
pub open spec fn quoted_char(c: char) -> Seq<char> {
    if c == '\'' || c == '!' {
        seq!['\'', '\\', c, '\'']
    } else {
        seq![c]
    }
}

/// What stands for `text` between single quotes.
pub open spec fn quoted_body(text: Seq<char>) -> Seq<char>
    decreases text.len(),
{
    if text.len() == 0 {
        Seq::empty()
    } else {
        quoted_char(text[0]) + quoted_body(text.drop_first())
    }
}

/// The shell word that stands for `text`: `text` itself where it is not
/// empty and all plain, and else `text` in single quotes.
pub open spec fn unix_escaped(text: Seq<char>) -> Seq<char> {
    if text.len() > 0 && all_plain(text) {
        text
    } else {
        seq!['\''] + quoted_body(text) + seq!['\'']
    }
}

/// Quotes `text` for a POSIX shell. `shell_escape::unix::escape` returns a
/// text of its allowlist unchanged, unless it is empty; any other text it
/// puts in single quotes, with `'\''` for each `'` and `'\!'` for each `!`.
#[verifier::external_body]
pub(crate) fn unix_escape(text: &str) -> (word: String)
    ensures
        word@ == unix_escaped(text@),
{
    shell_escape::unix::escape(std::borrow::Cow::Borrowed(text)).into_owned()
}

/// The characters that end a word where they stand outside quotes: blanks,
/// and the characters that the shell's operators are made of.
pub open spec fn ends_word(c: char) -> bool {
    ||| c == ' '
    ||| c == '\t'
    ||| c == '\n'
    ||| c == ';'
    ||| c == '&'
    ||| c == '|'
    ||| c == '<'
    ||| c == '>'
    ||| c == '('
    ||| c == ')'
}

/// A word read from the front of a text: its value, and the text after it.
pub ghost struct Word {
    pub value: Seq<char>,
    pub rest: Seq<char>,
}

/// `c` in front of the value of `word`.
pub open spec fn after_char(c: char, word: Option<Word>) -> Option<Word> {
    match word {
        Some(word) => Some(Word { value: seq![c] + word.value, rest: word.rest }),
        None => None,
    }
}

/// What a POSIX shell reads from the front of `text`, taken as the rest of
/// a word, with `in_quotes` telling whether a single quote is open.
///
/// Between single quotes every character but `'` stands for itself. Outside
/// them the word ends at the end of the text or before a character that
/// ends a word; a plain character stands for itself; a backslash makes the
/// next character, unless it is a newline, stand for itself. The result is
/// `None` where the word does not end so: a quote is left open, a backslash
/// has nothing after it, or a character outside quotes is none of these.
pub open spec fn word_rest(text: Seq<char>, in_quotes: bool) -> Option<Word>
    decreases text.len(),
{
    if text.len() == 0 {
        if in_quotes {
            None
        } else {
            Some(Word { value: Seq::empty(), rest: Seq::empty() })
        }
    } else if in_quotes {
        if text[0] == '\'' {
            word_rest(text.drop_first(), false)
        } else {
            after_char(text[0], word_rest(text.drop_first(), true))
        }
    } else if ends_word(text[0]) {
        Some(Word { value: Seq::empty(), rest: text })
    } else if text[0] == '\'' {
        word_rest(text.drop_first(), true)
    } else if text[0] == '\\' {
        if text.len() >= 2 && text[1] != '\n' {
            after_char(text[1], word_rest(text.skip(2), false))
        } else {
            None
        }
    } else if is_plain(text[0]) {
        after_char(text[0], word_rest(text.drop_first(), false))
    } else {
        None
    }
}

/// The word that a POSIX shell reads from the front of `text`. There is
/// none where `text` is empty or begins with a character that ends a word.
pub open spec fn first_word(text: Seq<char>) -> Option<Word> {
    if text.len() == 0 || ends_word(text[0]) {
        None
    } else {
        word_rest(text, false)
    }
}

/// The value of `text` where a POSIX shell reads all of it as one word.
pub open spec fn word_value(text: Seq<char>) -> Option<Seq<char>> {
    match first_word(text) {
        Some(word) => if word.rest.len() == 0 {
            Some(word.value)
        } else {
            None
        },
        None => None,
    }
}

/// Whether a word may be followed by `rest`: it is empty or begins with a
/// character that ends a word.
pub open spec fn follows_word(rest: Seq<char>) -> bool {
    rest.len() == 0 || ends_word(rest[0])
}

proof fn lemma_plain_reads_itself(text: Seq<char>, rest: Seq<char>)
    requires
        all_plain(text),
        follows_word(rest),
    ensures
        word_rest(text + rest, false) == Some(Word { value: text, rest }),
    decreases text.len(),
{
    if text.len() > 0 {
        let tail = text.drop_first();
        assert forall|i: int| 0 <= i < tail.len() implies is_plain(#[trigger] tail[i]) by {}
        lemma_plain_reads_itself(tail, rest);
        assert((text + rest).drop_first() =~= tail + rest);
        assert(seq![text[0]] + tail =~= text);
    } else {
        assert(text =~= Seq::empty());
    }
}

proof fn lemma_quoted_reads_itself(text: Seq<char>, rest: Seq<char>)
    requires
        follows_word(rest),
    ensures
        word_rest(quoted_body(text) + seq!['\''] + rest, true) == Some(Word { value: text, rest }),
    decreases text.len(),
{
    let closing = seq!['\''];
    if text.len() == 0 {
        let whole = quoted_body(text) + closing + rest;
        assert(whole.drop_first() =~= rest);
        assert(text =~= Seq::empty());
        assert(rest.len() == 0 ==> rest =~= Seq::empty());
        assert(word_rest(whole, true) == word_rest(rest, false));
    } else {
        let c = text[0];
        let tail = quoted_body(text.drop_first()) + closing + rest;
        let whole = quoted_body(text) + closing + rest;
        lemma_quoted_reads_itself(text.drop_first(), rest);
        assert(seq![c] + text.drop_first() =~= text);
        if c == '\'' || c == '!' {
            let outside = whole.drop_first();
            let reopened = outside.skip(2);
            assert(word_rest(outside, false) == after_char(c, word_rest(reopened, false)));
            assert(reopened.drop_first() =~= tail);
        } else {
            assert(whole.drop_first() =~= tail);
        }
    }
}

/// A shell reads the word that stands for `text` as one word with the value
/// `text`, whatever may follow a word follows it: no character of `text`
/// ends the word or begins another.
pub proof fn escaped_word_reads_back(text: Seq<char>, rest: Seq<char>)
    requires
        follows_word(rest),
    ensures
        first_word(unix_escaped(text) + rest) == Some(Word { value: text, rest }),
        word_value(unix_escaped(text)) == Some(text),
{
    let word = unix_escaped(text);
    if text.len() > 0 && all_plain(text) {
        lemma_plain_reads_itself(text, rest);
        lemma_plain_reads_itself(text, Seq::empty());
    } else {
        lemma_quoted_reads_itself(text, rest);
        lemma_quoted_reads_itself(text, Seq::empty());
        assert((word + rest).drop_first() =~= quoted_body(text) + seq!['\''] + rest);
        assert(word.drop_first() =~= quoted_body(text) + seq!['\''] + Seq::<char>::empty());
    }
}

} // verus!
