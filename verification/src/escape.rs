//! Escaping of text for `adb shell input text`: spaces become `%s` and the
//! characters the device shell treats specially are preceded by a backslash.
use vstd::prelude::*;

use crate::text::{chars_of, push_char};

verus! {

/// The characters that `escape_android_text` protects with a backslash.
pub open spec fn is_shell_sensitive(c: char) -> bool {
    ||| c == '\\'
    ||| c == '&'
    ||| c == ';'
    ||| c == '|'
    ||| c == '<'
    ||| c == '>'
    ||| c == '('
    ||| c == ')'
    ||| c == '~'
    ||| c == '*'
    ||| c == '?'
    ||| c == '!'
    ||| c == '#'
    ||| c == '$'
    ||| c == '\''
    ||| c == '"'
}

/// What one character of the text becomes.
pub open spec fn escaped_char(c: char) -> Seq<char> {
    if c == ' ' {
        seq!['%', 's']
    } else if is_shell_sensitive(c) {
        seq!['\\', c]
    } else {
        seq![c]
    }
}

/// The escaped form of `text`: each character replaced by its escaped form.
pub open spec fn escaped(text: Seq<char>) -> Seq<char>
    decreases text.len(),
{
    if text.len() == 0 {
        Seq::empty()
    } else {
        escaped_char(text[0]) + escaped(text.drop_first())
    }
}

/// How the device reads escaped text back: a backslash keeps the character
/// after it, `%s` stands for a space, every other character stands for itself.
pub open spec fn unescaped(text: Seq<char>) -> Seq<char>
    decreases text.len(),
{
    if text.len() == 0 {
        Seq::empty()
    } else if text.len() >= 2 && text[0] == '\\' {
        seq![text[1]] + unescaped(text.skip(2))
    } else if text.len() >= 2 && text[0] == '%' && text[1] == 's' {
        seq![' '] + unescaped(text.skip(2))
    } else {
        seq![text[0]] + unescaped(text.skip(1))
    }
}

/// Whether `text` holds `%` directly followed by `s`.
pub open spec fn holds_percent_s(text: Seq<char>) -> bool {
    exists|i: int| 0 <= i < text.len() - 1 && #[trigger] text[i] == '%' && text[i + 1] == 's'
}

/// Escapes `text` for `adb shell input text`.
pub fn escape_android_text(text: &str) -> (escaped_text: String)
    ensures
        escaped_text@ == escaped(text@),
{
    let chars = chars_of(text);
    let mut escaped_text = String::new();
    let mut i: usize = 0;
    assert(chars@.skip(0) =~= chars@);
    while i < chars.len()
        invariant
            i <= chars.len(),
            chars@ == text@,
            escaped(chars@) == escaped_text@ + escaped(chars@.skip(i as int)),
        decreases chars.len() - i,
    {
        let character = chars[i];
        let ghost before = escaped_text@;
        assert(chars@.skip(i as int).drop_first() =~= chars@.skip(i + 1));
        if character == ' ' {
            push_char(&mut escaped_text, '%');
            push_char(&mut escaped_text, 's');
        } else if character == '\\' || character == '&' || character == ';' || character == '|'
            || character == '<' || character == '>' || character == '(' || character == ')'
            || character == '~' || character == '*' || character == '?' || character == '!'
            || character == '#' || character == '$' || character == '\'' || character == '"' {
            push_char(&mut escaped_text, '\\');
            push_char(&mut escaped_text, character);
        } else {
            push_char(&mut escaped_text, character);
        }
        assert(escaped_text@ =~= before + escaped_char(character));
        i = i + 1;
    }
    assert(chars@.skip(chars.len() as int) =~= Seq::<char>::empty());
    assert(escaped_text@ + Seq::<char>::empty() =~= escaped_text@);
    escaped_text
}

proof fn lemma_escaped_first(text: Seq<char>)
    requires
        text.len() > 0,
    ensures
        escaped(text).len() > 0,
        escaped(text)[0] == escaped_char(text[0])[0],
{
}

/// The escaped text holds no space, so the device shell passes it on as one
/// word as far as spaces are concerned.
pub proof fn escaped_text_has_no_space(text: Seq<char>)
    ensures
        !escaped(text).contains(' '),
    decreases text.len(),
{
    if text.len() > 0 {
        escaped_text_has_no_space(text.drop_first());
        let head = escaped_char(text[0]);
        let rest = escaped(text.drop_first());
        assert forall|i: int| 0 <= i < escaped(text).len() implies escaped(text)[i] != ' ' by {
            if i >= head.len() {
                assert(escaped(text)[i] == rest[i - head.len()]);
            }
        }
    }
}

/// Reading the escaped text back gives the typed text, for every text that
/// does not itself hold `%s` (which the device turns into a space).
pub proof fn unescaped_escaped(text: Seq<char>)
    requires
        !holds_percent_s(text),
    ensures
        unescaped(escaped(text)) == text,
    decreases text.len(),
{
    if text.len() > 0 {
        let c = text[0];
        let tail = text.drop_first();
        assert(!holds_percent_s(tail)) by {
            if holds_percent_s(tail) {
                let i = choose|i: int|
                    0 <= i < tail.len() - 1 && #[trigger] tail[i] == '%' && tail[i + 1] == 's';
                assert(text[i + 1] == '%' && text[i + 2] == 's');
            }
        }
        unescaped_escaped(tail);
        let rest = escaped(tail);
        let whole = escaped(text);
        assert(whole == escaped_char(c) + rest);
        if c == ' ' {
            assert(whole.skip(2) =~= rest);
        } else if is_shell_sensitive(c) {
            assert(whole.skip(2) =~= rest);
        } else {
            assert(whole.skip(1) =~= rest);
            if c == '%' && tail.len() > 0 {
                lemma_escaped_first(tail);
                assert(tail[0] != 's') by {
                    assert(text[1] == tail[0]);
                }
            }
        }
        assert(unescaped(whole) =~= text);
    }
}

} // verus!
