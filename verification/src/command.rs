//! The commands that a message can hold.
//!
//! A message is cut at every single space. `!ping` alone is a ping. A
//! message whose first word is `!pal` asks for a lookup of its second word;
//! words after the second are ignored. Where the second word is missing or
//! empty (the message ends after `!pal`, or two spaces follow it), the
//! argument is missing. Every other message is no command.

use vstd::prelude::*;
use crate::text::{chars_of, string_of};

verus! {

/// What a message asks of the bot.
#[derive(Debug, Clone, PartialEq, Eq)]
pub enum Command {
    /// `!ping`.
    Ping,
    /// `!pal <name>`.
    PalLookup { name: String },
    /// `!pal` without a name.
    MissingArgument,
    /// Anything else: the bot stays silent.
    Unrecognized,
}

/// The model of a [`Command`].
pub enum CommandView {
    Ping,
    PalLookup { name: Seq<char> },
    MissingArgument,
    Unrecognized,
}

impl View for Command {
    type V = CommandView;

    open spec fn view(&self) -> CommandView {
        match self {
            Command::Ping => CommandView::Ping,
            Command::PalLookup { name } => CommandView::PalLookup { name: name@ },
            Command::MissingArgument => CommandView::MissingArgument,
            Command::Unrecognized => CommandView::Unrecognized,
        }
    }
}

/// The number of characters before the first space of `s`, all of them
/// where it holds none.
pub open spec fn word_len(s: Seq<char>) -> nat
    decreases s.len(),
{
    if s.len() == 0 || s[0] == ' ' {
        0
    } else {
        1 + word_len(s.drop_first())
    }
}

/// The first word of `s`: what stands before its first space.
pub open spec fn first_word(s: Seq<char>) -> Seq<char> {
    s.take(word_len(s) as int)
}

/// What follows the first word of `s` and the space that ends it; nothing
/// where no space ends it.
pub open spec fn after_first_word(s: Seq<char>) -> Seq<char> {
    if word_len(s) < s.len() {
        s.skip(word_len(s) as int + 1)
    } else {
        Seq::empty()
    }
}

/// The command that a message holds.
pub open spec fn classification(text: Seq<char>) -> CommandView {
    if text == "!ping"@ {
        CommandView::Ping
    } else if first_word(text) == "!pal"@ {
        let name = first_word(after_first_word(text));
        if name.len() == 0 {
            CommandView::MissingArgument
        } else {
            CommandView::PalLookup { name }
        }
    } else {
        CommandView::Unrecognized
    }
}

/// The first word ends at the first space: no character of it is a space,
/// and it is followed by a space or by the end of the text.
pub proof fn lemma_word_len(s: Seq<char>)
    ensures
        word_len(s) <= s.len(),
        forall|i: int| 0 <= i < word_len(s) ==> s[i] != ' ',
        word_len(s) < s.len() ==> s[word_len(s) as int] == ' ',
    decreases s.len(),
{
    if s.len() > 0 && s[0] != ' ' {
        let rest = s.drop_first();
        lemma_word_len(rest);
        assert forall|i: int| 0 <= i < word_len(s) implies s[i] != ' ' by {
            if i > 0 {
                assert(s[i] == rest[i - 1]);
            }
        }
    }
}

/// A position that no space precedes, and that holds a space or ends the
/// text, is where the first word ends.
pub proof fn lemma_word_ends_at(s: Seq<char>, n: int)
    requires
        0 <= n <= s.len(),
        forall|i: int| 0 <= i < n ==> s[i] != ' ',
        n < s.len() ==> s[n] == ' ',
    ensures
        word_len(s) == n,
    decreases n,
{
    if n > 0 {
        lemma_word_ends_at(s.drop_first(), n - 1);
    }
}

/// A lookup is what its text says: the text is `!pal`, one space and the
/// name; the name is not empty and holds no space; and the name ends with
/// the text or at a space.
pub proof fn lemma_lookup_reads_name(text: Seq<char>)
    requires
        classification(text) is PalLookup,
    ensures
        ({
            let name = classification(text)->name;
            &&& name.len() > 0
            &&& forall|i: int| 0 <= i < name.len() ==> name[i] != ' '
            &&& text.len() >= 5 + name.len()
            &&& text.take(5) == "!pal "@
            &&& text.subrange(5, 5 + name.len() as int) == name
            &&& text.len() > 5 + name.len() ==> text[5 + name.len() as int] == ' '
        }),
{
    reveal_strlit("!pal");
    reveal_strlit("!pal ");
    let rest = after_first_word(text);
    let name = first_word(rest);
    lemma_word_len(text);
    lemma_word_len(rest);
    assert(first_word(text).len() == word_len(text));
    assert(text.take(5) =~= "!pal "@);
}

/// A text made of `!pal`, one space, a name that is not empty and holds no
/// space, and then nothing or a space and anything, is a lookup of that
/// name.
pub proof fn lemma_name_makes_lookup(name: Seq<char>, tail: Seq<char>)
    requires
        name.len() > 0,
        forall|i: int| 0 <= i < name.len() ==> name[i] != ' ',
        tail.len() > 0 ==> tail[0] == ' ',
    ensures
        classification("!pal "@ + name + tail) == (CommandView::PalLookup { name }),
{
    reveal_strlit("!pal");
    reveal_strlit("!pal ");
    reveal_strlit("!ping");
    let text = "!pal "@ + name + tail;
    lemma_word_ends_at(text, 4);
    assert(first_word(text) =~= "!pal"@);
    let rest = after_first_word(text);
    lemma_word_ends_at(rest, name.len() as int);
    assert(first_word(rest) =~= name);
}

/// The position of the first space at or after `from`, the length of the
/// text where none follows.
fn word_end(chars: &Vec<char>, from: usize) -> (end: usize)
    requires
        from <= chars@.len(),
    ensures
        from <= end <= chars@.len(),
        end - from == word_len(chars@.skip(from as int)),
{
    let mut end: usize = from;
    while end < chars.len() && chars[end] != ' '
        invariant
            from <= end <= chars@.len(),
            forall|i: int| from <= i < end ==> chars@[i] != ' ',
        decreases chars@.len() - end,
    {
        end += 1;
    }
    proof {
        lemma_word_ends_at(chars@.skip(from as int), end - from);
    }
    end
}

/// Whether the first `end` characters are `!pal`.
fn is_pal(chars: &Vec<char>, end: usize) -> (r: bool)
    requires
        end <= chars@.len(),
    ensures
        r == (chars@.take(end as int) == "!pal"@),
{
    proof {
        reveal_strlit("!pal");
    }
    let r = end == 4 && chars[0] == '!' && chars[1] == 'p' && chars[2] == 'a' && chars[3] == 'l';
    proof {
        let word = chars@.take(end as int);
        if r {
            assert(word =~= "!pal"@);
        } else if end == 4 {
            assert(word[0] == chars@[0] && word[1] == chars@[1] && word[2] == chars@[2] && word[3]
                == chars@[3]);
        } else {
            assert(word.len() != "!pal"@.len());
        }
    }
    r
}

/// Whether the text is `!ping`.
fn is_ping(chars: &Vec<char>) -> (r: bool)
    ensures
        r == (chars@ == "!ping"@),
{
    proof {
        reveal_strlit("!ping");
    }
    let r = chars.len() == 5 && chars[0] == '!' && chars[1] == 'p' && chars[2] == 'i' && chars[3]
        == 'n' && chars[4] == 'g';
    proof {
        if r {
            assert(chars@ =~= "!ping"@);
        }
    }
    r
}

/// Recognises the command in a message. Every text has exactly one
/// classification, so the same text always gives the same command.
pub fn classify(text: &str) -> (command: Command)
    ensures
        command@ == classification(text@),
{
    let chars = chars_of(text);
    if is_ping(&chars) {
        return Command::Ping;
    }
    proof {
        assert(chars@.skip(0) =~= chars@);
    }
    let end = word_end(&chars, 0);
    if !is_pal(&chars, end) {
        return Command::Unrecognized;
    }
    if end == chars.len() {
        return Command::MissingArgument;
    }
    let start = end + 1;
    let stop = word_end(&chars, start);
    if stop == start {
        return Command::MissingArgument;
    }
    let name = string_of(&chars, start, stop);
    proof {
        let rest = chars@.skip(start as int);
        assert(rest.take(stop - start) =~= chars@.subrange(start as int, stop as int));
    }
    Command::PalLookup { name }
}

} // verus!
