//! What always holds of the reading of a response, proved from the
//! definitions in `commit`.

use crate::commit::{
    cleaned, cleaning, colon_messages, enumerated, enumerated_messages, fallback_message,
    first_up_to, has_colon, has_marker, is_enumerated, is_numbering, messages_from_lines,
    normalized_lines, not_empty, parsed_messages, trimming, with_colon, with_marker,
};
use crate::text::{
    char_is_whitespace, leading_run, lemma_leading_run, split_lines, trailing_run, trimmed,
};
use vstd::prelude::*;

verus! {

/// A filter keeps a sequence whole when every element passes.
pub proof fn lemma_filter_keeps_all(s: Seq<Seq<char>>, p: spec_fn(Seq<char>) -> bool)
    requires
        forall|i: int| 0 <= i < s.len() ==> p(#[trigger] s[i]),
    ensures
        s.filter(p) == s,
    decreases s.len(),
{
    if s.len() == 0 {
        reveal(Seq::filter);
    } else {
        let front = s.drop_last();
        assert forall|i: int| 0 <= i < front.len() implies p(#[trigger] front[i]) by {
            assert(front[i] == s[i]);
        }
        lemma_filter_keeps_all(front, p);
        front.lemma_filter_push(s.last(), p);
        assert(front.push(s.last()) == s);
    }
}

/// A filter keeps nothing when no element passes.
pub proof fn lemma_filter_keeps_none(s: Seq<Seq<char>>, p: spec_fn(Seq<char>) -> bool)
    requires
        forall|i: int| 0 <= i < s.len() ==> !p(#[trigger] s[i]),
    ensures
        s.filter(p) == Seq::<Seq<char>>::empty(),
    decreases s.len(),
{
    if s.len() == 0 {
        reveal(Seq::filter);
    } else {
        let front = s.drop_last();
        assert forall|i: int| 0 <= i < front.len() implies !p(#[trigger] front[i]) by {
            assert(front[i] == s[i]);
        }
        lemma_filter_keeps_none(front, p);
        front.lemma_filter_push(s.last(), p);
        assert(front.push(s.last()) == s);
    }
}

/// A filter keeps at least as much as a stricter one.
pub proof fn lemma_filter_wider(
    s: Seq<Seq<char>>,
    p: spec_fn(Seq<char>) -> bool,
    q: spec_fn(Seq<char>) -> bool,
)
    requires
        forall|i: int| 0 <= i < s.len() && p(#[trigger] s[i]) ==> q(s[i]),
    ensures
        s.filter(p).len() <= s.filter(q).len(),
    decreases s.len(),
{
    if s.len() == 0 {
        reveal(Seq::filter);
    } else {
        let front = s.drop_last();
        assert forall|i: int| 0 <= i < front.len() && p(#[trigger] front[i]) implies q(
            front[i],
        ) by {
            assert(front[i] == s[i]);
        }
        lemma_filter_wider(front, p, q);
        front.lemma_filter_len_push(p, s.last());
        front.lemma_filter_len_push(q, s.last());
        assert(front.push(s.last()) == s);
        assert(p(s[s.len() - 1]) ==> q(s[s.len() - 1]));
    }
}

/// Asked for no message, the reading finds none, whatever the response.
pub proof fn lemma_none_asked_none_found(response: Seq<char>)
    ensures
        parsed_messages(response, 0) == Seq::<Seq<char>>::empty(),
{
}

/// The reading never finds more messages than were asked for.
pub proof fn lemma_at_most_asked(response: Seq<char>, count: nat)
    ensures
        parsed_messages(response, count).len() <= count,
{
}

/// A text without a line feed is one line.
pub proof fn lemma_one_line(text: Seq<char>)
    requires
        !text.contains('\n'),
    ensures
        split_lines(text) == seq![text],
{
    assert forall|i: int| 0 <= i < text.len() implies #[trigger] text[i] != '\n' by {
        assert(text.contains(text[i]));
    }
    lemma_leading_run(text, |c: char| c != '\n', text.len() as int);
}

/// The only line of `text`, which holds no line feed, after trimming; no
/// line where nothing is left of it.
pub proof fn lemma_one_normalized_line(text: Seq<char>)
    requires
        !text.contains('\n'),
    ensures
        normalized_lines(text) == if trimmed(text).len() > 0 {
            seq![trimmed(text)]
        } else {
            Seq::<Seq<char>>::empty()
        },
{
    lemma_one_line(text);
    let mapped = split_lines(text).map_values(trimming());
    assert(mapped == seq![trimmed(text)]);
    if trimmed(text).len() > 0 {
        lemma_filter_keeps_all(mapped, not_empty());
    } else {
        lemma_filter_keeps_none(mapped, not_empty());
    }
}

/// Asked for one message, a response of a single line that is not blank
/// yields exactly that line: trimmed, and without the numbering in front of
/// it.
pub proof fn lemma_single_line_response(response: Seq<char>)
    requires
        !response.contains('\n'),
        trimmed(response).len() > 0,
    ensures
        parsed_messages(response, 1) == seq![cleaned(trimmed(response))],
{
    lemma_one_normalized_line(response);
    let line = trimmed(response);
    let lines = seq![line];
    if has_colon(line) {
        lemma_filter_keeps_all(lines, with_colon());
        assert(lines.map_values(cleaning()) == seq![cleaned(line)]);
    } else {
        lemma_filter_keeps_none(lines, with_colon());
        assert(Seq::<Seq<char>>::empty().map_values(cleaning()) == Seq::<Seq<char>>::empty());
    }
}

/// Where at least `count` lines of the response hold a type marker, the
/// reading finds exactly `count` messages. Asked for more than one, they are
/// the first `count` of the enumerated lines, in the order of the response
/// and cleaned.
pub proof fn lemma_enough_marked_lines(response: Seq<char>, count: nat)
    requires
        normalized_lines(response).filter(with_marker()).len() >= count,
    ensures
        parsed_messages(response, count).len() == count,
        count > 1 ==> parsed_messages(response, count) == enumerated_messages(
            normalized_lines(response),
        ).take(count as int),
{
    let lines = normalized_lines(response);
    lines.lemma_filter_len(with_marker());
    if count > 1 {
        lemma_filter_wider(lines, with_marker(), enumerated());
    } else if count == 1 {
        lines.lemma_filter_len(with_colon());
    }
}

/// Where no line of the response holds a colon or a type marker and there is
/// a line that is not blank, the reading finds one message: the first such
/// line, cleaned.
pub proof fn lemma_fallback_to_first_line(response: Seq<char>, count: nat)
    requires
        count >= 1,
        normalized_lines(response).len() >= 1,
        forall|i: int|
            0 <= i < normalized_lines(response).len() ==> !has_colon(
                #[trigger] normalized_lines(response)[i],
            ) && !has_marker(normalized_lines(response)[i]),
    ensures
        parsed_messages(response, count) == seq![cleaned(normalized_lines(response)[0])],
{
    let lines = normalized_lines(response);
    lemma_filter_keeps_none(lines, enumerated());
    lemma_filter_keeps_none(lines, with_colon());
    assert(Seq::<Seq<char>>::empty().map_values(cleaning()) == Seq::<Seq<char>>::empty());
}

/// `lines` written out one per line, with a line feed between two.
pub open spec fn joined_lines(lines: Seq<Seq<char>>) -> Seq<char>
    decreases lines.len(),
{
    if lines.len() == 0 {
        Seq::empty()
    } else if lines.len() == 1 {
        lines[0]
    } else {
        lines[0] + seq!['\n'] + joined_lines(lines.drop_first())
    }
}

/// Whether the reading leaves `message` as it is: it is one line, not
/// empty, with no white space at either end and no numbering in front.
pub open spec fn is_clean_message(message: Seq<char>) -> bool {
    &&& message.len() > 0
    &&& !message.contains('\n')
    &&& !char_is_whitespace(message[0])
    &&& !char_is_whitespace(message.last())
    &&& !is_numbering(message[0])
}

/// Lines without line feeds come back when what they were joined to is
/// split.
pub proof fn lemma_split_joined(lines: Seq<Seq<char>>)
    requires
        lines.len() >= 1,
        forall|i: int| 0 <= i < lines.len() ==> !(#[trigger] lines[i]).contains('\n'),
    ensures
        split_lines(joined_lines(lines)) == lines,
    decreases lines.len(),
{
    if lines.len() == 1 {
        lemma_one_line(lines[0]);
        assert(seq![lines[0]] == lines);
    } else {
        let head = lines[0];
        let rest = lines.drop_first();
        let text = joined_lines(lines);
        assert forall|i: int| 0 <= i < rest.len() implies !(#[trigger] rest[i]).contains(
            '\n',
        ) by {
            assert(rest[i] == lines[i + 1]);
        }
        lemma_split_joined(rest);
        assert forall|i: int| 0 <= i < head.len() implies #[trigger] text[i] != '\n' by {
            assert(text[i] == head[i]);
            assert(head.contains(head[i]));
        }
        assert(text[head.len() as int] == '\n');
        lemma_leading_run(text, |c: char| c != '\n', head.len() as int);
        assert(text.take(head.len() as int) == head);
        assert(text.skip(head.len() as int + 1) == joined_lines(rest));
        assert(seq![head] + rest == lines);
    }
}

/// The reading leaves a clean message as it is.
pub proof fn lemma_clean_message_stays(message: Seq<char>)
    requires
        is_clean_message(message),
    ensures
        trimmed(message) == message,
        cleaned(message) == message,
{
    assert(leading_run(message, |c: char| char_is_whitespace(c)) == 0);
    assert(message.skip(0) == message);
    assert(trailing_run(message, |c: char| char_is_whitespace(c)) == 0);
    assert(message.take(message.len() as int) == message);
    assert(leading_run(message, |c: char| is_numbering(c)) == 0);
}

/// Reading again what was read: clean messages, written out one per line and
/// read with their number asked for, come back as they are. This holds of one
/// message, of messages that all hold a type marker, and of messages that all
/// hold a colon and no type marker; of other mixtures only those with a
/// marker, or with a colon, would come back.
pub proof fn lemma_clean_messages_come_back(messages: Seq<Seq<char>>)
    requires
        forall|i: int| 0 <= i < messages.len() ==> is_clean_message(#[trigger] messages[i]),
        messages.len() <= 1 || (forall|i: int|
            0 <= i < messages.len() ==> has_marker(#[trigger] messages[i])) || (forall|i: int|
            0 <= i < messages.len() ==> !has_marker(#[trigger] messages[i]) && has_colon(
                messages[i],
            )),
    ensures
        parsed_messages(joined_lines(messages), messages.len()) == messages,
{
    let count: nat = messages.len();
    if count > 0 {
        let response = joined_lines(messages);
        assert forall|i: int| 0 <= i < count implies !(#[trigger] messages[i]).contains(
            '\n',
        ) by {}
        lemma_split_joined(messages);
        assert forall|i: int| 0 <= i < count implies trimmed(#[trigger] messages[i])
            == messages[i] && cleaned(messages[i]) == messages[i] && !is_enumerated(messages[i])
            == !has_marker(messages[i]) by {
            lemma_clean_message_stays(messages[i]);
        }
        assert(messages.map_values(trimming()) == messages);
        lemma_filter_keeps_all(messages, not_empty());
        assert(normalized_lines(response) == messages);
        assert(messages.map_values(cleaning()) == messages);
        assert(Seq::<Seq<char>>::empty().map_values(cleaning()) == Seq::<Seq<char>>::empty());
        if count == 1 {
            if has_colon(messages[0]) {
                lemma_filter_keeps_all(messages, with_colon());
            } else {
                lemma_filter_keeps_none(messages, with_colon());
            }
            assert(seq![cleaned(messages[0])] == messages);
        } else if forall|i: int| 0 <= i < count ==> has_marker(#[trigger] messages[i]) {
            lemma_filter_keeps_all(messages, enumerated());
        } else {
            lemma_filter_keeps_none(messages, enumerated());
            lemma_filter_keeps_all(messages, with_colon());
        }
    }
}

} // verus!
