//! What texts are made of: numbers that read back, parts that are found, and edges that
//! are trimmed.
use vstd::prelude::*;
use crate::remotes::RemoteLifecycleAction;
use crate::server::FederationCapabilities;
use crate::text::{
    after_prefix, contains_part, decimal, digit_char, joined, stands_at, trimmed, trimmed_end,
    trimmed_start, white_space,
};

verus! {

/// The number that a row of digits stands for.
pub open spec fn number_of(digits: Seq<char>) -> int
    decreases digits.len(),
{
    if digits.len() == 0 {
        0
    } else {
        10 * number_of(digits.drop_last()) + (digits.last() as int - '0' as int)
    }
}

/// A number reads back from its digits. They are digits only, and none but the last one
/// of a single digit is a leading zero.
pub proof fn numbers_read_back(n: nat)
    ensures
        number_of(decimal(n)) == n,
        decimal(n).len() > 0,
        forall|i: int| 0 <= i < decimal(n).len() ==> '0' <= #[trigger] decimal(n)[i] <= '9',
        n > 0 ==> decimal(n)[0] != '0',
    decreases n,
{
    let digits = decimal(n);
    if n < 10 {
        assert(digits.drop_last() =~= Seq::<char>::empty());
        assert(digits.last() == digit_char(n));
        assert(number_of(digits.drop_last()) == 0);
    } else {
        numbers_read_back(n / 10);
        assert(digits.drop_last() =~= decimal(n / 10));
        assert(digits.last() == digit_char(n % 10));
        assert(n == 10 * (n / 10) + n % 10);
        assert forall|i: int| 0 <= i < digits.len() implies '0' <= #[trigger] digits[i] <= '9' by {
            if i < digits.len() - 1 {
                assert(digits[i] == decimal(n / 10)[i]);
            }
        }
        assert(digits[0] == decimal(n / 10)[0]);
    }
}

/// Two numbers with the same digits are the same.
pub proof fn digits_tell_numbers_apart(a: nat, b: nat)
    requires
        decimal(a) == decimal(b),
    ensures
        a == b,
{
    numbers_read_back(a);
    numbers_read_back(b);
}

/// A text contains a part exactly where it is what stands before the part, the part, and
/// what stands after it.
pub proof fn parts_stand_between_two_texts(text: Seq<char>, part: Seq<char>)
    ensures
        contains_part(text, part) == (exists|before: Seq<char>, after: Seq<char>|
            #[trigger] (before + part + after) == text),
{
    if contains_part(text, part) {
        let i = choose|i: int| stands_at(text, part, i);
        let before = text.take(i);
        let after = text.skip(i + part.len());
        assert(before + part + after =~= text);
    }
    if exists|before: Seq<char>, after: Seq<char>| #[trigger] (before + part + after) == text {
        let (before, after) = choose|before: Seq<char>, after: Seq<char>|
            #[trigger] (before + part + after) == text;
        let i = before.len() as int;
        assert(text.subrange(i, i + part.len()) =~= part);
        assert(stands_at(text, part, i));
    }
}

/// A text starts with a prefix exactly where it is the prefix and what is left of it.
pub proof fn prefixes_come_off(text: Seq<char>, prefix: Seq<char>, rest: Seq<char>)
    ensures
        after_prefix(prefix + rest, prefix) == Some(rest),
        after_prefix(text, prefix) matches Some(left) ==> prefix + left == text,
{
    let whole = prefix + rest;
    assert(whole.take(prefix.len() as int) =~= prefix);
    assert(whole.skip(prefix.len() as int) =~= rest);
    assert(prefix.is_prefix_of(whole));
    if prefix.is_prefix_of(text) {
        assert(prefix + text.skip(prefix.len() as int) =~= text);
    }
}

/// Joined texts stand in their order with the separator between them and nowhere else:
/// one more text comes after one more separator.
pub proof fn joined_texts_are_separated(
    parts: Seq<Seq<char>>,
    last: Seq<char>,
    separator: Seq<char>,
)
    ensures
        joined(Seq::empty(), separator).len() == 0,
        joined(seq![last], separator) == last,
        parts.len() > 0 ==> joined(parts.push(last), separator) == joined(parts, separator)
            + separator + last,
{
    assert(parts.push(last).drop_last() =~= parts);
}

/// Spaces, tabs and line ends are white space; letters, digits and slashes are not.
pub proof fn white_space_is_not_text(c: char)
    ensures
        white_space(' ') && white_space('\t') && white_space('\n') && white_space('\r'),
        'a' <= c <= 'z' || 'A' <= c <= 'Z' || '0' <= c <= '9' || c == '/' || c == ':' || c == '-'
            || c == '_' || c == '.' ==> !white_space(c),
{
}

proof fn lemma_trimmed_start(text: Seq<char>)
    ensures
        exists|n: int|
            0 <= n <= text.len() && trimmed_start(text) == #[trigger] text.skip(n) && forall|i: int|
                0 <= i < n ==> white_space(#[trigger] text[i]),
        trimmed_start(text).len() > 0 ==> !white_space(trimmed_start(text)[0]),
    decreases text.len(),
{
    if text.len() > 0 && white_space(text[0]) {
        let rest = text.drop_first();
        lemma_trimmed_start(rest);
        let n = choose|n: int|
            0 <= n <= rest.len() && trimmed_start(rest) == #[trigger] rest.skip(n) && forall|i: int|
                0 <= i < n ==> white_space(#[trigger] rest[i]);
        assert(rest.skip(n) =~= text.skip(n + 1));
        assert forall|i: int| 0 <= i < n + 1 implies white_space(#[trigger] text[i]) by {
            if i > 0 {
                assert(rest[i - 1] == text[i]);
            }
        }
    } else {
        assert(text.skip(0) =~= text);
    }
}

proof fn lemma_trimmed_end(text: Seq<char>)
    ensures
        exists|n: int|
            0 <= n <= text.len() && trimmed_end(text) == #[trigger] text.take(n) && forall|i: int|
                n <= i < text.len() ==> white_space(#[trigger] text[i]),
        trimmed_end(text).len() > 0 ==> !white_space(trimmed_end(text).last()),
    decreases text.len(),
{
    if text.len() > 0 && white_space(text.last()) {
        let rest = text.drop_last();
        lemma_trimmed_end(rest);
        let n = choose|n: int|
            0 <= n <= rest.len() && trimmed_end(rest) == #[trigger] rest.take(n) && forall|i: int|
                n <= i < rest.len() ==> white_space(#[trigger] rest[i]);
        assert(rest.take(n) =~= text.take(n));
        assert forall|i: int| n <= i < text.len() implies white_space(#[trigger] text[i]) by {
            if i < rest.len() {
                assert(rest[i] == text[i]);
            }
        }
    } else {
        assert(text.take(text.len() as int) =~= text);
    }
}

/// Trimming takes away white space at both ends, all of it, and nothing else.
pub proof fn trimming_takes_white_space_off_the_ends(text: Seq<char>)
    ensures
        exists|from: int, to: int|
            0 <= from <= to <= text.len() && trimmed(text) == #[trigger] text.subrange(from, to)
                && (forall|i: int| 0 <= i < from ==> white_space(#[trigger] text[i])) && (forall|
                i: int,
            |
                to <= i < text.len() ==> white_space(#[trigger] text[i])),
        trimmed(text).len() > 0 ==> !white_space(trimmed(text)[0]) && !white_space(
            trimmed(text).last(),
        ),
        trimmed(trimmed(text)) == trimmed(text),
{
    let start = trimmed_start(text);
    lemma_trimmed_start(text);
    lemma_trimmed_end(start);
    let from = choose|n: int|
        0 <= n <= text.len() && trimmed_start(text) == #[trigger] text.skip(n) && forall|i: int|
            0 <= i < n ==> white_space(#[trigger] text[i]);
    let n = choose|n: int|
        0 <= n <= start.len() && trimmed_end(start) == #[trigger] start.take(n) && forall|i: int|
            n <= i < start.len() ==> white_space(#[trigger] start[i]);
    let to = from + n;
    let kept = trimmed(text);
    assert(start.take(n) =~= text.subrange(from, to));
    assert forall|i: int| to <= i < text.len() implies white_space(#[trigger] text[i]) by {
        assert(start[i - from] == text[i]);
    }
    if kept.len() > 0 {
        assert(kept[0] == start[0]);
        assert(trimmed_start(kept) == kept);
        assert(trimmed_end(kept) == kept);
    } else {
        assert(trimmed_start(kept) == kept);
        assert(trimmed_end(kept) == kept);
    }
}

/// A lifecycle method is called by its action, and no two actions are called alike.
pub proof fn lifecycle_methods_are_called_by_their_action(
    a: RemoteLifecycleAction,
    b: RemoteLifecycleAction,
)
    ensures
        a.method() == "remote."@ + a.word(),
        a.word() == b.word() ==> a == b,
        RemoteLifecycleAction::Connect.word() == "connect"@,
        RemoteLifecycleAction::Disconnect.word() == "disconnect"@,
{
    reveal_strlit("remote.");
    reveal_strlit("remote.connect");
    reveal_strlit("remote.reconnect");
    reveal_strlit("remote.disconnect");
    reveal_strlit("connect");
    reveal_strlit("reconnect");
    reveal_strlit("disconnect");
    assert("remote."@ + "connect"@ =~= "remote.connect"@);
    assert("remote."@ + "reconnect"@ =~= "remote.reconnect"@);
    assert("remote."@ + "disconnect"@ =~= "remote.disconnect"@);
    assert("connect"@.len() == 7 && "reconnect"@.len() == 9 && "disconnect"@.len() == 10);
}

/// A server offers every change that may be routed to it, and every request to its
/// agents.
pub proof fn servers_offer_what_is_routed()
    ensures
        ({
            let offered = FederationCapabilities::current_methods();
            &&& offered.contains(FederationCapabilities::REMOTE_API_BRIDGE@)
            &&& offered.contains(FederationCapabilities::WORKSPACE_CREATE@)
            &&& offered.contains(FederationCapabilities::WORKSPACE_RENAME@)
            &&& offered.contains(FederationCapabilities::TAB_LIST@)
            &&& offered.contains(FederationCapabilities::TAB_CREATE@)
            &&& offered.contains(FederationCapabilities::TAB_FOCUS@)
            &&& offered.contains(FederationCapabilities::TAB_CLOSE@)
            &&& offered.contains(FederationCapabilities::TAB_RENAME@)
            &&& offered.contains(FederationCapabilities::PANE_SPLIT@)
            &&& offered.contains(FederationCapabilities::PANE_CLOSE@)
            &&& offered.contains(FederationCapabilities::PANE_RENAME@)
            &&& offered.contains(FederationCapabilities::PANE_FOCUS@)
            &&& offered.contains(FederationCapabilities::PANE_FOCUS_DIRECTION@)
            &&& offered.contains(FederationCapabilities::LAYOUT_EXPORT@)
            &&& offered.contains(FederationCapabilities::AGENT_READ@)
            &&& offered.contains(FederationCapabilities::AGENT_SEND@)
            &&& offered.contains(FederationCapabilities::AGENT_SUBMIT@)
            &&& offered.contains(FederationCapabilities::AGENT_FOCUS@)
            &&& offered.contains(FederationCapabilities::AGENT_START@)
            &&& offered.contains(FederationCapabilities::AGENT_TEARDOWN@)
            &&& offered.contains(FederationCapabilities::AGENT_LIST_LOCAL@)
            &&& offered.contains(FederationCapabilities::WORKSPACE_LIST_LOCAL@)
        }),
{
    let offered = FederationCapabilities::current_methods();
    assert(offered[0] == FederationCapabilities::REMOTE_API_BRIDGE@);
    assert(offered[1] == FederationCapabilities::WORKSPACE_CREATE@);
    assert(offered[2] == FederationCapabilities::WORKSPACE_LIST_LOCAL@);
    assert(offered[3] == FederationCapabilities::WORKSPACE_RENAME@);
    assert(offered[5] == FederationCapabilities::AGENT_LIST_LOCAL@);
    assert(offered[7] == FederationCapabilities::AGENT_READ@);
    assert(offered[8] == FederationCapabilities::AGENT_SEND@);
    assert(offered[9] == FederationCapabilities::AGENT_SUBMIT@);
    assert(offered[10] == FederationCapabilities::AGENT_FOCUS@);
    assert(offered[11] == FederationCapabilities::AGENT_START@);
    assert(offered[12] == FederationCapabilities::AGENT_TEARDOWN@);
    assert(offered[13] == FederationCapabilities::PANE_SPLIT@);
    assert(offered[14] == FederationCapabilities::PANE_CLOSE@);
    assert(offered[15] == FederationCapabilities::PANE_RENAME@);
    assert(offered[16] == FederationCapabilities::PANE_FOCUS@);
    assert(offered[17] == FederationCapabilities::PANE_FOCUS_DIRECTION@);
    assert(offered[18] == FederationCapabilities::TAB_LIST@);
    assert(offered[19] == FederationCapabilities::TAB_CREATE@);
    assert(offered[20] == FederationCapabilities::TAB_FOCUS@);
    assert(offered[21] == FederationCapabilities::TAB_CLOSE@);
    assert(offered[22] == FederationCapabilities::TAB_RENAME@);
    assert(offered[23] == FederationCapabilities::LAYOUT_EXPORT@);
}

/// Every one of the joined texts stands somewhere in the whole.
pub proof fn joined_texts_hold_their_parts(
    parts: Seq<Seq<char>>,
    separator: Seq<char>,
    i: int,
)
    requires
        0 <= i < parts.len(),
    ensures
        contains_part(joined(parts, separator), parts[i]),
    decreases parts.len(),
{
    let whole = joined(parts, separator);
    if parts.len() == 1 {
        assert(whole.subrange(0, parts[0].len() as int) =~= parts[0]);
        assert(stands_at(whole, parts[0], 0));
    } else {
        let rest = parts.drop_last();
        let head = joined(rest, separator);
        if i < rest.len() {
            joined_texts_hold_their_parts(rest, separator, i);
            let at = choose|at: int| stands_at(head, rest[i], at);
            assert(whole.subrange(at, at + parts[i].len()) =~= head.subrange(
                at,
                at + parts[i].len(),
            ));
            assert(stands_at(whole, parts[i], at));
        } else {
            let at = whole.len() - parts[i].len();
            assert(whole.subrange(at, at + parts[i].len()) =~= parts[i]);
            assert(stands_at(whole, parts[i], at));
        }
    }
}

/// A part of a part is a part.
pub proof fn parts_of_parts_are_parts(text: Seq<char>, part: Seq<char>, inner: Seq<char>)
    requires
        contains_part(text, part),
        contains_part(part, inner),
    ensures
        contains_part(text, inner),
{
    let i = choose|i: int| stands_at(text, part, i);
    let j = choose|j: int| stands_at(part, inner, j);
    assert(text.subrange(i + j, i + j + inner.len()) =~= part.subrange(j, j + inner.len()));
    assert(stands_at(text, inner, i + j));
}

} // verus!
