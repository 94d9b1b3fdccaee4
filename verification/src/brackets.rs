//! Bracket matching: whether a piece of input can be run as it stands, needs
//! further lines, or can no longer be completed.

use vstd::prelude::*;
use vstd::std_specs::iter::IteratorSpec;

verus! {

/// `(`, `[` or `{`.
pub open spec fn is_opener(c: char) -> bool {
    c == '(' || c == '[' || c == '{'
}

/// `)`, `]` or `}`.
pub open spec fn is_closer(c: char) -> bool {
    c == ')' || c == ']' || c == '}'
}

/// Whether `close` is the bracket that closes `open`.
pub open spec fn closes(open: char, close: char) -> bool {
    (open == '(' && close == ')') || (open == '[' && close == ']') || (open == '{' && close
        == '}')
}

/// The open brackets after one more character: an opener is pushed, a closer
/// takes its partner off the top or fails, anything else changes nothing.
pub open spec fn after(open: Seq<char>, c: char) -> Option<Seq<char>> {
    if is_opener(c) {
        Some(open.push(c))
    } else if is_closer(c) {
        if open.len() > 0 && closes(open.last(), c) {
            Some(open.drop_last())
        } else {
            None
        }
    } else {
        Some(open)
    }
}

/// The brackets that `text` has opened and not closed, outermost first, or
/// `None` if some closer in `text` did not meet its partner.
pub open spec fn pending(text: Seq<char>) -> Option<Seq<char>>
    decreases text.len(),
{
    if text.len() == 0 {
        Some(Seq::empty())
    } else {
        match pending(text.drop_last()) {
            Some(open) => after(open, text.last()),
            None => None,
        }
    }
}

/// What the brackets of a piece of input say about it.
#[derive(Clone, Copy, Debug, PartialEq, Eq, Structural)]
pub enum Balance {
    /// Every bracket is closed by its partner.
    Complete,
    /// Nothing is wrong so far, but some bracket is still open.
    Incomplete,
    /// A closer stands where another, or none, was due.
    Mismatched,
}

/// The balance of `text`.
pub open spec fn balance_of(text: Seq<char>) -> Balance {
    match pending(text) {
        Some(open) => if open.len() == 0 {
            Balance::Complete
        } else {
            Balance::Incomplete
        },
        None => Balance::Mismatched,
    }
}

/// Whether every bracket of `text` is closed by its partner.
pub open spec fn balanced(text: Seq<char>) -> bool {
    balance_of(text) == Balance::Complete
}

fn opener(c: char) -> (b: bool)
    ensures
        b == is_opener(c),
{
    c == '(' || c == '[' || c == '{'
}

fn closer(c: char) -> (b: bool)
    ensures
        b == is_closer(c),
{
    c == ')' || c == ']' || c == '}'
}

fn partner(open: char, close: char) -> (b: bool)
    ensures
        b == closes(open, close),
{
    (open == '(' && close == ')') || (open == '[' && close == ']') || (open == '{' && close
        == '}')
}

/// Scans `text` once and reports the balance of its brackets.
pub fn check(text: &str) -> (b: Balance)
    ensures
        b == balance_of(text@),
{
    let mut open: Vec<char> = Vec::new();
    let mut chars = text.chars();
    let ghost mut seen: Seq<char> = Seq::empty();
    loop
        invariant
            seen + chars.remaining() == text@,
            pending(seen) == Some(open@),
            chars.obeys_prophetic_iter_laws(),
            chars.decrease() is Some,
        ensures
            pending(text@) == Some(open@),
        decreases chars.decrease()->0,
    {
        match chars.next() {
            None => {
                assert(seen =~= text@);
                break ;
            },
            Some(c) => {
                proof {
                    let grown = seen.push(c);
                    assert(grown.drop_last() =~= seen);
                    assert(grown + chars.remaining() =~= text@);
                    seen = grown;
                }
                if opener(c) {
                    open.push(c);
                } else if closer(c) {
                    if open.len() > 0 && partner(open[open.len() - 1], c) {
                        open.pop();
                    } else {
                        proof {
                            lemma_mismatch_stays(seen, chars.remaining());
                        }
                        return Balance::Mismatched;
                    }
                }
            },
        }
    }
    if open.len() == 0 {
        Balance::Complete
    } else {
        Balance::Incomplete
    }
}

/// Once a closer has failed, no continuation repairs the text.
pub proof fn lemma_mismatch_stays(text: Seq<char>, more: Seq<char>)
    requires
        pending(text) is None,
    ensures
        pending(text + more) is None,
    decreases more.len(),
{
    if more.len() == 0 {
        assert(text + more =~= text);
    } else {
        lemma_mismatch_stays(text, more.drop_last());
        assert((text + more).drop_last() =~= text + more.drop_last());
    }
}

/// Reading on after `text` goes as reading `more` alone does, on top of what
/// `text` left open: if neither fails by itself, their open brackets add up.
pub proof fn lemma_pending_append(text: Seq<char>, more: Seq<char>)
    requires
        pending(text) is Some,
        pending(more) is Some,
    ensures
        pending(text + more) == Some(pending(text)->0 + pending(more)->0),
    decreases more.len(),
{
    let open = pending(text)->0;
    if more.len() == 0 {
        assert(text + more =~= text);
        assert(open + Seq::<char>::empty() =~= open);
    } else {
        let head = more.drop_last();
        let c = more.last();
        lemma_pending_append(text, head);
        assert((text + more).drop_last() =~= text + head);
        let inner = pending(head)->0;
        if is_opener(c) {
            assert((open + inner).push(c) =~= open + inner.push(c));
        } else if is_closer(c) {
            assert((open + inner).last() == inner.last());
            assert((open + inner).drop_last() =~= open + inner.drop_last());
        }
    }
}

/// Text without any bracket is complete.
pub proof fn lemma_plain_text_is_balanced(text: Seq<char>)
    requires
        forall|i: int| 0 <= i < text.len() ==> !is_opener(text[i]) && !is_closer(text[i]),
    ensures
        balanced(text),
    decreases text.len(),
{
    if text.len() > 0 {
        lemma_plain_text_is_balanced(text.drop_last());
    }
}

/// Two complete texts, one after the other, are complete.
pub proof fn lemma_balanced_concat(first: Seq<char>, second: Seq<char>)
    requires
        balanced(first),
        balanced(second),
    ensures
        balanced(first + second),
{
    lemma_pending_append(first, second);
}

/// A complete text between a bracket and its partner is complete.
pub proof fn lemma_balanced_enclosed(open: char, inner: Seq<char>, close: char)
    requires
        closes(open, close),
        balanced(inner),
    ensures
        balanced(seq![open] + inner + seq![close]),
{
    let left = seq![open];
    assert(left.drop_last() =~= Seq::<char>::empty());
    assert(pending(left.drop_last()) == Some(Seq::<char>::empty()));
    assert(pending(left) == Some(Seq::<char>::empty().push(open)));
    lemma_pending_append(left, inner);
    let whole = left + inner + seq![close];
    assert(whole.drop_last() =~= left + inner);
    assert(pending(whole.drop_last())->0 =~= seq![open]);
    assert(seq![open].drop_last() =~= Seq::<char>::empty());
}

} // verus!
