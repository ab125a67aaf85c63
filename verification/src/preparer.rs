//! Whether a message may stay: the verdict on the links it holds.

use vstd::prelude::*;

use crate::links::{find_links, links_in};

verus! {

/// The links of a message that are checked: none for a message of a bot,
/// else every link in it, in order.
pub open spec fn checked_links(author_bot: bool, content: Seq<char>) -> Seq<Seq<char>> {
    if author_bot {
        Seq::empty()
    } else {
        links_in(content)
    }
}

/// The verdict on a message from the outcomes of its link checks, in order
/// (`None` for a check that failed): the first check that succeeded decides;
/// with none, the message stays.
pub open spec fn message_verdict(outcomes: Seq<Option<bool>>) -> bool
    decreases outcomes.len(),
{
    if outcomes.len() == 0 {
        true
    } else {
        match outcomes[0] {
            Some(safe) => safe,
            None => message_verdict(outcomes.drop_first()),
        }
    }
}

/// The links of a message that are checked, in order.
pub fn links_to_check(author_bot: bool, content: &str) -> (r: Vec<String>)
    ensures
        r@.map_values(|s: String| s@) == checked_links(author_bot, content@),
{
    if author_bot {
        let r: Vec<String> = Vec::new();
        assert(r@.map_values(|s: String| s@) =~= Seq::<Seq<char>>::empty());
        r
    } else {
        find_links(content)
    }
}

/// The verdict on a message from the outcomes of its link checks so far:
/// `Some` once a check succeeded or when all were tried, `None` while the
/// next link still has to be checked.
pub fn message_verdict_after(outcomes: &Vec<Option<bool>>, links: usize) -> (r: Option<bool>)
    requires
        outcomes@.len() <= links,
    ensures
        r matches Some(v) ==> v == message_verdict(outcomes@),
        r is None <==> (outcomes@.len() < links && forall|i: int|
            0 <= i < outcomes@.len() ==> #[trigger] outcomes@[i] is None),
        forall|i: int|
            0 <= i < outcomes@.len() && #[trigger] outcomes@[i] is Some && (forall|j: int|
                0 <= j < i ==> outcomes@[j] is None) ==> r == outcomes@[i],
        outcomes@.len() == links && (forall|i: int|
            0 <= i < outcomes@.len() ==> #[trigger] outcomes@[i] is None) ==> r == Some(true),
{
    let mut i: usize = 0;
    assert(outcomes@.skip(0) =~= outcomes@);
    while i < outcomes.len()
        invariant
            0 <= i <= outcomes@.len(),
            forall|j: int| 0 <= j < i ==> #[trigger] outcomes@[j] is None,
            message_verdict(outcomes@) == message_verdict(outcomes@.skip(i as int)),
        decreases outcomes@.len() - i,
    {
        assert(outcomes@.skip(i as int)[0] == outcomes@[i as int]);
        if let Some(safe) = outcomes[i] {
            return Some(safe);
        }
        assert(outcomes@.skip(i as int).drop_first() =~= outcomes@.skip(i + 1));
        i = i + 1;
    }
    assert(outcomes@.skip(i as int) =~= Seq::<Option<bool>>::empty());
    if outcomes.len() < links {
        None
    } else {
        Some(true)
    }
}

/// A message of a bot stays without any check, and so does a message
/// without links.
pub proof fn lemma_no_links_stays(author_bot: bool, content: Seq<char>)
    ensures
        author_bot ==> checked_links(author_bot, content).len() == 0,
        message_verdict(Seq::<Option<bool>>::empty()),
{
}

/// The first check that succeeded decides: when the checks before index `i`
/// all failed and the check at `i` succeeded, the verdict is its outcome.
pub proof fn lemma_first_success_decides(outcomes: Seq<Option<bool>>, i: int)
    requires
        0 <= i < outcomes.len(),
        outcomes[i] is Some,
        forall|j: int| 0 <= j < i ==> #[trigger] outcomes[j] is None,
    ensures
        message_verdict(outcomes) == outcomes[i]->0,
    decreases i,
{
    if i > 0 {
        lemma_first_success_decides(outcomes.drop_first(), i - 1);
    }
}

/// When no check succeeded, the message stays.
pub proof fn lemma_no_success_keeps(outcomes: Seq<Option<bool>>)
    requires
        forall|j: int| 0 <= j < outcomes.len() ==> #[trigger] outcomes[j] is None,
    ensures
        message_verdict(outcomes),
    decreases outcomes.len(),
{
    if outcomes.len() > 0 {
        lemma_no_success_keeps(outcomes.drop_first());
    }
}

/// A check that succeeds with "unsafe" before any other success removes the
/// message, and one that succeeds with "safe" keeps it; later outcomes do not
/// matter.
pub proof fn lemma_first_outcome_decides(first: bool, rest: Seq<Option<bool>>)
    ensures
        message_verdict(seq![Some(first)] + rest) == first,
        message_verdict(seq![None] + rest) == message_verdict(rest),
{
    assert((seq![None] + rest).drop_first() =~= rest);
}

} // verus!
