//! Error chains, for logs.

use vstd::prelude::*;

use crate::text::texts;

verus! {

/// Messages joined by a colon and a space.
pub open spec fn chained(messages: Seq<Seq<char>>) -> Seq<char>
    decreases messages.len(),
{
    if messages.len() == 0 {
        Seq::empty()
    } else if messages.len() == 1 {
        messages[0]
    } else {
        chained(messages.drop_last()) + ": "@ + messages.last()
    }
}

/// Formats the messages of an error and of its full source chain as a
/// colon-separated string, e.g. `"outer: middle: root cause"`.
pub fn error_chain(messages: &Vec<String>) -> (s: String)
    ensures
        s@ == chained(texts(messages@)),
{
    let ghost all = texts(messages@);
    let mut s = String::new();
    let mut i: usize = 0;
    proof {
        assert(all.take(0) =~= Seq::<Seq<char>>::empty());
        assert(s@ =~= chained(all.take(0)));
    }
    while i < messages.len()
        invariant
            i <= messages@.len() == all.len(),
            all == texts(messages@),
            s@ == chained(all.take(i as int)),
        decreases messages@.len() - i,
    {
        let ghost before = s@;
        if i > 0 {
            s.append(": ");
        }
        s.append(messages[i].as_str());
        proof {
            let now = all.take(i + 1);
            assert(now.drop_last() =~= all.take(i as int));
            assert(now.last() == messages@[i as int]@);
            assert(s@ =~= chained(now));
        }
        i = i + 1;
    }
    proof {
        assert(all.take(all.len() as int) =~= all);
    }
    s
}

/// A longer chain is the shorter one, a colon and a space, and the last message.
pub proof fn law_chain_grows_at_its_end(messages: Seq<Seq<char>>, last: Seq<char>)
    ensures
        messages.len() > 0 ==> chained(messages.push(last)) == chained(messages) + ": "@ + last,
        messages.len() == 0 ==> chained(messages.push(last)) == last,
{
    assert(messages.push(last).drop_last() =~= messages);
}

/// The messages of an error are told in order, joined by a colon and a space.
pub proof fn law_error_is_told_in_order(messages: Vec<String>, s: String)
    requires
        call_ensures(error_chain, (&messages,), s),
    ensures
        messages@.len() == 0 ==> s@.len() == 0,
        messages@.len() == 1 ==> s@ == messages@[0]@,
        messages@.len() == 2 ==> s@ == messages@[0]@ + ": "@ + messages@[1]@,
        s@ == chained(texts(messages@)),
{
    let all = texts(messages@);
    assert(all.len() == messages@.len());
    if messages@.len() >= 1 {
        assert(all[0] == messages@[0]@);
    }
    if messages@.len() == 2 {
        assert(all =~= seq![messages@[0]@].push(messages@[1]@));
        law_chain_grows_at_its_end(seq![messages@[0]@], messages@[1]@);
    }
}

} // verus!
