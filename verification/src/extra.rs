//! Fields a server sent beyond the standard ones.

use vstd::prelude::*;

use crate::codec::pair_texts;
use crate::cookie::{lemma_value_named_at, lemma_value_named_none, value_named};
use crate::text::{opt_str, same_text};

verus! {

/// Named fields beyond the standard ones, each with its value as JSON text.
#[derive(Debug, Clone)]
pub struct ExtraFields(pub Vec<(String, String)>);

/// The fields, in order: name and JSON text.
impl View for ExtraFields {
    type V = Seq<(Seq<char>, Seq<char>)>;

    open spec fn view(&self) -> Seq<(Seq<char>, Seq<char>)> {
        pair_texts(self.0@)
    }
}

impl Default for ExtraFields {
    fn default() -> (f: Self)
        ensures
            f.0@.len() == 0,
    {
        ExtraFields(Vec::new())
    }
}

impl ExtraFields {
    /// The JSON text of the first field named `name`.
    #[must_use]
    pub fn get(&self, name: &str) -> (value: Option<&str>)
        ensures
            opt_str(value) == value_named(self@, name@),
    {
        let ghost all = self@;
        let mut i: usize = 0;
        while i < self.0.len()
            invariant
                i <= self.0@.len(),
                all == self@,
                forall|k: int| 0 <= k < i ==> (#[trigger] all[k]).0 != name@,
            decreases self.0@.len() - i,
        {
            proof {
                assert(all[i as int] == (self.0@[i as int].0@, self.0@[i as int].1@));
            }
            if same_text(self.0[i].0.as_str(), name) {
                proof {
                    lemma_value_named_at(all, name@, i as int);
                }
                return Some(self.0[i].1.as_str());
            }
            i = i + 1;
        }
        proof {
            lemma_value_named_none(all, name@);
        }
        None
    }
}

/// A field is found by its name, and of several of one name the first counts.
pub proof fn law_first_field_counts(fields: ExtraFields, name: &str, at: int, value: Option<&str>)
    requires
        call_ensures(ExtraFields::get, (&fields, name), value),
    ensures
        (forall|i: int| 0 <= i < fields@.len() ==> (#[trigger] fields@[i]).0 != name@)
            ==> value is None,
        0 <= at < fields@.len() && fields@[at].0 == name@ && (forall|k: int|
            0 <= k < at ==> (#[trigger] fields@[k]).0 != name@) ==> value is Some && value->0@
            == fields@[at].1,
{
    if forall|i: int| 0 <= i < fields@.len() ==> (#[trigger] fields@[i]).0 != name@ {
        lemma_value_named_none(fields@, name@);
    }
    if 0 <= at < fields@.len() && fields@[at].0 == name@ && (forall|k: int|
        0 <= k < at ==> (#[trigger] fields@[k]).0 != name@) {
        lemma_value_named_at(fields@, name@, at);
    }
}

} // verus!
