//! The muted-words preference list.
//!
//! The provider keeps an account's muted keywords inside a preference
//! object; muting or unmuting a keyword means fetching the preferences,
//! editing this list, and writing the preferences back.  The fetch and the
//! write-back are provider calls made by the caller; the edits themselves
//! are verified here over a plain model of the list.

use vstd::prelude::*;

use crate::store::str_eq;

verus! {

/// One muted keyword and the places it applies to.
pub struct MutedWord {
    pub targets: Vec<String>,
    pub value: String,
}

/// The muted-words preference: the list of muted keywords of one account.
pub struct MutedWordsPref {
    pub items: Vec<MutedWord>,
}

impl MutedWordsPref {
    /// A preference with no muted keyword.
    pub fn new() -> (p: Self)
        ensures
            p.items@.len() == 0,
    {
        MutedWordsPref { items: Vec::new() }
    }
}

/// The items of `items` whose keyword is not `word`, in order.
pub open spec fn words_without(items: Seq<MutedWord>, word: Seq<char>) -> Seq<MutedWord>
    decreases items.len(),
{
    if items.len() == 0 {
        Seq::empty()
    } else {
        words_without(items.drop_last(), word) + if items.last().value@ != word {
            seq![items.last()]
        } else {
            Seq::empty()
        }
    }
}

/// Add `mute_word` to the preference list: one new item for the keyword,
/// applying to tagged and plain content, behind the existing items.
pub fn add_mute_word_to_pref(pref: &mut MutedWordsPref, mute_word: String)
    ensures
        final(pref).items@.len() == old(pref).items@.len() + 1,
        forall|i: int|
            0 <= i < old(pref).items@.len() ==> final(pref).items@[i] == old(pref).items@[i],
        final(pref).items@.last().value == mute_word,
        final(pref).items@.last().targets.deep_view() == seq!["tag"@, "content"@],
{
    let mut targets: Vec<String> = Vec::new();
    targets.push("tag".to_owned());
    targets.push("content".to_owned());
    proof {
        assert(targets.deep_view() =~= seq!["tag"@, "content"@]);
    }
    let word = MutedWord { targets, value: mute_word };
    pref.items.push(word);
}

/// Remove every item for `mute_word` from the preference list; items for
/// other keywords keep their order.
pub fn remove_mute_word_from_pref(pref: &mut MutedWordsPref, mute_word: &str)
    ensures
        final(pref).items@ == words_without(old(pref).items@, mute_word@),
{
    let ghost items0 = pref.items@;
    let ghost mut n: int = 0;
    let mut i: usize = 0;
    while i < pref.items.len()
        invariant
            0 <= n <= items0.len(),
            i == words_without(items0.subrange(0, n), mute_word@).len(),
            pref.items@ == words_without(items0.subrange(0, n), mute_word@) + items0.subrange(
                n,
                items0.len() as int,
            ),
        decreases items0.len() - n,
    {
        let ghost prefix = items0.subrange(0, n);
        let ghost prefix1 = items0.subrange(0, n + 1);
        proof {
            assert(prefix1.drop_last() =~= prefix);
            assert(prefix1.last() == items0[n]);
            assert(n < items0.len()) by {
                if n == items0.len() {
                    assert(items0.subrange(n, items0.len() as int).len() == 0);
                }
            }
            assert(pref.items@[i as int] == items0[n]);
        }
        let hit = str_eq(pref.items[i].value.as_str(), mute_word);
        if hit {
            pref.items.remove(i);
            proof {
                assert(words_without(prefix1, mute_word@) =~= words_without(prefix, mute_word@));
                assert(pref.items@ =~= words_without(prefix1, mute_word@) + items0.subrange(
                    n + 1,
                    items0.len() as int,
                ));
            }
        } else {
            proof {
                assert(words_without(prefix1, mute_word@) =~= words_without(
                    prefix,
                    mute_word@,
                ).push(items0[n]));
                assert(pref.items@ =~= words_without(prefix1, mute_word@) + items0.subrange(
                    n + 1,
                    items0.len() as int,
                ));
            }
            i += 1;
        }
        proof {
            n = n + 1;
        }
    }
    proof {
        assert(n == items0.len()) by {
            if n < items0.len() {
                assert(pref.items@.len() >= items0.subrange(n, items0.len() as int).len());
            }
        }
        assert(items0.subrange(0, items0.len() as int) =~= items0);
        assert(items0.subrange(n, items0.len() as int).len() == 0);
        assert(pref.items@ =~= words_without(items0, mute_word@));
    }
}

} // verus!
