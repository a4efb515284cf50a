//! Filtering a raw directory listing down to the entries the browser
//! shows: OS metadata noise is excluded by exact name.

use vstd::prelude::*;
use crate::nav::Entry;

verus! {

/// An entry name is shown unless it is the macOS Finder metadata file.
pub open spec fn visible(name: Seq<char>) -> bool {
    name != ".DS_Store"@
}

/// The subsequence of `s` whose names are visible, in the order given.
pub open spec fn visible_entries(s: Seq<Entry>) -> Seq<Entry>
    decreases s.len(),
{
    if s.len() == 0 {
        Seq::empty()
    } else if visible(s.last().name@) {
        visible_entries(s.drop_last()).push(s.last())
    } else {
        visible_entries(s.drop_last())
    }
}

impl Clone for Entry {
    /// A clone carries the same name, kind and path as its source.
    fn clone(&self) -> (r: Self)
        ensures
            r == *self,
    {
        Entry { name: self.name.clone(), is_dir: self.is_dir, path: self.path.clone() }
    }
}

/// Keep the entries whose names are visible, dropping the OS metadata
/// names; the order of the kept entries is the order given.
pub fn filter_visible(raw: &Vec<Entry>) -> (r: Vec<Entry>)
    ensures
        r@ == visible_entries(raw@),
{
    let mut out: Vec<Entry> = Vec::new();
    let hidden: String = String::from_str(".DS_Store");
    let mut i: usize = 0;
    while i < raw.len()
        invariant
            i <= raw.len(),
            hidden@ == ".DS_Store"@,
            out@ == visible_entries(raw@.take(i as int)),
        decreases raw.len() - i,
    {
        let e = &raw[i];
        if !(e.name == hidden) {
            out.push(e.clone());
        }
        proof {
            assert(raw@.take(i as int + 1).drop_last() =~= raw@.take(i as int));
            assert(raw@.take(i as int + 1).last() == raw@[i as int]);
        }
        i = i + 1;
    }
    proof {
        assert(raw@.take(raw.len() as int) =~= raw@);
    }
    out
}

/// Every entry the filter keeps has a visible name.
pub proof fn lemma_filtered_all_visible(s: Seq<Entry>)
    ensures
        forall|i: int| 0 <= i < visible_entries(s).len() ==> visible(
            #[trigger] visible_entries(s)[i].name@,
        ),
    decreases s.len(),
{
    if s.len() > 0 {
        lemma_filtered_all_visible(s.drop_last());
        let sub = visible_entries(s.drop_last());
        if visible(s.last().name@) {
            assert forall|i: int| 0 <= i < visible_entries(s).len() implies visible(
                visible_entries(s)[i].name@,
            ) by {
                if i < sub.len() {
                    assert(visible_entries(s)[i] == sub[i]);
                } else {
                    assert(visible_entries(s)[i] == s.last());
                }
            }
        }
    }
}

/// Every entry of the input whose name is visible is kept by the filter.
pub proof fn lemma_filtered_keeps_visible(s: Seq<Entry>, i: int)
    requires
        0 <= i < s.len(),
        visible(s[i].name@),
    ensures
        visible_entries(s).contains(s[i]),
    decreases s.len(),
{
    if i == s.len() - 1 {
        assert(visible_entries(s).last() == s[i]);
    } else {
        lemma_filtered_keeps_visible(s.drop_last(), i);
        let sub = visible_entries(s.drop_last());
        let j = choose|j: int| 0 <= j < sub.len() && sub[j] == s.drop_last()[i];
        if visible(s.last().name@) {
            assert(visible_entries(s)[j] == s[i]);
        } else {
            assert(visible_entries(s)[j] == s[i]);
        }
    }
}

} // verus!
