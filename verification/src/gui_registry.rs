use vstd::prelude::*;

use crate::ui_display::UiDisplayDescription;

verus! {

/// The position of the entry registered under `category`, if any.
pub open spec fn registered_index<S>(items: Seq<(String, UiDisplayDescription, S)>, category: Seq<char>) -> Option<int> {
    if exists|i: int| 0 <= i < items.len() && (#[trigger] items[i]).0@ == category {
        Some(choose|i: int| 0 <= i < items.len() && (#[trigger] items[i]).0@ == category)
    } else {
        None
    }
}

/// The description and the sender registered under `category`, if any.
pub open spec fn registered_entry<S>(items: Seq<(String, UiDisplayDescription, S)>, category: Seq<char>) -> Option<(UiDisplayDescription, S)> {
    match registered_index(items, category) {
        Some(k) => Some((items[k].1, items[k].2)),
        None => None,
    }
}

/// No category is registered twice.
pub open spec fn unique_categories<S>(items: Seq<(String, UiDisplayDescription, S)>) -> bool {
    forall|i: int, j: int|
        0 <= i < j < items.len() ==> (#[trigger] items[i]).0@ != (#[trigger] items[j]).0@
}

/// In entries with unique categories, the entry at `k` is the one found for
/// its category.
proof fn lemma_entry_at<S>(items: Seq<(String, UiDisplayDescription, S)>, k: int)
    requires
        unique_categories(items),
        0 <= k < items.len(),
    ensures
        registered_entry(items, items[k].0@) == Some((items[k].1, items[k].2)),
{
    let c = items[k].0@;
    let m = choose|i: int| 0 <= i < items.len() && (#[trigger] items[i]).0@ == c;
    if m < k {
        assert(items[m].0@ != items[k].0@);
    } else if m > k {
        assert(items[k].0@ != items[m].0@);
    }
}

/// Where some entry has a category, the entry found for it is one of them;
/// where none has it, nothing is found.
proof fn lemma_entry_lookup<S>(items: Seq<(String, UiDisplayDescription, S)>, c: Seq<char>)
    requires
        unique_categories(items),
    ensures
        registered_entry(items, c) is None <==> forall|i: int|
            0 <= i < items.len() ==> (#[trigger] items[i]).0@ != c,
{
    if exists|i: int| 0 <= i < items.len() && (#[trigger] items[i]).0@ == c {
        let j = choose|i: int| 0 <= i < items.len() && (#[trigger] items[i]).0@ == c;
        lemma_entry_at(items, j);
    }
}

/// Entries that agree with `items` on every category but `c`, found the
/// same way: for every other category the same entry is found.
proof fn lemma_other_entries<S>(
    items: Seq<(String, UiDisplayDescription, S)>,
    changed: Seq<(String, UiDisplayDescription, S)>,
    c: Seq<char>,
    other: Seq<char>,
)
    requires
        unique_categories(items),
        unique_categories(changed),
        other != c,
        forall|i: int|
            0 <= i < changed.len() && (#[trigger] changed[i]).0@ != c ==> exists|j: int|
                0 <= j < items.len() && #[trigger] items[j] == changed[i],
        forall|j: int|
            0 <= j < items.len() && (#[trigger] items[j]).0@ != c ==> exists|i: int|
                0 <= i < changed.len() && #[trigger] changed[i] == items[j],
    ensures
        registered_entry(changed, other) == registered_entry(items, other),
{
    if exists|i: int| 0 <= i < changed.len() && (#[trigger] changed[i]).0@ == other {
        let i = choose|i: int| 0 <= i < changed.len() && (#[trigger] changed[i]).0@ == other;
        let j = choose|j: int| 0 <= j < items.len() && #[trigger] items[j] == changed[i];
        lemma_entry_at(changed, i);
        lemma_entry_at(items, j);
    } else if exists|j: int| 0 <= j < items.len() && (#[trigger] items[j]).0@ == other {
        let j = choose|j: int| 0 <= j < items.len() && (#[trigger] items[j]).0@ == other;
        let i = choose|i: int| 0 <= i < changed.len() && #[trigger] changed[i] == items[j];
        assert(changed[i].0@ == other);
    }
}

/// The items registered on the settings window, each under its category,
/// with the sender through which changes to it are reported.
pub struct GuiItemRegistry<S> {
    pub registered_items: Vec<(String, UiDisplayDescription, S)>,
}

impl<S> GuiItemRegistry<S> {
    /// No category is registered twice.
    pub open spec fn wf(&self) -> bool {
        unique_categories(self.registered_items@)
    }

    /// The description and sender registered under `category`, if any.
    pub open spec fn entry(&self, category: Seq<char>) -> Option<(UiDisplayDescription, S)> {
        registered_entry(self.registered_items@, category)
    }

    /// Nothing registered.
    pub fn new() -> (registry: Self)
        ensures
            registry.wf(),
            forall|c: Seq<char>| #[trigger] registry.entry(c) is None,
    {
        GuiItemRegistry { registered_items: Vec::new() }
    }

    /// The position of `category` among the entries, if it is registered.
    fn find(&self, category: &String) -> (index: Option<usize>)
        requires
            self.wf(),
        ensures
            match index {
                Some(k) => k < self.registered_items@.len() && self.registered_items@[k as int].0@
                    == category@,
                None => forall|i: int|
                    0 <= i < self.registered_items@.len() ==> (#[trigger] self.registered_items@[i]).0@
                        != category@,
            },
    {
        let mut index: usize = 0;
        while index < self.registered_items.len()
            invariant
                index <= self.registered_items@.len(),
                forall|i: int| 0 <= i < index ==> (#[trigger] self.registered_items@[i]).0@ != category@,
            decreases self.registered_items@.len() - index,
        {
            if self.registered_items[index].0 == *category {
                return Some(index);
            }
            index = index + 1;
        }
        None
    }

    /// Registers `item` under `category`, with `sender` for its changes. An
    /// item already registered under that category is replaced. Returns
    /// whether the category was new.
    pub fn register_item(&mut self, category: &String, item: UiDisplayDescription, sender: S) -> (inserted: bool)
        requires
            old(self).wf(),
        ensures
            final(self).wf(),
            inserted == (old(self).entry(category@) is None),
            final(self).entry(category@) == Some((item, sender)),
            forall|c: Seq<char>| c != category@ ==> #[trigger] final(self).entry(c) == old(self).entry(c),
    {
        let ghost before = self.registered_items@;
        proof {
            lemma_entry_lookup(before, category@);
        }
        match self.find(category) {
            Some(k) => {
                let key = self.registered_items[k].0.clone();
                self.registered_items.set(k, (key, item, sender));
                proof {
                    let after = self.registered_items@;
                    assert forall|i: int, j: int| 0 <= i < j < after.len() implies (#[trigger] after[i]).0@
                        != (#[trigger] after[j]).0@ by {
                        assert(before[i].0@ != before[j].0@);
                    }
                    lemma_entry_at(after, k as int);
                    assert forall|c: Seq<char>| c != category@ implies #[trigger] registered_entry(after, c)
                        == registered_entry(before, c) by {
                        assert forall|i: int| 0 <= i < after.len() && (#[trigger] after[i]).0@ != category@ implies exists|j: int|
                            0 <= j < before.len() && #[trigger] before[j] == after[i] by {
                            assert(before[i] == after[i]);
                        }
                        assert forall|j: int| 0 <= j < before.len() && (#[trigger] before[j]).0@ != category@ implies exists|i: int|
                            0 <= i < after.len() && #[trigger] after[i] == before[j] by {
                            assert(before[j] == after[j]);
                        }
                        lemma_other_entries(before, after, category@, c);
                    }
                }
                false
            },
            None => {
                let key = category.clone();
                self.registered_items.push((key, item, sender));
                proof {
                    let after = self.registered_items@;
                    assert forall|i: int, j: int| 0 <= i < j < after.len() implies (#[trigger] after[i]).0@
                        != (#[trigger] after[j]).0@ by {
                        if j == before.len() {
                            assert(before[i] == after[i]);
                        } else {
                            assert(before[i].0@ != before[j].0@);
                        }
                    }
                    lemma_entry_at(after, before.len() as int);
                    assert forall|c: Seq<char>| c != category@ implies #[trigger] registered_entry(after, c)
                        == registered_entry(before, c) by {
                        assert forall|i: int| 0 <= i < after.len() && (#[trigger] after[i]).0@ != category@ implies exists|j: int|
                            0 <= j < before.len() && #[trigger] before[j] == after[i] by {
                            assert(before[i] == after[i]);
                        }
                        assert forall|j: int| 0 <= j < before.len() && (#[trigger] before[j]).0@ != category@ implies exists|i: int|
                            0 <= i < after.len() && #[trigger] after[i] == before[j] by {
                            assert(before[j] == after[j]);
                        }
                        lemma_other_entries(before, after, category@, c);
                    }
                }
                true
            },
        }
    }

    /// Removes the item registered under `category`. Returns whether there
    /// was one.
    pub fn deregister_item(&mut self, category: &String) -> (removed: bool)
        requires
            old(self).wf(),
        ensures
            final(self).wf(),
            removed == (old(self).entry(category@) is Some),
            final(self).entry(category@) is None,
            forall|c: Seq<char>| c != category@ ==> #[trigger] final(self).entry(c) == old(self).entry(c),
    {
        let ghost before = self.registered_items@;
        proof {
            lemma_entry_lookup(before, category@);
        }
        match self.find(category) {
            Some(k) => {
                let _ = self.registered_items.remove(k);
                proof {
                    let after = self.registered_items@;
                    assert(after =~= before.remove(k as int));
                    assert forall|i: int, j: int| 0 <= i < j < after.len() implies (#[trigger] after[i]).0@
                        != (#[trigger] after[j]).0@ by {
                        if i < k {
                            if j < k {
                                assert(before[i].0@ != before[j].0@);
                            } else {
                                assert(before[i].0@ != before[j + 1].0@);
                            }
                        } else {
                            assert(before[i + 1].0@ != before[j + 1].0@);
                        }
                    }
                    assert forall|i: int| 0 <= i < after.len() implies (#[trigger] after[i]).0@ != category@ by {
                        if i < k {
                            assert(before[i].0@ != before[k as int].0@);
                        } else {
                            assert(before[k as int].0@ != before[i + 1].0@);
                        }
                    }
                    lemma_entry_lookup(after, category@);
                    assert forall|c: Seq<char>| c != category@ implies #[trigger] registered_entry(after, c)
                        == registered_entry(before, c) by {
                        assert forall|i: int| 0 <= i < after.len() && (#[trigger] after[i]).0@ != category@ implies exists|j: int|
                            0 <= j < before.len() && #[trigger] before[j] == after[i] by {
                            if i < k {
                                assert(before[i] == after[i]);
                            } else {
                                assert(before[i + 1] == after[i]);
                            }
                        }
                        assert forall|j: int| 0 <= j < before.len() && (#[trigger] before[j]).0@ != category@ implies exists|i: int|
                            0 <= i < after.len() && #[trigger] after[i] == before[j] by {
                            if j < k {
                                assert(after[j] == before[j]);
                            } else {
                                assert(j != k);
                                assert(after[j - 1] == before[j]);
                            }
                        }
                        lemma_other_entries(before, after, category@, c);
                    }
                }
                true
            },
            None => false,
        }
    }
}

} // verus!
