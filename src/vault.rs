use vstd::prelude::*;

use crate::entry::{rendered, Entry, EntryView};

verus! {

/// The whole collection of entries, in the order in which they were added.
/// Several entries may share a label.
pub struct Entries {
    pub list: Vec<Entry>,
}

impl View for Entries {
    type V = Seq<EntryView>;

    open spec fn view(&self) -> Seq<EntryView> {
        self.list@.map_values(|e: Entry| e@)
    }
}

/// Whether some entry of `v` carries the label `label`.
pub open spec fn has_label(v: Seq<EntryView>, label: Seq<char>) -> bool {
    exists|i: int| 0 <= i < v.len() && #[trigger] v[i].site_app == label
}

/// Whether `i` is the position of the first entry of `v` labelled `label`.
pub open spec fn is_first_with_label(v: Seq<EntryView>, label: Seq<char>, i: int) -> bool {
    &&& 0 <= i < v.len()
    &&& v[i].site_app == label
    &&& forall|j: int| 0 <= j < i ==> #[trigger] v[j].site_app != label
}

/// The listing of all entries: each entry as it is rendered, followed by an
/// empty line.
pub open spec fn listing(v: Seq<EntryView>) -> Seq<char>
    decreases v.len(),
{
    if v.len() == 0 {
        Seq::empty()
    } else {
        listing(v.drop_last()) + rendered(v.last()) + "\n\n"@
    }
}

/// What a look at the backing store found.
pub enum StoredVault {
    /// No backing file exists: the vault has never been written.
    Missing,
    /// The file exists but could not be opened or read.
    Unreadable,
    /// The file was read but does not hold a vault document.
    Corrupt,
    /// The file was read and holds these entries.
    Found(Entries),
}

/// Why the vault could not be loaded.
#[derive(PartialEq, Eq, Structural, Debug, Clone, Copy)]
pub enum StoreError {
    /// The backing file exists but could not be opened or read.
    Unreadable,
    /// The backing file does not hold a vault document.
    Corrupt,
}

/// Adding an entry to a vault and loading the vault again gives exactly one
/// entry more than before: the earlier entries unchanged and in order, the
/// new entry last.
pub proof fn lemma_add_then_load(before: Seq<EntryView>, new_entry: EntryView, after: Seq<EntryView>)
    requires
        after == before.push(new_entry),
    ensures
        after.len() == before.len() + 1,
        after.last() == new_entry,
        after.take(before.len() as int) == before,
{
    assert(after.take(before.len() as int) =~= before);
}

impl Entries {
    /// An empty vault.
    pub fn new() -> (r: Entries)
        ensures
            r@ == Seq::<EntryView>::empty(),
    {
        Entries { list: Vec::new() }
    }

    /// The number of entries.
    pub fn len(&self) -> (n: usize)
        ensures
            n as nat == self@.len(),
    {
        self.list.len()
    }

    /// Adds `new_entry` after all others.
    pub fn push_entry(&mut self, new_entry: Entry)
        ensures
            final(self)@ == old(self)@.push(new_entry@),
            final(self)@.len() == old(self)@.len() + 1,
            final(self)@.last() == new_entry@,
    {
        self.list.push(new_entry);
        proof {
            assert(self@ =~= old(self)@.push(new_entry@));
        }
    }

    /// The position of the first entry whose label is exactly `label`, or
    /// `None` where no entry carries it.
    pub fn find(&self, label: &str) -> (r: Option<usize>)
        ensures
            r matches Some(i) ==> is_first_with_label(self@, label@, i as int),
            r is None <==> !has_label(self@, label@),
    {
        let wanted = String::from_str(label);
        let mut i: usize = 0;
        while i < self.list.len()
            invariant
                i <= self.list@.len(),
                wanted@ == label@,
                forall|j: int| 0 <= j < i ==> #[trigger] self@[j].site_app != label@,
            decreases self.list@.len() - i,
        {
            if self.list[i].site_app == wanted {
                assert(self@[i as int].site_app == label@);
                return Some(i);
            }
            i = i + 1;
        }
        None
    }

    /// All entries as they are listed for the user, in stored order.
    pub fn show_all(&self) -> (r: String)
        ensures
            r@ == listing(self@),
    {
        let mut r = String::new();
        let mut i: usize = 0;
        while i < self.list.len()
            invariant
                i <= self.list@.len(),
                r@ == listing(self@.take(i as int)),
            decreases self.list@.len() - i,
        {
            let shown = self.list[i].render();
            r.append(shown.as_str());
            r.append("\n\n");
            proof {
                assert(self@.take(i + 1).drop_last() =~= self@.take(i as int));
            }
            i = i + 1;
        }
        proof {
            assert(self@.take(i as int) =~= self@);
        }
        r
    }

    /// The vault that a load of the backing store gives: empty where no file
    /// exists yet, the stored entries where the file holds a vault, and an
    /// error otherwise. A corrupt file never yields an empty or partial vault.
    pub fn load_entries(stored: StoredVault) -> (r: Result<Entries, StoreError>)
        ensures
            stored is Missing ==> (r matches Ok(v) && v@.len() == 0),
            stored is Unreadable ==> r == Err::<Entries, StoreError>(StoreError::Unreadable),
            stored is Corrupt ==> r == Err::<Entries, StoreError>(StoreError::Corrupt),
            stored matches StoredVault::Found(v) ==> (r matches Ok(w) && w@ == v@),
    {
        match stored {
            StoredVault::Missing => Ok(Entries::new()),
            StoredVault::Unreadable => Err(StoreError::Unreadable),
            StoredVault::Corrupt => Err(StoreError::Corrupt),
            StoredVault::Found(v) => Ok(v),
        }
    }

    /// The vault to write back when `new_entry` is added: what the backing
    /// store held, with `new_entry` after all of it. The whole vault is then
    /// rewritten. Nothing guards against another process doing the same at
    /// once: one process at a time may add entries.
    pub fn write_new_entry(stored: StoredVault, new_entry: Entry) -> (r: Result<Entries, StoreError>)
        ensures
            stored is Missing ==> (r matches Ok(v) && v@ == seq![new_entry@]),
            stored is Unreadable ==> r == Err::<Entries, StoreError>(StoreError::Unreadable),
            stored is Corrupt ==> r == Err::<Entries, StoreError>(StoreError::Corrupt),
            stored matches StoredVault::Found(v) ==> (r matches Ok(w) && w@ == v@.push(new_entry@)),
    {
        match Entries::load_entries(stored) {
            Ok(mut entries) => {
                entries.push_entry(new_entry);
                proof {
                    if stored is Missing {
                        assert(entries@ =~= seq![new_entry@]);
                    }
                }
                Ok(entries)
            },
            Err(e) => Err(e),
        }
    }
}

} // verus!
