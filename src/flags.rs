//! Visibility flags: decoding stored policy values and the per-folder flag set.
use vstd::prelude::*;

use crate::folders::{folder_id, folder_id_spec, FOLDER_COUNT, HIDE_TEXT};

verus! {

/// Whether a stored policy value leaves its folder visible: only the exact text
/// `Hide` hides it; any other text, an absent value or an unreadable one shows it.
pub open spec fn shows_spec(stored: Option<Seq<char>>) -> bool {
    stored != Some(HIDE_TEXT@)
}

/// The flags that `load` derives from the stored policy value of each folder.
pub open spec fn load_spec(stored: Seq<Option<Seq<char>>>) -> Seq<bool> {
    Seq::new(stored.len(), |i: int| shows_spec(stored[i]))
}

/// Decodes one stored policy value (`None` when it is absent, unreadable or not text).
pub fn flag_from_stored(stored: &Option<String>) -> (r: bool)
    ensures
        r == shows_spec(stored.deep_view()),
{
    match stored {
        Some(text) => {
            let hide = HIDE_TEXT.to_owned();
            !(*text == hide)
        },
        None => true,
    }
}

/// One visibility flag per managed folder, in folder order; `true` means shown.
pub struct FlagSet {
    flags: Vec<bool>,
}

impl View for FlagSet {
    type V = Seq<bool>;

    closed spec fn view(&self) -> Seq<bool> {
        self.flags@
    }
}

impl FlagSet {
    #[verifier::type_invariant]
    spec fn complete(&self) -> bool {
        self.flags@.len() == FOLDER_COUNT
    }

    /// Every folder shown.
    pub fn all_visible() -> (r: FlagSet)
        ensures
            r@ == Seq::new(FOLDER_COUNT as nat, |i: int| true),
    {
        let mut flags: Vec<bool> = Vec::new();
        let mut i: usize = 0;
        while i < FOLDER_COUNT
            invariant
                i <= FOLDER_COUNT,
                flags@ == Seq::new(i as nat, |j: int| true),
            decreases FOLDER_COUNT - i,
        {
            flags.push(true);
            i = i + 1;
        }
        FlagSet { flags }
    }

    /// Builds a flag set from one flag per folder, in folder order.
    pub fn from_flags(flags: Vec<bool>) -> (r: Option<FlagSet>)
        ensures
            r is Some <==> flags@.len() == FOLDER_COUNT,
            r matches Some(fs) ==> fs@ == flags@,
    {
        if flags.len() == FOLDER_COUNT {
            Some(FlagSet { flags })
        } else {
            None
        }
    }

    /// The flags, in folder order.
    pub fn to_vec(&self) -> (r: Vec<bool>)
        ensures
            r@ == self@,
            r@.len() == FOLDER_COUNT,
    {
        proof { use_type_invariant(self); }
        self.flags.clone()
    }

    /// Flag of the folder at position `i`.
    pub fn get(&self, i: usize) -> (r: bool)
        requires
            i < FOLDER_COUNT,
        ensures
            r == self@[i as int],
    {
        proof { use_type_invariant(self); }
        self.flags[i]
    }

    /// Sets the flag of the folder at position `i`.
    pub fn set(&mut self, i: usize, shown: bool)
        requires
            i < FOLDER_COUNT,
        ensures
            final(self)@ == old(self)@.update(i as int, shown),
    {
        proof { use_type_invariant(&*self); }
        let mut flags = self.flags.clone();
        assert(flags@ =~= self.flags@);
        flags.set(i, shown);
        self.flags = flags;
    }

    /// Sets the flag of the folder with identifier `id`; returns whether `id`
    /// names a managed folder (nothing changes when it does not).
    pub fn set_by_id(&mut self, id: &String, shown: bool) -> (r: bool)
        ensures
            r == exists|i: int| 0 <= i < FOLDER_COUNT && folder_id_spec(i) == id@,
            r ==> final(self)@ == old(self)@.update(index_spec(id@), shown),
            !r ==> final(self)@ == old(self)@,
    {
        match index_of(id) {
            Some(i) => {
                self.set(i, shown);
                true
            },
            None => false,
        }
    }
}

/// Position of the first folder whose identifier is `id`.
pub open spec fn index_spec(id: Seq<char>) -> int {
    choose|i: int| 0 <= i < FOLDER_COUNT && folder_id_spec(i) == id
        && forall|j: int| 0 <= j < i ==> folder_id_spec(j) != id
}

/// Position of the folder with identifier `id`, if it is a managed one.
pub fn index_of(id: &String) -> (r: Option<usize>)
    ensures
        r is Some <==> exists|i: int| 0 <= i < FOLDER_COUNT && folder_id_spec(i) == id@,
        r matches Some(i) ==> i < FOLDER_COUNT && i as int == index_spec(id@)
            && folder_id_spec(i as int) == id@,
{
    let mut i: usize = 0;
    while i < FOLDER_COUNT
        invariant
            i <= FOLDER_COUNT,
            forall|j: int| 0 <= j < i ==> folder_id_spec(j) != id@,
        decreases FOLDER_COUNT - i,
    {
        let candidate = folder_id(i);
        if candidate == *id {
            assert(index_spec(id@) == i as int) by {
                let k = index_spec(id@);
                assert(0 <= k < FOLDER_COUNT && folder_id_spec(k) == id@
                    && forall|j: int| 0 <= j < k ==> folder_id_spec(j) != id@);
            }
            return Some(i);
        }
        i = i + 1;
    }
    None
}

/// Loads the flag set from the stored policy value of each folder, in folder
/// order. Never fails: what cannot be read counts as shown.
pub fn load(stored: &Vec<Option<String>>) -> (r: FlagSet)
    requires
        stored@.len() == FOLDER_COUNT,
    ensures
        r@ == load_spec(stored.deep_view()),
{
    let mut flags: Vec<bool> = Vec::new();
    let mut i: usize = 0;
    while i < stored.len()
        invariant
            i <= stored@.len(),
            stored@.len() == FOLDER_COUNT,
            flags@ == load_spec(stored.deep_view()).take(i as int),
        decreases stored@.len() - i,
    {
        let shown = flag_from_stored(&stored[i]);
        flags.push(shown);
        i = i + 1;
        assert(flags@ =~= load_spec(stored.deep_view()).take(i as int));
    }
    assert(flags@ =~= load_spec(stored.deep_view()));
    FlagSet { flags }
}

/// Text to show for the folder at position `i`: its stored display name when
/// one could be read, else its identifier.
pub fn display_name(i: usize, stored_name: Option<String>) -> (r: String)
    requires
        i < FOLDER_COUNT,
    ensures
        r@ == match stored_name {
            Some(name) => name@,
            None => folder_id_spec(i as int),
        },
{
    match stored_name {
        Some(name) => name,
        None => folder_id(i),
    }
}

/// One line of the folder list as shown to the user.
pub struct FolderRow {
    pub id: String,
    pub name: String,
    pub shown: bool,
}

/// The folder list to show: for each folder in order, its identifier, its
/// display name (see `display_name`) and its flag.
pub fn rows(flags: &FlagSet, stored_names: Vec<Option<String>>) -> (r: Vec<FolderRow>)
    requires
        stored_names@.len() == FOLDER_COUNT,
    ensures
        r@.len() == FOLDER_COUNT,
        forall|i: int| 0 <= i < FOLDER_COUNT ==> {
            &&& (#[trigger] r@[i]).id@ == folder_id_spec(i)
            &&& r@[i].name@ == match stored_names@[i] {
                Some(name) => name@,
                None => folder_id_spec(i),
            }
            &&& r@[i].shown == flags@[i]
        },
{
    let mut out: Vec<FolderRow> = Vec::new();
    let mut names = stored_names;
    let ghost given = names@;
    let mut i: usize = 0;
    while i < FOLDER_COUNT
        invariant
            i <= FOLDER_COUNT,
            given.len() == FOLDER_COUNT,
            names@ == given.subrange(i as int, FOLDER_COUNT as int),
            out@.len() == i,
            forall|j: int| 0 <= j < i ==> {
                &&& (#[trigger] out@[j]).id@ == folder_id_spec(j)
                &&& out@[j].name@ == match given[j] {
                    Some(name) => name@,
                    None => folder_id_spec(j),
                }
                &&& out@[j].shown == flags@[j]
            },
        decreases FOLDER_COUNT - i,
    {
        let stored = names.remove(0);
        let name = display_name(i, stored);
        out.push(FolderRow { id: folder_id(i), name, shown: flags.get(i) });
        i = i + 1;
    }
    out
}

/// Whether `id` is the identifier of a managed folder.
pub open spec fn is_managed(id: Seq<char>) -> bool {
    exists|i: int| 0 <= i < FOLDER_COUNT && folder_id_spec(i) == id
}

/// Whether pair `j` names folder `i`.
pub open spec fn names_folder(pairs: Seq<(String, bool)>, j: int, i: int) -> bool {
    is_managed(pairs[j].0@) && index_spec(pairs[j].0@) == i
}

/// Pair `j` names a managed folder that no earlier pair names.
pub open spec fn fresh_pair(pairs: Seq<(String, bool)>, j: int) -> bool {
    &&& is_managed(pairs[j].0@)
    &&& forall|k: int| 0 <= k < j ==> !names_folder(pairs, k, index_spec(pairs[j].0@))
}

/// Some pair names folder `i`.
pub open spec fn named(pairs: Seq<(String, bool)>, i: int) -> bool {
    exists|j: int| 0 <= j < pairs.len() && names_folder(pairs, j, i)
}

/// Why a list of (identifier, flag) pairs is not a flag set.
#[derive(Clone, Copy, PartialEq, Eq, Structural, Debug)]
pub enum FlagSetError {
    /// The pair at `position` names no managed folder.
    UnknownId { position: usize },
    /// The pair at `position` names a folder that an earlier pair names.
    DuplicateId { position: usize },
    /// No pair names the folder at `item`.
    MissingId { item: usize },
}

impl FlagSet {
    /// Builds a flag set from (identifier, flag) pairs in any order: each
    /// managed folder must be named exactly once, and nothing else. The first
    /// pair that is unknown or repeated is reported; failing that, the first
    /// folder that no pair names.
    pub fn from_pairs(pairs: &Vec<(String, bool)>) -> (r: Result<FlagSet, FlagSetError>)
        ensures
            match r {
                Ok(fs) => {
                    &&& forall|j: int| 0 <= j < pairs@.len() ==> fresh_pair(pairs@, j)
                    &&& forall|i: int| 0 <= i < FOLDER_COUNT ==> named(pairs@, i)
                    &&& fs@.len() == FOLDER_COUNT
                    &&& forall|j: int, i: int|
                        0 <= j < pairs@.len() && 0 <= i < FOLDER_COUNT && #[trigger] names_folder(pairs@, j, i)
                            ==> fs@[i] == pairs@[j].1
                },
                Err(FlagSetError::UnknownId { position }) => {
                    &&& position < pairs@.len()
                    &&& !is_managed(pairs@[position as int].0@)
                    &&& forall|j: int| 0 <= j < position ==> fresh_pair(pairs@, j)
                },
                Err(FlagSetError::DuplicateId { position }) => {
                    &&& position < pairs@.len()
                    &&& is_managed(pairs@[position as int].0@)
                    &&& !fresh_pair(pairs@, position as int)
                    &&& forall|j: int| 0 <= j < position ==> fresh_pair(pairs@, j)
                },
                Err(FlagSetError::MissingId { item }) => {
                    &&& forall|j: int| 0 <= j < pairs@.len() ==> fresh_pair(pairs@, j)
                    &&& item < FOLDER_COUNT
                    &&& !named(pairs@, item as int)
                    &&& forall|i: int| 0 <= i < item ==> named(pairs@, i)
                },
            },
    {
        let mut slots: Vec<Option<bool>> = Vec::new();
        let mut i: usize = 0;
        while i < FOLDER_COUNT
            invariant
                i <= FOLDER_COUNT,
                slots@ == Seq::new(i as nat, |x: int| None::<bool>),
            decreases FOLDER_COUNT - i,
        {
            slots.push(None);
            i = i + 1;
        }
        let mut k: usize = 0;
        while k < pairs.len()
            invariant
                k <= pairs@.len(),
                slots@.len() == FOLDER_COUNT,
                forall|j: int| 0 <= j < k ==> fresh_pair(pairs@, j),
                forall|x: int| 0 <= x < FOLDER_COUNT ==> (#[trigger] slots@[x] is Some
                    <==> exists|j: int| 0 <= j < k && names_folder(pairs@, j, x)),
                forall|j: int, x: int| 0 <= j < k && 0 <= x < FOLDER_COUNT && #[trigger] names_folder(pairs@, j, x)
                    ==> slots@[x] == Some(pairs@[j].1),
            decreases pairs@.len() - k,
        {
            match index_of(&pairs[k].0) {
                None => {
                    return Err(FlagSetError::UnknownId { position: k });
                },
                Some(x) => {
                    if slots[x].is_some() {
                        return Err(FlagSetError::DuplicateId { position: k });
                    }
                    let ghost before = slots@;
                    slots.set(x, Some(pairs[k].1));
                    assert forall|y: int| 0 <= y < FOLDER_COUNT implies (#[trigger] slots@[y] is Some
                        <==> exists|j: int| 0 <= j < k + 1 && names_folder(pairs@, j, y)) by {
                        if y == x as int {
                            assert(names_folder(pairs@, k as int, y));
                        } else if slots@[y] is Some {
                            assert(before[y] is Some);
                        } else {
                            assert(!names_folder(pairs@, k as int, y));
                        }
                    }
                },
            }
            k = k + 1;
        }
        let mut flags: Vec<bool> = Vec::new();
        let mut i: usize = 0;
        while i < FOLDER_COUNT
            invariant
                i <= FOLDER_COUNT,
                slots@.len() == FOLDER_COUNT,
                flags@.len() == i,
                forall|x: int| 0 <= x < i ==> slots@[x] == Some(#[trigger] flags@[x]),
                forall|x: int| 0 <= x < i ==> named(pairs@, x),
                forall|j: int| 0 <= j < pairs@.len() ==> fresh_pair(pairs@, j),
                forall|j: int, x: int| 0 <= j < pairs@.len() && 0 <= x < FOLDER_COUNT && #[trigger] names_folder(pairs@, j, x)
                    ==> slots@[x] == Some(pairs@[j].1),
                forall|x: int| 0 <= x < FOLDER_COUNT ==> (#[trigger] slots@[x] is Some
                    <==> exists|j: int| 0 <= j < pairs@.len() && names_folder(pairs@, j, x)),
            decreases FOLDER_COUNT - i,
        {
            match slots[i] {
                Some(v) => {
                    flags.push(v);
                },
                None => {
                    return Err(FlagSetError::MissingId { item: i });
                },
            }
            i = i + 1;
        }
        Ok(FlagSet { flags })
    }
}

} // verus!
