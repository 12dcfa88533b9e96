//! The recipe draft that the entry wizard fills in, and the insertion-ordered
//! map of its ingredients.
use indexmap::IndexMap;
use vstd::prelude::*;

verus! {

/// What the host loop does after a key has been handled.
#[derive(Debug, Clone, Copy, PartialEq, Eq, Structural)]
pub enum AppAction {
    /// Keep reading keys.
    Continue,
    /// The draft is finished and is to be stored.
    SaveAndExit,
    /// Entry was cancelled: the draft is discarded.
    CancelAndExit,
}

/// Whether an ingredient of the draft is already in the catalog.
#[derive(Debug, Clone, Copy, PartialEq, Eq, Structural)]
pub enum IngredientStatus {
    /// Already in the catalog under this id.
    Existing(i64),
    /// Not in the catalog: created when the recipe is stored.
    New,
}

/// One ingredient of the draft, under its name.
#[derive(Debug)]
pub struct IngredientInfo {
    pub status: IngredientStatus,
    pub quantity_unit: String,
    pub notes: String,
}

/// An ingredient entry of the draft as plain values: name, status, quantity and
/// notes.
pub type EntryView = (Seq<char>, IngredientStatus, Seq<char>, Seq<char>);

pub open spec fn entry_view(name: Seq<char>, info: IngredientInfo) -> EntryView {
    (name, info.status, info.quantity_unit@, info.notes@)
}

#[verifier::external_type_specification]
#[verifier::external_body]
#[verifier::reject_recursive_types(K)]
#[verifier::reject_recursive_types(V)]
#[verifier::reject_recursive_types(S)]
pub struct ExIndexMap<K, V, S>(IndexMap<K, V, S>);

/// The entries of an ingredient map, in the map's order.
pub uninterp spec fn draft_entries(m: IndexMap<String, IngredientInfo>) -> Seq<EntryView>;

/// Whether some entry carries the name `name`.
pub open spec fn has_key(entries: Seq<EntryView>, name: Seq<char>) -> bool {
    exists|i: int| 0 <= i < entries.len() && #[trigger] entries[i].0 == name
}

/// No two entries carry the same name.
pub open spec fn unique_keys(entries: Seq<EntryView>) -> bool {
    forall|i: int, j: int|
        0 <= i < entries.len() && 0 <= j < entries.len() && i != j ==> #[trigger] entries[i].0
            != #[trigger] entries[j].0
}

/// The entries after inserting `e`: an entry of the same name is replaced in
/// place, otherwise `e` goes last.
pub open spec fn inserted(entries: Seq<EntryView>, e: EntryView) -> Seq<EntryView> {
    if has_key(entries, e.0) {
        entries.map_values(|x: EntryView| if x.0 == e.0 { e } else { x })
    } else {
        entries.push(e)
    }
}

/// Relies on `IndexMap::new`: a new map is empty.
#[verifier::external_body]
fn new_entry_map() -> (r: IndexMap<String, IngredientInfo>)
    ensures
        draft_entries(r) == Seq::<EntryView>::empty(),
{
    IndexMap::new()
}

/// Relies on `IndexMap::contains_key`: whether an entry has this name.
#[verifier::external_body]
fn entry_map_contains(m: &IndexMap<String, IngredientInfo>, name: &String) -> (r: bool)
    ensures
        r == has_key(draft_entries(*m), name@),
{
    m.contains_key(name)
}

/// Relies on `IndexMap::insert`: an existing key keeps its place and takes the
/// new value; a new key goes last.
#[verifier::external_body]
fn entry_map_insert(m: &mut IndexMap<String, IngredientInfo>, name: String, info: IngredientInfo)
    ensures
        draft_entries(*final(m)) == inserted(draft_entries(*old(m)), entry_view(name@, info)),
{
    m.insert(name, info);
}

/// Relies on `IndexMap::len`: the number of entries.
#[verifier::external_body]
fn entry_map_len(m: &IndexMap<String, IngredientInfo>) -> (r: usize)
    ensures
        r == draft_entries(*m).len(),
{
    m.len()
}

/// A borrowed entry of an ingredient map: its name and its value.
pub type EntryRef<'a> = (&'a String, &'a IngredientInfo);

/// Relies on `IndexMap::get_index`: the entry at a position of the order.
#[verifier::external_body]
fn entry_map_get_index(m: &IndexMap<String, IngredientInfo>, i: usize) -> (r: Option<EntryRef<'_>>)
    ensures
        i < draft_entries(*m).len() ==> r is Some,
        i < draft_entries(*m).len() ==> entry_view((r->0).0@, *(r->0).1) == draft_entries(*m)[i as int],
        i >= draft_entries(*m).len() ==> r is None,
{
    m.get_index(i)
}

/// The id under which the catalog snapshot lists `name`; the first listing
/// counts.
pub open spec fn known_id(known: Seq<(String, i64)>, name: Seq<char>) -> Option<i64>
    decreases known.len(),
{
    if known.len() == 0 {
        None
    } else if known[0].0@ == name {
        Some(known[0].1)
    } else {
        known_id(known.drop_first(), name)
    }
}

/// The recipe being entered.
pub struct RecipeContext {
    pub name: String,
    pub ingredients: IndexMap<String, IngredientInfo>,
    /// The catalog snapshot taken when entry started: name and id of every
    /// known ingredient.
    pub possible_ingredients: Vec<(String, i64)>,
    pub instructions: Vec<String>,
    /// Set once the last instruction has been entered.
    pub finished: bool,
}

impl RecipeContext {
    /// An empty draft over a catalog snapshot.
    pub fn new(possible_ingredients: Vec<(String, i64)>) -> (r: Self)
        ensures
            r.name@ == Seq::<char>::empty(),
            draft_entries(r.ingredients) == Seq::<EntryView>::empty(),
            r.possible_ingredients == possible_ingredients,
            r.instructions@ == Seq::<String>::empty(),
            !r.finished,
    {
        RecipeContext {
            name: String::new(),
            ingredients: new_entry_map(),
            instructions: Vec::new(),
            possible_ingredients,
            finished: false,
        }
    }

    /// The entries of the draft, in entry order.
    pub open spec fn entries(&self) -> Seq<EntryView> {
        draft_entries(self.ingredients)
    }

    /// Whether the draft already holds an ingredient of this name.
    pub fn has_ingredient(&self, name: &String) -> (r: bool)
        ensures
            r == has_key(self.entries(), name@),
    {
        entry_map_contains(&self.ingredients, name)
    }

    /// Adds an ingredient, or replaces the one of the same name in its place.
    pub fn add_ingredient(&mut self, name: String, info: IngredientInfo)
        ensures
            final(self).entries() == inserted(old(self).entries(), entry_view(name@, info)),
            final(self).name == old(self).name,
            final(self).possible_ingredients == old(self).possible_ingredients,
            final(self).instructions == old(self).instructions,
            final(self).finished == old(self).finished,
    {
        entry_map_insert(&mut self.ingredients, name, info);
    }

    /// The number of ingredients in the draft.
    pub fn ingredient_count(&self) -> (r: usize)
        ensures
            r == self.entries().len(),
    {
        entry_map_len(&self.ingredients)
    }

    /// The ingredient at position `i` of the entry order.
    pub fn ingredient_at(&self, i: usize) -> (r: EntryRef<'_>)
        requires
            i < self.entries().len(),
        ensures
            entry_view(r.0@, *r.1) == self.entries()[i as int],
    {
        entry_map_get_index(&self.ingredients, i).unwrap()
    }

    /// The catalog id of `name` in the snapshot, if it is listed.
    pub fn known_ingredient_id(&self, name: &String) -> (r: Option<i64>)
        ensures
            r == known_id(self.possible_ingredients@, name@),
    {
        let mut i: usize = 0;
        let n = self.possible_ingredients.len();
        assert(self.possible_ingredients@.skip(0) =~= self.possible_ingredients@);
        while i < n
            invariant
                n == self.possible_ingredients@.len(),
                i <= n,
                known_id(self.possible_ingredients@, name@) == known_id(
                    self.possible_ingredients@.skip(i as int),
                    name@,
                ),
            decreases n - i,
        {
            let entry = &self.possible_ingredients[i];
            assert(self.possible_ingredients@.skip(i as int)[0] == *entry);
            assert(self.possible_ingredients@.skip(i as int).drop_first()
                =~= self.possible_ingredients@.skip(i + 1));
            if entry.0 == *name {
                return Some(entry.1);
            }
            i = i + 1;
        }
        None
    }
}

} // verus!
