//! The data that the engine reads and produces.

use vstd::prelude::*;

verus! {

/// A known optional component: how to recognise it among the installed
/// packages, and the commands that remove it or bring it back.
#[derive(Debug, Clone, PartialEq, Eq)]
pub struct CatalogEntry {
    pub id: String,
    pub name: String,
    pub description: String,
    pub category: String,
    /// Entries with `safe == false` are only flagged to the user; the engine
    /// treats them like any other.
    pub safe: bool,
    pub primary_action: String,
    pub rollback_action: Option<String>,
    pub match_pattern: String,
}

/// One installed package, as the platform's enumeration reports it.
#[derive(Debug, Clone, PartialEq, Eq)]
pub struct InstalledPackageRecord {
    pub identifier: String,
    pub display_name: String,
    pub version: String,
    pub publisher: String,
}

/// A catalog entry together with whether it is installed right now.
#[derive(Debug, Clone, PartialEq, Eq)]
pub struct ReconciledEntry {
    pub entry: CatalogEntry,
    pub is_installed: bool,
}

/// An item of a tweak catalog: a command and, optionally, its undo.
#[derive(Debug, Clone, PartialEq, Eq)]
pub struct DebloatItem {
    pub id: String,
    pub name: String,
    pub description: String,
    pub category: String,
    pub safe: bool,
    pub command: String,
    pub rollback_command: Option<String>,
}

/// A removable application and whether it is installed.
#[derive(Debug, Clone, PartialEq, Eq)]
pub struct BloatwareApp {
    pub id: String,
    pub name: String,
    pub description: String,
    pub safe: bool,
    pub package_pattern: String,
    pub is_installed: bool,
}

/// A named selection of catalog ids.
#[derive(Debug, Clone, PartialEq, Eq)]
pub struct Preset {
    pub id: String,
    pub name: String,
    pub description: String,
    pub items: Vec<String>,
}

/// The presets of a catalog.
#[derive(Debug, Clone, PartialEq, Eq)]
pub struct PresetsData {
    pub presets: Vec<Preset>,
}

/// The outcome of one operation of a batch.
#[derive(Debug, Clone, PartialEq, Eq)]
pub struct CommandResult {
    pub success: bool,
    pub output: String,
    pub error: Option<String>,
}

/// A failure that concerns the catalog as a whole.
#[derive(Debug, Clone, PartialEq, Eq)]
pub enum CatalogError {
    /// Two entries carry this id.
    DuplicateId(String),
}

pub open spec fn opt_view(o: Option<String>) -> Option<Seq<char>> {
    match o {
        Some(s) => Some(s@),
        None => None,
    }
}

impl View for CommandResult {
    /// Success flag, output text, error text.
    type V = (bool, Seq<char>, Option<Seq<char>>);

    open spec fn view(&self) -> Self::V {
        (self.success, self.output@, opt_view(self.error))
    }
}

/// No two entries of the catalog share an id.
pub open spec fn ids_unique(catalog: Seq<CatalogEntry>) -> bool {
    forall|i: int, j: int|
        0 <= i < catalog.len() && 0 <= j < catalog.len() && i != j ==> #[trigger] catalog[i].id@
            != #[trigger] catalog[j].id@
}

fn copy_opt(o: &Option<String>) -> (r: Option<String>)
    ensures
        r == *o,
{
    match o {
        Some(s) => Some(s.clone()),
        None => None,
    }
}

impl CatalogEntry {
    /// A field-by-field copy.
    pub fn copied(&self) -> (r: CatalogEntry)
        ensures
            r == *self,
    {
        CatalogEntry {
            id: self.id.clone(),
            name: self.name.clone(),
            description: self.description.clone(),
            category: self.category.clone(),
            safe: self.safe,
            primary_action: self.primary_action.clone(),
            rollback_action: copy_opt(&self.rollback_action),
            match_pattern: self.match_pattern.clone(),
        }
    }
}

impl DebloatItem {
    /// The catalog entry of a tweak item: its command is the primary action,
    /// its undo the rollback action. A tweak stands for no package, so its
    /// match pattern is empty and it is never reported installed.
    pub fn to_catalog_entry(&self) -> (r: CatalogEntry)
        ensures
            r.id == self.id,
            r.name == self.name,
            r.description == self.description,
            r.category == self.category,
            r.safe == self.safe,
            r.primary_action == self.command,
            r.rollback_action == self.rollback_command,
            r.match_pattern@.len() == 0,
    {
        CatalogEntry {
            id: self.id.clone(),
            name: self.name.clone(),
            description: self.description.clone(),
            category: self.category.clone(),
            safe: self.safe,
            primary_action: self.command.clone(),
            rollback_action: copy_opt(&self.rollback_command),
            match_pattern: String::new(),
        }
    }
}

/// Looks up an entry by id.
pub fn find_entry(catalog: &Vec<CatalogEntry>, id: &String) -> (r: Option<usize>)
    ensures
        r matches Some(i) ==> i < catalog@.len() && catalog@[i as int].id@ == id@ && forall|k: int|
            0 <= k < i ==> catalog@[k].id@ != id@,
        r is None ==> forall|i: int| 0 <= i < catalog@.len() ==> catalog@[i].id@ != id@,
{
    let mut i: usize = 0;
    while i < catalog.len()
        invariant
            i <= catalog@.len(),
            forall|k: int| 0 <= k < i ==> catalog@[k].id@ != id@,
        decreases catalog@.len() - i,
    {
        if catalog[i].id == *id {
            return Some(i);
        }
        i = i + 1;
    }
    None
}

/// No two strings of `ids` are equal.
pub open spec fn distinct(ids: Seq<String>) -> bool {
    forall|i: int, j: int|
        0 <= i < ids.len() && 0 <= j < ids.len() && i != j ==> #[trigger] ids[i]@
            != #[trigger] ids[j]@
}

/// No two applications share an id.
pub open spec fn app_ids_unique(apps: Seq<BloatwareApp>) -> bool {
    forall|i: int, j: int|
        0 <= i < apps.len() && 0 <= j < apps.len() && i != j ==> #[trigger] apps[i].id@
            != #[trigger] apps[j].id@
}

/// Checks that the strings are distinct; on failure returns one that occurs
/// twice.
pub fn find_repeated(ids: &Vec<String>) -> (r: Option<String>)
    ensures
        r is None <==> distinct(ids@),
        r matches Some(d) ==> exists|i: int, j: int|
            0 <= i < j < ids@.len() && ids@[i]@ == d@ && ids@[j]@ == d@,
{
    let mut j: usize = 0;
    while j < ids.len()
        invariant
            j <= ids@.len(),
            forall|a: int, b: int|
                0 <= a < j && 0 <= b < j && a != b ==> #[trigger] ids@[a]@ != #[trigger] ids@[b]@,
        decreases ids@.len() - j,
    {
        let mut i: usize = 0;
        while i < j
            invariant
                j < ids@.len(),
                i <= j,
                forall|a: int, b: int|
                    0 <= a < j && 0 <= b < j && a != b ==> #[trigger] ids@[a]@
                        != #[trigger] ids@[b]@,
                forall|a: int| 0 <= a < i ==> ids@[a]@ != ids@[j as int]@,
            decreases j - i,
        {
            if ids[i] == ids[j] {
                return Some(ids[j].clone());
            }
            i = i + 1;
        }
        j = j + 1;
    }
    None
}

/// Checks that catalog ids are unique; on failure names an id that occurs
/// twice.
pub fn check_unique_ids(catalog: &Vec<CatalogEntry>) -> (r: Result<(), CatalogError>)
    ensures
        r is Ok <==> ids_unique(catalog@),
        r matches Err(CatalogError::DuplicateId(d)) ==> exists|i: int, j: int|
            0 <= i < j < catalog@.len() && catalog@[i].id@ == d@ && catalog@[j].id@ == d@,
{
    let mut ids: Vec<String> = Vec::new();
    let mut k: usize = 0;
    while k < catalog.len()
        invariant
            k <= catalog@.len(),
            ids@.len() == k,
            forall|t: int| 0 <= t < k ==> #[trigger] ids@[t] == catalog@[t].id,
        decreases catalog@.len() - k,
    {
        ids.push(catalog[k].id.clone());
        k = k + 1;
    }
    match find_repeated(&ids) {
        Some(d) => Err(CatalogError::DuplicateId(d)),
        None => {
            assert(ids_unique(catalog@)) by {
                assert forall|i: int, j: int|
                    0 <= i < catalog@.len() && 0 <= j < catalog@.len() && i != j implies
                    #[trigger] catalog@[i].id@ != #[trigger] catalog@[j].id@ by {
                    assert(ids@[i]@ != ids@[j]@);
                }
            }
            Ok(())
        },
    }
}

/// Checks that application ids are unique; on failure names an id that
/// occurs twice.
pub fn check_unique_app_ids(apps: &Vec<BloatwareApp>) -> (r: Result<(), CatalogError>)
    ensures
        r is Ok <==> app_ids_unique(apps@),
        r matches Err(CatalogError::DuplicateId(d)) ==> exists|i: int, j: int|
            0 <= i < j < apps@.len() && apps@[i].id@ == d@ && apps@[j].id@ == d@,
{
    let mut ids: Vec<String> = Vec::new();
    let mut k: usize = 0;
    while k < apps.len()
        invariant
            k <= apps@.len(),
            ids@.len() == k,
            forall|t: int| 0 <= t < k ==> #[trigger] ids@[t] == apps@[t].id,
        decreases apps@.len() - k,
    {
        ids.push(apps[k].id.clone());
        k = k + 1;
    }
    match find_repeated(&ids) {
        Some(d) => Err(CatalogError::DuplicateId(d)),
        None => {
            assert(app_ids_unique(apps@)) by {
                assert forall|i: int, j: int|
                    0 <= i < apps@.len() && 0 <= j < apps@.len() && i != j implies
                    #[trigger] apps@[i].id@ != #[trigger] apps@[j].id@ by {
                    assert(ids@[i]@ != ids@[j]@);
                }
            }
            Ok(())
        },
    }
}

} // verus!
