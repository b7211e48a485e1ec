//! The app host: the registry of manifests and the choice of the app that a
//! command goes to.

use crate::error::{Error, ErrorView};
use crate::invocation::{Invocation, InvocationView, Phase};
use crate::manifest::{load_manifest, manifest_of, Manifest, ManifestView};
use crate::text::{
    lemma_lex_le_antisymmetric, lemma_lex_le_reflexive, lemma_lex_le_total,
    lemma_lex_le_transitive, lex_le, precedes, same, starts_with,
};
use vstd::prelude::*;
use vstd::string::*;

verus! {

/// A request, made by a script while it runs, that the host do follow-up work
/// for the app after a delay, given in milliseconds.
#[derive(Debug, Clone, PartialEq, Eq)]
pub struct Delayed {
    pub app_id: String,
    pub duration_ms: u64,
}

/// The mathematical content of a [`Delayed`].
pub struct DelayedView {
    pub app_id: Seq<char>,
    pub duration_ms: u64,
}

impl View for Delayed {
    type V = DelayedView;

    open spec fn view(&self) -> DelayedView {
        DelayedView { app_id: self.app_id@, duration_ms: self.duration_ms }
    }
}

/// Whether the command begins with the app's trigger phrase.
pub open spec fn triggers(app: ManifestView, command: Seq<char>) -> bool {
    app.trigger_phrase.is_prefix_of(command)
}

/// Whether `a` is to be chosen before `b` when both are triggered: the longer
/// trigger phrase wins, and among equally long ones the smaller identifier.
pub open spec fn outranks(a: ManifestView, b: ManifestView) -> bool {
    a.trigger_phrase.len() > b.trigger_phrase.len() || (a.trigger_phrase.len()
        == b.trigger_phrase.len() && lex_le(a.id, b.id))
}

/// Whether the app at index `i` is the one that `command` goes to: it is
/// triggered, and it outranks every app that is triggered.
pub open spec fn selects(apps: Seq<ManifestView>, command: Seq<char>, i: int) -> bool {
    &&& 0 <= i < apps.len()
    &&& triggers(apps[i], command)
    &&& forall|j: int| 0 <= j < apps.len() && triggers(apps[j], command) ==> outranks(apps[i], apps[j])
}

/// Whether no identifier occurs twice.
pub open spec fn distinct_ids(apps: Seq<ManifestView>) -> bool {
    forall|i: int, j: int| 0 <= i < j < apps.len() ==> apps[i].id != apps[j].id
}

/// The manifest that an entry of the scan gives, where the entry was read
/// and its text describes one.
pub open spec fn entry_manifest(entry: Result<String, Error>) -> Option<ManifestView> {
    match entry {
        Ok(text) => match manifest_of(text@) {
            Ok(manifest) => Some(manifest),
            Err(_) => None,
        },
        Err(_) => None,
    }
}

/// The identifier that an entry of the scan gives, where it gives a manifest.
pub open spec fn entry_id(entry: Result<String, Error>) -> Option<Seq<char>> {
    match entry_manifest(entry) {
        Some(manifest) => Some(manifest.id),
        None => None,
    }
}

/// Whether an entry before `i` gives a manifest with the identifier `id`.
pub open spec fn seen_before(entries: Seq<Result<String, Error>>, i: int, id: Seq<char>) -> bool {
    exists|j: int| 0 <= j < i && #[trigger] entry_id(entries[j]) == Some(id)
}

/// What is wrong with entry `i` of a scan, if anything: it could not be read,
/// its text is no manifest, or its identifier was already taken by an
/// earlier entry.
pub open spec fn fault_at(entries: Seq<Result<String, Error>>, i: int) -> Option<ErrorView> {
    match entries[i] {
        Err(e) => Some(e@),
        Ok(text) => match manifest_of(text@) {
            Err(fault) => Some(ErrorView::Manifest { fault }),
            Ok(manifest) => if seen_before(entries, i, manifest.id) {
                Some(ErrorView::DuplicateId { id: manifest.id })
            } else {
                None
            },
        },
    }
}

/// The app host: the registry of the apps that were found at startup, and the
/// sink that delayed tasks go to. The registry does not change after it has
/// been built.
pub struct AppHost<S> where S: Fn(Delayed) + Send + Sync {
    pub(crate) apps: Vec<Manifest>,
    pub(crate) sender: S,
}

impl<S> AppHost<S> where S: Fn(Delayed) + Send + Sync {
    #[verifier::type_invariant]
    pub(crate) open spec fn well_formed(&self) -> bool {
        &&& distinct_ids(self.manifests())
        &&& forall|delayed: Delayed| call_requires(self.sender, (delayed,))
    }

    /// The manifests of the registry, in the order of the scan.
    pub closed spec fn manifests(&self) -> Seq<ManifestView> {
        self.apps@.map_values(|m: Manifest| m@)
    }

    /// The sink that delayed tasks are handed to.
    pub closed spec fn sink(&self) -> S {
        self.sender
    }

    /// The sink, for the code that hands it delayed tasks.
    pub(crate) fn sink_ref(&self) -> (sink: &S)
        ensures
            *sink == self.sink(),
            forall|delayed: Delayed| call_requires(*sink, (delayed,)),
    {
        proof {
            use_type_invariant(self);
        }
        &self.sender
    }

    /// Builds the host from what a scan of the apps directory found: for each
    /// subdirectory, in order, the text of its manifest or the error that
    /// reading it gave. The first entry that cannot be loaded ends the load
    /// with its error; otherwise the registry holds one manifest per entry.
    ///
    /// The sink must accept every delayed task.
    pub fn from_dir(entries: Vec<Result<String, Error>>, sender: S) -> (r: Result<Self, Error>)
        requires
            forall|delayed: Delayed| call_requires(sender, (delayed,)),
        ensures
            match r {
                Ok(host) => {
                    &&& host.sink() == sender
                    &&& host.manifests().len() == entries@.len()
                    &&& distinct_ids(host.manifests())
                    &&& forall|i: int|
                        0 <= i < entries@.len() ==> fault_at(entries@, i) is None
                            && entry_manifest(entries@[i]) == Some(host.manifests()[i])
                },
                Err(e) => exists|i: int|
                    {
                        &&& 0 <= i < entries@.len()
                        &&& fault_at(entries@, i) == Some(e@)
                        &&& forall|j: int| 0 <= j < i ==> fault_at(entries@, j) is None
                    },
            },
    {
        let ghost all = entries@;
        let mut apps: Vec<Manifest> = Vec::new();
        for entry in it: entries
            invariant
                it.seq() == all,
                apps@.len() == it.index(),
                forall|i: int|
                    0 <= i < apps@.len() ==> fault_at(all, i) is None && entry_manifest(all[i])
                        == Some(apps@[i]@),
                distinct_ids(apps@.map_values(|m: Manifest| m@)),
        {
            let ghost n = apps@.len() as int;
            match entry {
                Err(e) => {
                    return Err(e);
                },
                Ok(text) => {
                    match load_manifest(text.as_str()) {
                        Err(fault) => {
                            return Err(Error::Manifest { fault });
                        },
                        Ok(manifest) => {
                            if has_id(&apps, manifest.id.as_str()) {
                                proof {
                                    let j = choose|j: int| 0 <= j < n && apps@[j]@.id == manifest@.id;
                                    assert(entry_id(all[j]) == Some(manifest@.id));
                                }
                                return Err(Error::DuplicateId { id: manifest.id });
                            }
                            proof {
                                assert(!seen_before(all, n, manifest@.id)) by {
                                    if seen_before(all, n, manifest@.id) {
                                        let j = choose|j: int|
                                            0 <= j < n && #[trigger] entry_id(all[j]) == Some(
                                                manifest@.id,
                                            );
                                        assert(apps@[j]@.id == manifest@.id);
                                    }
                                }
                            }
                            let ghost before = apps@.map_values(|m: Manifest| m@);
                            let ghost added = manifest@;
                            apps.push(manifest);
                            proof {
                                let after = apps@.map_values(|m: Manifest| m@);
                                assert forall|i: int, j: int|
                                    0 <= i < j < after.len() implies after[i].id != after[j].id by {
                                    if j < n {
                                        assert(before[i].id != before[j].id);
                                    } else {
                                        assert(before[i].id != added.id);
                                    }
                                }
                            }
                        },
                    }
                },
            }
        }
        Ok(AppHost { apps, sender })
    }

    /// The number of apps in the registry.
    pub fn size(&self) -> (n: usize)
        ensures
            n == self.manifests().len(),
    {
        self.apps.len()
    }

    /// The manifest of the app with the identifier `id`, if the registry has
    /// one.
    pub fn get(&self, id: &str) -> (r: Option<&Manifest>)
        ensures
            match r {
                Some(manifest) => manifest@.id == id@ && self.manifests().contains(manifest@),
                None => forall|i: int| 0 <= i < self.manifests().len() ==> self.manifests()[i].id != id@,
            },
    {
        let mut i: usize = 0;
        while i < self.apps.len()
            invariant
                i <= self.apps@.len(),
                forall|j: int| 0 <= j < i ==> self.apps@[j]@.id != id@,
            decreases self.apps@.len() - i,
        {
            if same(self.apps[i].id.as_str(), id) {
                assert(self.manifests()[i as int] == self.apps@[i as int]@);
                return Some(&self.apps[i]);
            }
            i += 1;
        }
        None
    }

    /// Chooses the app that `command` goes to and opens an invocation of it.
    /// An app is triggered when the command begins with its trigger phrase.
    /// Among the triggered apps the one with the longest trigger phrase is
    /// chosen, and among those with equally long phrases the one whose
    /// identifier comes first in lexicographic order. Where no app is
    /// triggered the command is unrecognized.
    pub fn dispatch(&self, command: &str) -> (r: Result<Invocation, Error>)
        ensures
            distinct_ids(self.manifests()),
            r is Ok <==> exists|i: int|
                0 <= i < self.manifests().len() && triggers(self.manifests()[i], command@),
            match r {
                Ok(invocation) => exists|i: int|
                    {
                        &&& selects(self.manifests(), command@, i)
                        &&& invocation@ == (InvocationView {
                            app_id: self.manifests()[i].id,
                            command: command@,
                            phase: Phase::Idle,
                            failure: None,
                        })
                    },
                Err(e) => {
                    &&& e@ == (ErrorView::UnrecognizedCommand { command: command@ })
                    &&& forall|i: int|
                        0 <= i < self.manifests().len() ==> !triggers(self.manifests()[i], command@)
                },
            },
    {
        proof {
            use_type_invariant(self);
        }
        let mut best: Option<usize> = None;
        let mut i: usize = 0;
        while i < self.apps.len()
            invariant
                i <= self.apps@.len(),
                match best {
                    None => forall|j: int| 0 <= j < i ==> !triggers(self.apps@[j]@, command@),
                    Some(b) => {
                        &&& b < i
                        &&& triggers(self.apps@[b as int]@, command@)
                        &&& forall|j: int|
                            0 <= j < i && triggers(self.apps@[j]@, command@) ==> outranks(
                                self.apps@[b as int]@,
                                self.apps@[j]@,
                            )
                    },
                },
            decreases self.apps@.len() - i,
        {
            let candidate = &self.apps[i];
            if starts_with(command, candidate.trigger_phrase.as_str()) {
                match best {
                    None => {
                        proof {
                            lemma_outranks_reflexive(candidate@);
                        }
                        best = Some(i);
                    },
                    Some(b) => {
                        let holder = &self.apps[b];
                        if prefers(holder, candidate) {
                        } else {
                            proof {
                                lemma_outranks_total(holder@, candidate@);
                                lemma_outranks_reflexive(candidate@);
                                assert forall|j: int|
                                    0 <= j < i && triggers(
                                        self.apps@[j]@,
                                        command@,
                                    ) implies outranks(candidate@, self.apps@[j]@) by {
                                    lemma_outranks_transitive(candidate@, holder@, self.apps@[j]@);
                                }
                            }
                            best = Some(i);
                        }
                    },
                }
            }
            i += 1;
        }
        match best {
            None => Err(Error::UnrecognizedCommand { command: command.to_owned() }),
            Some(b) => {
                let chosen = &self.apps[b];
                assert(selects(self.manifests(), command@, b as int));
                Ok(Invocation::pending(chosen.id.clone(), command.to_owned()))
            },
        }
    }
}

/// Whether one of `apps` has the identifier `id`.
fn has_id(apps: &Vec<Manifest>, id: &str) -> (r: bool)
    ensures
        r == exists|j: int| 0 <= j < apps@.len() && apps@[j]@.id == id@,
{
    let mut i: usize = 0;
    while i < apps.len()
        invariant
            i <= apps@.len(),
            forall|j: int| 0 <= j < i ==> apps@[j]@.id != id@,
        decreases apps@.len() - i,
    {
        if same(apps[i].id.as_str(), id) {
            return true;
        }
        i += 1;
    }
    false
}

/// Whether `a` is to be chosen before `b`.
fn prefers(a: &Manifest, b: &Manifest) -> (r: bool)
    ensures
        r == outranks(a@, b@),
{
    let len_a = a.trigger_phrase.as_str().unicode_len();
    let len_b = b.trigger_phrase.as_str().unicode_len();
    len_a > len_b || (len_a == len_b && precedes(a.id.as_str(), b.id.as_str()))
}

/// Where exactly one app is triggered, that app is the one selected, and no
/// other is.
pub proof fn lemma_single_match_is_selected(apps: Seq<ManifestView>, command: Seq<char>, i: int)
    requires
        0 <= i < apps.len(),
        triggers(apps[i], command),
        forall|j: int| 0 <= j < apps.len() && j != i ==> !triggers(apps[j], command),
    ensures
        selects(apps, command, i),
        forall|k: int| selects(apps, command, k) ==> k == i,
{
    lemma_outranks_reflexive(apps[i]);
}

/// Where two apps are triggered, the one with the strictly longer trigger
/// phrase is preferred, and of two with equally long phrases the one whose
/// identifier comes first: the other is not selected, and where no third app
/// is triggered the preferred one is.
pub proof fn lemma_longer_then_smaller_wins(
    apps: Seq<ManifestView>,
    command: Seq<char>,
    winner: int,
    loser: int,
)
    requires
        distinct_ids(apps),
        0 <= winner < apps.len(),
        0 <= loser < apps.len(),
        winner != loser,
        triggers(apps[winner], command),
        triggers(apps[loser], command),
        apps[winner].trigger_phrase.len() > apps[loser].trigger_phrase.len() || (
        apps[winner].trigger_phrase.len() == apps[loser].trigger_phrase.len() && lex_le(
            apps[winner].id,
            apps[loser].id,
        )),
    ensures
        !selects(apps, command, loser),
        (forall|j: int|
            0 <= j < apps.len() && triggers(apps[j], command) ==> j == winner || j == loser)
            ==> selects(apps, command, winner),
{
    if outranks(apps[loser], apps[winner]) {
        lemma_lex_le_antisymmetric(apps[winner].id, apps[loser].id);
    }
    lemma_outranks_reflexive(apps[winner]);
}

/// The selection is deterministic: a registry without repeated identifiers
/// selects at most one app for a command.
pub proof fn lemma_selection_is_unique(apps: Seq<ManifestView>, command: Seq<char>, i: int, j: int)
    requires
        distinct_ids(apps),
        selects(apps, command, i),
        selects(apps, command, j),
    ensures
        i == j,
{
    if i != j {
        lemma_lex_le_antisymmetric(apps[i].id, apps[j].id);
    }
}

/// Every app ranks at least as high as itself.
pub proof fn lemma_outranks_reflexive(a: ManifestView)
    ensures
        outranks(a, a),
{
    lemma_lex_le_reflexive(a.id);
}

/// Of two apps, one outranks the other.
pub proof fn lemma_outranks_total(a: ManifestView, b: ManifestView)
    ensures
        outranks(a, b) || outranks(b, a),
{
    lemma_lex_le_total(a.id, b.id);
}

/// Rank carries over a middle app.
pub proof fn lemma_outranks_transitive(a: ManifestView, b: ManifestView, c: ManifestView)
    requires
        outranks(a, b),
        outranks(b, c),
    ensures
        outranks(a, c),
{
    if a.trigger_phrase.len() == b.trigger_phrase.len() && b.trigger_phrase.len()
        == c.trigger_phrase.len() {
        lemma_lex_le_transitive(a.id, b.id, c.id);
    }
}

} // verus!
