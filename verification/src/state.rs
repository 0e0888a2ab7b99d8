//! The environments that a compilation and an evaluation work in.

use vstd::prelude::*;
use crate::entries::{
    entries_map, lemma_entries_absent, lemma_entries_found, lemma_entries_push,
    lemma_entries_replace, none_after,
};
use crate::kind::Kind;
use crate::parse_syslog::Clock;
use crate::path::{Path, SegmentView};
use crate::type_def::{Details, DetailsView, TypeDef, TypeDefView};
use crate::value::{Value, ValueView};

verus! {

/// What is known of one variable.
#[derive(Debug)]
pub struct Binding {
    pub ident: String,
    pub details: Details,
}

/// The variables of the program under compilation, each with what is known
/// of it at the point that the compilation has reached.
#[derive(Debug)]
pub struct LocalEnv {
    bindings: Vec<Binding>,
}

/// The bindings as key-value pairs.
pub open spec fn binding_entries(bindings: Seq<Binding>) -> Seq<(Seq<char>, DetailsView)> {
    Seq::new(bindings.len(), |i: int| (bindings[i].ident@, bindings[i].details@))
}

impl View for LocalEnv {
    type V = Map<Seq<char>, DetailsView>;

    closed spec fn view(&self) -> Map<Seq<char>, DetailsView> {
        entries_map(binding_entries(self.bindings@))
    }
}

fn find_binding(bindings: &Vec<Binding>, ident: &String) -> (found: Option<usize>)
    ensures
        match found {
            Some(i) => {
                &&& i < bindings.len()
                &&& bindings[i as int].ident@ == ident@
                &&& entries_map(binding_entries(bindings@)).contains_key(ident@)
                &&& entries_map(binding_entries(bindings@))[ident@] == bindings[i as int].details@
            },
            None => !entries_map(binding_entries(bindings@)).contains_key(ident@),
        },
{
    let mut i: usize = bindings.len();
    while i > 0
        invariant
            i <= bindings.len(),
            none_after(binding_entries(bindings@), i - 1, ident@),
        decreases i,
    {
        i -= 1;
        if bindings[i].ident == *ident {
            proof {
                lemma_entries_found(binding_entries(bindings@), i as int);
            }
            return Some(i);
        }
    }
    proof {
        lemma_entries_absent(binding_entries(bindings@), ident@);
    }
    None
}

impl LocalEnv {
    /// The environment of a program that has no variable yet.
    pub fn new() -> (env: LocalEnv)
        ensures
            env@ == Map::<Seq<char>, DetailsView>::empty(),
    {
        LocalEnv { bindings: Vec::new() }
    }

    /// What is known of the variable, if the program has it.
    pub fn variable(&self, ident: &String) -> (details: Option<&Details>)
        ensures
            match details {
                Some(details) => self@.contains_key(ident@) && details@ == self@[ident@],
                None => !self@.contains_key(ident@),
            },
    {
        match find_binding(&self.bindings, ident) {
            Some(i) => Some(&self.bindings[i].details),
            None => None,
        }
    }

    /// Sets what is known of the variable.
    pub fn insert_variable(&mut self, ident: String, details: Details)
        ensures
            final(self)@ == old(self)@.insert(ident@, details@),
    {
        let ghost known = self.bindings@;
        match find_binding(&self.bindings, &ident) {
            Some(i) => {
                let _ = self.bindings.remove(i);
                proof {
                    lemma_entries_replace(binding_entries(known), i as int, details@);
                    assert(binding_entries(
                        known.remove(i as int).push(Binding { ident, details }),
                    ) =~= binding_entries(known).remove(i as int).push((ident@, details@)));
                }
            },
            None => {
                proof {
                    lemma_entries_push(binding_entries(known), (ident@, details@));
                    assert(binding_entries(known.push(Binding { ident, details }))
                        =~= binding_entries(known).push((ident@, details@)));
                }
            },
        }
        self.bindings.push(Binding { ident, details });
    }
}

/// The mathematical model of an [`ExternalEnv`].
pub ghost struct ExternalEnvView {
    pub target: DetailsView,
    pub read_only: Seq<Seq<SegmentView>>,
}

impl ExternalEnvView {
    /// Whether a write at `path` would change a read-only region: the path
    /// lies in a region, or a region lies below the path.
    pub open spec fn is_read_only(self, path: Seq<SegmentView>) -> bool {
        exists|i: int|
            0 <= i < self.read_only.len() && touches(#[trigger] self.read_only[i], path)
    }
}

/// Whether a write at `path` would change the region at `region`.
pub open spec fn touches(region: Seq<SegmentView>, path: Seq<SegmentView>) -> bool {
    region.is_prefix_of(path) || path.is_prefix_of(region)
}

/// What is known of the record that the program works on, and which regions
/// of it the program may not change.
#[derive(Debug)]
pub struct ExternalEnv {
    target: Details,
    read_only: Vec<Path>,
}

/// The models of a sequence of paths.
pub open spec fn paths_view(paths: Seq<Path>) -> Seq<Seq<SegmentView>> {
    paths.map_values(|path: Path| path@)
}

impl View for ExternalEnv {
    type V = ExternalEnvView;

    closed spec fn view(&self) -> ExternalEnvView {
        ExternalEnvView { target: self.target@, read_only: paths_view(self.read_only@) }
    }
}

impl ExternalEnv {
    /// The environment of a record of the given kind, all of which the
    /// program may change.
    pub fn new_with_kind(kind: Kind) -> (env: ExternalEnv)
        ensures
            env@.target == (DetailsView {
                type_def: TypeDefView { kind: kind@, fallible: false },
                value: None,
            }),
            env@.read_only == Seq::<Seq<SegmentView>>::empty(),
    {
        let env = ExternalEnv {
            target: Details { type_def: TypeDef::new(kind), value: None },
            read_only: Vec::new(),
        };
        assert(env@.read_only =~= Seq::<Seq<SegmentView>>::empty());
        env
    }

    /// What is known of the record.
    pub fn target(&self) -> (details: &Details)
        ensures
            details@ == self@.target,
    {
        &self.target
    }

    /// The kind of the record.
    pub fn target_kind(&self) -> (kind: &Kind)
        ensures
            kind@ == self@.target.type_def.kind,
    {
        self.target.type_def.kind()
    }

    /// Sets what is known of the record.
    pub fn update_target(&mut self, details: Details)
        ensures
            final(self)@ == (ExternalEnvView { target: details@, ..old(self)@ }),
    {
        self.target = details;
    }

    /// Marks the region at `path` as one that the program may not change.
    pub fn set_read_only_event_path(&mut self, path: Path)
        ensures
            final(self)@ == (ExternalEnvView {
                read_only: old(self)@.read_only.push(path@),
                ..old(self)@
            }),
    {
        self.read_only.push(path);
        assert(final(self)@.read_only =~= old(self)@.read_only.push(path@));
    }

    /// Whether a write at `path` would change a read-only region.
    pub fn is_read_only_event_path(&self, path: &Path) -> (yes: bool)
        ensures
            yes == self@.is_read_only(path@),
    {
        let mut i: usize = 0;
        while i < self.read_only.len()
            invariant
                i <= self.read_only.len(),
                forall|j: int| 0 <= j < i ==> !touches(#[trigger] self@.read_only[j], path@),
            decreases self.read_only.len() - i,
        {
            let region = &self.read_only[i];
            if path.starts_with(region) || region.starts_with(path) {
                proof {
                    assert(touches(self@.read_only[i as int], path@));
                }
                return true;
            }
            i += 1;
        }
        false
    }
}

/// The value of one variable.
#[derive(Debug)]
pub struct Slot {
    pub ident: String,
    pub value: Value,
}

/// The variables of a program under evaluation.
#[derive(Debug)]
pub struct Runtime {
    slots: Vec<Slot>,
}

/// The slots as key-value pairs.
pub open spec fn slot_entries(slots: Seq<Slot>) -> Seq<(Seq<char>, ValueView)> {
    Seq::new(slots.len(), |i: int| (slots[i].ident@, slots[i].value@))
}

impl View for Runtime {
    type V = Map<Seq<char>, ValueView>;

    closed spec fn view(&self) -> Map<Seq<char>, ValueView> {
        entries_map(slot_entries(self.slots@))
    }
}

fn find_slot(slots: &Vec<Slot>, ident: &String) -> (found: Option<usize>)
    ensures
        match found {
            Some(i) => {
                &&& i < slots.len()
                &&& slots[i as int].ident@ == ident@
                &&& entries_map(slot_entries(slots@)).contains_key(ident@)
                &&& entries_map(slot_entries(slots@))[ident@] == slots[i as int].value@
            },
            None => !entries_map(slot_entries(slots@)).contains_key(ident@),
        },
{
    let mut i: usize = slots.len();
    while i > 0
        invariant
            i <= slots.len(),
            none_after(slot_entries(slots@), i - 1, ident@),
        decreases i,
    {
        i -= 1;
        if slots[i].ident == *ident {
            proof {
                lemma_entries_found(slot_entries(slots@), i as int);
            }
            return Some(i);
        }
    }
    proof {
        lemma_entries_absent(slot_entries(slots@), ident@);
    }
    None
}

/// The variables after `value` has been written at `path` into the variable
/// `ident`: a variable that was not there starts out as null.
pub open spec fn variable_written(
    variables: Map<Seq<char>, ValueView>,
    ident: Seq<char>,
    path: Seq<SegmentView>,
    value: ValueView,
) -> Map<Seq<char>, ValueView> {
    let stored = if variables.contains_key(ident) {
        variables[ident]
    } else {
        ValueView::Null
    };
    variables.insert(ident, stored.written(path, value))
}

impl Runtime {
    /// The state of a program that has set no variable yet.
    pub fn new() -> (state: Runtime)
        ensures
            state@ == Map::<Seq<char>, ValueView>::empty(),
    {
        Runtime { slots: Vec::new() }
    }

    /// The value of the variable, if it has been set.
    pub fn variable(&self, ident: &String) -> (value: Option<&Value>)
        ensures
            match value {
                Some(value) => self@.contains_key(ident@) && value@ == self@[ident@],
                None => !self@.contains_key(ident@),
            },
    {
        match find_slot(&self.slots, ident) {
            Some(i) => Some(&self.slots[i].value),
            None => None,
        }
    }

    /// Sets the variable.
    pub fn insert_variable(&mut self, ident: String, value: Value)
        ensures
            final(self)@ == old(self)@.insert(ident@, value@),
    {
        let ghost known = self.slots@;
        match find_slot(&self.slots, &ident) {
            Some(i) => {
                let _ = self.slots.remove(i);
                proof {
                    lemma_entries_replace(slot_entries(known), i as int, value@);
                    assert(slot_entries(known.remove(i as int).push(Slot { ident, value }))
                        =~= slot_entries(known).remove(i as int).push((ident@, value@)));
                }
            },
            None => {
                proof {
                    lemma_entries_push(slot_entries(known), (ident@, value@));
                    assert(slot_entries(known.push(Slot { ident, value })) =~= slot_entries(
                        known,
                    ).push((ident@, value@)));
                }
            },
        }
        self.slots.push(Slot { ident, value });
    }

    /// Writes `value` at `path` into the variable.
    pub fn insert_by_path(&mut self, ident: String, path: &Path, value: Value)
        ensures
            final(self)@ == variable_written(old(self)@, ident@, path@, value@),
    {
        let ghost known = self.slots@;
        match find_slot(&self.slots, &ident) {
            Some(i) => {
                let slot = self.slots.remove(i);
                let mut stored = slot.value;
                stored.insert_by_path(path, value);
                proof {
                    lemma_entries_replace(slot_entries(known), i as int, stored@);
                    assert(slot_entries(known.remove(i as int).push(Slot { ident, value: stored }))
                        =~= slot_entries(known).remove(i as int).push((ident@, stored@)));
                }
                self.slots.push(Slot { ident, value: stored });
            },
            None => {
                let mut stored = Value::Null;
                stored.insert_by_path(path, value);
                proof {
                    lemma_entries_push(slot_entries(known), (ident@, stored@));
                    assert(slot_entries(known.push(Slot { ident, value: stored }))
                        =~= slot_entries(known).push((ident@, stored@)));
                }
                self.slots.push(Slot { ident, value: stored });
            },
        }
    }
}

/// What an evaluation works on: the record and the variables, and the time
/// that it takes place at.
#[derive(Debug)]
pub struct Context {
    pub target: Value,
    pub state: Runtime,
    pub clock: Clock,
}

impl Context {
    /// The context of an evaluation that starts on `target` with no variable
    /// set.
    pub fn new(target: Value, clock: Clock) -> (ctx: Context)
        ensures
            ctx.target@ == target@,
            ctx.state@ == Map::<Seq<char>, ValueView>::empty(),
            ctx.clock == clock,
    {
        Context { target, state: Runtime::new(), clock }
    }
}

} // verus!
