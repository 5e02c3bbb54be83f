//! The span registry: a durable, append-only mapping from span identifier to
//! span name.
//!
//! Records are added when the host reports a new span and are never removed;
//! a lookup scans for the first record with the requested identifier. When
//! identifiers are unique (as the allocator guarantees for the standalone
//! collector) the first match is the only match.

use vstd::prelude::*;

verus! {

/// No character of the string is the NUL character.
///
/// Labels handed to the profiler cross a C string boundary, which cannot
/// represent an interior NUL; every name and marker text the adapter emits
/// must satisfy this.
pub open spec fn nul_free(s: Seq<char>) -> bool {
    forall|i: int| 0 <= i < s.len() ==> s[i] != '\0'
}

/// The name the registry associates with `id`: the name of the first record
/// carrying `id`, or `None` when no record does.
pub open spec fn name_for(spans: Seq<(u64, Seq<char>)>, id: u64) -> Option<Seq<char>>
    decreases spans.len(),
{
    if spans.len() == 0 {
        None
    } else if spans[0].0 == id {
        Some(spans[0].1)
    } else {
        name_for(spans.skip(1), id)
    }
}

/// Whether some record with identifier `id` exists.
pub open spec fn registered(spans: Seq<(u64, Seq<char>)>, id: u64) -> bool {
    name_for(spans, id) is Some
}

/// Lookup correctness: registering a fresh identifier under a name, then
/// looking that identifier up, yields exactly that name, unmodified. (For an
/// identifier registered before, lookup keeps returning the earlier name:
/// the first record wins.)
pub proof fn lemma_lookup_after_register(spans: Seq<(u64, Seq<char>)>, id: u64, name: Seq<char>)
    requires
        !registered(spans, id),
    ensures
        name_for(spans.push((id, name)), id) == Some(name),
    decreases spans.len(),
{
    let appended = spans.push((id, name));
    if spans.len() == 0 {
        assert(appended[0] == (id, name));
    } else {
        assert(appended[0] == spans[0]);
        assert(appended.skip(1) =~= spans.skip(1).push((id, name)));
        lemma_lookup_after_register(spans.skip(1), id, name);
    }
}

/// One span: its process-unique identifier and its immutable display name.
pub struct SpanRecord {
    pub id: u64,
    pub name: String,
}

/// Append-only collection of [`SpanRecord`]s, viewed as the sequence of
/// `(identifier, name)` pairs in insertion order.
pub struct SpanRegistry {
    records: Vec<SpanRecord>,
}

impl View for SpanRegistry {
    type V = Seq<(u64, Seq<char>)>;

    closed spec fn view(&self) -> Seq<(u64, Seq<char>)> {
        self.records@.map_values(|r: SpanRecord| (r.id, r.name@))
    }
}

impl SpanRegistry {
    /// Invariant: every stored name is free of NUL characters, so it can
    /// always be handed to the profiler as a range label.
    pub open spec fn wf(&self) -> bool {
        forall|i: int| 0 <= i < self@.len() ==> nul_free(#[trigger] self@[i].1)
    }

    /// An empty registry.
    pub fn new() -> (reg: Self)
        ensures
            reg@ == Seq::<(u64, Seq<char>)>::empty(),
            reg.wf(),
    {
        let reg = SpanRegistry { records: Vec::new() };
        proof {
            assert(reg@ =~= Seq::<(u64, Seq<char>)>::empty());
        }
        reg
    }

    /// Appends a record for `id` named `name`. Nothing is ever overwritten:
    /// the new record is appended after all existing ones.
    pub fn register(&mut self, id: u64, name: String)
        requires
            old(self).wf(),
            nul_free(name@),
        ensures
            final(self).wf(),
            final(self)@ == old(self)@.push((id, name@)),
    {
        let ghost prior = self@;
        let ghost entry = (id, name@);
        self.records.push(SpanRecord { id, name });
        proof {
            assert(self@ =~= prior.push(entry));
        }
    }

    /// The index of the first record for `id`, if any.
    fn position(&self, id: u64) -> (r: Option<usize>)
        ensures
            match r {
                Some(i) => {
                    &&& i < self@.len()
                    &&& self@[i as int].0 == id
                    &&& name_for(self@, id) == Some(self@[i as int].1)
                },
                None => !registered(self@, id),
            },
    {
        let ghost spans = self@;
        let n = self.records.len();
        let mut i: usize = 0;
        proof {
            assert(spans.skip(0) =~= spans);
        }
        while i < n
            invariant
                n == self.records.len(),
                spans == self@,
                i <= n,
                name_for(spans, id) == name_for(spans.skip(i as int), id),
            decreases n - i,
        {
            proof {
                assert(spans.skip(i as int)[0] == spans[i as int]);
            }
            if self.records[i].id == id {
                return Some(i);
            }
            proof {
                assert(spans.skip(i as int).skip(1) =~= spans.skip(i as int + 1));
            }
            i = i + 1;
        }
        proof {
            assert(spans.skip(n as int) =~= Seq::<(u64, Seq<char>)>::empty());
        }
        None
    }

    /// Whether a record for `id` exists.
    pub fn contains(&self, id: u64) -> (b: bool)
        ensures
            b == registered(self@, id),
    {
        self.position(id).is_some()
    }

    /// The name registered for `id`.
    ///
    /// Calling this with an unregistered identifier is a contract violation,
    /// excluded by the precondition; there is deliberately no default name to
    /// fall back on, since a substituted label would silently corrupt the
    /// profiler's range labels.
    pub fn lookup(&self, id: u64) -> (name: &str)
        requires
            self.wf(),
            registered(self@, id),
        ensures
            Some(name@) == name_for(self@, id),
            nul_free(name@),
    {
        let r = self.position(id);
        match r {
            Some(i) => self.records[i].name.as_str(),
            None => unreached(),
        }
    }

    /// How many records have been registered.
    pub fn len(&self) -> (n: usize)
        ensures
            n == self@.len(),
    {
        self.records.len()
    }
}

} // verus!
