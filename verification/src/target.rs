//! Capture targets and their resolution by identifier.
//!
//! Enumerating the available targets is the backend's work; this module
//! takes one enumeration snapshot as a plain vector and resolves an
//! identifier against it by linear scan, exactly as the snapshot orders the
//! targets.

use vstd::prelude::*;
use crate::error::CaptureError;

verus! {

/// An addressable capturable source: a window or a full display.  The
/// identifier is an opaque unsigned integer assigned by the backend, unique
/// only within one enumeration snapshot.
pub enum Target {
    Window { id: u32, title: String },
    Display { id: u32, title: String },
}

impl Target {
    /// The backend-assigned identifier of this target.
    pub open spec fn spec_id(&self) -> u32 {
        match self {
            Target::Window { id, .. } => *id,
            Target::Display { id, .. } => *id,
        }
    }

    /// The human-readable title of this target.
    pub open spec fn spec_title(&self) -> Seq<char> {
        match self {
            Target::Window { title, .. } => title@,
            Target::Display { title, .. } => title@,
        }
    }

    /// Exec accessor for the identifier.
    pub fn id(&self) -> (r: u32)
        ensures
            r == self.spec_id(),
    {
        match self {
            Target::Window { id, .. } => *id,
            Target::Display { id, .. } => *id,
        }
    }

    /// Exec accessor for the title.
    pub fn title(&self) -> (r: &String)
        ensures
            r@ == self.spec_title(),
    {
        match self {
            Target::Window { title, .. } => title,
            Target::Display { title, .. } => title,
        }
    }
}

impl Clone for Target {
    /// A clone is the same target, field for field.
    fn clone(&self) -> (r: Target)
        ensures
            r == *self,
    {
        match self {
            Target::Window { id, title } => Target::Window { id: *id, title: title.clone() },
            Target::Display { id, title } => Target::Display { id: *id, title: title.clone() },
        }
    }
}

/// The first target of the snapshot that carries the identifier, if any:
/// the value a linear scan resolves to.
pub open spec fn spec_find_target(targets: Seq<Target>, id: u32) -> Option<Target>
    decreases targets.len(),
{
    if targets.len() == 0 {
        None
    } else if targets[0].spec_id() == id {
        Some(targets[0])
    } else {
        spec_find_target(targets.drop_first(), id)
    }
}

/// Resolution law: a resolved target carries the requested identifier and
/// stands in the snapshot; resolution comes up empty exactly when no target
/// of the snapshot carries the identifier.
pub proof fn lemma_find_target_correct(targets: Seq<Target>, id: u32)
    ensures
        spec_find_target(targets, id) matches Some(t) ==> t.spec_id() == id && exists|i: int|
            0 <= i < targets.len() && targets[i] == t,
        spec_find_target(targets, id) is None <==> forall|i: int|
            0 <= i < targets.len() ==> targets[i].spec_id() != id,
    decreases targets.len(),
{
    if targets.len() > 0 {
        lemma_find_target_correct(targets.drop_first(), id);
        if targets[0].spec_id() != id {
            match spec_find_target(targets.drop_first(), id) {
                Some(t) => {
                    let j = choose|j: int|
                        0 <= j < targets.drop_first().len() && targets.drop_first()[j] == t;
                    assert(targets[j + 1] == t);
                },
                None => {},
            }
            assert forall|i: int|
                0 <= i < targets.len() && spec_find_target(targets, id) is None implies targets[i].spec_id()
                != id by {
                if i > 0 {
                    assert(targets.drop_first()[i - 1] == targets[i]);
                }
            }
        }
    }
}

/// Skipping a matchless prefix does not change what the scan resolves to.
proof fn lemma_find_target_skip(targets: Seq<Target>, id: u32, i: int)
    requires
        0 <= i <= targets.len(),
        forall|j: int| 0 <= j < i ==> targets[j].spec_id() != id,
    ensures
        spec_find_target(targets, id) == spec_find_target(targets.skip(i), id),
    decreases i,
{
    if i > 0 {
        assert(targets.drop_first() =~= targets.skip(1));
        assert(spec_find_target(targets, id) == spec_find_target(targets.skip(1), id));
        assert(forall|j: int|
            0 <= j < i - 1 ==> #[trigger] targets.skip(1)[j] == targets[j + 1]);
        lemma_find_target_skip(targets.skip(1), id, i - 1);
        assert(targets.skip(1).skip(i - 1) =~= targets.skip(i));
    } else {
        assert(targets.skip(0) =~= targets);
    }
}

/// The position of the first target of the snapshot that carries the
/// identifier, or `None` when no target does.
pub fn find_target_index(targets: &Vec<Target>, id: u32) -> (r: Option<usize>)
    ensures
        r matches Some(i) ==> i < targets@.len() && spec_find_target(targets@, id) == Some(
            targets@[i as int],
        ) && targets@[i as int].spec_id() == id,
        r is None <==> spec_find_target(targets@, id) is None,
{
    let n = targets.len();
    let mut i: usize = 0;
    while i < n
        invariant
            n == targets@.len(),
            0 <= i <= n,
            forall|j: int| 0 <= j < i ==> targets@[j].spec_id() != id,
        decreases n - i,
    {
        if targets[i].id() == id {
            proof {
                lemma_find_target_skip(targets@, id, i as int);
                assert(targets@.skip(i as int)[0] == targets@[i as int]);
            }
            return Some(i);
        }
        i = i + 1;
    }
    proof {
        lemma_find_target_skip(targets@, id, n as int);
    }
    None
}

/// Resolve an identifier against one enumeration snapshot: the first target
/// whose id matches, or `TargetNotFound` when none does.
pub fn get_target_by_id(targets: &Vec<Target>, id: u32) -> (r: Result<Target, CaptureError>)
    ensures
        r matches Ok(t) ==> spec_find_target(targets@, id) == Some(t) && t.spec_id() == id,
        r matches Err(e) ==> spec_find_target(targets@, id) is None && e == (
        CaptureError::TargetNotFound { id }),
        r is Ok <==> spec_find_target(targets@, id) is Some,
{
    match find_target_index(targets, id) {
        Some(i) => Ok(targets[i].clone()),
        None => Err(CaptureError::TargetNotFound { id }),
    }
}

/// Flatten one enumeration snapshot into `(id, title)` pairs, in the
/// snapshot's order.
pub fn list_targets(targets: &Vec<Target>) -> (r: Vec<(u32, String)>)
    ensures
        r@.len() == targets@.len(),
        forall|i: int|
            0 <= i < targets@.len() ==> #[trigger] r@[i].0 == targets@[i].spec_id() && r@[i].1@
                == targets@[i].spec_title(),
{
    let mut out: Vec<(u32, String)> = Vec::new();
    let n = targets.len();
    let mut i: usize = 0;
    while i < n
        invariant
            n == targets@.len(),
            0 <= i <= n,
            out@.len() == i,
            forall|j: int|
                0 <= j < i ==> #[trigger] out@[j].0 == targets@[j].spec_id() && out@[j].1@
                    == targets@[j].spec_title(),
        decreases n - i,
    {
        let t = &targets[i];
        out.push((t.id(), t.title().clone()));
        i = i + 1;
    }
    out
}

} // verus!
