//! The single authority over job versions. Every template that is dispatched
//! gets the next version; nobody else writes the counter, so no two templates
//! share a version.

use vstd::prelude::*;

verus! {

/// Owner of the current job version and of the template it belongs to.
///
/// Its view is the sequence of templates dispatched so far: version `v` is
/// bound to the template at position `v - 1`, and the current version is the
/// length of that sequence.
pub struct JobTracker<T> {
    version: u64,
    template: Option<T>,
    dispatched: Ghost<Seq<T>>,
}

impl<T> View for JobTracker<T> {
    type V = Seq<T>;

    closed spec fn view(&self) -> Seq<T> {
        self.dispatched@
    }
}

/// The template that a version is bound to in a history of dispatches.
pub open spec fn template_of<T>(dispatched: Seq<T>, version: nat) -> Option<T> {
    if 1 <= version <= dispatched.len() {
        Some(dispatched[version - 1])
    } else {
        None
    }
}

impl<T> JobTracker<T> {
    /// The counter is the number of dispatches, and the stored template is the
    /// latest of them.
    pub closed spec fn well_formed(&self) -> bool {
        &&& self.version == self.dispatched@.len()
        &&& self.template == template_of(self.dispatched@, self.version as nat)
    }

    /// A tracker that has dispatched nothing: its version is 0.
    pub fn new() -> (r: Self)
        ensures
            r.well_formed(),
            r@ == Seq::<T>::empty(),
    {
        JobTracker { version: 0, template: None, dispatched: Ghost(Seq::empty()) }
    }

    /// The current version: a snapshot that changes nothing.
    pub fn current(&self) -> (r: u64)
        requires
            self.well_formed(),
        ensures
            r == self@.len(),
    {
        self.version
    }

    /// The template of the current version, if anything was dispatched yet.
    pub fn current_template(&self) -> (r: Option<&T>)
        requires
            self.well_formed(),
        ensures
            r is Some == (self@.len() > 0),
            r is Some ==> *r->0 == self@.last(),
    {
        self.template.as_ref()
    }

    /// Binds the next version to `template` and returns it. Each version is
    /// one more than the last, and earlier bindings stay as they are. Once
    /// the counter has reached the largest `u64`, nothing changes and `None`
    /// comes back.
    pub fn next_version(&mut self, template: T) -> (r: Option<u64>)
        requires
            old(self).well_formed(),
        ensures
            final(self).well_formed(),
            old(self)@.len() < u64::MAX ==> r == Some((old(self)@.len() + 1) as u64)
                && final(self)@ == old(self)@.push(template),
            old(self)@.len() >= u64::MAX ==> r is None && final(self)@ == old(self)@,
    {
        if self.version < u64::MAX {
            self.version = self.version + 1;
            self.template = Some(template);
            proof {
                self.dispatched@ = self.dispatched@.push(template);
            }
            Some(self.version)
        } else {
            None
        }
    }
}

/// A dispatch binds the next version to its template and leaves every
/// earlier binding as it was.
pub proof fn bindings_are_permanent<T>(dispatched: Seq<T>, template: T, version: nat)
    requires
        1 <= version <= dispatched.len(),
    ensures
        template_of(dispatched.push(template), version) == template_of(dispatched, version),
        template_of(dispatched.push(template), dispatched.len() + 1) == Some(template),
        version < dispatched.len() + 1,
{
}

/// Later versions are larger, and dispatching more never rebinds a version:
/// whatever was issued keeps its template for good.
pub proof fn later_versions_are_larger<T>(dispatched: Seq<T>, more: Seq<T>)
    requires
        more.len() > 0,
    ensures
        (dispatched + more).len() > dispatched.len(),
        forall|version: nat|
            1 <= version <= dispatched.len() ==> #[trigger] template_of(
                dispatched + more,
                version,
            ) == template_of(dispatched, version),
        template_of(dispatched + more, (dispatched + more).len()) == Some(more.last()),
{
}

} // verus!
