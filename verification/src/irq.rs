use vstd::prelude::*;

verus! {

/// A hardware block that can ask the processor for an interrupt. The block
/// owns its request: it raises it when its own condition is met and clears it
/// when the processor has serviced it or the condition is armed again.
pub trait InterruptSource {
    /// Whether the block asks for an interrupt.
    spec fn requesting(&self) -> bool;

    /// Reports whether the block asks for an interrupt.
    fn irq_pending(&self) -> (pending: bool)
        ensures
            pending == self.requesting(),
    ;
}

/// A plain interrupt line: a request that its owner raises and clears.
#[derive(Clone, Copy, Debug, PartialEq, Eq, Structural)]
pub struct IrqLine {
    pub raised: bool,
}

impl IrqLine {
    /// Builds a line that is not raised.
    pub fn new() -> (line: IrqLine)
        ensures
            !line.raised,
    {
        IrqLine { raised: false }
    }

    /// Raises the request.
    pub fn raise(&mut self)
        ensures
            final(self).raised,
    {
        self.raised = true;
    }

    /// Clears the request.
    pub fn clear(&mut self)
        ensures
            !final(self).raised,
    {
        self.raised = false;
    }
}

impl InterruptSource for IrqLine {
    open spec fn requesting(&self) -> bool {
        self.raised
    }

    fn irq_pending(&self) -> (pending: bool) {
        self.raised
    }
}

/// Whether any of `sources` asks for an interrupt.
pub open spec fn any_requesting<S: InterruptSource>(sources: Seq<S>) -> bool {
    exists|i: int| 0 <= i < sources.len() && (#[trigger] sources[i]).requesting()
}

/// The interrupt line of the processor: the logical OR of the requests of the
/// registered sources. The aggregator reads and combines; it never raises or
/// clears a request itself.
pub struct InterruptAggregator<S: InterruptSource> {
    sources: Vec<S>,
}

impl<S: InterruptSource> View for InterruptAggregator<S> {
    type V = Seq<S>;

    /// The registered sources, in the order of their registration.
    closed spec fn view(&self) -> Seq<S> {
        self.sources@
    }
}

impl<S: InterruptSource> InterruptAggregator<S> {
    /// Builds an aggregator without sources.
    pub fn new() -> (aggregator: Self)
        ensures
            aggregator@ == Seq::<S>::empty(),
    {
        InterruptAggregator { sources: Vec::new() }
    }

    /// The number of registered sources.
    pub fn len(&self) -> (count: usize)
        ensures
            count == self@.len(),
    {
        self.sources.len()
    }

    /// Registers `source` behind those registered before and returns the
    /// handle under which it is found again.
    pub fn add_irq_provider(&mut self, source: S) -> (handle: usize)
        ensures
            final(self)@ == old(self)@.push(source),
            handle == old(self)@.len(),
    {
        let handle: usize = self.sources.len();
        self.sources.push(source);
        handle
    }

    /// The source registered under `handle`, if there is one.
    pub fn source(&self, handle: usize) -> (source: Option<&S>)
        ensures
            handle < self@.len() ==> source == Some(&self@[handle as int]),
            handle >= self@.len() ==> source.is_none(),
    {
        if handle < self.sources.len() {
            Some(&self.sources[handle])
        } else {
            None
        }
    }

    /// Puts `source` in the place of the source registered under `handle`, as
    /// the owner of a request does when the request changes. Returns whether
    /// there was such a source; without one nothing changes.
    pub fn update(&mut self, handle: usize, source: S) -> (found: bool)
        ensures
            found == (handle < old(self)@.len()),
            found ==> final(self)@ == old(self)@.update(handle as int, source),
            !found ==> final(self)@ == old(self)@,
    {
        if handle < self.sources.len() {
            self.sources.set(handle, source);
            true
        } else {
            false
        }
    }

    /// Reports whether at least one registered source asks for an interrupt.
    pub fn irq_pending(&self) -> (pending: bool)
        ensures
            pending == any_requesting(self@),
    {
        let mut i: usize = 0;
        while i < self.sources.len()
            invariant
                i <= self.sources.len(),
                forall|j: int| 0 <= j < i ==> !(#[trigger] self.sources@[j]).requesting(),
            decreases self.sources.len() - i,
        {
            if self.sources[i].irq_pending() {
                return true;
            }
            i = i + 1;
        }
        false
    }
}

/// Without sources no interrupt is pending, and once every source has
/// cleared its request none is pending either.
pub proof fn lemma_all_clear<S: InterruptSource>(sources: Seq<S>)
    requires
        forall|i: int| 0 <= i < sources.len() ==> !(#[trigger] sources[i]).requesting(),
    ensures
        !any_requesting(sources),
        !any_requesting(Seq::<S>::empty()),
{
}

/// One request is enough: with a source that asks for an interrupt among
/// them, the sources together ask for one, whatever the others do and
/// wherever the source stands in the order of registration.
pub proof fn lemma_one_request_is_enough<S: InterruptSource>(sources: Seq<S>, handle: int)
    requires
        0 <= handle < sources.len(),
        sources[handle].requesting(),
    ensures
        any_requesting(sources),
{
}

/// A source that joins or changes moves the interrupt line only by its own
/// request: the line is the request of that source or that of the others.
/// This holds of the first source to join as of every later one, and of a
/// change under every handle that is in use.
pub proof fn lemma_line_is_an_or<S: InterruptSource>(sources: Seq<S>, handle: int, source: S)
    ensures
        any_requesting(sources.push(source)) == (any_requesting(sources) || source.requesting()),
        0 <= handle < sources.len() ==> any_requesting(sources.update(handle, source)) == (
        source.requesting() || any_requesting(sources.remove(handle))),
{
    let pushed = sources.push(source);
    if any_requesting(sources) {
        let i = choose|i: int| 0 <= i < sources.len() && (#[trigger] sources[i]).requesting();
        assert(pushed[i].requesting());
    }
    if source.requesting() {
        assert(pushed[sources.len() as int].requesting());
    }
    if any_requesting(pushed) {
        let i = choose|i: int| 0 <= i < pushed.len() && (#[trigger] pushed[i]).requesting();
        if i < sources.len() {
            assert(sources[i].requesting());
        }
    }
    if 0 <= handle < sources.len() {
        let updated = sources.update(handle, source);
        let others = sources.remove(handle);
        if any_requesting(updated) {
            let i = choose|i: int| 0 <= i < updated.len() && (#[trigger] updated[i]).requesting();
            if i < handle {
                assert(others[i].requesting());
            } else if i > handle {
                assert(others[i - 1].requesting());
            }
        }
        if source.requesting() {
            assert(updated[handle].requesting());
        }
        if any_requesting(others) {
            let i = choose|i: int| 0 <= i < others.len() && (#[trigger] others[i]).requesting();
            if i < handle {
                assert(updated[i].requesting());
            } else {
                assert(updated[i + 1].requesting());
            }
        }
    }
}

} // verus!
