use vstd::prelude::*;

verus! {

/// The save-state slot of the native control block: either nothing, or one
/// installed buffer (possibly of length zero).
pub struct SavedState {
    buf: Option<Vec<u8>>,
}

impl View for SavedState {
    type V = Option<Seq<u8>>;

    closed spec fn view(&self) -> Option<Seq<u8>> {
        match self.buf {
            Some(v) => Some(v@),
            None => None,
        }
    }
}

/// Copies a byte slice into a fresh buffer of exactly its length.
fn copy_bytes(bytes: &[u8]) -> (r: Vec<u8>)
    ensures
        r@ == bytes@,
{
    let mut out: Vec<u8> = Vec::with_capacity(bytes.len());
    let mut i: usize = 0;
    while i < bytes.len()
        invariant
            i <= bytes@.len(),
            out@ == bytes@.subrange(0, i as int),
        decreases bytes@.len() - i,
    {
        out.push(bytes[i]);
        i = i + 1;
        proof {
            assert(out@ =~= bytes@.subrange(0, i as int));
        }
    }
    proof {
        assert(out@ =~= bytes@);
    }
    out
}

impl SavedState {
    /// An empty slot, as on a fresh process.
    pub fn new() -> (r: SavedState)
        ensures
            r@ is None,
    {
        SavedState { buf: None }
    }

    /// A slot holding a copy of the buffer the host handed over.
    pub fn installed(bytes: &[u8]) -> (r: SavedState)
        ensures
            r@ == Some(bytes@),
    {
        SavedState { buf: Some(copy_bytes(bytes)) }
    }

    /// Empties the slot, handing out the buffer it held.
    pub fn take(&mut self) -> (r: Option<Vec<u8>>)
        ensures
            final(self)@ is None,
            bytes_view(r) == old(self)@,
    {
        let r = self.buf.take();
        r
    }
}

/// What a slot holds after `state` is stored into it: the previous buffer,
/// if any, is released and only a copy of `state` remains.
pub open spec fn stored(prev: Option<Seq<u8>>, state: Seq<u8>) -> Option<Seq<u8>> {
    Some(state)
}

/// What loading from a slot gives: the installed buffer, unless there is
/// none or it is empty.
pub open spec fn loaded(slot: Option<Seq<u8>>) -> Option<Seq<u8>> {
    match slot {
        Some(b) => if b.len() > 0 { Some(b) } else { None },
        None => None,
    }
}

/// The bytes an optional buffer holds.
pub open spec fn bytes_view(v: Option<Vec<u8>>) -> Option<Seq<u8>> {
    match v {
        Some(b) => Some(b@),
        None => None,
    }
}

/// The capability to persist state, handed to the application only while it
/// handles a save-state notification.  It holds the slot for that time and
/// gives it back when the notification ends.
pub struct StateSaver {
    slot: SavedState,
}

impl StateSaver {
    /// The slot this capability writes.
    pub closed spec fn slot_view(&self) -> Option<Seq<u8>> {
        self.slot@
    }

    /// Grants the capability over a slot for one notification.
    pub fn new(slot: SavedState) -> (r: StateSaver)
        ensures
            r.slot_view() == slot@,
    {
        StateSaver { slot }
    }

    /// Releases any buffer already installed, then installs a fresh copy of
    /// `state`, of exactly its length.
    pub fn store(&mut self, state: &[u8])
        ensures
            final(self).slot_view() == stored(old(self).slot_view(), state@),
    {
        if self.slot.buf.is_some() {
            self.slot.buf = None;
        }
        let copy = copy_bytes(state);
        self.slot.buf = Some(copy);
    }

    /// Ends the notification, giving the slot back.
    pub fn finish(self) -> (r: SavedState)
        ensures
            r@ == self.slot_view(),
    {
        self.slot
    }
}

/// The capability to read persisted state, handed to the application only
/// while it handles a resume notification.
pub struct StateLoader<'a> {
    slot: &'a SavedState,
}

impl<'a> StateLoader<'a> {
    /// The slot this capability reads.
    pub closed spec fn slot_view(&self) -> Option<Seq<u8>> {
        self.slot@
    }

    /// Grants the capability over a slot for one notification.
    pub fn new(slot: &'a SavedState) -> (r: StateLoader<'a>)
        ensures
            r.slot_view() == slot@,
    {
        StateLoader { slot }
    }

    /// A copy of the installed buffer, or `None` when nothing is installed
    /// or the installed buffer is empty.
    pub fn load(&self) -> (r: Option<Vec<u8>>)
        ensures
            bytes_view(r) == loaded(self.slot_view()),
    {
        match &self.slot.buf {
            Some(b) => {
                if b.len() > 0 {
                    Some(copy_bytes(b.as_slice()))
                } else {
                    None
                }
            },
            None => None,
        }
    }
}

/// Loading right after a store gives back a byte-for-byte copy of what was
/// stored (nothing, for an empty buffer), whatever the slot held before.
pub proof fn lemma_store_then_load(prev: Option<Seq<u8>>, state: Seq<u8>)
    ensures
        state.len() > 0 ==> loaded(stored(prev, state)) == Some(state),
        state.len() == 0 ==> loaded(stored(prev, state)) is None,
{
}

/// Storing twice leaves only the second buffer: the first is released, not
/// kept beside it.
pub proof fn lemma_store_twice(prev: Option<Seq<u8>>, first: Seq<u8>, second: Seq<u8>)
    ensures
        stored(stored(prev, first), second) == Some(second),
        stored(stored(prev, first), second) == stored(prev, second),
{
}

/// An empty slot, as on a fresh process, loads as nothing.
pub proof fn lemma_fresh_load()
    ensures
        loaded(None) is None,
{
}

} // verus!
