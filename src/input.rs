use vstd::prelude::*;

verus! {

/// One item of an input frame: the index of a buffered key event or of a
/// buffered motion event.
#[derive(PartialEq, Eq, Structural, Clone, Copy, Debug)]
pub enum FrameEvent {
    Key(usize),
    Motion(usize),
}

/// The order in which a frame's events are handed out: every key event in
/// buffer order, then every motion event in buffer order.
pub open spec fn frame_order(keys: nat, motions: nat) -> Seq<FrameEvent> {
    Seq::new(keys, |i: int| FrameEvent::Key(i as usize)) + Seq::new(
        motions,
        |j: int| FrameEvent::Motion(j as usize),
    )
}

/// A cursor over the events buffered for one input frame.  Each event is
/// handed out once, as an index that the caller copies the record from; the
/// frame is released by dropping the buffer it walks, however far the walk
/// went.
pub struct InputFrame {
    key_count: usize,
    motion_count: usize,
    key_pos: usize,
    motion_pos: usize,
}

impl InputFrame {
    /// Number of key events in the frame.
    pub closed spec fn keys(&self) -> nat {
        self.key_count as nat
    }

    /// Number of motion events in the frame.
    pub closed spec fn motions(&self) -> nat {
        self.motion_count as nat
    }

    /// Number of events handed out so far.
    pub closed spec fn emitted(&self) -> nat {
        (self.key_pos + self.motion_pos) as nat
    }

    /// The cursor's positions are consistent: keys come before motions.
    pub closed spec fn wf(&self) -> bool {
        &&& self.key_pos <= self.key_count
        &&& self.motion_pos <= self.motion_count
        &&& self.motion_pos > 0 ==> self.key_pos == self.key_count
    }

    /// A cursor at the start of a frame with the given event counts.
    pub fn new(key_count: usize, motion_count: usize) -> (r: InputFrame)
        ensures
            r.wf(),
            r.keys() == key_count,
            r.motions() == motion_count,
            r.emitted() == 0,
    {
        InputFrame { key_count, motion_count, key_pos: 0, motion_pos: 0 }
    }

    /// The next event of the frame in `frame_order`, or `None` once all of
    /// them were handed out.
    pub fn next_event(&mut self) -> (r: Option<FrameEvent>)
        requires
            old(self).wf(),
        ensures
            final(self).wf(),
            final(self).keys() == old(self).keys(),
            final(self).motions() == old(self).motions(),
            old(self).emitted() < old(self).keys() + old(self).motions() ==> {
                &&& r == Some(frame_order(old(self).keys(), old(self).motions())[old(self).emitted() as int])
                &&& final(self).emitted() == old(self).emitted() + 1
            },
            old(self).emitted() == old(self).keys() + old(self).motions() ==> {
                &&& r is None
                &&& final(self).emitted() == old(self).emitted()
            },
            old(self).emitted() <= old(self).keys() + old(self).motions(),
    {
        let ghost order = frame_order(self.keys(), self.motions());
        if self.key_pos < self.key_count {
            let i = self.key_pos;
            self.key_pos = self.key_pos + 1;
            proof {
                assert(order[i as int] == FrameEvent::Key(i));
            }
            Some(FrameEvent::Key(i))
        } else if self.motion_pos < self.motion_count {
            let j = self.motion_pos;
            self.motion_pos = self.motion_pos + 1;
            proof {
                assert(order[(self.key_count + j) as int] == FrameEvent::Motion(j));
            }
            Some(FrameEvent::Motion(j))
        } else {
            None
        }
    }
}

/// A frame hands out each key event once, all before any motion event, and
/// then each motion event once: with three key events and none of motion,
/// exactly three items, all of them key events.
pub proof fn lemma_frame_order(keys: nat, motions: nat)
    ensures
        frame_order(keys, motions).len() == keys + motions,
        forall|i: int|
            0 <= i < keys + motions ==> (frame_order(keys, motions)[i] is Key <==> i < keys),
        forall|i: int| 0 <= i < keys ==> frame_order(keys, motions)[i] == FrameEvent::Key(i as usize),
        forall|i: int|
            keys <= i < keys + motions ==> frame_order(keys, motions)[i] == FrameEvent::Motion(
                (i - keys) as usize,
            ),
{
    let s = frame_order(keys, motions);
    assert forall|i: int| 0 <= i < keys + motions implies (s[i] is Key <==> i < keys) by {
        if i >= keys {
            assert(s[i] == FrameEvent::Motion((i - keys) as usize));
        }
    }
}

} // verus!
