use vstd::prelude::*;

verus! {

/// One frame of a multipart message: a byte payload and the flag saying
/// whether further frames of the same multipart follow it.
#[derive(Clone, Debug, PartialEq, Eq)]
pub struct Frame {
    pub data: Vec<u8>,
    pub more: bool,
}

impl Frame {
    pub open spec fn view(&self) -> (Seq<u8>, bool) {
        (self.data@, self.more)
    }
}

/// An ordered sequence of frame payloads forming one application message.
/// The more-flag of each frame follows from its position: every frame but
/// the last one carries it.
#[derive(Clone, Debug)]
pub struct Multipart {
    pub frames: Vec<Vec<u8>>,
}

/// The payloads of a sequence of frames.
pub open spec fn payloads(v: Seq<Vec<u8>>) -> Seq<Seq<u8>> {
    v.map_values(|f: Vec<u8>| f@)
}

/// The more-flag that frame `i` of an `n`-frame multipart carries.
pub open spec fn more_at(i: int, n: int) -> bool {
    i + 1 < n
}

/// The frames a multipart puts on the wire: each payload with its more-flag.
pub open spec fn wire(m: Seq<Seq<u8>>) -> Seq<(Seq<u8>, bool)> {
    Seq::new(m.len(), |i: int| (m[i], more_at(i, m.len() as int)))
}

/// The frames of a sequence of multiparts, one multipart after another.
pub open spec fn wire_all(ms: Seq<Seq<Seq<u8>>>) -> Seq<(Seq<u8>, bool)>
    decreases ms.len(),
{
    if ms.len() == 0 {
        Seq::empty()
    } else {
        wire(ms[0]) + wire_all(ms.drop_first())
    }
}

/// The multiparts a reader assembles from a run of frames, given the frames
/// `partial` it already holds of the next one: a frame without the
/// more-flag closes the multipart; frames left open at the end are not
/// yielded.
pub open spec fn assemble(partial: Seq<Seq<u8>>, frames: Seq<(Seq<u8>, bool)>) -> Seq<Seq<Seq<u8>>>
    decreases frames.len(),
{
    if frames.len() == 0 {
        Seq::empty()
    } else if frames[0].1 {
        assemble(partial.push(frames[0].0), frames.drop_first())
    } else {
        seq![partial.push(frames[0].0)] + assemble(Seq::empty(), frames.drop_first())
    }
}

/// The views of a sequence of multiparts.
pub open spec fn views(ms: Seq<Multipart>) -> Seq<Seq<Seq<u8>>> {
    ms.map_values(|m: Multipart| m@)
}

/// Sending the head frame of a multipart leaves the wire frames of the rest.
pub proof fn lemma_wire_head(m: Seq<Seq<u8>>)
    requires
        m.len() > 0,
    ensures
        wire(m) == seq![(m[0], m.len() > 1)] + wire(m.drop_first()),
        wire(m)[0] == (m[0], m.len() > 1),
{
    assert(wire(m) =~= seq![(m[0], m.len() > 1)] + wire(m.drop_first()));
}

/// Appending a multipart appends its wire frames.
pub proof fn lemma_wire_all_push(ms: Seq<Seq<Seq<u8>>>, m: Seq<Seq<u8>>)
    ensures
        wire_all(ms.push(m)) == wire_all(ms) + wire(m),
    decreases ms.len(),
{
    if ms.len() == 0 {
        assert(ms.push(m).drop_first() =~= Seq::<Seq<Seq<u8>>>::empty());
        assert(ms.push(m)[0] == m);
        assert(wire_all(ms.push(m).drop_first()) =~= Seq::<(Seq<u8>, bool)>::empty());
        assert(wire_all(ms.push(m)) =~= wire_all(ms) + wire(m));
    } else {
        assert(ms.push(m).drop_first() =~= ms.drop_first().push(m));
        lemma_wire_all_push(ms.drop_first(), m);
        assert(ms.push(m)[0] == ms[0]);
        assert(wire_all(ms.push(m)) == wire(ms[0]) + wire_all(ms.drop_first().push(m)));
        assert(wire_all(ms.push(m)) =~= wire_all(ms) + wire(m));
    }
}

impl Multipart {
    pub open spec fn view(&self) -> Seq<Seq<u8>> {
        payloads(self.frames@)
    }

    /// An empty multipart.
    pub fn new() -> (r: Multipart)
        ensures
            r@ == Seq::<Seq<u8>>::empty(),
    {
        Multipart { frames: Vec::new() }
    }

    /// A multipart made of the given payloads, in order.
    pub fn from_frames(frames: Vec<Vec<u8>>) -> (r: Multipart)
        ensures
            r@ == payloads(frames@),
    {
        Multipart { frames }
    }

    pub fn len(&self) -> (r: usize)
        ensures
            r == self@.len(),
    {
        self.frames.len()
    }

    pub fn is_empty(&self) -> (r: bool)
        ensures
            r == (self@.len() == 0),
    {
        self.frames.len() == 0
    }

    /// Appends a payload as the new last frame.
    pub fn push_back(&mut self, data: Vec<u8>)
        ensures
            final(self)@ == old(self)@.push(data@),
    {
        self.frames.push(data);
        assert(self@ =~= old(self)@.push(data@));
    }

    /// The more-flag of every frame, in order.
    pub fn more_flags(&self) -> (r: Vec<bool>)
        ensures
            r@.len() == self@.len(),
            forall|i: int| 0 <= i < r@.len() ==> r@[i] == more_at(i, self@.len() as int),
    {
        let n = self.frames.len();
        let mut r: Vec<bool> = Vec::new();
        let mut i: usize = 0;
        while i < n
            invariant
                n == self@.len(),
                i <= n,
                r@.len() == i,
                forall|j: int| 0 <= j < i ==> r@[j] == more_at(j, n as int),
            decreases n - i,
        {
            r.push(i + 1 < n);
            i = i + 1;
        }
        r
    }
}

} // verus!
