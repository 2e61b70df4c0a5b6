use vstd::prelude::*;

verus! {

/// An ordered scene of primitives, owned exclusively by the list.
///
/// The order is the order of insertion; a hit test walks it front to back.
pub struct HittableList<T> {
    objects: Vec<T>,
}

impl<T> View for HittableList<T> {
    type V = Seq<T>;

    closed spec fn view(&self) -> Seq<T> {
        self.objects@
    }
}

impl<T> HittableList<T> {
    /// An empty scene.
    pub fn new() -> (r: Self)
        ensures
            r@ == Seq::<T>::empty(),
    {
        HittableList { objects: Vec::new() }
    }

    /// Puts `obj` at the end of the scene.
    pub fn add(&mut self, obj: T)
        ensures
            final(self)@ == old(self)@.push(obj),
    {
        self.objects.push(obj);
    }

    /// Removes every primitive.
    pub fn clear(&mut self)
        ensures
            final(self)@ == Seq::<T>::empty(),
    {
        self.objects.clear();
    }

    /// The number of primitives.
    pub fn len(&self) -> (r: usize)
        ensures
            r == self@.len(),
    {
        self.objects.len()
    }

    /// The primitive at position `i`.
    pub fn get(&self, i: usize) -> (r: &T)
        requires
            i < self@.len(),
        ensures
            *r == self@[i as int],
    {
        &self.objects[i]
    }
}

/// The position of the last `true` in `hits`, if any.
pub open spec fn last_hit(hits: Seq<bool>) -> Option<int>
    decreases hits.len(),
{
    if hits.len() == 0 {
        None
    } else if hits.last() {
        Some(hits.len() - 1)
    } else {
        last_hit(hits.drop_last())
    }
}

/// The results of the hit tests of a scan over a scene whose object `i`
/// first meets the ray, past the interval's lower end, at parameter
/// `first[i]` (`None`: never). Each object is tested against the open
/// window from that lower end to `bound`, and a hit narrows `bound` to its
/// own parameter, so that later objects can only win by being closer.
pub open spec fn narrowed_hits(first: Seq<Option<int>>, bound: int) -> Seq<bool>
    decreases first.len(),
{
    if first.len() == 0 {
        seq![]
    } else {
        let hit = first[0] is Some && first[0]->0 < bound;
        let next = if hit {
            first[0]->0
        } else {
            bound
        };
        seq![hit] + narrowed_hits(first.drop_first(), next)
    }
}

/// Keeps track of which object of a scan holds the nearest hit so far.
///
/// Each object is to be tested against the window narrowed to the nearest
/// hit found before it; the result of each test is recorded in scene
/// order. The object that hit last is then the nearest one.
pub struct ClosestHit {
    best: Option<usize>,
    tested: usize,
    hits: Ghost<Seq<bool>>,
}

impl View for ClosestHit {
    type V = Seq<bool>;

    /// The hit-test results recorded so far, in scene order.
    closed spec fn view(&self) -> Seq<bool> {
        self.hits@
    }
}

/// `o` as an optional integer.
pub open spec fn as_int(o: Option<usize>) -> Option<int> {
    match o {
        Some(i) => Some(i as int),
        None => None,
    }
}

impl ClosestHit {
    /// The scan's bookkeeping agrees with the results recorded.
    pub closed spec fn wf(&self) -> bool {
        &&& self.tested == self.hits@.len()
        &&& as_int(self.best) == last_hit(self.hits@)
    }

    /// A scan that has tested nothing yet.
    pub fn new() -> (r: Self)
        ensures
            r.wf(),
            r@ == Seq::<bool>::empty(),
    {
        ClosestHit { best: None, tested: 0, hits: Ghost(Seq::empty()) }
    }

    /// Records whether the next object of the scene reported a hit.
    pub fn record(&mut self, hit: bool)
        requires
            old(self).wf(),
            old(self)@.len() < usize::MAX,
        ensures
            final(self).wf(),
            final(self)@ == old(self)@.push(hit),
    {
        let ghost before = self.hits@;
        if hit {
            self.best = Some(self.tested);
        }
        self.tested = self.tested + 1;
        self.hits = Ghost(self.hits@.push(hit));
        assert(self.hits@.drop_last() =~= before);
    }

    /// The position of the object that holds the nearest hit, if any object
    /// was hit.
    pub fn best(&self) -> (r: Option<usize>)
        requires
            self.wf(),
        ensures
            as_int(r) == last_hit(self@),
    {
        self.best
    }
}

/// `last_hit` on a sequence with one more result in front.
proof fn lemma_last_hit_prepend(h: bool, rest: Seq<bool>)
    ensures
        last_hit(seq![h] + rest) == match last_hit(rest) {
            Some(k) => Some(k + 1),
            None => if h {
                Some(0int)
            } else {
                None
            },
        },
    decreases rest.len(),
{
    let s = seq![h] + rest;
    if rest.len() == 0 {
        assert(s.last() == h);
        assert(s.drop_last() =~= Seq::<bool>::empty());
        assert(last_hit(s.drop_last()) is None);
    } else {
        assert(s.last() == rest.last());
        assert(s.drop_last() =~= seq![h] + rest.drop_last());
        lemma_last_hit_prepend(h, rest.drop_last());
    }
}

/// The scan finds the nearest hit: the object it reports meets the ray
/// inside the window and no later than any other object, and strictly
/// earlier than every object before it (ties go to the first inserted).
/// When it reports none, no object meets the ray inside the window.
pub proof fn lemma_nearest_hit_wins(first: Seq<Option<int>>, bound: int)
    ensures
        narrowed_hits(first, bound).len() == first.len(),
        last_hit(narrowed_hits(first, bound)) matches Some(k) ==> {
            &&& 0 <= k < first.len()
            &&& first[k] is Some
            &&& first[k]->0 < bound
            &&& forall|i: int|
                0 <= i < first.len() && first[i] is Some ==> first[k]->0 <= first[i]->0
            &&& forall|i: int| 0 <= i < k && first[i] is Some ==> first[k]->0 < first[i]->0
        },
        last_hit(narrowed_hits(first, bound)) is None ==> forall|i: int|
            0 <= i < first.len() && first[i] is Some ==> first[i]->0 >= bound,
    decreases first.len(),
{
    if first.len() > 0 {
        let hit = first[0] is Some && first[0]->0 < bound;
        let next = if hit {
            first[0]->0
        } else {
            bound
        };
        let rest = first.drop_first();
        lemma_nearest_hit_wins(rest, next);
        lemma_last_hit_prepend(hit, narrowed_hits(rest, next));
        assert forall|i: int| 1 <= i < first.len() implies first[i] == rest[i - 1] by {}
    }
}

} // verus!
