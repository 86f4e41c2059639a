//! The dynamic value: a closed tagged union over the shapes a value may
//! take when crossing the host boundary, with an explicit ownership mode
//! per instance and an identity for the backing storage, so that release
//! of owned storage can be tracked exactly.

use vstd::prelude::*;

verus! {

/// Whether an instance is responsible for releasing its backing storage
/// (`Owned`) or is a transient view of storage owned elsewhere
/// (`Borrowed`). Releasing a borrowed view is a no-op.
#[derive(Clone, Copy, PartialEq, Eq, Structural, Debug)]
pub enum Ownership {
    Owned,
    Borrowed,
}

/// The closed set of shapes a dynamic value can take. Containers hold
/// further `Object`s, never native composites, so traversal is uniform.
#[derive(Debug)]
pub enum ObjectKind {
    Nil,
    Boolean(bool),
    Integer(i64),
    /// Double-precision float, carried as its raw bit pattern.
    Float(u64),
    /// Byte text; not guaranteed to be UTF-8 at construction.
    Text(Vec<u8>),
    /// Ordered sequence of values.
    Sequence(Vec<Object>),
    /// Insertion-ordered mapping; duplicate keys may both be stored and
    /// lookup returns the first match.
    Mapping(Vec<(Object, Object)>),
    /// Opaque reference to a live host-side resource.
    Handle(i64),
}

/// The tag alone of a dynamic value, used in conversion errors to
/// describe what was received.
#[derive(Clone, Copy, PartialEq, Eq, Structural, Debug)]
pub enum ObjectTag {
    Nil,
    Boolean,
    Integer,
    Float,
    Text,
    Sequence,
    Mapping,
    Handle,
}

/// A dynamic value instance: a tagged shape plus the ownership mode of
/// this instance and the identity of its backing storage (`0` for
/// instances whose storage is not tracked individually).
#[derive(Debug)]
pub struct Object {
    pub mode: Ownership,
    pub id: u64,
    pub kind: ObjectKind,
}

impl Object {
    /// The tag of this value's shape.
    pub open spec fn tag(self) -> ObjectTag {
        match self.kind {
            ObjectKind::Nil => ObjectTag::Nil,
            ObjectKind::Boolean(_) => ObjectTag::Boolean,
            ObjectKind::Integer(_) => ObjectTag::Integer,
            ObjectKind::Float(_) => ObjectTag::Float,
            ObjectKind::Text(_) => ObjectTag::Text,
            ObjectKind::Sequence(_) => ObjectTag::Sequence,
            ObjectKind::Mapping(_) => ObjectTag::Mapping,
            ObjectKind::Handle(_) => ObjectTag::Handle,
        }
    }

    /// Computes the tag of this value's shape.
    pub fn tag_of(&self) -> (t: ObjectTag)
        ensures
            t == self.tag(),
    {
        match &self.kind {
            ObjectKind::Nil => ObjectTag::Nil,
            ObjectKind::Boolean(_) => ObjectTag::Boolean,
            ObjectKind::Integer(_) => ObjectTag::Integer,
            ObjectKind::Float(_) => ObjectTag::Float,
            ObjectKind::Text(_) => ObjectTag::Text,
            ObjectKind::Sequence(_) => ObjectTag::Sequence,
            ObjectKind::Mapping(_) => ObjectTag::Mapping,
            ObjectKind::Handle(_) => ObjectTag::Handle,
        }
    }

    /// An owned nil value.
    pub fn nil() -> (r: Object)
        ensures
            r == (Object { mode: Ownership::Owned, id: 0, kind: ObjectKind::Nil }),
    {
        Object { mode: Ownership::Owned, id: 0, kind: ObjectKind::Nil }
    }

    /// An owned boolean value.
    pub fn boolean(b: bool) -> (r: Object)
        ensures
            r == (Object { mode: Ownership::Owned, id: 0, kind: ObjectKind::Boolean(b) }),
    {
        Object { mode: Ownership::Owned, id: 0, kind: ObjectKind::Boolean(b) }
    }

    /// An owned integer value.
    pub fn integer(n: i64) -> (r: Object)
        ensures
            r == (Object { mode: Ownership::Owned, id: 0, kind: ObjectKind::Integer(n) }),
    {
        Object { mode: Ownership::Owned, id: 0, kind: ObjectKind::Integer(n) }
    }

    /// An owned double-precision float value, given as its bit pattern.
    pub fn float_bits(bits: u64) -> (r: Object)
        ensures
            r == (Object { mode: Ownership::Owned, id: 0, kind: ObjectKind::Float(bits) }),
    {
        Object { mode: Ownership::Owned, id: 0, kind: ObjectKind::Float(bits) }
    }

    /// An owned text value over the given bytes.
    pub fn text(bytes: Vec<u8>) -> (r: Object)
        ensures
            r.mode is Owned,
            r.id == 0,
            r.kind == ObjectKind::Text(bytes),
    {
        Object { mode: Ownership::Owned, id: 0, kind: ObjectKind::Text(bytes) }
    }

    /// An owned handle to a host-side resource.
    pub fn handle(h: i64) -> (r: Object)
        ensures
            r == (Object { mode: Ownership::Owned, id: 0, kind: ObjectKind::Handle(h) }),
    {
        Object { mode: Ownership::Owned, id: 0, kind: ObjectKind::Handle(h) }
    }

    /// An owned sequence over the given children, in order.
    pub fn sequence(children: Vec<Object>) -> (r: Object)
        ensures
            r.mode is Owned,
            r.id == 0,
            r.kind == ObjectKind::Sequence(children),
    {
        Object { mode: Ownership::Owned, id: 0, kind: ObjectKind::Sequence(children) }
    }

    /// An owned mapping over the given pairs; insertion order is kept
    /// exactly, and duplicate keys are stored as given.
    pub fn mapping(pairs: Vec<(Object, Object)>) -> (r: Object)
        ensures
            r.mode is Owned,
            r.id == 0,
            r.kind == ObjectKind::Mapping(pairs),
    {
        Object { mode: Ownership::Owned, id: 0, kind: ObjectKind::Mapping(pairs) }
    }

    /// The same value, with its backing storage given the identity `id`
    /// so that releases of it can be counted.
    pub fn with_id(self, id: u64) -> (r: Object)
        ensures
            r.mode == self.mode,
            r.id == id,
            r.kind == self.kind,
    {
        Object { mode: self.mode, id, kind: self.kind }
    }

    /// Turns this instance into a borrowed, non-owning view of the same
    /// value. In the running system a view is a second, transient
    /// accessor of storage owned elsewhere; in this model it is the same
    /// value with its ownership mode cleared, so releasing it is a no-op.
    pub fn into_borrowed(self) -> (r: Object)
        ensures
            r.mode is Borrowed,
            r.id == self.id,
            r.kind == self.kind,
    {
        Object { mode: Ownership::Borrowed, id: self.id, kind: self.kind }
    }
}

impl Object {
    /// Structural equality of the values two instances hold, ignoring
    /// ownership mode and storage identity: the equality mapping lookup
    /// uses.
    pub open spec fn same_value(self, other: Object) -> bool
        decreases self,
    {
        match self.kind {
            ObjectKind::Nil => other.kind is Nil,
            ObjectKind::Boolean(a) => other.kind == ObjectKind::Boolean(a),
            ObjectKind::Integer(a) => other.kind == ObjectKind::Integer(a),
            ObjectKind::Float(a) => other.kind == ObjectKind::Float(a),
            ObjectKind::Handle(a) => other.kind == ObjectKind::Handle(a),
            ObjectKind::Text(a) => other.kind matches ObjectKind::Text(b) && a@ == b@,
            ObjectKind::Sequence(a) => other.kind matches ObjectKind::Sequence(b) && a@.len()
                == b@.len() && (forall|i: int|
                0 <= i < a@.len() ==> (#[trigger] a@[i]).same_value(b@[i])),
            ObjectKind::Mapping(a) => other.kind matches ObjectKind::Mapping(b) && a@.len()
                == b@.len() && (forall|i: int|
                0 <= i < a@.len() ==> (#[trigger] a@[i]).0.same_value(b@[i].0)
                    && a@[i].1.same_value(b@[i].1)),
        }
    }
}

/// Compares two byte vectors for equality.
fn bytes_eq(a: &Vec<u8>, b: &Vec<u8>) -> (r: bool)
    ensures
        r == (a@ == b@),
{
    if a.len() != b.len() {
        return false;
    }
    let mut i: usize = 0;
    while i < a.len()
        invariant
            a@.len() == b@.len(),
            i <= a.len(),
            forall|j: int| 0 <= j < i ==> a@[j] == b@[j],
        decreases a.len() - i,
    {
        if a[i] != b[i] {
            return false;
        }
        i += 1;
    }
    proof {
        assert(a@ =~= b@);
    }
    true
}

/// The identities logged, in order, when `o` is released: nothing for a
/// borrowed view; for an owned instance, each child's log in order, then
/// the instance's own identity.
pub open spec fn released(o: Object) -> Seq<u64>
    decreases o,
{
    if o.mode is Borrowed {
        Seq::empty()
    } else {
        match o.kind {
            ObjectKind::Sequence(cs) => released_children(cs@).push(o.id),
            ObjectKind::Mapping(ps) => released_pairs(ps@).push(o.id),
            _ => seq![o.id],
        }
    }
}

/// The concatenated release logs of a sequence's children, in order.
pub open spec fn released_children(cs: Seq<Object>) -> Seq<u64>
    decreases cs,
{
    if cs.len() == 0 {
        Seq::empty()
    } else {
        released_children(cs.drop_last()) + released(cs.last())
    }
}

/// The concatenated release logs of a mapping's pairs, in order, the key
/// released before its value.
pub open spec fn released_pairs(ps: Seq<(Object, Object)>) -> Seq<u64>
    decreases ps,
{
    if ps.len() == 0 {
        Seq::empty()
    } else {
        released_pairs(ps.drop_last()) + released(ps.last().0) + released(ps.last().1)
    }
}

/// How many owned instances with identity `x` the tree rooted at `o`
/// holds, children of a borrowed root included not at all, since
/// releasing a borrowed view touches nothing.
pub open spec fn owned_count(o: Object, x: u64) -> nat
    decreases o,
{
    if o.mode is Borrowed {
        0
    } else {
        (match o.kind {
            ObjectKind::Sequence(cs) => owned_count_children(cs@, x),
            ObjectKind::Mapping(ps) => owned_count_pairs(ps@, x),
            _ => 0,
        }) + if o.id == x {
            1nat
        } else {
            0nat
        }
    }
}

/// The owned-instance count of `x` over a sequence's children.
pub open spec fn owned_count_children(cs: Seq<Object>, x: u64) -> nat
    decreases cs,
{
    if cs.len() == 0 {
        0
    } else {
        owned_count_children(cs.drop_last(), x) + owned_count(cs.last(), x)
    }
}

/// The owned-instance count of `x` over a mapping's pairs.
pub open spec fn owned_count_pairs(ps: Seq<(Object, Object)>, x: u64) -> nat
    decreases ps,
{
    if ps.len() == 0 {
        0
    } else {
        owned_count_pairs(ps.drop_last(), x) + owned_count(ps.last().0, x) + owned_count(
            ps.last().1,
            x,
        )
    }
}

/// How often `x` occurs in a release log.
pub open spec fn count_of(s: Seq<u64>, x: u64) -> nat
    decreases s,
{
    if s.len() == 0 {
        0
    } else {
        count_of(s.drop_last(), x) + if s.last() == x {
            1nat
        } else {
            0nat
        }
    }
}

proof fn lemma_count_of_single(y: u64, x: u64)
    ensures
        count_of(seq![y], x) == if y == x {
            1nat
        } else {
            0nat
        },
{
    assert(seq![y].len() == 1);
    assert(seq![y].last() == y);
    assert(seq![y].drop_last() =~= Seq::<u64>::empty());
    assert(count_of(Seq::<u64>::empty(), x) == 0);
}

proof fn lemma_count_of_concat(a: Seq<u64>, b: Seq<u64>, x: u64)
    ensures
        count_of(a + b, x) == count_of(a, x) + count_of(b, x),
    decreases b,
{
    if b.len() == 0 {
        assert(a + b =~= a);
    } else {
        lemma_count_of_concat(a, b.drop_last(), x);
        assert((a + b).drop_last() =~= a + b.drop_last());
        assert((a + b).last() == b.last());
    }
}

/// Releasing releases each owned instance exactly once: for every
/// identity, the release log of `o` holds it exactly as often as the
/// tree rooted at `o` holds an owned instance carrying it. With distinct
/// identities per child, each owned child is thus released exactly once,
/// and a borrowed view contributes nothing.
pub proof fn lemma_release_once(o: Object, x: u64)
    ensures
        count_of(released(o), x) == owned_count(o, x),
    decreases o,
{
    if o.mode is Borrowed {
    } else {
        match o.kind {
            ObjectKind::Sequence(cs) => {
                lemma_release_once_children(cs@, x);
                assert(released_children(cs@).push(o.id) =~= released_children(cs@) + seq![o.id]);
                lemma_count_of_concat(released_children(cs@), seq![o.id], x);
                lemma_count_of_single(o.id, x);
            },
            ObjectKind::Mapping(ps) => {
                lemma_release_once_pairs(ps@, x);
                assert(released_pairs(ps@).push(o.id) =~= released_pairs(ps@) + seq![o.id]);
                lemma_count_of_concat(released_pairs(ps@), seq![o.id], x);
                lemma_count_of_single(o.id, x);
            },
            _ => {
                lemma_count_of_single(o.id, x);
            },
        }
    }
}

proof fn lemma_release_once_children(cs: Seq<Object>, x: u64)
    ensures
        count_of(released_children(cs), x) == owned_count_children(cs, x),
    decreases cs,
{
    if cs.len() > 0 {
        lemma_release_once_children(cs.drop_last(), x);
        lemma_release_once(cs.last(), x);
        lemma_count_of_concat(released_children(cs.drop_last()), released(cs.last()), x);
    }
}

proof fn lemma_release_once_pairs(ps: Seq<(Object, Object)>, x: u64)
    ensures
        count_of(released_pairs(ps), x) == owned_count_pairs(ps, x),
    decreases ps,
{
    if ps.len() > 0 {
        lemma_release_once_pairs(ps.drop_last(), x);
        lemma_release_once(ps.last().0, x);
        lemma_release_once(ps.last().1, x);
        lemma_count_of_concat(released_pairs(ps.drop_last()), released(ps.last().0), x);
        lemma_count_of_concat(
            released_pairs(ps.drop_last()) + released(ps.last().0),
            released(ps.last().1),
            x,
        );
    }
}

/// Releasing a borrowed view is a no-op: its log is empty.
pub proof fn lemma_release_borrowed_noop(o: Object)
    requires
        o.mode is Borrowed,
    ensures
        released(o) == Seq::<u64>::empty(),
{
}

impl Object {
    /// Releases this instance: a no-op for a borrowed view; for an owned
    /// instance, releases each child per its own mode, then the backing
    /// storage of this instance. Returns the identities released, in
    /// order, exactly as `released` states.
    pub fn release(&self) -> (log: Vec<u64>)
        ensures
            log@ == released(*self),
        decreases *self,
    {
        let mut log: Vec<u64> = Vec::new();
        match &self.mode {
            Ownership::Borrowed => log,
            Ownership::Owned => {
                match &self.kind {
                    ObjectKind::Sequence(cs) => {
                        let mut i: usize = 0;
                        while i < cs.len()
                            invariant
                                self.mode is Owned,
                                self.kind == ObjectKind::Sequence(*cs),
                                i <= cs.len(),
                                log@ == released_children(cs@.subrange(0, i as int)),
                            decreases cs.len() - i,
                        {
                            proof {
                                assert(decreases_to!(*self => self.kind));
                                assert(decreases_to!(self.kind => self.kind->Sequence_0));
                                assert(self.kind->Sequence_0 == *cs);
                                assert(decreases_to!(*cs => cs@[i as int]));
                            }
                            let mut sub = cs[i].release();
                            log.append(&mut sub);
                            proof {
                                assert(cs@.subrange(0, i + 1 as int).drop_last() =~= cs@.subrange(
                                    0,
                                    i as int,
                                ));
                                assert(cs@.subrange(0, i + 1 as int).last() == cs@[i as int]);
                            }
                            i += 1;
                        }
                        proof {
                            assert(cs@.subrange(0, cs@.len() as int) =~= cs@);
                        }
                        log.push(self.id);
                        log
                    },
                    ObjectKind::Mapping(ps) => {
                        let mut i: usize = 0;
                        while i < ps.len()
                            invariant
                                self.mode is Owned,
                                self.kind == ObjectKind::Mapping(*ps),
                                i <= ps.len(),
                                log@ == released_pairs(ps@.subrange(0, i as int)),
                            decreases ps.len() - i,
                        {
                            proof {
                                assert(decreases_to!(*self => self.kind));
                                assert(decreases_to!(self.kind => self.kind->Mapping_0));
                                assert(self.kind->Mapping_0 == *ps);
                                assert(decreases_to!(*ps => ps@[i as int]));
                            }
                            let mut subk = ps[i].0.release();
                            log.append(&mut subk);
                            let mut subv = ps[i].1.release();
                            log.append(&mut subv);
                            proof {
                                assert(ps@.subrange(0, i + 1 as int).drop_last() =~= ps@.subrange(
                                    0,
                                    i as int,
                                ));
                                assert(ps@.subrange(0, i + 1 as int).last() == ps@[i as int]);
                            }
                            i += 1;
                        }
                        proof {
                            assert(ps@.subrange(0, ps@.len() as int) =~= ps@);
                        }
                        log.push(self.id);
                        log
                    },
                    _ => {
                        log.push(self.id);
                        proof {
                            assert(log@ =~= seq![self.id]);
                        }
                        log
                    },
                }
            },
        }
    }

    /// Compares the values two instances hold, by structure, ignoring
    /// ownership mode and storage identity.
    pub fn value_eq(&self, other: &Object) -> (r: bool)
        ensures
            r == self.same_value(*other),
        decreases *self,
    {
        match (&self.kind, &other.kind) {
            (ObjectKind::Nil, ObjectKind::Nil) => true,
            (ObjectKind::Boolean(a), ObjectKind::Boolean(b)) => *a == *b,
            (ObjectKind::Integer(a), ObjectKind::Integer(b)) => *a == *b,
            (ObjectKind::Float(a), ObjectKind::Float(b)) => *a == *b,
            (ObjectKind::Handle(a), ObjectKind::Handle(b)) => *a == *b,
            (ObjectKind::Text(a), ObjectKind::Text(b)) => bytes_eq(a, b),
            (ObjectKind::Sequence(a), ObjectKind::Sequence(b)) => {
                if a.len() != b.len() {
                    return false;
                }
                let mut i: usize = 0;
                while i < a.len()
                    invariant
                        self.kind == ObjectKind::Sequence(*a),
                        other.kind == ObjectKind::Sequence(*b),
                        a@.len() == b@.len(),
                        i <= a.len(),
                        forall|j: int| 0 <= j < i ==> (#[trigger] a@[j]).same_value(b@[j]),
                    decreases a.len() - i,
                {
                    proof {
                        assert(decreases_to!(*self => self.kind));
                        assert(decreases_to!(self.kind => self.kind->Sequence_0));
                        assert(self.kind->Sequence_0 == *a);
                        assert(decreases_to!(*a => a@[i as int]));
                    }
                    if !a[i].value_eq(&b[i]) {
                        proof {
                            assert(!(a@[i as int]).same_value(b@[i as int]));
                        }
                        return false;
                    }
                    i += 1;
                }
                true
            },
            (ObjectKind::Mapping(a), ObjectKind::Mapping(b)) => {
                if a.len() != b.len() {
                    return false;
                }
                let mut i: usize = 0;
                while i < a.len()
                    invariant
                        self.kind == ObjectKind::Mapping(*a),
                        other.kind == ObjectKind::Mapping(*b),
                        a@.len() == b@.len(),
                        i <= a.len(),
                        forall|j: int| 0 <= j < i ==> (#[trigger] a@[j]).0.same_value(b@[j].0)
                            && a@[j].1.same_value(b@[j].1),
                    decreases a.len() - i,
                {
                    proof {
                        assert(decreases_to!(*self => self.kind));
                        assert(decreases_to!(self.kind => self.kind->Mapping_0));
                        assert(self.kind->Mapping_0 == *a);
                        assert(decreases_to!(*a => a@[i as int]));
                        assert(decreases_to!(a@[i as int] => a@[i as int].0));
                        assert(decreases_to!(a@[i as int] => a@[i as int].1));
                    }
                    if !a[i].0.value_eq(&b[i].0) {
                        proof {
                            assert(!(a@[i as int]).0.same_value(b@[i as int].0));
                        }
                        return false;
                    }
                    if !a[i].1.value_eq(&b[i].1) {
                        proof {
                            assert(!(a@[i as int]).1.same_value(b@[i as int].1));
                        }
                        return false;
                    }
                    i += 1;
                }
                true
            },
            _ => false,
        }
    }

    /// Looks `key` up in a mapping by structural value equality. Since
    /// duplicate keys may both be stored, the value of the first
    /// matching pair is returned; any other shape holds nothing.
    pub fn mapping_get(&self, key: &Object) -> (r: Option<&Object>)
        ensures
            r is Some <==> (self.kind matches ObjectKind::Mapping(ps) && exists|i: int|
                0 <= i < ps@.len() && (#[trigger] ps@[i]).0.same_value(*key)),
            r matches Some(v) ==> (self.kind matches ObjectKind::Mapping(ps) ==> exists|i: int|
                0 <= i < ps@.len() && (#[trigger] ps@[i]).0.same_value(*key) && (forall|j: int|
                    0 <= j < i ==> !ps@[j].0.same_value(*key)) && *v == ps@[i].1),
    {
        match &self.kind {
            ObjectKind::Mapping(ps) => {
                let n = ps.len();
                let mut i: usize = 0;
                let mut hit: usize = n;
                while i < n
                    invariant
                        self.kind == ObjectKind::Mapping(*ps),
                        n == ps.len(),
                        i <= n,
                        hit <= n,
                        hit == n ==> forall|j: int|
                            0 <= j < i ==> !(#[trigger] ps@[j]).0.same_value(*key),
                        hit < n ==> (ps@[hit as int]).0.same_value(*key) && (forall|j: int|
                            0 <= j < hit ==> !(#[trigger] ps@[j]).0.same_value(*key)),
                    decreases n - i,
                {
                    if hit == n && ps[i].0.value_eq(key) {
                        hit = i;
                    }
                    i += 1;
                }
                if hit < n {
                    Some(&ps[hit].1)
                } else {
                    None
                }
            },
            _ => None,
        }
    }

    /// The pairs of a mapping, in insertion order; `None` for any other
    /// shape.
    pub fn mapping_pairs(&self) -> (r: Option<&Vec<(Object, Object)>>)
        ensures
            r is Some <==> self.kind is Mapping,
            r matches Some(ps) ==> self.kind == ObjectKind::Mapping(*ps),
    {
        match &self.kind {
            ObjectKind::Mapping(ps) => Some(ps),
            _ => None,
        }
    }

    /// The children of a sequence, in order; `None` for any other shape.
    pub fn sequence_children(&self) -> (r: Option<&Vec<Object>>)
        ensures
            r is Some <==> self.kind is Sequence,
            r matches Some(cs) ==> self.kind == ObjectKind::Sequence(*cs),
    {
        match &self.kind {
            ObjectKind::Sequence(cs) => Some(cs),
            _ => None,
        }
    }
}

} // verus!
