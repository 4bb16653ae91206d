use vstd::prelude::*;
use crate::capability::{all_zero, CapObject, CapabilityType, ObjView, Phase};
use crate::error::CryptoError;

verus! {

/// An opaque integer naming a capability object within one table.
pub type Handle = u32;

/// Model of the table: slot `h` holds the object that handle `h` names,
/// or `None` once that handle has been closed.
pub type TableView = Seq<Option<ObjView>>;

pub open spec fn slot_view(o: Option<CapObject>) -> Option<ObjView> {
    match o {
        Some(x) => Some(x@),
        None => None,
    }
}

/// Number of live objects in a table model.
pub open spec fn live_count(s: TableView) -> nat
    decreases s.len(),
{
    if s.len() == 0 {
        0
    } else {
        live_count(s.drop_last()) + if s.last() is Some { 1nat } else { 0nat }
    }
}

/// `h` names a live object in `s`.
pub open spec fn is_live(s: TableView, h: int) -> bool {
    0 <= h < s.len() && s[h] is Some
}

/// `h` names a live object of capability type `t` in `s`.
pub open spec fn is_live_as(s: TableView, h: int, t: CapabilityType) -> bool {
    is_live(s, h) && s[h]->Some_0.kind == t
}

/// `h` was issued by the table and has been closed since.
pub open spec fn is_retired(s: TableView, h: int) -> bool {
    0 <= h < s.len() && s[h] is None
}

/// What any table operation may do: issue at most one new handle, and on the
/// handles already issued, never bring a closed one back nor change the
/// capability type of a live one.
pub open spec fn evolves(a: TableView, b: TableView) -> bool {
    &&& a.len() <= b.len() <= a.len() + 1
    &&& forall|j: int|
        0 <= j < a.len() && #[trigger] b[j] is Some ==> a[j] is Some && b[j]->Some_0.kind == a[j]->Some_0.kind
}

/// A run of table models, each reached from the one before by an operation.
pub open spec fn is_trace(tr: Seq<TableView>) -> bool {
    forall|k: int| 0 <= k < tr.len() - 1 ==> evolves(#[trigger] tr[k], tr[k + 1])
}

/// No resurrection: once a handle is closed, it stays closed for every later
/// table of the run, so resolving it fails whatever type is asked for.
pub proof fn lemma_no_resurrection(tr: Seq<TableView>, i: int, j: int, h: int, t: CapabilityType)
    requires
        is_trace(tr),
        0 <= i <= j < tr.len(),
        is_retired(tr[i], h),
    ensures
        is_retired(tr[j], h),
        !is_live_as(tr[j], h, t),
    decreases j - i,
{
    if i < j {
        lemma_no_resurrection(tr, i, j - 1, h, t);
        assert(evolves(tr[j - 1], tr[j]));
    }
}

pub proof fn lemma_trace_len_grows(tr: Seq<TableView>, i: int, j: int)
    requires
        is_trace(tr),
        0 <= i <= j < tr.len(),
    ensures
        tr[i].len() <= tr[j].len(),
    decreases j - i,
{
    if i < j {
        lemma_trace_len_grows(tr, i, j - 1);
        assert(evolves(tr[j - 1], tr[j]));
    }
}

/// Two registrations at different points of a run hand out different handles:
/// a registration's handle is the length of the table before it.
pub proof fn lemma_registrations_distinct(tr: Seq<TableView>, i: int, j: int)
    requires
        is_trace(tr),
        0 <= i < j,
        j + 1 < tr.len(),
        tr[i + 1].len() == tr[i].len() + 1,
        tr[j + 1].len() == tr[j].len() + 1,
    ensures
        tr[i].len() != tr[j].len(),
{
    lemma_trace_len_grows(tr, i + 1, j);
}

/// Capability typing: a handle that resolves at one type fails at every other.
pub proof fn lemma_type_confinement(s: TableView, h: int, t: CapabilityType, u: CapabilityType)
    requires
        is_live_as(s, h, t),
        u != t,
    ensures
        !is_live_as(s, h, u),
{
}

pub proof fn lemma_live_count_push(s: TableView, x: Option<ObjView>)
    ensures
        live_count(s.push(x)) == live_count(s) + if x is Some { 1nat } else { 0nat },
{
    assert(s.push(x).drop_last() =~= s);
}

pub proof fn lemma_live_count_update(s: TableView, i: int, x: Option<ObjView>)
    requires
        0 <= i < s.len(),
    ensures
        live_count(s.update(i, x)) as int == live_count(s) as int
            - (if s[i] is Some { 1int } else { 0int })
            + (if x is Some { 1int } else { 0int }),
    decreases s.len(),
{
    if i == s.len() - 1 {
        assert(s.update(i, x).drop_last() =~= s.drop_last());
    } else {
        assert(s.update(i, x).drop_last() =~= s.drop_last().update(i, x));
        lemma_live_count_update(s.drop_last(), i, x);
    }
}

pub proof fn lemma_live_count_none(s: TableView)
    requires
        forall|h: int| 0 <= h < s.len() ==> #[trigger] s[h] is None,
    ensures
        live_count(s) == 0,
    decreases s.len(),
{
    if s.len() > 0 {
        assert(s.last() is None);
        lemma_live_count_none(s.drop_last());
    }
}

/// Registry from handles to type-tagged capability objects. Handles are
/// issued in increasing order and never reused.
pub struct HandleTable {
    slots: Vec<Option<CapObject>>,
    live: usize,
    max_open: usize,
}

impl View for HandleTable {
    type V = TableView;

    closed spec fn view(&self) -> TableView {
        self.slots@.map_values(|o: Option<CapObject>| slot_view(o))
    }
}

impl HandleTable {
    /// Bound on the number of live objects.
    pub closed spec fn max_open(&self) -> nat {
        self.max_open as nat
    }

    pub closed spec fn wf(&self) -> bool {
        &&& self.live == live_count(self@)
        &&& self.live <= self.max_open
        &&& self.slots@.len() <= u32::MAX
    }

    pub fn new(max_open: usize) -> (r: HandleTable)
        ensures
            r.wf(),
            r@ == Seq::<Option<ObjView>>::empty(),
            r.max_open() == max_open,
    {
        let r = HandleTable { slots: Vec::new(), live: 0, max_open };
        assert(r@ =~= Seq::<Option<ObjView>>::empty());
        r
    }

    pub fn open_count(&self) -> (r: usize)
        requires
            self.wf(),
        ensures
            r == live_count(self@),
    {
        self.live
    }

    pub fn max_open_handles(&self) -> (r: usize)
        ensures
            r == self.max_open(),
    {
        self.max_open
    }

    /// Number of handles issued so far, live or closed.
    pub fn issued(&self) -> (r: usize)
        ensures
            r == self@.len(),
    {
        self.slots.len()
    }

    /// Inserts `obj` under a handle never issued before. Fails with
    /// `ResourceExhausted` when the bound on live objects is reached or the
    /// handle space is spent.
    pub fn register(&mut self, obj: CapObject) -> (r: Result<Handle, CryptoError>)
        requires
            old(self).wf(),
        ensures
            final(self).wf(),
            final(self).max_open() == old(self).max_open(),
            r is Err <==> (live_count(old(self)@) >= old(self).max_open() || old(self)@.len() >= u32::MAX),
            r is Err ==> r == Err::<Handle, CryptoError>(CryptoError::ResourceExhausted) && final(self)@ == old(self)@,
            r is Ok ==> r->Ok_0 == old(self)@.len() && final(self)@ == old(self)@.push(Some(obj@)),
            evolves(old(self)@, final(self)@),
    {
        if self.live >= self.max_open || self.slots.len() >= u32::MAX as usize {
            return Err(CryptoError::ResourceExhausted);
        }
        let h = self.slots.len() as u32;
        proof {
            lemma_live_count_push(self@, Some(obj@));
        }
        self.slots.push(Some(obj));
        self.live = self.live + 1;
        assert(self@ =~= old(self)@.push(Some(obj@)));
        Ok(h)
    }

    /// Looks up `h`, which must name a live object of capability type `expected`.
    pub fn resolve(&self, h: Handle, expected: CapabilityType) -> (r: Result<&CapObject, CryptoError>)
        ensures
            r is Ok <==> is_live_as(self@, h as int, expected),
            r is Ok ==> self@[h as int] == Some(r->Ok_0@),
            r is Err ==> r == Err::<&CapObject, CryptoError>(CryptoError::InvalidHandle),
    {
        let i = h as usize;
        if i >= self.slots.len() {
            return Err(CryptoError::InvalidHandle);
        }
        match &self.slots[i] {
            Some(o) => {
                if o.kind == expected {
                    Ok(o)
                } else {
                    Err(CryptoError::InvalidHandle)
                }
            },
            None => Err(CryptoError::InvalidHandle),
        }
    }

    /// Whether `h` names a live object of any type.
    pub fn resolve_any(&self, h: Handle) -> (r: bool)
        ensures
            r == is_live(self@, h as int),
    {
        let i = h as usize;
        i < self.slots.len() && self.slots[i].is_some()
    }

    /// Moves a live object to `phase` and appends `data` to what it has absorbed.
    pub(crate) fn advance(&mut self, h: Handle, phase: Phase, data: &Vec<u8>)
        requires
            old(self).wf(),
            is_live(old(self)@, h as int),
        ensures
            final(self).wf(),
            final(self).max_open() == old(self).max_open(),
            final(self)@ == old(self)@.update(
                h as int,
                Some(
                    ObjView {
                        phase,
                        absorbed: old(self)@[h as int]->Some_0.absorbed + data@,
                        ..old(self)@[h as int]->Some_0
                    },
                ),
            ),
            evolves(old(self)@, final(self)@),
    {
        let i = h as usize;
        let mut taken: Option<CapObject> = None;
        self.slots.set_and_swap(i, &mut taken);
        assert(taken == old(self).slots@[i as int]);
        match taken {
            Some(mut o) => {
                let ghost before = o@;
                o.phase = phase;
                let mut k: usize = 0;
                while k < data.len()
                    invariant
                        k <= data@.len(),
                        o.absorbed@ == before.absorbed + data@.subrange(0, k as int),
                        o.phase == phase,
                        o.kind == before.kind,
                        o.algorithm == before.algorithm,
                        o.usage == before.usage,
                        o.secret@ == before.secret,
                    decreases data@.len() - k,
                {
                    o.absorbed.push(data[k]);
                    assert(data@.subrange(0, k + 1) =~= data@.subrange(0, k as int).push(data@[k as int]));
                    k = k + 1;
                }
                assert(data@.subrange(0, data@.len() as int) =~= data@);
                let ghost after = o@;
                self.slots.set(i, Some(o));
                proof {
                    lemma_live_count_update(old(self)@, h as int, Some(after));
                }
                assert(self@ =~= old(self)@.update(h as int, Some(after)));
                assert(after =~= ObjView {
                    phase,
                    absorbed: old(self)@[h as int]->Some_0.absorbed + data@,
                    ..old(self)@[h as int]->Some_0
                });
            },
            None => {},
        }
    }

    /// Removes `h`, whatever its type, and hands back the object with its
    /// secret material and absorbed data overwritten by zeros. Closing a
    /// handle that is not live fails with `InvalidHandle`.
    pub fn close(&mut self, h: Handle) -> (r: Result<CapObject, CryptoError>)
        requires
            old(self).wf(),
        ensures
            final(self).wf(),
            final(self).max_open() == old(self).max_open(),
            r is Ok <==> is_live(old(self)@, h as int),
            r is Err ==> r == Err::<CapObject, CryptoError>(CryptoError::InvalidHandle) && final(self)@ == old(self)@,
            r is Ok ==> final(self)@ == old(self)@.update(h as int, None),
            r is Ok ==> wiped_from(r->Ok_0, old(self)@[h as int]->Some_0),
            evolves(old(self)@, final(self)@),
    {
        let i = h as usize;
        if i >= self.slots.len() {
            return Err(CryptoError::InvalidHandle);
        }
        let mut taken: Option<CapObject> = None;
        self.slots.set_and_swap(i, &mut taken);
        match taken {
            Some(mut o) => {
                o.wipe();
                proof {
                    lemma_live_count_update(old(self)@, h as int, None);
                }
                self.live = self.live - 1;
                assert(self@ =~= old(self)@.update(h as int, None));
                Ok(o)
            },
            None => {
                assert(self.slots@ =~= old(self).slots@);
                Err(CryptoError::InvalidHandle)
            },
        }
    }

    /// Closes every live handle in increasing order and returns the wiped objects.
    pub fn close_all(&mut self) -> (r: Vec<CapObject>)
        requires
            old(self).wf(),
        ensures
            final(self).wf(),
            final(self).max_open() == old(self).max_open(),
            final(self)@.len() == old(self)@.len(),
            forall|h: int| 0 <= h < final(self)@.len() ==> #[trigger] final(self)@[h] is None,
            r@.len() == live_count(old(self)@),
            all_wiped(r@),
    {
        let mut out: Vec<CapObject> = Vec::new();
        let n = self.slots.len();
        let mut i: usize = 0;
        while i < n
            invariant
                self.wf(),
                self.max_open() == old(self).max_open(),
                n == self@.len(),
                n == old(self)@.len(),
                i <= n,
                forall|h: int| 0 <= h < i ==> #[trigger] self@[h] is None,
                forall|h: int| i <= h < n ==> #[trigger] self@[h] == old(self)@[h],
                out@.len() + live_count(self@) == live_count(old(self)@),
                all_wiped(out@),
            decreases n - i,
        {
            let ghost before = self@;
            let res = self.close(i as u32);
            match res {
                Ok(o) => {
                    proof {
                        lemma_live_count_update(before, i as int, None);
                    }
                    let ghost prev = out@;
                    let ghost g = o;
                    assert(all_zero(g.secret@) && all_zero(g.absorbed@));
                    out.push(o);
                    assert(out@ == prev.push(g));
                    assert(out@.len() == prev.len() + 1);
                    assert(out@[prev.len() as int] == g);
                    assert(all_wiped(out@));
                },
                Err(_) => {},
            }
            i = i + 1;
        }
        proof {
            lemma_live_count_none(self@);
        }
        out
    }
}

/// Every object of `s` has its secret material and absorbed data erased.
pub open spec fn all_wiped(s: Seq<CapObject>) -> bool {
    forall|k: int| 0 <= k < s.len() ==> all_zero(#[trigger] s[k].secret@) && all_zero(s[k].absorbed@)
}

/// `w` is `o` with its secret material and absorbed data erased.
pub open spec fn wiped_from(w: CapObject, o: ObjView) -> bool {
    &&& w.kind == o.kind
    &&& w.algorithm == o.algorithm
    &&& w.usage == o.usage
    &&& w.phase == o.phase
    &&& w.secret@.len() == o.secret.len()
    &&& w.absorbed@.len() == o.absorbed.len()
    &&& all_zero(w.secret@)
    &&& all_zero(w.absorbed@)
}

} // verus!
