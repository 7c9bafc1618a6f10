//! The backend registry: registered backends in registration order, with
//! the identifier each reported when it was registered.

use vstd::prelude::*;
use vstd::multiset::Multiset;

use crate::backend::Backend;
use crate::capability::{backend_rank, codec_rank, codec_rank_of, BackendId, CapabilityModel, CodecCapability};
use crate::codec::{CodecId, Direction};
use crate::decoder::{DecoderConfig, VideoDecoder};
use crate::encoder::{EncoderConfig, VideoEncoder};
use crate::error::Error;

verus! {

/// One registered backend, with the identifier it reported on registration.
pub struct RegisteredBackend<B> {
    id: BackendId,
    backend: B,
}

/// Backends registered with the library, in registration order.
pub struct Registry<B: Backend> {
    entries: Vec<RegisteredBackend<B>>,
}

impl<B: Backend> View for Registry<B> {
    type V = Seq<BackendId>;

    /// The identifiers of the registered backends, in registration order.
    closed spec fn view(&self) -> Seq<BackendId> {
        Seq::new(self.entries@.len(), |i: int| self.entries@[i].id)
    }
}

/// The models of a list of capabilities.
pub open spec fn models(v: Seq<CodecCapability>) -> Seq<CapabilityModel> {
    v.map_values(|c: CodecCapability| c@)
}

/// Sort key of a capability: backend preference first, then codec.
pub open spec fn cap_key(c: CapabilityModel) -> nat {
    backend_rank(c.backend) * 3 + codec_rank(c.codec)
}

/// The capabilities in `s` whose key is `k`, in their order in `s`.
pub open spec fn with_key(s: Seq<CapabilityModel>, k: nat) -> Seq<CapabilityModel>
    decreases s.len(),
{
    if s.len() == 0 {
        Seq::empty()
    } else {
        with_key(s.drop_last(), k) + if cap_key(s.last()) == k {
            seq![s.last()]
        } else {
            Seq::empty()
        }
    }
}

/// The capabilities in `s` with keys below `k`, grouped by key in
/// increasing key order, each group in its order in `s`.
pub open spec fn sorted_below(s: Seq<CapabilityModel>, k: nat) -> Seq<CapabilityModel>
    decreases k,
{
    if k == 0 {
        Seq::empty()
    } else {
        sorted_below(s, (k - 1) as nat) + with_key(s, (k - 1) as nat)
    }
}

/// Number of distinct sort keys (5 backends × 3 codecs).
pub open spec fn key_count() -> nat {
    15
}

/// `s` stably sorted by backend preference, then codec.
pub open spec fn sorted_capabilities(s: Seq<CapabilityModel>) -> Seq<CapabilityModel> {
    sorted_below(s, key_count())
}

/// Every capability has one of the [`key_count`] sort keys.
proof fn lemma_cap_key_bound(c: CapabilityModel)
    ensures
        cap_key(c) < key_count(),
{
}

/// Appending `x` to `s` appends it to the group of its key.
proof fn lemma_with_key_push(s: Seq<CapabilityModel>, x: CapabilityModel, k: nat)
    ensures
        with_key(s.push(x), k) == with_key(s, k) + if cap_key(x) == k {
            seq![x]
        } else {
            Seq::<CapabilityModel>::empty()
        },
{
    assert(s.push(x).drop_last() =~= s);
}

/// Every member of the group of `k` has key `k`.
proof fn lemma_with_key_keys(s: Seq<CapabilityModel>, k: nat)
    ensures
        forall|i: int| 0 <= i < with_key(s, k).len() ==> cap_key(#[trigger] with_key(s, k)[i]) == k,
    decreases s.len(),
{
    if s.len() > 0 {
        lemma_with_key_keys(s.drop_last(), k);
        let a = with_key(s.drop_last(), k);
        assert forall|i: int| 0 <= i < with_key(s, k).len() implies cap_key(#[trigger] with_key(s, k)[i]) == k by {
            if i < a.len() {
                assert(with_key(s, k)[i] == a[i]);
            }
        }
    }
}

/// The groups below `k`, concatenated, are ordered by key and hold only
/// keys below `k`.
proof fn lemma_sorted_below_ordered(s: Seq<CapabilityModel>, k: nat)
    ensures
        forall|i: int| 0 <= i < sorted_below(s, k).len() ==> cap_key(#[trigger] sorted_below(s, k)[i]) < k,
        forall|i: int, j: int|
            0 <= i < j < sorted_below(s, k).len() ==> cap_key(#[trigger] sorted_below(s, k)[i]) <= cap_key(
                #[trigger] sorted_below(s, k)[j],
            ),
    decreases k,
{
    if k > 0 {
        let k1 = (k - 1) as nat;
        lemma_sorted_below_ordered(s, k1);
        lemma_with_key_keys(s, k1);
        let a = sorted_below(s, k1);
        let b = with_key(s, k1);
        let r = sorted_below(s, k);
        assert(r == a + b);
        assert forall|i: int| 0 <= i < r.len() implies cap_key(#[trigger] r[i]) < k by {
            if i < a.len() {
                assert(r[i] == a[i]);
            } else {
                assert(r[i] == b[i - a.len()]);
            }
        }
        assert forall|i: int, j: int| 0 <= i < j < r.len() implies cap_key(#[trigger] r[i]) <= cap_key(#[trigger] r[j]) by {
            if j < a.len() {
                assert(r[i] == a[i] && r[j] == a[j]);
            } else if i < a.len() {
                assert(r[i] == a[i] && r[j] == b[j - a.len()]);
            } else {
                assert(r[i] == b[i - a.len()] && r[j] == b[j - a.len()]);
            }
        }
    }
}

/// Appending `x` adds it to the groups below `k` when its key is below `k`.
proof fn lemma_sorted_below_multiset_push(s: Seq<CapabilityModel>, x: CapabilityModel, k: nat)
    ensures
        sorted_below(s.push(x), k).to_multiset() == if cap_key(x) < k {
            sorted_below(s, k).to_multiset().insert(x)
        } else {
            sorted_below(s, k).to_multiset()
        },
    decreases k,
{
    broadcast use vstd::seq_lib::group_to_multiset_ensures;
    broadcast use vstd::seq_lib::lemma_multiset_commutative;
    broadcast use vstd::multiset::group_multiset_axioms;

    if k > 0 {
        let k1 = (k - 1) as nat;
        lemma_sorted_below_multiset_push(s, x, k1);
        lemma_with_key_push(s, x, k1);
        let single = if cap_key(x) == k1 {
            seq![x]
        } else {
            Seq::<CapabilityModel>::empty()
        };
        assert(sorted_below(s.push(x), k) == sorted_below(s.push(x), k1) + (with_key(s, k1) + single));
        assert(sorted_below(s, k) == sorted_below(s, k1) + with_key(s, k1));
        if cap_key(x) == k1 {
            assert(single.to_multiset() =~= Multiset::<CapabilityModel>::empty().insert(x)) by {
                assert(single =~= Seq::<CapabilityModel>::empty().push(x));
            }
        } else {
            assert(single.to_multiset() =~= Multiset::<CapabilityModel>::empty());
        }
        assert(sorted_below(s.push(x), k).to_multiset() =~= if cap_key(x) < k {
            sorted_below(s, k).to_multiset().insert(x)
        } else {
            sorted_below(s, k).to_multiset()
        });
    } else {
        assert(sorted_below(s.push(x), k).to_multiset() =~= sorted_below(s, k).to_multiset());
    }
}

/// Sorting keeps every capability exactly as often as it occurs.
proof fn lemma_sorted_multiset(s: Seq<CapabilityModel>)
    ensures
        sorted_capabilities(s).to_multiset() == s.to_multiset(),
    decreases s.len(),
{
    broadcast use vstd::seq_lib::group_to_multiset_ensures;

    if s.len() == 0 {
        assert(sorted_below(s, key_count()).to_multiset() =~= s.to_multiset()) by {
            lemma_sorted_below_empty(s, key_count());
        }
    } else {
        let t = s.drop_last();
        let x = s.last();
        lemma_sorted_multiset(t);
        lemma_cap_key_bound(x);
        assert(t.push(x) =~= s);
        lemma_sorted_below_multiset_push(t, x, key_count());
    }
}

/// Nothing is sorted out of an empty list.
proof fn lemma_sorted_below_empty(s: Seq<CapabilityModel>, k: nat)
    requires
        s.len() == 0,
    ensures
        sorted_below(s, k) =~= Seq::<CapabilityModel>::empty(),
    decreases k,
{
    if k > 0 {
        lemma_sorted_below_empty(s, (k - 1) as nat);
        assert(with_key(s, (k - 1) as nat) =~= Seq::<CapabilityModel>::empty());
    }
}

/// The group of `k` of a concatenation is the concatenation of the groups.
proof fn lemma_with_key_concat(a: Seq<CapabilityModel>, b: Seq<CapabilityModel>, k: nat)
    ensures
        with_key(a + b, k) == with_key(a, k) + with_key(b, k),
    decreases b.len(),
{
    if b.len() == 0 {
        assert(a + b =~= a);
        assert(with_key(a, k) + with_key(b, k) =~= with_key(a, k));
    } else {
        lemma_with_key_concat(a, b.drop_last(), k);
        assert((a + b).drop_last() =~= a + b.drop_last());
        assert((a + b).last() == b.last());
        assert(with_key(a + b, k) =~= with_key(a, k) + with_key(b, k));
    }
}

/// Regrouping a group: the group of `k` in the group of `j` is the group
/// itself when `j == k` and empty otherwise.
proof fn lemma_with_key_of_group(s: Seq<CapabilityModel>, j: nat, k: nat)
    ensures
        with_key(with_key(s, j), k) == if j == k {
            with_key(s, k)
        } else {
            Seq::<CapabilityModel>::empty()
        },
    decreases s.len(),
{
    if s.len() > 0 {
        lemma_with_key_of_group(s.drop_last(), j, k);
        let single = if cap_key(s.last()) == j {
            seq![s.last()]
        } else {
            Seq::<CapabilityModel>::empty()
        };
        lemma_with_key_concat(with_key(s.drop_last(), j), single, k);
        assert(with_key(s, j) == with_key(s.drop_last(), j) + single);
        if cap_key(s.last()) == j {
            assert(single.drop_last() =~= Seq::<CapabilityModel>::empty());
            assert(single.last() == s.last());
            assert(with_key(single.drop_last(), k) =~= Seq::<CapabilityModel>::empty());
            assert(with_key(single, k) == with_key(single.drop_last(), k) + if cap_key(single.last()) == k {
                seq![single.last()]
            } else {
                Seq::<CapabilityModel>::empty()
            });
            assert(with_key(single, k) =~= if j == k {
                seq![s.last()]
            } else {
                Seq::<CapabilityModel>::empty()
            });
        } else {
            assert(with_key(single, k) =~= Seq::<CapabilityModel>::empty());
        }
        assert(with_key(with_key(s, j), k) =~= if j == k {
            with_key(s, k)
        } else {
            Seq::<CapabilityModel>::empty()
        });
    }
}

/// The group of `k` in the groups below `kmax` is the group of `k` in `s`
/// when `k < kmax`, and empty otherwise.
proof fn lemma_sorted_below_group(s: Seq<CapabilityModel>, kmax: nat, k: nat)
    ensures
        with_key(sorted_below(s, kmax), k) == if k < kmax {
            with_key(s, k)
        } else {
            Seq::<CapabilityModel>::empty()
        },
    decreases kmax,
{
    if kmax == 0 {
        assert(with_key(sorted_below(s, kmax), k) =~= Seq::<CapabilityModel>::empty());
    } else {
        let k1 = (kmax - 1) as nat;
        lemma_sorted_below_group(s, k1, k);
        lemma_with_key_concat(sorted_below(s, k1), with_key(s, k1), k);
        lemma_with_key_of_group(s, k1, k);
        assert(with_key(sorted_below(s, kmax), k) =~= if k < kmax {
            with_key(s, k)
        } else {
            Seq::<CapabilityModel>::empty()
        });
    }
}

/// What [`Registry::enumerate`] does to the gathered capabilities, stated
/// on its own: the result is ordered by backend preference (declaration
/// order of [`BackendId`]) and then by codec, holds every gathered
/// capability exactly as often as before, and keeps the relative order of
/// capabilities with the same backend and codec.
pub proof fn law_sorted_capabilities(s: Seq<CapabilityModel>)
    ensures
        forall|i: int, j: int|
            0 <= i < j < sorted_capabilities(s).len() ==> {
                let a = #[trigger] sorted_capabilities(s)[i];
                let b = #[trigger] sorted_capabilities(s)[j];
                backend_rank(a.backend) < backend_rank(b.backend) || (backend_rank(a.backend) == backend_rank(
                    b.backend,
                ) && codec_rank(a.codec) <= codec_rank(b.codec))
            },
        sorted_capabilities(s).to_multiset() == s.to_multiset(),
        forall|k: nat| #[trigger] with_key(sorted_capabilities(s), k) == with_key(s, k),
{
    let r = sorted_capabilities(s);
    lemma_sorted_below_ordered(s, key_count());
    assert forall|i: int, j: int| 0 <= i < j < r.len() implies {
        let a = #[trigger] r[i];
        let b = #[trigger] r[j];
        backend_rank(a.backend) < backend_rank(b.backend) || (backend_rank(a.backend) == backend_rank(b.backend)
            && codec_rank(a.codec) <= codec_rank(b.codec))
    } by {
        assert(cap_key(r[i]) <= cap_key(r[j]));
    }
    lemma_sorted_multiset(s);
    assert forall|k: nat| #[trigger] with_key(r, k) == with_key(s, k) by {
        lemma_sorted_below_group(s, key_count(), k);
        if k >= key_count() {
            lemma_with_key_none(s, k);
        }
    }
}

/// No capability has a key of [`key_count`] or more.
proof fn lemma_with_key_none(s: Seq<CapabilityModel>, k: nat)
    requires
        k >= key_count(),
    ensures
        with_key(s, k) == Seq::<CapabilityModel>::empty(),
    decreases s.len(),
{
    if s.len() > 0 {
        lemma_with_key_none(s.drop_last(), k);
        lemma_cap_key_bound(s.last());
        assert(with_key(s, k) =~= Seq::<CapabilityModel>::empty());
    }
}

fn cap_key_of(c: &CodecCapability) -> (r: u8)
    ensures
        r == cap_key(c@),
{
    c.backend.rank() * 3 + codec_rank_of(c.codec)
}

/// Sorts capabilities by backend preference (declaration order of
/// [`BackendId`]), then by codec, keeping the relative order of entries that
/// compare equal.
pub fn sort_capabilities(caps: &mut Vec<CodecCapability>)
    ensures
        models(final(caps)@) == sorted_capabilities(models(old(caps)@)),
{
    let ghost s = models(caps@);
    let mut out: Vec<CodecCapability> = Vec::new();
    let mut k: u8 = 0;
    while k < 15
        invariant
            k <= 15,
            s == models(caps@),
            models(out@) == sorted_below(s, k as nat),
        decreases 15 - k,
    {
        let mut i: usize = 0;
        while i < caps.len()
            invariant
                k < 15,
                i <= caps@.len(),
                s == models(caps@),
                models(out@) == sorted_below(s, k as nat) + with_key(s.subrange(0, i as int), k as nat),
            decreases caps@.len() - i,
        {
            let ghost before = models(out@);
            assert(s.subrange(0, i + 1).drop_last() =~= s.subrange(0, i as int));
            assert(s.subrange(0, i + 1).last() == caps@[i as int]@);
            if cap_key_of(&caps[i]) == k {
                let c = caps[i].duplicate();
                out.push(c);
                assert(models(out@) =~= before + seq![c@]);
            } else {
                assert(models(out@) =~= before + Seq::<CapabilityModel>::empty());
            }
            i = i + 1;
        }
        assert(s.subrange(0, caps@.len() as int) =~= s);
        k = k + 1;
    }
    *caps = out;
}

/// The capabilities in `s` for `codec`, in order.
pub open spec fn for_codec(s: Seq<CapabilityModel>, codec: CodecId) -> Seq<CapabilityModel>
    decreases s.len(),
{
    if s.len() == 0 {
        Seq::empty()
    } else {
        for_codec(s.drop_last(), codec) + if s.last().codec == codec {
            seq![s.last()]
        } else {
            Seq::empty()
        }
    }
}

/// `lists[i]` is an answer that `backends[i]` may give to
/// `enumerate(direction)`, for every registered backend.
pub open spec fn answers_enumerate<B: Backend>(backends: Seq<B>, direction: Direction, lists: Seq<Vec<CodecCapability>>) -> bool {
    &&& lists.len() == backends.len()
    &&& forall|i: int| 0 <= i < lists.len() ==> call_ensures(B::enumerate, (&backends[i], direction), #[trigger] lists[i])
}

/// The models of the answers, concatenated in registration order.
pub open spec fn gathered(lists: Seq<Vec<CodecCapability>>) -> Seq<CapabilityModel> {
    lists.map_values(|v: Vec<CodecCapability>| models(v@)).flatten_alt()
}

/// `i` is the first position of `id` in `ids`.
pub open spec fn first_with(ids: Seq<BackendId>, id: BackendId, i: int) -> bool {
    &&& 0 <= i < ids.len()
    &&& ids[i] == id
    &&& forall|j: int| 0 <= j < i ==> ids[j] != id
}

/// Where every registered backend gives the same capabilities each time it
/// is asked for `direction`, the listing of one codec is the full listing
/// with the other codecs left out: any two rounds of answers sort to the
/// same list, and filtering it by `codec` keeps its order.
pub proof fn law_codec_listing_filters_listing<B: Backend>(
    backends: Seq<B>,
    direction: Direction,
    codec: CodecId,
    all_answers: Seq<Vec<CodecCapability>>,
    codec_answers: Seq<Vec<CodecCapability>>,
)
    requires
        forall|i: int, a: Vec<CodecCapability>, b: Vec<CodecCapability>|
            0 <= i < backends.len() && #[trigger] call_ensures(B::enumerate, (&backends[i], direction), a)
                && #[trigger] call_ensures(B::enumerate, (&backends[i], direction), b) ==> models(a@) == models(b@),
        answers_enumerate(backends, direction, all_answers),
        answers_enumerate(backends, direction, codec_answers),
    ensures
        for_codec(sorted_capabilities(gathered(codec_answers)), codec) == for_codec(
            sorted_capabilities(gathered(all_answers)),
            codec,
        ),
{
    let f = |v: Vec<CodecCapability>| models(v@);
    assert forall|i: int| 0 <= i < backends.len() implies models(#[trigger] all_answers[i]@) == models(
        codec_answers[i]@,
    ) by {
        assert(call_ensures(B::enumerate, (&backends[i], direction), all_answers[i]));
        assert(call_ensures(B::enumerate, (&backends[i], direction), codec_answers[i]));
    }
    assert(all_answers.map_values(f) =~= codec_answers.map_values(f));
}

/// A registry without backends (a new or cleared one) lists no
/// capability, whatever the direction.
pub proof fn law_empty_registry_lists_nothing<B: Backend>(direction: Direction, lists: Seq<Vec<CodecCapability>>)
    requires
        answers_enumerate(Seq::<B>::empty(), direction, lists),
    ensures
        sorted_capabilities(gathered(lists)) == Seq::<CapabilityModel>::empty(),
{
    assert(lists.map_values(|v: Vec<CodecCapability>| models(v@)) =~= Seq::<Seq<CapabilityModel>>::empty());
    assert(gathered(lists) =~= Seq::<CapabilityModel>::empty());
    lemma_sorted_below_empty(gathered(lists), key_count());
}

impl<B: Backend> Registry<B> {
    /// The registered backends, in registration order.
    pub closed spec fn backends(&self) -> Seq<B> {
        Seq::new(self.entries@.len(), |i: int| self.entries@[i].backend)
    }

    /// An empty registry.
    pub fn new() -> (r: Registry<B>)
        ensures
            r@ == Seq::<BackendId>::empty(),
            r.backends() == Seq::<B>::empty(),
    {
        let r = Registry { entries: Vec::new() };
        assert(r.backends() =~= Seq::<B>::empty());
        r
    }

    /// Number of registered backends.
    pub fn len(&self) -> (r: usize)
        ensures
            r == self@.len(),
    {
        self.entries.len()
    }

    /// Appends `backend`, recording the identifier it reports now.
    pub fn register(&mut self, backend: B)
        ensures
            final(self)@.len() == old(self)@.len() + 1,
            final(self)@.subrange(0, old(self)@.len() as int) == old(self)@,
            call_ensures(B::id, (&backend,), final(self)@.last()),
            final(self).backends() == old(self).backends().push(backend),
    {
        let id = backend.id();
        self.insert(id, backend);
        assert(self@.subrange(0, old(self)@.len() as int) =~= old(self)@);
    }

    /// Appends `backend` under the identifier `id` it reports.
    pub(crate) fn insert(&mut self, id: BackendId, backend: B)
        ensures
            final(self)@ == old(self)@.push(id),
            final(self).backends() == old(self).backends().push(backend),
    {
        self.entries.push(RegisteredBackend { id, backend });
        assert(self@ =~= old(self)@.push(id));
        assert(self.backends() =~= old(self).backends().push(backend));
    }

    /// Removes every backend.
    pub fn clear(&mut self)
        ensures
            final(self)@ == Seq::<BackendId>::empty(),
            final(self).backends() == Seq::<B>::empty(),
    {
        self.entries = Vec::new();
        assert(self@ =~= Seq::<BackendId>::empty());
        assert(self.backends() =~= Seq::<B>::empty());
    }

    /// All `direction` capabilities of the registered backends (each asked
    /// once, in registration order), sorted by backend preference then codec.
    pub fn enumerate(&self, direction: Direction) -> (r: Vec<CodecCapability>)
        ensures
            exists|lists: Seq<Vec<CodecCapability>>|
                answers_enumerate(self.backends(), direction, lists) && models(r@) == sorted_capabilities(
                    #[trigger] gathered(lists),
                ),
    {
        let mut all: Vec<CodecCapability> = Vec::new();
        let ghost mut lists: Seq<Vec<CodecCapability>> = Seq::empty();
        let mut i: usize = 0;
        while i < self.entries.len()
            invariant
                i <= self.entries@.len(),
                answers_enumerate(self.backends().subrange(0, i as int), direction, lists),
                models(all@) == gathered(lists),
            decreases self.entries@.len() - i,
        {
            let mut caps = self.entries[i].backend.enumerate(direction);
            let ghost answer = caps;
            let ghost before = models(all@);
            all.append(&mut caps);
            proof {
                assert(models(all@) =~= before + models(answer@));
                let next = lists.push(answer);
                assert(next.map_values(|v: Vec<CodecCapability>| models(v@)) =~= lists.map_values(
                    |v: Vec<CodecCapability>| models(v@),
                ).push(models(answer@)));
                assert(lists.map_values(|v: Vec<CodecCapability>| models(v@)).push(models(answer@)).drop_last()
                    =~= lists.map_values(|v: Vec<CodecCapability>| models(v@)));
                assert(self.backends()[i as int] == self.entries@[i as int].backend);
                assert forall|j: int| 0 <= j < next.len() implies call_ensures(
                    B::enumerate,
                    (&self.backends().subrange(0, i + 1)[j], direction),
                    #[trigger] next[j],
                ) by {
                    if j < i {
                        assert(self.backends().subrange(0, i + 1)[j] == self.backends().subrange(0, i as int)[j]);
                        assert(next[j] == lists[j]);
                    }
                }
                lists = next;
            }
            i = i + 1;
        }
        sort_capabilities(&mut all);
        assert(self.backends().subrange(0, self.entries@.len() as int) =~= self.backends());
        all
    }

    /// `enumerate(direction)` restricted to `codec`.
    #[verifier::spinoff_prover]
    #[verifier::rlimit(30)]
    pub fn enumerate_codec(&self, codec: CodecId, direction: Direction) -> (r: Vec<CodecCapability>)
        ensures
            exists|lists: Seq<Vec<CodecCapability>>|
                answers_enumerate(self.backends(), direction, lists) && models(r@) == for_codec(
                    sorted_capabilities(#[trigger] gathered(lists)),
                    codec,
                ),
    {
        let all = self.enumerate(direction);
        let ghost s = models(all@);
        let ghost lists = choose|lists: Seq<Vec<CodecCapability>>|
            answers_enumerate(self.backends(), direction, lists) && s == sorted_capabilities(#[trigger] gathered(lists));
        let mut out: Vec<CodecCapability> = Vec::new();
        let mut i: usize = 0;
        while i < all.len()
            invariant
                i <= all@.len(),
                s == models(all@),
                models(out@) == for_codec(s.subrange(0, i as int), codec),
            decreases all@.len() - i,
        {
            assert(s.subrange(0, i + 1).drop_last() =~= s.subrange(0, i as int));
            assert(s.subrange(0, i + 1).last() == all@[i as int]@);
            let ghost before = models(out@);
            if all[i].codec == codec {
                let c = all[i].duplicate();
                out.push(c);
                assert(models(out@) =~= before + seq![c@]);
            } else {
                assert(models(out@) =~= before + Seq::<CapabilityModel>::empty());
            }
            i = i + 1;
        }
        assert(s.subrange(0, all@.len() as int) =~= s);
        assert(answers_enumerate(self.backends(), direction, lists) && models(out@) == for_codec(
            sorted_capabilities(gathered(lists)),
            codec,
        ));
        out
    }

    /// Opens an encoder through the first registered backend whose
    /// identifier is `cap.backend`, after validating `config`.
    pub fn open_encoder(&self, cap: &CodecCapability, config: EncoderConfig) -> (r: Result<Box<dyn VideoEncoder>, Error>)
        ensures
            crate::encoder::spec_validate_encoder_config(config) matches Err(e) ==> (r matches Err(e2) && e2 == e),
            crate::encoder::spec_validate_encoder_config(config) is Ok && !self@.contains(cap.backend) ==> (r matches Err(e2)
                && e2 == (Error::NoBackend { codec: cap.codec, backend: cap.backend, direction: cap.direction })),
            crate::encoder::spec_validate_encoder_config(config) is Ok && self@.contains(cap.backend) ==> exists|i: int|
                first_with(self@, cap.backend, i) && call_ensures(
                    B::open_encoder,
                    (&#[trigger] self.backends()[i], cap, config),
                    r,
                ),
    {
        match config.validate() {
            Ok(()) => {},
            Err(e) => return Err(e),
        }
        let mut i: usize = 0;
        while i < self.entries.len()
            invariant
                i <= self.entries@.len(),
                crate::encoder::spec_validate_encoder_config(config) is Ok,
                forall|j: int| 0 <= j < i ==> self@[j] != cap.backend,
            decreases self.entries@.len() - i,
        {
            if self.entries[i].id == cap.backend {
                assert(self@[i as int] == cap.backend);
                assert(self.backends()[i as int] == self.entries@[i as int].backend);
                let r = self.entries[i].backend.open_encoder(cap, config);
                assert(first_with(self@, cap.backend, i as int));
                return r;
            }
            i = i + 1;
        }
        assert(!self@.contains(cap.backend));
        Err(Error::NoBackend { codec: cap.codec, backend: cap.backend, direction: cap.direction })
    }

    /// Opens a decoder through the first registered backend whose
    /// identifier is `cap.backend`, after validating `config`.
    pub fn open_decoder(&self, cap: &CodecCapability, config: DecoderConfig) -> (r: Result<Box<dyn VideoDecoder>, Error>)
        ensures
            crate::decoder::spec_validate_decoder_config(config) matches Err(e) ==> (r matches Err(e2) && e2 == e),
            crate::decoder::spec_validate_decoder_config(config) is Ok && !self@.contains(cap.backend) ==> (r matches Err(e2)
                && e2 == (Error::NoBackend { codec: cap.codec, backend: cap.backend, direction: cap.direction })),
            crate::decoder::spec_validate_decoder_config(config) is Ok && self@.contains(cap.backend) ==> exists|i: int|
                first_with(self@, cap.backend, i) && call_ensures(
                    B::open_decoder,
                    (&#[trigger] self.backends()[i], cap, config),
                    r,
                ),
    {
        match config.validate() {
            Ok(()) => {},
            Err(e) => return Err(e),
        }
        let mut i: usize = 0;
        while i < self.entries.len()
            invariant
                i <= self.entries@.len(),
                crate::decoder::spec_validate_decoder_config(config) is Ok,
                forall|j: int| 0 <= j < i ==> self@[j] != cap.backend,
            decreases self.entries@.len() - i,
        {
            if self.entries[i].id == cap.backend {
                assert(self@[i as int] == cap.backend);
                assert(self.backends()[i as int] == self.entries@[i as int].backend);
                let r = self.entries[i].backend.open_decoder(cap, config);
                assert(first_with(self@, cap.backend, i as int));
                return r;
            }
            i = i + 1;
        }
        assert(!self@.contains(cap.backend));
        Err(Error::NoBackend { codec: cap.codec, backend: cap.backend, direction: cap.direction })
    }
}

} // verus!
