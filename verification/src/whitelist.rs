use crate::errors::ErrorCode;
use crate::pubkey::Pubkey;
use crate::state::TokenData;
use vstd::prelude::*;

verus! {

/// The whitelist store of one asset: the identities that may receive it, in
/// the order in which they were added.
#[derive(Clone, Debug, PartialEq, Eq)]
pub struct Whitelist {
    pub addresses: Vec<Pubkey>,
}

/// A list with one identity added at its end, unless it is on the list.
pub open spec fn with_address(list: Seq<Pubkey>, address: Pubkey) -> Seq<Pubkey> {
    if list.contains(address) {
        list
    } else {
        list.push(address)
    }
}

/// A list with each of `added` added in turn.
pub open spec fn with_addresses(list: Seq<Pubkey>, added: Seq<Pubkey>) -> Seq<Pubkey>
    decreases added.len(),
{
    if added.len() == 0 {
        list
    } else {
        with_address(with_addresses(list, added.drop_last()), added.last())
    }
}

/// A list without the identities that `removed` holds, the others in their
/// order.
pub open spec fn without_addresses(list: Seq<Pubkey>, removed: Seq<Pubkey>) -> Seq<Pubkey> {
    list.filter(|a: Pubkey| !removed.contains(a))
}

impl View for Whitelist {
    type V = Seq<Pubkey>;

    open spec fn view(&self) -> Seq<Pubkey> {
        self.addresses@
    }
}

impl Whitelist {
    /// No identity stands on the list twice.
    pub open spec fn wf(&self) -> bool {
        self@.no_duplicates()
    }

    /// The store of a new asset: one identity.
    pub fn new(default_address: Pubkey) -> (r: Whitelist)
        ensures
            r@ == seq![default_address],
            r.wf(),
    {
        let mut addresses: Vec<Pubkey> = Vec::new();
        addresses.push(default_address);
        assert(addresses@ =~= seq![default_address]);
        Whitelist { addresses }
    }

    /// Whether an identity is on the list.
    pub fn contains(&self, address: &Pubkey) -> (r: bool)
        ensures
            r == self@.contains(*address),
    {
        holds(&self.addresses, address)
    }

    /// Adds an identity at the end of the list, unless it is on it.
    pub fn insert(&mut self, address: Pubkey)
        ensures
            final(self)@ == with_address(old(self)@, address),
            old(self).wf() ==> final(self).wf(),
    {
        if !holds(&self.addresses, &address) {
            self.addresses.push(address);
        }
    }

    /// Takes every identity of `removed` off the list and keeps the others in
    /// their order.
    pub fn remove_all(&mut self, removed: &Vec<Pubkey>)
        ensures
            final(self)@ == without_addresses(old(self)@, removed@),
            old(self).wf() ==> final(self).wf(),
    {
        proof {
            lemma_without_addresses(self@, removed@);
        }
        let ghost keep = |a: Pubkey| !removed@.contains(a);
        let mut kept: Vec<Pubkey> = Vec::new();
        let mut i: usize = 0;
        assert(self@.subrange(0, 0) =~= Seq::<Pubkey>::empty());
        assert(Seq::<Pubkey>::empty().filter(keep) =~= Seq::<Pubkey>::empty()) by {
            Seq::<Pubkey>::empty().lemma_filter_len(keep);
        }
        while i < self.addresses.len()
            invariant
                i <= self.addresses.len(),
                keep == |a: Pubkey| !removed@.contains(a),
                kept@ == self@.subrange(0, i as int).filter(keep),
            decreases self.addresses.len() - i,
        {
            let address = self.addresses[i];
            proof {
                assert(self@.subrange(0, i + 1) =~= self@.subrange(0, i as int).push(address));
                self@.subrange(0, i as int).lemma_filter_push(address, keep);
            }
            if !holds(removed, &address) {
                kept.push(address);
            }
            i += 1;
        }
        assert(self@.subrange(0, i as int) =~= self@);
        self.addresses = kept;
    }
}

/// Whether a list holds an identity.
pub fn holds(list: &Vec<Pubkey>, address: &Pubkey) -> (r: bool)
    ensures
        r == list@.contains(*address),
{
    let mut i: usize = 0;
    while i < list.len()
        invariant
            i <= list.len(),
            forall|j: int| 0 <= j < i ==> list@[j] != *address,
        decreases list.len() - i,
    {
        if list[i] == *address {
            return true;
        }
        i += 1;
    }
    false
}

/// What `add_to_whitelist` is handed: the asset's registry record, its
/// whitelist store and the caller.
#[derive(Clone, Debug, PartialEq, Eq)]
pub struct AddToWhitelistCTX {
    pub token_data: TokenData,
    pub whitelist: Whitelist,
    pub authority: Pubkey,
}

/// What `remove_from_whitelist` is handed: the asset's registry record, its
/// whitelist store and the caller.
#[derive(Clone, Debug, PartialEq, Eq)]
pub struct RemoveFromWhitelistCTX {
    pub token_data: TokenData,
    pub whitelist: Whitelist,
    pub authority: Pubkey,
}

/// What `get_whitelist` is handed: the asset's registry record and its
/// whitelist store.
#[derive(Clone, Debug, PartialEq, Eq)]
pub struct GetWhitelistCTX {
    pub authority: Pubkey,
    pub token_data: TokenData,
    pub whitelist: Whitelist,
}

/// Adds identities to the asset's whitelist, for its controlling authority:
/// each one that is not yet on the list goes to its end, in the order given.
/// A request that names none is accepted and changes nothing. For another
/// caller nothing changes.
pub fn add_to_whitelist(ctx: &mut AddToWhitelistCTX, _token_count: u64, addresses: Vec<Pubkey>) -> (r:
    Result<(), ErrorCode>)
    ensures
        final(ctx).token_data == old(ctx).token_data,
        final(ctx).authority == old(ctx).authority,
        r == if old(ctx).token_data.authority != old(ctx).authority {
            Err::<(), ErrorCode>(ErrorCode::Unauthorized)
        } else {
            Ok::<(), ErrorCode>(())
        },
        r is Ok ==> final(ctx).whitelist@ == with_addresses(old(ctx).whitelist@, addresses@),
        r is Err ==> final(ctx).whitelist == old(ctx).whitelist,
        old(ctx).whitelist.wf() ==> final(ctx).whitelist.wf(),
{
    if ctx.token_data.authority != ctx.authority {
        return Err(ErrorCode::Unauthorized);
    }
    let mut i: usize = 0;
    proof {
        lemma_with_addresses(ctx.whitelist@, addresses@);
        assert(addresses@.take(0) =~= Seq::<Pubkey>::empty());
    }
    while i < addresses.len()
        invariant
            i <= addresses.len(),
            ctx.token_data == old(ctx).token_data,
            ctx.authority == old(ctx).authority,
            ctx.whitelist@ == with_addresses(old(ctx).whitelist@, addresses@.take(i as int)),
        decreases addresses.len() - i,
    {
        proof {
            let next = addresses@.take(i + 1);
            assert(next.drop_last() =~= addresses@.take(i as int));
            assert(next.last() == addresses@[i as int]);
        }
        ctx.whitelist.insert(addresses[i]);
        i += 1;
    }
    assert(addresses@.take(i as int) =~= addresses@);
    Ok(())
}

/// Takes identities off the asset's whitelist, for its controlling
/// authority. The others keep their order; one that is not on the list is
/// passed over. For another caller nothing changes.
pub fn remove_from_whitelist(
    ctx: &mut RemoveFromWhitelistCTX,
    _token_count: u64,
    addresses: Vec<Pubkey>,
) -> (r: Result<(), ErrorCode>)
    ensures
        final(ctx).token_data == old(ctx).token_data,
        final(ctx).authority == old(ctx).authority,
        r == if old(ctx).token_data.authority != old(ctx).authority {
            Err::<(), ErrorCode>(ErrorCode::Unauthorized)
        } else {
            Ok::<(), ErrorCode>(())
        },
        r is Ok ==> final(ctx).whitelist@ == without_addresses(old(ctx).whitelist@, addresses@),
        r is Err ==> final(ctx).whitelist == old(ctx).whitelist,
        old(ctx).whitelist.wf() ==> final(ctx).whitelist.wf(),
{
    if ctx.token_data.authority != ctx.authority {
        return Err(ErrorCode::Unauthorized);
    }
    ctx.whitelist.remove_all(&addresses);
    Ok(())
}

/// The identities on the asset's whitelist, in the order in which they were
/// added. Nothing changes.
pub fn get_whitelist(ctx: &GetWhitelistCTX, _token_count: u64) -> (r: Result<Vec<Pubkey>, ErrorCode>)
    ensures
        r matches Ok(list) && list@ == ctx.whitelist@,
{
    let mut list: Vec<Pubkey> = Vec::new();
    let mut i: usize = 0;
    while i < ctx.whitelist.addresses.len()
        invariant
            i <= ctx.whitelist.addresses.len(),
            list@ == ctx.whitelist@.take(i as int),
        decreases ctx.whitelist.addresses.len() - i,
    {
        list.push(ctx.whitelist.addresses[i]);
        assert(list@ =~= ctx.whitelist@.take(i + 1));
        i += 1;
    }
    assert(ctx.whitelist@.take(i as int) =~= ctx.whitelist@);
    Ok(list)
}

/// What adding does to a list: the list stays at the front, an identity is on
/// the result exactly when it was on the list or among those added, and a
/// list without repeats stays without repeats.
pub proof fn lemma_with_addresses(list: Seq<Pubkey>, added: Seq<Pubkey>)
    ensures
        list.is_prefix_of(with_addresses(list, added)),
        forall|a: Pubkey|
            with_addresses(list, added).contains(a) <==> list.contains(a) || added.contains(a),
        list.no_duplicates() ==> with_addresses(list, added).no_duplicates(),
    decreases added.len(),
{
    if added.len() > 0 {
        let front = added.drop_last();
        let last = added.last();
        let before = with_addresses(list, front);
        let after = with_addresses(list, added);
        lemma_with_addresses(list, front);
        assert(after == with_address(before, last));
        assert forall|a: Pubkey| after.contains(a) <==> list.contains(a) || added.contains(
            a,
        ) by {
            if after.contains(a) {
                let i = choose|i: int| 0 <= i < after.len() && after[i] == a;
                if i < before.len() {
                    assert(before[i] == a);
                    assert(before.contains(a));
                    if front.contains(a) {
                        let j = choose|j: int| 0 <= j < front.len() && front[j] == a;
                        assert(added[j] == a);
                    }
                } else {
                    assert(a == last);
                    assert(added[added.len() - 1] == a);
                }
            }
            if list.contains(a) {
                assert(before.contains(a));
                let i = choose|i: int| 0 <= i < before.len() && before[i] == a;
                assert(after[i] == a);
            }
            if added.contains(a) {
                let j = choose|j: int| 0 <= j < added.len() && added[j] == a;
                if j < front.len() {
                    assert(front[j] == a);
                    assert(before.contains(a));
                    let i = choose|i: int| 0 <= i < before.len() && before[i] == a;
                    assert(after[i] == a);
                } else {
                    assert(a == last);
                    if before.contains(last) {
                    } else {
                        assert(after[before.len() as int] == last);
                    }
                }
            }
        }
    } else {
        assert(with_addresses(list, added) == list);
    }
}

/// Adding identities that are all on the list leaves the list as it is.
pub proof fn lemma_adding_present_is_noop(list: Seq<Pubkey>, added: Seq<Pubkey>)
    requires
        forall|i: int| 0 <= i < added.len() ==> list.contains(#[trigger] added[i]),
    ensures
        with_addresses(list, added) == list,
    decreases added.len(),
{
    if added.len() > 0 {
        let front = added.drop_last();
        assert forall|i: int| 0 <= i < front.len() implies list.contains(#[trigger] front[i]) by {
            assert(front[i] == added[i]);
        }
        lemma_adding_present_is_noop(list, front);
        assert(list.contains(added[added.len() - 1]));
    }
}

/// Adding is idempotent: adding the same identities a second time changes
/// nothing.
pub proof fn lemma_add_is_idempotent(list: Seq<Pubkey>, added: Seq<Pubkey>)
    ensures
        with_addresses(with_addresses(list, added), added) == with_addresses(list, added),
{
    let once = with_addresses(list, added);
    lemma_with_addresses(list, added);
    assert forall|i: int| 0 <= i < added.len() implies once.contains(#[trigger] added[i]) by {
        assert(added.contains(added[i]));
    }
    lemma_adding_present_is_noop(once, added);
}

/// What removing does to a list: an identity is on the result exactly when
/// it was on the list and is not among those removed, and a list without
/// repeats stays without repeats.
pub proof fn lemma_without_addresses(list: Seq<Pubkey>, removed: Seq<Pubkey>)
    ensures
        forall|a: Pubkey|
            without_addresses(list, removed).contains(a) <==> list.contains(a) && !removed.contains(
                a,
            ),
        list.no_duplicates() ==> without_addresses(list, removed).no_duplicates(),
    decreases list.len(),
{
    let keep = |a: Pubkey| !removed.contains(a);
    let result = list.filter(keep);
    if list.len() == 0 {
        list.lemma_filter_len(keep);
        assert(result.len() == 0);
    } else {
        let front = list.drop_last();
        let last = list.last();
        lemma_without_addresses(front, removed);
        assert(list =~= front.push(last));
        front.lemma_filter_push(last, keep);
        let before = front.filter(keep);
        assert forall|a: Pubkey| result.contains(a) <==> list.contains(a) && !removed.contains(
            a,
        ) by {
            if result.contains(a) {
                let i = choose|i: int| 0 <= i < result.len() && result[i] == a;
                if i < before.len() {
                    assert(before[i] == a);
                    assert(before.contains(a));
                    let j = choose|j: int| 0 <= j < front.len() && front[j] == a;
                    assert(list[j] == a);
                } else {
                    assert(a == last);
                    assert(list[list.len() - 1] == a);
                }
            }
            if list.contains(a) && !removed.contains(a) {
                let j = choose|j: int| 0 <= j < list.len() && list[j] == a;
                if j < front.len() {
                    assert(front[j] == a);
                    assert(front.contains(a));
                    let i = choose|i: int| 0 <= i < before.len() && before[i] == a;
                    assert(result[i] == a);
                } else {
                    assert(result[before.len() as int] == a);
                }
            }
        }
        if list.no_duplicates() {
            assert(front.no_duplicates());
            if keep(last) {
                assert(!front.contains(last)) by {
                    if front.contains(last) {
                        let j = choose|j: int| 0 <= j < front.len() && front[j] == last;
                        assert(list[j] == list[list.len() - 1]);
                    }
                }
                assert(!before.contains(last));
            }
        }
    }
}

/// Removing identities of which none is on the list leaves the list as it is.
pub proof fn lemma_remove_absent_is_noop(list: Seq<Pubkey>, removed: Seq<Pubkey>)
    requires
        forall|i: int| 0 <= i < removed.len() ==> !list.contains(#[trigger] removed[i]),
    ensures
        without_addresses(list, removed) == list,
    decreases list.len(),
{
    let keep = |a: Pubkey| !removed.contains(a);
    if list.len() == 0 {
        list.lemma_filter_len(keep);
        assert(list.filter(keep) =~= list);
    } else {
        let front = list.drop_last();
        let last = list.last();
        assert forall|i: int| 0 <= i < removed.len() implies !front.contains(
            #[trigger] removed[i],
        ) by {
            if front.contains(removed[i]) {
                let j = choose|j: int| 0 <= j < front.len() && front[j] == removed[i];
                assert(list[j] == removed[i]);
            }
        }
        lemma_remove_absent_is_noop(front, removed);
        assert(list =~= front.push(last));
        front.lemma_filter_push(last, keep);
        assert(keep(last)) by {
            if removed.contains(last) {
                let i = choose|i: int| 0 <= i < removed.len() && removed[i] == last;
                assert(list[list.len() - 1] == removed[i]);
            }
        }
    }
}

} // verus!
