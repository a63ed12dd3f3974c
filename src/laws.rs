use vstd::prelude::*;
use crate::paste::{PasteDataCreator, PasteDataUpdater, PasteView, IcpPasteError, tokens, cleared_paste};
use crate::store::{StoreView, FOUR_HOUR_IN_SEC, MAX_RECENT_COUNT, short_url_length_ok};

verus! {

/// A paste that was just created can be read back at once by its id, at version one and
/// with the tags split from the requested text; a creation that fails changes nothing.
pub proof fn lemma_created_paste_is_readable(s: StoreView, caller: Seq<char>, info: PasteDataCreator)
    requires
        s.wf(),
    ensures
        match s.create_paste(caller, info) {
            (s2, Ok(p)) => {
                &&& s2.get_paste(p.id) == Ok::<PasteView, IcpPasteError>(p)
                &&& p.version == 1
                &&& p.tags == tokens(info.tags@)
            },
            (s2, Err(_)) => s2 == s,
        },
{
}

/// Once a creation has bound a short code, a second creation that asks for the same code
/// fails with `ShortUrlAlreadyExist`, changes nothing, and the code still leads to the
/// first paste.
pub proof fn lemma_short_code_is_bound_once(
    s: StoreView,
    caller1: Seq<char>,
    info1: PasteDataCreator,
    caller2: Seq<char>,
    info2: PasteDataCreator,
)
    requires
        s.wf(),
        info1.short_url is Some,
        info2.short_url is Some,
        info1.short_url->0@ == info2.short_url->0@,
    ensures
        match s.create_paste(caller1, info1) {
            (s1, Ok(p1)) => {
                let (s2, r2) = s1.create_paste(caller2, info2);
                &&& r2 == Err::<PasteView, IcpPasteError>(IcpPasteError::ShortUrlAlreadyExist)
                &&& s2 == s1
                &&& s2.resolve(info1.short_url->0@) == Ok::<PasteView, IcpPasteError>(p1)
            },
            _ => true,
        },
{
    let code = info1.short_url->0@;
    let (s1, r1) = s.create_paste(caller1, info1);
    if r1 is Ok {
        let n = s.links.len() as int;
        assert(s1.links[n].0 == code);
        assert(s1.has_link(code));
        let j = s1.link_index(code);
        if j != n {
            assert(s.links[j].0 == code);
            assert(s.has_link(code));
        }
    }
}

/// An update by a caller without a profile, of an id that names no paste, or of a paste
/// that the caller does not own fails and leaves the store, and so that paste, as it was.
pub proof fn lemma_rejected_update_changes_nothing(
    s: StoreView,
    caller: Seq<char>,
    id: u64,
    info: PasteDataUpdater,
)
    requires
        s.wf(),
        !s.has_profile(caller) || id >= s.pastes.len() || s.pastes[id as int].creator != Some(
            caller,
        ),
    ensures
        s.update_paste(caller, id, info).1 is Err,
        s.update_paste(caller, id, info).0 == s,
        s.update_paste(caller, id, info).0.get_paste(id) == s.get_paste(id),
{
}

/// A listing of recent pastes never holds more than ten; asked for at most ten and at most
/// as many as the store holds, it holds exactly that many, newest first.
pub proof fn lemma_recent_listing_is_capped(s: StoreView, n: u8)
    ensures
        s.recent(Some(n)).len() <= MAX_RECENT_COUNT,
        n <= MAX_RECENT_COUNT && n <= s.pastes.len() ==> {
            &&& s.recent(Some(n)).len() == n
            &&& forall|i: int|
                0 <= i < n ==> #[trigger] s.recent(Some(n))[i] == s.pastes[s.pastes.len() - 1 - i]
        },
{
}

/// A paste created by a caller without a profile is anonymous and lives four hours,
/// whatever time to live was asked for; only the short code can refuse such a creation.
pub proof fn lemma_anonymous_ttl_is_fixed(s: StoreView, caller: Seq<char>, info: PasteDataCreator)
    requires
        s.wf(),
        !s.has_profile(caller),
    ensures
        match s.create_paste(caller, info) {
            (_, Ok(p)) => p.expire_date == FOUR_HOUR_IN_SEC && p.creator is None,
            (_, Err(e)) => e == IcpPasteError::ShortUrlShouldBeBetween4And10 || e
                == IcpPasteError::ShortUrlAlreadyExist,
        },
        short_url_length_ok(info.short_url) && !(info.short_url is Some && s.has_link(
            info.short_url->0@,
        )) ==> s.create_paste(caller, info).1 is Ok,
{
}

/// Expiry tombstones what a paste holds when it fires, edits included: the name, content
/// and tags go, while its id, owner, version, the profiles and every short code stay.
pub proof fn lemma_expiry_reads_current_state(s: StoreView, id: u64, code: Seq<char>)
    requires
        s.wf(),
        id < s.pastes.len(),
    ensures
        s.expire(id).get_paste(id) == Ok::<PasteView, IcpPasteError>(cleared_paste(s.pastes[id as int])),
        s.expire(id).pastes[id as int].id == s.pastes[id as int].id,
        s.expire(id).pastes[id as int].creator == s.pastes[id as int].creator,
        s.expire(id).pastes[id as int].version == s.pastes[id as int].version,
        s.expire(id).profiles == s.profiles,
        s.expire(id).link(code) == s.link(code),
        s.expire(id).resolve(code) is Ok <==> s.resolve(code) is Ok,
{
}

/// The store's indexes never dangle: listing a profile's pastes succeeds, each listed paste
/// is owned by that profile, and a bound short code always resolves to its paste.
pub proof fn lemma_indexes_resolve(s: StoreView, owner: Seq<char>, code: Seq<char>)
    requires
        s.wf(),
    ensures
        s.has_profile(owner) ==> s.pastes_of(owner) is Ok,
        s.has_profile(owner) ==> forall|k: int|
            0 <= k < s.pastes_of(owner)->Ok_0.len() ==> (#[trigger] s.pastes_of(owner)->Ok_0[k]).creator
                == Some(owner),
        s.has_link(code) ==> s.resolve(code) == s.get_paste(s.link(code)->0) && s.resolve(
            code,
        ) is Ok,
{
    if s.has_profile(owner) {
        let i = s.profile_index(owner);
        let p = s.profiles[i];
        assert forall|k: int| 0 <= k < p.paste_indexs.len() implies #[trigger] p.paste_indexs[k]
            < s.pastes.len() by {
            assert(s.profiles[i].paste_indexs[k] < s.pastes.len());
        }
        assert forall|k: int| 0 <= k < p.paste_indexs.len() implies (
        #[trigger] s.pastes_at(p.paste_indexs)[k]).creator == Some(owner) by {
            assert(s.profiles[i].paste_indexs[k] < s.pastes.len());
        }
    }
    if s.has_link(code) {
        let j = s.link_index(code);
        assert(s.links[j].1 < s.pastes.len());
    }
}

} // verus!
