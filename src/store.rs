use vstd::prelude::*;
use vstd::string::StringExecFns;
use crate::paste::{
    PasteData, PasteDataCreator, PasteDataUpdater, PasteView, IcpPasteError, created_paste,
    updated_paste, cleared_paste, extension_of, string_views, _get_file_extension,
};
use crate::user::{
    UserProfile, UserProfileCreator, UserProfileUpdater, ProfileView, IcpUserError,
    created_profile, updated_profile,
};

verus! {

/// Longest time to live that an identified user may ask for: one year.
pub const SECOND_IN_YEAR: u32 = 31536000;

/// Time to live of every paste created anonymously.
pub const FOUR_HOUR_IN_SEC: u32 = 4 * 60 * 60;

pub const MIN_SHORT_SIZE: usize = 4;

pub const MAX_SHORT_SIZE: usize = 10;

/// Shortest time to live that an identified user may ask for.
pub const MIN_EXPIRE_TIME: u32 = 30;

/// Most pastes that one listing of recent pastes returns.
pub const MAX_RECENT_COUNT: u8 = 10;

/// The mathematical value of the store: profiles, pastes in order of creation, and
/// short codes with the paste each one names.
pub struct StoreView {
    pub profiles: Seq<ProfileView>,
    pub pastes: Seq<PasteView>,
    pub links: Seq<(Seq<char>, u64)>,
}

pub open spec fn paste_views(v: Seq<PasteData>) -> Seq<PasteView> {
    v.map_values(|p: PasteData| p@)
}

pub open spec fn paste_result(r: Result<PasteData, IcpPasteError>) -> Result<
    PasteView,
    IcpPasteError,
> {
    match r {
        Ok(p) => Ok(p@),
        Err(e) => Err(e),
    }
}

pub open spec fn paste_list_result(r: Result<Vec<PasteData>, IcpPasteError>) -> Result<
    Seq<PasteView>,
    IcpPasteError,
> {
    match r {
        Ok(v) => Ok(paste_views(v@)),
        Err(e) => Err(e),
    }
}

pub open spec fn profile_result(r: Result<UserProfile, IcpUserError>) -> Result<
    ProfileView,
    IcpUserError,
> {
    match r {
        Ok(p) => Ok(p@),
        Err(e) => Err(e),
    }
}

/// How many pastes a listing of recent pastes asks for: ten by default, never more.
pub open spec fn recent_count(count: Option<u8>) -> nat {
    match count {
        Some(n) => if n > MAX_RECENT_COUNT {
            MAX_RECENT_COUNT as nat
        } else {
            n as nat
        },
        None => MAX_RECENT_COUNT as nat,
    }
}

/// Whether a requested short code has an accepted length.
pub open spec fn short_url_length_ok(code: Option<String>) -> bool {
    match code {
        Some(c) => MIN_SHORT_SIZE <= c@.len() <= MAX_SHORT_SIZE,
        None => true,
    }
}

pub open spec fn expire_date_ok(seconds: u32) -> bool {
    MIN_EXPIRE_TIME <= seconds <= SECOND_IN_YEAR
}

pub open spec fn has_tag_pred(tag: Seq<char>) -> spec_fn(PasteView) -> bool {
    |p: PasteView| p.tags.contains(tag)
}

pub open spec fn has_extension_pred(ext: Seq<char>) -> spec_fn(PasteView) -> bool {
    |p: PasteView| extension_of(p.name) == Some(ext)
}

pub open spec fn has_name_pred(name: Seq<char>) -> spec_fn(PasteView) -> bool {
    |p: PasteView| p.name == name
}

/// Whose pastes to list: the named user, else the caller.
pub open spec fn owner_of(user: Option<String>, caller: Seq<char>) -> Seq<char> {
    match user {
        Some(u) => u@,
        None => caller,
    }
}

proof fn lemma_filter_step(s: Seq<PasteView>, pred: spec_fn(PasteView) -> bool, i: int)
    requires
        0 <= i < s.len(),
    ensures
        s.take(i + 1).filter(pred) == if pred(s[i]) {
            s.take(i).filter(pred).push(s[i])
        } else {
            s.take(i).filter(pred)
        },
{
    reveal(Seq::filter);
    assert(s.take(i + 1).drop_last() =~= s.take(i));
}

fn has_tag(tags: &Vec<String>, tag: &String) -> (r: bool)
    ensures
        r == string_views(tags@).contains(tag@),
{
    let mut i: usize = 0;
    while i < tags.len()
        invariant
            i <= tags@.len(),
            forall|j: int| 0 <= j < i ==> #[trigger] tags@[j]@ != tag@,
        decreases tags@.len() - i,
    {
        if tags[i].eq(tag) {
            proof {
                assert(string_views(tags@)[i as int] == tag@);
            }
            return true;
        }
        i = i + 1;
    }
    proof {
        assert forall|j: int| 0 <= j < string_views(tags@).len() implies #[trigger] string_views(
            tags@,
        )[j] != tag@ by {
            assert(tags@[j]@ != tag@);
        }
    }
    false
}

impl StoreView {
    pub open spec fn has_profile(self, id: Seq<char>) -> bool {
        exists|i: int| 0 <= i < self.profiles.len() && #[trigger] self.profiles[i].id == id
    }

    pub open spec fn profile_index(self, id: Seq<char>) -> int {
        choose|i: int| 0 <= i < self.profiles.len() && #[trigger] self.profiles[i].id == id
    }

    pub open spec fn profile(self, id: Seq<char>) -> Option<ProfileView> {
        if self.has_profile(id) {
            Some(self.profiles[self.profile_index(id)])
        } else {
            None
        }
    }

    pub open spec fn has_link(self, code: Seq<char>) -> bool {
        exists|i: int| 0 <= i < self.links.len() && #[trigger] self.links[i].0 == code
    }

    pub open spec fn link_index(self, code: Seq<char>) -> int {
        choose|i: int| 0 <= i < self.links.len() && #[trigger] self.links[i].0 == code
    }

    /// The paste id a short code is bound to.
    pub open spec fn link(self, code: Seq<char>) -> Option<u64> {
        if self.has_link(code) {
            Some(self.links[self.link_index(code)].1)
        } else {
            None
        }
    }

    /// Ids are positions; identities and short codes are unique; every owned id and
    /// every short code names an existing paste, and an owned one is the owner's.
    pub open spec fn wf(self) -> bool {
        &&& self.pastes.len() <= u64::MAX
        &&& forall|i: int| 0 <= i < self.pastes.len() ==> #[trigger] self.pastes[i].id == i
        &&& forall|i: int, j: int|
            0 <= i < self.profiles.len() && 0 <= j < self.profiles.len() && i != j
                ==> #[trigger] self.profiles[i].id != #[trigger] self.profiles[j].id
        &&& forall|i: int, k: int|
            0 <= i < self.profiles.len() && 0 <= k < self.profiles[i].paste_indexs.len() ==> {
                let id = #[trigger] self.profiles[i].paste_indexs[k];
                &&& id < self.pastes.len()
                &&& self.pastes[id as int].creator == Some(self.profiles[i].id)
            }
        &&& forall|i: int, j: int|
            0 <= i < self.links.len() && 0 <= j < self.links.len() && i != j
                ==> #[trigger] self.links[i].0 != #[trigger] self.links[j].0
        &&& forall|i: int| 0 <= i < self.links.len() ==> #[trigger] self.links[i].1 < self.pastes.len()
    }

    pub open spec fn get_paste(self, id: u64) -> Result<PasteView, IcpPasteError> {
        if id < self.pastes.len() {
            Ok(self.pastes[id as int])
        } else {
            Err(IcpPasteError::PasteNotFound)
        }
    }

    /// The pastes a profile lists as its own, in its order; an error where the profile
    /// does not exist or lists an id that names no paste.
    pub open spec fn pastes_of(self, owner: Seq<char>) -> Result<Seq<PasteView>, IcpPasteError> {
        match self.profile(owner) {
            Some(p) => if forall|k: int|
                0 <= k < p.paste_indexs.len() ==> #[trigger] p.paste_indexs[k] < self.pastes.len() {
                Ok(self.pastes_at(p.paste_indexs))
            } else {
                Err(IcpPasteError::PasteNotFound)
            },
            None => Err(IcpPasteError::PasteNotFound),
        }
    }

    /// The newest pastes, newest first.
    pub open spec fn recent(self, count: Option<u8>) -> Seq<PasteView> {
        let n = if recent_count(count) < self.pastes.len() {
            recent_count(count)
        } else {
            self.pastes.len()
        };
        Seq::new(n, |i: int| self.pastes[self.pastes.len() - 1 - i])
    }

    pub open spec fn with_tag(self, tag: Seq<char>) -> Seq<PasteView> {
        self.pastes.filter(has_tag_pred(tag))
    }

    pub open spec fn with_extension(self, ext: Seq<char>) -> Seq<PasteView> {
        self.pastes.filter(has_extension_pred(ext))
    }

    pub open spec fn with_name(self, name: Seq<char>) -> Seq<PasteView> {
        self.pastes.filter(has_name_pred(name))
    }

    /// The pastes that a list of ids names, in its order.
    pub open spec fn pastes_at(self, ids: Seq<u64>) -> Seq<PasteView> {
        ids.map_values(|id: u64| self.pastes[id as int])
    }

    pub open spec fn resolve(self, code: Seq<char>) -> Result<PasteView, IcpPasteError> {
        match self.link(code) {
            Some(id) => self.get_paste(id),
            None => Err(IcpPasteError::PasteNotFound),
        }
    }

    pub open spec fn create_profile(self, caller: Seq<char>, info: UserProfileCreator) -> (
        StoreView,
        Result<ProfileView, IcpUserError>,
    ) {
        if self.has_profile(caller) {
            (self, Err(IcpUserError::UserAlreadyExist))
        } else {
            let p = created_profile(caller, info);
            (StoreView { profiles: self.profiles.push(p), ..self }, Ok(p))
        }
    }

    pub open spec fn update_profile(self, caller: Seq<char>, info: UserProfileUpdater) -> (
        StoreView,
        Result<ProfileView, IcpUserError>,
    ) {
        if self.has_profile(caller) {
            let i = self.profile_index(caller);
            let p = updated_profile(self.profiles[i], info);
            (StoreView { profiles: self.profiles.update(i, p), ..self }, Ok(p))
        } else {
            (self, Err(IcpUserError::UserNotFound))
        }
    }

    /// The time to live a new paste gets: anonymous pastes always get four hours.
    pub open spec fn ttl_for(self, caller: Seq<char>, requested: u32) -> u32 {
        if self.has_profile(caller) {
            requested
        } else {
            FOUR_HOUR_IN_SEC
        }
    }

    /// Creating a paste: the short code is checked for length and then for being free,
    /// the time to live of an identified caller for its range; then the paste gets the
    /// next id, the short code is bound to it, and the caller's profile lists it.
    pub open spec fn create_paste(self, caller: Seq<char>, info: PasteDataCreator) -> (
        StoreView,
        Result<PasteView, IcpPasteError>,
    ) {
        if !short_url_length_ok(info.short_url) {
            (self, Err(IcpPasteError::ShortUrlShouldBeBetween4And10))
        } else if info.short_url is Some && self.has_link(info.short_url->0@) {
            (self, Err(IcpPasteError::ShortUrlAlreadyExist))
        } else if self.has_profile(caller) && !expire_date_ok(info.expire_date) {
            (self, Err(IcpPasteError::WrongExpireDate))
        } else {
            let id = self.pastes.len() as u64;
            let owner = if self.has_profile(caller) {
                Some(caller)
            } else {
                None
            };
            let p = PasteView {
                expire_date: self.ttl_for(caller, info.expire_date),
                ..created_paste(id, owner, info)
            };
            let links = match info.short_url {
                Some(c) => self.links.push((c@, id)),
                None => self.links,
            };
            let profiles = if self.has_profile(caller) {
                let i = self.profile_index(caller);
                self.profiles.update(
                    i,
                    ProfileView {
                        paste_indexs: self.profiles[i].paste_indexs.push(id),
                        ..self.profiles[i]
                    },
                )
            } else {
                self.profiles
            };
            (StoreView { profiles, pastes: self.pastes.push(p), links }, Ok(p))
        }
    }

    /// Updating a paste: only an identified caller, only an existing paste, only its owner.
    pub open spec fn update_paste(self, caller: Seq<char>, id: u64, info: PasteDataUpdater) -> (
        StoreView,
        Result<PasteView, IcpPasteError>,
    ) {
        if !self.has_profile(caller) {
            (self, Err(IcpPasteError::PasteIsNotAccessable))
        } else if id >= self.pastes.len() {
            (self, Err(IcpPasteError::PasteNotFound))
        } else if self.pastes[id as int].creator != Some(caller) {
            (self, Err(IcpPasteError::PasteIsNotAccessable))
        } else {
            let q = updated_paste(self.pastes[id as int], info);
            (StoreView { pastes: self.pastes.update(id as int, q), ..self }, Ok(q))
        }
    }

    /// Expiry of a paste: whatever it holds at that moment is tombstoned.
    pub open spec fn expire(self, id: u64) -> StoreView {
        if id < self.pastes.len() {
            StoreView {
                pastes: self.pastes.update(id as int, cleared_paste(self.pastes[id as int])),
                ..self
            }
        } else {
            self
        }
    }
}

/// Profiles, pastes and short codes of one instance.
pub struct PasteStore {
    users: Vec<UserProfile>,
    pastes: Vec<PasteData>,
    short_urls: Vec<(String, u64)>,
}

impl View for PasteStore {
    type V = StoreView;

    closed spec fn view(&self) -> StoreView {
        StoreView {
            profiles: self.users@.map_values(|u: UserProfile| u@),
            pastes: paste_views(self.pastes@),
            links: self.short_urls@.map_values(|l: (String, u64)| (l.0@, l.1)),
        }
    }
}

impl PasteStore {
    pub fn new() -> (r: Self)
        ensures
            r@.wf(),
            r@.profiles.len() == 0,
            r@.pastes.len() == 0,
            r@.links.len() == 0,
    {
        PasteStore { users: Vec::new(), pastes: Vec::new(), short_urls: Vec::new() }
    }

    fn find_user(&self, id: &String) -> (r: Option<usize>)
        requires
            self@.wf(),
        ensures
            match r {
                Some(i) => self@.has_profile(id@) && i == self@.profile_index(id@) && i
                    < self.users@.len(),
                None => !self@.has_profile(id@),
            },
    {
        let mut i: usize = 0;
        while i < self.users.len()
            invariant
                self@.wf(),
                i <= self.users@.len(),
                forall|j: int| 0 <= j < i ==> #[trigger] self@.profiles[j].id != id@,
            decreases self.users@.len() - i,
        {
            if self.users[i].id.eq(id) {
                proof {
                    assert(self@.profiles[i as int].id == id@);
                    assert(self@.has_profile(id@));
                    let j = self@.profile_index(id@);
                    assert(self@.profiles[j].id == id@);
                }
                return Some(i);
            }
            i = i + 1;
        }
        None
    }

    fn find_link(&self, code: &String) -> (r: Option<usize>)
        requires
            self@.wf(),
        ensures
            match r {
                Some(i) => self@.has_link(code@) && i == self@.link_index(code@) && i
                    < self.short_urls@.len(),
                None => !self@.has_link(code@),
            },
    {
        let mut i: usize = 0;
        while i < self.short_urls.len()
            invariant
                self@.wf(),
                i <= self.short_urls@.len(),
                forall|j: int| 0 <= j < i ==> #[trigger] self@.links[j].0 != code@,
            decreases self.short_urls@.len() - i,
        {
            if self.short_urls[i].0.eq(code) {
                proof {
                    assert(self@.links[i as int].0 == code@);
                    assert(self@.has_link(code@));
                    let j = self@.link_index(code@);
                    assert(self@.links[j].0 == code@);
                }
                return Some(i);
            }
            i = i + 1;
        }
        None
    }

    /// Whether a short code is already bound to a paste.
    pub fn _is_short_url_exist(&self, short_url: &String) -> (r: bool)
        requires
            self@.wf(),
        ensures
            r == self@.has_link(short_url@),
    {
        self.find_link(short_url).is_some()
    }

    /// The caller's own profile.
    pub fn get_self_info(&self, caller: &String) -> (r: Result<UserProfile, IcpUserError>)
        requires
            self@.wf(),
        ensures
            profile_result(r) == match self@.profile(caller@) {
                Some(p) => Ok(p),
                None => Err(IcpUserError::UserNotFound),
            },
    {
        match self.find_user(caller) {
            Some(i) => Ok(self.users[i].clone()),
            None => Err(IcpUserError::UserNotFound),
        }
    }

    /// Creates a profile for the caller, who must not have one yet.
    pub fn create_new_profile(&mut self, caller: &String, value: UserProfileCreator) -> (r: Result<
        UserProfile,
        IcpUserError,
    >)
        requires
            old(self)@.wf(),
        ensures
            final(self)@.wf(),
            (final(self)@, profile_result(r)) == old(self)@.create_profile(caller@, value),
    {
        if self.find_user(caller).is_some() {
            return Err(IcpUserError::UserAlreadyExist);
        }
        let new_profile = UserProfile::create(caller.clone(), value);
        let result = new_profile.clone();
        let ghost old_users = self.users@;
        self.users.push(new_profile);
        proof {
            assert(self.users@.map_values(|u: UserProfile| u@) =~= old_users.map_values(
                |u: UserProfile| u@,
            ).push(result@));
            let s0 = old(self)@;
            let s1 = self@;
            assert(s1.links == s0.links);
            assert(s1.pastes == s0.pastes);
            assert forall|i: int, j: int|
                0 <= i < s1.profiles.len() && 0 <= j < s1.profiles.len() && i != j implies
                #[trigger] s1.profiles[i].id != #[trigger] s1.profiles[j].id by {
                if i < s0.profiles.len() && j < s0.profiles.len() {
                    assert(s0.profiles[i].id != s0.profiles[j].id);
                } else if i < s0.profiles.len() {
                    assert(s0.profiles[i].id != caller@);
                } else {
                    assert(s0.profiles[j].id != caller@);
                }
            }
        }
        Ok(result)
    }

    /// Changes the fields of the caller's profile that the update holds.
    pub fn update_user_profile(&mut self, caller: &String, value: UserProfileUpdater) -> (r: Result<
        UserProfile,
        IcpUserError,
    >)
        requires
            old(self)@.wf(),
        ensures
            final(self)@.wf(),
            (final(self)@, profile_result(r)) == old(self)@.update_profile(caller@, value),
    {
        match self.find_user(caller) {
            Some(i) => {
                let ghost old_users = self.users@;
                self.users[i].update(value);
                proof {
                    assert(self.users@.map_values(|u: UserProfile| u@) =~= old_users.map_values(
                        |u: UserProfile| u@,
                    ).update(i as int, self.users@[i as int]@));
                }
                Ok(self.users[i].clone())
            },
            None => Err(IcpUserError::UserNotFound),
        }
    }

    /// Creates a paste; the caller owns it when the caller has a profile.
    pub fn create_new_paste(&mut self, caller: &String, value: PasteDataCreator) -> (r: Result<
        PasteData,
        IcpPasteError,
    >)
        requires
            old(self)@.wf(),
        ensures
            final(self)@.wf(),
            (final(self)@, paste_result(r)) == old(self)@.create_paste(caller@, value),
    {
        let ghost s0 = self@;
        let length_ok = match &value.short_url {
            Some(c) => {
                let n = c.as_str().unicode_len();
                MIN_SHORT_SIZE <= n && n <= MAX_SHORT_SIZE
            },
            None => true,
        };
        if !length_ok {
            return Err(IcpPasteError::ShortUrlShouldBeBetween4And10);
        }
        if let Some(c) = &value.short_url {
            if self._is_short_url_exist(c) {
                return Err(IcpPasteError::ShortUrlAlreadyExist);
            }
        }
        let user = self.find_user(caller);
        // anonymous pastes live four hours whatever was asked
        let expire_time: u32 = match user {
            Some(_) => {
                if value.expire_date < MIN_EXPIRE_TIME || value.expire_date > SECOND_IN_YEAR {
                    return Err(IcpPasteError::WrongExpireDate);
                }
                value.expire_date
            },
            None => FOUR_HOUR_IN_SEC,
        };
        let id = self.pastes.len() as u64;
        let user_id = match user {
            Some(i) => Some(self.users[i].id.clone()),
            None => None,
        };
        let short_url = value.short_url;
        let new_paste = PasteData::create(
            id,
            user_id,
            PasteDataCreator {
                short_url: None,
                name: value.name,
                description: value.description,
                content: value.content,
                expire_date: expire_time,
                tags: value.tags,
            },
        );
        let result = new_paste.clone();
        let ghost links0 = self.short_urls@;
        let ghost pastes0 = self.pastes@;
        let ghost users0 = self.users@;
        match short_url {
            Some(c) => {
                self.short_urls.push((c, id));
            },
            None => {},
        }
        self.pastes.push(new_paste);
        match user {
            Some(i) => {
                self.users[i].add_new_paste(id);
            },
            None => {},
        }
        proof {
            assert(self.pastes@.len() == self.pastes.len() as int);
            let (s1, r1) = s0.create_paste(caller@, value);
            assert(r1 == Ok::<PasteView, IcpPasteError>(result@));
            assert(paste_views(self.pastes@) =~= paste_views(pastes0).push(result@));
            assert(self@.pastes == s1.pastes);
            assert(self@.links =~= s1.links);
            assert(self@.profiles =~= s1.profiles);
        }
        Ok(result)
    }

    /// Applies a partial update to a paste that the caller owns.
    pub fn update_paste(&mut self, caller: &String, paste_id: u64, value: PasteDataUpdater) -> (r:
        Result<PasteData, IcpPasteError>)
        requires
            old(self)@.wf(),
        ensures
            final(self)@.wf(),
            (final(self)@, paste_result(r)) == old(self)@.update_paste(caller@, paste_id, value),
    {
        if self.find_user(caller).is_none() {
            return Err(IcpPasteError::PasteIsNotAccessable);
        }
        if paste_id >= self.pastes.len() as u64 {
            return Err(IcpPasteError::PasteNotFound);
        }
        let idx = paste_id as usize;
        let is_owner = match &self.pastes[idx].creator {
            Some(c) => c.eq(caller),
            None => false,
        };
        if !is_owner {
            return Err(IcpPasteError::PasteIsNotAccessable);
        }
        let ghost pastes0 = self.pastes@;
        self.pastes[idx].update(value);
        proof {
            assert(paste_views(self.pastes@) =~= paste_views(pastes0).update(
                idx as int,
                self.pastes@[idx as int]@,
            ));
        }
        Ok(self.pastes[idx].clone())
    }

    /// Tombstones whatever a paste holds now; an unknown id changes nothing.
    pub fn expire_paste(&mut self, paste_id: u64)
        requires
            old(self)@.wf(),
        ensures
            final(self)@.wf(),
            final(self)@ == old(self)@.expire(paste_id),
    {
        if paste_id < self.pastes.len() as u64 {
            let idx = paste_id as usize;
            let ghost pastes0 = self.pastes@;
            self.pastes[idx].clear();
            proof {
                assert(paste_views(self.pastes@) =~= paste_views(pastes0).update(
                    idx as int,
                    self.pastes@[idx as int]@,
                ));
                let s0 = old(self)@;
                let s1 = self@;
                assert(s1.links == s0.links);
                assert(s1.profiles == s0.profiles);
                assert(s1.pastes.len() == s0.pastes.len());
                assert forall|i: int| 0 <= i < s1.pastes.len() implies #[trigger] s1.pastes[i].id
                    == i by {
                    assert(s0.pastes[i].id == i);
                }
                assert forall|i: int, k: int|
                    0 <= i < s1.profiles.len() && 0 <= k < s1.profiles[i].paste_indexs.len()
                        implies {
                    let id = #[trigger] s1.profiles[i].paste_indexs[k];
                    &&& id < s1.pastes.len()
                    &&& s1.pastes[id as int].creator == Some(s1.profiles[i].id)
                } by {
                    let id = s0.profiles[i].paste_indexs[k];
                    assert(s0.pastes[id as int].creator == Some(s0.profiles[i].id));
                }
            }
        }
    }

    pub fn get_paste_by_index(&self, index: u64) -> (r: Result<PasteData, IcpPasteError>)
        requires
            self@.wf(),
        ensures
            paste_result(r) == self@.get_paste(index),
    {
        if index < self.pastes.len() as u64 {
            Ok(self.pastes[index as usize].clone())
        } else {
            Err(IcpPasteError::PasteNotFound)
        }
    }

    /// The pastes with the given ids, or nothing if one of them does not exist.
    fn _get_pastes_from_vec(&self, ids: &Vec<u64>) -> (r: Option<Vec<PasteData>>)
        requires
            self@.wf(),
        ensures
            match r {
                Some(v) => (forall|k: int| 0 <= k < ids@.len() ==> #[trigger] ids@[k] < self@.pastes.len())
                    && paste_views(v@) == self@.pastes_at(ids@),
                None => !(forall|k: int|
                    0 <= k < ids@.len() ==> #[trigger] ids@[k] < self@.pastes.len()),
            },
    {
        let mut pastes: Vec<PasteData> = Vec::new();
        let mut i: usize = 0;
        while i < ids.len()
            invariant
                self@.wf(),
                i <= ids@.len(),
                forall|k: int| 0 <= k < i ==> #[trigger] ids@[k] < self@.pastes.len(),
                paste_views(pastes@) == self@.pastes_at(ids@.take(i as int)),
            decreases ids@.len() - i,
        {
            let id = ids[i];
            if id >= self.pastes.len() as u64 {
                return None;
            }
            let p = self.pastes[id as usize].clone();
            proof {
                assert(paste_views(pastes@.push(p)) =~= paste_views(pastes@).push(p@));
                assert(self@.pastes_at(ids@.take(i + 1)) =~= self@.pastes_at(ids@.take(i as int)).push(
                    self@.pastes[id as int],
                ));
            }
            pastes.push(p);
            i = i + 1;
        }
        proof {
            assert(ids@.take(ids@.len() as int) =~= ids@);
        }
        Some(pastes)
    }

    /// The pastes of the named user, or of the caller where none is named; all of them or
    /// an error.
    pub fn get_paste_by_user(&self, caller: &String, user: Option<String>) -> (r: Result<
        Vec<PasteData>,
        IcpPasteError,
    >)
        requires
            self@.wf(),
        ensures
            paste_list_result(r) == self@.pastes_of(owner_of(user, caller@)),
    {
        let owner = match user {
            Some(u) => u,
            None => caller.clone(),
        };
        match self.find_user(&owner) {
            Some(i) => match self._get_pastes_from_vec(&self.users[i].paste_indexs) {
                Some(v) => Ok(v),
                None => Err(IcpPasteError::PasteNotFound),
            },
            None => Err(IcpPasteError::PasteNotFound),
        }
    }

    /// Up to `count` (ten by default, never more than ten) pastes, newest first.
    pub fn get_last_n_paste(&self, count: Option<u8>) -> (r: Vec<PasteData>)
        requires
            self@.wf(),
        ensures
            paste_views(r@) == self@.recent(count),
    {
        let cap: usize = match count {
            Some(n) => if n > MAX_RECENT_COUNT {
                MAX_RECENT_COUNT as usize
            } else {
                n as usize
            },
            None => MAX_RECENT_COUNT as usize,
        };
        let len = self.pastes.len();
        let mut pastes: Vec<PasteData> = Vec::new();
        let mut i: usize = 0;
        while i < cap && i < len
            invariant
                i <= cap,
                i <= len,
                len == self@.pastes.len(),
                cap == recent_count(count),
                paste_views(pastes@) =~= Seq::new(i as nat, |j: int| self@.pastes[len - 1 - j]),
            decreases len - i,
        {
            let p = self.pastes[len - 1 - i].clone();
            proof {
                assert(paste_views(pastes@.push(p)) =~= paste_views(pastes@).push(p@));
            }
            pastes.push(p);
            i = i + 1;
        }
        proof {
            assert(self@.recent(count) =~= Seq::new(i as nat, |j: int| self@.pastes[len - 1 - j]));
        }
        pastes
    }

    /// Every paste that carries the tag, oldest first.
    pub fn find_paste_by_tag(&self, tag: &String) -> (r: Vec<PasteData>)
        requires
            self@.wf(),
        ensures
            paste_views(r@) == self@.with_tag(tag@),
    {
        let mut pastes: Vec<PasteData> = Vec::new();
        let mut i: usize = 0;
        while i < self.pastes.len()
            invariant
                i <= self@.pastes.len(),
                paste_views(pastes@) == self@.pastes.take(i as int).filter(has_tag_pred(tag@)),
            decreases self@.pastes.len() - i,
        {
            proof {
                lemma_filter_step(self@.pastes, has_tag_pred(tag@), i as int);
            }
            if has_tag(&self.pastes[i].tags, tag) {
                let p = self.pastes[i].clone();
                proof {
                    assert(paste_views(pastes@.push(p)) =~= paste_views(pastes@).push(p@));
                }
                pastes.push(p);
            }
            i = i + 1;
        }
        proof {
            assert(self@.pastes.take(i as int) =~= self@.pastes);
        }
        pastes
    }

    /// Every paste whose name has the given extension, oldest first.
    pub fn find_paste_by_extension(&self, extension: &String) -> (r: Vec<PasteData>)
        requires
            self@.wf(),
        ensures
            paste_views(r@) == self@.with_extension(extension@),
    {
        let mut pastes: Vec<PasteData> = Vec::new();
        let mut i: usize = 0;
        while i < self.pastes.len()
            invariant
                i <= self@.pastes.len(),
                paste_views(pastes@) == self@.pastes.take(i as int).filter(
                    has_extension_pred(extension@),
                ),
            decreases self@.pastes.len() - i,
        {
            proof {
                lemma_filter_step(self@.pastes, has_extension_pred(extension@), i as int);
            }
            let matches = match _get_file_extension(self.pastes[i].name.as_str()) {
                Some(e) => String::from_str(e).eq(extension),
                None => false,
            };
            if matches {
                let p = self.pastes[i].clone();
                proof {
                    assert(paste_views(pastes@.push(p)) =~= paste_views(pastes@).push(p@));
                }
                pastes.push(p);
            }
            i = i + 1;
        }
        proof {
            assert(self@.pastes.take(i as int) =~= self@.pastes);
        }
        pastes
    }

    /// Every paste with exactly the given name, oldest first.
    pub fn find_paste_by_name(&self, name: &String) -> (r: Vec<PasteData>)
        requires
            self@.wf(),
        ensures
            paste_views(r@) == self@.with_name(name@),
    {
        let mut pastes: Vec<PasteData> = Vec::new();
        let mut i: usize = 0;
        while i < self.pastes.len()
            invariant
                i <= self@.pastes.len(),
                paste_views(pastes@) == self@.pastes.take(i as int).filter(has_name_pred(name@)),
            decreases self@.pastes.len() - i,
        {
            proof {
                lemma_filter_step(self@.pastes, has_name_pred(name@), i as int);
            }
            if self.pastes[i].name.eq(name) {
                let p = self.pastes[i].clone();
                proof {
                    assert(paste_views(pastes@.push(p)) =~= paste_views(pastes@).push(p@));
                }
                pastes.push(p);
            }
            i = i + 1;
        }
        proof {
            assert(self@.pastes.take(i as int) =~= self@.pastes);
        }
        pastes
    }

    /// The paste a short code is bound to.
    pub fn find_paste_by_short_url(&self, short_url: &String) -> (r: Result<
        PasteData,
        IcpPasteError,
    >)
        requires
            self@.wf(),
        ensures
            paste_result(r) == self@.resolve(short_url@),
    {
        match self.find_link(short_url) {
            Some(i) => self.get_paste_by_index(self.short_urls[i].1),
            None => Err(IcpPasteError::PasteNotFound),
        }
    }
}

} // verus!
