use vstd::prelude::*;

verus! {

/// Upper bound, in bytes, on the encoded form of one profile record.
pub const MAX_USER_VALUE_SIZE: u32 = 1024;

/// A user's profile.
pub struct UserProfile {
    /// Text form of the owner's identity.
    pub id: String,
    pub name: String,
    /// Link to the profile's image.
    pub gravatar: String,
    /// Free text about the user.
    pub bio: String,
    /// Ids of the pastes this user created, oldest first.
    pub paste_indexs: Vec<u64>,
}

/// The fields of a new profile.
pub struct UserProfileCreator {
    pub name: String,
    pub gravatar: String,
    pub bio: String,
}

/// A partial update of a profile: only the fields that are present change.
pub struct UserProfileUpdater {
    pub name: Option<String>,
    pub gravatar: Option<String>,
    pub bio: Option<String>,
}

#[derive(Debug, PartialEq, Eq, Structural, Clone, Copy)]
pub enum IcpUserError {
    UserAlreadyExist,
    UserNotFound,
}

/// The mathematical value of a profile.
pub struct ProfileView {
    pub id: Seq<char>,
    pub name: Seq<char>,
    pub gravatar: Seq<char>,
    pub bio: Seq<char>,
    pub paste_indexs: Seq<u64>,
}

impl View for UserProfile {
    type V = ProfileView;

    open spec fn view(&self) -> ProfileView {
        ProfileView {
            id: self.id@,
            name: self.name@,
            gravatar: self.gravatar@,
            bio: self.bio@,
            paste_indexs: self.paste_indexs@,
        }
    }
}

/// A new profile: the given fields, and no pastes yet.
pub open spec fn created_profile(id: Seq<char>, info: UserProfileCreator) -> ProfileView {
    ProfileView {
        id,
        name: info.name@,
        gravatar: info.gravatar@,
        bio: info.bio@,
        paste_indexs: Seq::empty(),
    }
}

/// A profile after a partial update: the given fields replaced, the rest kept.
pub open spec fn updated_profile(p: ProfileView, info: UserProfileUpdater) -> ProfileView {
    ProfileView {
        id: p.id,
        name: match info.name {
            Some(v) => v@,
            None => p.name,
        },
        gravatar: match info.gravatar {
            Some(v) => v@,
            None => p.gravatar,
        },
        bio: match info.bio {
            Some(v) => v@,
            None => p.bio,
        },
        paste_indexs: p.paste_indexs,
    }
}

impl Clone for UserProfile {
    fn clone(&self) -> (r: Self)
        ensures
            r@ == self@,
    {
        let mut ids: Vec<u64> = Vec::new();
        let mut i: usize = 0;
        while i < self.paste_indexs.len()
            invariant
                i <= self.paste_indexs@.len(),
                ids@ == self.paste_indexs@.take(i as int),
            decreases self.paste_indexs@.len() - i,
        {
            ids.push(self.paste_indexs[i]);
            proof {
                assert(ids@ =~= self.paste_indexs@.take(i + 1));
            }
            i = i + 1;
        }
        proof {
            assert(ids@ =~= self.paste_indexs@);
        }
        UserProfile {
            id: self.id.clone(),
            name: self.name.clone(),
            gravatar: self.gravatar.clone(),
            bio: self.bio.clone(),
            paste_indexs: ids,
        }
    }
}

impl UserProfile {
    pub fn create(id: String, info: UserProfileCreator) -> (r: Self)
        ensures
            r@ == created_profile(id@, info),
    {
        let r = UserProfile {
            id,
            name: info.name,
            gravatar: info.gravatar,
            bio: info.bio,
            // a new user has no pastes
            paste_indexs: Vec::new(),
        };
        proof {
            assert(r.paste_indexs@ =~= Seq::<u64>::empty());
        }
        r
    }

    pub fn update(&mut self, info: UserProfileUpdater)
        ensures
            final(self)@ == updated_profile(old(self)@, info),
    {
        if let Some(name) = info.name {
            self.name = name;
        }
        if let Some(bio) = info.bio {
            self.bio = bio;
        }
        if let Some(gravatar) = info.gravatar {
            self.gravatar = gravatar;
        }
    }

    pub fn add_new_paste(&mut self, paste_index: u64)
        ensures
            final(self)@ == (ProfileView {
                paste_indexs: old(self)@.paste_indexs.push(paste_index),
                ..old(self)@
            }),
    {
        self.paste_indexs.push(paste_index);
    }
}

} // verus!
