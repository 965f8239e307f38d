use vstd::prelude::*;

use crate::pubkey::Pubkey;

verus! {

/// A follow relation: the profile `authority` follows the profile `profile`.
pub struct Connection {
    pub profile: Pubkey,
    pub authority: Pubkey,
    pub bump: u8,
}

/// A connection account as seen by an instruction: its address and its fields.
pub struct LoadedConnection {
    pub key: Pubkey,
    pub profile: Pubkey,
    pub authority: Pubkey,
    pub bump: u8,
}

/// A user profile.
pub struct Profile {
    pub authority: Pubkey,
    pub bump: u8,
    pub random_hash: String,
}

/// A profile account as seen by an instruction: its address and its fields.
pub struct LoadedProfile {
    pub key: Pubkey,
    pub authority: Pubkey,
    pub bump: u8,
    pub random_hash: String,
}

/// A post, or a comment, written through a profile.
pub struct Post {
    pub profile: Pubkey,
    pub metadata_uri: String,
    pub bump: u8,
    pub random_hash: String,
}

/// A post account as seen by an instruction: its address and its fields.
pub struct LoadedPost {
    pub key: Pubkey,
    pub profile: Pubkey,
    pub metadata_uri: String,
    pub bump: u8,
    pub random_hash: String,
}

impl Connection {
    /// The loaded form of the account stored at `key`.
    pub open spec fn loaded(self, key: Pubkey) -> LoadedConnection {
        LoadedConnection {
            key: key,
            profile: self.profile,
            authority: self.authority,
            bump: self.bump,
        }
    }

    /// Reads the account stored at `key` into its loaded form.
    pub fn load(account: &Connection, key: Pubkey) -> (loaded: LoadedConnection)
        ensures
            loaded == account.loaded(key),
    {
        LoadedConnection {
            key: key,
            profile: account.profile,
            authority: account.authority,
            bump: account.bump,
        }
    }

    /// Writes every field of `loaded` back into `account`.
    pub fn store(loaded: LoadedConnection, account: &mut Connection)
        ensures
            *final(account) == loaded.stored(),
    {
        account.profile = loaded.profile;
        account.authority = loaded.authority;
        account.bump = loaded.bump;
    }
}

impl LoadedConnection {
    /// The account data that storing this loaded form writes.
    pub open spec fn stored(self) -> Connection {
        Connection { profile: self.profile, authority: self.authority, bump: self.bump }
    }
}

impl Profile {
    /// The loaded form of the account stored at `key`.
    pub open spec fn loaded(self, key: Pubkey) -> LoadedProfile {
        LoadedProfile {
            key: key,
            authority: self.authority,
            bump: self.bump,
            random_hash: self.random_hash,
        }
    }

    /// Reads the account stored at `key` into its loaded form.
    pub fn load(account: &Profile, key: Pubkey) -> (loaded: LoadedProfile)
        ensures
            loaded == account.loaded(key),
    {
        LoadedProfile {
            key: key,
            authority: account.authority,
            bump: account.bump,
            random_hash: account.random_hash.clone(),
        }
    }

    /// Writes every field of `loaded` back into `account`.
    pub fn store(loaded: LoadedProfile, account: &mut Profile)
        ensures
            *final(account) == loaded.stored(),
    {
        account.authority = loaded.authority;
        account.bump = loaded.bump;
        account.random_hash = loaded.random_hash;
    }
}

impl LoadedProfile {
    /// The account data that storing this loaded form writes.
    pub open spec fn stored(self) -> Profile {
        Profile { authority: self.authority, bump: self.bump, random_hash: self.random_hash }
    }
}

impl Post {
    /// The loaded form of the account stored at `key`.
    pub open spec fn loaded(self, key: Pubkey) -> LoadedPost {
        LoadedPost {
            key: key,
            profile: self.profile,
            metadata_uri: self.metadata_uri,
            bump: self.bump,
            random_hash: self.random_hash,
        }
    }

    /// Reads the account stored at `key` into its loaded form.
    pub fn load(account: &Post, key: Pubkey) -> (loaded: LoadedPost)
        ensures
            loaded == account.loaded(key),
    {
        LoadedPost {
            key: key,
            profile: account.profile,
            metadata_uri: account.metadata_uri.clone(),
            bump: account.bump,
            random_hash: account.random_hash.clone(),
        }
    }

    /// Writes every field of `loaded` back into `account`.
    pub fn store(loaded: LoadedPost, account: &mut Post)
        ensures
            *final(account) == loaded.stored(),
    {
        account.profile = loaded.profile;
        account.metadata_uri = loaded.metadata_uri;
        account.bump = loaded.bump;
        account.random_hash = loaded.random_hash;
    }
}

impl LoadedPost {
    /// The account data that storing this loaded form writes.
    pub open spec fn stored(self) -> Post {
        Post {
            profile: self.profile,
            metadata_uri: self.metadata_uri,
            bump: self.bump,
            random_hash: self.random_hash,
        }
    }
}

} // verus!
