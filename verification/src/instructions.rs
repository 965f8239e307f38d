use vstd::prelude::*;

use crate::accounts::{Post, Profile};
use crate::error::WordcelError;
use crate::handlers::{
    check_comment, check_create_post, check_update_post, comment_allowed, comment_handler,
    create_post_allowed, create_post_handler, create_profile_handler, update_post_allowed,
    update_post_handler, uri_long_enough, verdict_with_uri,
};
use crate::pubkey::Pubkey;
use crate::util::Empty;

verus! {

/// What `create_profile` answers, and the profile account it leaves.
pub open spec fn create_profile_outcome(
    user: Pubkey,
    profile: Profile,
    profile_bump: Option<u8>,
    random_hash: String,
) -> (Result<(), WordcelError>, Profile) {
    match profile_bump {
        None => (Err(WordcelError::MissingBump), profile),
        Some(bump) => (Ok(()), Profile { authority: user, bump: bump, random_hash: random_hash }),
    }
}

/// What `create_post` answers, and the post and profile accounts it leaves.
pub open spec fn create_post_outcome(
    user: Pubkey,
    post: Post,
    post_bump: Option<u8>,
    profile_key: Pubkey,
    profile: Profile,
    random_hash: String,
    metadata_uri: String,
) -> (Result<(), WordcelError>, Post, Profile) {
    if !create_post_allowed(user, random_hash@, metadata_uri@, profile.loaded(profile_key)) {
        (Err(WordcelError::InvalidParameters), post, profile)
    } else {
        match post_bump {
            None => (Err(WordcelError::MissingBump), post, profile),
            Some(bump) => (
                Ok(()),
                Post {
                    profile: profile_key,
                    metadata_uri: metadata_uri,
                    bump: bump,
                    random_hash: random_hash,
                },
                profile,
            ),
        }
    }
}

/// What `comment` answers, and the comment and profile accounts it leaves.
pub open spec fn comment_outcome(
    user: Pubkey,
    post: Post,
    post_bump: Option<u8>,
    profile_key: Pubkey,
    profile: Profile,
    metadata_uri: String,
    random_hash: String,
) -> (Result<(), WordcelError>, Post, Profile) {
    let verdict = verdict_with_uri(
        comment_allowed(user, metadata_uri@, random_hash@, profile.loaded(profile_key)),
        uri_long_enough(metadata_uri@),
    );
    if verdict is Err {
        (verdict, post, profile)
    } else {
        match post_bump {
            None => (Err(WordcelError::MissingBump), post, profile),
            Some(bump) => (
                Ok(()),
                Post {
                    profile: profile_key,
                    metadata_uri: metadata_uri,
                    bump: bump,
                    random_hash: random_hash,
                },
                profile,
            ),
        }
    }
}

/// What `update_post` answers, and the profile and post accounts it leaves.
pub open spec fn update_post_outcome(
    user: Pubkey,
    profile_key: Pubkey,
    profile: Profile,
    post_key: Pubkey,
    post: Post,
    metadata_uri: String,
) -> (Result<(), WordcelError>, Profile, Post) {
    let verdict = verdict_with_uri(
        update_post_allowed(
            user,
            metadata_uri@,
            profile.loaded(profile_key),
            post.loaded(post_key),
        ),
        uri_long_enough(metadata_uri@),
    );
    if verdict is Err {
        (verdict, profile, post)
    } else {
        (Ok(()), profile, Post { metadata_uri: metadata_uri, ..post })
    }
}

/// Fills the freshly created profile account at `profile_key` for the signer `user`.
pub fn create_profile(
    user: Pubkey,
    profile_key: Pubkey,
    profile: &mut Profile,
    profile_bump: Option<u8>,
    random_hash: String,
) -> (answer: Result<(), WordcelError>)
    ensures
        (answer, *final(profile)) == create_profile_outcome(
            user,
            *old(profile),
            profile_bump,
            random_hash,
        ),
{
    if profile_bump.is_none() {
        return Err(WordcelError::MissingBump);
    }
    let mut created = Empty { account: Profile::load(profile, profile_key), bump: profile_bump };
    create_profile_handler(user, random_hash, &mut created);
    Profile::store(created.account, profile);
    Ok(())
}

/// Fills the freshly created post account at `post_key`, written by `user`
/// through the profile account at `profile_key`.
pub fn create_post(
    user: Pubkey,
    post_key: Pubkey,
    post: &mut Post,
    post_bump: Option<u8>,
    profile_key: Pubkey,
    profile: &mut Profile,
    random_hash: String,
    metadata_uri: String,
) -> (answer: Result<(), WordcelError>)
    ensures
        (answer, *final(post), *final(profile)) == create_post_outcome(
            user,
            *old(post),
            post_bump,
            profile_key,
            *old(profile),
            random_hash,
            metadata_uri,
        ),
{
    let mut created = Empty { account: Post::load(post, post_key), bump: post_bump };
    let author = Profile::load(profile, profile_key);
    match check_create_post(&user, &random_hash, &metadata_uri, &author) {
        Err(e) => {
            return Err(e);
        },
        Ok(()) => {},
    }
    if post_bump.is_none() {
        return Err(WordcelError::MissingBump);
    }
    create_post_handler(user, random_hash, &mut created, metadata_uri, &author);
    Post::store(created.account, post);
    Profile::store(author, profile);
    Ok(())
}

/// Fills the freshly created comment account at `post_key`, written by `user`
/// through the profile account at `profile_key`.
pub fn comment(
    user: Pubkey,
    post_key: Pubkey,
    post: &mut Post,
    post_bump: Option<u8>,
    profile_key: Pubkey,
    profile: &mut Profile,
    metadata_uri: String,
    random_hash: String,
) -> (answer: Result<(), WordcelError>)
    ensures
        (answer, *final(post), *final(profile)) == comment_outcome(
            user,
            *old(post),
            post_bump,
            profile_key,
            *old(profile),
            metadata_uri,
            random_hash,
        ),
{
    let mut created = Empty { account: Post::load(post, post_key), bump: post_bump };
    let author = Profile::load(profile, profile_key);
    match check_comment(&user, &metadata_uri, &random_hash, &author) {
        Err(e) => {
            return Err(e);
        },
        Ok(()) => {},
    }
    if post_bump.is_none() {
        return Err(WordcelError::MissingBump);
    }
    comment_handler(user, metadata_uri, random_hash, &mut created, &author);
    Post::store(created.account, post);
    Profile::store(author, profile);
    Ok(())
}

/// Replaces the metadata URI of the post account at `post_key`, on behalf of `user`
/// acting through the profile account at `profile_key`.
pub fn update_post(
    user: Pubkey,
    profile_key: Pubkey,
    profile: &mut Profile,
    post_key: Pubkey,
    post: &mut Post,
    metadata_uri: String,
) -> (answer: Result<(), WordcelError>)
    ensures
        (answer, *final(profile), *final(post)) == update_post_outcome(
            user,
            profile_key,
            *old(profile),
            post_key,
            *old(post),
            metadata_uri,
        ),
{
    let author = Profile::load(profile, profile_key);
    let mut edited = Post::load(post, post_key);
    match check_update_post(&user, &metadata_uri, &author, &edited) {
        Err(e) => {
            return Err(e);
        },
        Ok(()) => {},
    }
    update_post_handler(user, metadata_uri, &author, &mut edited);
    Profile::store(author, profile);
    Post::store(edited, post);
    Ok(())
}

} // verus!
