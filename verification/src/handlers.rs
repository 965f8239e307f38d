use vstd::prelude::*;
use vstd::utf8::encode_utf8;

use crate::accounts::{LoadedConnection, LoadedPost, LoadedProfile};
use crate::error::WordcelError;
use crate::pubkey::Pubkey;
use crate::util::Empty;

verus! {

/// The length of a string in bytes (its UTF-8 encoding), as `str::len` gives it.
pub open spec fn byte_len(s: Seq<char>) -> usize {
    encode_utf8(s).len() as usize
}

/// The URI rule shared by comments and post updates: more than 128 bytes.
pub open spec fn uri_long_enough(metadata_uri: Seq<char>) -> bool {
    byte_len(metadata_uri) > 128
}

/// When `user` may create a post through `profile`.
pub open spec fn create_post_allowed(
    user: Pubkey,
    random_hash: Seq<char>,
    metadata_uri: Seq<char>,
    profile: LoadedProfile,
) -> bool {
    &&& user == profile.authority
    &&& profile.random_hash@ != random_hash
    &&& profile.random_hash@ != metadata_uri
}

/// When `user` may comment through `profile` (the URI rule aside).
pub open spec fn comment_allowed(
    user: Pubkey,
    metadata_uri: Seq<char>,
    random_hash: Seq<char>,
    profile: LoadedProfile,
) -> bool {
    &&& profile.authority == user
    &&& random_hash != metadata_uri
    &&& profile.random_hash@ != random_hash
}

/// When `user` may update `post` through `profile` (the URI rule aside).
pub open spec fn update_post_allowed(
    user: Pubkey,
    metadata_uri: Seq<char>,
    profile: LoadedProfile,
    post: LoadedPost,
) -> bool {
    &&& post.profile == profile.key
    &&& profile.authority == user
    &&& profile.random_hash@ != post.random_hash@
    &&& profile.random_hash@ != metadata_uri
    &&& post.random_hash@ != metadata_uri
    &&& post.metadata_uri@ != metadata_uri
}

/// When `user` may record that `user_profile` follows `followed`.
pub open spec fn follow_allowed(
    user: Pubkey,
    user_profile: LoadedProfile,
    followed: LoadedProfile,
) -> bool {
    &&& user_profile.authority == user
    &&& user_profile.key != followed.key
    &&& followed.key != user
}

/// The verdict on a request whose parameters pass `allowed` and whose URI passes `uri_ok`.
pub open spec fn verdict_with_uri(allowed: bool, uri_ok: bool) -> Result<(), WordcelError> {
    if !allowed {
        Err(WordcelError::InvalidParameters)
    } else if !uri_ok {
        Err(WordcelError::UriLengthExceeded)
    } else {
        Ok(())
    }
}

/// The answer to a post creation check.
pub open spec fn check_create_post_verdict(
    user: Pubkey,
    random_hash: Seq<char>,
    metadata_uri: Seq<char>,
    profile: LoadedProfile,
) -> Result<(), WordcelError> {
    if create_post_allowed(user, random_hash, metadata_uri, profile) {
        Ok(())
    } else {
        Err(WordcelError::InvalidParameters)
    }
}

/// The answer to a comment check.
pub open spec fn check_comment_verdict(
    user: Pubkey,
    metadata_uri: Seq<char>,
    random_hash: Seq<char>,
    profile: LoadedProfile,
) -> Result<(), WordcelError> {
    verdict_with_uri(
        comment_allowed(user, metadata_uri, random_hash, profile),
        uri_long_enough(metadata_uri),
    )
}

/// The answer to a post update check.
pub open spec fn check_update_post_verdict(
    user: Pubkey,
    metadata_uri: Seq<char>,
    profile: LoadedProfile,
    post: LoadedPost,
) -> Result<(), WordcelError> {
    verdict_with_uri(
        update_post_allowed(user, metadata_uri, profile, post),
        uri_long_enough(metadata_uri),
    )
}

/// The answer to a follow check.
pub open spec fn check_follow_verdict(
    user: Pubkey,
    user_profile: LoadedProfile,
    followed: LoadedProfile,
) -> Result<(), WordcelError> {
    if follow_allowed(user, user_profile, followed) {
        Ok(())
    } else {
        Err(WordcelError::StopCheating)
    }
}

/// Whether `metadata_uri` is longer than 128 bytes.
pub fn uri_is_long_enough(metadata_uri: &String) -> (long: bool)
    ensures
        long == uri_long_enough(metadata_uri@),
{
    (metadata_uri.as_str().len() as u64) > 128
}

/// Checks a post creation: `InvalidParameters` exactly when the parameters do not fit.
pub fn check_create_post(
    user: &Pubkey,
    random_hash: &String,
    metadata_uri: &String,
    profile: &LoadedProfile,
) -> (verdict: Result<(), WordcelError>)
    ensures
        verdict == check_create_post_verdict(*user, random_hash@, metadata_uri@, *profile),
{
    if *user == profile.authority && profile.random_hash != *random_hash
        && profile.random_hash != *metadata_uri {
        Ok(())
    } else {
        Err(WordcelError::InvalidParameters)
    }
}

/// Checks a comment: the parameters first, then the URI length.
pub fn check_comment(
    user: &Pubkey,
    metadata_uri: &String,
    random_hash: &String,
    profile: &LoadedProfile,
) -> (verdict: Result<(), WordcelError>)
    ensures
        verdict == check_comment_verdict(*user, metadata_uri@, random_hash@, *profile),
{
    if !(profile.authority == *user && *random_hash != *metadata_uri
        && profile.random_hash != *random_hash) {
        return Err(WordcelError::InvalidParameters);
    }
    if !uri_is_long_enough(metadata_uri) {
        return Err(WordcelError::UriLengthExceeded);
    }
    Ok(())
}

/// Checks a post update: the parameters first, then the URI length.
pub fn check_update_post(
    user: &Pubkey,
    metadata_uri: &String,
    profile: &LoadedProfile,
    post: &LoadedPost,
) -> (verdict: Result<(), WordcelError>)
    ensures
        verdict == check_update_post_verdict(*user, metadata_uri@, *profile, *post),
{
    if !(post.profile == profile.key && profile.authority == *user
        && profile.random_hash != post.random_hash && profile.random_hash != *metadata_uri
        && post.random_hash != *metadata_uri && post.metadata_uri != *metadata_uri) {
        return Err(WordcelError::InvalidParameters);
    }
    if !uri_is_long_enough(metadata_uri) {
        return Err(WordcelError::UriLengthExceeded);
    }
    Ok(())
}

/// Checks a follow request: `StopCheating` exactly when the profiles do not fit.
pub fn check_follow(
    user: &Pubkey,
    user_profile: &LoadedProfile,
    profile_to_be_followed: &LoadedProfile,
) -> (verdict: Result<(), WordcelError>)
    ensures
        verdict == check_follow_verdict(*user, *user_profile, *profile_to_be_followed),
{
    if user_profile.authority == *user && user_profile.key != profile_to_be_followed.key
        && profile_to_be_followed.key != *user {
        Ok(())
    } else {
        Err(WordcelError::StopCheating)
    }
}

/// Fills a new profile: `user` becomes its authority.
pub fn create_profile_handler(user: Pubkey, random_hash: String, profile: &mut Empty<LoadedProfile>)
    requires
        old(profile).bump is Some,
    ensures
        final(profile).bump == old(profile).bump,
        final(profile).account == (LoadedProfile {
            key: old(profile).account.key,
            authority: user,
            bump: old(profile).bump.unwrap(),
            random_hash: random_hash,
        }),
{
    profile.account.authority = user;
    profile.account.random_hash = random_hash;
    profile.account.bump = profile.bump.unwrap();
}

/// Fills a new post written through `profile`.
pub fn create_post_handler(
    user: Pubkey,
    random_hash: String,
    post: &mut Empty<LoadedPost>,
    metadata_uri: String,
    profile: &LoadedProfile,
)
    requires
        create_post_allowed(user, random_hash@, metadata_uri@, *profile),
        old(post).bump is Some,
    ensures
        final(post).bump == old(post).bump,
        final(post).account == (LoadedPost {
            key: old(post).account.key,
            profile: profile.key,
            metadata_uri: metadata_uri,
            bump: old(post).bump.unwrap(),
            random_hash: random_hash,
        }),
{
    post.account.profile = profile.key;
    post.account.metadata_uri = metadata_uri;
    post.account.random_hash = random_hash;
    post.account.bump = post.bump.unwrap();
}

/// Fills a new comment written through `profile`.
pub fn comment_handler(
    user: Pubkey,
    metadata_uri: String,
    random_hash: String,
    post: &mut Empty<LoadedPost>,
    profile: &LoadedProfile,
)
    requires
        comment_allowed(user, metadata_uri@, random_hash@, *profile),
        uri_long_enough(metadata_uri@),
        old(post).bump is Some,
    ensures
        final(post).bump == old(post).bump,
        final(post).account == (LoadedPost {
            key: old(post).account.key,
            profile: profile.key,
            metadata_uri: metadata_uri,
            bump: old(post).bump.unwrap(),
            random_hash: random_hash,
        }),
{
    post.account.profile = profile.key;
    post.account.bump = post.bump.unwrap();
    post.account.random_hash = random_hash;
    post.account.metadata_uri = metadata_uri;
}

/// Fills a new connection: `user_profile` follows `profile_to_be_followed`.
pub fn follow_handler(
    user: Pubkey,
    user_profile: &LoadedProfile,
    profile_to_be_followed: &LoadedProfile,
    follow: &mut Empty<LoadedConnection>,
)
    requires
        follow_allowed(user, *user_profile, *profile_to_be_followed),
        old(follow).bump is Some,
    ensures
        final(follow).bump == old(follow).bump,
        final(follow).account == (LoadedConnection {
            key: old(follow).account.key,
            profile: profile_to_be_followed.key,
            authority: user_profile.key,
            bump: old(follow).bump.unwrap(),
        }),
        final(follow).account.authority != final(follow).account.profile,
{
    follow.account.authority = user_profile.key;
    follow.account.profile = profile_to_be_followed.key;
    follow.account.bump = follow.bump.unwrap();
}

/// Replaces the metadata URI of a post.
pub fn update_post_handler(
    user: Pubkey,
    metadata_uri: String,
    profile: &LoadedProfile,
    post: &mut LoadedPost,
)
    requires
        update_post_allowed(user, metadata_uri@, *profile, *old(post)),
        uri_long_enough(metadata_uri@),
    ensures
        *final(post) == (LoadedPost { metadata_uri: metadata_uri, ..*old(post) }),
{
    post.metadata_uri = metadata_uri;
}

} // verus!
