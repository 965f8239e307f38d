use vstd::prelude::*;

use crate::accounts::{Connection, LoadedConnection, LoadedPost, LoadedProfile, Post, Profile};
use crate::handlers::{
    check_comment_verdict, check_create_post_verdict, check_follow_verdict,
    check_update_post_verdict, uri_long_enough,
};
use crate::util::wrapped_index_spec;
use vstd::utf8::encode_utf8;
use crate::instructions::{
    comment_outcome, create_post_outcome, create_profile_outcome, update_post_outcome,
};
use crate::error::WordcelError;
use crate::pubkey::Pubkey;

verus! {

/// Storing what was loaded from a profile account writes the account back
/// unchanged, and loading what was stored gives the same loaded profile.
pub proof fn profile_load_store_round_trip(account: Profile, key: Pubkey, loaded: LoadedProfile)
    ensures
        account.loaded(key).stored() == account,
        loaded.stored().loaded(loaded.key) == loaded,
{
}

/// Storing what was loaded from a post account writes the account back
/// unchanged, and loading what was stored gives the same loaded post.
pub proof fn post_load_store_round_trip(account: Post, key: Pubkey, loaded: LoadedPost)
    ensures
        account.loaded(key).stored() == account,
        loaded.stored().loaded(loaded.key) == loaded,
{
}

/// Storing what was loaded from a connection account writes the account back
/// unchanged, and loading what was stored gives the same loaded connection.
pub proof fn connection_load_store_round_trip(
    account: Connection,
    key: Pubkey,
    loaded: LoadedConnection,
)
    ensures
        account.loaded(key).stored() == account,
        loaded.stored().loaded(loaded.key) == loaded,
{
}

/// A refused instruction leaves every account it was handed as it was.
pub proof fn refused_instructions_change_nothing(
    user: Pubkey,
    post_key: Pubkey,
    post: Post,
    post_bump: Option<u8>,
    profile_key: Pubkey,
    profile: Profile,
    random_hash: String,
    metadata_uri: String,
)
    ensures
        create_profile_outcome(user, profile, post_bump, random_hash).0 is Err
            ==> create_profile_outcome(user, profile, post_bump, random_hash).1 == profile,
        ({
            let (answer, new_post, new_profile) = create_post_outcome(
                user,
                post,
                post_bump,
                profile_key,
                profile,
                random_hash,
                metadata_uri,
            );
            answer is Err ==> new_post == post && new_profile == profile
        }),
        ({
            let (answer, new_post, new_profile) = comment_outcome(
                user,
                post,
                post_bump,
                profile_key,
                profile,
                metadata_uri,
                random_hash,
            );
            answer is Err ==> new_post == post && new_profile == profile
        }),
        ({
            let (answer, new_profile, new_post) = update_post_outcome(
                user,
                profile_key,
                profile,
                post_key,
                post,
                metadata_uri,
            );
            answer is Err ==> new_post == post && new_profile == profile
        }),
{
}

/// No instruction ever changes the profile account it writes through.
pub proof fn profiles_are_never_changed_by_posts(
    user: Pubkey,
    post_key: Pubkey,
    post: Post,
    post_bump: Option<u8>,
    profile_key: Pubkey,
    profile: Profile,
    random_hash: String,
    metadata_uri: String,
)
    ensures
        create_post_outcome(user, post, post_bump, profile_key, profile, random_hash, metadata_uri).2
            == profile,
        comment_outcome(user, post, post_bump, profile_key, profile, metadata_uri, random_hash).2
            == profile,
        update_post_outcome(user, profile_key, profile, post_key, post, metadata_uri).1 == profile,
{
}

/// Only the authority of a profile can post, comment or update a post through it.
pub proof fn only_the_authority_writes(
    user: Pubkey,
    post_key: Pubkey,
    post: Post,
    post_bump: Option<u8>,
    profile_key: Pubkey,
    profile: Profile,
    random_hash: String,
    metadata_uri: String,
)
    ensures
        create_post_outcome(user, post, post_bump, profile_key, profile, random_hash, metadata_uri).0
            is Ok ==> user == profile.authority,
        comment_outcome(user, post, post_bump, profile_key, profile, metadata_uri, random_hash).0
            is Ok ==> user == profile.authority,
        update_post_outcome(user, profile_key, profile, post_key, post, metadata_uri).0 is Ok
            ==> user == profile.authority,
{
}

/// A post or comment that was created records the profile it was written through,
/// with a random hash that differs from the profile's own.
pub proof fn created_posts_belong_to_their_profile(
    user: Pubkey,
    post: Post,
    post_bump: Option<u8>,
    profile_key: Pubkey,
    profile: Profile,
    random_hash: String,
    metadata_uri: String,
)
    ensures
        ({
            let (answer, new_post, _) = create_post_outcome(
                user,
                post,
                post_bump,
                profile_key,
                profile,
                random_hash,
                metadata_uri,
            );
            answer is Ok ==> {
                &&& new_post.profile == profile_key
                &&& new_post.random_hash@ != profile.random_hash@
                &&& new_post.metadata_uri@ != profile.random_hash@
            }
        }),
        ({
            let (answer, new_post, _) = comment_outcome(
                user,
                post,
                post_bump,
                profile_key,
                profile,
                metadata_uri,
                random_hash,
            );
            answer is Ok ==> {
                &&& new_post.profile == profile_key
                &&& new_post.random_hash@ != profile.random_hash@
                &&& new_post.random_hash@ != new_post.metadata_uri@
                &&& uri_long_enough(new_post.metadata_uri@)
            }
        }),
{
}

/// A post created through one profile can only be updated through that same
/// profile, by its authority; the update keeps everything but the URI, which changes.
pub proof fn created_post_updates_only_through_its_profile(
    author: Pubkey,
    post_key: Pubkey,
    post: Post,
    post_bump: Option<u8>,
    profile_key: Pubkey,
    profile: Profile,
    random_hash: String,
    metadata_uri: String,
    editor: Pubkey,
    editor_profile_key: Pubkey,
    editor_profile: Profile,
    new_uri: String,
)
    requires
        create_post_outcome(author, post, post_bump, profile_key, profile, random_hash, metadata_uri).0
            is Ok,
    ensures
        ({
            let created = create_post_outcome(
                author,
                post,
                post_bump,
                profile_key,
                profile,
                random_hash,
                metadata_uri,
            ).1;
            let (answer, _, updated) = update_post_outcome(
                editor,
                editor_profile_key,
                editor_profile,
                post_key,
                created,
                new_uri,
            );
            answer is Ok ==> {
                &&& editor_profile_key == profile_key
                &&& editor == editor_profile.authority
                &&& updated.profile == created.profile
                &&& updated.random_hash == created.random_hash
                &&& updated.bump == created.bump
                &&& updated.metadata_uri == new_uri
                &&& new_uri@ != created.metadata_uri@
            }
        }),
{
}

/// The signer of a new profile becomes its authority, and can then post through it
/// with any bump seed and any hash and URI that differ from the profile's hash.
pub proof fn new_profile_owner_can_post(
    user: Pubkey,
    profile_key: Pubkey,
    profile: Profile,
    profile_bump: u8,
    profile_hash: String,
    post: Post,
    post_bump: u8,
    random_hash: String,
    metadata_uri: String,
)
    requires
        random_hash@ != profile_hash@,
        metadata_uri@ != profile_hash@,
    ensures
        ({
            let (answer, created) = create_profile_outcome(
                user,
                profile,
                Some(profile_bump),
                profile_hash,
            );
            &&& answer is Ok
            &&& created.authority == user
            &&& create_post_outcome(
                user,
                post,
                Some(post_bump),
                profile_key,
                created,
                random_hash,
                metadata_uri,
            ).0 is Ok
        }),
{
}

/// Loading an account copies each of its fields into the field of the same name
/// and records the address it was loaded from; storing writes each field of the
/// loaded form into the field of the same name.
pub proof fn load_and_store_copy_fields(
    connection: Connection,
    loaded_connection: LoadedConnection,
    profile: Profile,
    loaded_profile: LoadedProfile,
    post: Post,
    loaded_post: LoadedPost,
    key: Pubkey,
)
    ensures
        connection.loaded(key).key == key,
        connection.loaded(key).profile == connection.profile,
        connection.loaded(key).authority == connection.authority,
        connection.loaded(key).bump == connection.bump,
        loaded_connection.stored().profile == loaded_connection.profile,
        loaded_connection.stored().authority == loaded_connection.authority,
        loaded_connection.stored().bump == loaded_connection.bump,
        profile.loaded(key).key == key,
        profile.loaded(key).authority == profile.authority,
        profile.loaded(key).bump == profile.bump,
        profile.loaded(key).random_hash == profile.random_hash,
        loaded_profile.stored().authority == loaded_profile.authority,
        loaded_profile.stored().bump == loaded_profile.bump,
        loaded_profile.stored().random_hash == loaded_profile.random_hash,
        post.loaded(key).key == key,
        post.loaded(key).profile == post.profile,
        post.loaded(key).metadata_uri == post.metadata_uri,
        post.loaded(key).bump == post.bump,
        post.loaded(key).random_hash == post.random_hash,
        loaded_post.stored().profile == loaded_post.profile,
        loaded_post.stored().metadata_uri == loaded_post.metadata_uri,
        loaded_post.stored().bump == loaded_post.bump,
        loaded_post.stored().random_hash == loaded_post.random_hash,
{
}

/// A URI is long enough exactly when its UTF-8 encoding has more than 128 bytes,
/// however long it is (up to what a string can hold in memory).
pub proof fn uri_rule_is_more_than_128_bytes(uri: Seq<char>)
    requires
        encode_utf8(uri).len() <= usize::MAX,
    ensures
        uri_long_enough(uri) <==> encode_utf8(uri).len() > 128,
{
}

/// A follow request is granted exactly when the signer is the authority of the
/// follower profile, the two profiles differ, and the followed profile is not the
/// signer's own address; otherwise it is refused with `StopCheating`.
pub proof fn follow_verdict_law(user: Pubkey, user_profile: LoadedProfile, followed: LoadedProfile)
    ensures
        check_follow_verdict(user, user_profile, followed) is Ok <==> {
            &&& user_profile.authority == user
            &&& user_profile.key != followed.key
            &&& followed.key != user
        },
        check_follow_verdict(user, user_profile, followed) is Err ==> check_follow_verdict(
            user,
            user_profile,
            followed,
        ) == Err::<(), WordcelError>(WordcelError::StopCheating),
{
}

/// A post check passes exactly when the signer is the profile's authority and
/// neither the post hash nor the URI equals the profile's hash.
pub proof fn create_post_verdict_law(
    user: Pubkey,
    random_hash: Seq<char>,
    metadata_uri: Seq<char>,
    profile: LoadedProfile,
)
    ensures
        check_create_post_verdict(user, random_hash, metadata_uri, profile) is Ok <==> {
            &&& user == profile.authority
            &&& random_hash != profile.random_hash@
            &&& metadata_uri != profile.random_hash@
        },
        check_create_post_verdict(user, random_hash, metadata_uri, profile) is Err
            ==> check_create_post_verdict(user, random_hash, metadata_uri, profile) == Err::<
            (),
            WordcelError,
        >(WordcelError::InvalidParameters),
{
}

/// A comment check refuses with `InvalidParameters` when the signer is not the
/// profile's authority or the comment hash equals the URI or the profile's hash;
/// otherwise it refuses with `UriLengthExceeded` exactly when the URI has at most
/// 128 bytes, and passes on any longer URI.
pub proof fn comment_verdict_law(
    user: Pubkey,
    metadata_uri: Seq<char>,
    random_hash: Seq<char>,
    profile: LoadedProfile,
)
    requires
        encode_utf8(metadata_uri).len() <= usize::MAX,
    ensures
        ({
            let params_ok = profile.authority == user && random_hash != metadata_uri
                && random_hash != profile.random_hash@;
            let verdict = check_comment_verdict(user, metadata_uri, random_hash, profile);
            &&& !params_ok ==> verdict == Err::<(), WordcelError>(WordcelError::InvalidParameters)
            &&& params_ok && encode_utf8(metadata_uri).len() <= 128 ==> verdict == Err::<
                (),
                WordcelError,
            >(WordcelError::UriLengthExceeded)
            &&& params_ok && encode_utf8(metadata_uri).len() > 128 ==> verdict is Ok
        }),
{
}

/// An update check refuses with `InvalidParameters` unless the post belongs to the
/// profile, the signer is its authority, the profile hash differs from the post hash,
/// and the new URI differs from the profile hash, the post hash and the old URI;
/// otherwise it refuses with `UriLengthExceeded` exactly when the new URI has at
/// most 128 bytes, and passes on any longer URI, whatever the old URI's length.
pub proof fn update_post_verdict_law(
    user: Pubkey,
    metadata_uri: Seq<char>,
    profile: LoadedProfile,
    post: LoadedPost,
)
    requires
        encode_utf8(metadata_uri).len() <= usize::MAX,
    ensures
        ({
            let params_ok = post.profile == profile.key && profile.authority == user
                && profile.random_hash@ != post.random_hash@ && metadata_uri
                != profile.random_hash@ && metadata_uri != post.random_hash@ && metadata_uri
                != post.metadata_uri@;
            let verdict = check_update_post_verdict(user, metadata_uri, profile, post);
            &&& !params_ok ==> verdict == Err::<(), WordcelError>(WordcelError::InvalidParameters)
            &&& params_ok && encode_utf8(metadata_uri).len() <= 128 ==> verdict == Err::<
                (),
                WordcelError,
            >(WordcelError::UriLengthExceeded)
            &&& params_ok && encode_utf8(metadata_uri).len() > 128 ==> verdict is Ok
        }),
{
}

/// `create_profile` succeeds exactly when a bump seed is given, and then the
/// profile holds the signer as authority, that bump and the given hash.
pub proof fn create_profile_law(
    user: Pubkey,
    profile: Profile,
    profile_bump: Option<u8>,
    random_hash: String,
)
    ensures
        ({
            let (answer, created) = create_profile_outcome(user, profile, profile_bump, random_hash);
            &&& answer is Ok <==> profile_bump is Some
            &&& answer is Ok ==> created.authority == user && created.bump
                == profile_bump.unwrap() && created.random_hash == random_hash
        }),
{
}

/// `create_post` succeeds exactly when the signer is the profile's authority,
/// neither the hash nor the URI equals the profile's hash, and a bump is given;
/// the new post then points at the profile and holds the URI, hash and bump.
pub proof fn create_post_law(
    user: Pubkey,
    post: Post,
    post_bump: Option<u8>,
    profile_key: Pubkey,
    profile: Profile,
    random_hash: String,
    metadata_uri: String,
)
    ensures
        ({
            let (answer, new_post, _) = create_post_outcome(
                user,
                post,
                post_bump,
                profile_key,
                profile,
                random_hash,
                metadata_uri,
            );
            &&& answer is Ok <==> {
                &&& user == profile.authority
                &&& random_hash@ != profile.random_hash@
                &&& metadata_uri@ != profile.random_hash@
                &&& post_bump is Some
            }
            &&& answer is Ok ==> {
                &&& new_post.profile == profile_key
                &&& new_post.metadata_uri == metadata_uri
                &&& new_post.random_hash == random_hash
                &&& new_post.bump == post_bump.unwrap()
            }
        }),
{
}

/// `comment` succeeds exactly when the signer is the profile's authority, the
/// comment hash differs from the URI and from the profile's hash, the URI has more
/// than 128 bytes, and a bump is given; the comment then points at the profile and
/// holds the URI, hash and bump.
pub proof fn comment_law(
    user: Pubkey,
    post: Post,
    post_bump: Option<u8>,
    profile_key: Pubkey,
    profile: Profile,
    metadata_uri: String,
    random_hash: String,
)
    requires
        encode_utf8(metadata_uri@).len() <= usize::MAX,
    ensures
        ({
            let (answer, new_post, _) = comment_outcome(
                user,
                post,
                post_bump,
                profile_key,
                profile,
                metadata_uri,
                random_hash,
            );
            &&& answer is Ok <==> {
                &&& user == profile.authority
                &&& random_hash@ != metadata_uri@
                &&& random_hash@ != profile.random_hash@
                &&& encode_utf8(metadata_uri@).len() > 128
                &&& post_bump is Some
            }
            &&& answer is Ok ==> {
                &&& new_post.profile == profile_key
                &&& new_post.metadata_uri == metadata_uri
                &&& new_post.random_hash == random_hash
                &&& new_post.bump == post_bump.unwrap()
            }
        }),
{
}

/// `update_post` succeeds exactly when the post belongs to the profile, the signer
/// is its authority, the profile and post hashes differ, the new URI differs from
/// both hashes and from the old URI and has more than 128 bytes (whatever the old
/// URI's length); the post then holds the new URI and keeps its other fields.
pub proof fn update_post_law(
    user: Pubkey,
    profile_key: Pubkey,
    profile: Profile,
    post_key: Pubkey,
    post: Post,
    metadata_uri: String,
)
    requires
        encode_utf8(metadata_uri@).len() <= usize::MAX,
    ensures
        ({
            let (answer, _, new_post) = update_post_outcome(
                user,
                profile_key,
                profile,
                post_key,
                post,
                metadata_uri,
            );
            &&& answer is Ok <==> {
                &&& post.profile == profile_key
                &&& user == profile.authority
                &&& profile.random_hash@ != post.random_hash@
                &&& metadata_uri@ != profile.random_hash@
                &&& metadata_uri@ != post.random_hash@
                &&& metadata_uri@ != post.metadata_uri@
                &&& encode_utf8(metadata_uri@).len() > 128
            }
            &&& answer is Ok ==> {
                &&& new_post.metadata_uri == metadata_uri
                &&& new_post.profile == post.profile
                &&& new_post.random_hash == post.random_hash
                &&& new_post.bump == post.bump
            }
        }),
{
}

/// A positive index is its own position; an index from `-len` to zero counts back
/// from the end and lands between zero and the length.
pub proof fn wrapped_index_law(len: int, index: int)
    requires
        len >= 0,
    ensures
        index > 0 ==> wrapped_index_spec(len, index) == index,
        -len <= index <= 0 ==> wrapped_index_spec(len, index) == len - (-index)
            && 0 <= wrapped_index_spec(len, index) <= len,
{
}

} // verus!
