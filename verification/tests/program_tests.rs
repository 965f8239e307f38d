use wordcel::accounts::{Connection, LoadedConnection, LoadedPost, LoadedProfile, Post, Profile};
use wordcel::error::WordcelError;
use wordcel::handlers::{
    check_comment, check_create_post, check_follow, check_update_post, comment_handler,
    create_post_handler, create_profile_handler, follow_handler, update_post_handler,
    uri_is_long_enough,
};
use wordcel::instructions::{comment, create_post, create_profile, update_post};
use wordcel::pubkey::Pubkey;
use wordcel::util::{Empty, Mutable};

fn key(b: u8) -> Pubkey {
    Pubkey::new_from_array([b; 32])
}

fn long_uri() -> String {
    "u".repeat(129)
}

fn blank_profile() -> Profile {
    Profile { authority: key(0), bump: 0, random_hash: String::new() }
}

fn blank_post() -> Post {
    Post { profile: key(0), metadata_uri: String::new(), bump: 0, random_hash: String::new() }
}

fn alice_profile() -> Profile {
    Profile { authority: key(1), bump: 254, random_hash: "alice-hash".to_string() }
}

fn assert_profile(p: &Profile, authority: Pubkey, bump: u8, hash: &str) {
    assert!(p.authority == authority);
    assert_eq!(p.bump, bump);
    assert_eq!(p.random_hash, hash);
}

fn assert_post(p: &Post, profile: Pubkey, uri: &str, bump: u8, hash: &str) {
    assert!(p.profile == profile);
    assert_eq!(p.metadata_uri, uri);
    assert_eq!(p.bump, bump);
    assert_eq!(p.random_hash, hash);
}

#[test]
fn pubkey_equality_is_bytewise() {
    let mut bytes = [7u8; 32];
    assert!(Pubkey::new_from_array(bytes) == key(7));
    bytes[31] = 8;
    assert!(Pubkey::new_from_array(bytes) != key(7));
    assert_eq!(Pubkey::new_from_array(bytes).to_bytes(), bytes);
}

#[test]
fn profile_load_then_store_keeps_account() {
    let account = alice_profile();
    let loaded = Profile::load(&account, key(9));
    assert!(loaded.key == key(9));
    assert!(loaded.authority == key(1));
    assert_eq!(loaded.bump, 254);
    assert_eq!(loaded.random_hash, "alice-hash");
    let mut target = blank_profile();
    Profile::store(loaded, &mut target);
    assert_profile(&target, key(1), 254, "alice-hash");
}

#[test]
fn post_load_then_store_keeps_account() {
    let account = Post {
        profile: key(3),
        metadata_uri: "ipfs://x".to_string(),
        bump: 9,
        random_hash: "h".to_string(),
    };
    let loaded = Post::load(&account, key(4));
    assert!(loaded.key == key(4));
    let mut target = blank_post();
    Post::store(loaded, &mut target);
    assert_post(&target, key(3), "ipfs://x", 9, "h");
}

#[test]
fn connection_load_then_store_keeps_account() {
    let account = Connection { profile: key(5), authority: key(6), bump: 3 };
    let loaded = Connection::load(&account, key(7));
    assert!(loaded.key == key(7));
    let mut target = Connection { profile: key(0), authority: key(0), bump: 0 };
    Connection::store(loaded, &mut target);
    assert!(target.profile == key(5));
    assert!(target.authority == key(6));
    assert_eq!(target.bump, 3);
}

#[test]
fn create_profile_sets_signer_as_authority() {
    let mut profile = blank_profile();
    let answer = create_profile(key(1), key(20), &mut profile, Some(250), "hash-1".to_string());
    assert_eq!(answer, Ok(()));
    assert_profile(&profile, key(1), 250, "hash-1");
}

#[test]
fn create_profile_without_bump_is_refused() {
    let mut profile = alice_profile();
    let answer = create_profile(key(2), key(20), &mut profile, None, "hash-1".to_string());
    assert_eq!(answer, Err(WordcelError::MissingBump));
    assert_profile(&profile, key(1), 254, "alice-hash");
}

#[test]
fn create_post_by_authority_succeeds() {
    let mut post = blank_post();
    let mut profile = alice_profile();
    let answer = create_post(
        key(1),
        key(30),
        &mut post,
        Some(200),
        key(20),
        &mut profile,
        "post-hash".to_string(),
        "ipfs://post".to_string(),
    );
    assert_eq!(answer, Ok(()));
    assert_post(&post, key(20), "ipfs://post", 200, "post-hash");
    assert_profile(&profile, key(1), 254, "alice-hash");
}

#[test]
fn create_post_by_stranger_is_refused() {
    let mut post = blank_post();
    let mut profile = alice_profile();
    let answer = create_post(
        key(2),
        key(30),
        &mut post,
        Some(200),
        key(20),
        &mut profile,
        "post-hash".to_string(),
        "ipfs://post".to_string(),
    );
    assert_eq!(answer, Err(WordcelError::InvalidParameters));
    assert_post(&post, key(0), "", 0, "");
}

#[test]
fn create_post_reusing_profile_hash_is_refused() {
    let mut post = blank_post();
    let mut profile = alice_profile();
    let same_hash = create_post(
        key(1),
        key(30),
        &mut post,
        Some(200),
        key(20),
        &mut profile,
        "alice-hash".to_string(),
        "ipfs://post".to_string(),
    );
    assert_eq!(same_hash, Err(WordcelError::InvalidParameters));
    let uri_is_hash = create_post(
        key(1),
        key(30),
        &mut post,
        Some(200),
        key(20),
        &mut profile,
        "post-hash".to_string(),
        "alice-hash".to_string(),
    );
    assert_eq!(uri_is_hash, Err(WordcelError::InvalidParameters));
    assert_post(&post, key(0), "", 0, "");
}

#[test]
fn create_post_without_bump_is_refused() {
    let mut post = blank_post();
    let mut profile = alice_profile();
    let answer = create_post(
        key(1),
        key(30),
        &mut post,
        None,
        key(20),
        &mut profile,
        "post-hash".to_string(),
        "ipfs://post".to_string(),
    );
    assert_eq!(answer, Err(WordcelError::MissingBump));
    assert_post(&post, key(0), "", 0, "");
}

#[test]
fn comment_with_long_uri_succeeds() {
    let mut post = blank_post();
    let mut profile = alice_profile();
    let answer = comment(
        key(1),
        key(31),
        &mut post,
        Some(7),
        key(20),
        &mut profile,
        long_uri(),
        "comment-hash".to_string(),
    );
    assert_eq!(answer, Ok(()));
    assert_post(&post, key(20), &long_uri(), 7, "comment-hash");
    assert_profile(&profile, key(1), 254, "alice-hash");
}

#[test]
fn comment_uri_must_exceed_128_bytes() {
    let mut post = blank_post();
    let mut profile = alice_profile();
    let answer = comment(
        key(1),
        key(31),
        &mut post,
        Some(7),
        key(20),
        &mut profile,
        "u".repeat(128),
        "comment-hash".to_string(),
    );
    assert_eq!(answer, Err(WordcelError::UriLengthExceeded));
    assert_post(&post, key(0), "", 0, "");
}

#[test]
fn comment_uri_length_counts_bytes() {
    // 65 characters, 130 bytes
    let uri = "\u{e9}".repeat(65);
    assert!(uri_is_long_enough(&uri));
    assert!(!uri_is_long_enough(&"e".repeat(65)));
    let mut post = blank_post();
    let mut profile = alice_profile();
    let answer = comment(
        key(1),
        key(31),
        &mut post,
        Some(7),
        key(20),
        &mut profile,
        uri.clone(),
        "comment-hash".to_string(),
    );
    assert_eq!(answer, Ok(()));
    assert_eq!(post.metadata_uri, uri);
}

#[test]
fn comment_parameters_are_checked_before_uri() {
    let mut post = blank_post();
    let mut profile = alice_profile();
    // hash equal to the URI, short URI: the parameter error wins
    let answer = comment(
        key(1),
        key(31),
        &mut post,
        Some(7),
        key(20),
        &mut profile,
        "same".to_string(),
        "same".to_string(),
    );
    assert_eq!(answer, Err(WordcelError::InvalidParameters));
    let stranger = comment(
        key(2),
        key(31),
        &mut post,
        Some(7),
        key(20),
        &mut profile,
        long_uri(),
        "comment-hash".to_string(),
    );
    assert_eq!(stranger, Err(WordcelError::InvalidParameters));
    let profile_hash = comment(
        key(1),
        key(31),
        &mut post,
        Some(7),
        key(20),
        &mut profile,
        long_uri(),
        "alice-hash".to_string(),
    );
    assert_eq!(profile_hash, Err(WordcelError::InvalidParameters));
    let no_bump = comment(
        key(1),
        key(31),
        &mut post,
        None,
        key(20),
        &mut profile,
        long_uri(),
        "comment-hash".to_string(),
    );
    assert_eq!(no_bump, Err(WordcelError::MissingBump));
    assert_post(&post, key(0), "", 0, "");
}

fn alice_post() -> Post {
    Post {
        profile: key(20),
        metadata_uri: "ipfs://old".to_string(),
        bump: 200,
        random_hash: "post-hash".to_string(),
    }
}

#[test]
fn update_post_replaces_uri() {
    let mut profile = alice_profile();
    let mut post = alice_post();
    let answer = update_post(key(1), key(20), &mut profile, key(30), &mut post, long_uri());
    assert_eq!(answer, Ok(()));
    assert_post(&post, key(20), &long_uri(), 200, "post-hash");
    assert_profile(&profile, key(1), 254, "alice-hash");
}

#[test]
fn update_post_through_other_profile_is_refused() {
    let mut profile = alice_profile();
    let mut post = alice_post();
    let answer = update_post(key(1), key(21), &mut profile, key(30), &mut post, long_uri());
    assert_eq!(answer, Err(WordcelError::InvalidParameters));
    assert_post(&post, key(20), "ipfs://old", 200, "post-hash");
}

#[test]
fn update_post_errors() {
    let mut profile = alice_profile();
    let mut post = alice_post();
    let stranger = update_post(key(2), key(20), &mut profile, key(30), &mut post, long_uri());
    assert_eq!(stranger, Err(WordcelError::InvalidParameters));
    let same_uri =
        update_post(key(1), key(20), &mut profile, key(30), &mut post, "ipfs://old".to_string());
    assert_eq!(same_uri, Err(WordcelError::InvalidParameters));
    let uri_is_hash =
        update_post(key(1), key(20), &mut profile, key(30), &mut post, "post-hash".to_string());
    assert_eq!(uri_is_hash, Err(WordcelError::InvalidParameters));
    let short =
        update_post(key(1), key(20), &mut profile, key(30), &mut post, "ipfs://new".to_string());
    assert_eq!(short, Err(WordcelError::UriLengthExceeded));
    let mut twin = Post { random_hash: "alice-hash".to_string(), ..alice_post() };
    let twin_hash = update_post(key(1), key(20), &mut profile, key(30), &mut twin, long_uri());
    assert_eq!(twin_hash, Err(WordcelError::InvalidParameters));
    assert_post(&post, key(20), "ipfs://old", 200, "post-hash");
}

#[test]
fn created_post_updates_only_through_its_profile() {
    let mut post = blank_post();
    let mut profile = alice_profile();
    let created = create_post(
        key(1),
        key(30),
        &mut post,
        Some(200),
        key(20),
        &mut profile,
        "post-hash".to_string(),
        "ipfs://post".to_string(),
    );
    assert_eq!(created, Ok(()));
    let mut other = Profile { authority: key(1), bump: 1, random_hash: "other".to_string() };
    let through_other = update_post(key(1), key(22), &mut other, key(30), &mut post, long_uri());
    assert_eq!(through_other, Err(WordcelError::InvalidParameters));
    let through_own = update_post(key(1), key(20), &mut profile, key(30), &mut post, long_uri());
    assert_eq!(through_own, Ok(()));
    assert_post(&post, key(20), &long_uri(), 200, "post-hash");
}

fn loaded(k: u8, authority: u8) -> LoadedProfile {
    LoadedProfile { key: key(k), authority: key(authority), bump: 1, random_hash: "h".to_string() }
}

#[test]
fn follow_links_two_profiles() {
    let me = loaded(10, 1);
    let them = loaded(11, 2);
    assert_eq!(check_follow(&key(1), &me, &them), Ok(()));
    let mut follow = Empty {
        account: LoadedConnection { key: key(40), profile: key(0), authority: key(0), bump: 0 },
        bump: Some(5),
    };
    follow_handler(key(1), &me, &them, &mut follow);
    assert!(follow.account.authority == key(10));
    assert!(follow.account.profile == key(11));
    assert_eq!(follow.account.bump, 5);
    assert!(follow.account.key == key(40));
}

#[test]
fn follow_errors() {
    let me = loaded(10, 1);
    assert_eq!(check_follow(&key(1), &me, &me), Err(WordcelError::StopCheating));
    assert_eq!(check_follow(&key(2), &me, &loaded(11, 2)), Err(WordcelError::StopCheating));
    // following the signer's own address
    assert_eq!(check_follow(&key(1), &me, &loaded(1, 2)), Err(WordcelError::StopCheating));
}

#[test]
fn handlers_fill_accounts() {
    let mut profile = Empty { account: loaded(10, 0), bump: Some(3) };
    create_profile_handler(key(1), "new".to_string(), &mut profile);
    assert!(profile.account.authority == key(1));
    assert_eq!(profile.account.random_hash, "new");
    assert_eq!(profile.account.bump, 3);
    assert!(profile.account.key == key(10));

    let author = loaded(10, 1);
    assert_eq!(check_create_post(&key(1), &"p".to_string(), &"u".to_string(), &author), Ok(()));
    let mut post = Empty {
        account: LoadedPost {
            key: key(30),
            profile: key(0),
            metadata_uri: String::new(),
            bump: 0,
            random_hash: String::new(),
        },
        bump: Some(8),
    };
    create_post_handler(key(1), "p".to_string(), &mut post, "u".to_string(), &author);
    assert!(post.account.profile == key(10));
    assert_eq!(post.account.metadata_uri, "u");
    assert_eq!(post.account.random_hash, "p");
    assert_eq!(post.account.bump, 8);

    assert_eq!(check_comment(&key(1), &long_uri(), &"c".to_string(), &author), Ok(()));
    comment_handler(key(1), long_uri(), "c".to_string(), &mut post, &author);
    assert_eq!(post.account.random_hash, "c");
    assert_eq!(post.account.metadata_uri, long_uri());

    let mut written = post.account;
    assert_eq!(check_update_post(&key(1), &"x".repeat(200), &author, &written), Ok(()));
    update_post_handler(key(1), "x".repeat(200), &author, &mut written);
    assert_eq!(written.metadata_uri, "x".repeat(200));
    assert_eq!(written.random_hash, "c");
}

#[test]
fn wrapped_index_counts_back_from_the_end() {
    let items = Mutable::new(vec![10, 20, 30, 40, 50]);
    assert_eq!(items.wrapped_index(2), 2);
    assert_eq!(items.wrapped_index(-1), 4);
    assert_eq!(items.wrapped_index(-5), 0);
    // zero is not positive, so it is added to the length
    assert_eq!(items.wrapped_index(0), 5);
    assert_eq!(items.borrow().len(), 5);
    let array = Mutable::new([1u8, 2, 3]);
    assert_eq!(array.wrapped_index(1), 1);
    assert_eq!(array.wrapped_index(-3), 0);
    assert_eq!(array.wrapped_index(0), 3);
}

#[test]
fn error_messages() {
    assert_eq!(WordcelError::InvalidParameters.message(), "Invalid parameters");
    assert_eq!(WordcelError::UriLengthExceeded.message(), "Uri length exceeded");
    assert_eq!(
        WordcelError::StopCheating.message(),
        "STOP CHEATING AND CHECK YOUR PROFILES !"
    );
    assert_eq!(WordcelError::MissingBump.message(), "bump seed missing");
}
