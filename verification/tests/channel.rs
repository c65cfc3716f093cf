use client::channel::{Channel, ChannelErrors};
use client::crypto::{encrypt, generate_key_pair, Algorithm};

fn peer_key() -> [u8; 32] {
    generate_key_pair(Algorithm::X25519).pub_key().try_into().unwrap()
}

#[test]
fn callout_is_a_public_key() {
    let channel = Channel::new();
    assert_eq!(channel.callout().len(), 32);
}

#[test]
fn join_seals_the_channel_key() {
    let channel = Channel::new();
    let handshake = channel.join(peer_key()).unwrap();
    assert_eq!(handshake.cipher_text.len(), 32 + 16);
}

#[test]
fn handshake_with_shared_secret_admits_once() {
    let host = Channel::new();
    let mut member_list = Channel::new();
    let shared = [11u8; 32];
    let client = peer_key();

    let handshake = host.join_with_secret(&shared).unwrap();
    assert_eq!(
        member_list.on_join_with_secret(handshake.clone(), client, &shared),
        Ok(())
    );
    assert_eq!(
        member_list.on_join_with_secret(handshake.clone(), client, &shared),
        Err(ChannelErrors::AlreadyJoined)
    );

    member_list.on_leave(client);
    assert_eq!(
        member_list.on_join_with_secret(handshake, client, &shared),
        Ok(())
    );
}

#[test]
fn handshake_under_other_secret_fails() {
    let host = Channel::new();
    let mut member_list = Channel::new();
    let handshake = host.join_with_secret(&[1u8; 32]).unwrap();
    assert_eq!(
        member_list.on_join_with_secret(handshake, peer_key(), &[2u8; 32]),
        Err(ChannelErrors::FailedToJoin)
    );
}

#[test]
fn handshake_that_is_not_a_key_fails() {
    let mut channel = Channel::new();
    let shared = [3u8; 32];
    let handshake = encrypt(vec![1, 2, 3], &shared).unwrap();
    assert_eq!(
        channel.on_join_with_secret(handshake, peer_key(), &shared),
        Err(ChannelErrors::FailedToJoin)
    );
}

#[test]
fn fresh_secrets_do_not_match() {
    let host = Channel::new();
    let mut other = Channel::new();
    let client = peer_key();
    let handshake = host.join(client).unwrap();
    assert_eq!(
        other.on_join(handshake, client),
        Err(ChannelErrors::FailedToJoin)
    );
}

#[test]
fn leaving_an_unknown_client_is_harmless() {
    let mut channel = Channel::new();
    let before: Vec<u8> = channel.callout().to_vec();
    channel.on_leave(peer_key());
    assert_eq!(channel.callout(), before.as_slice());
}

#[test]
fn leave_keeps_other_members() {
    let host = Channel::new();
    let mut channel = Channel::new();
    let shared = [5u8; 32];
    let first = peer_key();
    let second = peer_key();
    let handshake = host.join_with_secret(&shared).unwrap();
    channel
        .on_join_with_secret(handshake.clone(), first, &shared)
        .unwrap();
    channel
        .on_join_with_secret(handshake.clone(), second, &shared)
        .unwrap();
    channel.on_leave(first);
    assert_eq!(
        channel.on_join_with_secret(handshake.clone(), second, &shared),
        Err(ChannelErrors::AlreadyJoined)
    );
    assert_eq!(
        channel.on_join_with_secret(handshake, first, &shared),
        Ok(())
    );
}

#[test]
fn channel_error_descriptions() {
    assert_eq!(
        ChannelErrors::UnknownClient.description(),
        "This client is not registered yet. Unknown client."
    );
    assert_eq!(
        ChannelErrors::AlreadyJoined.description(),
        "cannot add this client. Already joined."
    );
    assert_eq!(
        ChannelErrors::FailedToJoin.description(),
        "Failed to join the channel. please try again."
    );
}

#[test]
fn channels_compare_by_keys_and_members() {
    let channel = Channel::new();
    let other = Channel::new();
    assert!(channel == channel);
    assert!(channel != other);
}
