use identity_program::codec::deserialize;
use identity_program::codec::serialize;
use identity_program::codec::serialize_asset_creation;
use identity_program::codec::serialize_credential_verification;
use identity_program::codec::serialize_role_sync;
use identity_program::codec::serialize_token_transfer;
use identity_program::codec::serialize_verification;
use identity_program::dispatch::build_reply;
use identity_program::dispatch::confirm_token_transfer;
use identity_program::dispatch::receive_message;
use identity_program::dispatch::text_of;
use identity_program::dispatch::try_receive_message;
use identity_program::dispatch::Outcome;
use identity_program::dispatch::REMOTE_CHAIN_ID;
use identity_program::registry::CredentialRegistry;
use identity_program::types::AssetCreationEvent;
use identity_program::types::CredentialVerificationEvent;
use identity_program::types::CredentialVerificationResponse;
use identity_program::types::DIDResolutionEvent;
use identity_program::types::DIDResolutionResponse;
use identity_program::types::ErrorCode;
use identity_program::types::MessagePayload;
use identity_program::types::MessageType;
use identity_program::types::ProgramState;
use identity_program::types::RoleSyncEvent;
use identity_program::types::RoleSyncResponse;
use identity_program::types::TokenTransferResponse;
use identity_program::types::VerificationEvent;
use identity_program::types::VerificationResponse;

const SHA256_OF_42: [u8; 32] = [
    237, 4, 145, 8, 188, 24, 242, 198, 67, 105, 232, 208, 234, 66, 133, 11, 221, 26, 125, 29, 211,
    64, 207, 222, 113, 99, 21, 87, 151, 2, 167, 108,
];

const SHA256_OF_7: [u8; 32] = [
    170, 232, 159, 192, 240, 62, 41, 89, 174, 77, 112, 26, 128, 204, 57, 21, 145, 140, 149, 11,
    21, 159, 106, 187, 108, 146, 193, 67, 59, 26, 133, 52,
];

const SHA256_OF_77: [u8; 32] = [
    13, 27, 80, 7, 151, 232, 140, 15, 146, 223, 188, 209, 53, 142, 96, 235, 53, 5, 18, 4, 133,
    130, 150, 137, 227, 118, 225, 59, 171, 68, 186, 100,
];

fn state() -> ProgramState {
    ProgramState {
        authority: [1u8; 32],
        verification_count: 10,
        credential_count: 20,
    }
}

fn envelope(msg_type: MessageType, data: Vec<u8>) -> Vec<u8> {
    serialize(&MessagePayload {
        msg_type,
        data,
        timestamp: 1,
        message_id: [0u8; 32],
    })
    .unwrap()
}

#[test]
fn verification_is_counted_and_answered() {
    let mut s = state();
    let registry = CredentialRegistry::new();
    let vaa = envelope(
        MessageType::Verification,
        serialize_verification(42, b"did:example:alice").unwrap(),
    );
    let outcome = receive_message(&mut s, &registry, &vaa, REMOTE_CHAIN_ID, 1_700_000_000).unwrap();
    assert_eq!(s.verification_count, 11);
    assert_eq!(s.credential_count, 20);
    assert_eq!(s.authority, [1u8; 32]);
    match outcome {
        Outcome::Verification { event, reply } => {
            assert_eq!(
                event,
                VerificationEvent {
                    request_id: 42,
                    did: String::from("did:example:alice"),
                    verified: true,
                }
            );
            let reply = deserialize(&reply).unwrap();
            assert_eq!(reply.msg_type, MessageType::VerificationResponse);
            assert_eq!(reply.timestamp, 1_700_000_000);
            assert_eq!(reply.message_id, SHA256_OF_42);
            assert_eq!(
                VerificationResponse::deserialize(&reply.data),
                Ok(VerificationResponse { request_id: 42, verified: true })
            );
        }
        other => panic!("unexpected outcome {:?}", other),
    }
}

#[test]
fn did_resolution_is_counted_and_answered() {
    let mut s = state();
    let registry = CredentialRegistry::new();
    let vaa = envelope(
        MessageType::DIDResolution,
        serialize_verification(7, b"did:web:example.org").unwrap(),
    );
    let outcome = receive_message(&mut s, &registry, &vaa, 2, 5).unwrap();
    assert_eq!(s.verification_count, 11);
    assert_eq!(s.credential_count, 20);
    match outcome {
        Outcome::DIDResolution { event, reply } => {
            assert_eq!(
                event,
                DIDResolutionEvent {
                    request_id: 7,
                    did: String::from("did:web:example.org"),
                    resolved: true,
                }
            );
            let reply = deserialize(&reply).unwrap();
            assert_eq!(reply.msg_type, MessageType::DIDResolutionResponse);
            assert_eq!(reply.timestamp, 5);
            assert_eq!(reply.message_id, SHA256_OF_7);
            assert_eq!(
                DIDResolutionResponse::deserialize(&reply.data),
                Ok(DIDResolutionResponse {
                    request_id: 7,
                    resolved: true,
                    did_document: Vec::new(),
                })
            );
        }
        other => panic!("unexpected outcome {:?}", other),
    }
}

#[test]
fn asset_creation_is_noted_without_reply_or_count() {
    let mut s = state();
    let registry = CredentialRegistry::new();
    let vaa = envelope(
        MessageType::AssetCreation,
        serialize_asset_creation(&[3u8; 32], b"Gold", b"GLD").unwrap(),
    );
    let outcome = receive_message(&mut s, &registry, &vaa, 2, 5).unwrap();
    assert_eq!(s, state());
    assert_eq!(
        outcome,
        Outcome::AssetCreation {
            event: AssetCreationEvent {
                issuer: [3u8; 32],
                name: String::from("Gold"),
                symbol: String::from("GLD"),
            }
        }
    );
}

#[test]
fn token_transfer_asks_for_a_mint() {
    let mut s = state();
    let registry = CredentialRegistry::new();
    let vaa = envelope(
        MessageType::TokenTransfer,
        serialize_token_transfer(77, &[4u8; 32], 5_000),
    );
    let outcome = receive_message(&mut s, &registry, &vaa, 2, 5).unwrap();
    assert_eq!(s, state());
    assert_eq!(
        outcome,
        Outcome::TokenTransfer {
            transfer_id: 77,
            token_address: [4u8; 32],
            amount: 5_000,
        }
    );
}

#[test]
fn token_transfer_reply_reports_success() {
    let reply = deserialize(&confirm_token_transfer(77, 99)).unwrap();
    assert_eq!(reply.msg_type, MessageType::TokenTransferResponse);
    assert_eq!(reply.timestamp, 99);
    assert_eq!(reply.message_id, SHA256_OF_77);
    assert_eq!(
        TokenTransferResponse::deserialize(&reply.data),
        Ok(TokenTransferResponse { transfer_id: 77, success: true })
    );
}

#[test]
fn malformed_token_transfer_is_refused() {
    let mut s = state();
    let registry = CredentialRegistry::new();
    let vaa = envelope(MessageType::TokenTransfer, vec![0u8; 47]);
    assert_eq!(
        receive_message(&mut s, &registry, &vaa, 2, 5),
        Err(ErrorCode::MalformedPayload)
    );
    assert_eq!(s, state());
}

#[test]
fn credential_verification_is_counted_and_answered() {
    let mut s = state();
    let registry = CredentialRegistry::new();
    let vaa = envelope(
        MessageType::CredentialVerification,
        serialize_credential_verification(42, &[6u8; 32]),
    );
    let outcome = receive_message(&mut s, &registry, &vaa, 2, 5).unwrap();
    assert_eq!(s.verification_count, 10);
    assert_eq!(s.credential_count, 21);
    match outcome {
        Outcome::CredentialVerification { event, reply } => {
            assert_eq!(
                event,
                CredentialVerificationEvent {
                    request_id: 42,
                    credential_hash: [6u8; 32],
                    verified: true,
                }
            );
            let reply = deserialize(&reply).unwrap();
            assert_eq!(reply.msg_type, MessageType::CredentialVerificationResponse);
            assert_eq!(reply.message_id, SHA256_OF_42);
            assert_eq!(
                CredentialVerificationResponse::deserialize(&reply.data),
                Ok(CredentialVerificationResponse { request_id: 42, verified: true })
            );
        }
        other => panic!("unexpected outcome {:?}", other),
    }
}

#[test]
fn role_synchronization_is_answered_without_count() {
    let mut s = state();
    let registry = CredentialRegistry::new();
    let vaa = envelope(
        MessageType::RoleSynchronization,
        serialize_role_sync(7, &[1u8; 32], &[2u8; 32], false),
    );
    let outcome = receive_message(&mut s, &registry, &vaa, 2, 5).unwrap();
    assert_eq!(s, state());
    match outcome {
        Outcome::RoleSynchronization { event, reply } => {
            assert_eq!(
                event,
                RoleSyncEvent {
                    request_id: 7,
                    role: [1u8; 32],
                    account: [2u8; 32],
                    is_grant: false,
                }
            );
            let reply = deserialize(&reply).unwrap();
            assert_eq!(reply.msg_type, MessageType::RoleSyncResponse);
            assert_eq!(reply.message_id, SHA256_OF_7);
            assert_eq!(
                RoleSyncResponse::deserialize(&reply.data),
                Ok(RoleSyncResponse { request_id: 7, success: true })
            );
        }
        other => panic!("unexpected outcome {:?}", other),
    }
}

#[test]
fn another_chain_is_refused_for_every_request() {
    let registry = CredentialRegistry::new();
    let requests = vec![
        envelope(
            MessageType::Verification,
            serialize_verification(1, b"did:a").unwrap(),
        ),
        envelope(
            MessageType::AssetCreation,
            serialize_asset_creation(&[0u8; 32], b"n", b"s").unwrap(),
        ),
        envelope(
            MessageType::TokenTransfer,
            serialize_token_transfer(1, &[0u8; 32], 1),
        ),
        envelope(
            MessageType::CredentialVerification,
            serialize_credential_verification(1, &[0u8; 32]),
        ),
        envelope(
            MessageType::RoleSynchronization,
            serialize_role_sync(1, &[0u8; 32], &[0u8; 32], true),
        ),
        envelope(
            MessageType::DIDResolution,
            serialize_verification(1, b"did:a").unwrap(),
        ),
    ];
    for vaa in requests.iter() {
        for chain in [0u16, 1, 3, u16::MAX] {
            let mut s = state();
            assert_eq!(
                receive_message(&mut s, &registry, vaa, chain, 5),
                Err(ErrorCode::InvalidChain)
            );
            assert_eq!(s, state());
        }
    }
}

#[test]
fn the_frame_is_checked_before_the_chain() {
    let mut s = state();
    let registry = CredentialRegistry::new();
    assert_eq!(
        receive_message(&mut s, &registry, &[0u8; 3], 9, 5),
        Err(ErrorCode::MalformedPayload)
    );
    assert_eq!(s, state());
}

#[test]
fn reply_types_and_unknown_tags_are_refused() {
    let registry = CredentialRegistry::new();
    let replies = [
        MessageType::VerificationResponse,
        MessageType::TokenTransferResponse,
        MessageType::CredentialVerificationResponse,
        MessageType::RoleSyncResponse,
        MessageType::DIDResolutionResponse,
    ];
    for msg_type in replies {
        let mut s = state();
        let vaa = envelope(msg_type, vec![0u8; 80]);
        assert_eq!(
            receive_message(&mut s, &registry, &vaa, 2, 5),
            Err(ErrorCode::InvalidMessageType)
        );
        assert_eq!(s, state());
    }
    let mut s = state();
    let mut vaa = envelope(MessageType::Verification, vec![0u8; 80]);
    vaa[0] = 200;
    assert_eq!(
        receive_message(&mut s, &registry, &vaa, 2, 5),
        Err(ErrorCode::InvalidMessageType)
    );
    assert_eq!(s, state());
}

#[test]
fn text_that_is_not_utf8_is_an_encoding_error() {
    let registry = CredentialRegistry::new();
    let mut s = state();
    let vaa = envelope(
        MessageType::Verification,
        serialize_verification(1, &[0xff, 0xfe]).unwrap(),
    );
    assert_eq!(
        receive_message(&mut s, &registry, &vaa, 2, 5),
        Err(ErrorCode::EncodingError)
    );
    assert_eq!(s, state());
    let vaa = envelope(
        MessageType::AssetCreation,
        serialize_asset_creation(&[0u8; 32], b"ok", &[0xc0]).unwrap(),
    );
    assert_eq!(
        receive_message(&mut s, &registry, &vaa, 2, 5),
        Err(ErrorCode::EncodingError)
    );
    let vaa = envelope(
        MessageType::DIDResolution,
        serialize_verification(1, &[0x80]).unwrap(),
    );
    assert_eq!(
        receive_message(&mut s, &registry, &vaa, 2, 5),
        Err(ErrorCode::EncodingError)
    );
    assert_eq!(s, state());
}

#[test]
fn too_long_did_is_refused_by_the_dispatch() {
    let registry = CredentialRegistry::new();
    let mut s = state();
    let mut data = vec![0u8; 8];
    data.extend_from_slice(&129u32.to_le_bytes());
    data.extend_from_slice(&[b'a'; 129]);
    let vaa = envelope(MessageType::Verification, data);
    assert_eq!(
        receive_message(&mut s, &registry, &vaa, 2, 5),
        Err(ErrorCode::FieldTooLong)
    );
    assert_eq!(s, state());
}

#[test]
fn text_of_decodes_utf8() {
    assert_eq!(
        text_of("héllo ✓".as_bytes().to_vec()),
        Ok(String::from("héllo ✓"))
    );
    assert_eq!(text_of(Vec::new()), Ok(String::new()));
    assert_eq!(text_of(vec![0xff]), Err(ErrorCode::EncodingError));
}

#[test]
fn reply_is_stamped_and_identified_by_the_correlator() {
    let reply = build_reply(MessageType::VerificationResponse, vec![1, 2, 3], 42, 1234);
    assert_eq!(
        reply,
        MessagePayload {
            msg_type: MessageType::VerificationResponse,
            data: vec![1, 2, 3],
            timestamp: 1234,
            message_id: SHA256_OF_42,
        }
    );
}

#[test]
fn reply_identifier_is_the_same_for_the_same_correlator() {
    let first = build_reply(MessageType::VerificationResponse, vec![1], 42, 1);
    let second = build_reply(MessageType::RoleSyncResponse, vec![2, 3], 42, 999);
    assert_eq!(first.message_id, second.message_id);
    let other = build_reply(MessageType::VerificationResponse, vec![1], 7, 1);
    assert_ne!(first.message_id, other.message_id);
    assert_eq!(other.message_id, SHA256_OF_7);
}

#[test]
fn negative_clock_reading_wraps() {
    let reply = build_reply(MessageType::VerificationResponse, Vec::new(), 42, -1);
    assert_eq!(reply.timestamp, u64::MAX);
}

#[test]
fn failed_dispatch_does_not_count() {
    let registry = CredentialRegistry::new();
    let mut s = state();
    let good = envelope(
        MessageType::Verification,
        serialize_verification(1, b"did:a").unwrap(),
    );
    let bad = envelope(MessageType::Verification, vec![0u8; 5]);
    assert!(receive_message(&mut s, &registry, &good, 2, 5).is_ok());
    assert_eq!(
        receive_message(&mut s, &registry, &bad, 2, 5),
        Err(ErrorCode::MalformedPayload)
    );
    assert!(receive_message(&mut s, &registry, &good, 3, 5).is_err());
    assert!(receive_message(&mut s, &registry, &good, 2, 5).is_ok());
    assert_eq!(s.verification_count, 12);
    assert_eq!(s.credential_count, 20);
}

fn full_state() -> ProgramState {
    ProgramState {
        authority: [1u8; 32],
        verification_count: u64::MAX,
        credential_count: u64::MAX,
    }
}

#[test]
fn a_full_counter_stops_only_the_requests_that_count() {
    let registry = CredentialRegistry::new();
    let counted = vec![
        envelope(
            MessageType::Verification,
            serialize_verification(1, b"did:a").unwrap(),
        ),
        envelope(
            MessageType::DIDResolution,
            serialize_verification(1, b"did:a").unwrap(),
        ),
        envelope(
            MessageType::CredentialVerification,
            serialize_credential_verification(1, &[0u8; 32]),
        ),
    ];
    for vaa in counted.iter() {
        let mut s = full_state();
        assert_eq!(try_receive_message(&mut s, &registry, vaa, 2, 5), None);
        assert_eq!(s, full_state());
        assert_eq!(
            try_receive_message(&mut s, &registry, vaa, 3, 5),
            Some(Err(ErrorCode::InvalidChain))
        );
    }
    let mut s = full_state();
    let transfer = envelope(
        MessageType::TokenTransfer,
        serialize_token_transfer(77, &[4u8; 32], 5_000),
    );
    assert_eq!(
        receive_message(&mut s, &registry, &transfer, 2, 5),
        Ok(Outcome::TokenTransfer {
            transfer_id: 77,
            token_address: [4u8; 32],
            amount: 5_000,
        })
    );
    let bad = envelope(MessageType::Verification, vec![0u8; 3]);
    assert_eq!(
        receive_message(&mut s, &registry, &bad, 2, 5),
        Err(ErrorCode::MalformedPayload)
    );
    assert_eq!(s, full_state());
}

#[test]
fn one_counter_full_leaves_the_other_free() {
    let registry = CredentialRegistry::new();
    let mut s = ProgramState {
        authority: [1u8; 32],
        verification_count: u64::MAX,
        credential_count: 0,
    };
    let vaa = envelope(
        MessageType::CredentialVerification,
        serialize_credential_verification(1, &[0u8; 32]),
    );
    assert!(matches!(
        try_receive_message(&mut s, &registry, &vaa, 2, 5),
        Some(Ok(Outcome::CredentialVerification { .. }))
    ));
    assert_eq!(s.credential_count, 1);
    assert_eq!(s.verification_count, u64::MAX);
}

#[test]
fn try_receive_agrees_with_receive() {
    let registry = CredentialRegistry::new();
    let vaa = envelope(
        MessageType::RoleSynchronization,
        serialize_role_sync(7, &[1u8; 32], &[2u8; 32], true),
    );
    let mut first = state();
    let mut second = state();
    assert_eq!(
        try_receive_message(&mut first, &registry, &vaa, 2, 5),
        Some(receive_message(&mut second, &registry, &vaa, 2, 5))
    );
    assert_eq!(first, second);
}
