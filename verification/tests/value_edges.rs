//! Edge cases of identifiers, durable encodings, bounded texts and error texts.
use oteryn_game_server::admission::{
    AdmissionError, ControlLossEpochRefV1, ReconnectAttemptRef, ReconnectDurabilityErrorV1,
};
use oteryn_game_server::durability::{AccountPresenceClaimV1, AuthorityEvidenceFenceV1, StateDomainRevisionV1};
use oteryn_game_server::ids::{CharacterId, ConnectionGeneration, FoundationValueError, GameSessionId};

fn uuid_v7(last: u8) -> [u8; 16] {
    let mut b = [0; 16];
    b[6] = 0x70;
    b[8] = 0x80;
    b[15] = last;
    b
}

#[test]
fn identifiers_accept_only_canonical_uuid_v7_bytes() {
    assert!(GameSessionId::decode(&uuid_v7(1)).is_ok());
    let mut version_four = uuid_v7(1);
    version_four[6] = 0x40;
    assert_eq!(GameSessionId::decode(&version_four), Err(FoundationValueError::InvalidIdentifier));
    let mut wrong_variant = uuid_v7(1);
    wrong_variant[8] = 0xc0;
    assert_eq!(GameSessionId::decode(&wrong_variant), Err(FoundationValueError::InvalidIdentifier));
    assert_eq!(GameSessionId::decode(&uuid_v7(1)[..15]), Err(FoundationValueError::InvalidIdentifier));
    assert_ne!(GameSessionId::decode(&uuid_v7(1)), GameSessionId::decode(&uuid_v7(2)));
    assert_eq!(ConnectionGeneration::new(0), Err(FoundationValueError::ZeroValue));
    assert_eq!(ConnectionGeneration::new(5).map(|g| g.get()), Ok(5));
}

#[test]
fn attempt_refs_round_trip_their_durable_bytes() -> Result<(), AdmissionError> {
    let attempt = ReconnectAttemptRef::new(0x0102_0304_0506_0708)?;
    let bytes = attempt.to_be_bytes();
    assert_eq!(bytes, [1, 2, 3, 4, 5, 6, 7, 8]);
    assert_eq!(ReconnectAttemptRef::decode(&bytes)?, attempt);
    assert_eq!(ReconnectAttemptRef::decode(&[0; 8]), Err(AdmissionError::InvalidFacts));
    assert_eq!(ReconnectAttemptRef::decode(&bytes[..7]), Err(AdmissionError::InvalidFacts));
    assert_eq!(ReconnectAttemptRef::new(0), Err(AdmissionError::InvalidFacts));
    assert_eq!(ControlLossEpochRefV1::new(0), Err(ReconnectDurabilityErrorV1::InvalidRecord));
    Ok(())
}

#[test]
fn account_ids_must_be_canonical_lower_case_non_nil_uuids() -> Result<(), Box<dyn std::error::Error>> {
    let character = CharacterId::decode(&uuid_v7(2)).map_err(|_| "character")?;
    assert!(AccountPresenceClaimV1::new("123e4567-e89b-12d3-a456-426614174000", character).is_ok());
    for rejected in [
        "123E4567-E89B-12D3-A456-426614174000",
        "00000000-0000-0000-0000-000000000000",
        "123e4567e89b12d3a456426614174000",
        "123e4567-e89b-12d3-a456-42661417400",
        "123e4567-e89b-12d3-a456_426614174000",
        "123e4567-e89b-12d3-a456-42661417400g",
        "",
    ] {
        assert_eq!(
            AccountPresenceClaimV1::new(rejected, character).err(),
            Some(ReconnectDurabilityErrorV1::InvalidRecord),
            "{rejected}"
        );
    }
    Ok(())
}

#[test]
fn evidence_texts_are_bounded_visible_ascii() {
    let fence = |authority: &str| AuthorityEvidenceFenceV1::new(authority, "reconnect", "account", "rev:1", "decision:1", 10);
    assert!(fence("platform-security").is_ok());
    assert!(fence(&"a".repeat(128)).is_ok());
    assert_eq!(fence(&"a".repeat(129)).err(), Some(ReconnectDurabilityErrorV1::InvalidRecord));
    assert_eq!(fence("").err(), Some(ReconnectDurabilityErrorV1::InvalidRecord));
    assert_eq!(fence("platform security").err(), Some(ReconnectDurabilityErrorV1::InvalidRecord));
    assert_eq!(fence("plätform").err(), Some(ReconnectDurabilityErrorV1::InvalidRecord));
    assert_eq!(
        AuthorityEvidenceFenceV1::new("a", "b", "c", "d", "e", -1).err(),
        Some(ReconnectDurabilityErrorV1::InvalidRecord)
    );
    assert_eq!(StateDomainRevisionV1::new(0, 1).err(), Some(ReconnectDurabilityErrorV1::InvalidRecord));
    assert_eq!(StateDomainRevisionV1::new(3, 0).map(|d| (d.domain_id(), d.revision())), Ok((3, 0)));
}

#[test]
fn admission_errors_describe_themselves() {
    assert_eq!(AdmissionError::InvalidFacts.message(), "fresh admission facts are invalid");
    assert_eq!(AdmissionError::GrantReplayed.message(), "fresh admission grant was already consumed");
    assert_eq!(AdmissionError::IncumbentHealthy.message(), "current transport binding is healthy");
    assert_eq!(AdmissionError::SessionNotReconnectable.message(), "game session is not reconnectable");
    assert_eq!(AdmissionError::StaleConnection.message(), "connection generation is stale");
    assert_eq!(AdmissionError::StaleLease.message(), "character lease generation is stale");
    assert_eq!(AdmissionError::StaleRuntime.message(), "runtime ownership generation is stale");
    assert_eq!(AdmissionError::AttemptMismatch.message(), "reconnect attempt does not match prepared candidate");
    assert_eq!(
        AdmissionError::ReconciliationUnavailable.message(),
        "authority outcome requires authoritative reconciliation"
    );
    assert_eq!(AdmissionError::GenerationExhausted.message(), "connection generation space is exhausted");
    assert_eq!(AdmissionError::Terminal.message(), "game session is terminal");
}
