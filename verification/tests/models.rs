//! Records of transactions that carry metadata.

use txscript::models::transaction::{AssetType, Transaction, TransactionError};

#[test]
fn test_metadata_update() {
    let original_tx = Transaction::new(
        "original_tx_hash".to_string(),
        "original_genesis_hash".to_string(),
        AssetType::Item,
        Some("Original metadata".to_string()),
    );

    let mut updated_tx = original_tx.clone();
    updated_tx.update_metadata("Updated metadata".to_string());

    assert_eq!(updated_tx.metadata.unwrap(), "Updated metadata");
    assert_eq!(updated_tx.genesis_hash, updated_tx.id);
}

#[test]
fn test_validation_success() {
    let original_tx = Transaction::new(
        "original_tx_hash".to_string(),
        "original_genesis_hash".to_string(),
        AssetType::Item,
        Some("Original metadata".to_string()),
    );

    let updated_tx =
        Transaction::create_metadata_update(&original_tx, "Updated metadata".to_string());

    let input_tx = original_tx.clone();
    assert!(updated_tx.validate(Some(&input_tx)).is_ok());
}

#[test]
fn test_validation_failure() {
    let original_tx = Transaction::new(
        "original_tx_hash".to_string(),
        "original_genesis_hash".to_string(),
        AssetType::Item,
        Some("Original metadata".to_string()),
    );

    let mut updated_tx =
        Transaction::create_metadata_update(&original_tx, "Updated metadata".to_string());
    // Introduce invalid genesis hash
    updated_tx.genesis_hash = "invalid_genesis_hash".to_string();

    let input_tx = original_tx.clone();
    assert!(matches!(
        updated_tx.validate(Some(&input_tx)),
        Err(TransactionError::InvalidGenesisHash)
    ));
}

#[test]
fn test_genesis_transaction_validation() {
    let genesis_tx = Transaction::new(
        "genesis_tx_hash".to_string(),
        "genesis_tx_hash".to_string(),
        AssetType::Item,
        Some("Genesis metadata".to_string()),
    );

    assert!(genesis_tx.validate(None).is_ok());

    let mut invalid_genesis_tx = genesis_tx.clone();
    invalid_genesis_tx.genesis_hash = "wrong_genesis_hash".to_string();

    assert!(matches!(
        invalid_genesis_tx.validate(None),
        Err(TransactionError::InvalidGenesisHash)
    ));
}
