//! Transaction hashes and the other parts of transactions.

use std::str::FromStr;
use txscript::primitives::transaction::TxHash;
use txscript::utils::PlaceholderIndexed;

#[test]
fn test_tx_hash_string() {
    let hash = TxHash::placeholder_indexed(0);
    let string = hash.to_string();
    assert_eq!(string, "g1a30d8257870b5d077fc55d1faa63aa");
    assert_eq!(TxHash::from_str(&string).unwrap(), hash);
}

#[test]
fn test_tx_hash_slice() {
    let hash = TxHash::placeholder_indexed(0);
    let bytes = hash.as_ref().to_vec();
    assert_eq!(hex::encode(&bytes), "1a30d8257870b5d077fc55d1faa63aa0");
    assert_eq!(TxHash::from_slice(&bytes).unwrap(), hash);
}
