use indy::ErrorCode;

const ALL: [(ErrorCode, i32, &str); 71] = [
    (ErrorCode::Success, 0, "Success"),
    (ErrorCode::CommonInvalidParam1, 100, "CommonInvalidParam1"),
    (ErrorCode::CommonInvalidParam2, 101, "CommonInvalidParam2"),
    (ErrorCode::CommonInvalidParam3, 102, "CommonInvalidParam3"),
    (ErrorCode::CommonInvalidParam4, 103, "CommonInvalidParam4"),
    (ErrorCode::CommonInvalidParam5, 104, "CommonInvalidParam5"),
    (ErrorCode::CommonInvalidParam6, 105, "CommonInvalidParam6"),
    (ErrorCode::CommonInvalidParam7, 106, "CommonInvalidParam7"),
    (ErrorCode::CommonInvalidParam8, 107, "CommonInvalidParam8"),
    (ErrorCode::CommonInvalidParam9, 108, "CommonInvalidParam9"),
    (ErrorCode::CommonInvalidParam10, 109, "CommonInvalidParam10"),
    (ErrorCode::CommonInvalidParam11, 110, "CommonInvalidParam11"),
    (ErrorCode::CommonInvalidParam12, 111, "CommonInvalidParam12"),
    (ErrorCode::CommonInvalidState, 112, "CommonInvalidState"),
    (ErrorCode::CommonInvalidStructure, 113, "CommonInvalidStructure"),
    (ErrorCode::CommonIOError, 114, "CommonIOError"),
    (ErrorCode::CommonInvalidParam13, 115, "CommonInvalidParam13"),
    (ErrorCode::CommonInvalidParam14, 116, "CommonInvalidParam14"),
    (ErrorCode::CommonInvalidParam15, 117, "CommonInvalidParam15"),
    (ErrorCode::CommonInvalidParam16, 118, "CommonInvalidParam16"),
    (ErrorCode::CommonInvalidParam17, 119, "CommonInvalidParam17"),
    (ErrorCode::CommonInvalidParam18, 120, "CommonInvalidParam18"),
    (ErrorCode::CommonInvalidParam19, 121, "CommonInvalidParam19"),
    (ErrorCode::CommonInvalidParam20, 122, "CommonInvalidParam20"),
    (ErrorCode::CommonInvalidParam21, 123, "CommonInvalidParam21"),
    (ErrorCode::CommonInvalidParam22, 124, "CommonInvalidParam22"),
    (ErrorCode::CommonInvalidParam23, 125, "CommonInvalidParam23"),
    (ErrorCode::CommonInvalidParam24, 126, "CommonInvalidParam24"),
    (ErrorCode::CommonInvalidParam25, 127, "CommonInvalidParam25"),
    (ErrorCode::CommonInvalidParam26, 128, "CommonInvalidParam26"),
    (ErrorCode::CommonInvalidParam27, 129, "CommonInvalidParam27"),
    (ErrorCode::WalletInvalidHandle, 200, "WalletInvalidHandle"),
    (ErrorCode::WalletUnknownTypeError, 201, "WalletUnknownTypeError"),
    (ErrorCode::WalletTypeAlreadyRegisteredError, 202, "WalletTypeAlreadyRegisteredError"),
    (ErrorCode::WalletAlreadyExistsError, 203, "WalletAlreadyExistsError"),
    (ErrorCode::WalletNotFoundError, 204, "WalletNotFoundError"),
    (ErrorCode::WalletIncompatiblePoolError, 205, "WalletIncompatiblePoolError"),
    (ErrorCode::WalletAlreadyOpenedError, 206, "WalletAlreadyOpenedError"),
    (ErrorCode::WalletAccessFailed, 207, "WalletAccessFailed"),
    (ErrorCode::WalletInputError, 208, "WalletInputError"),
    (ErrorCode::WalletDecodingError, 209, "WalletDecodingError"),
    (ErrorCode::WalletStorageError, 210, "WalletStorageError"),
    (ErrorCode::WalletEncryptionError, 211, "WalletEncryptionError"),
    (ErrorCode::WalletItemNotFound, 212, "WalletItemNotFound"),
    (ErrorCode::WalletItemAlreadyExists, 213, "WalletItemAlreadyExists"),
    (ErrorCode::WalletQueryError, 214, "WalletQueryError"),
    (ErrorCode::PoolLedgerNotCreatedError, 300, "PoolLedgerNotCreatedError"),
    (ErrorCode::PoolLedgerInvalidi32, 301, "PoolLedgerInvalidi32"),
    (ErrorCode::PoolLedgerTerminated, 302, "PoolLedgerTerminated"),
    (ErrorCode::LedgerNoConsensusError, 303, "LedgerNoConsensusError"),
    (ErrorCode::LedgerInvalidTransaction, 304, "LedgerInvalidTransaction"),
    (ErrorCode::LedgerSecurityError, 305, "LedgerSecurityError"),
    (ErrorCode::PoolLedgerConfigAlreadyExistsError, 306, "PoolLedgerConfigAlreadyExistsError"),
    (ErrorCode::PoolLedgerTimeout, 307, "PoolLedgerTimeout"),
    (ErrorCode::PoolIncompatibleProtocolVersion, 308, "PoolIncompatibleProtocolVersion"),
    (ErrorCode::LedgerNotFound, 309, "LedgerNotFound"),
    (ErrorCode::AnoncredsRevocationRegistryFullError, 400, "AnoncredsRevocationRegistryFullError"),
    (ErrorCode::AnoncredsInvalidUserRevocId, 401, "AnoncredsInvalidUserRevocId"),
    (ErrorCode::AnoncredsMasterSecretDuplicateNameError, 404, "AnoncredsMasterSecretDuplicateNameError"),
    (ErrorCode::AnoncredsProofRejected, 405, "AnoncredsProofRejected"),
    (ErrorCode::AnoncredsCredentialRevoked, 406, "AnoncredsCredentialRevoked"),
    (ErrorCode::AnoncredsCredDefAlreadyExistsError, 407, "AnoncredsCredDefAlreadyExistsError"),
    (ErrorCode::UnknownCryptoTypeError, 500, "UnknownCryptoTypeError"),
    (ErrorCode::DidAlreadyExistsError, 600, "DidAlreadyExistsError"),
    (ErrorCode::UnknownPaymentMethod, 700, "UnknownPaymentMethod"),
    (ErrorCode::IncompatiblePaymentError, 701, "IncompatiblePaymentError"),
    (ErrorCode::PaymentInsufficientFundsError, 702, "PaymentInsufficientFundsError"),
    (ErrorCode::PaymentSourceDoesNotExistError, 703, "PaymentSourceDoesNotExistError"),
    (ErrorCode::PaymentOperationNotSupportedError, 704, "PaymentOperationNotSupportedError"),
    (ErrorCode::PaymentExtraFundsError, 705, "PaymentExtraFundsError"),
    (ErrorCode::TransactionNotAllowed, 706, "The transaction is not allowed to a requester"),
];

#[test]
fn every_kind_has_its_number() {
    for (kind, number, _) in ALL.iter() {
        assert_eq!(kind.to_i32(), *number);
        assert_eq!((*kind).into(), *number);
    }
}

#[test]
fn every_number_has_its_kind() {
    for (kind, number, _) in ALL.iter() {
        assert_eq!(ErrorCode::from_i32(*number), Some(*kind));
        assert_eq!(ErrorCode::from(*number), *kind);
        assert!(ErrorCode::is_recognized(*number));
    }
}

#[test]
fn number_kind_number_is_identity_on_every_status() {
    let mut recognized = 0;
    for status in -1000..2000 {
        match ErrorCode::from_i32(status) {
            Some(kind) => {
                recognized += 1;
                assert_eq!(kind.to_i32(), status);
                assert!(ErrorCode::is_recognized(status));
            }
            None => assert!(!ErrorCode::is_recognized(status)),
        }
    }
    assert_eq!(recognized, 71);
}

#[test]
fn no_two_kinds_share_a_number() {
    for (i, (a, x, _)) in ALL.iter().enumerate() {
        for (j, (b, y, _)) in ALL.iter().enumerate() {
            assert_eq!(i == j, x == y);
            assert_eq!(i == j, a == b);
        }
    }
}

#[test]
fn numbers_between_the_kinds_are_not_recognized() {
    for status in [-1, 1, 99, 130, 199, 215, 299, 310, 402, 403, 408, 499, 501, 599, 601, 699, 707] {
        assert_eq!(ErrorCode::from_i32(status), None);
        assert!(!ErrorCode::is_recognized(status));
    }
    assert_eq!(ErrorCode::from_i32(i32::MIN), None);
    assert_eq!(ErrorCode::from_i32(i32::MAX), None);
}

#[test]
fn the_last_kind_follows_the_payment_errors() {
    assert_eq!(ErrorCode::TransactionNotAllowed.to_i32(), 706);
    assert_eq!(ErrorCode::from_i32(706), Some(ErrorCode::TransactionNotAllowed));
}

#[test]
fn only_zero_is_success() {
    for (kind, number, _) in ALL.iter() {
        assert_eq!(kind.is_success(), *number == 0);
    }
    assert!(ErrorCode::Success.is_success());
    assert!(!ErrorCode::WalletItemNotFound.is_success());
}

#[test]
fn every_kind_has_its_text() {
    for (kind, _, text) in ALL.iter() {
        assert_eq!(kind.to_string(), *text);
    }
}
