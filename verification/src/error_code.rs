//! The status codes of the native layer and the error kinds they stand for.

use vstd::prelude::*;
use vstd::string::StringExecFns;

verus! {

/// What the native layer reports of a call: success, or one kind of failure.
///
/// The kinds lie in ranges: common errors from 100, wallet from 200, pool and
/// ledger from 300, anoncreds from 400, crypto at 500, did at 600, payment
/// from 700.
#[derive(Debug, Clone, Copy, PartialEq, Eq, Structural)]
pub enum ErrorCode {
    /// The call succeeded.
    Success,
    /// Parameter 1 of the call is not valid (null, malformed json and the like).
    CommonInvalidParam1,
    /// Parameter 2 of the call is not valid (null, malformed json and the like).
    CommonInvalidParam2,
    /// Parameter 3 of the call is not valid (null, malformed json and the like).
    CommonInvalidParam3,
    /// Parameter 4 of the call is not valid (null, malformed json and the like).
    CommonInvalidParam4,
    /// Parameter 5 of the call is not valid (null, malformed json and the like).
    CommonInvalidParam5,
    /// Parameter 6 of the call is not valid (null, malformed json and the like).
    CommonInvalidParam6,
    /// Parameter 7 of the call is not valid (null, malformed json and the like).
    CommonInvalidParam7,
    /// Parameter 8 of the call is not valid (null, malformed json and the like).
    CommonInvalidParam8,
    /// Parameter 9 of the call is not valid (null, malformed json and the like).
    CommonInvalidParam9,
    /// Parameter 10 of the call is not valid (null, malformed json and the like).
    CommonInvalidParam10,
    /// Parameter 11 of the call is not valid (null, malformed json and the like).
    CommonInvalidParam11,
    /// Parameter 12 of the call is not valid (null, malformed json and the like).
    CommonInvalidParam12,
    /// The native library found itself in an invalid state: a bug on its side.
    CommonInvalidState,
    /// A value handed in (json, config, key, credential) has an invalid structure.
    CommonInvalidStructure,
    /// Input or output failed.
    CommonIOError,
    /// Parameter 13 of the call is not valid (null, malformed json and the like).
    CommonInvalidParam13,
    /// Parameter 14 of the call is not valid (null, malformed json and the like).
    CommonInvalidParam14,
    /// Parameter 15 of the call is not valid (null, malformed json and the like).
    CommonInvalidParam15,
    /// Parameter 16 of the call is not valid (null, malformed json and the like).
    CommonInvalidParam16,
    /// Parameter 17 of the call is not valid (null, malformed json and the like).
    CommonInvalidParam17,
    /// Parameter 18 of the call is not valid (null, malformed json and the like).
    CommonInvalidParam18,
    /// Parameter 19 of the call is not valid (null, malformed json and the like).
    CommonInvalidParam19,
    /// Parameter 20 of the call is not valid (null, malformed json and the like).
    CommonInvalidParam20,
    /// Parameter 21 of the call is not valid (null, malformed json and the like).
    CommonInvalidParam21,
    /// Parameter 22 of the call is not valid (null, malformed json and the like).
    CommonInvalidParam22,
    /// Parameter 23 of the call is not valid (null, malformed json and the like).
    CommonInvalidParam23,
    /// Parameter 24 of the call is not valid (null, malformed json and the like).
    CommonInvalidParam24,
    /// Parameter 25 of the call is not valid (null, malformed json and the like).
    CommonInvalidParam25,
    /// Parameter 26 of the call is not valid (null, malformed json and the like).
    CommonInvalidParam26,
    /// Parameter 27 of the call is not valid (null, malformed json and the like).
    CommonInvalidParam27,
    /// The wallet handle is not valid.
    WalletInvalidHandle,
    /// The wallet type given at creation is not known.
    WalletUnknownTypeError,
    /// The wallet type is registered already.
    WalletTypeAlreadyRegisteredError,
    /// Another wallet has the name given at creation.
    WalletAlreadyExistsError,
    /// The wallet is not there.
    WalletNotFoundError,
    /// The wallet belongs to a pool of another name.
    WalletIncompatiblePoolError,
    /// The wallet is open already.
    WalletAlreadyOpenedError,
    /// The credentials do not open the encrypted wallet.
    WalletAccessFailed,
    /// The input to a wallet operation is not valid.
    WalletInputError,
    /// Wallet data could not be decoded.
    WalletDecodingError,
    /// The wallet storage failed.
    WalletStorageError,
    /// An encryption operation of the wallet failed.
    WalletEncryptionError,
    /// The wallet holds no such item.
    WalletItemNotFound,
    /// The wallet holds a record of that name already.
    WalletItemAlreadyExists,
    /// The wallet query is not valid.
    WalletQueryError,
    /// The pool ledger to open was never created.
    PoolLedgerNotCreatedError,
    /// The pool ledger handle is not valid.
    PoolLedgerInvalidi32,
    /// The pool ledger was terminated.
    PoolLedgerTerminated,
    /// The ledger operation reached no consensus.
    LedgerNoConsensusError,
    /// The transaction response could not be parsed.
    LedgerInvalidTransaction,
    /// The sender lacks the privileges for the transaction.
    LedgerSecurityError,
    /// Another pool ledger config has that name.
    PoolLedgerConfigAlreadyExistsError,
    /// The action timed out.
    PoolLedgerTimeout,
    /// The genesis transactions do not fit the protocol version that is set.
    PoolIncompatibleProtocolVersion,
    /// The ledger holds no such item.
    LedgerNotFound,
    /// The revocation registry is full; a new one has to be created.
    AnoncredsRevocationRegistryFullError,
    /// The revocation id of the user is not valid.
    AnoncredsInvalidUserRevocId,
    /// A master secret of that name exists already.
    AnoncredsMasterSecretDuplicateNameError,
    /// The proof was rejected.
    AnoncredsProofRejected,
    /// The credential was revoked.
    AnoncredsCredentialRevoked,
    /// A credential definition for that did and schema exists already.
    AnoncredsCredDefAlreadyExistsError,
    /// The format of the keys is not known.
    UnknownCryptoTypeError,
    /// The did exists already.
    DidAlreadyExistsError,
    /// The payment method is not known.
    UnknownPaymentMethod,
    /// The inputs and outputs name no payment method, or more than one.
    IncompatiblePaymentError,
    /// The inputs hold too little.
    PaymentInsufficientFundsError,
    /// The ledger holds no such source.
    PaymentSourceDoesNotExistError,
    /// The payment method does not support the operation.
    PaymentOperationNotSupportedError,
    /// The inputs hold too much.
    PaymentExtraFundsError,
    /// The requester is not allowed the transaction.
    TransactionNotAllowed,
}

impl ErrorCode {
    /// The number by which the native layer reports this kind.
    pub open spec fn code(self) -> int {
        match self {
            ErrorCode::Success => 0,
            ErrorCode::CommonInvalidParam1 => 100,
            ErrorCode::CommonInvalidParam2 => 101,
            ErrorCode::CommonInvalidParam3 => 102,
            ErrorCode::CommonInvalidParam4 => 103,
            ErrorCode::CommonInvalidParam5 => 104,
            ErrorCode::CommonInvalidParam6 => 105,
            ErrorCode::CommonInvalidParam7 => 106,
            ErrorCode::CommonInvalidParam8 => 107,
            ErrorCode::CommonInvalidParam9 => 108,
            ErrorCode::CommonInvalidParam10 => 109,
            ErrorCode::CommonInvalidParam11 => 110,
            ErrorCode::CommonInvalidParam12 => 111,
            ErrorCode::CommonInvalidState => 112,
            ErrorCode::CommonInvalidStructure => 113,
            ErrorCode::CommonIOError => 114,
            ErrorCode::CommonInvalidParam13 => 115,
            ErrorCode::CommonInvalidParam14 => 116,
            ErrorCode::CommonInvalidParam15 => 117,
            ErrorCode::CommonInvalidParam16 => 118,
            ErrorCode::CommonInvalidParam17 => 119,
            ErrorCode::CommonInvalidParam18 => 120,
            ErrorCode::CommonInvalidParam19 => 121,
            ErrorCode::CommonInvalidParam20 => 122,
            ErrorCode::CommonInvalidParam21 => 123,
            ErrorCode::CommonInvalidParam22 => 124,
            ErrorCode::CommonInvalidParam23 => 125,
            ErrorCode::CommonInvalidParam24 => 126,
            ErrorCode::CommonInvalidParam25 => 127,
            ErrorCode::CommonInvalidParam26 => 128,
            ErrorCode::CommonInvalidParam27 => 129,
            ErrorCode::WalletInvalidHandle => 200,
            ErrorCode::WalletUnknownTypeError => 201,
            ErrorCode::WalletTypeAlreadyRegisteredError => 202,
            ErrorCode::WalletAlreadyExistsError => 203,
            ErrorCode::WalletNotFoundError => 204,
            ErrorCode::WalletIncompatiblePoolError => 205,
            ErrorCode::WalletAlreadyOpenedError => 206,
            ErrorCode::WalletAccessFailed => 207,
            ErrorCode::WalletInputError => 208,
            ErrorCode::WalletDecodingError => 209,
            ErrorCode::WalletStorageError => 210,
            ErrorCode::WalletEncryptionError => 211,
            ErrorCode::WalletItemNotFound => 212,
            ErrorCode::WalletItemAlreadyExists => 213,
            ErrorCode::WalletQueryError => 214,
            ErrorCode::PoolLedgerNotCreatedError => 300,
            ErrorCode::PoolLedgerInvalidi32 => 301,
            ErrorCode::PoolLedgerTerminated => 302,
            ErrorCode::LedgerNoConsensusError => 303,
            ErrorCode::LedgerInvalidTransaction => 304,
            ErrorCode::LedgerSecurityError => 305,
            ErrorCode::PoolLedgerConfigAlreadyExistsError => 306,
            ErrorCode::PoolLedgerTimeout => 307,
            ErrorCode::PoolIncompatibleProtocolVersion => 308,
            ErrorCode::LedgerNotFound => 309,
            ErrorCode::AnoncredsRevocationRegistryFullError => 400,
            ErrorCode::AnoncredsInvalidUserRevocId => 401,
            ErrorCode::AnoncredsMasterSecretDuplicateNameError => 404,
            ErrorCode::AnoncredsProofRejected => 405,
            ErrorCode::AnoncredsCredentialRevoked => 406,
            ErrorCode::AnoncredsCredDefAlreadyExistsError => 407,
            ErrorCode::UnknownCryptoTypeError => 500,
            ErrorCode::DidAlreadyExistsError => 600,
            ErrorCode::UnknownPaymentMethod => 700,
            ErrorCode::IncompatiblePaymentError => 701,
            ErrorCode::PaymentInsufficientFundsError => 702,
            ErrorCode::PaymentSourceDoesNotExistError => 703,
            ErrorCode::PaymentOperationNotSupportedError => 704,
            ErrorCode::PaymentExtraFundsError => 705,
            ErrorCode::TransactionNotAllowed => 706,
        }
    }

    /// The text that names this kind to a reader.
    pub open spec fn text(self) -> Seq<char> {
        match self {
            ErrorCode::Success => "Success"@,
            ErrorCode::CommonInvalidParam1 => "CommonInvalidParam1"@,
            ErrorCode::CommonInvalidParam2 => "CommonInvalidParam2"@,
            ErrorCode::CommonInvalidParam3 => "CommonInvalidParam3"@,
            ErrorCode::CommonInvalidParam4 => "CommonInvalidParam4"@,
            ErrorCode::CommonInvalidParam5 => "CommonInvalidParam5"@,
            ErrorCode::CommonInvalidParam6 => "CommonInvalidParam6"@,
            ErrorCode::CommonInvalidParam7 => "CommonInvalidParam7"@,
            ErrorCode::CommonInvalidParam8 => "CommonInvalidParam8"@,
            ErrorCode::CommonInvalidParam9 => "CommonInvalidParam9"@,
            ErrorCode::CommonInvalidParam10 => "CommonInvalidParam10"@,
            ErrorCode::CommonInvalidParam11 => "CommonInvalidParam11"@,
            ErrorCode::CommonInvalidParam12 => "CommonInvalidParam12"@,
            ErrorCode::CommonInvalidState => "CommonInvalidState"@,
            ErrorCode::CommonInvalidStructure => "CommonInvalidStructure"@,
            ErrorCode::CommonIOError => "CommonIOError"@,
            ErrorCode::CommonInvalidParam13 => "CommonInvalidParam13"@,
            ErrorCode::CommonInvalidParam14 => "CommonInvalidParam14"@,
            ErrorCode::CommonInvalidParam15 => "CommonInvalidParam15"@,
            ErrorCode::CommonInvalidParam16 => "CommonInvalidParam16"@,
            ErrorCode::CommonInvalidParam17 => "CommonInvalidParam17"@,
            ErrorCode::CommonInvalidParam18 => "CommonInvalidParam18"@,
            ErrorCode::CommonInvalidParam19 => "CommonInvalidParam19"@,
            ErrorCode::CommonInvalidParam20 => "CommonInvalidParam20"@,
            ErrorCode::CommonInvalidParam21 => "CommonInvalidParam21"@,
            ErrorCode::CommonInvalidParam22 => "CommonInvalidParam22"@,
            ErrorCode::CommonInvalidParam23 => "CommonInvalidParam23"@,
            ErrorCode::CommonInvalidParam24 => "CommonInvalidParam24"@,
            ErrorCode::CommonInvalidParam25 => "CommonInvalidParam25"@,
            ErrorCode::CommonInvalidParam26 => "CommonInvalidParam26"@,
            ErrorCode::CommonInvalidParam27 => "CommonInvalidParam27"@,
            ErrorCode::WalletInvalidHandle => "WalletInvalidHandle"@,
            ErrorCode::WalletUnknownTypeError => "WalletUnknownTypeError"@,
            ErrorCode::WalletTypeAlreadyRegisteredError => "WalletTypeAlreadyRegisteredError"@,
            ErrorCode::WalletAlreadyExistsError => "WalletAlreadyExistsError"@,
            ErrorCode::WalletNotFoundError => "WalletNotFoundError"@,
            ErrorCode::WalletIncompatiblePoolError => "WalletIncompatiblePoolError"@,
            ErrorCode::WalletAlreadyOpenedError => "WalletAlreadyOpenedError"@,
            ErrorCode::WalletAccessFailed => "WalletAccessFailed"@,
            ErrorCode::WalletInputError => "WalletInputError"@,
            ErrorCode::WalletDecodingError => "WalletDecodingError"@,
            ErrorCode::WalletStorageError => "WalletStorageError"@,
            ErrorCode::WalletEncryptionError => "WalletEncryptionError"@,
            ErrorCode::WalletItemNotFound => "WalletItemNotFound"@,
            ErrorCode::WalletItemAlreadyExists => "WalletItemAlreadyExists"@,
            ErrorCode::WalletQueryError => "WalletQueryError"@,
            ErrorCode::PoolLedgerNotCreatedError => "PoolLedgerNotCreatedError"@,
            ErrorCode::PoolLedgerInvalidi32 => "PoolLedgerInvalidi32"@,
            ErrorCode::PoolLedgerTerminated => "PoolLedgerTerminated"@,
            ErrorCode::LedgerNoConsensusError => "LedgerNoConsensusError"@,
            ErrorCode::LedgerInvalidTransaction => "LedgerInvalidTransaction"@,
            ErrorCode::LedgerSecurityError => "LedgerSecurityError"@,
            ErrorCode::PoolLedgerConfigAlreadyExistsError => "PoolLedgerConfigAlreadyExistsError"@,
            ErrorCode::PoolLedgerTimeout => "PoolLedgerTimeout"@,
            ErrorCode::PoolIncompatibleProtocolVersion => "PoolIncompatibleProtocolVersion"@,
            ErrorCode::LedgerNotFound => "LedgerNotFound"@,
            ErrorCode::AnoncredsRevocationRegistryFullError => "AnoncredsRevocationRegistryFullError"@,
            ErrorCode::AnoncredsInvalidUserRevocId => "AnoncredsInvalidUserRevocId"@,
            ErrorCode::AnoncredsMasterSecretDuplicateNameError => "AnoncredsMasterSecretDuplicateNameError"@,
            ErrorCode::AnoncredsProofRejected => "AnoncredsProofRejected"@,
            ErrorCode::AnoncredsCredentialRevoked => "AnoncredsCredentialRevoked"@,
            ErrorCode::AnoncredsCredDefAlreadyExistsError => "AnoncredsCredDefAlreadyExistsError"@,
            ErrorCode::UnknownCryptoTypeError => "UnknownCryptoTypeError"@,
            ErrorCode::DidAlreadyExistsError => "DidAlreadyExistsError"@,
            ErrorCode::UnknownPaymentMethod => "UnknownPaymentMethod"@,
            ErrorCode::IncompatiblePaymentError => "IncompatiblePaymentError"@,
            ErrorCode::PaymentInsufficientFundsError => "PaymentInsufficientFundsError"@,
            ErrorCode::PaymentSourceDoesNotExistError => "PaymentSourceDoesNotExistError"@,
            ErrorCode::PaymentOperationNotSupportedError => "PaymentOperationNotSupportedError"@,
            ErrorCode::PaymentExtraFundsError => "PaymentExtraFundsError"@,
            ErrorCode::TransactionNotAllowed => "The transaction is not allowed to a requester"@,
        }
    }

    /// The kind that `status` stands for, if it stands for one.
    pub open spec fn kind_of(status: int) -> Option<ErrorCode> {
        if status == 0 {
            Some(ErrorCode::Success)
        } else if status == 100 {
            Some(ErrorCode::CommonInvalidParam1)
        } else if status == 101 {
            Some(ErrorCode::CommonInvalidParam2)
        } else if status == 102 {
            Some(ErrorCode::CommonInvalidParam3)
        } else if status == 103 {
            Some(ErrorCode::CommonInvalidParam4)
        } else if status == 104 {
            Some(ErrorCode::CommonInvalidParam5)
        } else if status == 105 {
            Some(ErrorCode::CommonInvalidParam6)
        } else if status == 106 {
            Some(ErrorCode::CommonInvalidParam7)
        } else if status == 107 {
            Some(ErrorCode::CommonInvalidParam8)
        } else if status == 108 {
            Some(ErrorCode::CommonInvalidParam9)
        } else if status == 109 {
            Some(ErrorCode::CommonInvalidParam10)
        } else if status == 110 {
            Some(ErrorCode::CommonInvalidParam11)
        } else if status == 111 {
            Some(ErrorCode::CommonInvalidParam12)
        } else if status == 112 {
            Some(ErrorCode::CommonInvalidState)
        } else if status == 113 {
            Some(ErrorCode::CommonInvalidStructure)
        } else if status == 114 {
            Some(ErrorCode::CommonIOError)
        } else if status == 115 {
            Some(ErrorCode::CommonInvalidParam13)
        } else if status == 116 {
            Some(ErrorCode::CommonInvalidParam14)
        } else if status == 117 {
            Some(ErrorCode::CommonInvalidParam15)
        } else if status == 118 {
            Some(ErrorCode::CommonInvalidParam16)
        } else if status == 119 {
            Some(ErrorCode::CommonInvalidParam17)
        } else if status == 120 {
            Some(ErrorCode::CommonInvalidParam18)
        } else if status == 121 {
            Some(ErrorCode::CommonInvalidParam19)
        } else if status == 122 {
            Some(ErrorCode::CommonInvalidParam20)
        } else if status == 123 {
            Some(ErrorCode::CommonInvalidParam21)
        } else if status == 124 {
            Some(ErrorCode::CommonInvalidParam22)
        } else if status == 125 {
            Some(ErrorCode::CommonInvalidParam23)
        } else if status == 126 {
            Some(ErrorCode::CommonInvalidParam24)
        } else if status == 127 {
            Some(ErrorCode::CommonInvalidParam25)
        } else if status == 128 {
            Some(ErrorCode::CommonInvalidParam26)
        } else if status == 129 {
            Some(ErrorCode::CommonInvalidParam27)
        } else if status == 200 {
            Some(ErrorCode::WalletInvalidHandle)
        } else if status == 201 {
            Some(ErrorCode::WalletUnknownTypeError)
        } else if status == 202 {
            Some(ErrorCode::WalletTypeAlreadyRegisteredError)
        } else if status == 203 {
            Some(ErrorCode::WalletAlreadyExistsError)
        } else if status == 204 {
            Some(ErrorCode::WalletNotFoundError)
        } else if status == 205 {
            Some(ErrorCode::WalletIncompatiblePoolError)
        } else if status == 206 {
            Some(ErrorCode::WalletAlreadyOpenedError)
        } else if status == 207 {
            Some(ErrorCode::WalletAccessFailed)
        } else if status == 208 {
            Some(ErrorCode::WalletInputError)
        } else if status == 209 {
            Some(ErrorCode::WalletDecodingError)
        } else if status == 210 {
            Some(ErrorCode::WalletStorageError)
        } else if status == 211 {
            Some(ErrorCode::WalletEncryptionError)
        } else if status == 212 {
            Some(ErrorCode::WalletItemNotFound)
        } else if status == 213 {
            Some(ErrorCode::WalletItemAlreadyExists)
        } else if status == 214 {
            Some(ErrorCode::WalletQueryError)
        } else if status == 300 {
            Some(ErrorCode::PoolLedgerNotCreatedError)
        } else if status == 301 {
            Some(ErrorCode::PoolLedgerInvalidi32)
        } else if status == 302 {
            Some(ErrorCode::PoolLedgerTerminated)
        } else if status == 303 {
            Some(ErrorCode::LedgerNoConsensusError)
        } else if status == 304 {
            Some(ErrorCode::LedgerInvalidTransaction)
        } else if status == 305 {
            Some(ErrorCode::LedgerSecurityError)
        } else if status == 306 {
            Some(ErrorCode::PoolLedgerConfigAlreadyExistsError)
        } else if status == 307 {
            Some(ErrorCode::PoolLedgerTimeout)
        } else if status == 308 {
            Some(ErrorCode::PoolIncompatibleProtocolVersion)
        } else if status == 309 {
            Some(ErrorCode::LedgerNotFound)
        } else if status == 400 {
            Some(ErrorCode::AnoncredsRevocationRegistryFullError)
        } else if status == 401 {
            Some(ErrorCode::AnoncredsInvalidUserRevocId)
        } else if status == 404 {
            Some(ErrorCode::AnoncredsMasterSecretDuplicateNameError)
        } else if status == 405 {
            Some(ErrorCode::AnoncredsProofRejected)
        } else if status == 406 {
            Some(ErrorCode::AnoncredsCredentialRevoked)
        } else if status == 407 {
            Some(ErrorCode::AnoncredsCredDefAlreadyExistsError)
        } else if status == 500 {
            Some(ErrorCode::UnknownCryptoTypeError)
        } else if status == 600 {
            Some(ErrorCode::DidAlreadyExistsError)
        } else if status == 700 {
            Some(ErrorCode::UnknownPaymentMethod)
        } else if status == 701 {
            Some(ErrorCode::IncompatiblePaymentError)
        } else if status == 702 {
            Some(ErrorCode::PaymentInsufficientFundsError)
        } else if status == 703 {
            Some(ErrorCode::PaymentSourceDoesNotExistError)
        } else if status == 704 {
            Some(ErrorCode::PaymentOperationNotSupportedError)
        } else if status == 705 {
            Some(ErrorCode::PaymentExtraFundsError)
        } else if status == 706 {
            Some(ErrorCode::TransactionNotAllowed)
        } else {
            None
        }
    }

    /// Whether the native layer has a kind for `status`.
    pub open spec fn recognized(status: int) -> bool {
        Self::kind_of(status) is Some
    }

    /// The kind that `i` stands for; `None` where the native layer has no such
    /// status.
    pub fn from_i32(i: i32) -> (kind: Option<ErrorCode>)
        ensures
            kind == Self::kind_of(i as int),
            kind is Some <==> Self::recognized(i as int),
            kind matches Some(k) ==> k.code() == i,
    {
        let kind = match i {
            0 => Some(ErrorCode::Success),
            100 => Some(ErrorCode::CommonInvalidParam1),
            101 => Some(ErrorCode::CommonInvalidParam2),
            102 => Some(ErrorCode::CommonInvalidParam3),
            103 => Some(ErrorCode::CommonInvalidParam4),
            104 => Some(ErrorCode::CommonInvalidParam5),
            105 => Some(ErrorCode::CommonInvalidParam6),
            106 => Some(ErrorCode::CommonInvalidParam7),
            107 => Some(ErrorCode::CommonInvalidParam8),
            108 => Some(ErrorCode::CommonInvalidParam9),
            109 => Some(ErrorCode::CommonInvalidParam10),
            110 => Some(ErrorCode::CommonInvalidParam11),
            111 => Some(ErrorCode::CommonInvalidParam12),
            112 => Some(ErrorCode::CommonInvalidState),
            113 => Some(ErrorCode::CommonInvalidStructure),
            114 => Some(ErrorCode::CommonIOError),
            115 => Some(ErrorCode::CommonInvalidParam13),
            116 => Some(ErrorCode::CommonInvalidParam14),
            117 => Some(ErrorCode::CommonInvalidParam15),
            118 => Some(ErrorCode::CommonInvalidParam16),
            119 => Some(ErrorCode::CommonInvalidParam17),
            120 => Some(ErrorCode::CommonInvalidParam18),
            121 => Some(ErrorCode::CommonInvalidParam19),
            122 => Some(ErrorCode::CommonInvalidParam20),
            123 => Some(ErrorCode::CommonInvalidParam21),
            124 => Some(ErrorCode::CommonInvalidParam22),
            125 => Some(ErrorCode::CommonInvalidParam23),
            126 => Some(ErrorCode::CommonInvalidParam24),
            127 => Some(ErrorCode::CommonInvalidParam25),
            128 => Some(ErrorCode::CommonInvalidParam26),
            129 => Some(ErrorCode::CommonInvalidParam27),
            200 => Some(ErrorCode::WalletInvalidHandle),
            201 => Some(ErrorCode::WalletUnknownTypeError),
            202 => Some(ErrorCode::WalletTypeAlreadyRegisteredError),
            203 => Some(ErrorCode::WalletAlreadyExistsError),
            204 => Some(ErrorCode::WalletNotFoundError),
            205 => Some(ErrorCode::WalletIncompatiblePoolError),
            206 => Some(ErrorCode::WalletAlreadyOpenedError),
            207 => Some(ErrorCode::WalletAccessFailed),
            208 => Some(ErrorCode::WalletInputError),
            209 => Some(ErrorCode::WalletDecodingError),
            210 => Some(ErrorCode::WalletStorageError),
            211 => Some(ErrorCode::WalletEncryptionError),
            212 => Some(ErrorCode::WalletItemNotFound),
            213 => Some(ErrorCode::WalletItemAlreadyExists),
            214 => Some(ErrorCode::WalletQueryError),
            300 => Some(ErrorCode::PoolLedgerNotCreatedError),
            301 => Some(ErrorCode::PoolLedgerInvalidi32),
            302 => Some(ErrorCode::PoolLedgerTerminated),
            303 => Some(ErrorCode::LedgerNoConsensusError),
            304 => Some(ErrorCode::LedgerInvalidTransaction),
            305 => Some(ErrorCode::LedgerSecurityError),
            306 => Some(ErrorCode::PoolLedgerConfigAlreadyExistsError),
            307 => Some(ErrorCode::PoolLedgerTimeout),
            308 => Some(ErrorCode::PoolIncompatibleProtocolVersion),
            309 => Some(ErrorCode::LedgerNotFound),
            400 => Some(ErrorCode::AnoncredsRevocationRegistryFullError),
            401 => Some(ErrorCode::AnoncredsInvalidUserRevocId),
            404 => Some(ErrorCode::AnoncredsMasterSecretDuplicateNameError),
            405 => Some(ErrorCode::AnoncredsProofRejected),
            406 => Some(ErrorCode::AnoncredsCredentialRevoked),
            407 => Some(ErrorCode::AnoncredsCredDefAlreadyExistsError),
            500 => Some(ErrorCode::UnknownCryptoTypeError),
            600 => Some(ErrorCode::DidAlreadyExistsError),
            700 => Some(ErrorCode::UnknownPaymentMethod),
            701 => Some(ErrorCode::IncompatiblePaymentError),
            702 => Some(ErrorCode::PaymentInsufficientFundsError),
            703 => Some(ErrorCode::PaymentSourceDoesNotExistError),
            704 => Some(ErrorCode::PaymentOperationNotSupportedError),
            705 => Some(ErrorCode::PaymentExtraFundsError),
            706 => Some(ErrorCode::TransactionNotAllowed),
            _ => None,
        };
        kind
    }

    /// The number of this kind, as the native layer reports it.
    pub fn to_i32(&self) -> (i: i32)
        ensures
            i == self.code(),
    {
        match self {
            ErrorCode::Success => 0,
            ErrorCode::CommonInvalidParam1 => 100,
            ErrorCode::CommonInvalidParam2 => 101,
            ErrorCode::CommonInvalidParam3 => 102,
            ErrorCode::CommonInvalidParam4 => 103,
            ErrorCode::CommonInvalidParam5 => 104,
            ErrorCode::CommonInvalidParam6 => 105,
            ErrorCode::CommonInvalidParam7 => 106,
            ErrorCode::CommonInvalidParam8 => 107,
            ErrorCode::CommonInvalidParam9 => 108,
            ErrorCode::CommonInvalidParam10 => 109,
            ErrorCode::CommonInvalidParam11 => 110,
            ErrorCode::CommonInvalidParam12 => 111,
            ErrorCode::CommonInvalidState => 112,
            ErrorCode::CommonInvalidStructure => 113,
            ErrorCode::CommonIOError => 114,
            ErrorCode::CommonInvalidParam13 => 115,
            ErrorCode::CommonInvalidParam14 => 116,
            ErrorCode::CommonInvalidParam15 => 117,
            ErrorCode::CommonInvalidParam16 => 118,
            ErrorCode::CommonInvalidParam17 => 119,
            ErrorCode::CommonInvalidParam18 => 120,
            ErrorCode::CommonInvalidParam19 => 121,
            ErrorCode::CommonInvalidParam20 => 122,
            ErrorCode::CommonInvalidParam21 => 123,
            ErrorCode::CommonInvalidParam22 => 124,
            ErrorCode::CommonInvalidParam23 => 125,
            ErrorCode::CommonInvalidParam24 => 126,
            ErrorCode::CommonInvalidParam25 => 127,
            ErrorCode::CommonInvalidParam26 => 128,
            ErrorCode::CommonInvalidParam27 => 129,
            ErrorCode::WalletInvalidHandle => 200,
            ErrorCode::WalletUnknownTypeError => 201,
            ErrorCode::WalletTypeAlreadyRegisteredError => 202,
            ErrorCode::WalletAlreadyExistsError => 203,
            ErrorCode::WalletNotFoundError => 204,
            ErrorCode::WalletIncompatiblePoolError => 205,
            ErrorCode::WalletAlreadyOpenedError => 206,
            ErrorCode::WalletAccessFailed => 207,
            ErrorCode::WalletInputError => 208,
            ErrorCode::WalletDecodingError => 209,
            ErrorCode::WalletStorageError => 210,
            ErrorCode::WalletEncryptionError => 211,
            ErrorCode::WalletItemNotFound => 212,
            ErrorCode::WalletItemAlreadyExists => 213,
            ErrorCode::WalletQueryError => 214,
            ErrorCode::PoolLedgerNotCreatedError => 300,
            ErrorCode::PoolLedgerInvalidi32 => 301,
            ErrorCode::PoolLedgerTerminated => 302,
            ErrorCode::LedgerNoConsensusError => 303,
            ErrorCode::LedgerInvalidTransaction => 304,
            ErrorCode::LedgerSecurityError => 305,
            ErrorCode::PoolLedgerConfigAlreadyExistsError => 306,
            ErrorCode::PoolLedgerTimeout => 307,
            ErrorCode::PoolIncompatibleProtocolVersion => 308,
            ErrorCode::LedgerNotFound => 309,
            ErrorCode::AnoncredsRevocationRegistryFullError => 400,
            ErrorCode::AnoncredsInvalidUserRevocId => 401,
            ErrorCode::AnoncredsMasterSecretDuplicateNameError => 404,
            ErrorCode::AnoncredsProofRejected => 405,
            ErrorCode::AnoncredsCredentialRevoked => 406,
            ErrorCode::AnoncredsCredDefAlreadyExistsError => 407,
            ErrorCode::UnknownCryptoTypeError => 500,
            ErrorCode::DidAlreadyExistsError => 600,
            ErrorCode::UnknownPaymentMethod => 700,
            ErrorCode::IncompatiblePaymentError => 701,
            ErrorCode::PaymentInsufficientFundsError => 702,
            ErrorCode::PaymentSourceDoesNotExistError => 703,
            ErrorCode::PaymentOperationNotSupportedError => 704,
            ErrorCode::PaymentExtraFundsError => 705,
            ErrorCode::TransactionNotAllowed => 706,
        }
    }

    /// Whether `i` is a status that the native layer has a kind for.
    pub fn is_recognized(i: i32) -> (known: bool)
        ensures
            known == Self::recognized(i as int),
    {
        Self::from_i32(i).is_some()
    }

    /// The kind that `i` stands for. A status without a kind breaks the
    /// agreement with the native layer, so the caller rules it out.
    pub fn from(i: i32) -> (kind: ErrorCode)
        requires
            Self::recognized(i as int),
        ensures
            kind.code() == i,
            Self::kind_of(i as int) == Some(kind),
    {
        match Self::from_i32(i) {
            Some(kind) => kind,
            None => vstd::pervasive::unreached(),
        }
    }

    /// The number of this kind.
    pub fn into(self) -> (i: i32)
        ensures
            i == self.code(),
    {
        self.to_i32()
    }

    /// Whether this kind is success.
    pub fn is_success(&self) -> (yes: bool)
        ensures
            yes == (*self == ErrorCode::Success),
            yes == (self.code() == 0),
    {
        matches!(self, ErrorCode::Success)
    }

    /// The text that names this kind.
    pub fn to_string(&self) -> (s: String)
        ensures
            s@ == self.text(),
    {
        let name: &str = match self {
            ErrorCode::Success => "Success",
            ErrorCode::CommonInvalidParam1 => "CommonInvalidParam1",
            ErrorCode::CommonInvalidParam2 => "CommonInvalidParam2",
            ErrorCode::CommonInvalidParam3 => "CommonInvalidParam3",
            ErrorCode::CommonInvalidParam4 => "CommonInvalidParam4",
            ErrorCode::CommonInvalidParam5 => "CommonInvalidParam5",
            ErrorCode::CommonInvalidParam6 => "CommonInvalidParam6",
            ErrorCode::CommonInvalidParam7 => "CommonInvalidParam7",
            ErrorCode::CommonInvalidParam8 => "CommonInvalidParam8",
            ErrorCode::CommonInvalidParam9 => "CommonInvalidParam9",
            ErrorCode::CommonInvalidParam10 => "CommonInvalidParam10",
            ErrorCode::CommonInvalidParam11 => "CommonInvalidParam11",
            ErrorCode::CommonInvalidParam12 => "CommonInvalidParam12",
            ErrorCode::CommonInvalidState => "CommonInvalidState",
            ErrorCode::CommonInvalidStructure => "CommonInvalidStructure",
            ErrorCode::CommonIOError => "CommonIOError",
            ErrorCode::CommonInvalidParam13 => "CommonInvalidParam13",
            ErrorCode::CommonInvalidParam14 => "CommonInvalidParam14",
            ErrorCode::CommonInvalidParam15 => "CommonInvalidParam15",
            ErrorCode::CommonInvalidParam16 => "CommonInvalidParam16",
            ErrorCode::CommonInvalidParam17 => "CommonInvalidParam17",
            ErrorCode::CommonInvalidParam18 => "CommonInvalidParam18",
            ErrorCode::CommonInvalidParam19 => "CommonInvalidParam19",
            ErrorCode::CommonInvalidParam20 => "CommonInvalidParam20",
            ErrorCode::CommonInvalidParam21 => "CommonInvalidParam21",
            ErrorCode::CommonInvalidParam22 => "CommonInvalidParam22",
            ErrorCode::CommonInvalidParam23 => "CommonInvalidParam23",
            ErrorCode::CommonInvalidParam24 => "CommonInvalidParam24",
            ErrorCode::CommonInvalidParam25 => "CommonInvalidParam25",
            ErrorCode::CommonInvalidParam26 => "CommonInvalidParam26",
            ErrorCode::CommonInvalidParam27 => "CommonInvalidParam27",
            ErrorCode::WalletInvalidHandle => "WalletInvalidHandle",
            ErrorCode::WalletUnknownTypeError => "WalletUnknownTypeError",
            ErrorCode::WalletTypeAlreadyRegisteredError => "WalletTypeAlreadyRegisteredError",
            ErrorCode::WalletAlreadyExistsError => "WalletAlreadyExistsError",
            ErrorCode::WalletNotFoundError => "WalletNotFoundError",
            ErrorCode::WalletIncompatiblePoolError => "WalletIncompatiblePoolError",
            ErrorCode::WalletAlreadyOpenedError => "WalletAlreadyOpenedError",
            ErrorCode::WalletAccessFailed => "WalletAccessFailed",
            ErrorCode::WalletInputError => "WalletInputError",
            ErrorCode::WalletDecodingError => "WalletDecodingError",
            ErrorCode::WalletStorageError => "WalletStorageError",
            ErrorCode::WalletEncryptionError => "WalletEncryptionError",
            ErrorCode::WalletItemNotFound => "WalletItemNotFound",
            ErrorCode::WalletItemAlreadyExists => "WalletItemAlreadyExists",
            ErrorCode::WalletQueryError => "WalletQueryError",
            ErrorCode::PoolLedgerNotCreatedError => "PoolLedgerNotCreatedError",
            ErrorCode::PoolLedgerInvalidi32 => "PoolLedgerInvalidi32",
            ErrorCode::PoolLedgerTerminated => "PoolLedgerTerminated",
            ErrorCode::LedgerNoConsensusError => "LedgerNoConsensusError",
            ErrorCode::LedgerInvalidTransaction => "LedgerInvalidTransaction",
            ErrorCode::LedgerSecurityError => "LedgerSecurityError",
            ErrorCode::PoolLedgerConfigAlreadyExistsError => "PoolLedgerConfigAlreadyExistsError",
            ErrorCode::PoolLedgerTimeout => "PoolLedgerTimeout",
            ErrorCode::PoolIncompatibleProtocolVersion => "PoolIncompatibleProtocolVersion",
            ErrorCode::LedgerNotFound => "LedgerNotFound",
            ErrorCode::AnoncredsRevocationRegistryFullError => "AnoncredsRevocationRegistryFullError",
            ErrorCode::AnoncredsInvalidUserRevocId => "AnoncredsInvalidUserRevocId",
            ErrorCode::AnoncredsMasterSecretDuplicateNameError => "AnoncredsMasterSecretDuplicateNameError",
            ErrorCode::AnoncredsProofRejected => "AnoncredsProofRejected",
            ErrorCode::AnoncredsCredentialRevoked => "AnoncredsCredentialRevoked",
            ErrorCode::AnoncredsCredDefAlreadyExistsError => "AnoncredsCredDefAlreadyExistsError",
            ErrorCode::UnknownCryptoTypeError => "UnknownCryptoTypeError",
            ErrorCode::DidAlreadyExistsError => "DidAlreadyExistsError",
            ErrorCode::UnknownPaymentMethod => "UnknownPaymentMethod",
            ErrorCode::IncompatiblePaymentError => "IncompatiblePaymentError",
            ErrorCode::PaymentInsufficientFundsError => "PaymentInsufficientFundsError",
            ErrorCode::PaymentSourceDoesNotExistError => "PaymentSourceDoesNotExistError",
            ErrorCode::PaymentOperationNotSupportedError => "PaymentOperationNotSupportedError",
            ErrorCode::PaymentExtraFundsError => "PaymentExtraFundsError",
            ErrorCode::TransactionNotAllowed => "The transaction is not allowed to a requester",
        };
        String::from_str(name)
    }
}

/// No two kinds share a number.
pub proof fn lemma_code_injective(a: ErrorCode, b: ErrorCode)
    requires
        a.code() == b.code(),
    ensures
        a == b,
{
}

/// From a kind to its number and back gives the kind: every kind has a number
/// that the native layer recognizes, and that number stands for no other kind.
pub proof fn lemma_code_then_kind(kind: ErrorCode)
    ensures
        ErrorCode::recognized(kind.code()),
        ErrorCode::kind_of(kind.code()) == Some(kind),
{
}

/// From a recognized status to its kind and back gives the status.
pub proof fn lemma_kind_then_code(status: int)
    requires
        ErrorCode::recognized(status),
    ensures
        ErrorCode::kind_of(status) is Some,
        ErrorCode::kind_of(status)->0.code() == status,
{
}

/// Exactly the numbers of the kinds are recognized: the mapping is total on
/// them and defined nowhere else.
pub proof fn lemma_recognized_exactly_the_codes(status: int)
    ensures
        ErrorCode::recognized(status) <==> exists|kind: ErrorCode| kind.code() == status,
{
    if ErrorCode::recognized(status) {
        lemma_kind_then_code(status);
        assert(ErrorCode::kind_of(status)->0.code() == status);
    }
    if exists|kind: ErrorCode| kind.code() == status {
        let kind = choose|kind: ErrorCode| kind.code() == status;
        lemma_code_then_kind(kind);
    }
}

/// Two recognized statuses with the same kind are the same status.
pub proof fn lemma_kind_injective(s: int, t: int)
    requires
        ErrorCode::recognized(s),
        ErrorCode::recognized(t),
        ErrorCode::kind_of(s) == ErrorCode::kind_of(t),
    ensures
        s == t,
{
}

/// Every number of a kind is zero or lies in the range of its subsystem, and
/// zero is the number of success alone.
pub proof fn lemma_code_ranges(kind: ErrorCode)
    ensures
        kind.code() == 0 || 100 <= kind.code() <= 129 || 200 <= kind.code() <= 214 || 300
            <= kind.code() <= 309 || 400 <= kind.code() <= 407 || kind.code() == 500
            || kind.code() == 600 || 700 <= kind.code() <= 706,
        (kind.code() == 0) <==> (kind == ErrorCode::Success),
{
}

} // verus!
