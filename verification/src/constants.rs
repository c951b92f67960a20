//! Enumerated wire codes.

use vstd::prelude::*;
use vstd::std_specs::convert::TryFromSpecImpl;
use crate::errors::{BuilderError, MpesaError};

verus! {

/// The kind of transaction that a QR code stands for. On the wire each kind
/// is a two-letter code.
#[derive(Debug, Clone, Copy, PartialEq, Eq, Structural)]
pub enum TransactionType {
    /// `BG`: pay a merchant (buy goods).
    BuyGoods,
    /// `PB`: pay a bill to a business number.
    PayBill,
    /// `WA`: withdraw cash at an agent till.
    WithdrawCash,
    /// `SM`: send money to a mobile number.
    SendMoney,
    /// `SB`: send to a business.
    SendToBusiness,
}

/// The transaction type that `code` names: the one whose wire code it is.
/// The codes are `BG`, `PB`, `WA`, `SM` and `SB`, in upper case; no other
/// string names a transaction type. This is the one place where the set of
/// codes is read from a string.
pub open spec fn spec_parse(code: Seq<char>) -> Option<TransactionType> {
    if code == TransactionType::BuyGoods.spec_code() {
        Some(TransactionType::BuyGoods)
    } else if code == TransactionType::PayBill.spec_code() {
        Some(TransactionType::PayBill)
    } else if code == TransactionType::WithdrawCash.spec_code() {
        Some(TransactionType::WithdrawCash)
    } else if code == TransactionType::SendMoney.spec_code() {
        Some(TransactionType::SendMoney)
    } else if code == TransactionType::SendToBusiness.spec_code() {
        Some(TransactionType::SendToBusiness)
    } else {
        None
    }
}

/// The error of a code that names no transaction type.
pub open spec fn invalid_transaction_type() -> MpesaError {
    MpesaError::BuilderError(BuilderError::ValidationError("transaction_type"))
}

/// What converting `code` gives: the type it names, or the validation error.
pub open spec fn spec_convert(code: Seq<char>) -> Result<TransactionType, MpesaError> {
    match spec_parse(code) {
        Some(transaction_type) => Ok(transaction_type),
        None => Err(invalid_transaction_type()),
    }
}

/// The five codes, letter by letter.
proof fn lemma_codes()
    ensures
        TransactionType::BuyGoods.spec_code() == seq!['B', 'G'],
        TransactionType::PayBill.spec_code() == seq!['P', 'B'],
        TransactionType::WithdrawCash.spec_code() == seq!['W', 'A'],
        TransactionType::SendMoney.spec_code() == seq!['S', 'M'],
        TransactionType::SendToBusiness.spec_code() == seq!['S', 'B'],
{
    reveal_strlit("BG");
    reveal_strlit("PB");
    reveal_strlit("WA");
    reveal_strlit("SM");
    reveal_strlit("SB");
    assert("BG"@ =~= seq!['B', 'G']);
    assert("PB"@ =~= seq!['P', 'B']);
    assert("WA"@ =~= seq!['W', 'A']);
    assert("SM"@ =~= seq!['S', 'M']);
    assert("SB"@ =~= seq!['S', 'B']);
}

impl TransactionType {
    /// The two-letter wire code of this transaction type.
    pub open spec fn spec_code(self) -> Seq<char> {
        match self {
            TransactionType::BuyGoods => "BG"@,
            TransactionType::PayBill => "PB"@,
            TransactionType::WithdrawCash => "WA"@,
            TransactionType::SendMoney => "SM"@,
            TransactionType::SendToBusiness => "SB"@,
        }
    }

    /// The two-letter wire code of this transaction type.
    pub fn code(&self) -> (code: &'static str)
        ensures
            code@ == self.spec_code(),
    {
        match self {
            TransactionType::BuyGoods => "BG",
            TransactionType::PayBill => "PB",
            TransactionType::WithdrawCash => "WA",
            TransactionType::SendMoney => "SM",
            TransactionType::SendToBusiness => "SB",
        }
    }
}

impl<'a> TryFrom<&'a str> for TransactionType {
    type Error = MpesaError;

    /// Reads a two-letter code. A string that is none of the five codes is a
    /// validation error.
    fn try_from(code: &'a str) -> (converted: Result<TransactionType, MpesaError>)
        ensures
            converted == spec_convert(code@),
    {
        proof {
            lemma_codes();
        }
        if code.unicode_len() != 2 {
            return Err(MpesaError::BuilderError(BuilderError::ValidationError("transaction_type")));
        }
        let first = code.get_char(0);
        let second = code.get_char(1);
        assert(code@ =~= seq![first, second]);
        if first == 'B' && second == 'G' {
            Ok(TransactionType::BuyGoods)
        } else if first == 'P' && second == 'B' {
            Ok(TransactionType::PayBill)
        } else if first == 'W' && second == 'A' {
            Ok(TransactionType::WithdrawCash)
        } else if first == 'S' && second == 'M' {
            Ok(TransactionType::SendMoney)
        } else if first == 'S' && second == 'B' {
            Ok(TransactionType::SendToBusiness)
        } else {
            assert(seq![first, second][0] == first);
            assert(seq![first, second][1] == second);
            Err(MpesaError::BuilderError(BuilderError::ValidationError("transaction_type")))
        }
    }
}

impl<'a> TryFromSpecImpl<&'a str> for TransactionType {
    open spec fn obeys_try_from_spec() -> bool {
        true
    }

    open spec fn try_from_spec(code: &'a str) -> Result<TransactionType, MpesaError> {
        spec_convert(code@)
    }
}

/// Each transaction type is named by its own code: converting a type's code
/// gives that type back. So every transaction type that a request can hold
/// has a code that converts.
pub proof fn lemma_code_converts_back(transaction_type: TransactionType)
    ensures
        spec_convert(transaction_type.spec_code()) == Ok::<TransactionType, MpesaError>(
            transaction_type,
        ),
{
    lemma_codes();
    assert(seq!['B', 'G'][0] == 'B' && seq!['P', 'B'][0] == 'P' && seq!['W', 'A'][0] == 'W');
    assert(seq!['S', 'M'][0] == 'S' && seq!['S', 'B'][0] == 'S');
    assert(seq!['S', 'M'][1] == 'M' && seq!['S', 'B'][1] == 'B');
}

/// A code is accepted exactly when it is one of `BG`, `PB`, `WA`, `SM` and
/// `SB`; an accepted code names the type whose code it is, and every other
/// string is refused with the validation error.
pub proof fn lemma_convert_decides_membership(code: Seq<char>)
    ensures
        spec_convert(code) is Ok <==> (code == "BG"@ || code == "PB"@ || code == "WA"@ || code
            == "SM"@ || code == "SB"@),
        spec_convert(code) is Ok ==> spec_convert(code)->Ok_0.spec_code() == code,
        spec_convert(code) is Err ==> spec_convert(code) == Err::<TransactionType, MpesaError>(
            invalid_transaction_type(),
        ),
{
}

} // verus!
