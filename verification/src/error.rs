use vstd::prelude::*;

verus! {

/// First number given to the program's own errors.
pub const ERROR_CODE_OFFSET: u32 = 6000;

/// Number of the framework error that the item purchase answers when a
/// token account holds the wrong kind of token.
pub const DEPRECATED_ERROR_CODE: u32 = 5000;

/// The program's own errors, in the order that numbers them.
#[derive(Clone, Copy, Debug, PartialEq, Eq, Structural)]
pub enum SdkError {
    WalletAccountIsWrong,
    PriceError,
    AllItemsAreSold,
    NotEnoughFunds,
    ObjectIdTooLong,
    MarketEscrowError,
    ListingInfoHacked,
}

impl SdkError {
    /// Position of the variant in the declaration.
    pub open spec fn index(self) -> u32 {
        match self {
            SdkError::WalletAccountIsWrong => 0,
            SdkError::PriceError => 1,
            SdkError::AllItemsAreSold => 2,
            SdkError::NotEnoughFunds => 3,
            SdkError::ObjectIdTooLong => 4,
            SdkError::MarketEscrowError => 5,
            SdkError::ListingInfoHacked => 6,
        }
    }

    pub open spec fn spec_code(self) -> u32 {
        (ERROR_CODE_OFFSET + self.index()) as u32
    }

    /// The number the error is reported under: the offset plus its position.
    pub fn code(&self) -> (c: u32)
        ensures
            c == self.spec_code(),
    {
        match self {
            SdkError::WalletAccountIsWrong => ERROR_CODE_OFFSET,
            SdkError::PriceError => ERROR_CODE_OFFSET + 1,
            SdkError::AllItemsAreSold => ERROR_CODE_OFFSET + 2,
            SdkError::NotEnoughFunds => ERROR_CODE_OFFSET + 3,
            SdkError::ObjectIdTooLong => ERROR_CODE_OFFSET + 4,
            SdkError::MarketEscrowError => ERROR_CODE_OFFSET + 5,
            SdkError::ListingInfoHacked => ERROR_CODE_OFFSET + 6,
        }
    }

    pub open spec fn spec_message(self) -> Seq<char> {
        match self {
            SdkError::WalletAccountIsWrong => "wallet error is wrong"@,
            SdkError::PriceError => "price multiplication error"@,
            SdkError::AllItemsAreSold => "items are sold"@,
            SdkError::NotEnoughFunds => "not enough funds"@,
            SdkError::ObjectIdTooLong => "object uid length exceeded"@,
            SdkError::MarketEscrowError => "market escrow hacked!"@,
            SdkError::ListingInfoHacked => "listing info hacked!"@,
        }
    }

    /// The message reported with the error.
    pub fn message(&self) -> (m: &'static str)
        ensures
            m@ == self.spec_message(),
    {
        match self {
            SdkError::WalletAccountIsWrong => "wallet error is wrong",
            SdkError::PriceError => "price multiplication error",
            SdkError::AllItemsAreSold => "items are sold",
            SdkError::NotEnoughFunds => "not enough funds",
            SdkError::ObjectIdTooLong => "object uid length exceeded",
            SdkError::MarketEscrowError => "market escrow hacked!",
            SdkError::ListingInfoHacked => "listing info hacked!",
        }
    }
}

/// Why an instruction was refused: one of the program's own errors, or the
/// framework's "deprecated" error, which the item purchase answers when a
/// token account holds the wrong kind of token.
#[derive(Clone, Copy, Debug, PartialEq, Eq, Structural)]
pub enum HandlerError {
    Sdk(SdkError),
    Deprecated,
}

impl HandlerError {
    pub open spec fn spec_code(self) -> u32 {
        match self {
            HandlerError::Sdk(e) => e.spec_code(),
            HandlerError::Deprecated => DEPRECATED_ERROR_CODE,
        }
    }

    /// The number the refusal is reported under.
    pub fn code(&self) -> (c: u32)
        ensures
            c == self.spec_code(),
    {
        match self {
            HandlerError::Sdk(e) => e.code(),
            HandlerError::Deprecated => DEPRECATED_ERROR_CODE,
        }
    }
}

} // verus!
