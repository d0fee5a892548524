use vstd::prelude::*;

use crate::error::HandlerError;
use crate::pubkey::Pubkey;

verus! {

/// What the program reads of a token account: its address, the mint of the
/// tokens it holds, its owner and its balance.
#[derive(Clone, Copy, Debug, PartialEq, Eq)]
pub struct TokenAccount {
    pub key: Pubkey,
    pub mint: Pubkey,
    pub owner: Pubkey,
    pub amount: u64,
}

/// The two program-derived addresses of a project that sign for the program.
#[derive(Clone, Copy, Debug, PartialEq, Eq)]
pub enum EscrowKind {
    /// Holds the item mints' authority and the payments for new items.
    Escrow,
    /// Holds the item tokens offered on the market.
    MarketEscrow,
}

/// `b"escrow"`.
pub open spec fn escrow_seed() -> Seq<u8> {
    seq![101u8, 115, 99, 114, 111, 119]
}

/// `b"market_escrow"`.
pub open spec fn market_escrow_seed() -> Seq<u8> {
    seq![109u8, 97, 114, 107, 101, 116, 95, 101, 115, 99, 114, 111, 119]
}

pub open spec fn seed_prefix(kind: EscrowKind) -> Seq<u8> {
    match kind {
        EscrowKind::Escrow => escrow_seed(),
        EscrowKind::MarketEscrow => market_escrow_seed(),
    }
}

/// A program-derived address signing for a token operation: which escrow of
/// which project, and the bump the project recorded for it.
#[derive(Clone, Copy, Debug, PartialEq, Eq)]
pub struct PdaSigner {
    pub kind: EscrowKind,
    pub project: Pubkey,
    pub bump: u8,
}

impl PdaSigner {
    /// The seeds the address signs with: the escrow's name, the project's
    /// address and the bump, in that order.
    pub fn seeds(&self) -> (s: Vec<Vec<u8>>)
        ensures
            s@.len() == 3,
            s@[0]@ == seed_prefix(self.kind),
            s@[1]@ == self.project@,
            s@[2]@ == seq![self.bump],
    {
        let prefix: Vec<u8> = match self.kind {
            EscrowKind::Escrow => vec![101u8, 115, 99, 114, 111, 119],
            EscrowKind::MarketEscrow => vec![109u8, 97, 114, 107, 101, 116, 95, 101, 115, 99, 114, 111, 119],
        };
        let mut key: Vec<u8> = Vec::new();
        let bytes = self.project.to_bytes();
        let mut i: usize = 0;
        while i < 32
            invariant
                i <= 32,
                bytes@ == self.project@,
                bytes@.len() == 32,
                key@ == bytes@.take(i as int),
            decreases 32 - i,
        {
            key.push(bytes[i]);
            i = i + 1;
            assert(key@ =~= bytes@.take(i as int));
        }
        assert(key@ =~= self.project@);
        let bump = vec![self.bump];
        let mut s: Vec<Vec<u8>> = Vec::new();
        s.push(prefix);
        s.push(key);
        s.push(bump);
        s
    }
}

/// A call into the token program that an instruction asks for. The calls of
/// one instruction are made in order; the first that fails ends the
/// instruction with its error.
#[derive(Clone, Copy, Debug, PartialEq, Eq)]
pub enum TokenInstruction {
    /// Make `mint` a mint with `decimals` decimals, whose tokens
    /// `mint_authority` may create.
    InitializeMint { mint: Pubkey, decimals: u8, mint_authority: Pubkey, freeze_authority: Option<Pubkey> },
    /// Move `amount` tokens from `from` to `to`, with `authority`'s consent.
    Transfer { from: Pubkey, to: Pubkey, authority: Pubkey, amount: u64, signer: Option<PdaSigner> },
    /// Create `amount` new tokens of `mint` in `to`.
    MintTo { mint: Pubkey, to: Pubkey, authority: Pubkey, amount: u64, signer: Option<PdaSigner> },
    /// Close the token account `account`, sending its lamports to `destination`.
    CloseAccount { account: Pubkey, destination: Pubkey, authority: Pubkey, signer: Option<PdaSigner> },
}

/// What an instruction decided: the token-program calls to make, in order,
/// and how the instruction ends once they have all succeeded.
#[derive(Debug)]
pub struct Plan {
    pub calls: Vec<TokenInstruction>,
    pub result: Result<(), HandlerError>,
}

impl Plan {
    /// An instruction refused before any call.
    pub fn refused(e: HandlerError) -> (p: Plan)
        ensures
            p.calls@.len() == 0,
            p.result == Err::<(), HandlerError>(e),
    {
        Plan { calls: Vec::new(), result: Err(e) }
    }

    /// An instruction accepted, with the calls it makes.
    pub fn accepted(calls: Vec<TokenInstruction>) -> (p: Plan)
        ensures
            p.calls@ == calls@,
            p.result == Ok::<(), HandlerError>(()),
    {
        Plan { calls, result: Ok(()) }
    }
}

} // verus!
