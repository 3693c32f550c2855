use crate::errors::EscrowError;
use crate::registry::{TokenDetail, TokenKind, TokenRegistry};
use vstd::prelude::*;

verus! {

/// What a lookup reports of a token: its current owner and its metadata
/// reference.
#[derive(Debug)]
pub struct NFTDetail {
    pub owner: u64,
    pub uri: String,
}

/// The non-fungible token contract: a registry of transferable tokens.
pub struct NFTContract {
    pub registry: TokenRegistry,
}

impl NFTContract {
    /// A fresh, uninitialized contract whose own account is
    /// `contract_address`.
    pub fn new(contract_address: u64) -> (c: NFTContract)
        ensures
            c.registry.wf(),
            !c.registry.is_initialized(),
            c.registry.kind == TokenKind::NonFungible,
            c.registry.contract_address == contract_address,
            c.registry.counter == 0,
            c.registry.tokens@.len() == 0,
    {
        NFTContract { registry: TokenRegistry::new(TokenKind::NonFungible, contract_address) }
    }

    /// Records the administrator and the collection metadata, exactly once.
    pub fn initialize(&mut self, admin: u64, name: String, symbol: String) -> (r: Result<
        (),
        EscrowError,
    >)
        requires
            old(self).registry.wf(),
        ensures
            final(self).registry.wf(),
            TokenRegistry::init_transition(
                old(self).registry,
                final(self).registry,
                admin,
                name@,
                symbol@,
                r,
            ),
    {
        self.registry.initialize(admin, name, symbol)
    }

    /// Mints the next token to `to` and returns its id.
    ///
    /// The host authorizes the acting identity as `to` before calling.
    pub fn mint_nft(&mut self, to: u64, token_uri: String) -> (r: Result<u128, EscrowError>)
        requires
            old(self).registry.wf(),
        ensures
            final(self).registry.wf(),
            TokenRegistry::mint_transition(
                old(self).registry,
                final(self).registry,
                to,
                token_uri@,
                r,
            ),
    {
        self.registry.mint(to, token_uri)
    }

    /// Burns a token held by `owner`: its record passes to the contract's
    /// own account with an empty metadata reference.
    ///
    /// The host authorizes the acting identity as `owner` before calling.
    pub fn burn_nft(&mut self, owner: u64, token_id: u128) -> (r: Result<(), EscrowError>)
        requires
            old(self).registry.wf(),
        ensures
            final(self).registry.wf(),
            TokenRegistry::move_transition(
                old(self).registry,
                final(self).registry,
                owner,
                old(self).registry.contract_address,
                token_id,
                Seq::<char>::empty(),
                r,
            ),
    {
        let sink = self.registry.contract_address;
        self.registry.move_custody(owner, sink, token_id, String::new())
    }

    /// Transfers a token from its holder `from` to `to`, keeping its
    /// metadata reference.
    ///
    /// The host authorizes the acting identity as `from` before calling.
    pub fn transfer_nft(&mut self, from: u64, to: u64, token_id: u128) -> (r: Result<
        (),
        EscrowError,
    >)
        requires
            old(self).registry.wf(),
        ensures
            final(self).registry.wf(),
            old(self).registry.move_refusal(from, token_id) is None ==> {
                &&& old(self).registry.token(token_id) is Some
                &&& TokenRegistry::move_transition(
                    old(self).registry,
                    final(self).registry,
                    from,
                    to,
                    token_id,
                    old(self).registry.token(token_id)->Some_0.uri@,
                    r,
                )
            },
            old(self).registry.move_refusal(from, token_id) is Some ==> r == Err::<
                (),
                EscrowError,
            >(old(self).registry.move_refusal(from, token_id)->Some_0) && *final(self) == *old(
                self,
            ),
    {
        let detail = self.registry.get_detail(token_id);
        self.registry.move_custody(from, to, token_id, detail.uri)
    }

    /// A token's record: its owner and metadata reference, or the contract's
    /// own account with an empty reference for a token never minted.
    pub fn get_nft_detail(&self, token_id: u128) -> (d: NFTDetail)
        requires
            self.registry.wf(),
        ensures
            self.registry.token(token_id) is Some ==> {
                let rec = self.registry.token(token_id)->Some_0;
                d.owner == rec.owner && d.uri@ == rec.uri@
            },
            self.registry.token(token_id) is None ==> d.owner
                == self.registry.contract_address && d.uri@.len() == 0,
            d.owner == self.registry.spec_owner(token_id),
    {
        let d: TokenDetail = self.registry.get_detail(token_id);
        NFTDetail { owner: d.owner, uri: d.uri }
    }

    /// The administrator recorded at initialization.
    pub fn read_administrator(&self) -> (r: Result<u64, EscrowError>)
        ensures
            self.registry.is_initialized() ==> r == Ok::<u64, EscrowError>(
                self.registry.admin(),
            ),
            !self.registry.is_initialized() ==> r == Err::<u64, EscrowError>(
                EscrowError::StateViolation,
            ),
    {
        self.registry.read_administrator()
    }

    /// Whether the contract has been initialized.
    pub fn has_administrator(&self) -> (r: bool)
        ensures
            r == self.registry.is_initialized(),
    {
        self.registry.has_administrator()
    }

    /// Whether `account` is *not* the holder of `token_id`.
    pub fn has_nft_owner(&self, account: u64, token_id: u128) -> (r: bool)
        requires
            self.registry.wf(),
        ensures
            r == (self.registry.spec_owner(token_id) != account),
    {
        self.registry.is_not_owner(account, token_id)
    }

    /// The collection's name.
    pub fn name(&self) -> (r: Result<String, EscrowError>)
        ensures
            self.registry.is_initialized() ==> r is Ok && r->Ok_0@
                == self.registry.config->Some_0.name@,
            !self.registry.is_initialized() ==> r == Err::<String, EscrowError>(
                EscrowError::StateViolation,
            ),
    {
        self.registry.name()
    }

    /// The collection's symbol.
    pub fn symbol(&self) -> (r: Result<String, EscrowError>)
        ensures
            self.registry.is_initialized() ==> r is Ok && r->Ok_0@
                == self.registry.config->Some_0.symbol@,
            !self.registry.is_initialized() ==> r == Err::<String, EscrowError>(
                EscrowError::StateViolation,
            ),
    {
        self.registry.symbol()
    }
}

} // verus!
