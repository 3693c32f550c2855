use crate::errors::EscrowError;
use vstd::prelude::*;

verus! {

/// Which rules a token collection follows: ordinary non-fungible tokens can
/// be transferred and burned; soul-bound tokens, once minted, never move.
#[derive(Clone, Copy, PartialEq, Eq, Structural, Debug)]
pub enum TokenKind {
    NonFungible,
    SoulBound,
}

/// One minted token: its id, its current owner, and its metadata reference.
/// A record whose owner is the registry's own account stands for a burned or
/// never-minted token.
#[derive(Debug)]
pub struct TokenRecord {
    pub token_id: u128,
    pub owner: u64,
    pub uri: String,
}

/// What a lookup reports of a token: its owner and its metadata reference.
#[derive(Debug)]
pub struct TokenDetail {
    pub owner: u64,
    pub uri: String,
}

/// The singleton configuration of a registry, recorded at initialization.
#[derive(Debug)]
pub struct RegistryConfig {
    pub admin: u64,
    pub name: String,
    pub symbol: String,
}

/// No token id is recorded twice.
pub open spec fn unique_token_ids(s: Seq<TokenRecord>) -> bool {
    forall|i: int, j: int| 0 <= i < j < s.len() ==> s[i].token_id != s[j].token_id
}

/// Every recorded id was drawn from the mint counter.
pub open spec fn ids_bounded(s: Seq<TokenRecord>, counter: u128) -> bool {
    forall|i: int| 0 <= i < s.len() ==> 1 <= (#[trigger] s[i]).token_id <= counter
}

/// Whether a token id has ever been minted.
pub open spec fn has_token(s: Seq<TokenRecord>, token_id: u128) -> bool {
    exists|i: int| 0 <= i < s.len() && s[i].token_id == token_id
}

/// The record for a token id, if the token was ever minted.
pub open spec fn find_token(s: Seq<TokenRecord>, token_id: u128) -> Option<TokenRecord>
    decreases s.len(),
{
    if s.len() == 0 {
        None
    } else if s[0].token_id == token_id {
        Some(s[0])
    } else {
        find_token(s.drop_first(), token_id)
    }
}

pub proof fn lemma_token_absent(s: Seq<TokenRecord>, token_id: u128)
    requires
        !has_token(s, token_id),
    ensures
        find_token(s, token_id) is None,
    decreases s.len(),
{
    if s.len() > 0 {
        assert(s[0].token_id != token_id);
        assert(forall|i: int|
            0 <= i < s.drop_first().len() ==> s.drop_first()[i] == s[i + 1]);
        lemma_token_absent(s.drop_first(), token_id);
    }
}

pub proof fn lemma_token_at_index(s: Seq<TokenRecord>, i: int)
    requires
        unique_token_ids(s),
        0 <= i < s.len(),
    ensures
        find_token(s, s[i].token_id) == Some(s[i]),
    decreases s.len(),
{
    if i > 0 {
        assert(s[0].token_id != s[i].token_id);
        assert(unique_token_ids(s.drop_first())) by {
            assert(forall|k: int|
                0 <= k < s.drop_first().len() ==> s.drop_first()[k] == s[k + 1]);
        }
        lemma_token_at_index(s.drop_first(), i - 1);
    }
}

pub proof fn lemma_token_push(s: Seq<TokenRecord>, e: TokenRecord, token_id: u128)
    requires
        !has_token(s, e.token_id),
    ensures
        e.token_id == token_id ==> find_token(s.push(e), token_id) == Some(e),
        e.token_id != token_id ==> find_token(s.push(e), token_id) == find_token(s, token_id),
    decreases s.len(),
{
    if s.len() == 0 {
        assert(s.push(e).drop_first() =~= Seq::<TokenRecord>::empty());
        assert(s.push(e)[0] == e);
        if e.token_id != token_id {
            assert(find_token(s.push(e), token_id) == find_token(
                s.push(e).drop_first(),
                token_id,
            ));
        }
    } else {
        assert(s.push(e).drop_first() =~= s.drop_first().push(e));
        assert(forall|i: int|
            0 <= i < s.drop_first().len() ==> s.drop_first()[i] == s[i + 1]);
        lemma_token_push(s.drop_first(), e, token_id);
        assert(s.push(e)[0] == s[0]);
        if s[0].token_id == token_id {
            assert(find_token(s.push(e), token_id) == Some(s[0]));
        } else {
            assert(find_token(s.push(e), token_id) == find_token(
                s.push(e).drop_first(),
                token_id,
            ));
        }
    }
}

pub proof fn lemma_token_update(s: Seq<TokenRecord>, i: int, v: TokenRecord, token_id: u128)
    requires
        unique_token_ids(s),
        0 <= i < s.len(),
        v.token_id == s[i].token_id,
    ensures
        s[i].token_id == token_id ==> find_token(s.update(i, v), token_id) == Some(v),
        s[i].token_id != token_id ==> find_token(s.update(i, v), token_id) == find_token(
            s,
            token_id,
        ),
    decreases s.len(),
{
    if i == 0 {
        assert(s.update(0, v).drop_first() =~= s.drop_first());
        assert(s.update(0, v)[0] == v);
    } else {
        assert(s.update(i, v).drop_first() =~= s.drop_first().update(i - 1, v));
        assert(unique_token_ids(s.drop_first())) by {
            assert(forall|k: int|
                0 <= k < s.drop_first().len() ==> s.drop_first()[k] == s[k + 1]);
        }
        lemma_token_update(s.drop_first(), i - 1, v, token_id);
        assert(s.update(i, v)[0] == s[0]);
    }
}

/// Finds the index of a token's record, if there is one.
fn find_token_index(tokens: &Vec<TokenRecord>, token_id: u128) -> (r: Option<usize>)
    ensures
        match r {
            Some(i) => i < tokens@.len() && tokens@[i as int].token_id == token_id,
            None => !has_token(tokens@, token_id),
        },
{
    let n: usize = tokens.len();
    let mut i: usize = 0;
    while i < n
        invariant
            n == tokens@.len(),
            0 <= i <= n,
            forall|k: int| 0 <= k < i ==> tokens@[k].token_id != token_id,
        decreases n - i,
    {
        if tokens[i].token_id == token_id {
            return Some(i);
        }
        i = i + 1;
    }
    None
}

/// A registry of minted tokens with a current-owner record per token: the
/// one capability interface — mint, transfer of custody, ownership lookup —
/// that both token kinds share, parameterized over the kind tag.
pub struct TokenRegistry {
    /// Which rules this collection follows.
    pub kind: TokenKind,
    /// The registry's own account; also the "owner" of burned and
    /// never-minted tokens.
    pub contract_address: u64,
    /// The configuration; `None` until `initialize` has run.
    pub config: Option<RegistryConfig>,
    /// The last minted token id; ids are handed out consecutively from one.
    pub counter: u128,
    /// Every minted token's record, in mint order.
    pub tokens: Vec<TokenRecord>,
}

impl TokenRegistry {
    /// Well-formedness: one record per token id, every id drawn from the
    /// mint counter.
    pub open spec fn wf(self) -> bool {
        &&& unique_token_ids(self.tokens@)
        &&& ids_bounded(self.tokens@, self.counter)
    }

    pub open spec fn is_initialized(self) -> bool {
        self.config is Some
    }

    pub open spec fn admin(self) -> u64 {
        self.config->Some_0.admin
    }

    /// The record for a token id, if the token was ever minted.
    pub open spec fn token(self, token_id: u128) -> Option<TokenRecord> {
        find_token(self.tokens@, token_id)
    }

    /// Who holds a token: its recorded owner, or the registry's own account
    /// for a token never minted or burned.
    pub open spec fn spec_owner(self, token_id: u128) -> u64 {
        if self.token(token_id) is Some {
            self.token(token_id)->Some_0.owner
        } else {
            self.contract_address
        }
    }

    /// Why a mint would be refused, or `None` when it is accepted.
    pub open spec fn mint_refusal(self, to: u64, uri: Seq<char>) -> Option<EscrowError> {
        if to == self.contract_address {
            Some(EscrowError::PreconditionViolation)
        } else if uri.len() == 0 {
            Some(EscrowError::PreconditionViolation)
        } else if self.counter == u128::MAX {
            Some(EscrowError::PreconditionViolation)
        } else {
            None
        }
    }

    /// Why a transfer of custody (or a burn) by `acting` of `token_id` would
    /// be refused, or `None` when it is accepted: the acting identity must be
    /// the token's recorded owner and not the registry itself.
    pub open spec fn move_refusal(self, acting: u64, token_id: u128) -> Option<EscrowError> {
        if self.spec_owner(token_id) != acting {
            Some(EscrowError::AuthorizationFailure)
        } else if acting == self.contract_address {
            Some(EscrowError::PreconditionViolation)
        } else {
            None
        }
    }

    /// How `initialize` relates the registry before and after the call: a
    /// second initialization fails as a state violation and changes nothing;
    /// the first records the administrator and the collection metadata.
    pub open spec fn init_transition(
        pre: TokenRegistry,
        post: TokenRegistry,
        admin: u64,
        name: Seq<char>,
        symbol: Seq<char>,
        r: Result<(), EscrowError>,
    ) -> bool {
        if pre.is_initialized() {
            r == Err::<(), EscrowError>(EscrowError::StateViolation) && post == pre
        } else {
            &&& r == Ok::<(), EscrowError>(())
            &&& post.is_initialized()
            &&& post.admin() == admin
            &&& post.config->Some_0.name@ == name
            &&& post.config->Some_0.symbol@ == symbol
            &&& post.counter == pre.counter
            &&& post.tokens@ == pre.tokens@
            &&& post.kind == pre.kind
            &&& post.contract_address == pre.contract_address
        }
    }

    /// How `mint` relates the registry before and after the call: a refused
    /// mint changes nothing and reports why; an accepted one hands out the
    /// next id, records the new token, and touches no other record.
    pub open spec fn mint_transition(
        pre: TokenRegistry,
        post: TokenRegistry,
        to: u64,
        uri: Seq<char>,
        r: Result<u128, EscrowError>,
    ) -> bool {
        if pre.mint_refusal(to, uri) is Some {
            r == Err::<u128, EscrowError>(pre.mint_refusal(to, uri)->Some_0) && post == pre
        } else {
            &&& r == Ok::<u128, EscrowError>(((pre.counter + 1) as u128))
            &&& post.counter == pre.counter + 1
            &&& post.token(post.counter) is Some
            &&& ({
                let rec = post.token(post.counter)->Some_0;
                &&& rec.token_id == post.counter
                &&& rec.owner == to
                &&& rec.uri@ == uri
            })
            &&& forall|id: u128|
                id != ((pre.counter + 1) as u128) ==> post.token(id) == pre.token(id)
            &&& post.config == pre.config
            &&& post.kind == pre.kind
            &&& post.contract_address == pre.contract_address
        }
    }

    /// How a transfer of custody (or a burn) relates the registry before and
    /// after the call: a refused move changes nothing and reports why; an
    /// accepted one re-records the token under the new holder with the given
    /// metadata reference and touches no other record.
    pub open spec fn move_transition(
        pre: TokenRegistry,
        post: TokenRegistry,
        acting: u64,
        to: u64,
        token_id: u128,
        uri: Seq<char>,
        r: Result<(), EscrowError>,
    ) -> bool {
        if pre.move_refusal(acting, token_id) is Some {
            r == Err::<(), EscrowError>(pre.move_refusal(acting, token_id)->Some_0) && post
                == pre
        } else {
            &&& r == Ok::<(), EscrowError>(())
            &&& post.token(token_id) is Some
            &&& ({
                let rec = post.token(token_id)->Some_0;
                &&& rec.token_id == token_id
                &&& rec.owner == to
                &&& rec.uri@ == uri
            })
            &&& forall|id: u128| id != token_id ==> post.token(id) == pre.token(id)
            &&& post.counter == pre.counter
            &&& post.config == pre.config
            &&& post.kind == pre.kind
            &&& post.contract_address == pre.contract_address
        }
    }

    /// A fresh, uninitialized registry whose own account is
    /// `contract_address`.
    pub fn new(kind: TokenKind, contract_address: u64) -> (r: TokenRegistry)
        ensures
            r.wf(),
            !r.is_initialized(),
            r.kind == kind,
            r.contract_address == contract_address,
            r.counter == 0,
            r.tokens@.len() == 0,
    {
        TokenRegistry { kind, contract_address, config: None, counter: 0, tokens: Vec::new() }
    }

    /// Records the administrator and the collection metadata.  Permitted
    /// exactly once per registry: a second call fails and leaves the
    /// original configuration untouched.
    pub fn initialize(&mut self, admin: u64, name: String, symbol: String) -> (r: Result<
        (),
        EscrowError,
    >)
        requires
            old(self).wf(),
        ensures
            final(self).wf(),
            TokenRegistry::init_transition(*old(self), *final(self), admin, name@, symbol@, r),
    {
        if self.config.is_some() {
            return Err(EscrowError::StateViolation);
        }
        self.config = Some(RegistryConfig { admin, name, symbol });
        Ok(())
    }

    /// Mints the next token to `to` with metadata reference `token_uri` and
    /// returns its id.  The registry itself cannot receive a token and the
    /// metadata reference may not be empty.
    ///
    /// The host authorizes the acting identity as `to` before calling.
    pub fn mint(&mut self, to: u64, token_uri: String) -> (r: Result<u128, EscrowError>)
        requires
            old(self).wf(),
        ensures
            final(self).wf(),
            TokenRegistry::mint_transition(*old(self), *final(self), to, token_uri@, r),
    {
        if to == self.contract_address {
            return Err(EscrowError::PreconditionViolation);
        }
        if token_uri.as_str().is_empty() {
            return Err(EscrowError::PreconditionViolation);
        }
        if self.counter == u128::MAX {
            return Err(EscrowError::PreconditionViolation);
        }
        let token_id = self.counter + 1;
        let rec = TokenRecord { token_id, owner: to, uri: token_uri };
        proof {
            assert(!has_token(self.tokens@, token_id));
            lemma_token_push(self.tokens@, rec, token_id);
            assert forall|id: u128| id != token_id implies find_token(
                self.tokens@.push(rec),
                id,
            ) == find_token(self.tokens@, id) by {
                lemma_token_push(self.tokens@, rec, id);
            }
        }
        self.tokens.push(rec);
        self.counter = token_id;
        Ok(token_id)
    }

    /// Moves a token's custody from its recorded owner `acting` to `to` —
    /// and, with `to` the registry's own account and an empty reference,
    /// burns it.
    ///
    /// The host authorizes the acting identity as `acting` before calling.
    pub fn move_custody(&mut self, acting: u64, to: u64, token_id: u128, uri: String) -> (r:
        Result<(), EscrowError>)
        requires
            old(self).wf(),
        ensures
            final(self).wf(),
            TokenRegistry::move_transition(*old(self), *final(self), acting, to, token_id, uri@, r),
    {
        match find_token_index(&self.tokens, token_id) {
            None => {
                proof {
                    lemma_token_absent(self.tokens@, token_id);
                }
                if self.contract_address != acting {
                    return Err(EscrowError::AuthorizationFailure);
                }
                Err(EscrowError::PreconditionViolation)
            },
            Some(i) => {
                proof {
                    lemma_token_at_index(self.tokens@, i as int);
                }
                if self.tokens[i].owner != acting {
                    return Err(EscrowError::AuthorizationFailure);
                }
                if acting == self.contract_address {
                    return Err(EscrowError::PreconditionViolation);
                }
                let rec = TokenRecord { token_id, owner: to, uri };
                proof {
                    lemma_token_update(self.tokens@, i as int, rec, token_id);
                    assert forall|id: u128| id != token_id implies find_token(
                        self.tokens@.update(i as int, rec),
                        id,
                    ) == find_token(self.tokens@, id) by {
                        lemma_token_update(self.tokens@, i as int, rec, id);
                    }
                }
                self.tokens[i] = rec;
                Ok(())
            },
        }
    }

    /// A token's record: its owner and metadata reference, or the registry's
    /// own account with an empty reference for a token never minted.
    pub fn get_detail(&self, token_id: u128) -> (d: TokenDetail)
        requires
            self.wf(),
        ensures
            self.token(token_id) is Some ==> {
                let rec = self.token(token_id)->Some_0;
                d.owner == rec.owner && d.uri@ == rec.uri@
            },
            self.token(token_id) is None ==> d.owner == self.contract_address && d.uri@.len()
                == 0,
            d.owner == self.spec_owner(token_id),
    {
        match find_token_index(&self.tokens, token_id) {
            Some(i) => {
                proof {
                    lemma_token_at_index(self.tokens@, i as int);
                }
                TokenDetail { owner: self.tokens[i].owner, uri: self.tokens[i].uri.clone() }
            },
            None => {
                proof {
                    lemma_token_absent(self.tokens@, token_id);
                }
                TokenDetail { owner: self.contract_address, uri: String::new() }
            },
        }
    }

    /// Whether `account` is *not* the holder of `token_id` — the polarity the
    /// storefronts consume directly as their refusal condition.
    pub fn is_not_owner(&self, account: u64, token_id: u128) -> (r: bool)
        requires
            self.wf(),
        ensures
            r == (self.spec_owner(token_id) != account),
    {
        match find_token_index(&self.tokens, token_id) {
            Some(i) => {
                proof {
                    lemma_token_at_index(self.tokens@, i as int);
                }
                self.tokens[i].owner != account
            },
            None => {
                proof {
                    lemma_token_absent(self.tokens@, token_id);
                }
                self.contract_address != account
            },
        }
    }

    /// The administrator recorded at initialization.
    pub fn read_administrator(&self) -> (r: Result<u64, EscrowError>)
        ensures
            self.is_initialized() ==> r == Ok::<u64, EscrowError>(self.admin()),
            !self.is_initialized() ==> r == Err::<u64, EscrowError>(EscrowError::StateViolation),
    {
        match &self.config {
            Some(c) => Ok(c.admin),
            None => Err(EscrowError::StateViolation),
        }
    }

    /// Whether the registry has been initialized.
    pub fn has_administrator(&self) -> (r: bool)
        ensures
            r == self.is_initialized(),
    {
        self.config.is_some()
    }

    /// The collection's name.
    pub fn name(&self) -> (r: Result<String, EscrowError>)
        ensures
            self.is_initialized() ==> r is Ok && r->Ok_0@ == self.config->Some_0.name@,
            !self.is_initialized() ==> r == Err::<String, EscrowError>(
                EscrowError::StateViolation,
            ),
    {
        match &self.config {
            Some(c) => Ok(c.name.clone()),
            None => Err(EscrowError::StateViolation),
        }
    }

    /// The collection's symbol.
    pub fn symbol(&self) -> (r: Result<String, EscrowError>)
        ensures
            self.is_initialized() ==> r is Ok && r->Ok_0@ == self.config->Some_0.symbol@,
            !self.is_initialized() ==> r == Err::<String, EscrowError>(
                EscrowError::StateViolation,
            ),
    {
        match &self.config {
            Some(c) => Ok(c.symbol.clone()),
            None => Err(EscrowError::StateViolation),
        }
    }
}

} // verus!
