//! The ledger of a multi-token: a balance for every owner and id, and the
//! operators that may move an owner's holdings.

use crate::address::{zero_address, Address};
use crate::guard::{acknowledged, acknowledges, guard, guard_of, Guard, Shape};
use crate::hash::{selector, selector_of};
use crate::primitives::{decimal_text, pow2_128, u256_max, U256};
use crate::table::Table;
use vstd::prelude::*;
use vstd::string::StringExecFns;
use vstd::string::StringSliceAdditionalSpecFns;

verus! {

/// What a deployment fixes about its asset.
pub trait ERC1155Params {
    /// Where the description of an id is found.
    spec fn uri_text(&self, id: U256) -> Seq<char>;

    fn uri(&self, id: U256) -> (r: String)
        ensures
            r@ == self.uri_text(id),
    ;
}

/// Parameters given as plain values: the description of an id is found at
/// `base_uri` followed by the id in decimal digits.
#[derive(Clone, Debug)]
pub struct ERC1155Settings {
    pub base_uri: String,
}

impl ERC1155Params for ERC1155Settings {
    open spec fn uri_text(&self, id: U256) -> Seq<char> {
        self.base_uri@ + decimal_text(id@)
    }

    fn uri(&self, id: U256) -> (r: String) {
        let mut uri = self.base_uri.clone();
        uri.append(id.to_decimal().as_str());
        uri
    }
}

/// A record of something the ledger did, for the host to publish.
#[derive(Clone, Debug, PartialEq, Eq)]
pub enum ERC1155Event {
    /// `operator` moved `amount` of `id` from `from` to `to`.
    TransferSingle { operator: Address, from: Address, to: Address, id: U256, amount: U256 },
    /// `operator` moved `amounts[i]` of `ids[i]`, for every `i`, from
    /// `from` to `to`.
    TransferBatch { operator: Address, from: Address, to: Address, ids: Vec<U256>, amounts: Vec<U256> },
    /// `operator` may, or may no longer, move everything `owner` holds.
    ApprovalForAll { owner: Address, operator: Address, approved: bool },
}

/// A record of the log as a mathematical value.
pub enum ERC1155Record {
    TransferSingle { operator: Address, from: Address, to: Address, id: U256, amount: U256 },
    TransferBatch { operator: Address, from: Address, to: Address, ids: Seq<U256>, amounts: Seq<U256> },
    ApprovalForAll { owner: Address, operator: Address, approved: bool },
}

impl View for ERC1155Event {
    type V = ERC1155Record;

    open spec fn view(&self) -> ERC1155Record {
        match *self {
            ERC1155Event::TransferSingle { operator, from, to, id, amount } => {
                ERC1155Record::TransferSingle { operator, from, to, id, amount }
            },
            ERC1155Event::TransferBatch { operator, from, to, ids, amounts } => {
                ERC1155Record::TransferBatch { operator, from, to, ids: ids@, amounts: amounts@ }
            },
            ERC1155Event::ApprovalForAll { owner, operator, approved } => {
                ERC1155Record::ApprovalForAll { owner, operator, approved }
            },
        }
    }
}

/// The ways an operation on the ledger may fail.
#[derive(Clone, Copy, Debug, PartialEq, Eq)]
pub enum ERC1155Error {
    NotAuthorized,
    UnsafeRecipient,
    LengthMismatch,
    InsufficientBalance,
    Overflow,
}

impl ERC1155Error {
    /// The text whose selector identifies the error to callers.
    pub open spec fn signature(&self) -> Seq<u8> {
        match self {
            ERC1155Error::NotAuthorized => "NotAuthorized()".spec_bytes(),
            ERC1155Error::UnsafeRecipient => "UnsafeRecipient()".spec_bytes(),
            ERC1155Error::LengthMismatch => "LengthMismatch()".spec_bytes(),
            ERC1155Error::InsufficientBalance => "InsufficientBalance()".spec_bytes(),
            ERC1155Error::Overflow => "Overflow()".spec_bytes(),
        }
    }

    /// The error as callers see it: the selector of its signature.
    pub fn encode(&self) -> (r: Vec<u8>)
        ensures
            r@ == selector_of(self.signature()),
    {
        let s = match self {
            ERC1155Error::NotAuthorized => selector("NotAuthorized()"),
            ERC1155Error::UnsafeRecipient => selector("UnsafeRecipient()"),
            ERC1155Error::LengthMismatch => selector("LengthMismatch()"),
            ERC1155Error::InsufficientBalance => selector("InsufficientBalance()"),
            ERC1155Error::Overflow => selector("Overflow()"),
        };
        let r = vec![s[0], s[1], s[2], s[3]];
        assert(r@ =~= s@);
        r
    }
}

/// The question that the host has to put to a recipient that hosts code,
/// after an amount of one id arrived.
#[derive(Clone, Debug)]
pub struct SingleRequest {
    pub to: Address,
    pub operator: Address,
    pub from: Address,
    pub id: U256,
    pub value: U256,
    pub data: Vec<u8>,
}

/// The question that the host has to put to a recipient that hosts code,
/// after amounts of several ids arrived.
#[derive(Clone, Debug)]
pub struct BatchRequest {
    pub to: Address,
    pub operator: Address,
    pub from: Address,
    pub ids: Vec<U256>,
    pub values: Vec<U256>,
    pub data: Vec<u8>,
}

/// The balances of a multi-token: for an owner and an id, a quantity.
pub type Holdings = Map<(Address, U256), nat>;

/// The balances after `amount` of `id` left `from` and arrived at `to`, or
/// the reason why that cannot be.
pub open spec fn move_one(holdings: Holdings, from: Address, to: Address, id: U256, amount: U256) -> Result<
    Holdings,
    ERC1155Error,
> {
    if holdings[(from, id)] < amount@ {
        Err(ERC1155Error::InsufficientBalance)
    } else {
        let lowered = holdings.insert((from, id), (holdings[(from, id)] - amount@) as nat);
        if lowered[(to, id)] + amount@ > u256_max() {
            Err(ERC1155Error::Overflow)
        } else {
            Ok(lowered.insert((to, id), lowered[(to, id)] + amount@))
        }
    }
}

/// The balances after every `amounts[i]` of `ids[i]` moved in turn, or the
/// reason why the first move that fails cannot be.
pub open spec fn move_all(
    holdings: Holdings,
    from: Address,
    to: Address,
    ids: Seq<U256>,
    amounts: Seq<U256>,
) -> Result<Holdings, ERC1155Error>
    decreases ids.len(),
{
    if ids.len() == 0 || amounts.len() == 0 {
        Ok(holdings)
    } else {
        match move_one(holdings, from, to, ids[0], amounts[0]) {
            Ok(next) => move_all(next, from, to, ids.drop_first(), amounts.drop_first()),
            Err(e) => Err(e),
        }
    }
}

/// The ledger as a mathematical value.
pub struct ERC1155State {
    pub balances: Holdings,
    pub operators: Map<(Address, Address), bool>,
    pub log: Seq<ERC1155Record>,
}

impl ERC1155State {
    /// One more record in the log.
    pub open spec fn record(self, event: ERC1155Record) -> ERC1155State {
        ERC1155State { log: self.log.push(event), ..self }
    }

    /// Whether `caller` may move what `from` holds: as `from` itself or as
    /// an operator of `from`.
    pub open spec fn may_move(self, caller: Address, from: Address) -> bool {
        caller == from || self.operators[(from, caller)]
    }

    /// What `set_approval_for_all` does.
    pub open spec fn operator_set(self, caller: Address, operator: Address, approved: bool) -> ERC1155State {
        ERC1155State { operators: self.operators.insert((caller, operator), approved), ..self }.record(
            ERC1155Record::ApprovalForAll { owner: caller, operator, approved },
        )
    }

    /// What `mint` does.
    pub open spec fn mint_result(self, caller: Address, to: Address, id: U256, amount: U256) -> Result<
        ERC1155State,
        ERC1155Error,
    > {
        if self.balances[(to, id)] + amount@ > u256_max() {
            Err(ERC1155Error::Overflow)
        } else {
            Ok(
                ERC1155State {
                    balances: self.balances.insert((to, id), self.balances[(to, id)] + amount@),
                    ..self
                }.record(
                    ERC1155Record::TransferSingle {
                        operator: caller,
                        from: zero_address(),
                        to,
                        id,
                        amount,
                    },
                ),
            )
        }
    }

    /// What `burn` does.
    pub open spec fn burn_result(self, caller: Address, from: Address, id: U256, amount: U256) -> Result<
        ERC1155State,
        ERC1155Error,
    > {
        if self.balances[(from, id)] < amount@ {
            Err(ERC1155Error::InsufficientBalance)
        } else {
            Ok(
                ERC1155State {
                    balances: self.balances.insert(
                        (from, id),
                        (self.balances[(from, id)] - amount@) as nat,
                    ),
                    ..self
                }.record(
                    ERC1155Record::TransferSingle {
                        operator: caller,
                        from,
                        to: zero_address(),
                        id,
                        amount,
                    },
                ),
            )
        }
    }

    /// What `safe_transfer_from` does to the ledger.
    pub open spec fn transfer_result(
        self,
        caller: Address,
        from: Address,
        to: Address,
        id: U256,
        amount: U256,
        to_has_code: bool,
    ) -> Result<ERC1155State, ERC1155Error> {
        if !self.may_move(caller, from) {
            Err(ERC1155Error::NotAuthorized)
        } else {
            match move_one(self.balances, from, to, id, amount) {
                Err(e) => Err(e),
                Ok(holdings) => if guard_of(to, to_has_code) == Guard::Refuse {
                    Err(ERC1155Error::UnsafeRecipient)
                } else {
                    Ok(
                        ERC1155State { balances: holdings, ..self }.record(
                            ERC1155Record::TransferSingle { operator: caller, from, to, id, amount },
                        ),
                    )
                },
            }
        }
    }

    /// What `safe_batch_transfer_from` does to the ledger.
    pub open spec fn batch_transfer_result(
        self,
        caller: Address,
        from: Address,
        to: Address,
        ids: Seq<U256>,
        amounts: Seq<U256>,
        to_has_code: bool,
    ) -> Result<ERC1155State, ERC1155Error> {
        if ids.len() != amounts.len() {
            Err(ERC1155Error::LengthMismatch)
        } else if !self.may_move(caller, from) {
            Err(ERC1155Error::NotAuthorized)
        } else {
            match move_all(self.balances, from, to, ids, amounts) {
                Err(e) => Err(e),
                Ok(holdings) => if guard_of(to, to_has_code) == Guard::Refuse {
                    Err(ERC1155Error::UnsafeRecipient)
                } else {
                    Ok(
                        ERC1155State { balances: holdings, ..self }.record(
                            ERC1155Record::TransferBatch { operator: caller, from, to, ids, amounts },
                        ),
                    )
                },
            }
        }
    }
}

/// The quantities that a table of balances holds.
pub open spec fn holdings_of(table: Map<(Address, U256), U256>) -> Holdings {
    Map::total(|p: (Address, U256)| table[p]@)
}

/// A copy of a list of quantities.
pub fn copy_words(words: &Vec<U256>) -> (r: Vec<U256>)
    ensures
        r@ == words@,
{
    let mut r: Vec<U256> = Vec::new();
    let mut i: usize = 0;
    while i < words.len()
        invariant
            i <= words@.len(),
            r@ == words@.subrange(0, i as int),
        decreases words@.len() - i,
    {
        r.push(words[i]);
        assert(words@.subrange(0, i + 1) =~= words@.subrange(0, i as int).push(words@[i as int]));
        i = i + 1;
    }
    assert(words@.subrange(0, words@.len() as int) =~= words@);
    r
}

/// Moves `amount` of `id` from `from` to `to` in a table of balances, or
/// leaves the table as it is and says why the move cannot be.
fn move_in_table(
    table: &mut Table<(Address, U256), U256>,
    from: Address,
    to: Address,
    id: U256,
    amount: U256,
) -> (r: Result<(), ERC1155Error>)
    requires
        old(table).wf(),
    ensures
        final(table).wf(),
        final(table).blank() == old(table).blank(),
        match move_one(holdings_of(old(table)@), from, to, id, amount) {
            Ok(holdings) => r == Ok::<(), ERC1155Error>(()) && holdings_of(final(table)@) == holdings,
            Err(e) => r == Err::<(), ERC1155Error>(e) && *final(table) == *old(table),
        },
{
    let held = table.get(&(from, id));
    let lowered = match held.checked_sub(&amount) {
        Some(b) => b,
        None => {
            return Err(ERC1155Error::InsufficientBalance);
        },
    };
    let kept = if from == to {
        lowered
    } else {
        table.get(&(to, id))
    };
    let raised = match kept.checked_add(&amount) {
        Some(b) => b,
        None => {
            return Err(ERC1155Error::Overflow);
        },
    };
    table.set((from, id), lowered);
    table.set((to, id), raised);
    proof {
        let expected = move_one(holdings_of(old(table)@), from, to, id, amount).unwrap();
        assert(holdings_of(table@) =~= expected);
    }
    Ok(())
}

/// The ledger that two tables and a log stand for.
pub open spec fn ledger_state(
    balances: Map<(Address, U256), U256>,
    operators: Map<(Address, Address), bool>,
    events: Seq<ERC1155Event>,
) -> ERC1155State {
    ERC1155State {
        balances: holdings_of(balances),
        operators,
        log: events.map_values(|e: ERC1155Event| e@),
    }
}

/// Whether two tables make a consistent ledger.
pub open spec fn consistent(
    balance_of: Table<(Address, U256), U256>,
    is_approved_for_all: Table<(Address, Address), bool>,
) -> bool {
    &&& balance_of.wf()
    &&& is_approved_for_all.wf()
    &&& balance_of.blank() == U256 { hi: 0, lo: 0 }
    &&& is_approved_for_all.blank() == false
}

/// The ledger as it was before a safe transfer, kept so that the transfer
/// can be undone where the recipient refuses, and the kind of question
/// that the recipient is asked.
#[derive(Clone, Debug)]
pub struct Undo {
    shape: Shape,
    balance_of: Table<(Address, U256), U256>,
    is_approved_for_all: Table<(Address, Address), bool>,
    events: Vec<ERC1155Event>,
}

impl Undo {
    /// What is kept is a consistent ledger.
    pub closed spec fn wf(&self) -> bool {
        consistent(self.balance_of, self.is_approved_for_all)
    }

    /// The kind of question that the recipient is asked.
    pub closed spec fn shape(&self) -> Shape {
        self.shape
    }

    /// The ledger as it was.
    pub closed spec fn before(&self) -> ERC1155State {
        ledger_state(self.balance_of@, self.is_approved_for_all@, self.events@)
    }
}

/// A safe transfer of one id that waits for the reply of the recipient:
/// the question to put to it, and what undoes the transfer.
#[derive(Clone, Debug)]
pub struct PendingSingle {
    pub request: SingleRequest,
    pub undo: Undo,
}

/// A safe transfer of a batch that waits for the reply of the recipient:
/// the question to put to it, and what undoes the transfer.
#[derive(Clone, Debug)]
pub struct PendingBatch {
    pub request: BatchRequest,
    pub undo: Undo,
}

/// A copy of one record.
fn copy_event(event: &ERC1155Event) -> (r: ERC1155Event)
    ensures
        r@ == event@,
{
    match event {
        ERC1155Event::TransferSingle { operator, from, to, id, amount } => {
            ERC1155Event::TransferSingle {
                operator: *operator,
                from: *from,
                to: *to,
                id: *id,
                amount: *amount,
            }
        },
        ERC1155Event::TransferBatch { operator, from, to, ids, amounts } => {
            ERC1155Event::TransferBatch {
                operator: *operator,
                from: *from,
                to: *to,
                ids: copy_words(ids),
                amounts: copy_words(amounts),
            }
        },
        ERC1155Event::ApprovalForAll { owner, operator, approved } => {
            ERC1155Event::ApprovalForAll {
                owner: *owner,
                operator: *operator,
                approved: *approved,
            }
        },
    }
}

/// A copy of a list of records.
fn copy_events(events: &Vec<ERC1155Event>) -> (r: Vec<ERC1155Event>)
    ensures
        r@.map_values(|e: ERC1155Event| e@) == events@.map_values(|e: ERC1155Event| e@),
{
    let mut r: Vec<ERC1155Event> = Vec::new();
    let mut i: usize = 0;
    while i < events.len()
        invariant
            i <= events@.len(),
            r@.len() == i,
            forall|j: int| 0 <= j < i ==> (#[trigger] r@[j])@ == events@[j]@,
        decreases events@.len() - i,
    {
        r.push(copy_event(&events[i]));
        i = i + 1;
    }
    assert(r@.map_values(|e: ERC1155Event| e@) =~= events@.map_values(|e: ERC1155Event| e@));
    r
}

/// The ledger of a multi-token.
#[derive(Clone, Debug)]
pub struct ERC1155<T: ERC1155Params> {
    params: T,
    balance_of: Table<(Address, U256), U256>,
    is_approved_for_all: Table<(Address, Address), bool>,
    events: Vec<ERC1155Event>,
}

impl<T: ERC1155Params> View for ERC1155<T> {
    type V = ERC1155State;

    closed spec fn view(&self) -> ERC1155State {
        ledger_state(self.balance_of@, self.is_approved_for_all@, self.events@)
    }
}

impl<T: ERC1155Params> ERC1155<T> {
    /// The ledger is consistent.
    pub closed spec fn wf(&self) -> bool {
        consistent(self.balance_of, self.is_approved_for_all)
    }

    /// What the deployment fixed about the asset.
    pub closed spec fn params(&self) -> T {
        self.params
    }

    proof fn lemma_logged(&self, before: Seq<ERC1155Event>, event: ERC1155Event)
        requires
            self.events@ == before.push(event),
        ensures
            self@.log == before.map_values(|e: ERC1155Event| e@).push(event@),
    {
        assert(self.events@.map_values(|e: ERC1155Event| e@) =~= before.map_values(
            |e: ERC1155Event| e@,
        ).push(event@));
    }

    /// An empty ledger: nothing is held, approved or logged.
    pub fn new(params: T) -> (r: Self)
        ensures
            r.wf(),
            r.params() == params,
            r@ == (ERC1155State {
                balances: Map::total(|p: (Address, U256)| 0nat),
                operators: Map::total(|p: (Address, Address)| false),
                log: Seq::empty(),
            }),
    {
        let r = ERC1155 {
            params,
            balance_of: Table::new(U256::zero()),
            is_approved_for_all: Table::new(false),
            events: Vec::new(),
        };
        proof {
            assert(0 * pow2_128() == 0) by (nonlinear_arith);
            assert(r@.balances =~= Map::total(|p: (Address, U256)| 0nat));
            assert(r@.log =~= Seq::empty());
        }
        r
    }

    /// Hands the logged records to the host and empties the log.
    pub fn take_events(&mut self) -> (r: Vec<ERC1155Event>)
        requires
            old(self).wf(),
        ensures
            final(self).wf(),
            r@.map_values(|e: ERC1155Event| e@) == old(self)@.log,
            final(self)@ == (ERC1155State { log: Seq::empty(), ..old(self)@ }),
            final(self).params() == old(self).params(),
    {
        let mut out: Vec<ERC1155Event> = Vec::new();
        std::mem::swap(&mut self.events, &mut out);
        assert(self@.log =~= Seq::empty());
        out
    }

    pub fn balance_of(&self, owner: Address, id: U256) -> (r: Result<U256, ERC1155Error>)
        requires
            self.wf(),
        ensures
            r.is_ok(),
            r.unwrap()@ == self@.balances[(owner, id)],
    {
        Ok(self.balance_of.get(&(owner, id)))
    }

    pub fn is_approved_for_all(&self, owner: Address, operator: Address) -> (r: Result<
        bool,
        ERC1155Error,
    >)
        requires
            self.wf(),
        ensures
            r == Ok::<bool, ERC1155Error>(self@.operators[(owner, operator)]),
    {
        Ok(self.is_approved_for_all.get(&(owner, operator)))
    }

    /// Where the description of `id` is found.
    pub fn uri(&self, id: U256) -> (r: Result<String, ERC1155Error>)
        ensures
            r.is_ok(),
            r.unwrap()@ == self.params().uri_text(id),
    {
        Ok(self.params.uri(id))
    }

    /// Lets `operator` move everything `caller` holds, or ends that.
    pub fn set_approval_for_all(&mut self, caller: Address, operator: Address, approved: bool) -> (r:
        Result<(), ERC1155Error>)
        requires
            old(self).wf(),
        ensures
            final(self).wf(),
            final(self).params() == old(self).params(),
            r == Ok::<(), ERC1155Error>(()),
            final(self)@ == old(self)@.operator_set(caller, operator, approved),
    {
        self.is_approved_for_all.set((caller, operator), approved);
        let event = ERC1155Event::ApprovalForAll { owner: caller, operator, approved };
        self.events.push(event);
        proof {
            self.lemma_logged(old(self).events@, event);
        }
        Ok(())
    }

    /// Creates `amount` of `id` for `to`. Fails with `Overflow`, and
    /// changes nothing, where the balance would no longer fit in 256 bits.
    pub fn mint(&mut self, caller: Address, to: Address, id: U256, amount: U256) -> (r: Result<
        (),
        ERC1155Error,
    >)
        requires
            old(self).wf(),
        ensures
            final(self).wf(),
            final(self).params() == old(self).params(),
            match old(self)@.mint_result(caller, to, id, amount) {
                Ok(state) => r == Ok::<(), ERC1155Error>(()) && final(self)@ == state,
                Err(e) => r == Err::<(), ERC1155Error>(e) && *final(self) == *old(self),
            },
    {
        let held = self.balance_of.get(&(to, id));
        let raised = match held.checked_add(&amount) {
            Some(b) => b,
            None => {
                return Err(ERC1155Error::Overflow);
            },
        };
        self.balance_of.set((to, id), raised);
        let event = ERC1155Event::TransferSingle {
            operator: caller,
            from: Address::zero(),
            to,
            id,
            amount,
        };
        self.events.push(event);
        proof {
            self.lemma_logged(old(self).events@, event);
            let expected = old(self)@.mint_result(caller, to, id, amount).unwrap();
            assert(self@.balances =~= expected.balances);
        }
        Ok(())
    }

    /// Destroys `amount` of `id` held by `from`. Fails with
    /// `InsufficientBalance`, and changes nothing, where `from` holds less.
    pub fn burn(&mut self, caller: Address, from: Address, id: U256, amount: U256) -> (r: Result<
        (),
        ERC1155Error,
    >)
        requires
            old(self).wf(),
        ensures
            final(self).wf(),
            final(self).params() == old(self).params(),
            match old(self)@.burn_result(caller, from, id, amount) {
                Ok(state) => r == Ok::<(), ERC1155Error>(()) && final(self)@ == state,
                Err(e) => r == Err::<(), ERC1155Error>(e) && *final(self) == *old(self),
            },
    {
        let held = self.balance_of.get(&(from, id));
        let lowered = match held.checked_sub(&amount) {
            Some(b) => b,
            None => {
                return Err(ERC1155Error::InsufficientBalance);
            },
        };
        self.balance_of.set((from, id), lowered);
        let event = ERC1155Event::TransferSingle {
            operator: caller,
            from,
            to: Address::zero(),
            id,
            amount,
        };
        self.events.push(event);
        proof {
            self.lemma_logged(old(self).events@, event);
            let expected = old(self)@.burn_result(caller, from, id, amount).unwrap();
            assert(self@.balances =~= expected.balances);
        }
        Ok(())
    }

    /// Whether `pending` is what a safe transfer hands out after `amount`
    /// of `id` arrived at `to`, the ledger having been `before`: where `to`
    /// hosts code, a question with exactly these fields together with what
    /// restores `before`; and nothing where it hosts none.
    pub open spec fn is_pending_for(
        pending: Option<PendingSingle>,
        before: ERC1155State,
        to_has_code: bool,
        operator: Address,
        from: Address,
        to: Address,
        id: U256,
        amount: U256,
        data: Seq<u8>,
    ) -> bool {
        match pending {
            Some(p) => {
                &&& to_has_code
                &&& p.request.to == to
                &&& p.request.operator == operator
                &&& p.request.from == from
                &&& p.request.id == id
                &&& p.request.value == amount
                &&& p.request.data@ == data
                &&& p.undo.wf()
                &&& p.undo.shape() == Shape::Single
                &&& p.undo.before() == before
            },
            None => !to_has_code,
        }
    }

    /// Whether `pending` is what a safe transfer hands out after a batch
    /// arrived at `to`, the ledger having been `before`.
    pub open spec fn is_batch_pending_for(
        pending: Option<PendingBatch>,
        before: ERC1155State,
        to_has_code: bool,
        operator: Address,
        from: Address,
        to: Address,
        ids: Seq<U256>,
        amounts: Seq<U256>,
        data: Seq<u8>,
    ) -> bool {
        match pending {
            Some(p) => {
                &&& to_has_code
                &&& p.request.to == to
                &&& p.request.operator == operator
                &&& p.request.from == from
                &&& p.request.ids@ == ids
                &&& p.request.values@ == amounts
                &&& p.request.data@ == data
                &&& p.undo.wf()
                &&& p.undo.shape() == Shape::Batch
                &&& p.undo.before() == before
            },
            None => !to_has_code,
        }
    }

    /// Keeps the ledger as it is now, for a question of the given kind.
    fn snapshot(&self, shape: Shape) -> (undo: Undo)
        requires
            self.wf(),
        ensures
            undo.wf(),
            undo.shape() == shape,
            undo.before() == self@,
    {
        Undo {
            shape,
            balance_of: self.balance_of.duplicate(),
            is_approved_for_all: self.is_approved_for_all.duplicate(),
            events: copy_events(&self.events),
        }
    }

    /// Moves `amount` of `id` from `from` to `to` on behalf of `caller`,
    /// then says what the host has to ask of the recipient. Fails, and
    /// changes nothing: with `NotAuthorized` unless `caller` is `from` or an
    /// operator of `from`; with `InsufficientBalance` where `from` holds
    /// less than `amount`; with `Overflow` where the balance of `to` would
    /// not fit; with `UnsafeRecipient` where `to` hosts no code and is the
    /// zero address. The question is put only after the ledger has changed.
    /// Where something is handed out, the transfer stands only once
    /// `check_acknowledgment` has accepted the reply of the recipient; where
    /// the reply is refused, that function puts the ledger back as it was
    /// before the transfer.
    pub fn safe_transfer_from(
        &mut self,
        caller: Address,
        from: Address,
        to: Address,
        id: U256,
        amount: U256,
        data: Vec<u8>,
        to_has_code: bool,
    ) -> (r: Result<Option<PendingSingle>, ERC1155Error>)
        requires
            old(self).wf(),
        ensures
            final(self).wf(),
            final(self).params() == old(self).params(),
            match old(self)@.transfer_result(caller, from, to, id, amount, to_has_code) {
                Ok(state) => r.is_ok() && final(self)@ == state && Self::is_pending_for(
                    r.unwrap(),
                    old(self)@,
                    to_has_code,
                    caller,
                    from,
                    to,
                    id,
                    amount,
                    data@,
                ),
                Err(e) => r == Err::<Option<PendingSingle>, ERC1155Error>(e) && *final(self)
                    == *old(self),
            },
    {
        if caller != from && !self.is_approved_for_all.get(&(from, caller)) {
            return Err(ERC1155Error::NotAuthorized);
        }
        let mut work = self.balance_of.duplicate();
        match move_in_table(&mut work, from, to, id, amount) {
            Ok(()) => {},
            Err(e) => {
                return Err(e);
            },
        }
        let decision = guard(&to, to_has_code);
        if decision == Guard::Refuse {
            return Err(ERC1155Error::UnsafeRecipient);
        }
        let undo = if decision == Guard::Ask {
            Some(self.snapshot(Shape::Single))
        } else {
            None
        };
        self.balance_of = work;
        let event = ERC1155Event::TransferSingle { operator: caller, from, to, id, amount };
        self.events.push(event);
        proof {
            self.lemma_logged(old(self).events@, event);
        }
        match undo {
            Some(u) => Ok(
                Some(
                    PendingSingle {
                        request: SingleRequest { to, operator: caller, from, id, value: amount, data },
                        undo: u,
                    },
                ),
            ),
            None => Ok(None),
        }
    }

    /// Moves `amounts[i]` of `ids[i]`, for every `i` in turn, from `from` to
    /// `to` on behalf of `caller`, then says what the host has to ask of the
    /// recipient. Either every move is made or none: the call fails, and
    /// changes nothing, with `LengthMismatch` where the two lists differ in
    /// length, with `NotAuthorized` unless `caller` is `from` or an operator
    /// of `from`, with the failure of the first move that cannot be made,
    /// and with `UnsafeRecipient` where `to` hosts no code and is the zero
    /// address. Where something is handed out, the transfer stands only once
    /// `check_acknowledgment` has accepted the reply of the recipient.
    pub fn safe_batch_transfer_from(
        &mut self,
        caller: Address,
        from: Address,
        to: Address,
        ids: Vec<U256>,
        amounts: Vec<U256>,
        data: Vec<u8>,
        to_has_code: bool,
    ) -> (r: Result<Option<PendingBatch>, ERC1155Error>)
        requires
            old(self).wf(),
        ensures
            final(self).wf(),
            final(self).params() == old(self).params(),
            match old(self)@.batch_transfer_result(caller, from, to, ids@, amounts@, to_has_code) {
                Ok(state) => r.is_ok() && final(self)@ == state && Self::is_batch_pending_for(
                    r.unwrap(),
                    old(self)@,
                    to_has_code,
                    caller,
                    from,
                    to,
                    ids@,
                    amounts@,
                    data@,
                ),
                Err(e) => r == Err::<Option<PendingBatch>, ERC1155Error>(e) && *final(self)
                    == *old(self),
            },
            ids@.len() != amounts@.len() ==> r == Err::<Option<PendingBatch>, ERC1155Error>(
                ERC1155Error::LengthMismatch,
            ),
    {
        if ids.len() != amounts.len() {
            return Err(ERC1155Error::LengthMismatch);
        }
        if caller != from && !self.is_approved_for_all.get(&(from, caller)) {
            return Err(ERC1155Error::NotAuthorized);
        }
        let mut work = self.balance_of.duplicate();
        let mut i: usize = 0;
        proof {
            assert(ids@.subrange(0, ids@.len() as int) =~= ids@);
            assert(amounts@.subrange(0, amounts@.len() as int) =~= amounts@);
        }
        while i < ids.len()
            invariant
                i <= ids@.len(),
                ids@.len() == amounts@.len(),
                *self == *old(self),
                self.wf(),
                self@.may_move(caller, from),
                work.wf(),
                work.blank() == self.balance_of.blank(),
                move_all(self@.balances, from, to, ids@, amounts@) == move_all(
                    holdings_of(work@),
                    from,
                    to,
                    ids@.subrange(i as int, ids@.len() as int),
                    amounts@.subrange(i as int, amounts@.len() as int),
                ),
            decreases ids@.len() - i,
        {
            let ghost rest_ids = ids@.subrange(i as int, ids@.len() as int);
            let ghost rest_amounts = amounts@.subrange(i as int, amounts@.len() as int);
            proof {
                assert(rest_ids.drop_first() =~= ids@.subrange(i + 1, ids@.len() as int));
                assert(rest_amounts.drop_first() =~= amounts@.subrange(
                    i + 1,
                    amounts@.len() as int,
                ));
            }
            match move_in_table(&mut work, from, to, ids[i], amounts[i]) {
                Ok(()) => {},
                Err(e) => {
                    return Err(e);
                },
            }
            i = i + 1;
        }
        let decision = guard(&to, to_has_code);
        if decision == Guard::Refuse {
            return Err(ERC1155Error::UnsafeRecipient);
        }
        let undo = if decision == Guard::Ask {
            Some(self.snapshot(Shape::Batch))
        } else {
            None
        };
        self.balance_of = work;
        let event = ERC1155Event::TransferBatch {
            operator: caller,
            from,
            to,
            ids: copy_words(&ids),
            amounts: copy_words(&amounts),
        };
        proof {
            assert(event@ == (ERC1155Record::TransferBatch {
                operator: caller,
                from,
                to,
                ids: ids@,
                amounts: amounts@,
            }));
        }
        let ghost before = self.events@;
        self.events.push(event);
        proof {
            assert(self.events@.map_values(|e: ERC1155Event| e@) =~= before.map_values(
                |e: ERC1155Event| e@,
            ).push(
                ERC1155Record::TransferBatch { operator: caller, from, to, ids: ids@, amounts: amounts@ },
            ));
        }
        match undo {
            Some(u) => Ok(
                Some(
                    PendingBatch {
                        request: BatchRequest { to, operator: caller, from, ids, values: amounts, data },
                        undo: u,
                    },
                ),
            ),
            None => Ok(None),
        }
    }

    /// The balances of `owners[i]` in `ids[i]`, for every `i`; or
    /// `LengthMismatch` where the two lists differ in length.
    pub fn balance_of_batch(&self, owners: Vec<Address>, ids: Vec<U256>) -> (r: Result<
        Vec<U256>,
        ERC1155Error,
    >)
        requires
            self.wf(),
        ensures
            owners@.len() != ids@.len() ==> r == Err::<Vec<U256>, ERC1155Error>(
                ERC1155Error::LengthMismatch,
            ),
            owners@.len() == ids@.len() ==> r.is_ok() && r.unwrap()@.len() == owners@.len()
                && forall|i: int|
                0 <= i < owners@.len() ==> (#[trigger] r.unwrap()@[i])@ == self@.balances[(
                    owners@[i],
                    ids@[i],
                )],
    {
        if owners.len() != ids.len() {
            return Err(ERC1155Error::LengthMismatch);
        }
        let mut balances: Vec<U256> = Vec::new();
        let mut i: usize = 0;
        while i < owners.len()
            invariant
                i <= owners@.len(),
                owners@.len() == ids@.len(),
                self.wf(),
                balances@.len() == i,
                forall|j: int|
                    0 <= j < i ==> (#[trigger] balances@[j])@ == self@.balances[(
                        owners@[j],
                        ids@[j],
                    )],
            decreases owners@.len() - i,
        {
            balances.push(self.balance_of.get(&(owners[i], ids[i])));
            i = i + 1;
        }
        Ok(balances)
    }

    /// Ends a safe transfer with the reply of the recipient that was asked;
    /// `None` stands for a call that failed. Where the reply is the
    /// acknowledgment of the kind of question that was asked, the transfer
    /// stands and the ledger stays as it is. Any other reply is
    /// `UnsafeRecipient`, and the ledger is put back as it was before the
    /// transfer: balances, operators and log, whatever was done to the
    /// ledger in between.
    pub fn check_acknowledgment(&mut self, undo: Undo, reply: Option<[u8; 4]>) -> (r: Result<
        (),
        ERC1155Error,
    >)
        requires
            old(self).wf(),
            undo.wf(),
        ensures
            final(self).wf(),
            final(self).params() == old(self).params(),
            acknowledges(undo.shape(), reply) ==> r == Ok::<(), ERC1155Error>(()) && *final(self)
                == *old(self),
            !acknowledges(undo.shape(), reply) ==> r == Err::<(), ERC1155Error>(
                ERC1155Error::UnsafeRecipient,
            ) && final(self)@ == undo.before(),
    {
        if acknowledged(undo.shape, reply) {
            Ok(())
        } else {
            self.balance_of = undo.balance_of;
            self.is_approved_for_all = undo.is_approved_for_all;
            self.events = undo.events;
            Err(ERC1155Error::UnsafeRecipient)
        }
    }

    /// The interfaces that the ledger answers for.
    pub open spec fn supported(interface: Seq<u8>) -> bool {
        ||| interface == seq![0x01u8, 0xffu8, 0xc9u8, 0xa7u8]
        ||| interface == seq![0xd9u8, 0xb6u8, 0x7au8, 0x26u8]
        ||| interface == seq![0x0eu8, 0x89u8, 0x34u8, 0x1cu8]
    }

    pub fn supports_interface(interface: [u8; 4]) -> (r: Result<bool, ERC1155Error>)
        ensures
            r == Ok::<bool, ERC1155Error>(Self::supported(interface@)),
    {
        let a = interface[0] == 0x01 && interface[1] == 0xff && interface[2] == 0xc9 && interface[3]
            == 0xa7;
        let b = interface[0] == 0xd9 && interface[1] == 0xb6 && interface[2] == 0x7a && interface[3]
            == 0x26;
        let c = interface[0] == 0x0e && interface[1] == 0x89 && interface[2] == 0x34 && interface[3]
            == 0x1c;
        proof {
            assert(a == (interface@ =~= seq![0x01u8, 0xffu8, 0xc9u8, 0xa7u8]));
            assert(b == (interface@ =~= seq![0xd9u8, 0xb6u8, 0x7au8, 0x26u8]));
            assert(c == (interface@ =~= seq![0x0eu8, 0x89u8, 0x34u8, 0x1cu8]));
        }
        Ok(a || b || c)
    }
}

} // verus!
