//! The operation as a sequence of decisions. The ledger and the engine are
//! asked by whoever drives the operation: a step says what to ask next, and
//! the answer is handed to the state that waits for it.

use crate::decimal::ui_amount_to_amount;
use crate::error::{CommandError, Error};
use crate::instruction::{build, mint_instruction, Instruction, InstructionView};
use crate::keys::{Pubkey, Signature};
use crate::mint::{get_decimals, mint_decimals, AccountResponse};
use crate::request::{Input, Output};
use vstd::prelude::*;

verus! {

/// How settled the ledger's state must be for a query to read it.
#[derive(Clone, Copy, Debug, PartialEq, Eq)]
pub enum Commitment {
    /// The newest state, which may still be dropped.
    Processed,
    /// State that most of the network has voted for.
    Confirmed,
    /// State that can no longer be undone.
    Finalized,
}

/// A query for one account.
#[derive(Clone, Copy, Debug, PartialEq, Eq)]
pub struct AccountQuery {
    pub address: Pubkey,
    pub commitment: Commitment,
}

/// What is handed to the engine: who pays, who signs, and what to execute.
#[derive(Debug, PartialEq, Eq)]
pub struct Instructions {
    pub fee_payer: Pubkey,
    pub signers: Vec<Pubkey>,
    pub instructions: Vec<Instruction>,
}

/// `Instructions` as a mathematical value.
pub struct InstructionsView {
    pub fee_payer: Pubkey,
    pub signers: Seq<Pubkey>,
    pub instructions: Seq<InstructionView>,
}

impl View for Instructions {
    type V = InstructionsView;

    open spec fn view(&self) -> InstructionsView {
        InstructionsView {
            fee_payer: self.fee_payer,
            signers: self.signers@,
            instructions: self.instructions@.map_values(|ix: Instruction| ix@),
        }
    }
}

/// The query that resolves a request's precision: its mint account, read at
/// the confirmed level.
pub open spec fn account_query(input: Input) -> AccountQuery {
    AccountQuery { address: input.mint_account, commitment: Commitment::Confirmed }
}

/// What the engine gets for a request that mints `amount` base units at
/// precision `decimals`: the fee payer, the two signers, and the one mint
/// instruction.
pub open spec fn submission(input: Input, amount: u64, decimals: u8) -> InstructionsView {
    InstructionsView {
        fee_payer: input.fee_payer,
        signers: seq![input.fee_payer, input.mint_authority],
        instructions: seq![mint_instruction(input, amount, decimals)],
    }
}

/// A request whose precision is being looked up on the ledger.
pub struct AwaitingAccount {
    input: Input,
}

/// A request whose instruction is with the engine.
pub struct AwaitingExecution {
    instructions: Instructions,
}

/// What the driver of the operation has to do next.
pub enum Step<E> {
    /// Put the query to the ledger and resume with its answer.
    Query(AwaitingAccount),
    /// Hand the instructions to the engine and finish with its answer.
    Submit(AwaitingExecution),
    /// Nothing: the operation is over, with this result.
    Done(Result<Output, CommandError<E>>),
}

/// `step` is what follows once the precision of `input`'s mint is known to
/// be `decimals`: a conversion failure; without `submit`, the end with no
/// signature; with it, the hand-over of the mint instruction.
pub open spec fn prepared<E>(input: Input, decimals: u8, step: Step<E>) -> bool {
    match input.amount.base_units(decimals) {
        None => step == Step::<E>::Done(Err(CommandError::Command(Error::Conversion))),
        Some(amount) => if input.submit {
            step matches Step::Submit(pending) && pending.instructions()@ == submission(
                input,
                amount,
                decimals,
            )
        } else {
            step == Step::<E>::Done(Ok(Output { signature: None }))
        },
    }
}

/// `step` is the first step of `input`: with an explicit precision, what
/// follows from it; without one, the query for the mint account.
pub open spec fn started<E>(input: Input, step: Step<E>) -> bool {
    match input.decimals {
        Some(decimals) => prepared(input, decimals, step),
        None => step matches Step::Query(pending) && pending.input() == input,
    }
}

/// `step` is what follows for `input` once the ledger has answered the
/// query for its mint account with `response`.
pub open spec fn resumed<E>(input: Input, response: AccountResponse, step: Step<E>) -> bool {
    match response {
        AccountResponse::Found(data) => match mint_decimals(data@) {
            Some(decimals) => prepared(input, decimals, step),
            None => step matches Step::Done(Err(CommandError::Command(Error::Decode(_)))),
        },
        _ => step == Step::<E>::Done(
            Err(CommandError::Command(Error::AccountNotFound(input.mint_account))),
        ),
    }
}

/// The result of a request whose instruction the engine has answered with
/// `result`: its signature, or its failure unchanged.
pub open spec fn finished<E>(result: Result<Option<Signature>, E>) -> Result<
    Output,
    CommandError<E>,
> {
    match result {
        Ok(signature) => Ok(Output { signature }),
        Err(e) => Err(CommandError::Execution(e)),
    }
}

/// Converts the amount, builds the instruction and decides on submission,
/// for a mint whose precision is `decimals`.
fn prepare<E>(input: Input, decimals: u8) -> (step: Step<E>)
    ensures
        prepared(input, decimals, step),
{
    let amount = match ui_amount_to_amount(input.amount, decimals) {
        Ok(amount) => amount,
        Err(e) => {
            return Step::Done(Err(CommandError::Command(e)));
        },
    };
    let ix = match build(&input, amount, decimals) {
        Ok(ix) => ix,
        Err(e) => {
            return Step::Done(Err(CommandError::Command(e)));
        },
    };
    if input.submit {
        let mut signers: Vec<Pubkey> = Vec::new();
        signers.push(input.fee_payer);
        signers.push(input.mint_authority);
        let mut instructions: Vec<Instruction> = Vec::new();
        instructions.push(ix);
        let instructions = Instructions { fee_payer: input.fee_payer, signers, instructions };
        assert(instructions@.signers =~= submission(input, amount, decimals).signers);
        assert(instructions@.instructions =~= submission(input, amount, decimals).instructions);
        Step::Submit(AwaitingExecution { instructions })
    } else {
        Step::Done(Ok(Output { signature: None }))
    }
}

/// Begins the operation that `input` asks for.
pub fn start<E>(input: Input) -> (step: Step<E>)
    ensures
        started(input, step),
{
    match input.decimals {
        Some(decimals) => prepare(input, decimals),
        None => Step::Query(AwaitingAccount { input }),
    }
}

impl AwaitingAccount {
    /// The request that waits.
    pub closed spec fn input(self) -> Input {
        self.input
    }

    /// The query whose answer is awaited.
    pub fn query(&self) -> (query: AccountQuery)
        ensures
            query == account_query(self.input()),
    {
        AccountQuery { address: self.input.mint_account, commitment: Commitment::Confirmed }
    }

    /// Goes on with the ledger's answer: reads the precision from the mint
    /// account and prepares the instruction. No second query is made.
    pub fn resume<E>(self, response: AccountResponse) -> (step: Step<E>)
        ensures
            resumed(self.input(), response, step),
    {
        match get_decimals(self.input.mint_account, response) {
            Ok(decimals) => prepare(self.input, decimals),
            Err(e) => Step::Done(Err(CommandError::Command(e))),
        }
    }
}

impl AwaitingExecution {
    /// What was handed to the engine.
    pub closed spec fn instructions(self) -> Instructions {
        self.instructions
    }

    /// What the engine is to execute.
    pub fn to_submit(&self) -> (instructions: &Instructions)
        ensures
            *instructions == self.instructions(),
    {
        &self.instructions
    }

    /// Ends the operation with the engine's answer.
    pub fn finish<E>(self, result: Result<Option<Signature>, E>) -> (res: Result<
        Output,
        CommandError<E>,
    >)
        ensures
            res == finished(result),
    {
        match result {
            Ok(signature) => Ok(Output { signature }),
            Err(e) => Err(CommandError::Execution(e)),
        }
    }
}

/// A request that does not ask for submission is never handed to the
/// engine, and where it succeeds its output carries no signature: this
/// holds of its first step and of the step after any answer of the ledger.
pub proof fn lemma_no_signature_without_submit<E>(
    input: Input,
    response: AccountResponse,
    step: Step<E>,
)
    requires
        !input.submit,
        started(input, step) || resumed(input, response, step),
    ensures
        !(step is Submit),
        step matches Step::Done(Ok(output)) ==> output.signature is None,
{
}

/// A request with an explicit precision puts no query to the ledger: its
/// first step is what follows from that precision.
pub proof fn lemma_explicit_decimals_ask_nothing<E>(input: Input, step: Step<E>)
    requires
        input.decimals is Some,
        started(input, step),
    ensures
        !(step is Query),
        prepared(input, input.decimals->0, step),
{
}

/// A request without a precision puts exactly one query to the ledger: its
/// first step is the query for its mint account at the confirmed level,
/// and the step after the answer, whatever the answer, is no query. Where
/// the ledger holds no such account, or could not be asked, the operation
/// ends there with `AccountNotFound`.
pub proof fn lemma_one_query_without_decimals<E>(
    input: Input,
    first: Step<E>,
    response: AccountResponse,
    second: Step<E>,
)
    requires
        input.decimals is None,
        started(input, first),
        first matches Step::Query(pending) ==> resumed(pending.input(), response, second),
    ensures
        first matches Step::Query(pending) && account_query(pending.input()) == (AccountQuery {
            address: input.mint_account,
            commitment: Commitment::Confirmed,
        }),
        !(second is Query),
        !(response is Found) ==> second == Step::<E>::Done(
            Err(CommandError::Command(Error::AccountNotFound(input.mint_account))),
        ),
{
}

} // verus!
