use vstd::prelude::*;
use crate::address::{
    get_greeting_public_key, get_greeting_seed, greeting_seed, has_pda_marker, seed_address_of,
    PublicAddress,
};
use crate::error::Error;
use crate::state::{decoded_counter, le_u32, GreetingAccount, GREETING_DATA_SIZE};

verus! {

/// How many signatures' worth of fees the payer keeps at hand.
pub const FEE_SIGNATURE_MULTIPLIER: u64 = 100;

/// The lamports a payer needs: the rent-exempt balance plus the fees of
/// `FEE_SIGNATURE_MULTIPLIER` signatures.
pub open spec fn balance_requirement(rent_exempt_balance: int, lamports_per_signature: int) -> int {
    rent_exempt_balance + lamports_per_signature * FEE_SIGNATURE_MULTIPLIER
}

/// Calculates execution fee plus balance for rent-free.
pub fn get_balance_requirement(rent_exempt_balance: u64, lamports_per_signature: u64) -> (r: Result<
    u64,
    Error,
>)
    ensures
        r is Ok <==> balance_requirement(rent_exempt_balance as int, lamports_per_signature as int)
            <= u64::MAX,
        r matches Ok(v) ==> v as int == balance_requirement(
            rent_exempt_balance as int,
            lamports_per_signature as int,
        ),
        r matches Err(e) ==> e is BalanceOverflow,
{
    match lamports_per_signature.checked_mul(FEE_SIGNATURE_MULTIPLIER) {
        Some(fee) => match fee.checked_add(rent_exempt_balance) {
            Some(v) => Ok(v),
            None => Err(Error::BalanceOverflow),
        },
        None => Err(Error::BalanceOverflow),
    }
}

/// The lamports to request for a payer that holds `balance` and needs
/// `requirement`: the shortfall, or nothing when the balance suffices.
pub open spec fn funding_spec(balance: u64, requirement: u64) -> Option<u64> {
    if balance < requirement {
        Some((requirement - balance) as u64)
    } else {
        None
    }
}

/// Decides whether the payer needs an airdrop, and of how many lamports.
pub fn airdrop_request_amount(balance: u64, requirement: u64) -> (r: Option<u64>)
    ensures
        r == funding_spec(balance, requirement),
        r is Some <==> balance < requirement,
        r matches Some(v) ==> v + balance == requirement,
{
    if balance < requirement {
        Some(requirement - balance)
    } else {
        None
    }
}

/// What to do after one check of a funding transaction's confirmation.
#[derive(Debug, Clone, Copy, PartialEq, Eq, Structural)]
pub enum PollAction {
    /// The transaction is confirmed: go on.
    Done,
    /// Not confirmed yet: check again.
    PollAgain,
    /// Not confirmed and no attempt is left.
    GiveUp,
}

/// How often the confirmation of a funding transaction is checked: without
/// limit, or at most `max_attempts` times.
#[derive(Debug, Clone, Copy, PartialEq, Eq)]
pub struct ConfirmationPolicy {
    pub max_attempts: Option<u64>,
}

/// The action after `attempts` checks, the last of which reported `confirmed`.
pub open spec fn poll_spec(policy: ConfirmationPolicy, attempts: u64, confirmed: bool) -> PollAction {
    if confirmed {
        PollAction::Done
    } else if policy.max_attempts matches Some(m) && attempts >= m {
        PollAction::GiveUp
    } else {
        PollAction::PollAgain
    }
}

/// Decides the next step of the confirmation loop of an airdrop request.
pub fn airdrop_poll_step(policy: &ConfirmationPolicy, attempts: u64, confirmed: bool) -> (r:
    PollAction)
    ensures
        r == poll_spec(*policy, attempts, confirmed),
{
    if confirmed {
        PollAction::Done
    } else {
        match policy.max_attempts {
            Some(m) => if attempts >= m {
                PollAction::GiveUp
            } else {
                PollAction::PollAgain
            },
            None => PollAction::PollAgain,
        }
    }
}

/// Checks that the program's account is executable.
pub fn check_program(executable: bool) -> (r: Result<(), Error>)
    ensures
        r is Ok <==> executable,
        r matches Err(e) ==> e is ProgramNotExecutable,
{
    if executable {
        Ok(())
    } else {
        Err(Error::ProgramNotExecutable)
    }
}

/// A request to the system program that creates an account at an address derived
/// from `base` and `seed`, funded by `from` and owned by `owner`.
pub struct CreateAccountWithSeed {
    pub from: PublicAddress,
    pub to: PublicAddress,
    pub base: PublicAddress,
    pub seed: String,
    pub lamports: u64,
    pub space: u64,
    pub owner: PublicAddress,
}

/// The creation request, with addresses as bytes and the seed as characters.
pub struct CreateAccountView {
    pub from: Seq<u8>,
    pub to: Seq<u8>,
    pub base: Seq<u8>,
    pub seed: Seq<char>,
    pub lamports: u64,
    pub space: u64,
    pub owner: Seq<u8>,
}

impl View for CreateAccountWithSeed {
    type V = CreateAccountView;

    open spec fn view(&self) -> CreateAccountView {
        CreateAccountView {
            from: self.from@,
            to: self.to@,
            base: self.base@,
            seed: self.seed@,
            lamports: self.lamports,
            space: self.space,
            owner: self.owner@,
        }
    }
}

/// The greeting account's address for a payer and a program.
pub open spec fn greeting_address(payer: Seq<u8>, program: Seq<u8>) -> Seq<u8> {
    seed_address_of(payer, greeting_seed(), program)
}

/// What provisioning the greeting account submits: nothing when it exists, else
/// its creation, funded with the rent-exempt balance, sized to the state and
/// owned by the program.
pub open spec fn provision_spec(
    payer: Seq<u8>,
    program: Seq<u8>,
    account_exists: bool,
    rent_exempt_balance: u64,
) -> Option<CreateAccountView> {
    if account_exists {
        None
    } else {
        Some(
            CreateAccountView {
                from: payer,
                to: greeting_address(payer, program),
                base: payer,
                seed: greeting_seed(),
                lamports: rent_exempt_balance,
                space: GREETING_DATA_SIZE as u64,
                owner: program,
            },
        )
    }
}

/// The view of a provisioning plan.
pub open spec fn plan_view(p: Option<CreateAccountWithSeed>) -> Option<CreateAccountView> {
    match p {
        Some(c) => Some(c@),
        None => None,
    }
}

/// Decides how the greeting account is provisioned: when the ledger already holds
/// it nothing is submitted, otherwise the returned creation request is.
pub fn create_greeting_account(
    payer: &PublicAddress,
    program: &PublicAddress,
    account_exists: bool,
    rent_exempt_balance: u64,
) -> (r: Result<Option<CreateAccountWithSeed>, Error>)
    ensures
        r is Ok <==> !has_pda_marker(program@),
        r matches Ok(p) ==> plan_view(p) == provision_spec(
            payer@,
            program@,
            account_exists,
            rent_exempt_balance,
        ),
        r matches Err(e) ==> e is Address,
{
    let to = match get_greeting_public_key(payer, program) {
        Ok(a) => a,
        Err(e) => return Err(Error::Address(e)),
    };
    if account_exists {
        return Ok(None);
    }
    let seed = get_greeting_seed().to_owned();
    let c = CreateAccountWithSeed {
        from: *payer,
        to,
        base: *payer,
        seed,
        lamports: rent_exempt_balance,
        space: GREETING_DATA_SIZE as u64,
        owner: *program,
    };
    Ok(Some(c))
}

/// The addresses on the ledger after a provisioning plan was carried out.
pub open spec fn ledger_after(ledger: Set<Seq<u8>>, plan: Option<CreateAccountView>) -> Set<
    Seq<u8>,
> {
    match plan {
        Some(c) => ledger.insert(c.to),
        None => ledger,
    }
}

/// Provisioning twice in a row submits one creation at most: the first call creates
/// the account exactly when the ledger lacks it, and the second does nothing.
pub proof fn lemma_provision_idempotent(
    ledger: Set<Seq<u8>>,
    payer: Seq<u8>,
    program: Seq<u8>,
    rent_exempt_balance: u64,
)
    ensures
        ({
            let addr = greeting_address(payer, program);
            let first = provision_spec(payer, program, ledger.contains(addr), rent_exempt_balance);
            let after = ledger_after(ledger, first);
            let second = provision_spec(payer, program, after.contains(addr), rent_exempt_balance);
            &&& (first is Some <==> !ledger.contains(addr))
            &&& second is None
            &&& after.contains(addr)
        }),
{
}

/// A reference to an account in an instruction.
#[derive(Debug, Clone, Copy, PartialEq, Eq)]
pub struct AccountMeta {
    pub pubkey: PublicAddress,
    pub is_signer: bool,
    pub is_writable: bool,
}

/// A call of a program, with the accounts it reads or writes and its payload.
pub struct Instruction {
    pub program_id: PublicAddress,
    pub accounts: Vec<AccountMeta>,
    pub data: Vec<u8>,
}

/// Builds the instruction that has the program greet once: an empty payload and
/// the greeting account, writable and not a signer, as its one account.
pub fn hello_instruction(payer: &PublicAddress, program: &PublicAddress) -> (r: Result<
    Instruction,
    Error,
>)
    ensures
        r is Ok <==> !has_pda_marker(program@),
        r matches Ok(i) ==> {
            &&& i.program_id == *program
            &&& i.data@.len() == 0
            &&& i.accounts@.len() == 1
            &&& i.accounts@[0].pubkey@ == greeting_address(payer@, program@)
            &&& i.accounts@[0].is_writable
            &&& !i.accounts@[0].is_signer
        },
        r matches Err(e) ==> e is Address,
{
    let greeting = match get_greeting_public_key(payer, program) {
        Ok(a) => a,
        Err(e) => return Err(Error::Address(e)),
    };
    let meta = AccountMeta { pubkey: greeting, is_signer: false, is_writable: true };
    Ok(Instruction { program_id: *program, accounts: vec![meta], data: Vec::new() })
}

/// Reads the number of greetings from the greeting account's data.
pub fn count_greetings(data: &[u8]) -> (r: Result<u32, Error>)
    ensures
        r is Ok <==> data@.len() == GREETING_DATA_SIZE,
        r matches Ok(v) ==> decoded_counter(data@) == Some(v) && v as int == le_u32(data@),
        r matches Err(e) ==> e == Error::InvalidAccountData(data@.len() as usize),
{
    match GreetingAccount::decode(data) {
        Some(g) => Ok(g.counter),
        None => Err(Error::InvalidAccountData(data.len())),
    }
}

} // verus!
