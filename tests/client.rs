use std::collections::HashMap;

use greeting_client::address::{
    derive_address, get_greeting_public_key, get_greeting_seed, AddressError, PublicAddress,
    MAX_SEED_LEN,
};
use greeting_client::client::{
    airdrop_poll_step, airdrop_request_amount, check_program, count_greetings,
    create_greeting_account, get_balance_requirement, hello_instruction, ConfirmationPolicy,
    CreateAccountWithSeed, PollAction, FEE_SIGNATURE_MULTIPLIER,
};
use greeting_client::config::{get_config, get_keypair_path, get_rpc_url};
use greeting_client::error::Error;
use greeting_client::flow::{next_stage, FlowStage};
use greeting_client::state::{GreetingAccount, GREETING_DATA_SIZE};
use solana_sdk::pubkey::Pubkey;

fn addr(b: u8) -> PublicAddress {
    [b; 32]
}

/// A ledger holding account data by address, and a program stub that
/// increments the counter of the account it is handed.
struct Ledger {
    accounts: HashMap<PublicAddress, (Vec<u8>, u64, PublicAddress)>,
    balances: HashMap<PublicAddress, u64>,
    creations: usize,
}

impl Ledger {
    fn new() -> Ledger {
        Ledger { accounts: HashMap::new(), balances: HashMap::new(), creations: 0 }
    }

    fn create(&mut self, c: &CreateAccountWithSeed) {
        let expected = derive_address(&c.base, &c.seed, &c.owner).unwrap();
        assert_eq!(expected, c.to);
        assert!(!self.accounts.contains_key(&c.to));
        self.accounts.insert(c.to, (vec![0u8; c.space as usize], c.lamports, c.owner));
        self.creations += 1;
    }

    fn run_program(&mut self, program: &PublicAddress, accounts: &[PublicAddress]) {
        let entry = self.accounts.get_mut(&accounts[0]).unwrap();
        assert_eq!(&entry.2, program);
        let g = GreetingAccount::decode(&entry.0).unwrap();
        entry.0 = GreetingAccount { counter: g.counter + 1 }.encode();
    }
}

/// One whole run of the flow against the ledger; returns the counter read back.
fn run_flow(
    ledger: &mut Ledger,
    payer: &PublicAddress,
    program: &PublicAddress,
    rent: u64,
    fee: u64,
    airdrops: &mut Vec<u64>,
) -> u32 {
    let requirement = get_balance_requirement(rent, fee).unwrap();
    let balance = *ledger.balances.get(payer).unwrap_or(&0);
    if let Some(amount) = airdrop_request_amount(balance, requirement) {
        airdrops.push(amount);
        ledger.balances.insert(*payer, balance + amount);
    }
    let key = get_greeting_public_key(payer, program).unwrap();
    let exists = ledger.accounts.contains_key(&key);
    if let Some(c) = create_greeting_account(payer, program, exists, rent).unwrap() {
        ledger.create(&c);
    }
    let ix = hello_instruction(payer, program).unwrap();
    let metas: Vec<PublicAddress> = ix.accounts.iter().map(|m| m.pubkey).collect();
    ledger.run_program(&ix.program_id, &metas);
    count_greetings(&ledger.accounts.get(&key).unwrap().0).unwrap()
}

#[test]
fn derive_is_deterministic() {
    let a = derive_address(&addr(1), "hello", &addr(2)).unwrap();
    let b = derive_address(&addr(1), "hello", &addr(2)).unwrap();
    assert_eq!(a, b);
    let c = derive_address(&addr(1), "hellp", &addr(2)).unwrap();
    assert_ne!(a, c);
    let d = derive_address(&addr(3), "hello", &addr(2)).unwrap();
    assert_ne!(a, d);
}

#[test]
fn derive_matches_network_derivation() {
    let base = Pubkey::new_from_array(addr(7));
    let owner = Pubkey::new_from_array(addr(9));
    let expected = Pubkey::create_with_seed(&base, "hello", &owner).unwrap();
    let got = derive_address(&addr(7), "hello", &addr(9)).unwrap();
    assert_eq!(got, expected.to_bytes());
    assert_ne!(got, addr(7));
    assert_eq!(get_greeting_public_key(&addr(7), &addr(9)).unwrap(), got);
}

#[test]
fn greeting_seed_is_hello() {
    assert_eq!(get_greeting_seed(), "hello");
}

#[test]
fn seed_length_limit() {
    let ok = "a".repeat(MAX_SEED_LEN);
    assert!(derive_address(&addr(1), &ok, &addr(2)).is_ok());
    let long = "a".repeat(MAX_SEED_LEN + 1);
    assert_eq!(derive_address(&addr(1), &long, &addr(2)), Err(AddressError::MaxSeedLengthExceeded));
    // seventeen two-byte characters take 34 bytes
    let wide = "\u{e9}".repeat(17);
    assert_eq!(derive_address(&addr(1), &wide, &addr(2)), Err(AddressError::MaxSeedLengthExceeded));
}

#[test]
fn owner_with_pda_marker_is_refused() {
    let mut owner = [0u8; 32];
    owner[11..].copy_from_slice(b"ProgramDerivedAddress");
    assert_eq!(derive_address(&addr(1), "hello", &owner), Err(AddressError::IllegalOwner));
    assert_eq!(
        create_greeting_account(&addr(1), &owner, false, 10).err(),
        Some(Error::Address(AddressError::IllegalOwner))
    );
    assert_eq!(
        hello_instruction(&addr(1), &owner).err(),
        Some(Error::Address(AddressError::IllegalOwner))
    );
}

#[test]
fn balance_requirement_sums_rent_and_fees() {
    assert_eq!(FEE_SIGNATURE_MULTIPLIER, 100);
    assert_eq!(get_balance_requirement(890880, 5000), Ok(1390880));
    assert_eq!(get_balance_requirement(890880, 0), Ok(890880));
    assert_eq!(get_balance_requirement(0, 7), Ok(700));
}

#[test]
fn balance_requirement_overflow() {
    assert_eq!(get_balance_requirement(0, u64::MAX / 100 + 1), Err(Error::BalanceOverflow));
    assert_eq!(get_balance_requirement(u64::MAX, 1), Err(Error::BalanceOverflow));
    assert_eq!(get_balance_requirement(u64::MAX - 100, 1), Ok(u64::MAX));
}

#[test]
fn funding_requested_only_on_shortfall() {
    assert_eq!(airdrop_request_amount(0, 1390880), Some(1390880));
    assert_eq!(airdrop_request_amount(1000, 1390880), Some(1389880));
    assert_eq!(airdrop_request_amount(1390880, 1390880), None);
    assert_eq!(airdrop_request_amount(1390881, 1390880), None);
}

#[test]
fn confirmation_polling() {
    let unbounded = ConfirmationPolicy { max_attempts: None };
    assert_eq!(airdrop_poll_step(&unbounded, 1_000_000, false), PollAction::PollAgain);
    assert_eq!(airdrop_poll_step(&unbounded, 3, true), PollAction::Done);
    let bounded = ConfirmationPolicy { max_attempts: Some(3) };
    assert_eq!(airdrop_poll_step(&bounded, 2, false), PollAction::PollAgain);
    assert_eq!(airdrop_poll_step(&bounded, 3, false), PollAction::GiveUp);
    assert_eq!(airdrop_poll_step(&bounded, 3, true), PollAction::Done);
}

#[test]
fn program_must_be_executable() {
    assert_eq!(check_program(true), Ok(()));
    assert_eq!(check_program(false), Err(Error::ProgramNotExecutable));
}

#[test]
fn provisioning_plan() {
    let payer = addr(4);
    let program = addr(5);
    assert!(create_greeting_account(&payer, &program, true, 890880).unwrap().is_none());
    let c = create_greeting_account(&payer, &program, false, 890880).unwrap().unwrap();
    assert_eq!(c.from, payer);
    assert_eq!(c.base, payer);
    assert_eq!(c.to, get_greeting_public_key(&payer, &program).unwrap());
    assert_eq!(c.seed, "hello");
    assert_eq!(c.lamports, 890880);
    assert_eq!(c.space, GREETING_DATA_SIZE as u64);
    assert_eq!(c.space, 4);
    assert_eq!(c.owner, program);
}

#[test]
fn hello_instruction_shape() {
    let payer = addr(4);
    let program = addr(5);
    let ix = hello_instruction(&payer, &program).unwrap();
    assert_eq!(ix.program_id, program);
    assert!(ix.data.is_empty());
    assert_eq!(ix.accounts.len(), 1);
    assert_eq!(ix.accounts[0].pubkey, get_greeting_public_key(&payer, &program).unwrap());
    assert!(ix.accounts[0].is_writable);
    assert!(!ix.accounts[0].is_signer);
}

#[test]
fn counter_decoding() {
    assert_eq!(count_greetings(&[1, 0, 0, 0]), Ok(1));
    assert_eq!(count_greetings(&[0x78, 0x56, 0x34, 0x12]), Ok(0x12345678));
    assert_eq!(count_greetings(&[0xff, 0xff, 0xff, 0xff]), Ok(u32::MAX));
}

#[test]
fn counter_length_validation() {
    assert_eq!(count_greetings(&[]), Err(Error::InvalidAccountData(0)));
    assert_eq!(count_greetings(&[1, 0, 0]), Err(Error::InvalidAccountData(3)));
    assert_eq!(count_greetings(&[1, 0, 0, 0, 0]), Err(Error::InvalidAccountData(5)));
    assert!(GreetingAccount::decode(&[0; 8]).is_none());
}

#[test]
fn counter_round_trip() {
    for v in [0u32, 1, 255, 256, 65535, 65536, 0x12345678, u32::MAX - 1, u32::MAX] {
        let bytes = GreetingAccount { counter: v }.encode();
        assert_eq!(bytes, v.to_le_bytes().to_vec());
        assert_eq!(count_greetings(&bytes), Ok(v));
    }
}

#[test]
fn config_fields() {
    let text = "json_rpc_url: http://localhost:8899\nkeypair_path: /home/u/id.json\n";
    assert_eq!(get_rpc_url(text), Ok("http://localhost:8899".to_string()));
    assert_eq!(get_keypair_path(text), Ok("/home/u/id.json".to_string()));
    assert!(get_config(text).is_ok());
}

#[test]
fn config_errors() {
    assert!(matches!(get_rpc_url("keypair_path: /x\n"), Err(Error::InvalidConfig(_))));
    assert!(matches!(get_keypair_path("json_rpc_url: http://h\n"), Err(Error::InvalidConfig(_))));
    assert_eq!(get_rpc_url("---\na: 1\n---\nb: 2\n"), Err(Error::DocumentCount(2)));
    assert_eq!(get_rpc_url(""), Err(Error::DocumentCount(0)));
    assert_eq!(get_rpc_url("a: [1, 2\n"), Err(Error::ConfigParse));
}

#[test]
fn end_to_end_first_run() {
    let mut ledger = Ledger::new();
    let payer = addr(21);
    let program = addr(22);
    let mut airdrops = Vec::new();
    let count = run_flow(&mut ledger, &payer, &program, 890880, 5000, &mut airdrops);
    assert_eq!(airdrops, vec![1390880]);
    assert_eq!(ledger.creations, 1);
    let key = get_greeting_public_key(&payer, &program).unwrap();
    assert_eq!(ledger.accounts.get(&key).unwrap().1, 890880);
    assert_eq!(count, 1);
}

#[test]
fn second_run_skips_creation() {
    let mut ledger = Ledger::new();
    let payer = addr(31);
    let program = addr(32);
    let mut airdrops = Vec::new();
    assert_eq!(run_flow(&mut ledger, &payer, &program, 890880, 5000, &mut airdrops), 1);
    assert_eq!(run_flow(&mut ledger, &payer, &program, 890880, 5000, &mut airdrops), 2);
    assert_eq!(ledger.creations, 1);
    assert_eq!(airdrops, vec![1390880]);
    let key = get_greeting_public_key(&payer, &program).unwrap();
    assert!(create_greeting_account(&payer, &program, ledger.accounts.contains_key(&key), 890880)
        .unwrap()
        .is_none());
}

#[test]
fn flow_runs_stages_in_order() {
    let mut stage = next_stage(FlowStage::Start, true, true);
    assert_eq!(stage, FlowStage::Fund);
    let mut seen = vec![stage];
    while stage != FlowStage::Done {
        stage = next_stage(stage, true, true);
        seen.push(stage);
    }
    assert_eq!(
        seen,
        vec![
            FlowStage::Fund,
            FlowStage::EnsureAccount,
            FlowStage::Dispatch,
            FlowStage::ReadState,
            FlowStage::Done
        ]
    );
    assert_eq!(next_stage(FlowStage::Start, true, false), FlowStage::EnsureAccount);
    assert_eq!(next_stage(FlowStage::Done, true, false), FlowStage::Done);
}

#[test]
fn flow_stops_on_failure() {
    assert_eq!(next_stage(FlowStage::EnsureAccount, false, false), FlowStage::Failed);
    assert_eq!(next_stage(FlowStage::Start, false, true), FlowStage::Failed);
    assert_eq!(next_stage(FlowStage::Failed, true, false), FlowStage::Failed);
}
