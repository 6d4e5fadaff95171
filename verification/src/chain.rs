//! Addresses, accounts and instructions of the chain, and what the crates of the chain compute on
//! them.

use vstd::prelude::*;

use crate::bytes::{u32_bytes, u64_bytes, u64_from_bytes, u64_of_bytes};
use crate::search::Solution;

verus! {

/// The program that an auth instruction names: `noop8ytexvkpCuqbf6FB89BSuNemHtPRqaNC31GWivW`.
pub const NOOP_PROGRAM_ID: [u8; 32] = [
    11, 188, 15, 182, 203, 29, 221, 28, 227, 242, 242, 171, 26, 14, 188, 177, 157, 107, 138, 3, 18,
    82, 116, 20, 91, 31, 128, 139, 185, 154, 240, 91,
];

/// The compute budget program: `ComputeBudget111111111111111111111111111111`.
pub const COMPUTE_BUDGET_ID: [u8; 32] = [
    3, 6, 70, 111, 229, 33, 23, 50, 255, 236, 173, 186, 114, 195, 155, 231, 188, 140, 229, 187, 197,
    247, 18, 107, 44, 67, 155, 58, 64, 0, 0, 0,
];

/// The ORE program: `oreV2ZymfyeXgNgBdqMkumTqqAprVqgBWQfoYkrtKWQ`.
pub const ORE_PROGRAM_ID: [u8; 32] = [
    12, 0, 218, 56, 141, 104, 231, 117, 177, 181, 197, 109, 1, 141, 62, 76, 214, 134, 116, 12, 241,
    199, 17, 129, 167, 81, 49, 80, 203, 81, 31, 217,
];

/// The account that shows the instructions of a transaction:
/// `Sysvar1nstructions1111111111111111111111111`.
pub const INSTRUCTIONS_SYSVAR_ID: [u8; 32] = [
    6, 167, 213, 23, 24, 123, 209, 102, 53, 218, 212, 4, 85, 253, 194, 192, 193, 36, 198, 143, 33,
    86, 117, 165, 219, 186, 203, 95, 8, 0, 0, 0,
];

/// The account that shows the latest slot hashes: `SysvarS1otHashes111111111111111111111111111`.
pub const SLOT_HASHES_SYSVAR_ID: [u8; 32] = [
    6, 167, 213, 23, 25, 47, 10, 175, 198, 242, 101, 227, 251, 119, 204, 122, 218, 130, 197, 41, 208,
    190, 59, 19, 110, 45, 0, 85, 32, 0, 0, 0,
];

/// The token program: `TokenkegQfeZyiNwAJbNbGKPFXCWuBvf9Ss623VQ5DA`.
pub const TOKEN_PROGRAM_ID: [u8; 32] = [
    6, 221, 246, 225, 215, 101, 161, 147, 217, 203, 225, 70, 206, 235, 121, 172, 28, 180, 133, 237,
    95, 91, 55, 145, 58, 140, 245, 133, 126, 255, 0, 169,
];

/// The number of buses.
pub const BUSES: usize = 8;

/// The seconds of an epoch.
pub const EPOCH_SECONDS: u64 = 300;

/// An account that an instruction reads or writes.
#[derive(Clone, Copy)]
pub struct AccountMeta {
    pub pubkey: [u8; 32],
    pub is_signer: bool,
    pub is_writable: bool,
}

/// What an [`AccountMeta`] says.
pub struct AccountView {
    pub pubkey: Seq<u8>,
    pub is_signer: bool,
    pub is_writable: bool,
}

impl View for AccountMeta {
    type V = AccountView;

    open spec fn view(&self) -> AccountView {
        AccountView {
            pubkey: self.pubkey@,
            is_signer: self.is_signer,
            is_writable: self.is_writable,
        }
    }
}

/// An instruction for a program on the chain.
pub struct Instruction {
    pub program_id: [u8; 32],
    pub accounts: Vec<AccountMeta>,
    pub data: Vec<u8>,
}

/// What an [`Instruction`] says.
pub struct InstructionView {
    pub program_id: Seq<u8>,
    pub accounts: Seq<AccountView>,
    pub data: Seq<u8>,
}

impl View for Instruction {
    type V = InstructionView;

    open spec fn view(&self) -> InstructionView {
        InstructionView {
            program_id: self.program_id@,
            accounts: self.accounts@.map_values(|a: AccountMeta| a@),
            data: self.data@,
        }
    }
}

/// What a list of instructions says.
pub open spec fn instruction_views(ixs: Seq<Instruction>) -> Seq<InstructionView> {
    ixs.map_values(|ix: Instruction| ix@)
}

impl Instruction {
    /// Another instruction that says the same.
    pub fn copy(&self) -> (r: Self)
        ensures
            r@ == self@,
    {
        let mut accounts: Vec<AccountMeta> = Vec::new();
        let mut i: usize = 0;
        while i < self.accounts.len()
            invariant
                i <= self.accounts.len(),
                accounts@ == self.accounts@.take(i as int),
            decreases self.accounts.len() - i,
        {
            accounts.push(self.accounts[i]);
            assert(self.accounts@.take(i + 1) =~= self.accounts@.take(i as int).push(
                self.accounts@[i as int],
            ));
            i = i + 1;
        }
        assert(self.accounts@.take(i as int) =~= self.accounts@);
        let mut data: Vec<u8> = Vec::new();
        let mut j: usize = 0;
        while j < self.data.len()
            invariant
                j <= self.data.len(),
                data@ == self.data@.take(j as int),
            decreases self.data.len() - j,
        {
            data.push(self.data[j]);
            assert(self.data@.take(j + 1) =~= self.data@.take(j as int).push(self.data@[j as int]));
            j = j + 1;
        }
        assert(self.data@.take(j as int) =~= self.data@);
        Instruction { program_id: self.program_id, accounts, data }
    }
}

/// Other instructions that say the same.
pub fn copy_all(ixs: &Vec<Instruction>) -> (r: Vec<Instruction>)
    ensures
        instruction_views(r@) == instruction_views(ixs@),
{
    let mut r: Vec<Instruction> = Vec::new();
    let mut i: usize = 0;
    while i < ixs.len()
        invariant
            i <= ixs.len(),
            r@.len() == i,
            forall|k: int| 0 <= k < i ==> (#[trigger] r@[k])@ == ixs@[k]@,
        decreases ixs.len() - i,
    {
        r.push(ixs[i].copy());
        i = i + 1;
    }
    assert(instruction_views(r@) =~= instruction_views(ixs@));
    r
}

/// The instruction that sets the compute unit limit of a transaction.
pub open spec fn limit_instruction(units: u32) -> InstructionView {
    InstructionView {
        program_id: COMPUTE_BUDGET_ID@,
        accounts: Seq::empty(),
        data: seq![2u8] + u32_bytes(units),
    }
}

/// The instruction that sets the compute unit price of a transaction.
pub open spec fn price_instruction(micro_lamports: u64) -> InstructionView {
    InstructionView {
        program_id: COMPUTE_BUDGET_ID@,
        accounts: Seq::empty(),
        data: seq![3u8] + u64_bytes(micro_lamports),
    }
}

/// The instruction that names the proof account of a transaction.
pub open spec fn auth_instruction(proof: Seq<u8>) -> InstructionView {
    InstructionView { program_id: NOOP_PROGRAM_ID@, accounts: Seq::empty(), data: proof }
}

/// An account that signs and is written to.
pub open spec fn signing(pubkey: Seq<u8>) -> AccountView {
    AccountView { pubkey, is_signer: true, is_writable: true }
}

/// An account that is written to.
pub open spec fn written(pubkey: Seq<u8>) -> AccountView {
    AccountView { pubkey, is_signer: false, is_writable: true }
}

/// An account that is only read.
pub open spec fn read_only(pubkey: Seq<u8>) -> AccountView {
    AccountView { pubkey, is_signer: false, is_writable: false }
}

/// Does an instruction start a new epoch of the ORE program, in the name of `signer`? It has the
/// number 4 as its data and lists the signer, the buses in their order, four more accounts that are
/// written to, and the token program.
pub open spec fn resets_epoch(ix: InstructionView, signer: Seq<u8>) -> bool {
    &&& ix.program_id == ORE_PROGRAM_ID@
    &&& ix.data == seq![4u8]
    &&& ix.accounts.len() == BUSES + 6
    &&& ix.accounts[0] == signing(signer)
    &&& forall|i: int| 1 <= i <= BUSES ==> #[trigger] ix.accounts[i] == written(bus_address_at(i - 1))
    &&& forall|i: int|
        BUSES < i <= BUSES + 4 ==> #[trigger] ix.accounts[i] == written(ix.accounts[i].pubkey)
    &&& ix.accounts[BUSES + 5] == read_only(TOKEN_PROGRAM_ID@)
}

/// Does an instruction hand a solution in at `bus`, in the name of `signer`, for the miner with the
/// proof account `proof`? It has the number 2, the digest and the nonce as its data and lists the
/// signer, the bus, an account that is only read, the proof account and two accounts of the chain.
pub open spec fn claims_reward(
    ix: InstructionView,
    signer: Seq<u8>,
    bus: Seq<u8>,
    proof: Seq<u8>,
    digest: Seq<u8>,
    nonce: Seq<u8>,
) -> bool {
    &&& ix.program_id == ORE_PROGRAM_ID@
    &&& ix.data == seq![2u8] + digest + nonce
    &&& ix.accounts.len() == 6
    &&& ix.accounts[0] == signing(signer)
    &&& ix.accounts[1] == written(bus)
    &&& ix.accounts[2] == read_only(ix.accounts[2].pubkey)
    &&& ix.accounts[3] == written(proof)
    &&& ix.accounts[4] == read_only(INSTRUCTIONS_SYSVAR_ID@)
    &&& ix.accounts[5] == read_only(SLOT_HASHES_SYSVAR_ID@)
}

/// Calls `ComputeBudgetInstruction::set_compute_unit_limit`, which names the compute budget
/// program, lists no accounts and encodes the number of its variant, 2, and the limit.
#[verifier::external_body]
pub(crate) fn set_compute_unit_limit(units: u32) -> (r: Instruction)
    ensures
        r@ == limit_instruction(units),
{
    let ix = solana_sdk::compute_budget::ComputeBudgetInstruction::set_compute_unit_limit(units);
    Instruction {
        program_id: ix.program_id.to_bytes(),
        accounts: ix.accounts.iter().map(|a| AccountMeta {
            pubkey: a.pubkey.to_bytes(),
            is_signer: a.is_signer,
            is_writable: a.is_writable,
        }).collect(),
        data: ix.data,
    }
}

/// Calls `ComputeBudgetInstruction::set_compute_unit_price`, which names the compute budget
/// program, lists no accounts and encodes the number of its variant, 3, and the price.
#[verifier::external_body]
pub(crate) fn set_compute_unit_price(micro_lamports: u64) -> (r: Instruction)
    ensures
        r@ == price_instruction(micro_lamports),
{
    let ix = solana_sdk::compute_budget::ComputeBudgetInstruction::set_compute_unit_price(
        micro_lamports,
    );
    Instruction {
        program_id: ix.program_id.to_bytes(),
        accounts: ix.accounts.iter().map(|a| AccountMeta {
            pubkey: a.pubkey.to_bytes(),
            is_signer: a.is_signer,
            is_writable: a.is_writable,
        }).collect(),
        data: ix.data,
    }
}

/// Calls `ore_api::instruction::auth`, which names the noop program, lists no accounts and carries
/// the address of the proof account as its data.
#[verifier::external_body]
pub(crate) fn auth(proof: &[u8; 32]) -> (r: Instruction)
    ensures
        r@ == auth_instruction(proof@),
{
    let key = solana_program::pubkey::Pubkey::new_from_array(*proof);
    let ix = ore_api::instruction::auth(key);
    Instruction {
        program_id: ix.program_id.to_bytes(),
        accounts: ix.accounts.iter().map(|a| AccountMeta {
            pubkey: a.pubkey.to_bytes(),
            is_signer: a.is_signer,
            is_writable: a.is_writable,
        }).collect(),
        data: ix.data,
    }
}

/// What `ore_api::instruction::reset` returns for a signer.
pub uninterp spec fn reset_instruction(signer: Seq<u8>) -> InstructionView;

/// Calls `ore_api::instruction::reset`. It names the ORE program and has the number 4 as its data;
/// it lists the signer, the buses, the config, mint, treasury and treasury token accounts, which are
/// all written to, and the token program. The addresses of the four accounts after the buses are
/// constants that are derived when `ore_api` is compiled; only the name stands for them.
#[verifier::external_body]
pub(crate) fn reset(signer: &[u8; 32]) -> (r: Instruction)
    ensures
        r@ == reset_instruction(signer@),
        resets_epoch(r@, signer@),
{
    let key = solana_program::pubkey::Pubkey::new_from_array(*signer);
    let ix = ore_api::instruction::reset(key);
    Instruction {
        program_id: ix.program_id.to_bytes(),
        accounts: ix.accounts.iter().map(|a| AccountMeta {
            pubkey: a.pubkey.to_bytes(),
            is_signer: a.is_signer,
            is_writable: a.is_writable,
        }).collect(),
        data: ix.data,
    }
}

/// The address that `Pubkey::try_find_program_address` derives for the proof account of an
/// authority; `None` where it finds none.
pub uninterp spec fn derived_proof_address(authority: Seq<u8>) -> Option<Seq<u8>>;

/// The bytes of an optional address.
pub open spec fn address_view(address: Option<[u8; 32]>) -> Option<Seq<u8>> {
    match address {
        Some(bytes) => Some(bytes@),
        None => None,
    }
}

/// Calls `Pubkey::try_find_program_address` with the proof seed and the authority, under the ORE
/// program. The result is a function of the authority; it is `None` in the improbable event that no
/// bump seed leads off the curve, on which `Pubkey::find_program_address` panics.
#[verifier::external_body]
pub(crate) fn proof_address(authority: &[u8; 32]) -> (r: Option<[u8; 32]>)
    ensures
        address_view(r) == derived_proof_address(authority@),
{
    solana_program::pubkey::Pubkey::try_find_program_address(
        &[ore_api::consts::PROOF, authority.as_ref()],
        &ore_api::ID,
    ).map(|found| found.0.to_bytes())
}

/// What `ore_api::instruction::mine` returns for a signer, an authority, a bus and the digest and
/// nonce of a solution.
pub uninterp spec fn mine_instruction(
    signer: Seq<u8>,
    authority: Seq<u8>,
    bus: Seq<u8>,
    digest: Seq<u8>,
    nonce: Seq<u8>,
) -> InstructionView;

/// Calls `ore_api::instruction::mine`. It names the ORE program and has the number 2, the digest and
/// the nonce as its data; it lists the signer, the bus, the config account, the proof account of the
/// authority and the accounts of the chain that show the instructions and the slot hashes. The
/// address of the config account is a constant that is derived when `ore_api` is compiled; only the
/// name stands for it. The call panics where no proof account address can be derived.
#[verifier::external_body]
pub(crate) fn mine(
    signer: &[u8; 32],
    authority: &[u8; 32],
    bus: &[u8; 32],
    solution: &Solution,
) -> (r: Instruction)
    requires
        derived_proof_address(authority@) is Some,
    ensures
        r@ == mine_instruction(signer@, authority@, bus@, solution.d@, solution.n@),
        claims_reward(
            r@,
            signer@,
            bus@,
            derived_proof_address(authority@)->0,
            solution.d@,
            solution.n@,
        ),
{
    let keys = [*signer, *authority, *bus].map(solana_program::pubkey::Pubkey::new_from_array);
    let solution = drillx::Solution::new(solution.d, solution.n);
    let ix = ore_api::instruction::mine(keys[0], keys[1], keys[2], solution);
    Instruction {
        program_id: ix.program_id.to_bytes(),
        accounts: ix.accounts.iter().map(|a| AccountMeta {
            pubkey: a.pubkey.to_bytes(),
            is_signer: a.is_signer,
            is_writable: a.is_writable,
        }).collect(),
        data: ix.data,
    }
}

/// The text that `Pubkey` displays for an address: its base-58 notation.
pub uninterp spec fn address_text(address: Seq<u8>) -> Seq<char>;

/// Displays an address as `Pubkey` does.
#[verifier::external_body]
pub(crate) fn display_address(address: &[u8; 32]) -> (r: String)
    ensures
        r@ == address_text(address@),
{
    solana_program::pubkey::Pubkey::new_from_array(*address).to_string()
}

/// The entry of `ore_api::consts::BUS_ADDRESSES` at `index`.
pub uninterp spec fn bus_address_at(index: int) -> Seq<u8>;

/// Reads `ore_api::consts::BUS_ADDRESSES`, a constant of eight addresses.
#[verifier::external_body]
pub(crate) fn bus_address(index: usize) -> (r: [u8; 32])
    requires
        index < BUSES,
    ensures
        r@ == bus_address_at(index as int),
{
    ore_api::consts::BUS_ADDRESSES[index].to_bytes()
}

/// Reads `ore_api::consts::BUS_COUNT`: there are eight buses.
#[verifier::external_body]
pub(crate) fn bus_count() -> (r: usize)
    ensures
        r == BUSES,
{
    ore_api::consts::BUS_COUNT
}

/// Reads `ore_api::consts::EPOCH_DURATION`: an epoch has five minutes.
#[verifier::external_body]
pub(crate) fn epoch_duration() -> (r: i64)
    ensures
        r == EPOCH_SECONDS,
{
    ore_api::consts::EPOCH_DURATION
}

/// Reads `ore_api::ID`, the address of the ORE program.
#[verifier::external_body]
pub(crate) fn ore_program_id() -> (r: [u8; 32])
    ensures
        r@ == ORE_PROGRAM_ID@,
{
    ore_api::ID.to_bytes()
}

/// A bus, as far as the choice of one needs it.
#[derive(Clone, Copy)]
pub struct Bus {
    pub id: u64,
    pub rewards: u64,
}

/// Is the data of an account long enough to be told from that of a bus? Data that begins like a bus
/// has a header of eight bytes.
pub open spec fn readable(data: Seq<u8>) -> bool {
    data.len() > 0 && (data[0] == 100 ==> data.len() >= 8)
}

/// The bus that the data of an account holds, if it holds one: 40 bytes, of which the first is the
/// number 100, the kind of account, the eight from the ninth on are the id, and the next eight are
/// the rewards.
pub open spec fn bus_in(data: Seq<u8>) -> Option<Bus> {
    if data.len() == 40 && data[0] == 100 {
        Some(
            Bus {
                id: u64_of_bytes(data.subrange(8, 16)) as u64,
                rewards: u64_of_bytes(data.subrange(16, 24)) as u64,
            },
        )
    } else {
        None
    }
}

/// Reads the bus that the data of an account holds, wherever in memory the data lies.
pub fn decode_bus(data: &Vec<u8>) -> (r: Option<Bus>)
    ensures
        r == bus_in(data@),
{
    if data.len() == 40 && data[0] == 100 {
        Some(Bus { id: u64_from_bytes(data, 8), rewards: u64_from_bytes(data, 16) })
    } else {
        None
    }
}

} // verus!
