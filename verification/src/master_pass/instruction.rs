//! The instruction of the master pass program.

use vstd::prelude::*;

use crate::codec::{
    bool_bytes, get_bool, get_string, get_u8, lemma_read_bool, lemma_read_string, lemma_read_u8,
    lemma_read_bool_inverse, lemma_read_string_inverse, put_bool, put_string, put_u8,
    read_agrees_view, read_bool, read_string, read_u8, rest_at, string_bytes, text_fits,
};
use vstd::seq_lib::lemma_concat_associative;
use crate::error::{view_result, ProgramError};
use crate::instruction::{meta, metas_view, push_meta, AccountMeta, Instruction, InstructionView};
use crate::master_pass::master_pass::{
    get_period, lemma_read_period, lemma_read_period_inverse, period_bytes, put_period,
    read_period, Period,
};
use crate::pubkey::{
    rent_sysvar_id, rent_sysvar_id_bytes, system_program_id, system_program_id_bytes,
    token_program_id, token_program_id_bytes, Pubkey,
};

verus! {

/// Initialize a PackSet params
#[derive(Clone, Debug, PartialEq)]
pub struct InitMasterPassArgs {
    /// Name
    pub name: String,
    /// Description
    pub description: String,
    /// URI
    pub uri: String,
    /// If true authority can make changes at deactivated phase
    pub mutable: bool,
    /// Period type
    pub period: Period,
}

/// `InitMasterPassArgs` with its addresses as bytes and its texts as characters.
pub struct InitMasterPassArgsView {
    pub name: Seq<char>,
    pub description: Seq<char>,
    pub uri: Seq<char>,
    pub mutable: bool,
    pub period: Period,
}

impl View for InitMasterPassArgs {
    type V = InitMasterPassArgsView;

    open spec fn view(&self) -> InitMasterPassArgsView {
        InitMasterPassArgsView {
            name: self.name@,
            description: self.description@,
            uri: self.uri@,
            mutable: self.mutable,
            period: self.period,
        }
    }
}

/// The values of `InitMasterPassArgs` that the format can hold: addresses of 32 bytes, texts
/// of at most `u32::MAX` bytes.
pub open spec fn init_master_pass_args_ok(v: InitMasterPassArgsView) -> bool {
    text_fits(v.name)
    && text_fits(v.description)
    && text_fits(v.uri)
}

/// The encoding of a `InitMasterPassArgs`: its fields in order.
#[verifier::opaque]
pub open spec fn init_master_pass_args_bytes(v: InitMasterPassArgsView) -> Seq<u8> {
    string_bytes(v.name) + (string_bytes(v.description) + (string_bytes(v.uri) + (bool_bytes(v.mutable) + (period_bytes(v.period)))))
}

/// Reads the fields of a `InitMasterPassArgs` in order.
#[verifier::opaque]
pub open spec fn read_init_master_pass_args(s: Seq<u8>) -> Option<(InitMasterPassArgsView, Seq<u8>)> {
    match read_string(s) {
        Some((name, r0)) => {
            match read_string(r0) {
                Some((description, r1)) => {
                    match read_string(r1) {
                        Some((uri, r2)) => {
                            match read_bool(r2) {
                                Some((mutable, r3)) => {
                                    match read_period(r3) {
                                        Some((period, r4)) => {
                                            Some((InitMasterPassArgsView { name, description, uri, mutable, period }, r4))
                                        },
                                        None => None,
                                    }
                                },
                                None => None,
                            }
                        },
                        None => None,
                    }
                },
                None => None,
            }
        },
        None => None,
    }
}

/// Reading the encoding of a `InitMasterPassArgs` gives it back and leaves what followed.
pub proof fn lemma_read_init_master_pass_args(v: InitMasterPassArgsView, rest: Seq<u8>)
    requires
        init_master_pass_args_ok(v),
    ensures
        read_init_master_pass_args(init_master_pass_args_bytes(v) + rest) == Some((v, rest)),
{
    reveal(init_master_pass_args_bytes);
    reveal(read_init_master_pass_args);
    let q5 = rest;
    let q4 = period_bytes(v.period) + q5;
    let q3 = bool_bytes(v.mutable) + q4;
    let q2 = string_bytes(v.uri) + q3;
    let q1 = string_bytes(v.description) + q2;
    let q0 = string_bytes(v.name) + q1;
    lemma_concat_associative(bool_bytes(v.mutable), period_bytes(v.period), rest);
    lemma_concat_associative(string_bytes(v.uri), bool_bytes(v.mutable) + (period_bytes(v.period)), rest);
    lemma_concat_associative(string_bytes(v.description), string_bytes(v.uri) + (bool_bytes(v.mutable) + (period_bytes(v.period))), rest);
    lemma_concat_associative(string_bytes(v.name), string_bytes(v.description) + (string_bytes(v.uri) + (bool_bytes(v.mutable) + (period_bytes(v.period)))), rest);
    assert(init_master_pass_args_bytes(v) + rest == q0);
    lemma_read_string(v.name, q1);
    lemma_read_string(v.description, q2);
    lemma_read_string(v.uri, q3);
    lemma_read_bool(v.mutable, q4);
    lemma_read_period(v.period, q5);
}

/// A successful read of a `InitMasterPassArgs` consumed exactly its encoding.
pub proof fn lemma_read_init_master_pass_args_inverse(s: Seq<u8>)
    ensures
        read_init_master_pass_args(s) matches Some((v, r)) ==> init_master_pass_args_ok(v) && init_master_pass_args_bytes(v) + r == s,
{
    reveal(init_master_pass_args_bytes);
    reveal(read_init_master_pass_args);
    if let Some((v, r)) = read_init_master_pass_args(s) {
        lemma_read_string_inverse(s);
        let s1 = read_string(s)->Some_0.1;
        lemma_read_string_inverse(s1);
        let s2 = read_string(s1)->Some_0.1;
        lemma_read_string_inverse(s2);
        let s3 = read_string(s2)->Some_0.1;
        lemma_read_bool_inverse(s3);
        let s4 = read_bool(s3)->Some_0.1;
        lemma_read_period_inverse(s4);
        let s5 = read_period(s4)->Some_0.1;
        lemma_concat_associative(bool_bytes(v.mutable), period_bytes(v.period), r);
        lemma_concat_associative(string_bytes(v.uri), bool_bytes(v.mutable) + (period_bytes(v.period)), r);
        lemma_concat_associative(string_bytes(v.description), string_bytes(v.uri) + (bool_bytes(v.mutable) + (period_bytes(v.period))), r);
        lemma_concat_associative(string_bytes(v.name), string_bytes(v.description) + (string_bytes(v.uri) + (bool_bytes(v.mutable) + (period_bytes(v.period)))), r);
    }
}

/// The length of the encoding of a `InitMasterPassArgs`: the lengths of its fields added up.
pub proof fn lemma_init_master_pass_args_bytes_len(v: InitMasterPassArgsView)
    ensures
        init_master_pass_args_bytes(v).len() == (string_bytes(v.name)).len() + (string_bytes(v.description)).len() + (string_bytes(v.uri)).len() + (bool_bytes(v.mutable)).len() + (period_bytes(v.period)).len(),
{
    reveal(init_master_pass_args_bytes);
}

impl InitMasterPassArgs {
    /// Appends the encoding of this `InitMasterPassArgs` to `out`.
    pub fn serialize(&self, out: &mut Vec<u8>)
        requires
            init_master_pass_args_ok(self@),
        ensures
            final(out)@ == old(out)@ + init_master_pass_args_bytes(self@),
    {
        reveal(init_master_pass_args_bytes);
        let ghost x = out@;
        put_string(out, &self.name);
        let ghost x0 = out@;
        put_string(out, &self.description);
        let ghost x1 = out@;
        put_string(out, &self.uri);
        let ghost x2 = out@;
        put_bool(out, self.mutable);
        let ghost x3 = out@;
        put_period(out, self.period);
        let ghost x4 = out@;
        proof {
            lemma_concat_associative(x2, bool_bytes(self@.mutable), period_bytes(self@.period));
            lemma_concat_associative(x1, string_bytes(self@.uri), bool_bytes(self@.mutable) + (period_bytes(self@.period)));
            lemma_concat_associative(x0, string_bytes(self@.description), string_bytes(self@.uri) + (bool_bytes(self@.mutable) + (period_bytes(self@.period))));
            lemma_concat_associative(x, string_bytes(self@.name), string_bytes(self@.description) + (string_bytes(self@.uri) + (bool_bytes(self@.mutable) + (period_bytes(self@.period)))));
        }
        assert(out@ == x + init_master_pass_args_bytes(self@));
    }

    /// Reads a `InitMasterPassArgs` from `src` at `pos`; gives it and the position after it.
    pub fn deserialize(src: &[u8], pos: usize) -> (r: Option<(Self, usize)>)
        requires
            pos <= src@.len(),
        ensures
            read_agrees_view(src@, pos, r, read_init_master_pass_args(rest_at(src@, pos)), |x: InitMasterPassArgs| x@),
    {
        reveal(read_init_master_pass_args);
        let (name, p0) = match get_string(src, pos) {
            Some(x) => x,
            None => return None,
        };
        let (description, p1) = match get_string(src, p0) {
            Some(x) => x,
            None => return None,
        };
        let (uri, p2) = match get_string(src, p1) {
            Some(x) => x,
            None => return None,
        };
        let (mutable, p3) = match get_bool(src, p2) {
            Some(x) => x,
            None => return None,
        };
        let (period, p4) = match get_period(src, p3) {
            Some(x) => x,
            None => return None,
        };
        Some((InitMasterPassArgs { name, description, uri, mutable, period }, p4))
    }
}

/// Instruction definition
#[derive(Clone, Debug, PartialEq)]
pub enum NFTPassInstruction {
    /// InitMasterPass
    ///
    /// Initialize created account.
    ///
    /// Accounts: the master pass (writable), the source token account that holds the
    /// master edition token (writable), the program's token account for it (writable),
    /// the store (writable), the authority (signer), the payer (signer), the master
    /// metadata mint, the master metadata, the master edition, rent, the system program
    /// and the token program.
    InitMasterPass(InitMasterPassArgs),
}

/// `NFTPassInstruction` with the texts of its arguments as characters.
pub enum NFTPassInstructionView {
    InitMasterPass(InitMasterPassArgsView),
}

impl View for NFTPassInstruction {
    type V = NFTPassInstructionView;

    open spec fn view(&self) -> NFTPassInstructionView {
        match self {
            NFTPassInstruction::InitMasterPass(a) => NFTPassInstructionView::InitMasterPass(a@),
        }
    }
}

/// The encoding of an instruction: the place of its variant in one byte, then its
/// arguments.
pub open spec fn instruction_bytes(v: NFTPassInstructionView) -> Seq<u8> {
    match v {
        NFTPassInstructionView::InitMasterPass(a) => seq![0u8] + init_master_pass_args_bytes(a),
    }
}

/// How instruction data is read: the variant's byte, then its arguments, and nothing
/// after them.
pub open spec fn instruction_from_slice(s: Seq<u8>) -> Result<NFTPassInstructionView, ProgramError> {
    match read_u8(s) {
        Some((t, r)) => if t == 0u8 {
            match read_init_master_pass_args(r) {
                Some((a, r2)) => if r2.len() == 0 {
                    Ok(NFTPassInstructionView::InitMasterPass(a))
                } else {
                    Err(ProgramError::BorshIoError)
                },
                None => Err(ProgramError::BorshIoError),
            }
        } else {
            Err(ProgramError::BorshIoError)
        },
        None => Err(ProgramError::BorshIoError),
    }
}

/// Encoded instruction data reads back as the instruction.
pub proof fn lemma_instruction_roundtrip(v: NFTPassInstructionView)
    requires
        v matches NFTPassInstructionView::InitMasterPass(a) && init_master_pass_args_ok(a),
    ensures
        instruction_from_slice(instruction_bytes(v)) == Ok::<NFTPassInstructionView, ProgramError>(v),
{
    let NFTPassInstructionView::InitMasterPass(a) = v;
    lemma_read_init_master_pass_args(a, seq![]);
    assert(init_master_pass_args_bytes(a) + seq![] =~= init_master_pass_args_bytes(a));
    lemma_read_u8(0u8, init_master_pass_args_bytes(a));
}

impl NFTPassInstruction {
    /// The instruction data of this instruction.
    pub fn to_bytes(&self) -> (r: Vec<u8>)
        requires
            self@ matches NFTPassInstructionView::InitMasterPass(a) && init_master_pass_args_ok(a),
        ensures
            r@ == instruction_bytes(self@),
    {
        let mut out: Vec<u8> = Vec::new();
        match self {
            NFTPassInstruction::InitMasterPass(a) => {
                put_u8(&mut out, 0);
                a.serialize(&mut out);
            },
        }
        out
    }

    /// Reads the instruction that instruction data holds.
    pub fn try_from_slice(input: &[u8]) -> (r: Result<Self, ProgramError>)
        ensures
            view_result(r) == instruction_from_slice(input@),
    {
        assert(rest_at(input@, 0) =~= input@);
        let (t, p) = match get_u8(input, 0) {
            Some(x) => x,
            None => return Err(ProgramError::BorshIoError),
        };
        if t != 0 {
            return Err(ProgramError::BorshIoError);
        }
        match InitMasterPassArgs::deserialize(input, p) {
            Some((a, end)) => if end == input.len() {
                Ok(NFTPassInstruction::InitMasterPass(a))
            } else {
                Err(ProgramError::BorshIoError)
            },
            None => Err(ProgramError::BorshIoError),
        }
    }
}

/// The account metas of `init_master_pass`, in order.
pub open spec fn init_master_pass_metas(
    master_pass: Seq<u8>,
    source: Seq<u8>,
    token_account: Seq<u8>,
    store: Seq<u8>,
    authority: Seq<u8>,
    payer: Seq<u8>,
    mint: Seq<u8>,
    master_metadata: Seq<u8>,
    master_edition: Seq<u8>,
) -> Seq<(Seq<u8>, bool, bool)> {
    seq![
        meta(master_pass, false, true),
        meta(source, false, true),
        meta(token_account, false, true),
        meta(store, false, true),
        meta(authority, true, false),
        meta(payer, true, false),
        meta(mint, false, false),
        meta(master_metadata, false, false),
        meta(master_edition, false, false),
        meta(rent_sysvar_id_bytes(), false, false),
        meta(system_program_id_bytes(), false, false),
        meta(token_program_id_bytes(), false, false),
    ]
}

/// Create `InitMasterPass` instruction
pub fn init_master_pass(
    program_id: &Pubkey,
    master_pass: &Pubkey,
    source: &Pubkey,
    token_account: &Pubkey,
    store: &Pubkey,
    authority: &Pubkey,
    payer: &Pubkey,
    mint: &Pubkey,
    master_metadata: &Pubkey,
    master_edition: &Pubkey,
    args: InitMasterPassArgs,
) -> (r: Instruction)
    requires
        init_master_pass_args_ok(args@),
    ensures
        r@ == (InstructionView {
            program_id: program_id@,
            accounts: init_master_pass_metas(
                master_pass@,
                source@,
                token_account@,
                store@,
                authority@,
                payer@,
                mint@,
                master_metadata@,
                master_edition@,
            ),
            data: instruction_bytes(NFTPassInstructionView::InitMasterPass(args@)),
        }),
{
    let mut accounts: Vec<AccountMeta> = Vec::new();
    push_meta(&mut accounts, AccountMeta::new(*master_pass, false));
    push_meta(&mut accounts, AccountMeta::new(*source, false));
    push_meta(&mut accounts, AccountMeta::new(*token_account, false));
    push_meta(&mut accounts, AccountMeta::new(*store, false));
    push_meta(&mut accounts, AccountMeta::new_readonly(*authority, true));
    push_meta(&mut accounts, AccountMeta::new_readonly(*payer, true));
    push_meta(&mut accounts, AccountMeta::new_readonly(*mint, false));
    push_meta(&mut accounts, AccountMeta::new_readonly(*master_metadata, false));
    push_meta(&mut accounts, AccountMeta::new_readonly(*master_edition, false));
    push_meta(&mut accounts, AccountMeta::new_readonly(rent_sysvar_id(), false));
    push_meta(&mut accounts, AccountMeta::new_readonly(system_program_id(), false));
    push_meta(&mut accounts, AccountMeta::new_readonly(token_program_id(), false));
    assert(metas_view(accounts@) =~= init_master_pass_metas(
        master_pass@,
        source@,
        token_account@,
        store@,
        authority@,
        payer@,
        mint@,
        master_metadata@,
        master_edition@,
    ));
    let data = NFTPassInstruction::InitMasterPass(args).to_bytes();
    Instruction { program_id: *program_id, accounts, data }
}

} // verus!
