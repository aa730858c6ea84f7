//! The instructions of the program and their encoding: an eight-byte opcode,
//! then the arguments.
//!
//! "Initialize platform" takes no argument. "Create music NFT" takes three
//! pieces of text: name, artist and rarity, in that order. Bytes after the
//! last argument are not looked at.

use vstd::prelude::*;
use vstd::slice::slice_subrange;
use crate::wire::{
    decode_text, encodable, encode_text, lemma_decode_encoded_text, lemma_encode_decoded_text,
    read_text, write_text, TextError,
};

verus! {

/// Opcode of "initialize platform".
pub open spec fn initialize_platform_opcode() -> Seq<u8> {
    seq![119u8, 201u8, 101u8, 45u8, 75u8, 122u8, 89u8, 3u8]
}

/// Opcode of "create music NFT".
pub open spec fn create_music_nft_opcode() -> Seq<u8> {
    seq![102u8, 50u8, 90u8, 201u8, 126u8, 248u8, 148u8, 243u8]
}

/// Whether `data` begins with `opcode`.
pub open spec fn has_opcode(data: Seq<u8>, opcode: Seq<u8>) -> bool {
    data.len() >= opcode.len() && data.subrange(0, opcode.len() as int) == opcode
}

/// The arguments of "create music NFT".
#[derive(Debug, PartialEq, Eq)]
pub struct NftArgs {
    pub name: String,
    pub artist: String,
    pub rarity: String,
}

/// The arguments of "create music NFT" as a mathematical value.
pub struct NftArgsView {
    pub name: Seq<char>,
    pub artist: Seq<char>,
    pub rarity: Seq<char>,
}

impl View for NftArgs {
    type V = NftArgsView;

    open spec fn view(&self) -> NftArgsView {
        NftArgsView { name: self.name@, artist: self.artist@, rarity: self.rarity@ }
    }
}

impl Clone for NftArgs {
    fn clone(&self) -> (copy: NftArgs)
        ensures
            copy@ == self@,
    {
        NftArgs {
            name: self.name.clone(),
            artist: self.artist.clone(),
            rarity: self.rarity.clone(),
        }
    }
}

/// A decoded instruction: which handler is meant, with its arguments.
#[derive(Debug, PartialEq, Eq)]
pub enum Instruction {
    InitializePlatform,
    CreateMusicNft { args: NftArgs },
}

/// An instruction as a mathematical value.
pub enum InstructionView {
    InitializePlatform,
    CreateMusicNft { args: NftArgsView },
}

impl View for Instruction {
    type V = InstructionView;

    open spec fn view(&self) -> InstructionView {
        match self {
            Instruction::InitializePlatform => InstructionView::InitializePlatform,
            Instruction::CreateMusicNft { args } => InstructionView::CreateMusicNft {
                args: args@,
            },
        }
    }
}

impl Clone for Instruction {
    fn clone(&self) -> (copy: Instruction)
        ensures
            copy@ == self@,
    {
        match self {
            Instruction::InitializePlatform => Instruction::InitializePlatform,
            Instruction::CreateMusicNft { args } => Instruction::CreateMusicNft {
                args: args.clone(),
            },
        }
    }
}

/// Why instruction bytes were turned down.
#[derive(Clone, Copy, Debug, PartialEq, Eq, Structural)]
pub enum DecodeError {
    /// The bytes begin with no opcode of this program; this includes input
    /// that is shorter than an opcode.
    UnknownOpcode,
    /// The argument at position `index`, counted from zero, could not be
    /// read.
    Argument { index: usize, error: TextError },
}

/// Whether each argument is short enough to be encoded.
pub open spec fn args_encodable(args: NftArgsView) -> bool {
    encodable(args.name) && encodable(args.artist) && encodable(args.rarity)
}

/// The encoding of the three arguments, one after the other.
pub open spec fn encode_args(args: NftArgsView) -> Seq<u8>
    recommends
        args_encodable(args),
{
    encode_text(args.name) + encode_text(args.artist) + encode_text(args.rarity)
}

/// What reading the three arguments from the front of `bytes` yields: the
/// arguments and the number of bytes they took up, or the first argument
/// that could not be read and why.
pub open spec fn decode_args(bytes: Seq<u8>) -> Result<(NftArgsView, nat), DecodeError> {
    match decode_text(bytes) {
        Err(error) => Err(DecodeError::Argument { index: 0, error }),
        Ok((name, used_name)) => match decode_text(bytes.skip(used_name as int)) {
            Err(error) => Err(DecodeError::Argument { index: 1, error }),
            Ok((artist, used_artist)) => match decode_text(
                bytes.skip(used_name as int).skip(used_artist as int),
            ) {
                Err(error) => Err(DecodeError::Argument { index: 2, error }),
                Ok((rarity, used_rarity)) => Ok(
                    (NftArgsView { name, artist, rarity }, used_name + used_artist + used_rarity),
                ),
            },
        },
    }
}

/// Whether `instruction` can be encoded.
pub open spec fn instruction_encodable(instruction: InstructionView) -> bool {
    match instruction {
        InstructionView::InitializePlatform => true,
        InstructionView::CreateMusicNft { args } => args_encodable(args),
    }
}

/// The encoding of `instruction`: opcode, then arguments.
pub open spec fn encode_instruction(instruction: InstructionView) -> Seq<u8>
    recommends
        instruction_encodable(instruction),
{
    match instruction {
        InstructionView::InitializePlatform => initialize_platform_opcode(),
        InstructionView::CreateMusicNft { args } => create_music_nft_opcode() + encode_args(args),
    }
}

/// The instruction that `data` spells, or why it spells none.
pub open spec fn decode_instruction(data: Seq<u8>) -> Result<InstructionView, DecodeError> {
    if has_opcode(data, initialize_platform_opcode()) {
        Ok(InstructionView::InitializePlatform)
    } else if has_opcode(data, create_music_nft_opcode()) {
        match decode_args(data.skip(8)) {
            Ok((args, _)) => Ok(InstructionView::CreateMusicNft { args }),
            Err(error) => Err(error),
        }
    } else {
        Err(DecodeError::UnknownOpcode)
    }
}

/// Decoding the three arguments and encoding them again gives exactly the
/// bytes that were decoded: the input up to where the third argument ends,
/// and the whole input where nothing follows it.
pub proof fn lemma_decode_then_encode_args(bytes: Seq<u8>)
    requires
        decode_args(bytes) is Ok,
    ensures
        ({
            let (args, used) = decode_args(bytes)->Ok_0;
            &&& used <= bytes.len()
            &&& args_encodable(args)
            &&& encode_args(args) == bytes.subrange(0, used as int)
            &&& used == bytes.len() ==> encode_args(args) == bytes
        }),
{
    let (name, used_name) = decode_text(bytes)->Ok_0;
    lemma_encode_decoded_text(bytes);
    let after_name = bytes.skip(used_name as int);
    let (artist, used_artist) = decode_text(after_name)->Ok_0;
    lemma_encode_decoded_text(after_name);
    let after_artist = after_name.skip(used_artist as int);
    let (rarity, used_rarity) = decode_text(after_artist)->Ok_0;
    lemma_encode_decoded_text(after_artist);
    let used = used_name + used_artist + used_rarity;
    assert(encode_text(name) + encode_text(artist) + encode_text(rarity) =~= bytes.subrange(
        0,
        used as int,
    ));
    if used == bytes.len() {
        assert(bytes.subrange(0, used as int) =~= bytes);
    }
}

/// Encoding three arguments and decoding the result gives the arguments
/// back, whatever bytes follow the encoding.
pub proof fn lemma_encode_then_decode_args(args: NftArgsView, tail: Seq<u8>)
    requires
        args_encodable(args),
    ensures
        decode_args(encode_args(args) + tail) == Ok::<(NftArgsView, nat), DecodeError>(
            (args, encode_args(args).len()),
        ),
{
    let name = encode_text(args.name);
    let artist = encode_text(args.artist);
    let rarity = encode_text(args.rarity);
    let bytes = encode_args(args) + tail;
    assert(bytes =~= name + (artist + rarity + tail));
    lemma_decode_encoded_text(args.name, artist + rarity + tail);
    let after_name = bytes.skip(name.len() as int);
    assert(after_name =~= artist + (rarity + tail));
    lemma_decode_encoded_text(args.artist, rarity + tail);
    let after_artist = after_name.skip(artist.len() as int);
    assert(after_artist =~= rarity + tail);
    lemma_decode_encoded_text(args.rarity, tail);
}

impl NftArgs {
    /// Reads the three arguments from the front of `data`, and says how many
    /// bytes they took up.
    pub fn decode(data: &[u8]) -> (result: Result<(NftArgs, usize), DecodeError>)
        ensures
            match decode_args(data@) {
                Ok((args, used)) => result matches Ok((decoded, n)) && decoded@ == args && n
                    == used,
                Err(error) => result == Err::<(NftArgs, usize), DecodeError>(error),
            },
    {
        let (name, used_name) = match read_text(data) {
            Ok(read) => read,
            Err(error) => {
                return Err(DecodeError::Argument { index: 0, error });
            },
        };
        let after_name = slice_subrange(data, used_name, data.len());
        assert(after_name@ == data@.skip(used_name as int));
        let (artist, used_artist) = match read_text(after_name) {
            Ok(read) => read,
            Err(error) => {
                return Err(DecodeError::Argument { index: 1, error });
            },
        };
        let after_artist = slice_subrange(after_name, used_artist, after_name.len());
        assert(after_artist@ == after_name@.skip(used_artist as int));
        let (rarity, used_rarity) = match read_text(after_artist) {
            Ok(read) => read,
            Err(error) => {
                return Err(DecodeError::Argument { index: 2, error });
            },
        };
        Ok((NftArgs { name, artist, rarity }, used_name + used_artist + used_rarity))
    }

    /// Appends the encoding of the arguments to `out`.
    ///
    /// Returns `false`, and leaves `out` as it was, where an argument is
    /// longer than its length prefix can announce.
    pub fn encode(&self, out: &mut Vec<u8>) -> (written: bool)
        ensures
            written == args_encodable(self@),
            written ==> final(out)@ == old(out)@ + encode_args(self@),
            !written ==> final(out)@ == old(out)@,
    {
        let mut encoded: Vec<u8> = Vec::new();
        if !write_text(self.name.as_str(), &mut encoded) {
            return false;
        }
        if !write_text(self.artist.as_str(), &mut encoded) {
            return false;
        }
        if !write_text(self.rarity.as_str(), &mut encoded) {
            return false;
        }
        assert(encoded@ =~= encode_args(self@));
        out.append(&mut encoded);
        true
    }
}

/// Whether `data` begins with the eight bytes of `opcode`.
fn starts_with_opcode(data: &[u8], opcode: &[u8; 8]) -> (found: bool)
    ensures
        found == has_opcode(data@, opcode@),
{
    if data.len() < 8 {
        return false;
    }
    let mut i: usize = 0;
    while i < 8
        invariant
            i <= 8,
            data@.len() >= 8,
            forall|k: int| 0 <= k < i ==> data@[k] == opcode@[k],
        decreases 8 - i,
    {
        if data[i] != opcode[i] {
            assert(data@.subrange(0, 8)[i as int] != opcode@[i as int]);
            return false;
        }
        i += 1;
    }
    assert(data@.subrange(0, 8) =~= opcode@);
    true
}

/// The eight bytes that open an "initialize platform" instruction.
pub fn initialize_platform_opcode_bytes() -> (opcode: [u8; 8])
    ensures
        opcode@ == initialize_platform_opcode(),
{
    let opcode: [u8; 8] = [119, 201, 101, 45, 75, 122, 89, 3];
    assert(opcode@ =~= initialize_platform_opcode());
    opcode
}

/// The eight bytes that open a "create music NFT" instruction.
pub fn create_music_nft_opcode_bytes() -> (opcode: [u8; 8])
    ensures
        opcode@ == create_music_nft_opcode(),
{
    let opcode: [u8; 8] = [102, 50, 90, 201, 126, 248, 148, 243];
    assert(opcode@ =~= create_music_nft_opcode());
    opcode
}

impl Instruction {
    /// Decodes instruction bytes: the opcode picks the instruction, the rest
    /// is read as its arguments.
    pub fn decode(data: &[u8]) -> (result: Result<Instruction, DecodeError>)
        ensures
            match decode_instruction(data@) {
                Ok(instruction) => result matches Ok(decoded) && decoded@ == instruction,
                Err(error) => result == Err::<Instruction, DecodeError>(error),
            },
    {
        let initialize = initialize_platform_opcode_bytes();
        let create = create_music_nft_opcode_bytes();
        if starts_with_opcode(data, &initialize) {
            Ok(Instruction::InitializePlatform)
        } else if starts_with_opcode(data, &create) {
            let rest = slice_subrange(data, 8, data.len());
            assert(rest@ == data@.skip(8));
            match NftArgs::decode(rest) {
                Ok((args, _)) => Ok(Instruction::CreateMusicNft { args }),
                Err(error) => Err(error),
            }
        } else {
            Err(DecodeError::UnknownOpcode)
        }
    }

    /// Encodes the instruction, or returns `None` where an argument is
    /// longer than its length prefix can announce.
    pub fn encode(&self) -> (result: Option<Vec<u8>>)
        ensures
            result is Some <==> instruction_encodable(self@),
            result matches Some(bytes) ==> bytes@ == encode_instruction(self@),
    {
        let mut out: Vec<u8> = Vec::new();
        match self {
            Instruction::InitializePlatform => {
                let opcode = initialize_platform_opcode_bytes();
                out.extend_from_slice(opcode.as_slice());
                assert(out@ =~= initialize_platform_opcode());
                Some(out)
            },
            Instruction::CreateMusicNft { args } => {
                let opcode = create_music_nft_opcode_bytes();
                out.extend_from_slice(opcode.as_slice());
                if args.encode(&mut out) {
                    assert(out@ =~= create_music_nft_opcode() + encode_args(args@));
                    Some(out)
                } else {
                    None
                }
            },
        }
    }
}

/// Bytes that begin with the opcode of "create music NFT" begin with no
/// other opcode, and what follows the opcode is the rest of the bytes.
proof fn lemma_create_music_nft_prefix(rest: Seq<u8>)
    ensures
        has_opcode(create_music_nft_opcode() + rest, create_music_nft_opcode()),
        !has_opcode(create_music_nft_opcode() + rest, initialize_platform_opcode()),
        (create_music_nft_opcode() + rest).skip(8) == rest,
{
    let data = create_music_nft_opcode() + rest;
    assert(data.subrange(0, 8) =~= create_music_nft_opcode());
    assert(data.subrange(0, 8)[0] != initialize_platform_opcode()[0]);
    assert(data.skip(8) =~= rest);
}

/// Decoding what `encode` wrote gives the instruction back.
pub proof fn lemma_encode_then_decode_instruction(instruction: InstructionView)
    requires
        instruction_encodable(instruction),
    ensures
        decode_instruction(encode_instruction(instruction)) == Ok::<InstructionView, DecodeError>(
            instruction,
        ),
{
    match instruction {
        InstructionView::InitializePlatform => {
            let data = initialize_platform_opcode();
            assert(data.subrange(0, 8) =~= data);
        },
        InstructionView::CreateMusicNft { args } => {
            let encoded = encode_args(args);
            lemma_create_music_nft_prefix(encoded);
            assert(encoded + Seq::<u8>::empty() =~= encoded);
            lemma_encode_then_decode_args(args, Seq::<u8>::empty());
        },
    }
}

/// Decoding an instruction and encoding it again gives the bytes that were
/// decoded: the input up to where the last argument ends.
pub proof fn lemma_decode_then_encode_instruction(data: Seq<u8>)
    requires
        decode_instruction(data) is Ok,
    ensures
        ({
            let instruction = decode_instruction(data)->Ok_0;
            let encoded = encode_instruction(instruction);
            &&& instruction_encodable(instruction)
            &&& encoded.len() <= data.len()
            &&& encoded == data.subrange(0, encoded.len() as int)
        }),
{
    if !has_opcode(data, initialize_platform_opcode()) {
        let rest = data.skip(8);
        lemma_decode_then_encode_args(rest);
        let (args, used) = decode_args(rest)->Ok_0;
        assert(create_music_nft_opcode() + rest.subrange(0, used as int) =~= data.subrange(
            0,
            8 + used as int,
        ));
    }
}

} // verus!
