use vstd::prelude::*;

use crate::address::{address_of, parse_pubkey, pubkey_parse, Address};
use crate::error::BubblegumError;

verus! {

/// Capacity and visibility of a new tree.
#[derive(Debug, Clone, Copy, PartialEq, Eq)]
pub struct TreeConfig {
    pub max_depth: u32,
    pub max_buffer_size: u32,
    pub public: bool,
}

/// A creator as the caller describes it: the address is still text.
#[derive(Debug, Clone)]
pub struct CreatorNif {
    pub address: String,
    pub verified: bool,
    pub share: u8,
}

/// Asset metadata as the caller describes it.
#[derive(Debug, Clone)]
pub struct MetadataArgsNif {
    pub name: String,
    pub symbol: String,
    pub uri: String,
    pub seller_fee_basis_points: u16,
    pub primary_sale_happened: bool,
    pub is_mutable: bool,
    pub edition_nonce: Option<u8>,
    pub creators: Vec<CreatorNif>,
    pub collection: Option<String>,
    pub uses: Option<u64>,
}

/// One share of an asset's royalties.
#[derive(Debug, Clone, Copy, PartialEq, Eq)]
pub struct CreatorShare {
    pub address: Address,
    pub verified: bool,
    pub share: u8,
}

/// The collection that an asset claims to belong to.
#[derive(Debug, Clone, Copy, PartialEq, Eq)]
pub struct CollectionRef {
    pub verified: bool,
    pub key: Address,
}

/// How the uses of an asset are counted.
#[derive(Debug, Clone, Copy, PartialEq, Eq)]
pub enum UsageMethod {
    Burn,
    Multiple,
    Single,
}

/// A usage limit of an asset.
#[derive(Debug, Clone, Copy, PartialEq, Eq)]
pub struct UsageLimit {
    pub use_method: UsageMethod,
    pub remaining: u64,
    pub total: u64,
}

/// The token program that an asset is meant for.
#[derive(Debug, Clone, Copy, PartialEq, Eq)]
pub enum TokenProgram {
    Original,
    Token2022,
}

/// The kind of token that an asset is.
#[derive(Debug, Clone, Copy, PartialEq, Eq)]
pub enum AssetStandard {
    NonFungible,
    FungibleAsset,
    Fungible,
    NonFungibleEdition,
}

/// Asset metadata with every address parsed, as a mint instruction carries it.
#[derive(Debug, Clone)]
pub struct AssetMetadata {
    pub name: String,
    pub symbol: String,
    pub uri: String,
    pub seller_fee_basis_points: u16,
    pub primary_sale_happened: bool,
    pub is_mutable: bool,
    pub edition_nonce: Option<u8>,
    pub creators: Vec<CreatorShare>,
    pub collection: Option<CollectionRef>,
    pub uses: Option<UsageLimit>,
    pub token_program_version: TokenProgram,
    pub token_standard: Option<AssetStandard>,
}

/// The usage limit that a use count stands for: none for none, else a
/// multiple-use limit with all `k` uses remaining.
pub open spec fn uses_of(count: Option<u64>) -> Option<UsageLimit> {
    match count {
        Some(k) => Some(UsageLimit { use_method: UsageMethod::Multiple, remaining: k, total: k }),
        None => None,
    }
}

/// Whether every creator address in `input` parses.
pub open spec fn creators_parse(input: Seq<CreatorNif>) -> bool {
    forall|i: int| 0 <= i < input.len() ==> (#[trigger] address_of(input[i].address@)) is Some
}

/// The message of the first creator address in `input` that does not parse.
pub open spec fn first_creator_error(input: Seq<CreatorNif>) -> Option<Seq<char>>
    decreases input.len(),
{
    if input.len() == 0 {
        None
    } else {
        match pubkey_parse(input[0].address@) {
            Err(m) => Some(m),
            Ok(_) => first_creator_error(input.drop_first()),
        }
    }
}

/// The message of the first address of a description that does not parse:
/// the creators in order, then the collection key.
pub open spec fn metadata_error(args: MetadataArgsNif) -> Option<Seq<char>> {
    match first_creator_error(args.creators@) {
        Some(m) => Some(m),
        None => match args.collection {
            Some(s) => match pubkey_parse(s@) {
                Err(m) => Some(m),
                Ok(_) => None,
            },
            None => None,
        },
    }
}

/// Whether `r` failed with the address message `m`, if there is one.
pub open spec fn fails_with<T>(r: Result<T, BubblegumError>, m: Option<Seq<char>>) -> bool {
    match m {
        Some(msg) => r matches Err(BubblegumError::InvalidPublicKey(s)) && s@ == msg,
        None => r is Ok,
    }
}

/// Whether `out` holds the creators of `input`, in order, addresses parsed.
pub open spec fn creators_converted(input: Seq<CreatorNif>, out: Seq<CreatorShare>) -> bool {
    &&& out.len() == input.len()
    &&& forall|i: int|
        0 <= i < input.len() ==> {
            &&& address_of(#[trigger] input[i].address@) == Some(out[i].address@)
            &&& out[i].verified == input[i].verified
            &&& out[i].share == input[i].share
        }
}

/// Whether the collection key, if any, parses.
pub open spec fn collection_parses(input: Option<String>) -> bool {
    match input {
        Some(s) => address_of(s@) is Some,
        None => true,
    }
}

/// Whether `out` is the unverified collection reference for `input`.
pub open spec fn collection_converted(input: Option<String>, out: Option<CollectionRef>) -> bool {
    match (input, out) {
        (Some(s), Some(c)) => address_of(s@) == Some(c.key@) && !c.verified,
        (None, None) => true,
        _ => false,
    }
}

/// Whether a description can be converted: all of its addresses parse.
pub open spec fn metadata_parses(args: MetadataArgsNif) -> bool {
    creators_parse(args.creators@) && collection_parses(args.collection)
}

/// Whether `m` is the conversion of the description `args`.
pub open spec fn metadata_converted(args: MetadataArgsNif, m: AssetMetadata) -> bool {
    &&& m.name@ == args.name@
    &&& m.symbol@ == args.symbol@
    &&& m.uri@ == args.uri@
    &&& m.seller_fee_basis_points == args.seller_fee_basis_points
    &&& m.primary_sale_happened == args.primary_sale_happened
    &&& m.is_mutable == args.is_mutable
    &&& m.edition_nonce == args.edition_nonce
    &&& creators_converted(args.creators@, m.creators@)
    &&& collection_converted(args.collection, m.collection)
    &&& m.uses == uses_of(args.uses)
    &&& m.token_program_version == TokenProgram::Original
    &&& m.token_standard == Some(AssetStandard::NonFungible)
}

/// Parses the address of each creator, in order; the first that fails to
/// parse ends the conversion with its error.
pub fn convert_creators(input: &Vec<CreatorNif>) -> (r: Result<Vec<CreatorShare>, BubblegumError>)
    ensures
        r is Ok <==> creators_parse(input@),
        r matches Ok(out) ==> creators_converted(input@, out@),
        fails_with(r, first_creator_error(input@)),
{
    let mut out: Vec<CreatorShare> = Vec::new();
    let mut i: usize = 0;
    assert(input@.subrange(0, input@.len() as int) =~= input@);
    while i < input.len()
        invariant
            i <= input@.len(),
            out@.len() == i,
            creators_parse(input@.subrange(0, i as int)),
            creators_converted(input@.subrange(0, i as int), out@),
            first_creator_error(input@) == first_creator_error(input@.subrange(i as int, input@.len() as int)),
        decreases input@.len() - i,
    {
        let c = &input[i];
        let ghost rest = input@.subrange(i as int, input@.len() as int);
        assert(rest[0] == input@[i as int]);
        match parse_pubkey(c.address.as_str()) {
            Err(e) => {
                assert(address_of(input@[i as int].address@) is None);
                return Err(e);
            },
            Ok(address) => {
                assert(rest.drop_first() =~= input@.subrange(i + 1, input@.len() as int));
                out.push(CreatorShare { address, verified: c.verified, share: c.share });
                i += 1;
                assert forall|j: int| 0 <= j < i implies {
                    &&& address_of(#[trigger] input@.subrange(0, i as int)[j].address@) == Some(out@[j].address@)
                    &&& out@[j].verified == input@.subrange(0, i as int)[j].verified
                    &&& out@[j].share == input@.subrange(0, i as int)[j].share
                    &&& address_of(input@.subrange(0, i as int)[j].address@) is Some
                } by {
                    if j < i - 1 {
                        assert(input@.subrange(0, i as int)[j] == input@.subrange(0, i - 1)[j]);
                    }
                }
            },
        }
    }
    assert(input@.subrange(0, i as int) =~= input@);
    assert(input@.subrange(i as int, input@.len() as int).len() == 0);
    Ok(out)
}

/// Converts a metadata description into the form a mint instruction
/// carries: creators and collection key parsed, the collection left
/// unverified, the use count expanded into a multiple-use limit, and the
/// asset marked as a non-fungible token of the first token program.
pub fn convert_metadata_args(args: &MetadataArgsNif) -> (r: Result<AssetMetadata, BubblegumError>)
    ensures
        r is Ok <==> metadata_parses(*args),
        r matches Ok(m) ==> metadata_converted(*args, m),
        fails_with(r, metadata_error(*args)),
{
    let creators = match convert_creators(&args.creators) {
        Ok(c) => c,
        Err(e) => return Err(e),
    };
    let collection = match &args.collection {
        Some(text) => match parse_pubkey(text.as_str()) {
            Ok(key) => Some(CollectionRef { verified: false, key }),
            Err(e) => return Err(e),
        },
        None => None,
    };
    let uses = match args.uses {
        Some(k) => Some(UsageLimit { use_method: UsageMethod::Multiple, remaining: k, total: k }),
        None => None,
    };
    Ok(AssetMetadata {
        name: args.name.clone(),
        symbol: args.symbol.clone(),
        uri: args.uri.clone(),
        seller_fee_basis_points: args.seller_fee_basis_points,
        primary_sale_happened: args.primary_sale_happened,
        is_mutable: args.is_mutable,
        edition_nonce: args.edition_nonce,
        creators,
        collection,
        uses,
        token_program_version: TokenProgram::Original,
        token_standard: Some(AssetStandard::NonFungible),
    })
}

} // verus!
