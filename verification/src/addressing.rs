use vstd::prelude::*;

use vstd::slice::slice_to_vec;
use vstd::string::StringSliceAdditionalSpecFns;

verus! {

/// The namespace tag of regular vaults: the bytes of "vault".
pub open spec fn vault_seed() -> Seq<u8> {
    seq![118u8, 97u8, 117u8, 108u8, 116u8]
}

/// The namespace tag of the administrative vault: the bytes of "admin-vault".
pub open spec fn admin_vault_seed() -> Seq<u8> {
    seq![97u8, 100u8, 109u8, 105u8, 110u8, 45u8, 118u8, 97u8, 117u8, 108u8, 116u8]
}

/// The namespace tag of the singleton record: the bytes of "program_info".
pub open spec fn program_info_seed() -> Seq<u8> {
    seq![112u8, 114u8, 111u8, 103u8, 114u8, 97u8, 109u8, 95u8, 105u8, 110u8, 102u8, 111u8]
}

pub fn vault_seed_bytes() -> (r: Vec<u8>)
    ensures
        r@ == vault_seed(),
{
    let mut v: Vec<u8> = Vec::new();
    v.push(118);
    v.push(97);
    v.push(117);
    v.push(108);
    v.push(116);
    proof {
        assert(v@ =~= vault_seed());
    }
    v
}

pub fn admin_vault_seed_bytes() -> (r: Vec<u8>)
    ensures
        r@ == admin_vault_seed(),
{
    let mut v: Vec<u8> = Vec::new();
    v.push(97);
    v.push(100);
    v.push(109);
    v.push(105);
    v.push(110);
    v.push(45);
    v.push(118);
    v.push(97);
    v.push(117);
    v.push(108);
    v.push(116);
    proof {
        assert(v@ =~= admin_vault_seed());
    }
    v
}

pub fn program_info_seed_bytes() -> (r: Vec<u8>)
    ensures
        r@ == program_info_seed(),
{
    let mut v: Vec<u8> = Vec::new();
    v.push(112);
    v.push(114);
    v.push(111);
    v.push(103);
    v.push(114);
    v.push(97);
    v.push(109);
    v.push(95);
    v.push(105);
    v.push(110);
    v.push(102);
    v.push(111);
    proof {
        assert(v@ =~= program_info_seed());
    }
    v
}

/// A vault index as the four big-endian bytes that seed its address.
pub open spec fn u32_be_bytes(x: u32) -> Seq<u8> {
    seq![(x >> 24) as u8, ((x >> 16) & 0xff) as u8, ((x >> 8) & 0xff) as u8, (x & 0xff) as u8]
}

pub fn u32_to_be_bytes(x: u32) -> (r: Vec<u8>)
    ensures
        r@ == u32_be_bytes(x),
{
    let b0: u8 = (x >> 24) as u8;
    let b1: u8 = ((x >> 16) & 0xff) as u8;
    let b2: u8 = ((x >> 8) & 0xff) as u8;
    let b3: u8 = (x & 0xff) as u8;
    assert(x >> 24 <= 0xff && (x >> 16) & 0xff <= 0xff && (x >> 8) & 0xff <= 0xff && x & 0xff
        <= 0xff) by (bit_vector);
    let mut v: Vec<u8> = Vec::new();
    v.push(b0);
    v.push(b1);
    v.push(b2);
    v.push(b3);
    proof {
        assert(v@ =~= u32_be_bytes(x));
    }
    v
}

/// The big-endian encoding separates indices: equal byte strings come only
/// from equal indices.
pub proof fn lemma_u32_be_bytes_injective(a: u32, b: u32)
    ensures
        u32_be_bytes(a) == u32_be_bytes(b) ==> a == b,
{
    if u32_be_bytes(a) == u32_be_bytes(b) {
        assert(u32_be_bytes(a)[0] == u32_be_bytes(b)[0]);
        assert(u32_be_bytes(a)[1] == u32_be_bytes(b)[1]);
        assert(u32_be_bytes(a)[2] == u32_be_bytes(b)[2]);
        assert(u32_be_bytes(a)[3] == u32_be_bytes(b)[3]);
        assert(((a >> 24) as u8 == (b >> 24) as u8 && ((a >> 16) & 0xff) as u8 == ((b >> 16)
            & 0xff) as u8 && ((a >> 8) & 0xff) as u8 == ((b >> 8) & 0xff) as u8 && (a & 0xff) as u8
            == (b & 0xff) as u8) ==> a == b) by (bit_vector);
    }
}

/// The seed list from which a regular vault's address is derived: the vault
/// namespace tag and the big-endian index.
pub open spec fn vault_seeds(index: u32) -> Seq<Seq<u8>> {
    seq![vault_seed(), u32_be_bytes(index)]
}

/// Derivation injectivity over the index space: different indices never feed
/// the same input to the address derivation, so two vaults created at
/// different indices can only collide if the collaborator's hash itself
/// collides.
pub proof fn lemma_vault_seeds_injective(i: u32, j: u32)
    ensures
        i != j ==> vault_seeds(i) != vault_seeds(j),
{
    lemma_u32_be_bytes_injective(i, j);
    if i != j {
        assert(vault_seeds(i)[1] == u32_be_bytes(i));
        assert(vault_seeds(j)[1] == u32_be_bytes(j));
    }
}

pub fn build_vault_seeds(index: u32) -> (r: Vec<Vec<u8>>)
    ensures
        r@.map_values(|s: Vec<u8>| s@) == vault_seeds(index),
{
    let mut r: Vec<Vec<u8>> = Vec::new();
    r.push(vault_seed_bytes());
    r.push(u32_to_be_bytes(index));
    proof {
        assert(r@.map_values(|s: Vec<u8>| s@) =~= vault_seeds(index));
    }
    r
}

/// What the address derivation of the ledger host returns for a seed list
/// and a program id: either a derived 32-byte address with its bump proof,
/// or nothing when no viable bump exists.
pub uninterp spec fn pda_of(seeds: Seq<Seq<u8>>, program_id: Seq<u8>) -> Option<(Seq<u8>, u8)>;

pub open spec fn pda_view(r: Option<(Vec<u8>, u8)>) -> Option<(Seq<u8>, u8)> {
    match r {
        Some(p) => Some((p.0@, p.1)),
        None => None,
    }
}

/// Relies on solana_pubkey::Pubkey::try_find_program_address: the result is
/// a pure function of the seeds and the program id, a returned address is 32
/// bytes, and None comes back only when a seed is over-long, there are too
/// many seeds, or no viable bump exists.
#[verifier::external_body]
fn try_find_program_address(seeds: &Vec<Vec<u8>>, program_id: &Vec<u8>) -> (r: Option<
    (Vec<u8>, u8),
>)
    requires
        program_id@.len() == 32,
    ensures
        pda_view(r) == pda_of(seeds@.map_values(|s: Vec<u8>| s@), program_id@),
        r matches Some(p) ==> p.0@.len() == 32,
{
    let seed_slices: Vec<&[u8]> = seeds.iter().map(|s| s.as_slice()).collect();
    let pid = solana_pubkey::Pubkey::new_from_array(program_id.as_slice().try_into().unwrap());
    solana_pubkey::Pubkey::try_find_program_address(&seed_slices, &pid).map(
        |p: (solana_pubkey::Pubkey, u8)| (p.0.to_bytes().to_vec(), p.1),
    )
}

/// What SHA-256 returns for a byte string.
pub uninterp spec fn sha256_of(data: Seq<u8>) -> Seq<u8>;

/// Relies on solana_sha256_hasher::hash: the SHA-256 digest of the input, a
/// pure function of the bytes alone, 32 bytes long.
#[verifier::external_body]
fn sha256(data: &Vec<u8>) -> (r: Vec<u8>)
    ensures
        r@ == sha256_of(data@),
        r@.len() == 32,
{
    solana_sha256_hasher::hash(data.as_slice()).to_bytes().to_vec()
}

/// The hash preimage behind a dispatch discriminator: namespace, a colon,
/// and the instruction name.
pub open spec fn anchor_preimage(namespace: Seq<u8>, name: Seq<u8>) -> Seq<u8> {
    namespace + seq![58u8] + name
}

/// The eight-byte dispatch discriminator of an instruction: the first eight
/// bytes of the SHA-256 digest of `namespace:name`.
pub fn compute_anchor_discriminator(namespace: &str, name: &str) -> (r: [u8; 8])
    ensures
        r@ == sha256_of(anchor_preimage(namespace.spec_bytes(), name.spec_bytes())).take(8),
{
    let mut preimage: Vec<u8> = slice_to_vec(namespace.as_bytes());
    preimage.push(58);
    let mut tail: Vec<u8> = slice_to_vec(name.as_bytes());
    preimage.append(&mut tail);
    proof {
        assert(preimage@ =~= anchor_preimage(namespace.spec_bytes(), name.spec_bytes()));
    }
    let digest = sha256(&preimage);
    let r: [u8; 8] = [
        digest[0],
        digest[1],
        digest[2],
        digest[3],
        digest[4],
        digest[5],
        digest[6],
        digest[7],
    ];
    proof {
        assert(r@ =~= sha256_of(anchor_preimage(namespace.spec_bytes(), name.spec_bytes())).take(
            8,
        ));
    }
    r
}

/// Derives the address of the vault at `vault_index`, exactly as the ledger
/// host will: from the vault namespace tag and the big-endian index.
pub fn derive_vault_pda(vault_index: u32, program_id: &Vec<u8>) -> (r: Option<Vec<u8>>)
    requires
        program_id@.len() == 32,
    ensures
        match r {
            Some(v) => pda_of(vault_seeds(vault_index), program_id@) == Some((v@, pda_of(
                vault_seeds(vault_index),
                program_id@,
            )->Some_0.1)) && v@.len() == 32,
            None => pda_of(vault_seeds(vault_index), program_id@) is None,
        },
{
    let seeds = build_vault_seeds(vault_index);
    match try_find_program_address(&seeds, program_id) {
        Some(p) => Some(p.0),
        None => None,
    }
}

/// Derives the administrative vault's fixed address and bump proof.
pub fn derive_admin_vault_pda(program_id: &Vec<u8>) -> (r: Option<(Vec<u8>, u8)>)
    requires
        program_id@.len() == 32,
    ensures
        pda_view(r) == pda_of(seq![admin_vault_seed()], program_id@),
        r matches Some(p) ==> p.0@.len() == 32,
{
    let mut seeds: Vec<Vec<u8>> = Vec::new();
    seeds.push(admin_vault_seed_bytes());
    proof {
        assert(seeds@.map_values(|s: Vec<u8>| s@) =~= seq![admin_vault_seed()]);
    }
    try_find_program_address(&seeds, program_id)
}

/// Derives the singleton record's fixed address and bump proof.
pub fn derive_program_info_pda(program_id: &Vec<u8>) -> (r: Option<(Vec<u8>, u8)>)
    requires
        program_id@.len() == 32,
    ensures
        pda_view(r) == pda_of(seq![program_info_seed()], program_id@),
        r matches Some(p) ==> p.0@.len() == 32,
{
    let mut seeds: Vec<Vec<u8>> = Vec::new();
    seeds.push(program_info_seed_bytes());
    proof {
        assert(seeds@.map_values(|s: Vec<u8>| s@) =~= seq![program_info_seed()]);
    }
    try_find_program_address(&seeds, program_id)
}


/// The relation between a derivation outcome and what the ledger host
/// derives for a vault index.
pub open spec fn derived_vault_address(index: u32, program_id: Seq<u8>, o: Option<Vec<u8>>) -> bool {
    match (o, pda_of(vault_seeds(index), program_id)) {
        (Some(v), Some(p)) => v@ == p.0,
        (None, None) => true,
        _ => false,
    }
}

/// The whole enumeration plan of the driver: the derived address of every
/// vault index below the recorded count, strictly in index order.
pub fn derive_all_vault_pdas(vaults_count: u32, program_id: &Vec<u8>) -> (r: Vec<Option<Vec<u8>>>)
    requires
        program_id@.len() == 32,
    ensures
        r@.len() == vaults_count,
        forall|i: int|
            0 <= i < vaults_count ==> derived_vault_address(i as u32, program_id@, #[trigger] r@[i]),
{
    let mut r: Vec<Option<Vec<u8>>> = Vec::new();
    let mut i: u32 = 0;
    while i < vaults_count
        invariant
            program_id@.len() == 32,
            i <= vaults_count,
            r@.len() == i,
            forall|j: int|
                0 <= j < i ==> derived_vault_address(j as u32, program_id@, #[trigger] r@[j]),
        decreases vaults_count - i,
    {
        r.push(derive_vault_pda(i, program_id));
        i = i + 1;
    }
    r
}

} // verus!
