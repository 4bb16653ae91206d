use vstd::prelude::*;

verus! {

/// The boundary schema documents, each with the module that it declares.
pub open spec fn schema_catalogue() -> Seq<(Seq<char>, Seq<char>)> {
    seq![
        ("proposal_common.witx"@, "wasi_ephemeral_crypto_common"@),
        ("proposal_asymmetric_common.witx"@, "wasi_ephemeral_crypto_asymmetric_common"@),
        ("proposal_signatures.witx"@, "wasi_ephemeral_crypto_signatures"@),
        ("proposal_symmetric.witx"@, "wasi_ephemeral_crypto_symmetric"@),
        ("proposal_external_secrets.witx"@, "wasi_ephemeral_crypto_external_secrets"@),
        ("proposal_kx.witx"@, "wasi_ephemeral_crypto_kx"@),
        ("wasi_ephemeral_crypto.witx"@, "wasi_ephemeral_crypto"@),
    ]
}

/// Lists the schema documents of the boundary, by file name, with the
/// module each one declares.
pub fn witx_interfaces() -> (r: Vec<(&'static str, &'static str)>)
    ensures
        r@.len() == schema_catalogue().len(),
        forall|i: int| 0 <= i < r@.len() ==> (#[trigger] r@[i]).0@ == schema_catalogue()[i].0 && r@[i].1@ == schema_catalogue()[i].1,
{
    let r = vec![
        ("proposal_common.witx", "wasi_ephemeral_crypto_common"),
        ("proposal_asymmetric_common.witx", "wasi_ephemeral_crypto_asymmetric_common"),
        ("proposal_signatures.witx", "wasi_ephemeral_crypto_signatures"),
        ("proposal_symmetric.witx", "wasi_ephemeral_crypto_symmetric"),
        ("proposal_external_secrets.witx", "wasi_ephemeral_crypto_external_secrets"),
        ("proposal_kx.witx", "wasi_ephemeral_crypto_kx"),
        ("wasi_ephemeral_crypto.witx", "wasi_ephemeral_crypto"),
    ];
    r
}

} // verus!
