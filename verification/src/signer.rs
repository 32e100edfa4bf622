use vstd::prelude::*;

use solana_sdk::signer::Signer;

verus! {

// ---------------------------------------------------------------------------
// The signing provider: deriving an address from a secret and signing the
// protocol messages. The cryptography itself is solana's; its results are
// functions of the secret and the message alone, named below, and
// everything the library proves about the flow is stated over those names.
// ---------------------------------------------------------------------------

/// Whether a text is a well-formed encoded secret key: base58 text that
/// decodes to a 64-byte keypair.
pub uninterp spec fn secret_ok(secret: Seq<char>) -> bool;

/// The address derived from a wallet secret, in its display form.
pub uninterp spec fn addr_of(secret: Seq<char>) -> Seq<char>;

/// The signature a wallet with this secret produces over a message, in its
/// display form.
pub uninterp spec fn sig_of(secret: Seq<char>, message: Seq<char>) -> Seq<char>;

#[verifier::external_type_specification]
#[verifier::external_body]
pub struct ExKeypair(solana_sdk::signature::Keypair);

/// A signing wallet: an opaque keypair together with the secret text it
/// corresponds to. Its view is that secret text.
pub struct Wallet {
    keypair: solana_sdk::signature::Keypair,
    secret: String,
}

/// The error of a credential that is not a well-formed secret key. Local
/// and recoverable: it aborts only the one execution that used it.
#[derive(Clone, Copy, Debug, PartialEq, Eq, Structural)]
pub struct InvalidSecret;

impl View for Wallet {
    type V = Seq<char>;

    closed spec fn view(&self) -> Seq<char> {
        self.secret@
    }
}

impl Wallet {
    /// The secret this wallet was built from.
    pub fn secret(&self) -> (r: &String)
        ensures
            r@ == self@,
    {
        &self.secret
    }
}

/// Relies on solana's `Keypair::try_from_base58_string`: it recovers a
/// keypair exactly when the text decodes as a well-formed 64-byte
/// keypair — a deterministic property of the text — and fails otherwise.
#[verifier::external_body]
pub fn get_wallet(private_key: &str) -> (r: Result<Wallet, InvalidSecret>)
    ensures
        r matches Ok(w) ==> w@ == private_key@ && secret_ok(private_key@),
        r is Ok <==> secret_ok(private_key@),
{
    match solana_sdk::signature::Keypair::try_from_base58_string(private_key) {
        Ok(keypair) => Ok(Wallet { keypair, secret: private_key.to_owned() }),
        Err(_) => Err(InvalidSecret),
    }
}

/// Relies on solana's `Signer::pubkey` and the address's base58 display:
/// the address is a function of the keypair — and so of the secret —
/// alone.
#[verifier::external_body]
pub fn get_address(wallet: &Wallet) -> (r: String)
    ensures
        r@ == addr_of(wallet@),
{
    wallet.keypair.pubkey().to_string()
}

/// Relies on solana's `Signer::sign_message` (deterministic ed25519) and
/// the signature's base58 display: the signature is a function of the
/// keypair and the message alone.
#[verifier::external_body]
pub fn sign_message(wallet: &Wallet, message: &str) -> (r: String)
    ensures
        r@ == sig_of(wallet@, message@),
{
    wallet.keypair.sign_message(message.as_bytes()).to_string()
}

/// Relies on solana's `Keypair::new` (operating-system randomness) and
/// `to_base58_string`: a fresh one-time identity. Its secret is random, but
/// always a well-formed secret key, since the base58 encoding of a keypair
/// decodes back to it.
#[verifier::external_body]
pub fn generate_wallet() -> (r: Wallet)
    ensures
        secret_ok(r@),
{
    let keypair = solana_sdk::signature::Keypair::new();
    let secret = keypair.to_base58_string();
    Wallet { keypair, secret }
}

} // verus!
